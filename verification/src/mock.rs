//! In-memory transports for driving the radio with zero hardware: a
//! transaction-level mock of the [`Hal`] interface and a pin-level mock of
//! the [`Port`] interface. Both record every action they perform and hand
//! back scripted responses for reads, so a caller can check the exact wire
//! traffic a driver operation produces.

use vstd::prelude::*;

use crate::base::{Hal, Port, PortEvent, Xact};
use crate::Error;

verus! {

/// Copy a byte vector.
fn copy_bytes(src: &Vec<u8>) -> (r: Vec<u8>)
    ensures
        r@ == src@,
{
    let n = src.len();
    let mut out: Vec<u8> = Vec::new();
    let mut i: usize = 0;
    while i < n
        invariant
            i <= n,
            n == src@.len(),
            out@ == src@.subrange(0, i as int),
        decreases n - i,
    {
        out.push(src[i]);
        proof {
            assert(out@ =~= src@.subrange(0, i as int + 1));
        }
        i = i + 1;
    }
    proof {
        assert(out@ =~= src@);
    }
    out
}

/// Build the payload a scripted read hands back: the scripted bytes where the
/// script reaches, zeroes beyond it, truncated or padded to length `n`.
fn scripted_payload(script: Option<&Vec<u8>>, n: usize) -> (r: Vec<u8>)
    ensures
        r@.len() == n,
{
    let mut out: Vec<u8> = Vec::new();
    let mut i: usize = 0;
    while i < n
        invariant
            i <= n,
            out@.len() == i,
        decreases n - i,
    {
        let b: u8 = match script {
            Some(s) => {
                if i < s.len() {
                    s[i]
                } else {
                    0
                }
            },
            None => 0,
        };
        out.push(b);
        i = i + 1;
    }
    out
}

/// One recorded transaction, as executable data.
#[derive(Clone, PartialEq, Eq, Debug)]
pub enum XactRec {
    /// The chip reset sequence.
    Reset,
    /// A command write: opcode then payload.
    WriteCmd {
        /// The command opcode.
        op: u8,
        /// The payload bytes written.
        data: Vec<u8>,
    },
    /// A command read: opcode then returned payload.
    ReadCmd {
        /// The command opcode.
        op: u8,
        /// The payload bytes handed back.
        data: Vec<u8>,
    },
    /// A register write: address then payload.
    WriteRegs {
        /// The register address.
        reg: u16,
        /// The payload bytes written.
        data: Vec<u8>,
    },
    /// A register read: address then returned payload.
    ReadRegs {
        /// The register address.
        reg: u16,
        /// The payload bytes handed back.
        data: Vec<u8>,
    },
    /// A buffer write: offset then payload.
    WriteBuff {
        /// The buffer offset.
        offset: u8,
        /// The payload bytes written.
        data: Vec<u8>,
    },
    /// A buffer read: offset then returned payload.
    ReadBuff {
        /// The buffer offset.
        offset: u8,
        /// The payload bytes handed back.
        data: Vec<u8>,
    },
}

impl View for XactRec {
    type V = Xact;

    open spec fn view(&self) -> Xact {
        match self {
            XactRec::Reset => Xact::Reset,
            XactRec::WriteCmd { op, data } => Xact::WriteCmd { op: *op, wdata: data@ },
            XactRec::ReadCmd { op, data } => Xact::ReadCmd { rop: *op, rdata: data@ },
            XactRec::WriteRegs { reg, data } => Xact::WriteRegs { wreg: *reg, wrdata: data@ },
            XactRec::ReadRegs { reg, data } => Xact::ReadRegs { rreg: *reg, rrdata: data@ },
            XactRec::WriteBuff { offset, data } => Xact::WriteBuff {
                woff: *offset,
                wbdata: data@,
            },
            XactRec::ReadBuff { offset, data } => Xact::ReadBuff { roff: *offset, rbdata: data@ },
        }
    }
}

/// A transaction-level mock device: it records every transaction and answers
/// reads from a queue of scripted responses (zero-filled once the queue is
/// spent). Every operation succeeds.
pub struct MockHal {
    records: Vec<XactRec>,
    read_data: Vec<Vec<u8>>,
    read_idx: usize,
}

impl MockHal {
    /// A mock with an empty history and no scripted responses.
    pub fn new() -> (m: MockHal)
        ensures
            m.log() == Seq::<Xact>::empty(),
    {
        let m = MockHal { records: Vec::new(), read_data: Vec::new(), read_idx: 0 };
        proof {
            assert(m.log() =~= Seq::<Xact>::empty());
        }
        m
    }

    /// Queue the payload the next unanswered read will hand back.
    pub fn push_read_response(&mut self, d: Vec<u8>)
        ensures
            final(self).log() == old(self).log(),
    {
        self.read_data.push(d);
    }

    /// The recorded transactions, oldest first.
    pub fn records(&self) -> (r: &Vec<XactRec>)
        ensures
            r@.map_values(|x: XactRec| x@) == self.log(),
    {
        &self.records
    }

    /// Answer a read of `data.len()` bytes from the script queue.
    fn fill_next(&mut self, data: &mut Vec<u8>)
        ensures
            final(self).records == old(self).records,
            final(data)@.len() == old(data)@.len(),
    {
        let n = data.len();
        let filled = if self.read_idx < self.read_data.len() {
            let out = scripted_payload(Some(&self.read_data[self.read_idx]), n);
            self.read_idx = self.read_idx + 1;
            out
        } else {
            scripted_payload(None, n)
        };
        *data = filled;
    }

    /// Record one transaction.
    fn record(&mut self, rec: XactRec)
        ensures
            final(self).log() == old(self).log().push(rec@),
            final(self).read_data == old(self).read_data,
            final(self).read_idx == old(self).read_idx,
    {
        let ghost l0 = self.records@;
        let ghost gx = rec@;
        self.records.push(rec);
        proof {
            assert(self.records@.map_values(|x: XactRec| x@) =~= l0.map_values(
                |x: XactRec| x@,
            ).push(gx));
        }
    }
}

impl Hal for MockHal {
    closed spec fn log(&self) -> Seq<Xact> {
        self.records@.map_values(|x: XactRec| x@)
    }

    fn reset(&mut self) -> (r: Result<(), Error>) {
        self.record(XactRec::Reset);
        Ok(())
    }

    fn write_cmd(&mut self, command: u8, data: &Vec<u8>) -> (r: Result<(), Error>) {
        let copy = copy_bytes(data);
        self.record(XactRec::WriteCmd { op: command, data: copy });
        Ok(())
    }

    fn read_cmd(&mut self, command: u8, data: &mut Vec<u8>) -> (r: Result<(), Error>) {
        self.fill_next(data);
        let copy = copy_bytes(data);
        self.record(XactRec::ReadCmd { op: command, data: copy });
        Ok(())
    }

    fn write_regs(&mut self, reg: u16, data: &Vec<u8>) -> (r: Result<(), Error>) {
        let copy = copy_bytes(data);
        self.record(XactRec::WriteRegs { reg, data: copy });
        Ok(())
    }

    fn read_regs(&mut self, reg: u16, data: &mut Vec<u8>) -> (r: Result<(), Error>) {
        self.fill_next(data);
        let copy = copy_bytes(data);
        self.record(XactRec::ReadRegs { reg, data: copy });
        Ok(())
    }

    fn write_buff(&mut self, offset: u8, data: &Vec<u8>) -> (r: Result<(), Error>) {
        let copy = copy_bytes(data);
        self.record(XactRec::WriteBuff { offset, data: copy });
        Ok(())
    }

    fn read_buff(&mut self, offset: u8, data: &mut Vec<u8>) -> (r: Result<(), Error>) {
        self.fill_next(data);
        let copy = copy_bytes(data);
        self.record(XactRec::ReadBuff { offset, data: copy });
        Ok(())
    }
}

/// One recorded pin or SPI action, as executable data.
#[derive(Clone, PartialEq, Eq, Debug)]
pub enum PortEventRec {
    /// The shutdown line was driven.
    SdnSet {
        /// The level the line was driven to.
        high: bool,
    },
    /// The busy pin was sampled.
    BusyRead {
        /// The level that was read.
        busy: bool,
    },
    /// The DIO pin was sampled.
    DioRead {
        /// The level that was read.
        dio: bool,
    },
    /// A millisecond delay.
    DelayMs {
        /// Length of the delay.
        ms: u32,
    },
    /// A microsecond delay.
    DelayUs {
        /// Length of the delay.
        us: u32,
    },
    /// An SPI write bracket.
    SpiWrite {
        /// The prefix bytes.
        prefix: Vec<u8>,
        /// The payload bytes written.
        data: Vec<u8>,
    },
    /// An SPI read bracket.
    SpiRead {
        /// The prefix bytes.
        prefix: Vec<u8>,
        /// The payload bytes handed back.
        data: Vec<u8>,
    },
}

impl View for PortEventRec {
    type V = PortEvent;

    open spec fn view(&self) -> PortEvent {
        match self {
            PortEventRec::SdnSet { high } => PortEvent::SdnSet { high: *high },
            PortEventRec::BusyRead { busy } => PortEvent::BusyRead { busy: *busy },
            PortEventRec::DioRead { dio } => PortEvent::DioRead { dio: *dio },
            PortEventRec::DelayMs { ms } => PortEvent::DelayMs { ms: *ms },
            PortEventRec::DelayUs { us } => PortEvent::DelayUs { us: *us },
            PortEventRec::SpiWrite { prefix, data } => PortEvent::SpiWrite {
                wprefix: prefix@,
                wdata: data@,
            },
            PortEventRec::SpiRead { prefix, data } => PortEvent::SpiRead {
                rprefix: prefix@,
                rdata: data@,
            },
        }
    }
}

/// A pin-level mock transport: it records every pin, delay and SPI action,
/// reports the busy pin high for a configurable number of samples (then low),
/// and answers SPI reads from a queue of scripted responses. Every operation
/// succeeds.
pub struct MockPort {
    events: Vec<PortEventRec>,
    busy_high_remaining: u32,
    read_data: Vec<Vec<u8>>,
    read_idx: usize,
}

impl MockPort {
    /// A mock port with an empty history, a busy pin that always reads low,
    /// and no scripted responses.
    pub fn new() -> (m: MockPort)
        ensures
            m.log() == Seq::<PortEvent>::empty(),
    {
        let m = MockPort {
            events: Vec::new(),
            busy_high_remaining: 0,
            read_data: Vec::new(),
            read_idx: 0,
        };
        proof {
            assert(m.log() =~= Seq::<PortEvent>::empty());
        }
        m
    }

    /// Let the next `n` busy samples read high before the pin settles low.
    pub fn set_busy_high(&mut self, n: u32)
        ensures
            final(self).log() == old(self).log(),
    {
        self.busy_high_remaining = n;
    }

    /// Queue the payload the next unanswered SPI read will hand back.
    pub fn push_read_response(&mut self, d: Vec<u8>)
        ensures
            final(self).log() == old(self).log(),
    {
        self.read_data.push(d);
    }

    /// The recorded pin and SPI actions, oldest first.
    pub fn events(&self) -> (r: &Vec<PortEventRec>)
        ensures
            r@.map_values(|x: PortEventRec| x@) == self.log(),
    {
        &self.events
    }

    /// Record one action.
    fn record(&mut self, rec: PortEventRec)
        ensures
            final(self).log() == old(self).log().push(rec@),
            final(self).busy_high_remaining == old(self).busy_high_remaining,
            final(self).read_data == old(self).read_data,
            final(self).read_idx == old(self).read_idx,
    {
        let ghost l0 = self.events@;
        let ghost gx = rec@;
        self.events.push(rec);
        proof {
            assert(self.events@.map_values(|x: PortEventRec| x@) =~= l0.map_values(
                |x: PortEventRec| x@,
            ).push(gx));
        }
    }
}

impl Port for MockPort {
    closed spec fn log(&self) -> Seq<PortEvent> {
        self.events@.map_values(|x: PortEventRec| x@)
    }

    fn set_sdn(&mut self, high: bool) -> (r: Result<(), Error>) {
        self.record(PortEventRec::SdnSet { high });
        Ok(())
    }

    fn get_busy(&mut self) -> (r: Result<bool, Error>) {
        let busy = if self.busy_high_remaining > 0 {
            self.busy_high_remaining = self.busy_high_remaining - 1;
            true
        } else {
            false
        };
        self.record(PortEventRec::BusyRead { busy });
        Ok(busy)
    }

    fn get_dio(&mut self) -> (r: Result<bool, Error>) {
        self.record(PortEventRec::DioRead { dio: false });
        Ok(false)
    }

    fn delay_ms(&mut self, ms: u32) {
        self.record(PortEventRec::DelayMs { ms });
    }

    fn delay_us(&mut self, us: u32) {
        self.record(PortEventRec::DelayUs { us });
    }

    fn spi_write(&mut self, prefix: &Vec<u8>, data: &Vec<u8>) -> (r: Result<(), Error>) {
        let p = copy_bytes(prefix);
        let d = copy_bytes(data);
        self.record(PortEventRec::SpiWrite { prefix: p, data: d });
        Ok(())
    }

    fn spi_read(&mut self, prefix: &Vec<u8>, data: &mut Vec<u8>) -> (r: Result<(), Error>) {
        let n = data.len();
        let filled = if self.read_idx < self.read_data.len() {
            let out = scripted_payload(Some(&self.read_data[self.read_idx]), n);
            self.read_idx = self.read_idx + 1;
            out
        } else {
            scripted_payload(None, n)
        };
        *data = filled;
        let p = copy_bytes(prefix);
        let d = copy_bytes(data);
        self.record(PortEventRec::SpiRead { prefix: p, data: d });
        Ok(())
    }
}

} // verus!
