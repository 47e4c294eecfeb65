//! Transport layers for the radio device: the pin and SPI level port, the
//! busy-synchronised register/command protocol over it, and the
//! transaction-level interface the driver is written against.
//!
//! Both layers are specified by event histories. A [`Port`] records every pin
//! sample, delay and SPI bracket it performs; the protocol functions here are
//! proved to bracket every SPI transfer with bounded busy-pin waits and to
//! emit exactly the documented prefix bytes. A [`Hal`] records whole
//! transactions; the driver's contracts are stated over that log.

use vstd::prelude::*;

use crate::device::{Commands, BUSY_TIMEOUT_MS};
use crate::{spec_transport_err, Error};

verus! {

/// One observable action at the pin and SPI level of the transport.
pub enum PortEvent {
    /// The shutdown (reset) line was driven high or low.
    SdnSet {
        /// The level the line was driven to.
        high: bool,
    },
    /// The busy pin was sampled.
    BusyRead {
        /// The level that was read.
        busy: bool,
    },
    /// The DIO (ready) pin was sampled.
    DioRead {
        /// The level that was read.
        dio: bool,
    },
    /// A delay of the given number of milliseconds.
    DelayMs {
        /// Length of the delay.
        ms: u32,
    },
    /// A delay of the given number of microseconds.
    DelayUs {
        /// Length of the delay.
        us: u32,
    },
    /// One chip-select bracket writing a prefix and then payload bytes.
    SpiWrite {
        /// The prefix bytes written first.
        wprefix: Seq<u8>,
        /// The payload bytes written after the prefix.
        wdata: Seq<u8>,
    },
    /// One chip-select bracket writing a prefix and then reading payload bytes.
    SpiRead {
        /// The prefix bytes written first.
        rprefix: Seq<u8>,
        /// The payload bytes read back.
        rdata: Seq<u8>,
    },
}

/// The pin, delay and SPI primitives of a transport, specified by the history
/// of actions it has performed. Implementations wrap the physical bus; every
/// primitive appends exactly one event to the history.
pub trait Port {
    /// The history of pin, delay and SPI actions this port has performed.
    spec fn log(&self) -> Seq<PortEvent>;

    /// Drive the shutdown (reset) line to the given level.
    fn set_sdn(&mut self, high: bool) -> (r: Result<(), Error>)
        ensures
            r is Ok ==> final(self).log() == old(self).log().push(
                PortEvent::SdnSet { high },
            ),
            r is Err ==> final(self).log() == old(self).log(),
            r matches Err(e) ==> spec_transport_err(e),
    ;

    /// Sample the busy pin; true is asserted (high).
    fn get_busy(&mut self) -> (r: Result<bool, Error>)
        ensures
            r matches Ok(b) ==> final(self).log() == old(self).log().push(
                PortEvent::BusyRead { busy: b },
            ),
            r is Err ==> final(self).log() == old(self).log(),
            r matches Err(e) ==> spec_transport_err(e),
    ;

    /// Sample the DIO (ready) pin; true is asserted (high).
    fn get_dio(&mut self) -> (r: Result<bool, Error>)
        ensures
            r matches Ok(b) ==> final(self).log() == old(self).log().push(
                PortEvent::DioRead { dio: b },
            ),
            r is Err ==> final(self).log() == old(self).log(),
            r matches Err(e) ==> spec_transport_err(e),
    ;

    /// Wait for the given number of milliseconds.
    fn delay_ms(&mut self, ms: u32)
        ensures
            final(self).log() == old(self).log().push(PortEvent::DelayMs { ms }),
    ;

    /// Wait for the given number of microseconds.
    fn delay_us(&mut self, us: u32)
        ensures
            final(self).log() == old(self).log().push(PortEvent::DelayUs { us }),
    ;

    /// Write the prefix bytes then the payload bytes in one chip-select bracket.
    fn spi_write(&mut self, prefix: &Vec<u8>, data: &Vec<u8>) -> (r: Result<(), Error>)
        ensures
            r is Ok ==> final(self).log() == old(self).log().push(
                PortEvent::SpiWrite { wprefix: prefix@, wdata: data@ },
            ),
            r is Err ==> final(self).log() == old(self).log(),
            r matches Err(e) ==> spec_transport_err(e),
    ;

    /// Write the prefix bytes then read `data.len()` payload bytes in one
    /// chip-select bracket; the payload buffer keeps its length.
    fn spi_read(&mut self, prefix: &Vec<u8>, data: &mut Vec<u8>) -> (r: Result<(), Error>)
        ensures
            final(data)@.len() == old(data)@.len(),
            r is Ok ==> final(self).log() == old(self).log().push(
                PortEvent::SpiRead { rprefix: prefix@, rdata: final(data)@ },
            ),
            r is Err ==> final(self).log() == old(self).log(),
            r matches Err(e) ==> spec_transport_err(e),
    ;
}

/// The events of `n` failed busy polls: each samples the pin high and then
/// waits one millisecond.
pub open spec fn busy_high_events(n: nat) -> Seq<PortEvent>
    decreases n,
{
    if n == 0 {
        Seq::empty()
    } else {
        busy_high_events((n - 1) as nat) + seq![
            PortEvent::BusyRead { busy: true },
            PortEvent::DelayMs { ms: 1 },
        ]
    }
}

/// The events of a successful busy wait: `n` failed polls and then a low sample.
pub open spec fn busy_wait_events(n: nat) -> Seq<PortEvent> {
    busy_high_events(n) + seq![PortEvent::BusyRead { busy: false }]
}

/// Poll the busy pin until it de-asserts, waiting one millisecond between
/// polls. A pin that stays high past `BUSY_TIMEOUT_MS` retries fails with
/// `Error::BusyTimeout` rather than blocking forever, which bounds the
/// worst-case latency against a wedged or disconnected device.
pub fn wait_busy<P: Port>(port: &mut P) -> (r: Result<(), Error>)
    ensures
        r is Ok ==> exists|n: nat|
            #![auto]
            n <= BUSY_TIMEOUT_MS as nat && final(port).log() == old(port).log()
                + busy_wait_events(n),
        r is Err ==> exists|n: nat|
            #![auto]
            n <= BUSY_TIMEOUT_MS as nat + 1 && final(port).log() == old(port).log()
                + busy_high_events(n),
        r matches Err(e) ==> spec_transport_err(e),
{
    let mut timeout: u32 = 0;
    loop
        invariant
            timeout <= BUSY_TIMEOUT_MS,
            port.log() == old(port).log() + busy_high_events(timeout as nat),
        decreases BUSY_TIMEOUT_MS - timeout,
    {
        match port.get_busy() {
            Ok(false) => {
                proof {
                    assert(port.log() =~= old(port).log() + busy_wait_events(timeout as nat));
                }
                return Ok(());
            },
            Ok(true) => {},
            Err(e) => {
                return Err(e);
            },
        }
        port.delay_ms(1);
        proof {
            assert(port.log() =~= old(port).log() + busy_high_events((timeout + 1) as nat));
        }
        timeout = timeout + 1;
        if timeout > BUSY_TIMEOUT_MS {
            return Err(Error::BusyTimeout);
        }
    }
}

/// Command-write prefix: the opcode alone.
pub open spec fn cmd_write_prefix(command: u8) -> Seq<u8> {
    seq![command]
}

/// Command-read prefix: the opcode and one dummy byte.
pub open spec fn cmd_read_prefix(command: u8) -> Seq<u8> {
    seq![command, 0u8]
}

/// Register-write prefix: the write-register opcode and the big-endian address.
pub open spec fn regs_write_prefix(reg: u16) -> Seq<u8> {
    seq![0x18u8, ((reg / 0x100) % 0x100) as u8, (reg % 0x100) as u8]
}

/// Register-read prefix: the read-register opcode, the big-endian address and
/// one dummy byte.
pub open spec fn regs_read_prefix(reg: u16) -> Seq<u8> {
    seq![0x19u8, ((reg / 0x100) % 0x100) as u8, (reg % 0x100) as u8, 0u8]
}

/// Buffer-write prefix: the write-buffer opcode and the offset.
pub open spec fn buff_write_prefix(offset: u8) -> Seq<u8> {
    seq![0x1Au8, offset]
}

/// Buffer-read prefix: the read-buffer opcode, the offset and one dummy byte.
pub open spec fn buff_read_prefix(offset: u8) -> Seq<u8> {
    seq![0x1Bu8, offset, 0u8]
}

/// The events of one complete write transaction: a bounded busy wait, one SPI
/// write bracket, and a second bounded busy wait.
pub open spec fn xact_write_events(n1: nat, prefix: Seq<u8>, data: Seq<u8>, n2: nat) -> Seq<
    PortEvent,
> {
    busy_wait_events(n1) + seq![PortEvent::SpiWrite { wprefix: prefix, wdata: data }]
        + busy_wait_events(n2)
}

/// The events of one complete read transaction: a bounded busy wait, one SPI
/// read bracket, and a second bounded busy wait.
pub open spec fn xact_read_events(n1: nat, prefix: Seq<u8>, data: Seq<u8>, n2: nat) -> Seq<
    PortEvent,
> {
    busy_wait_events(n1) + seq![PortEvent::SpiRead { rprefix: prefix, rdata: data }]
        + busy_wait_events(n2)
}

/// The port history grew by exactly one busy-bracketed SPI write of the given
/// prefix and payload.
pub open spec fn wrote_xact(l0: Seq<PortEvent>, l: Seq<PortEvent>, prefix: Seq<u8>, data: Seq<
    u8,
>) -> bool {
    exists|n1: nat, n2: nat|
        #![auto]
        n1 <= BUSY_TIMEOUT_MS as nat && n2 <= BUSY_TIMEOUT_MS as nat && l == l0
            + xact_write_events(n1, prefix, data, n2)
}

/// The port history grew by exactly one busy-bracketed SPI read of the given
/// prefix, returning the given payload.
pub open spec fn read_xact(l0: Seq<PortEvent>, l: Seq<PortEvent>, prefix: Seq<u8>, data: Seq<
    u8,
>) -> bool {
    exists|n1: nat, n2: nat|
        #![auto]
        n1 <= BUSY_TIMEOUT_MS as nat && n2 <= BUSY_TIMEOUT_MS as nat && l == l0
            + xact_read_events(n1, prefix, data, n2)
}

/// Perform one busy-bracketed SPI write transaction with the given prefix.
fn port_prefix_write<P: Port>(port: &mut P, prefix: &Vec<u8>, data: &Vec<u8>) -> (r: Result<
    (),
    Error,
>)
    ensures
        r is Ok ==> wrote_xact(old(port).log(), final(port).log(), prefix@, data@),
        r matches Err(e) ==> spec_transport_err(e),
{
    let ghost l0 = port.log();
    wait_busy(port)?;
    let ghost n1 = choose|n: nat|
        #![auto]
        n <= BUSY_TIMEOUT_MS as nat && port.log() == l0 + busy_wait_events(n);
    let res = port.spi_write(prefix, data);
    let ghost l1 = port.log();
    let r2 = wait_busy(port);
    if r2.is_err() {
        return r2;
    }
    if res.is_err() {
        return res;
    }
    proof {
        let n2 = choose|n: nat|
            #![auto]
            n <= BUSY_TIMEOUT_MS as nat && port.log() == l1 + busy_wait_events(n);
        assert(port.log() =~= l0 + xact_write_events(n1, prefix@, data@, n2));
    }
    Ok(())
}

/// Perform one busy-bracketed SPI read transaction with the given prefix.
fn port_prefix_read<P: Port>(port: &mut P, prefix: &Vec<u8>, data: &mut Vec<u8>) -> (r: Result<
    (),
    Error,
>)
    ensures
        final(data)@.len() == old(data)@.len(),
        r is Ok ==> read_xact(old(port).log(), final(port).log(), prefix@, final(data)@),
        r matches Err(e) ==> spec_transport_err(e),
{
    let ghost l0 = port.log();
    wait_busy(port)?;
    let ghost n1 = choose|n: nat|
        #![auto]
        n <= BUSY_TIMEOUT_MS as nat && port.log() == l0 + busy_wait_events(n);
    let res = port.spi_read(prefix, data);
    let ghost l1 = port.log();
    let r2 = wait_busy(port);
    if r2.is_err() {
        return r2;
    }
    if res.is_err() {
        return res;
    }
    proof {
        let n2 = choose|n: nat|
            #![auto]
            n <= BUSY_TIMEOUT_MS as nat && port.log() == l1 + busy_wait_events(n);
        assert(port.log() =~= l0 + xact_read_events(n1, prefix@, data@, n2));
    }
    Ok(())
}

/// Reset events: a 20 ms settle delay, the shutdown line driven low, a 50 ms
/// hold, the line released, and a final 20 ms settle delay.
pub open spec fn reset_events() -> Seq<PortEvent> {
    seq![
        PortEvent::DelayMs { ms: 20 },
        PortEvent::SdnSet { high: false },
        PortEvent::DelayMs { ms: 50 },
        PortEvent::SdnSet { high: true },
        PortEvent::DelayMs { ms: 20 },
    ]
}

/// Reset the radio: hold the shutdown line low for 50 ms, bracketed by 20 ms
/// settle delays. On success the port history grows by exactly that ordered
/// pin and delay sequence.
pub fn port_reset<P: Port>(port: &mut P) -> (r: Result<(), Error>)
    ensures
        r is Ok ==> final(port).log() == old(port).log() + reset_events(),
        r matches Err(e) ==> spec_transport_err(e),
{
    port.delay_ms(20);
    port.set_sdn(false)?;
    port.delay_ms(50);
    port.set_sdn(true)?;
    port.delay_ms(20);
    proof {
        assert(port.log() =~= old(port).log() + reset_events());
    }
    Ok(())
}

/// One transaction at the register/command protocol level.
pub enum Xact {
    /// The chip reset sequence through the shutdown line.
    Reset,
    /// A command write: opcode then payload.
    WriteCmd {
        /// The command opcode.
        op: u8,
        /// The payload bytes written.
        wdata: Seq<u8>,
    },
    /// A command read: opcode then returned payload.
    ReadCmd {
        /// The command opcode.
        rop: u8,
        /// The payload bytes read back.
        rdata: Seq<u8>,
    },
    /// A register write: 16-bit address then payload.
    WriteRegs {
        /// The register address.
        wreg: u16,
        /// The payload bytes written.
        wrdata: Seq<u8>,
    },
    /// A register read: 16-bit address then returned payload.
    ReadRegs {
        /// The register address.
        rreg: u16,
        /// The payload bytes read back.
        rrdata: Seq<u8>,
    },
    /// A buffer write: 8-bit offset then payload.
    WriteBuff {
        /// The buffer offset.
        woff: u8,
        /// The payload bytes written.
        wbdata: Seq<u8>,
    },
    /// A buffer read: 8-bit offset then returned payload.
    ReadBuff {
        /// The buffer offset.
        roff: u8,
        /// The payload bytes read back.
        rbdata: Seq<u8>,
    },
}

/// The transaction-level interface of the device: command, register and
/// buffer reads and writes, and the reset sequence, specified by the history
/// of transactions performed. Every method appends exactly one transaction to
/// the history on success.
pub trait Hal {
    /// The history of transactions performed against the device.
    spec fn log(&self) -> Seq<Xact>;

    /// Reset the device.
    fn reset(&mut self) -> (r: Result<(), Error>)
        ensures
            r is Ok ==> final(self).log() == old(self).log().push(Xact::Reset),
            r is Err ==> final(self).log() == old(self).log(),
            r matches Err(e) ==> spec_transport_err(e),
    ;

    /// Write the specified command and data.
    fn write_cmd(&mut self, command: u8, data: &Vec<u8>) -> (r: Result<(), Error>)
        ensures
            r is Ok ==> final(self).log() == old(self).log().push(
                Xact::WriteCmd { op: command, wdata: data@ },
            ),
            r is Err ==> final(self).log() == old(self).log(),
            r matches Err(e) ==> spec_transport_err(e),
    ;

    /// Read `data.len()` bytes for the specified command; the buffer keeps its
    /// length and holds what the device returned.
    fn read_cmd(&mut self, command: u8, data: &mut Vec<u8>) -> (r: Result<(), Error>)
        ensures
            final(data)@.len() == old(data)@.len(),
            r is Ok ==> final(self).log() == old(self).log().push(
                Xact::ReadCmd { rop: command, rdata: final(data)@ },
            ),
            r is Err ==> final(self).log() == old(self).log(),
            r matches Err(e) ==> spec_transport_err(e),
    ;

    /// Write to the specified register.
    fn write_regs(&mut self, reg: u16, data: &Vec<u8>) -> (r: Result<(), Error>)
        ensures
            r is Ok ==> final(self).log() == old(self).log().push(
                Xact::WriteRegs { wreg: reg, wrdata: data@ },
            ),
            r is Err ==> final(self).log() == old(self).log(),
            r matches Err(e) ==> spec_transport_err(e),
    ;

    /// Read `data.len()` bytes from the specified register; the buffer keeps
    /// its length and holds what the device returned.
    fn read_regs(&mut self, reg: u16, data: &mut Vec<u8>) -> (r: Result<(), Error>)
        ensures
            final(data)@.len() == old(data)@.len(),
            r is Ok ==> final(self).log() == old(self).log().push(
                Xact::ReadRegs { rreg: reg, rrdata: final(data)@ },
            ),
            r is Err ==> final(self).log() == old(self).log(),
            r matches Err(e) ==> spec_transport_err(e),
    ;

    /// Write to the device packet buffer at the specified offset.
    fn write_buff(&mut self, offset: u8, data: &Vec<u8>) -> (r: Result<(), Error>)
        ensures
            r is Ok ==> final(self).log() == old(self).log().push(
                Xact::WriteBuff { woff: offset, wbdata: data@ },
            ),
            r is Err ==> final(self).log() == old(self).log(),
            r matches Err(e) ==> spec_transport_err(e),
    ;

    /// Read `data.len()` bytes from the device packet buffer at the specified
    /// offset; the buffer keeps its length and holds what the device returned.
    fn read_buff(&mut self, offset: u8, data: &mut Vec<u8>) -> (r: Result<(), Error>)
        ensures
            final(data)@.len() == old(data)@.len(),
            r is Ok ==> final(self).log() == old(self).log().push(
                Xact::ReadBuff { roff: offset, rbdata: final(data)@ },
            ),
            r is Err ==> final(self).log() == old(self).log(),
            r matches Err(e) ==> spec_transport_err(e),
    ;
}

/// The history `l` extends `l0` by exactly one single-byte register read at
/// address `reg`.
pub open spec fn read_regs_single_step(l0: Seq<Xact>, l: Seq<Xact>, reg: u16) -> bool {
    &&& l.len() == l0.len() + 1
    &&& l.subrange(0, l0.len() as int) == l0
    &&& l.last() matches Xact::ReadRegs { rreg, rrdata } && rreg == reg && rrdata.len() == 1
}

/// Read a single byte from the specified register.
pub fn read_reg<H: Hal>(hal: &mut H, reg: u16) -> (r: Result<u8, Error>)
    ensures
        r matches Ok(v) ==> final(hal).log() == old(hal).log().push(
            Xact::ReadRegs { rreg: reg, rrdata: seq![v] },
        ),
        r is Err ==> final(hal).log() == old(hal).log(),
        r matches Err(e) ==> spec_transport_err(e),
{
    let mut incoming: Vec<u8> = vec![0u8];
    match hal.read_regs(reg, &mut incoming) {
        Ok(()) => {
            let v = incoming[0];
            proof {
                assert(incoming@ =~= seq![v]);
            }
            Ok(v)
        },
        Err(e) => Err(e),
    }
}

/// Write a single byte to the specified register.
pub fn write_reg<H: Hal>(hal: &mut H, reg: u16, value: u8) -> (r: Result<(), Error>)
    ensures
        r is Ok ==> final(hal).log() == old(hal).log().push(
            Xact::WriteRegs { wreg: reg, wrdata: seq![value] },
        ),
        r is Err ==> final(hal).log() == old(hal).log(),
        r matches Err(e) ==> spec_transport_err(e),
{
    let data: Vec<u8> = vec![value];
    proof {
        assert(data@ =~= seq![value]);
    }
    hal.write_regs(reg, &data)
}

/// Update the specified register with the provided value under the given
/// mask: a read-modify-write that keeps the bits outside the mask.
pub fn update_reg<H: Hal>(hal: &mut H, reg: u16, mask: u8, value: u8) -> (r: Result<u8, Error>)
    ensures
        r matches Ok(updated) ==> {
            let l0 = old(hal).log();
            let l = final(hal).log();
            &&& l.len() == l0.len() + 2
            &&& l.subrange(0, l0.len() as int) == l0
            &&& l[l0.len() as int] matches Xact::ReadRegs { rreg, rrdata } && rreg == reg
                && rrdata.len() == 1 && updated == (rrdata[0] & !mask) | (value & mask)
            &&& l[l0.len() as int + 1] == (Xact::WriteRegs { wreg: reg, wrdata: seq![updated] })
        },
        r is Err ==> final(hal).log() == old(hal).log() || read_regs_single_step(
            old(hal).log(),
            final(hal).log(),
            reg,
        ),
        r matches Err(e) ==> spec_transport_err(e),
{
    let ghost l0 = hal.log();
    let existing = read_reg(hal, reg)?;
    let updated = (existing & !mask) | (value & mask);
    match write_reg(hal, reg, updated) {
        Ok(()) => {},
        Err(e) => {
            proof {
                assert(hal.log().subrange(0, l0.len() as int) =~= l0);
            }
            return Err(e);
        },
    }
    proof {
        assert(final(hal).log().subrange(0, l0.len() as int) =~= l0);
    }
    Ok(updated)
}

/// Base interface for the radio device: the busy-synchronised
/// register/command protocol, over a pin-level port. Each transaction method
/// states, beside the transaction-log contract of [`Hal`], that the port
/// history grew by exactly one busy-bracketed SPI transfer with the
/// documented prefix bytes.
pub struct Base<P: Port> {
    /// The underlying pin and SPI port.
    pub port: P,
    /// The transactions performed, as recorded at the protocol level.
    pub xacts: Ghost<Seq<Xact>>,
}

impl<P: Port> Base<P> {
    /// Wrap a port, starting with an empty transaction history.
    pub fn new(port: P) -> (b: Base<P>)
        ensures
            b.log() == Seq::<Xact>::empty(),
            b.port == port,
    {
        Base { port, xacts: Ghost(Seq::empty()) }
    }
}

impl<P: Port> Hal for Base<P> {
    open spec fn log(&self) -> Seq<Xact> {
        self.xacts@
    }

    fn reset(&mut self) -> (r: Result<(), Error>)
        ensures
            r is Ok ==> final(self).port.log() == old(self).port.log() + reset_events(),
    {
        let r = port_reset(&mut self.port);
        if r.is_ok() {
            self.xacts = Ghost(self.xacts@.push(Xact::Reset));
        }
        r
    }

    fn write_cmd(&mut self, command: u8, data: &Vec<u8>) -> (r: Result<(), Error>)
        ensures
            r is Ok ==> wrote_xact(
                old(self).port.log(),
                final(self).port.log(),
                cmd_write_prefix(command),
                data@,
            ),
    {
        let prefix: Vec<u8> = vec![command];
        proof {
            assert(prefix@ =~= cmd_write_prefix(command));
        }
        let r = port_prefix_write(&mut self.port, &prefix, data);
        if r.is_ok() {
            self.xacts = Ghost(self.xacts@.push(Xact::WriteCmd { op: command, wdata: data@ }));
        }
        r
    }

    fn read_cmd(&mut self, command: u8, data: &mut Vec<u8>) -> (r: Result<(), Error>)
        ensures
            r is Ok ==> read_xact(
                old(self).port.log(),
                final(self).port.log(),
                cmd_read_prefix(command),
                final(data)@,
            ),
    {
        let prefix: Vec<u8> = vec![command, 0u8];
        proof {
            assert(prefix@ =~= cmd_read_prefix(command));
        }
        let r = port_prefix_read(&mut self.port, &prefix, data);
        if r.is_ok() {
            self.xacts = Ghost(self.xacts@.push(Xact::ReadCmd { rop: command, rdata: data@ }));
        }
        r
    }

    fn write_regs(&mut self, reg: u16, data: &Vec<u8>) -> (r: Result<(), Error>)
        ensures
            r is Ok ==> wrote_xact(
                old(self).port.log(),
                final(self).port.log(),
                regs_write_prefix(reg),
                data@,
            ),
    {
        let mut prefix: Vec<u8> = Vec::new();
        prefix.push(Commands::WriteRegister.value());
        prefix.push(((reg / 0x100) % 0x100) as u8);
        prefix.push((reg % 0x100) as u8);
        proof {
            assert(prefix@ =~= regs_write_prefix(reg));
        }
        let r = port_prefix_write(&mut self.port, &prefix, data);
        if r.is_ok() {
            self.xacts = Ghost(self.xacts@.push(Xact::WriteRegs { wreg: reg, wrdata: data@ }));
        }
        r
    }

    fn read_regs(&mut self, reg: u16, data: &mut Vec<u8>) -> (r: Result<(), Error>)
        ensures
            r is Ok ==> read_xact(
                old(self).port.log(),
                final(self).port.log(),
                regs_read_prefix(reg),
                final(data)@,
            ),
    {
        let mut prefix: Vec<u8> = Vec::new();
        prefix.push(Commands::ReadRegister.value());
        prefix.push(((reg / 0x100) % 0x100) as u8);
        prefix.push((reg % 0x100) as u8);
        prefix.push(0u8);
        proof {
            assert(prefix@ =~= regs_read_prefix(reg));
        }
        let r = port_prefix_read(&mut self.port, &prefix, data);
        if r.is_ok() {
            self.xacts = Ghost(self.xacts@.push(Xact::ReadRegs { rreg: reg, rrdata: data@ }));
        }
        r
    }

    fn write_buff(&mut self, offset: u8, data: &Vec<u8>) -> (r: Result<(), Error>)
        ensures
            r is Ok ==> wrote_xact(
                old(self).port.log(),
                final(self).port.log(),
                buff_write_prefix(offset),
                data@,
            ),
    {
        let prefix: Vec<u8> = vec![Commands::WriteBuffer.value(), offset];
        proof {
            assert(prefix@ =~= buff_write_prefix(offset));
        }
        let r = port_prefix_write(&mut self.port, &prefix, data);
        if r.is_ok() {
            self.xacts = Ghost(self.xacts@.push(Xact::WriteBuff { woff: offset, wbdata: data@ }));
        }
        r
    }

    fn read_buff(&mut self, offset: u8, data: &mut Vec<u8>) -> (r: Result<(), Error>)
        ensures
            r is Ok ==> read_xact(
                old(self).port.log(),
                final(self).port.log(),
                buff_read_prefix(offset),
                final(data)@,
            ),
    {
        let prefix: Vec<u8> = vec![Commands::ReadBuffer.value(), offset, 0u8];
        proof {
            assert(prefix@ =~= buff_read_prefix(offset));
        }
        let r = port_prefix_read(&mut self.port, &prefix, data);
        if r.is_ok() {
            self.xacts = Ghost(self.xacts@.push(Xact::ReadBuff { roff: offset, rbdata: data@ }));
        }
        r
    }
}

} // verus!
