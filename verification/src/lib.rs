//! A driver for a 2.4 GHz multi-modulation radio transceiver, controlled over
//! a synchronous serial bus with a hardware busy/ready handshake.

use vstd::prelude::*;

use crate::base::{read_reg, write_reg, Hal, Xact};
use crate::device::lora::LoRaHeader;
use crate::device::{
    spec_freq_bytes, spec_tags_match, tags_match, AutoTx, CalibrationParams, Channel,
    CommandStatus, Commands, Config, DioMask, Irq, Modem, PaConfig, PacketInfo, PacketStatus,
    PacketType,
    RampTime, RangingRole, Registers, RegulatorMode, State, Timeout, TxRxStatus,
    AUTO_RX_TX_OFFSET,
    IRQ_CRC_ERROR, IRQ_HEADER_ERROR, IRQ_HEADER_VALID,
    IRQ_PREAMBLE_DETECTED, IRQ_RX_DONE, IRQ_RX_TX_TIMEOUT, IRQ_SYNCWORD_ERROR,
    IRQ_SYNCWORD_VALID, IRQ_TX_DONE,
};

pub mod base;
pub mod device;
pub mod mock;

verus! {

/// Sx128x error type: the closed taxonomy of transport, protocol and
/// configuration failures.
#[derive(Copy, Clone, PartialEq, Eq, Structural, Debug)]
pub enum Error {
    /// Communications (SPI or UART) error
    Comms,
    /// Pin control error
    Pin,
    /// Delay error
    Delay,
    /// Transaction aborted by the transport
    Aborted,
    /// Timeout reported by the device interrupt flags
    Timeout,
    /// Timeout awaiting busy pin de-assert
    BusyTimeout,
    /// CRC error on received message
    InvalidCrc,
    /// Invalid message length
    InvalidLength,
    /// Invalid sync word on received message
    InvalidSync,
    /// Transaction aborted
    Abort,
    /// A state transition did not converge (expected, actual)
    InvalidState(device::State, device::State),
    /// Radio returned an invalid device firmware version
    InvalidDevice(u16),
    /// Radio returned an unrecognised circuit state
    InvalidCircuitState(u8),
    /// Radio returned an unrecognised command status
    InvalidCommandStatus(u8),
    /// Invalid configuration option provided
    InvalidConfiguration,
    /// Invalid state command
    InvalidStateCommand,
    /// Frequency out of range
    InvalidFrequency,
    /// No SPI communication detected
    NoComms,
}

/// The errors a transport itself may fail with: the communications, pin and
/// delay failures, an aborted transaction, and the bounded busy wait running
/// out. The protocol-level error taxonomy is disjoint from these.
pub open spec fn spec_transport_err(e: Error) -> bool {
    ||| e is Comms
    ||| e is Pin
    ||| e is Delay
    ||| e is Aborted
    ||| e is BusyTimeout
}

/// Lowest operating frequency accepted by the driver, in Hz.
pub const FREQ_MIN: u32 = 2_400_000_000;

/// Highest operating frequency accepted by the driver, in Hz.
pub const FREQ_MAX: u32 = 2_500_000_000;

/// High byte of a 16-bit word.
pub open spec fn spec_hi(v: u16) -> u8 {
    ((v / 0x100) % 0x100) as u8
}

/// Low byte of a 16-bit word.
pub open spec fn spec_lo(v: u16) -> u8 {
    (v % 0x100) as u8
}

/// The three modulation-parameter bytes of a channel configuration; the byte
/// layout is specific to the modulation family.
pub open spec fn spec_mod_params(ch: Channel) -> Seq<u8> {
    match ch {
        Channel::Gfsk(c) => seq![c.br_bw.spec_value(), c.mi.spec_value(), c.ms.spec_value()],
        Channel::LoRa(c) => seq![c.sf.spec_value(), c.bw.spec_value(), c.cr.spec_value()],
        Channel::Ranging(c) => seq![c.sf.spec_value(), c.bw.spec_value(), c.cr.spec_value()],
        Channel::Flrc(c) => seq![c.br_bw.spec_value(), c.cr.spec_value(), c.ms.spec_value()],
        Channel::Ble(c) => seq![c.br_bw.spec_value(), c.mi.spec_value(), c.ms.spec_value()],
    }
}

/// The seven packet-parameter bytes of a modem configuration; the byte layout
/// is specific to the modulation family, zero-padded where fewer fields apply.
pub open spec fn spec_packet_params(m: Modem) -> Seq<u8> {
    match m {
        Modem::Gfsk(c) => seq![
            c.preamble_length.spec_value(),
            c.sync_word_length.spec_value(),
            c.sync_word_match.spec_value(),
            c.header_type.spec_value(),
            c.payload_length,
            c.crc_mode.spec_value(),
            c.whitening.spec_value(),
        ],
        Modem::LoRa(c) => seq![
            c.preamble_length,
            c.header_type.spec_value(),
            c.payload_length,
            c.crc_mode.spec_value(),
            c.invert_iq.spec_value(),
            0u8,
            0u8,
        ],
        Modem::Ranging(c) => seq![
            c.preamble_length,
            c.header_type.spec_value(),
            c.payload_length,
            c.crc_mode.spec_value(),
            c.invert_iq.spec_value(),
            0u8,
            0u8,
        ],
        Modem::Flrc(c) => seq![
            c.preamble_length.spec_value(),
            c.sync_word_length.spec_value(),
            c.sync_word_match.spec_value(),
            c.header_type.spec_value(),
            c.payload_length,
            c.crc_mode.spec_value(),
            c.whitening.spec_value(),
        ],
        Modem::Ble(c) => seq![
            c.connection_state.spec_value(),
            c.crc_field.spec_value(),
            c.packet_type.spec_value(),
            c.whitening.spec_value(),
            0u8,
            0u8,
            0u8,
        ],
        Modem::Unset => seq![0u8, 0u8, 0u8, 0u8, 0u8, 0u8, 0u8],
    }
}

/// The power requested of the amplifier, clamped to the valid [-18, 13] dBm range.
pub open spec fn spec_power_clamped(power: i8) -> i8 {
    if power > 13 {
        13i8
    } else if power < -18 {
        -18i8
    } else {
        power
    }
}

/// The power byte written to the device: the clamped power plus 18.
pub open spec fn spec_power_byte(power: i8) -> u8 {
    (spec_power_clamped(power) + 18) as u8
}

/// The three timeout bytes of a radio operation: tick size then the
/// big-endian step count.
pub open spec fn spec_timeout_bytes(t: Timeout) -> Seq<u8> {
    seq![t.spec_step().spec_value(), spec_hi(t.spec_count()), spec_lo(t.spec_count())]
}

/// The eight bytes of an interrupt/DIO mask write: each mask big-endian.
pub open spec fn spec_irq_dio_bytes(irq: u16, dio1: u16, dio2: u16, dio3: u16) -> Seq<u8> {
    seq![
        spec_hi(irq),
        spec_lo(irq),
        spec_hi(dio1),
        spec_lo(dio1),
        spec_hi(dio2),
        spec_lo(dio2),
        spec_hi(dio3),
        spec_lo(dio3),
    ]
}

/// The command that requests a target operating state.
pub open spec fn spec_state_command(s: State) -> u8 {
    match s {
        State::Tx => Commands::SetTx.spec_value(),
        State::Rx => Commands::SetRx.spec_value(),
        State::Fs => Commands::SetFs.spec_value(),
        State::StandbyRc => Commands::SetStandby.spec_value(),
        State::StandbyXosc => Commands::SetStandby.spec_value(),
        State::Sleep => Commands::SetSleep.spec_value(),
    }
}

/// The history `l` extends `l0` by exactly one command read of `n` bytes for
/// opcode `op`.
pub open spec fn read_cmd_step(l0: Seq<Xact>, l: Seq<Xact>, op: u8, n: nat) -> bool {
    &&& l.len() == l0.len() + 1
    &&& l.subrange(0, l0.len() as int) == l0
    &&& l.last() matches Xact::ReadCmd { rop, rdata } && rop == op && rdata.len() == n
}

/// The history `l` extends `l0` by exactly one register read of `n` bytes at
/// address `reg`.
pub open spec fn read_regs_step(l0: Seq<Xact>, l: Seq<Xact>, reg: u16, n: nat) -> bool {
    &&& l.len() == l0.len() + 1
    &&& l.subrange(0, l0.len() as int) == l0
    &&& l.last() matches Xact::ReadRegs { rreg, rrdata } && rreg == reg && rrdata.len() == n
}

/// The payload the device handed back in the last transaction of a history.
pub open spec fn last_read_data(l: Seq<Xact>) -> Seq<u8> {
    match l.last() {
        Xact::ReadCmd { rop: _, rdata } => rdata,
        Xact::ReadRegs { rreg: _, rrdata } => rrdata,
        Xact::ReadBuff { roff: _, rbdata } => rbdata,
        _ => Seq::empty(),
    }
}

/// The history `l` extends `l0`: `l0` is a prefix of it.
pub open spec fn log_extends(l0: Seq<Xact>, l: Seq<Xact>) -> bool {
    l.len() >= l0.len() && l.subrange(0, l0.len() as int) == l0
}

/// A history that extends a second history also extends everything the
/// second extends.
pub proof fn lemma_extends_trans(a: Seq<Xact>, b: Seq<Xact>, c: Seq<Xact>)
    requires
        b.len() >= a.len(),
        b.subrange(0, a.len() as int) == a,
        c.len() >= b.len(),
        c.subrange(0, b.len() as int) == b,
    ensures
        c.subrange(0, a.len() as int) == a,
{
    assert forall|i: int| 0 <= i < a.len() implies c.subrange(0, a.len() as int)[i] == a[i] by {
        assert(b.subrange(0, a.len() as int)[i] == b[i]);
        assert(c.subrange(0, b.len() as int)[i] == c[i]);
    }
    assert(c.subrange(0, a.len() as int) =~= a);
}

/// The history `l` extends `l0` by one interrupt-status read giving `irq`,
/// followed by a clear of exactly the bits read where `clear` was requested
/// and any bit was set.
pub open spec fn read_irq_step(l0: Seq<Xact>, l: Seq<Xact>, clear: bool, irq: Irq) -> bool {
    &&& l.len() >= l0.len() + 1
    &&& l.subrange(0, l0.len() as int) == l0
    &&& l[l0.len() as int] matches Xact::ReadCmd { rop, rdata } && rop
        == Commands::GetIrqStatus.spec_value() && rdata.len() == 2 && irq.bits == (rdata[0] as u16)
        * 0x100 + rdata[1] as u16 && (if clear && irq.bits != 0 {
        l.len() == l0.len() + 2 && l[l0.len() as int + 1] == (Xact::WriteCmd {
            op: Commands::ClearIrqStatus.spec_value(),
            wdata: rdata,
        })
    } else {
        l.len() == l0.len() + 1
    })
}

/// The interrupt flag bits reported by the read at position `l0.len()` of `l`.
pub open spec fn spec_irq_at(l0: Seq<Xact>, l: Seq<Xact>) -> u16 {
    match l[l0.len() as int] {
        Xact::ReadCmd { rop: _, rdata } => ((rdata[0] as u16) * 0x100 + rdata[1] as u16) as u16,
        _ => 0,
    }
}

/// Sx128x device object: the driver's configuration cache, the cached device
/// packet type, and the transport it drives.
pub struct Sx128x<H: Hal> {
    config: Config,
    packet_type: PacketType,
    hal: H,
}

impl<H: Hal> Sx128x<H> {
    /// The driver's copy of the device configuration; it is kept in step with
    /// the device registers by every configuration operation.
    pub closed spec fn spec_config(&self) -> Config {
        self.config
    }

    /// The packet type last written to the device, cached to avoid redundant
    /// packet-type writes.
    pub closed spec fn spec_packet_type(&self) -> PacketType {
        self.packet_type
    }

    /// The transaction history of the underlying transport.
    pub closed spec fn spec_log(&self) -> Seq<Xact> {
        self.hal.log()
    }

    /// Well-formedness: the configured crystal frequency is high enough that
    /// any in-band frequency encodes into the three-byte step count.
    pub closed spec fn spec_wf(&self) -> bool {
        self.config.xtal_freq >= 40_000_000
    }

    /// The driver's copy of the device configuration.
    pub fn get_config(&self) -> (c: Config)
        ensures
            c == self.spec_config(),
    {
        self.config
    }

    /// The packet type last written to the device.
    pub fn get_packet_type(&self) -> (p: PacketType)
        ensures
            p == self.spec_packet_type(),
    {
        self.packet_type
    }

    /// Borrow the underlying transport.
    pub fn hal(&self) -> (h: &H)
        ensures
            h.log() == self.spec_log(),
    {
        &self.hal
    }

    /// Wrap a transport in a driver with the default configuration baseline
    /// and no packet type written yet. No transaction is performed.
    pub fn build(hal: H) -> (radio: Self)
        ensures
            radio.spec_config() == Config::spec_default(),
            radio.spec_packet_type() == PacketType::Unset,
            radio.spec_log() == hal.log(),
            radio.spec_wf(),
    {
        Sx128x { config: Config::default(), packet_type: PacketType::Unset, hal }
    }

    /// Reset the device through the transport and invalidate the cached
    /// packet type, since a reset clears the device's configuration.
    pub fn reset(&mut self) -> (r: Result<(), Error>)
        ensures
            final(self).spec_config() == old(self).spec_config(),
            r is Ok ==> final(self).spec_log() == old(self).spec_log().push(Xact::Reset)
                && final(self).spec_packet_type() == PacketType::Unset,
            r is Err ==> final(self).spec_log() == old(self).spec_log()
                && final(self).spec_packet_type() == old(self).spec_packet_type(),
            r matches Err(e) ==> spec_transport_err(e),
    {
        let r = self.hal.reset();
        if r.is_ok() {
            self.packet_type = PacketType::Unset;
        }
        r
    }

    /// Read the two-byte firmware version register, big-endian.
    pub fn firmware_version(&mut self) -> (r: Result<u16, Error>)
        ensures
            final(self).spec_config() == old(self).spec_config(),
            final(self).spec_packet_type() == old(self).spec_packet_type(),
            r matches Ok(v) ==> {
                let l = final(self).spec_log();
                &&& read_regs_step(
                    old(self).spec_log(),
                    l,
                    Registers::LrFirmwareVersionMsb.spec_value(),
                    2,
                )
                &&& v == (last_read_data(l)[0] as u16) * 0x100 + last_read_data(l)[1] as u16
            },
            r is Err ==> final(self).spec_log() == old(self).spec_log(),
            r matches Err(e) ==> spec_transport_err(e),
    {
        let ghost l0 = self.hal.log();
        let mut d: Vec<u8> = vec![0u8, 0u8];
        proof {
            assert(d@ =~= seq![0u8, 0u8]);
        }
        match self.hal.read_regs(Registers::LrFirmwareVersionMsb.value(), &mut d) {
            Ok(()) => {
                proof {
                    assert(self.hal.log().subrange(0, l0.len() as int) =~= l0);
                }
                Ok((d[0] as u16) * 0x100 + d[1] as u16)
            },
            Err(e) => Err(e),
        }
    }

    /// Fetch the device operating state from the status byte; bits 2 to 4 of
    /// the same byte report a command status, checked for validity.
    pub fn get_state(&mut self) -> (r: Result<State, Error>)
        ensures
            final(self).spec_config() == old(self).spec_config(),
            final(self).spec_packet_type() == old(self).spec_packet_type(),
            ({
                let l0 = old(self).spec_log();
                let l = final(self).spec_log();
                match r {
                    Ok(s) => read_cmd_step(l0, l, Commands::GetStatus.spec_value(), 1) && Some(s)
                        == State::spec_try_from((last_read_data(l)[0] & 0xE0) >> 5)
                        && CommandStatus::spec_try_from((last_read_data(l)[0] & 0x1C) >> 2)
                        is Some,
                    Err(e) => (l == l0 && spec_transport_err(e)) || (read_cmd_step(
                        l0,
                        l,
                        Commands::GetStatus.spec_value(),
                        1,
                    ) && {
                        let b = last_read_data(l)[0];
                        if State::spec_try_from((b & 0xE0) >> 5) is None {
                            e == Error::InvalidCircuitState(b)
                        } else {
                            CommandStatus::spec_try_from((b & 0x1C) >> 2) is None && e
                                == Error::InvalidCommandStatus(b)
                        }
                    }),
                }
            }),
            r matches Err(e) ==> spec_transport_err(e) || e is InvalidCircuitState || e
                is InvalidCommandStatus,
    {
        let ghost l0 = self.hal.log();
        let mut d: Vec<u8> = vec![0u8];
        proof {
            assert(d@ =~= seq![0u8]);
        }
        match self.hal.read_cmd(Commands::GetStatus.value(), &mut d) {
            Ok(()) => {
                proof {
                    assert(self.hal.log().subrange(0, l0.len() as int) =~= l0);
                }
            },
            Err(e) => {
                return Err(e);
            },
        }
        let raw = d[0];
        let m = match State::try_from((raw & 0xE0) >> 5) {
            Some(m) => m,
            None => {
                return Err(Error::InvalidCircuitState(raw));
            },
        };
        match CommandStatus::try_from((raw & 0x1C) >> 2) {
            Some(_) => {},
            None => {
                return Err(Error::InvalidCommandStatus(raw));
            },
        }
        Ok(m)
    }

    /// Request a device operating state with its fire-and-forget command.
    pub fn set_state(&mut self, state: State) -> (r: Result<(), Error>)
        ensures
            final(self).spec_config() == old(self).spec_config(),
            final(self).spec_packet_type() == old(self).spec_packet_type(),
            r is Ok ==> final(self).spec_log() == old(self).spec_log().push(
                Xact::WriteCmd { op: spec_state_command(state), wdata: seq![0u8] },
            ),
            r is Err ==> final(self).spec_log() == old(self).spec_log(),
            r matches Err(e) ==> spec_transport_err(e),
    {
        let command = match state {
            State::Tx => Commands::SetTx,
            State::Rx => Commands::SetRx,
            State::Fs => Commands::SetFs,
            State::StandbyRc => Commands::SetStandby,
            State::StandbyXosc => Commands::SetStandby,
            State::Sleep => Commands::SetSleep,
        };
        let data: Vec<u8> = vec![0u8];
        proof {
            assert(data@ =~= seq![0u8]);
        }
        self.hal.write_cmd(command.value(), &data)
    }

    /// Write the regulator operating mode.
    pub fn set_regulator_mode(&mut self, r_mode: RegulatorMode) -> (r: Result<(), Error>)
        ensures
            final(self).spec_config() == old(self).spec_config(),
            final(self).spec_packet_type() == old(self).spec_packet_type(),
            r is Ok ==> final(self).spec_log() == old(self).spec_log().push(
                Xact::WriteCmd {
                    op: Commands::SetRegulatorMode.spec_value(),
                    wdata: seq![r_mode.spec_value()],
                },
            ),
            r is Err ==> final(self).spec_log() == old(self).spec_log(),
            r matches Err(e) ==> spec_transport_err(e),
    {
        let data: Vec<u8> = vec![r_mode.value()];
        proof {
            assert(data@ =~= seq![r_mode.spec_value()]);
        }
        self.hal.write_cmd(Commands::SetRegulatorMode.value(), &data)
    }

    /// Write the operating frequency as a three-byte big-endian step count in
    /// units of the crystal frequency divided by 2^18.
    pub fn set_frequency(&mut self, f: u32) -> (r: Result<(), Error>)
        requires
            old(self).spec_wf(),
        ensures
            final(self).spec_config() == old(self).spec_config(),
            final(self).spec_packet_type() == old(self).spec_packet_type(),
            r is Ok ==> final(self).spec_log() == old(self).spec_log().push(
                Xact::WriteCmd {
                    op: Commands::SetRfFrequency.spec_value(),
                    wdata: spec_freq_bytes(f as int, old(self).spec_config().xtal_freq as int),
                },
            ),
            r is Err ==> final(self).spec_log() == old(self).spec_log(),
            r matches Err(e) ==> spec_transport_err(e),
    {
        let q: u64 = (f as u64) * 0x40000;
        let c: u64 = q / (self.config.xtal_freq as u64);
        let data: Vec<u8> = vec![
            ((c / 0x10000) % 0x100) as u8,
            ((c / 0x100) % 0x100) as u8,
            (c % 0x100) as u8,
        ];
        proof {
            assert(data@ =~= spec_freq_bytes(f as int, self.config.xtal_freq as int));
        }
        self.hal.write_cmd(Commands::SetRfFrequency.value(), &data)
    }

    /// Write the power amplifier level and ramp time, clamping the power to
    /// the valid [-18, 13] dBm range before it is encoded, and record both in
    /// the configuration cache.
    pub fn set_power_ramp(&mut self, power: i8, ramp: RampTime) -> (r: Result<(), Error>)
        ensures
            final(self).spec_packet_type() == old(self).spec_packet_type(),
            r is Ok ==> final(self).spec_config() == (Config {
                pa_config: PaConfig { power: spec_power_clamped(power), ramp_time: ramp },
                ..old(self).spec_config()
            }) && final(self).spec_log() == old(self).spec_log().push(
                Xact::WriteCmd {
                    op: Commands::SetTxParams.spec_value(),
                    wdata: seq![spec_power_byte(power), ramp.spec_value()],
                },
            ),
            r is Err ==> final(self).spec_config() == old(self).spec_config() && final(self).spec_log() == old(self).spec_log(),
            r matches Err(e) ==> spec_transport_err(e),
    {
        let clamped: i8 = if power > 13 {
            13
        } else if power < -18 {
            -18
        } else {
            power
        };
        let power_reg: u8 = (clamped + 18) as u8;
        let data: Vec<u8> = vec![power_reg, ramp.value()];
        proof {
            assert(data@ =~= seq![spec_power_byte(power), ramp.spec_value()]);
        }
        match self.hal.write_cmd(Commands::SetTxParams.value(), &data) {
            Ok(()) => {
                self.config.pa_config.power = clamped;
                self.config.pa_config.ramp_time = ramp;
                Ok(())
            },
            Err(e) => Err(e),
        }
    }

    /// Set the TX power in dBm, keeping the configured ramp time.
    pub fn set_power(&mut self, power: i8) -> (r: Result<(), Error>)
        ensures
            final(self).spec_packet_type() == old(self).spec_packet_type(),
            r is Ok ==> final(self).spec_config() == (Config {
                pa_config: PaConfig {
                    power: spec_power_clamped(power),
                    ramp_time: old(self).spec_config().pa_config.ramp_time,
                },
                ..old(self).spec_config()
            }) && final(self).spec_log() == old(self).spec_log().push(
                Xact::WriteCmd {
                    op: Commands::SetTxParams.spec_value(),
                    wdata: seq![
                        spec_power_byte(power),
                        old(self).spec_config().pa_config.ramp_time.spec_value(),
                    ],
                },
            ),
            r is Err ==> final(self).spec_config() == old(self).spec_config() && final(self).spec_log() == old(self).spec_log(),
            r matches Err(e) ==> spec_transport_err(e),
    {
        let ramp_time = self.config.pa_config.ramp_time;
        self.set_power_ramp(power, ramp_time)
    }

    /// Set the IRQ mask, clearing the DIO masks.
    pub fn set_irq_mask(&mut self, irq: Irq) -> (r: Result<(), Error>)
        ensures
            final(self).spec_config() == old(self).spec_config(),
            final(self).spec_packet_type() == old(self).spec_packet_type(),
            r is Ok ==> final(self).spec_log() == old(self).spec_log().push(
                Xact::WriteCmd {
                    op: Commands::SetDioIrqParams.spec_value(),
                    wdata: seq![spec_hi(irq.bits), spec_lo(irq.bits)],
                },
            ),
            r is Err ==> final(self).spec_log() == old(self).spec_log(),
            r matches Err(e) ==> spec_transport_err(e),
    {
        let raw = irq.bits();
        let data: Vec<u8> = vec![((raw / 0x100) % 0x100) as u8, (raw % 0x100) as u8];
        proof {
            assert(data@ =~= seq![spec_hi(irq.bits), spec_lo(irq.bits)]);
        }
        self.hal.write_cmd(Commands::SetDioIrqParams.value(), &data)
    }

    /// Set the IRQ mask and the three DIO routing masks in one write.
    pub fn set_irq_dio_mask(
        &mut self,
        irq: Irq,
        dio1: DioMask,
        dio2: DioMask,
        dio3: DioMask,
    ) -> (r: Result<(), Error>)
        ensures
            final(self).spec_config() == old(self).spec_config(),
            final(self).spec_packet_type() == old(self).spec_packet_type(),
            r is Ok ==> final(self).spec_log() == old(self).spec_log().push(
                Xact::WriteCmd {
                    op: Commands::SetDioIrqParams.spec_value(),
                    wdata: spec_irq_dio_bytes(irq.bits, dio1.bits, dio2.bits, dio3.bits),
                },
            ),
            r is Err ==> final(self).spec_log() == old(self).spec_log(),
            r matches Err(e) ==> spec_transport_err(e),
    {
        let raw_irq = irq.bits();
        let raw_dio1 = dio1.bits();
        let raw_dio2 = dio2.bits();
        let raw_dio3 = dio3.bits();
        let data: Vec<u8> = vec![
            ((raw_irq / 0x100) % 0x100) as u8,
            (raw_irq % 0x100) as u8,
            ((raw_dio1 / 0x100) % 0x100) as u8,
            (raw_dio1 % 0x100) as u8,
            ((raw_dio2 / 0x100) % 0x100) as u8,
            (raw_dio2 % 0x100) as u8,
            ((raw_dio3 / 0x100) % 0x100) as u8,
            (raw_dio3 % 0x100) as u8,
        ];
        proof {
            assert(data@ =~= spec_irq_dio_bytes(irq.bits, dio1.bits, dio2.bits, dio3.bits));
        }
        self.hal.write_cmd(Commands::SetDioIrqParams.value(), &data)
    }

    /// Request calibration of the selected analog blocks.
    pub fn calibrate(&mut self, c: CalibrationParams) -> (r: Result<(), Error>)
        ensures
            final(self).spec_config() == old(self).spec_config(),
            final(self).spec_packet_type() == old(self).spec_packet_type(),
            r is Ok ==> final(self).spec_log() == old(self).spec_log().push(
                Xact::WriteCmd { op: Commands::Calibrate.spec_value(), wdata: seq![c.bits] },
            ),
            r is Err ==> final(self).spec_log() == old(self).spec_log(),
            r matches Err(e) ==> spec_transport_err(e),
    {
        let data: Vec<u8> = vec![c.bits()];
        proof {
            assert(data@ =~= seq![c.bits]);
        }
        self.hal.write_cmd(Commands::Calibrate.value(), &data)
    }

    /// Write the AutoTx configuration; an enabled timeout is compensated by
    /// the fixed internal offset, so it must be at least that offset.
    pub fn set_auto_tx(&mut self, a: AutoTx) -> (r: Result<(), Error>)
        requires
            a matches AutoTx::Enabled(t) ==> t >= AUTO_RX_TX_OFFSET,
        ensures
            final(self).spec_config() == old(self).spec_config(),
            final(self).spec_packet_type() == old(self).spec_packet_type(),
            r is Ok ==> final(self).spec_log() == old(self).spec_log().push(
                Xact::WriteCmd {
                    op: Commands::SetAutoTx.spec_value(),
                    wdata: match a {
                        AutoTx::Enabled(t) => seq![
                            spec_hi((t - AUTO_RX_TX_OFFSET) as u16),
                            spec_lo((t - AUTO_RX_TX_OFFSET) as u16),
                        ],
                        AutoTx::Disabled => seq![0u8, 0u8],
                    },
                },
            ),
            r is Err ==> final(self).spec_log() == old(self).spec_log(),
            r matches Err(e) ==> spec_transport_err(e),
    {
        let data: Vec<u8> = match a {
            AutoTx::Enabled(timeout_us) => {
                let compensated = timeout_us - AUTO_RX_TX_OFFSET;
                vec![((compensated / 0x100) % 0x100) as u8, (compensated % 0x100) as u8]
            },
            AutoTx::Disabled => vec![0u8, 0u8],
        };
        proof {
            assert(data@ =~= match a {
                AutoTx::Enabled(t) => seq![
                    spec_hi((t - AUTO_RX_TX_OFFSET) as u16),
                    spec_lo((t - AUTO_RX_TX_OFFSET) as u16),
                ],
                AutoTx::Disabled => seq![0u8, 0u8],
            });
        }
        self.hal.write_cmd(Commands::SetAutoTx.value(), &data)
    }

    /// Reset the TX and RX buffer base addresses.
    pub fn set_buff_base_addr(&mut self, tx: u8, rx: u8) -> (r: Result<(), Error>)
        ensures
            final(self).spec_config() == old(self).spec_config(),
            final(self).spec_packet_type() == old(self).spec_packet_type(),
            r is Ok ==> final(self).spec_log() == old(self).spec_log().push(
                Xact::WriteCmd {
                    op: Commands::SetBufferBaseAddress.spec_value(),
                    wdata: seq![tx, rx],
                },
            ),
            r is Err ==> final(self).spec_log() == old(self).spec_log(),
            r matches Err(e) ==> spec_transport_err(e),
    {
        let data: Vec<u8> = vec![tx, rx];
        proof {
            assert(data@ =~= seq![tx, rx]);
        }
        self.hal.write_cmd(Commands::SetBufferBaseAddress.value(), &data)
    }

    /// Fetch (and optionally clear) the current interrupt flags, as one
    /// atomic read followed by a clear of exactly the bits read.
    pub fn get_interrupts(&mut self, clear: bool) -> (r: Result<Irq, Error>)
        ensures
            final(self).spec_config() == old(self).spec_config(),
            final(self).spec_packet_type() == old(self).spec_packet_type(),
            r matches Ok(irq) ==> read_irq_step(
                old(self).spec_log(),
                final(self).spec_log(),
                clear,
                irq,
            ),
            r is Err ==> {
                let l0 = old(self).spec_log();
                let l = final(self).spec_log();
                l == l0 || (clear && read_cmd_step(
                    l0,
                    l,
                    Commands::GetIrqStatus.spec_value(),
                    2,
                ) && spec_irq_at(l0, l) != 0)
            },
            r matches Err(e) ==> spec_transport_err(e),
    {
        let ghost l0 = self.hal.log();
        let mut d: Vec<u8> = vec![0u8, 0u8];
        proof {
            assert(d@ =~= seq![0u8, 0u8]);
        }
        match self.hal.read_cmd(Commands::GetIrqStatus.value(), &mut d) {
            Ok(()) => {
                proof {
                    assert(self.hal.log().subrange(0, l0.len() as int) =~= l0);
                }
            },
            Err(e) => {
                return Err(e);
            },
        }
        let bits: u16 = (d[0] as u16) * 0x100 + d[1] as u16;
        let irq = Irq::from_bits_truncate(bits);
        if clear && !irq.is_empty() {
            proof {
                assert(d@ =~= last_read_data(self.hal.log()));
            }
            match self.hal.write_cmd(Commands::ClearIrqStatus.value(), &d) {
                Ok(()) => {
                    proof {
                        assert(self.hal.log().subrange(0, l0.len() as int) =~= l0);
                    }
                },
                Err(e) => {
                    return Err(e);
                },
            }
        }
        Ok(irq)
    }

    /// Poll the instantaneous RSSI; meaningful only in receive mode.
    pub fn poll_rssi(&mut self) -> (r: Result<i16, Error>)
        ensures
            final(self).spec_config() == old(self).spec_config(),
            final(self).spec_packet_type() == old(self).spec_packet_type(),
            r matches Ok(v) ==> {
                let l = final(self).spec_log();
                &&& read_cmd_step(
                    old(self).spec_log(),
                    l,
                    Commands::GetRssiInst.spec_value(),
                    1,
                )
                &&& v == -((last_read_data(l)[0] / 2) as i16)
            },
            r is Err ==> final(self).spec_log() == old(self).spec_log(),
            r matches Err(e) ==> spec_transport_err(e),
    {
        let ghost l0 = self.hal.log();
        let mut d: Vec<u8> = vec![0u8];
        proof {
            assert(d@ =~= seq![0u8]);
        }
        match self.hal.read_cmd(Commands::GetRssiInst.value(), &mut d) {
            Ok(()) => {
                proof {
                    assert(self.hal.log().subrange(0, l0.len() as int) =~= l0);
                }
                Ok(-((d[0] / 2) as i16))
            },
            Err(e) => Err(e),
        }
    }

    /// The device is mid-reception: a sync word was seen and neither a
    /// completed packet nor a CRC failure has followed yet. The flags are
    /// read without clearing them.
    pub fn is_busy(&mut self) -> (r: Result<bool, Error>)
        ensures
            final(self).spec_config() == old(self).spec_config(),
            final(self).spec_packet_type() == old(self).spec_packet_type(),
            r matches Ok(b) ==> {
                let l0 = old(self).spec_log();
                let l = final(self).spec_log();
                &&& read_irq_step(l0, l, false, Irq { bits: spec_irq_at(l0, l) })
                &&& b == (spec_irq_at(l0, l) & IRQ_SYNCWORD_VALID == IRQ_SYNCWORD_VALID && !(
                spec_irq_at(l0, l) & IRQ_RX_DONE == IRQ_RX_DONE || spec_irq_at(l0, l)
                    & IRQ_CRC_ERROR == IRQ_CRC_ERROR))
            },
            r matches Err(e) ==> spec_transport_err(e),
    {
        let irq = match self.get_interrupts(false) {
            Ok(irq) => irq,
            Err(e) => {
                return Err(e);
            },
        };
        if irq.contains(IRQ_SYNCWORD_VALID) && !(irq.contains(IRQ_RX_DONE) || irq.contains(
            IRQ_CRC_ERROR,
        )) {
            Ok(true)
        } else {
            Ok(false)
        }
    }
}


/// The sync-word base register address and required sync-word length for a
/// packet type and sync-word index: GFSK takes five bytes at one of three
/// base addresses, FLRC and BLE take four bytes offset by one byte from the
/// corresponding base address. Other combinations are invalid.
pub open spec fn spec_syncword_slot(pt: PacketType, index: u8) -> Option<(u16, nat)> {
    match (pt, index) {
        (PacketType::Gfsk, 1u8) => Some((Registers::LrSyncWordBaseAddress1.spec_value(), 5nat)),
        (PacketType::Gfsk, 2u8) => Some((Registers::LrSyncWordBaseAddress2.spec_value(), 5nat)),
        (PacketType::Gfsk, 3u8) => Some((Registers::LrSyncWordBaseAddress3.spec_value(), 5nat)),
        (PacketType::Flrc, 1u8) => Some(
            ((Registers::LrSyncWordBaseAddress1.spec_value() + 1) as u16, 4nat),
        ),
        (PacketType::Flrc, 2u8) => Some(
            ((Registers::LrSyncWordBaseAddress2.spec_value() + 1) as u16, 4nat),
        ),
        (PacketType::Flrc, 3u8) => Some(
            ((Registers::LrSyncWordBaseAddress3.spec_value() + 1) as u16, 4nat),
        ),
        (PacketType::Ble, _) => Some(
            ((Registers::LrSyncWordBaseAddress1.spec_value() + 1) as u16, 4nat),
        ),
        _ => None,
    }
}

/// The two sync-word byte patterns documented as defective in FLRC mode.
pub open spec fn spec_flrc_syncword_defective(v: Seq<u8>) -> bool {
    v.len() >= 2 && ((v[0] == 0x8C && v[1] == 0x32) || (v[0] == 0x63 && v[1] == 0x0E))
}

/// The transactions of a modem-configuration write: a packet-type write where
/// the cached type differs, the seven packet-parameter bytes, then the errata
/// patches the configuration asks for (forcing full sync-word match for FLRC,
/// duplicating the preamble length into its own register for GFSK).
pub open spec fn configure_modem_xacts_ok(
    l0: Seq<Xact>,
    l: Seq<Xact>,
    m: Modem,
    pt0: PacketType,
) -> bool {
    let pt = PacketType::spec_of_modem(m);
    let head: Seq<Xact> = if pt != pt0 {
        seq![
            Xact::WriteCmd {
                op: Commands::SetPacketType.spec_value(),
                wdata: seq![pt.spec_value()],
            },
        ]
    } else {
        Seq::empty()
    };
    let base = l0 + head + seq![
        Xact::WriteCmd { op: Commands::SetPacketParams.spec_value(), wdata: spec_packet_params(m) },
    ];
    match m {
        Modem::Flrc(c) => {
            if c.patch_syncword {
                &&& l.len() == base.len() + 2
                &&& l.subrange(0, base.len() as int) == base
                &&& l[base.len() as int] matches Xact::ReadRegs { rreg, rrdata } && rreg
                    == Registers::LrSyncWordTolerance.spec_value() && rrdata.len() == 1
                    && l[base.len() as int + 1] == (Xact::WriteRegs {
                    wreg: Registers::LrSyncWordTolerance.spec_value(),
                    wrdata: seq![rrdata[0] & 0xF0],
                })
            } else {
                l == base
            }
        },
        Modem::Gfsk(c) => {
            if c.patch_preamble {
                l == base + seq![
                    Xact::WriteRegs {
                        wreg: Registers::GfskBlePreambleLength.spec_value(),
                        wrdata: seq![c.preamble_length.spec_value()],
                    },
                ]
            } else {
                l == base
            }
        },
        _ => l == base,
    }
}

/// The transactions of a channel write: the frequency steps, a packet-type
/// write where the cached type differs, then the three modulation-parameter
/// bytes.
pub open spec fn set_channel_xacts(ch: Channel, pt0: PacketType, xtal: u32) -> Seq<Xact> {
    let pt = PacketType::spec_of_channel(ch);
    seq![
        Xact::WriteCmd {
            op: Commands::SetRfFrequency.spec_value(),
            wdata: spec_freq_bytes(ch.spec_frequency() as int, xtal as int),
        },
    ] + (if pt != pt0 {
        seq![
            Xact::WriteCmd {
                op: Commands::SetPacketType.spec_value(),
                wdata: seq![pt.spec_value()],
            },
        ]
    } else {
        Seq::empty()
    }) + seq![
        Xact::WriteCmd { op: Commands::SetModulationParams.spec_value(), wdata: spec_mod_params(ch) },
    ]
}

/// The transactions of a full configuration: a standby request, a regulator
/// write where the mode changed, the channel writes, the modem writes, and
/// the power amplifier write.
pub open spec fn configure_xacts_ok(
    l0: Seq<Xact>,
    l: Seq<Xact>,
    cfg: Config,
    pt0: PacketType,
    reg0: RegulatorMode,
    xtal: u32,
) -> bool {
    let pre = l0 + seq![
        Xact::WriteCmd { op: Commands::SetStandby.spec_value(), wdata: seq![0u8] },
    ] + (if cfg.regulator_mode != reg0 {
        seq![
            Xact::WriteCmd {
                op: Commands::SetRegulatorMode.spec_value(),
                wdata: seq![cfg.regulator_mode.spec_value()],
            },
        ]
    } else {
        Seq::empty()
    }) + set_channel_xacts(cfg.channel, pt0, xtal);
    let pt1 = PacketType::spec_of_channel(cfg.channel);
    &&& l.len() >= pre.len() + 1
    &&& configure_modem_xacts_ok(pre, l.subrange(0, l.len() - 1), cfg.modem, pt1)
    &&& l.last() == (Xact::WriteCmd {
        op: Commands::SetTxParams.spec_value(),
        wdata: seq![spec_power_byte(cfg.pa_config.power), cfg.pa_config.ramp_time.spec_value()],
    })
}

/// The cache and history after a configuration attempt that failed: the cache
/// fields advance in the order the device writes are issued — regulator mode,
/// channel, modem, power — each recorded only once its stage of device writes
/// completed, and the history holds exactly the transactions of the completed
/// stages, with whatever prefix of the failing stage the transport performed.
pub open spec fn configure_err_state(
    c0: Config,
    c: Config,
    l0: Seq<Xact>,
    l: Seq<Xact>,
    cfg: Config,
    pt0: PacketType,
) -> bool {
    let pre1 = l0 + seq![
        Xact::WriteCmd { op: Commands::SetStandby.spec_value(), wdata: seq![0u8] },
    ];
    let pre2 = pre1 + (if cfg.regulator_mode != c0.regulator_mode {
        seq![
            Xact::WriteCmd {
                op: Commands::SetRegulatorMode.spec_value(),
                wdata: seq![cfg.regulator_mode.spec_value()],
            },
        ]
    } else {
        Seq::empty()
    });
    let pre3 = pre2 + set_channel_xacts(cfg.channel, pt0, c0.xtal_freq);
    ||| (c == c0 && (l == l0 || l == pre1))
    ||| (c == (Config { regulator_mode: cfg.regulator_mode, ..c0 }) && log_extends(pre2, l))
    ||| (c == (Config { regulator_mode: cfg.regulator_mode, channel: cfg.channel, ..c0 })
        && log_extends(pre3, l))
    ||| (c == (Config {
        regulator_mode: cfg.regulator_mode,
        channel: cfg.channel,
        modem: cfg.modem,
        ..c0
    }) && configure_modem_xacts_ok(pre3, l, cfg.modem, PacketType::spec_of_channel(cfg.channel)))
}

impl<H: Hal> Sx128x<H> {
    /// Program the sync word for the given index (1 to 3). The requested
    /// length must match the slot for the cached packet type, and the two
    /// sync-word patterns documented as defective in FLRC mode are rejected.
    pub fn set_syncword(&mut self, index: u8, value: &Vec<u8>) -> (r: Result<(), Error>)
        ensures
            final(self).spec_config() == old(self).spec_config(),
            final(self).spec_packet_type() == old(self).spec_packet_type(),
            ({
                let slot = spec_syncword_slot(old(self).spec_packet_type(), index);
                let defect = old(self).spec_packet_type() == PacketType::Flrc
                    && spec_flrc_syncword_defective(value@);
                let invalid = defect || slot is None || (slot matches Some((_addr, len))
                    && value@.len() != len);
                &&& invalid ==> r == Result::<(), Error>::Err(Error::InvalidConfiguration)
                &&& r is Ok ==> !invalid && (slot matches Some((addr, len))
                    && final(self).spec_log() == old(self).spec_log().push(
                    Xact::WriteRegs { wreg: addr, wrdata: value@ },
                ))
                &&& r is Err ==> final(self).spec_log() == old(self).spec_log()
                &&& r matches Err(e) ==> spec_transport_err(e) || e == Error::InvalidConfiguration
            }),
    {
        if self.packet_type == PacketType::Flrc && value.len() >= 2 {
            if (value[0] == 0x8C && value[1] == 0x32) || (value[0] == 0x63 && value[1] == 0x0E) {
                return Err(Error::InvalidConfiguration);
            }
        }
        let (addr, len): (u16, usize) = match (self.packet_type, index) {
            (PacketType::Gfsk, 1u8) => (Registers::LrSyncWordBaseAddress1.value(), 5),
            (PacketType::Gfsk, 2u8) => (Registers::LrSyncWordBaseAddress2.value(), 5),
            (PacketType::Gfsk, 3u8) => (Registers::LrSyncWordBaseAddress3.value(), 5),
            (PacketType::Flrc, 1u8) => (Registers::LrSyncWordBaseAddress1.value() + 1, 4),
            (PacketType::Flrc, 2u8) => (Registers::LrSyncWordBaseAddress2.value() + 1, 4),
            (PacketType::Flrc, 3u8) => (Registers::LrSyncWordBaseAddress3.value() + 1, 4),
            (PacketType::Ble, _) => (Registers::LrSyncWordBaseAddress1.value() + 1, 4),
            _ => {
                return Err(Error::InvalidConfiguration);
            },
        };
        if value.len() != len {
            return Err(Error::InvalidConfiguration);
        }
        self.hal.write_regs(addr, value)
    }

    /// Apply the sync-word-match errata patch for FLRC mode: force a full
    /// match by clearing the low nibble of the sync-word tolerance register.
    /// In any other mode this is a no-op.
    fn patch_flrc_syncword(&mut self) -> (r: Result<(), Error>)
        ensures
            final(self).spec_config() == old(self).spec_config(),
            final(self).spec_packet_type() == old(self).spec_packet_type(),
            r is Ok ==> ({
                let l0 = old(self).spec_log();
                let l = final(self).spec_log();
                if old(self).spec_packet_type() == PacketType::Flrc {
                    &&& l.len() == l0.len() + 2
                    &&& l.subrange(0, l0.len() as int) == l0
                    &&& l[l0.len() as int] matches Xact::ReadRegs { rreg, rrdata } && rreg
                        == Registers::LrSyncWordTolerance.spec_value() && rrdata.len() == 1 && l[
                        l0.len() as int + 1
                    ] == (Xact::WriteRegs {
                        wreg: Registers::LrSyncWordTolerance.spec_value(),
                        wrdata: seq![rrdata[0] & 0xF0],
                    })
                } else {
                    l == l0
                }
            }),
            log_extends(old(self).spec_log(), final(self).spec_log()),
            r matches Err(e) ==> spec_transport_err(e),
    {
        let ghost l0 = self.hal.log();
        if self.packet_type == PacketType::Flrc {
            let r = match read_reg(&mut self.hal, Registers::LrSyncWordTolerance.value()) {
                Ok(v) => v,
                Err(e) => {
                    proof {
                        assert(self.hal.log().subrange(0, l0.len() as int) =~= l0);
                    }
                    return Err(e);
                },
            };
            match write_reg(&mut self.hal, Registers::LrSyncWordTolerance.value(), r & 0xF0) {
                Ok(()) => {},
                Err(e) => {
                    proof {
                        assert(self.hal.log().subrange(0, l0.len() as int) =~= l0);
                    }
                    return Err(e);
                },
            }
            proof {
                assert(self.hal.log().subrange(0, l0.len() as int) =~= l0);
            }
        } else {
            proof {
                assert(self.hal.log().subrange(0, l0.len() as int) =~= l0);
            }
        }
        Ok(())
    }

    /// Write a modem configuration: update the device packet type where it
    /// differs from the cache, write the seven packet-parameter bytes, and
    /// apply the errata patches the configuration asks for.
    pub fn configure_modem(&mut self, config: &Modem) -> (r: Result<(), Error>)
        ensures
            final(self).spec_config() == old(self).spec_config(),
            final(self).spec_packet_type() == old(self).spec_packet_type() || final(self).spec_packet_type() == PacketType::spec_of_modem(*config),
            r is Ok ==> configure_modem_xacts_ok(
                old(self).spec_log(),
                final(self).spec_log(),
                *config,
                old(self).spec_packet_type(),
            ) && final(self).spec_packet_type() == PacketType::spec_of_modem(*config),
            log_extends(old(self).spec_log(), final(self).spec_log()),
            r matches Err(e) ==> spec_transport_err(e),
    {
        let ghost l0 = self.hal.log();
        let packet_type = PacketType::of_modem(config);
        if self.packet_type != packet_type {
            let data: Vec<u8> = vec![packet_type.value()];
            proof {
                assert(data@ =~= seq![packet_type.spec_value()]);
            }
            match self.hal.write_cmd(Commands::SetPacketType.value(), &data) {
                Ok(()) => {
                    self.packet_type = packet_type;
                },
                Err(e) => {
                    proof {
                        assert(self.hal.log().subrange(0, l0.len() as int) =~= l0);
                    }
                    return Err(e);
                },
            }
        }
        let data: Vec<u8> = match config {
            Modem::Gfsk(c) => vec![
                c.preamble_length.value(),
                c.sync_word_length.value(),
                c.sync_word_match.value(),
                c.header_type.value(),
                c.payload_length,
                c.crc_mode.value(),
                c.whitening.value(),
            ],
            Modem::LoRa(c) => vec![
                c.preamble_length,
                c.header_type.value(),
                c.payload_length,
                c.crc_mode.value(),
                c.invert_iq.value(),
                0u8,
                0u8,
            ],
            Modem::Ranging(c) => vec![
                c.preamble_length,
                c.header_type.value(),
                c.payload_length,
                c.crc_mode.value(),
                c.invert_iq.value(),
                0u8,
                0u8,
            ],
            Modem::Flrc(c) => vec![
                c.preamble_length.value(),
                c.sync_word_length.value(),
                c.sync_word_match.value(),
                c.header_type.value(),
                c.payload_length,
                c.crc_mode.value(),
                c.whitening.value(),
            ],
            Modem::Ble(c) => vec![
                c.connection_state.value(),
                c.crc_field.value(),
                c.packet_type.value(),
                c.whitening.value(),
                0u8,
                0u8,
                0u8,
            ],
            Modem::Unset => vec![0u8, 0u8, 0u8, 0u8, 0u8, 0u8, 0u8],
        };
        proof {
            assert(data@ =~= spec_packet_params(*config));
        }
        match self.hal.write_cmd(Commands::SetPacketParams.value(), &data) {
            Ok(()) => {},
            Err(e) => {
                proof {
                    assert(self.hal.log().subrange(0, l0.len() as int) =~= l0);
                }
                return Err(e);
            },
        }
        let ghost base = self.hal.log();
        proof {
            let head: Seq<Xact> = if PacketType::spec_of_modem(*config) != old(self).spec_packet_type() {
                seq![
                    Xact::WriteCmd {
                        op: Commands::SetPacketType.spec_value(),
                        wdata: seq![PacketType::spec_of_modem(*config).spec_value()],
                    },
                ]
            } else {
                Seq::empty()
            };
            assert(base =~= l0 + head + seq![
                Xact::WriteCmd {
                    op: Commands::SetPacketParams.spec_value(),
                    wdata: spec_packet_params(*config),
                },
            ]);
        }
        match config {
            Modem::Flrc(c) => {
                if c.patch_syncword {
                    match self.patch_flrc_syncword() {
                        Ok(()) => {},
                        Err(e) => {
                            proof {
                                assert(base.subrange(0, l0.len() as int) =~= l0);
                                lemma_extends_trans(l0, base, self.hal.log());
                            }
                            return Err(e);
                        },
                    }
                    proof {
                        assert(self.hal.log().subrange(0, l0.len() as int) =~= l0);
                    }
                } else {
                    proof {
                        assert(self.hal.log().subrange(0, l0.len() as int) =~= l0);
                    }
                }
            },
            Modem::Gfsk(c) => {
                if c.patch_preamble {
                    match write_reg(
                        &mut self.hal,
                        Registers::GfskBlePreambleLength.value(),
                        c.preamble_length.value(),
                    ) {
                        Ok(()) => {},
                        Err(e) => {
                            proof {
                                assert(self.hal.log().subrange(0, l0.len() as int) =~= l0);
                            }
                            return Err(e);
                        },
                    }
                    proof {
                        assert(self.hal.log() =~= base + seq![
                            Xact::WriteRegs {
                                wreg: Registers::GfskBlePreambleLength.spec_value(),
                                wrdata: seq![c.preamble_length.spec_value()],
                            },
                        ]);
                        assert(self.hal.log().subrange(0, l0.len() as int) =~= l0);
                    }
                } else {
                    proof {
                        assert(self.hal.log().subrange(0, l0.len() as int) =~= l0);
                    }
                }
            },
            _ => {
                proof {
                    assert(self.hal.log().subrange(0, l0.len() as int) =~= l0);
                }
            },
        }
        Ok(())
    }

    /// Write a channel configuration: validate and write the operating
    /// frequency, update the device packet type where it differs from the
    /// cache, and write the three modulation-parameter bytes. Frequencies
    /// outside the 2.4 to 2.5 GHz band are rejected before any write.
    pub fn set_channel(&mut self, ch: &Channel) -> (r: Result<(), Error>)
        requires
            old(self).spec_wf(),
        ensures
            final(self).spec_config() == old(self).spec_config(),
            final(self).spec_packet_type() == old(self).spec_packet_type() || final(self).spec_packet_type() == PacketType::spec_of_channel(*ch),
            (ch.spec_frequency() < FREQ_MIN || ch.spec_frequency() > FREQ_MAX) ==> r
                == Result::<(), Error>::Err(Error::InvalidFrequency) && final(self).spec_log()
                == old(self).spec_log() && final(self).spec_packet_type() == old(self).spec_packet_type(),
            r is Ok ==> FREQ_MIN <= ch.spec_frequency() <= FREQ_MAX && final(self).spec_log()
                == old(self).spec_log() + set_channel_xacts(
                *ch,
                old(self).spec_packet_type(),
                old(self).spec_config().xtal_freq,
            ) && final(self).spec_packet_type() == PacketType::spec_of_channel(*ch),
            r == Result::<(), Error>::Err(Error::InvalidFrequency) ==> ch.spec_frequency()
                < FREQ_MIN || ch.spec_frequency() > FREQ_MAX,
            log_extends(old(self).spec_log(), final(self).spec_log()),
            r matches Err(e) ==> spec_transport_err(e) || e == Error::InvalidFrequency,
    {
        let ghost l0 = self.hal.log();
        proof {
            assert(self.hal.log().subrange(0, l0.len() as int) =~= l0);
        }
        let freq = ch.frequency();
        if freq < FREQ_MIN || freq > FREQ_MAX {
            return Err(Error::InvalidFrequency);
        }
        match self.set_frequency(freq) {
            Ok(()) => {},
            Err(e) => {
                return Err(e);
            },
        }
        let packet_type = PacketType::of_channel(ch);
        if self.packet_type != packet_type {
            let data: Vec<u8> = vec![packet_type.value()];
            proof {
                assert(data@ =~= seq![packet_type.spec_value()]);
            }
            match self.hal.write_cmd(Commands::SetPacketType.value(), &data) {
                Ok(()) => {
                    self.packet_type = packet_type;
                },
                Err(e) => {
                    proof {
                        assert(self.hal.log().subrange(0, l0.len() as int) =~= l0);
                    }
                    return Err(e);
                },
            }
        }
        let data: Vec<u8> = match ch {
            Channel::Gfsk(c) => vec![c.br_bw.value(), c.mi.value(), c.ms.value()],
            Channel::LoRa(c) => vec![c.sf.value(), c.bw.value(), c.cr.value()],
            Channel::Ranging(c) => vec![c.sf.value(), c.bw.value(), c.cr.value()],
            Channel::Flrc(c) => vec![c.br_bw.value(), c.cr.value(), c.ms.value()],
            Channel::Ble(c) => vec![c.br_bw.value(), c.mi.value(), c.ms.value()],
        };
        proof {
            assert(data@ =~= spec_mod_params(*ch));
        }
        match self.hal.write_cmd(Commands::SetModulationParams.value(), &data) {
            Ok(()) => {},
            Err(e) => {
                proof {
                    assert(self.hal.log().subrange(0, l0.len() as int) =~= l0);
                }
                return Err(e);
            },
        }
        proof {
            assert(self.hal.log() =~= l0 + set_channel_xacts(
                *ch,
                old(self).spec_packet_type(),
                old(self).spec_config().xtal_freq,
            ));
            assert(self.hal.log().subrange(0, l0.len() as int) =~= l0);
        }
        Ok(())
    }

    /// Apply a full configuration: force standby, verify that the modem and
    /// channel name the same modulation family, write the regulator mode if
    /// it changed, then the channel, modem and power amplifier settings. The
    /// configuration cache is updated alongside each successful device write,
    /// and ends equal to the requested configuration on success; on a failure
    /// the cache holds exactly the stages whose writes completed, so cache and
    /// device never diverge.
    pub fn configure(&mut self, config: &Config) -> (r: Result<(), Error>)
        requires
            old(self).spec_wf(),
        ensures
            final(self).spec_wf(),
            !spec_tags_match(config.modem, config.channel) ==> !(r is Ok) && final(self).spec_config() == old(self).spec_config() && final(self).spec_packet_type() == old(self).spec_packet_type(),
            r == Result::<(), Error>::Err(Error::InvalidConfiguration) ==> !spec_tags_match(
                config.modem,
                config.channel,
            ),
            final(self).spec_packet_type() == old(self).spec_packet_type() || final(self).spec_packet_type() == PacketType::spec_of_channel(config.channel) || final(self).spec_packet_type() == PacketType::spec_of_modem(config.modem),
            r is Err ==> configure_err_state(
                old(self).spec_config(),
                final(self).spec_config(),
                old(self).spec_log(),
                final(self).spec_log(),
                *config,
                old(self).spec_packet_type(),
            ),
            r is Ok ==> spec_tags_match(config.modem, config.channel) && final(self).spec_packet_type() == PacketType::spec_of_modem(config.modem) && final(self).spec_config() == (Config {
                regulator_mode: config.regulator_mode,
                modem: config.modem,
                channel: config.channel,
                pa_config: PaConfig {
                    power: spec_power_clamped(config.pa_config.power),
                    ramp_time: config.pa_config.ramp_time,
                },
                ..old(self).spec_config()
            }) && configure_xacts_ok(
                old(self).spec_log(),
                final(self).spec_log(),
                *config,
                old(self).spec_packet_type(),
                old(self).spec_config().regulator_mode,
                old(self).spec_config().xtal_freq,
            ),
            r is Ok ==> final(self).spec_log().len() >= old(self).spec_log().len() && final(self).spec_log().subrange(0, old(self).spec_log().len() as int) == old(self).spec_log(),
            r matches Err(e) ==> spec_transport_err(e) || e == Error::InvalidConfiguration || e
                == Error::InvalidFrequency,
    {
        let ghost l0 = self.hal.log();
        let ghost pre1 = l0 + seq![
            Xact::WriteCmd { op: Commands::SetStandby.spec_value(), wdata: seq![0u8] },
        ];
        match self.set_state(State::StandbyRc) {
            Ok(()) => {},
            Err(e) => {
                return Err(e);
            },
        }
        if !tags_match(&config.modem, &config.channel) {
            proof {
                assert(self.hal.log() =~= pre1);
            }
            return Err(Error::InvalidConfiguration);
        }
        if self.config.regulator_mode != config.regulator_mode {
            match self.set_regulator_mode(config.regulator_mode) {
                Ok(()) => {},
                Err(e) => {
                    proof {
                        assert(self.hal.log() =~= pre1);
                    }
                    return Err(e);
                },
            }
        }
        self.config.regulator_mode = config.regulator_mode;
        let ghost pre_channel = self.hal.log();
        proof {
            assert(pre_channel =~= pre1 + (if config.regulator_mode != old(self).spec_config().regulator_mode {
                seq![
                    Xact::WriteCmd {
                        op: Commands::SetRegulatorMode.spec_value(),
                        wdata: seq![config.regulator_mode.spec_value()],
                    },
                ]
            } else {
                Seq::<Xact>::empty()
            }));
        }
        match self.set_channel(&config.channel) {
            Ok(()) => {},
            Err(e) => {
                return Err(e);
            },
        }
        self.config.channel = config.channel;
        let ghost pre_modem = self.hal.log();
        proof {
            assert(pre_modem =~= l0 + seq![
                Xact::WriteCmd { op: Commands::SetStandby.spec_value(), wdata: seq![0u8] },
            ] + (if config.regulator_mode != old(self).spec_config().regulator_mode {
                seq![
                    Xact::WriteCmd {
                        op: Commands::SetRegulatorMode.spec_value(),
                        wdata: seq![config.regulator_mode.spec_value()],
                    },
                ]
            } else {
                Seq::empty()
            }) + set_channel_xacts(
                config.channel,
                old(self).spec_packet_type(),
                old(self).spec_config().xtal_freq,
            ));
        }
        match self.configure_modem(&config.modem) {
            Ok(()) => {},
            Err(e) => {
                return Err(e);
            },
        }
        self.config.modem = config.modem;
        let ghost post_modem = self.hal.log();
        match self.set_power_ramp(config.pa_config.power, config.pa_config.ramp_time) {
            Ok(()) => {},
            Err(e) => {
                return Err(e);
            },
        }
        proof {
            let lfin = self.hal.log();
            assert(lfin.subrange(0, lfin.len() - 1) =~= post_modem);
            assert(lfin.subrange(0, post_modem.len() as int) =~= post_modem);
            assert(pre_modem.subrange(0, l0.len() as int) =~= l0);
            lemma_extends_trans(l0, pre_modem, post_modem);
            lemma_extends_trans(l0, post_modem, lfin);
        }
        Ok(())
    }
}


/// The history `l` extends `l0` by one RX-buffer-status query for the given
/// modem configuration: a two-byte status read, followed by a read of the
/// dedicated LoRa payload-length register where the modem uses an implicit
/// header (the status byte is stale there). The length for BLE is the raw
/// count plus the two-byte PDU header it omits, saturated to one byte.
pub open spec fn rx_buffer_status_xacts(
    l0: Seq<Xact>,
    l: Seq<Xact>,
    m: Modem,
    ptr: u8,
    len: u8,
) -> bool {
    &&& l.len() >= l0.len() + 1
    &&& l.subrange(0, l0.len() as int) == l0
    &&& l[l0.len() as int] matches Xact::ReadCmd { rop, rdata } && rop
        == Commands::GetRxBufferStatus.spec_value() && rdata.len() == 2 && ptr == rdata[1] && (
    match m {
        Modem::LoRa(c) => {
            if c.header_type == LoRaHeader::Implicit {
                &&& l.len() == l0.len() + 2
                &&& l[l0.len() as int + 1] matches Xact::ReadRegs { rreg, rrdata } && rreg
                    == Registers::LrPayloadLength.spec_value() && rrdata.len() == 1 && len
                    == rrdata[0]
            } else {
                l.len() == l0.len() + 1 && len == rdata[0]
            }
        },
        Modem::Ble(_) => l.len() == l0.len() + 1 && len == (if rdata[0] >= 254 {
            255u8
        } else {
            (rdata[0] + 2) as u8
        }),
        _ => l.len() == l0.len() + 1 && len == rdata[0],
    })
}

/// The signed SNR decode for LoRa and Ranging packets: raw values under 128
/// are positive quarter-decibels, values of 128 and above wrap negative.
pub open spec fn spec_lora_snr(b: u8) -> i16 {
    if b < 128 {
        (b / 4) as i16
    } else {
        (0 - (((256 - b) / 4) as i16)) as i16
    }
}

/// The packet information decoded from the five packet-status bytes for a
/// packet type: flag bytes are truncated to their documented bits, the RSSI
/// byte and its decode depend on the modulation family, and fields the family
/// does not report keep their prior value.
pub open spec fn spec_decode_packet_info(info0: PacketInfo, pt: PacketType, d: Seq<u8>) -> PacketInfo
    recommends
        d.len() == 5,
{
    let base = PacketInfo {
        packet_status: PacketStatus { bits: d[2] },
        tx_rx_status: TxRxStatus { bits: d[3] & 0x21 },
        sync_addr_status: d[4] & 0x07,
        ..info0
    };
    match pt {
        PacketType::LoRa => PacketInfo {
            rssi: (0 - ((d[0] / 2) as i16)) as i16,
            snr: Some(spec_lora_snr(d[1])),
            ..base
        },
        PacketType::Ranging => PacketInfo {
            rssi: (0 - ((d[0] / 2) as i16)) as i16,
            snr: Some(spec_lora_snr(d[1])),
            ..base
        },
        PacketType::Unset => base,
        _ => PacketInfo { rssi: (0 - ((d[1] / 2) as i16)) as i16, ..base },
    }
}

/// The interrupt flags enabled while a transmission runs.
pub open spec fn spec_tx_irqs() -> u16 {
    IRQ_TX_DONE | IRQ_CRC_ERROR | IRQ_RX_TX_TIMEOUT
}

/// The interrupt flags enabled while a reception runs.
pub open spec fn spec_rx_irqs() -> u16 {
    IRQ_RX_DONE | IRQ_CRC_ERROR | IRQ_RX_TX_TIMEOUT | IRQ_SYNCWORD_VALID | IRQ_SYNCWORD_ERROR
        | IRQ_HEADER_VALID | IRQ_HEADER_ERROR | IRQ_PREAMBLE_DETECTED
}

/// The transactions of a transmit start: a standby request; the modem
/// parameters with the payload length of this packet; buffer base addresses
/// reset; the payload written at offset zero; the ranging role where the
/// packet type asks for it; the TX interrupt masks; and the TX request with
/// the configured timeout bytes.
pub open spec fn start_transmit_xacts_ok(
    l0: Seq<Xact>,
    l: Seq<Xact>,
    cfg: Config,
    pt0: PacketType,
    data: Seq<u8>,
) -> bool {
    let m = cfg.modem.spec_set_payload_len(data.len() as u8);
    let pt1 = PacketType::spec_of_modem(m);
    let a = l0 + seq![
        Xact::WriteCmd { op: Commands::SetStandby.spec_value(), wdata: seq![0u8] },
    ];
    let tail = seq![
        Xact::WriteCmd { op: Commands::SetBufferBaseAddress.spec_value(), wdata: seq![0u8, 0u8] },
        Xact::WriteBuff { woff: 0, wbdata: data },
    ] + (if pt1 == PacketType::Ranging {
        seq![
            Xact::WriteCmd {
                op: Commands::SetRangingRole.spec_value(),
                wdata: seq![RangingRole::Initiator.spec_value()],
            },
        ]
    } else {
        Seq::empty()
    }) + seq![
        Xact::WriteCmd {
            op: Commands::SetDioIrqParams.spec_value(),
            wdata: spec_irq_dio_bytes(spec_tx_irqs(), spec_tx_irqs(), 0, 0),
        },
        Xact::WriteCmd {
            op: Commands::SetTx.spec_value(),
            wdata: spec_timeout_bytes(cfg.rf_timeout),
        },
    ];
    exists|k: int|
        #![auto]
        {
            &&& l0.len() + 1 <= k <= l.len()
            &&& configure_modem_xacts_ok(a, l.subrange(0, k), m, pt0)
            &&& l.len() == k + tail.len()
            &&& l.subrange(k, l.len() as int) == tail
        }
}

/// The transactions of a receive start: a standby request; buffer base
/// addresses reset; the current modem parameters rewritten (the device clears
/// them with mode changes); the ranging role where the packet type asks for
/// it; the RX interrupt masks; and the RX request with the configured timeout
/// bytes.
pub open spec fn start_receive_xacts_ok(
    l0: Seq<Xact>,
    l: Seq<Xact>,
    cfg: Config,
    pt0: PacketType,
) -> bool {
    let m = cfg.modem;
    let pt1 = PacketType::spec_of_modem(m);
    let a = l0 + seq![
        Xact::WriteCmd { op: Commands::SetStandby.spec_value(), wdata: seq![0u8] },
        Xact::WriteCmd { op: Commands::SetBufferBaseAddress.spec_value(), wdata: seq![0u8, 0u8] },
    ];
    let tail = (if pt1 == PacketType::Ranging {
        seq![
            Xact::WriteCmd {
                op: Commands::SetRangingRole.spec_value(),
                wdata: seq![RangingRole::Responder.spec_value()],
            },
        ]
    } else {
        Seq::empty()
    }) + seq![
        Xact::WriteCmd {
            op: Commands::SetDioIrqParams.spec_value(),
            wdata: spec_irq_dio_bytes(spec_rx_irqs(), spec_rx_irqs(), 0, 0),
        },
        Xact::WriteCmd {
            op: Commands::SetRx.spec_value(),
            wdata: spec_timeout_bytes(cfg.rf_timeout),
        },
    ];
    exists|k: int|
        #![auto]
        {
            &&& l0.len() + 2 <= k <= l.len()
            &&& configure_modem_xacts_ok(a, l.subrange(0, k), m, pt0)
            &&& l.len() == k + tail.len()
            &&& l.subrange(k, l.len() as int) == tail
        }
}

impl<H: Hal> Sx128x<H> {
    /// Build the three timeout bytes for the configured RF timeout.
    fn timeout_bytes(&self) -> (b: Vec<u8>)
        ensures
            b@ == spec_timeout_bytes(self.spec_config().rf_timeout),
    {
        let step = self.config.rf_timeout.step();
        let count = self.config.rf_timeout.count();
        let b: Vec<u8> = vec![
            step.value(),
            ((count / 0x100) % 0x100) as u8,
            (count % 0x100) as u8,
        ];
        proof {
            assert(b@ =~= spec_timeout_bytes(self.spec_config().rf_timeout));
        }
        b
    }

    /// Start transmitting a packet: force standby, push the modem parameters
    /// with this packet's payload length, reset the buffer base addresses,
    /// write the payload, program the TX interrupt masks, and request TX with
    /// the configured timeout.
    pub fn start_transmit(&mut self, data: &Vec<u8>) -> (r: Result<(), Error>)
        requires
            data@.len() <= 255,
        ensures
            final(self).spec_config() == old(self).spec_config(),
            final(self).spec_packet_type() == old(self).spec_packet_type() || final(self).spec_packet_type() == PacketType::spec_of_modem(
                old(self).spec_config().modem.spec_set_payload_len(data@.len() as u8),
            ),
            r is Ok ==> start_transmit_xacts_ok(
                old(self).spec_log(),
                final(self).spec_log(),
                old(self).spec_config(),
                old(self).spec_packet_type(),
                data@,
            ) && final(self).spec_packet_type() == PacketType::spec_of_modem(
                old(self).spec_config().modem.spec_set_payload_len(data@.len() as u8),
            ),
            r matches Err(e) ==> spec_transport_err(e),
    {
        let ghost l0 = self.hal.log();
        match self.set_state(State::StandbyRc) {
            Ok(()) => {},
            Err(e) => {
                return Err(e);
            },
        }
        let ghost a = self.hal.log();
        let mut modem_config = self.config.modem;
        modem_config.set_payload_len(data.len() as u8);
        match self.configure_modem(&modem_config) {
            Ok(()) => {},
            Err(e) => {
                return Err(e);
            },
        }
        let ghost lk = self.hal.log();
        match self.set_buff_base_addr(0, 0) {
            Ok(()) => {},
            Err(e) => {
                return Err(e);
            },
        }
        match self.hal.write_buff(0, data) {
            Ok(()) => {},
            Err(e) => {
                return Err(e);
            },
        }
        if self.packet_type == PacketType::Ranging {
            let role: Vec<u8> = vec![RangingRole::Initiator.value()];
            proof {
                assert(role@ =~= seq![RangingRole::Initiator.spec_value()]);
            }
            match self.hal.write_cmd(Commands::SetRangingRole.value(), &role) {
                Ok(()) => {},
                Err(e) => {
                    return Err(e);
                },
            }
        }
        let irqs = Irq::from_bits_truncate(IRQ_TX_DONE | IRQ_CRC_ERROR | IRQ_RX_TX_TIMEOUT);
        match self.set_irq_dio_mask(irqs, irqs, Irq::empty(), Irq::empty()) {
            Ok(()) => {},
            Err(e) => {
                return Err(e);
            },
        }
        let config_bytes = self.timeout_bytes();
        match self.hal.write_cmd(Commands::SetTx.value(), &config_bytes) {
            Ok(()) => {},
            Err(e) => {
                return Err(e);
            },
        }
        proof {
            let l = self.hal.log();
            let m = old(self).spec_config().modem.spec_set_payload_len(data@.len() as u8);
            let pt1 = PacketType::spec_of_modem(m);
            let k = lk.len() as int;
            assert(l.subrange(0, k) =~= lk);
            let tail = seq![
                Xact::WriteCmd {
                    op: Commands::SetBufferBaseAddress.spec_value(),
                    wdata: seq![0u8, 0u8],
                },
                Xact::WriteBuff { woff: 0, wbdata: data@ },
            ] + (if pt1 == PacketType::Ranging {
                seq![
                    Xact::WriteCmd {
                        op: Commands::SetRangingRole.spec_value(),
                        wdata: seq![RangingRole::Initiator.spec_value()],
                    },
                ]
            } else {
                Seq::empty()
            }) + seq![
                Xact::WriteCmd {
                    op: Commands::SetDioIrqParams.spec_value(),
                    wdata: spec_irq_dio_bytes(spec_tx_irqs(), spec_tx_irqs(), 0, 0),
                },
                Xact::WriteCmd {
                    op: Commands::SetTx.spec_value(),
                    wdata: spec_timeout_bytes(old(self).spec_config().rf_timeout),
                },
            ];
            assert(l.subrange(k, l.len() as int) =~= tail);
            assert(a =~= l0 + seq![
                Xact::WriteCmd { op: Commands::SetStandby.spec_value(), wdata: seq![0u8] },
            ]);
            assert(start_transmit_xacts_ok(
                l0,
                l,
                old(self).spec_config(),
                old(self).spec_packet_type(),
                data@,
            ));
        }
        Ok(())
    }

    /// Check for transmit completion by reading and clearing the interrupt
    /// flags: completion on TX_DONE, a timeout error on RX_TX_TIMEOUT, and
    /// not-yet-complete otherwise — the caller re-polls at its own cadence.
    pub fn check_transmit(&mut self) -> (r: Result<bool, Error>)
        ensures
            final(self).spec_config() == old(self).spec_config(),
            final(self).spec_packet_type() == old(self).spec_packet_type(),
            ({
                let l0 = old(self).spec_log();
                let l = final(self).spec_log();
                let b = spec_irq_at(l0, l);
                match r {
                    Ok(done) => read_irq_step(l0, l, true, Irq { bits: b }) && (if done {
                        b & IRQ_TX_DONE == IRQ_TX_DONE
                    } else {
                        b & IRQ_TX_DONE != IRQ_TX_DONE && b & IRQ_RX_TX_TIMEOUT
                            != IRQ_RX_TX_TIMEOUT
                    }),
                    Err(Error::Timeout) => read_irq_step(l0, l, true, Irq { bits: b }) && b
                        & IRQ_TX_DONE != IRQ_TX_DONE && b & IRQ_RX_TX_TIMEOUT
                        == IRQ_RX_TX_TIMEOUT,
                    Err(e) => spec_transport_err(e),
                }
            }),
    {
        let irq = match self.get_interrupts(true) {
            Ok(irq) => irq,
            Err(e) => {
                return Err(e);
            },
        };
        if irq.contains(IRQ_TX_DONE) {
            Ok(true)
        } else if irq.contains(IRQ_RX_TX_TIMEOUT) {
            Err(Error::Timeout)
        } else {
            Ok(false)
        }
    }

    /// Start the radio in receive mode: force standby, reset the buffer base
    /// addresses, rewrite the current modem parameters, program the RX
    /// interrupt masks, and request RX with the configured timeout.
    pub fn start_receive(&mut self) -> (r: Result<(), Error>)
        ensures
            final(self).spec_config() == old(self).spec_config(),
            final(self).spec_packet_type() == old(self).spec_packet_type() || final(self).spec_packet_type() == PacketType::spec_of_modem(old(self).spec_config().modem),
            r is Ok ==> start_receive_xacts_ok(
                old(self).spec_log(),
                final(self).spec_log(),
                old(self).spec_config(),
                old(self).spec_packet_type(),
            ) && final(self).spec_packet_type() == PacketType::spec_of_modem(
                old(self).spec_config().modem,
            ) && log_extends(old(self).spec_log(), final(self).spec_log()),
            r matches Err(e) ==> spec_transport_err(e),
    {
        let ghost l0 = self.hal.log();
        match self.set_state(State::StandbyRc) {
            Ok(()) => {},
            Err(e) => {
                return Err(e);
            },
        }
        match self.set_buff_base_addr(0, 0) {
            Ok(()) => {},
            Err(e) => {
                return Err(e);
            },
        }
        let ghost a = self.hal.log();
        let modem_config = self.config.modem;
        match self.configure_modem(&modem_config) {
            Ok(()) => {},
            Err(e) => {
                return Err(e);
            },
        }
        let ghost lk = self.hal.log();
        if self.packet_type == PacketType::Ranging {
            let role: Vec<u8> = vec![RangingRole::Responder.value()];
            proof {
                assert(role@ =~= seq![RangingRole::Responder.spec_value()]);
            }
            match self.hal.write_cmd(Commands::SetRangingRole.value(), &role) {
                Ok(()) => {},
                Err(e) => {
                    return Err(e);
                },
            }
        }
        let irqs = Irq::from_bits_truncate(
            IRQ_RX_DONE | IRQ_CRC_ERROR | IRQ_RX_TX_TIMEOUT | IRQ_SYNCWORD_VALID
                | IRQ_SYNCWORD_ERROR | IRQ_HEADER_VALID | IRQ_HEADER_ERROR
                | IRQ_PREAMBLE_DETECTED,
        );
        match self.set_irq_dio_mask(irqs, irqs, Irq::empty(), Irq::empty()) {
            Ok(()) => {},
            Err(e) => {
                return Err(e);
            },
        }
        let config_bytes = self.timeout_bytes();
        match self.hal.write_cmd(Commands::SetRx.value(), &config_bytes) {
            Ok(()) => {},
            Err(e) => {
                return Err(e);
            },
        }
        proof {
            let l = self.hal.log();
            let m = old(self).spec_config().modem;
            let pt1 = PacketType::spec_of_modem(m);
            let k = lk.len() as int;
            assert(l.subrange(0, k) =~= lk);
            let tail = (if pt1 == PacketType::Ranging {
                seq![
                    Xact::WriteCmd {
                        op: Commands::SetRangingRole.spec_value(),
                        wdata: seq![RangingRole::Responder.spec_value()],
                    },
                ]
            } else {
                Seq::empty()
            }) + seq![
                Xact::WriteCmd {
                    op: Commands::SetDioIrqParams.spec_value(),
                    wdata: spec_irq_dio_bytes(spec_rx_irqs(), spec_rx_irqs(), 0, 0),
                },
                Xact::WriteCmd {
                    op: Commands::SetRx.spec_value(),
                    wdata: spec_timeout_bytes(old(self).spec_config().rf_timeout),
                },
            ];
            assert(l.subrange(k, l.len() as int) =~= tail);
            assert(a =~= l0 + seq![
                Xact::WriteCmd { op: Commands::SetStandby.spec_value(), wdata: seq![0u8] },
                Xact::WriteCmd {
                    op: Commands::SetBufferBaseAddress.spec_value(),
                    wdata: seq![0u8, 0u8],
                },
            ]);
            assert(start_receive_xacts_ok(
                l0,
                l,
                old(self).spec_config(),
                old(self).spec_packet_type(),
            ));
            assert(a.subrange(0, l0.len() as int) =~= l0);
            lemma_extends_trans(l0, a, lk);
            lemma_extends_trans(l0, lk, l);
        }
        Ok(())
    }

    /// Check for a received packet by reading and clearing the interrupt
    /// flags, classified in priority order: a CRC error, then a timeout, then
    /// a sync-word error, then completion on RX_DONE, else not yet complete.
    /// With `restart` set, a classified error silently re-enters receive mode
    /// and reports not-yet-complete instead of surfacing; callers that want
    /// to observe those errors pass `restart` false.
    pub fn check_receive(&mut self, restart: bool) -> (r: Result<bool, Error>)
        ensures
            final(self).spec_config() == old(self).spec_config(),
            final(self).spec_packet_type() == old(self).spec_packet_type() || final(self).spec_packet_type() == PacketType::spec_of_modem(old(self).spec_config().modem),
            restart ==> r != Result::<bool, Error>::Err(Error::InvalidCrc) && r
                != Result::<bool, Error>::Err(Error::Timeout) && r != Result::<
                bool,
                Error,
            >::Err(Error::InvalidSync),
            !restart ==> ({
                let l0 = old(self).spec_log();
                let l = final(self).spec_log();
                let b = spec_irq_at(l0, l);
                match r {
                    Ok(done) => read_irq_step(l0, l, true, Irq { bits: b }) && (if done {
                        b & IRQ_RX_DONE == IRQ_RX_DONE && b & IRQ_CRC_ERROR != IRQ_CRC_ERROR && b
                            & IRQ_RX_TX_TIMEOUT != IRQ_RX_TX_TIMEOUT && b & IRQ_SYNCWORD_ERROR
                            != IRQ_SYNCWORD_ERROR
                    } else {
                        b & IRQ_RX_DONE != IRQ_RX_DONE && b & IRQ_CRC_ERROR != IRQ_CRC_ERROR && b
                            & IRQ_RX_TX_TIMEOUT != IRQ_RX_TX_TIMEOUT && b & IRQ_SYNCWORD_ERROR
                            != IRQ_SYNCWORD_ERROR
                    }),
                    Err(Error::InvalidCrc) => read_irq_step(l0, l, true, Irq { bits: b }) && b
                        & IRQ_CRC_ERROR == IRQ_CRC_ERROR,
                    Err(Error::Timeout) => read_irq_step(l0, l, true, Irq { bits: b }) && b
                        & IRQ_CRC_ERROR != IRQ_CRC_ERROR && b & IRQ_RX_TX_TIMEOUT
                        == IRQ_RX_TX_TIMEOUT,
                    Err(Error::InvalidSync) => read_irq_step(l0, l, true, Irq { bits: b }) && b
                        & IRQ_CRC_ERROR != IRQ_CRC_ERROR && b & IRQ_RX_TX_TIMEOUT
                        != IRQ_RX_TX_TIMEOUT && b & IRQ_SYNCWORD_ERROR == IRQ_SYNCWORD_ERROR,
                    Err(e) => spec_transport_err(e),
                }
            }),
            restart ==> ({
                let l0 = old(self).spec_log();
                let l = final(self).spec_log();
                let b = spec_irq_at(l0, l);
                let err_flag = b & IRQ_CRC_ERROR == IRQ_CRC_ERROR || b & IRQ_RX_TX_TIMEOUT
                    == IRQ_RX_TX_TIMEOUT || b & IRQ_SYNCWORD_ERROR == IRQ_SYNCWORD_ERROR;
                let k = l0.len() as int + (if b != 0 {
                    2int
                } else {
                    1int
                });
                match r {
                    Ok(done) => {
                        if done {
                            read_irq_step(l0, l, true, Irq { bits: b }) && !err_flag && b
                                & IRQ_RX_DONE == IRQ_RX_DONE
                        } else if err_flag {
                            // A classified error was swallowed: the poll stands
                            // at the front of the history and a full
                            // receive-start sequence follows it.
                            l.len() >= k && read_irq_step(l0, l.subrange(0, k), true, Irq { bits: b })
                                && start_receive_xacts_ok(
                                l.subrange(0, k),
                                l,
                                old(self).spec_config(),
                                old(self).spec_packet_type(),
                            )
                        } else {
                            read_irq_step(l0, l, true, Irq { bits: b }) && b & IRQ_RX_DONE
                                != IRQ_RX_DONE
                        }
                    },
                    Err(e) => spec_transport_err(e),
                }
            }),
            r matches Err(e) ==> spec_transport_err(e) || (!restart && (e == Error::InvalidCrc
                || e == Error::Timeout || e == Error::InvalidSync)),
    {
        let irq = match self.get_interrupts(true) {
            Ok(irq) => irq,
            Err(e) => {
                return Err(e);
            },
        };
        let crc = irq.contains(IRQ_CRC_ERROR);
        let timeout = irq.contains(IRQ_RX_TX_TIMEOUT);
        let sync = irq.contains(IRQ_SYNCWORD_ERROR);
        let done = irq.contains(IRQ_RX_DONE);
        if crc || timeout || sync {
            if restart {
                let ghost lmid = self.hal.log();
                proof {
                    let b = irq.bits;
                    assert((b & 0x0040u16 == 0x0040u16 || b & 0x4000u16 == 0x4000u16 || b
                        & 0x0008u16 == 0x0008u16) ==> b != 0) by (bit_vector);
                }
                match self.start_receive() {
                    Ok(()) => {
                        proof {
                            let l = self.hal.log();
                            assert(l.subrange(0, lmid.len() as int) =~= lmid);
                            assert(l[old(self).spec_log().len() as int] == lmid[old(self).spec_log().len() as int]);
                        }
                        Ok(false)
                    },
                    Err(e) => Err(e),
                }
            } else {
                if crc {
                    Err(Error::InvalidCrc)
                } else if timeout {
                    Err(Error::Timeout)
                } else {
                    Err(Error::InvalidSync)
                }
            }
        } else if done {
            Ok(true)
        } else {
            Ok(false)
        }
    }

    /// Query the RX buffer pointer and the received length. A LoRa modem with
    /// an implicit header takes the length from the dedicated payload-length
    /// register; BLE adds the two PDU-header bytes the raw count omits.
    pub fn get_rx_buffer_status(&mut self) -> (r: Result<(u8, u8), Error>)
        ensures
            final(self).spec_config() == old(self).spec_config(),
            final(self).spec_packet_type() == old(self).spec_packet_type(),
            r matches Ok((ptr, len)) ==> rx_buffer_status_xacts(
                old(self).spec_log(),
                final(self).spec_log(),
                old(self).spec_config().modem,
                ptr,
                len,
            ),
            r matches Err(e) ==> spec_transport_err(e),
    {
        let ghost l0 = self.hal.log();
        let mut status: Vec<u8> = vec![0u8, 0u8];
        proof {
            assert(status@ =~= seq![0u8, 0u8]);
        }
        match self.hal.read_cmd(Commands::GetRxBufferStatus.value(), &mut status) {
            Ok(()) => {
                proof {
                    assert(self.hal.log().subrange(0, l0.len() as int) =~= l0);
                }
            },
            Err(e) => {
                return Err(e);
            },
        }
        let len: u8 = match &self.config.modem {
            Modem::LoRa(c) => match c.header_type {
                LoRaHeader::Implicit => {
                    match read_reg(&mut self.hal, Registers::LrPayloadLength.value()) {
                        Ok(v) => {
                            proof {
                                assert(self.hal.log().subrange(0, l0.len() as int) =~= l0);
                            }
                            v
                        },
                        Err(e) => {
                            return Err(e);
                        },
                    }
                },
                LoRaHeader::Explicit => status[0],
            },
            Modem::Ble(_) => {
                if status[0] >= 254 {
                    255
                } else {
                    status[0] + 2
                }
            },
            _ => status[0],
        };
        Ok((status[1], len))
    }

    /// Read the five packet-status bytes and decode them into the packet
    /// information for the cached packet type.
    pub fn get_packet_info(&mut self, info: &mut PacketInfo) -> (r: Result<(), Error>)
        requires
            old(self).spec_packet_type() != PacketType::Unset,
        ensures
            final(self).spec_config() == old(self).spec_config(),
            final(self).spec_packet_type() == old(self).spec_packet_type(),
            r is Ok ==> read_cmd_step(
                old(self).spec_log(),
                final(self).spec_log(),
                Commands::GetPacketStatus.spec_value(),
                5,
            ) && *final(info) == spec_decode_packet_info(
                *old(info),
                old(self).spec_packet_type(),
                last_read_data(final(self).spec_log()),
            ),
            r is Err ==> *final(info) == *old(info) && final(self).spec_log() == old(self).spec_log(),
            r matches Err(e) ==> spec_transport_err(e),
    {
        let ghost l0 = self.hal.log();
        let mut d: Vec<u8> = vec![0u8, 0u8, 0u8, 0u8, 0u8];
        proof {
            assert(d@ =~= seq![0u8, 0u8, 0u8, 0u8, 0u8]);
        }
        match self.hal.read_cmd(Commands::GetPacketStatus.value(), &mut d) {
            Ok(()) => {
                proof {
                    assert(self.hal.log().subrange(0, l0.len() as int) =~= l0);
                }
            },
            Err(e) => {
                return Err(e);
            },
        }
        info.packet_status = PacketStatus::from_bits_truncate(d[2]);
        info.tx_rx_status = TxRxStatus::from_bits_truncate(d[3]);
        info.sync_addr_status = d[4] & 0x07;
        match self.packet_type {
            PacketType::Gfsk | PacketType::Flrc | PacketType::Ble => {
                info.rssi = 0 - ((d[1] / 2) as i16);
            },
            PacketType::LoRa | PacketType::Ranging => {
                info.rssi = 0 - ((d[0] / 2) as i16);
                info.snr = Some(
                    if d[1] < 128 {
                        (d[1] / 4) as i16
                    } else {
                        0 - (((256 - d[1] as u16) / 4) as i16)
                    },
                );
            },
            PacketType::Unset => {},
        }
        Ok(())
    }

    /// Fetch a received packet: query the buffer pointer and length, fail
    /// with `InvalidLength` where the caller's buffer is smaller than the
    /// reported length, read the payload at the reported pointer into the
    /// front of the buffer, and decode the packet information.
    pub fn get_received(&mut self, data: &mut Vec<u8>) -> (r: Result<(usize, PacketInfo), Error>)
        requires
            old(self).spec_packet_type() != PacketType::Unset,
        ensures
            final(self).spec_config() == old(self).spec_config(),
            final(self).spec_packet_type() == old(self).spec_packet_type(),
            final(data)@.len() == old(data)@.len(),
            r matches Ok((n, info)) ==> ({
                let l0 = old(self).spec_log();
                let l = final(self).spec_log();
                exists|k: int|
                    #![trigger l.subrange(0, k)]
                    {
                        &&& l0.len() < k < l.len()
                        &&& n <= old(data)@.len()
                        &&& l[k] matches Xact::ReadBuff { roff, rbdata } && rbdata.len() == n
                            && final(data)@ == rbdata + old(data)@.skip(n as int)
                            && rx_buffer_status_xacts(
                            l0,
                            l.subrange(0, k),
                            old(self).spec_config().modem,
                            roff,
                            n as u8,
                        )
                        &&& read_cmd_step(
                            l.subrange(0, k + 1),
                            l,
                            Commands::GetPacketStatus.spec_value(),
                            5,
                        )
                        &&& info == spec_decode_packet_info(
                            PacketInfo::spec_default(),
                            old(self).spec_packet_type(),
                            last_read_data(l),
                        )
                    }
            }),
            r == Result::<(usize, PacketInfo), Error>::Err(Error::InvalidLength) ==> final(data)@ == old(data)@ && exists|ptr: u8, len: u8|
                #![auto]
                rx_buffer_status_xacts(
                    old(self).spec_log(),
                    final(self).spec_log(),
                    old(self).spec_config().modem,
                    ptr,
                    len,
                ) && len > old(data)@.len(),
            r matches Err(e) ==> spec_transport_err(e) || e == Error::InvalidLength,
    {
        let ghost l0 = self.hal.log();
        let (ptr, len) = match self.get_rx_buffer_status() {
            Ok(pl) => pl,
            Err(e) => {
                return Err(e);
            },
        };
        if data.len() < len as usize {
            return Err(Error::InvalidLength);
        }
        let ghost lk = self.hal.log();
        let n = len as usize;
        let mut buff: Vec<u8> = Vec::new();
        let mut i: usize = 0;
        while i < n
            invariant
                i <= n,
                buff@.len() == i,
            decreases n - i,
        {
            buff.push(0u8);
            i = i + 1;
        }
        match self.hal.read_buff(ptr, &mut buff) {
            Ok(()) => {},
            Err(e) => {
                return Err(e);
            },
        }
        let mut out = buff;
        let mut j: usize = n;
        while j < data.len()
            invariant
                n <= j <= data@.len(),
                out@ == last_read_data(self.hal.log()) + data@.subrange(n as int, j as int),
                self.hal.log().len() > 0,
                last_read_data(self.hal.log()).len() == n,
            decreases data@.len() - j,
        {
            let b = data[j];
            out.push(b);
            proof {
                assert(out@ =~= last_read_data(self.hal.log()) + data@.subrange(
                    n as int,
                    j as int + 1,
                ));
            }
            j = j + 1;
        }
        *data = out;
        let mut info = PacketInfo::default();
        match self.get_packet_info(&mut info) {
            Ok(()) => {},
            Err(e) => {
                return Err(e);
            },
        }
        proof {
            let l = self.hal.log();
            let k = lk.len() as int;
            assert(l.subrange(0, k) =~= lk);
            assert(l.subrange(0, k + 1) =~= lk.push(l[k]));
            assert(final(data)@ == last_read_data(l.subrange(0, k + 1)) + old(data)@.skip(
                n as int,
            ));
        }
        Ok((n, info))
    }
}


impl<H: Hal> Sx128x<H> {
    /// Create a driver over a transport: reset the device, read the firmware
    /// version (a value of 0x0000 or 0xFFFF means the chip is unreachable and
    /// fails with `NoComms`; any other unexpected version proceeds), apply
    /// the configuration, and settle in RC standby.
    pub fn new(hal: H, config: &Config) -> (r: Result<Sx128x<H>, Error>)
        ensures
            r matches Ok(radio) ==> ({
                let lh = hal.log();
                let l = radio.spec_log();
                &&& radio.spec_wf()
                &&& spec_tags_match(config.modem, config.channel)
                &&& radio.spec_packet_type() == PacketType::spec_of_modem(config.modem)
                &&& radio.spec_config() == (Config {
                    regulator_mode: config.regulator_mode,
                    modem: config.modem,
                    channel: config.channel,
                    pa_config: PaConfig {
                        power: spec_power_clamped(config.pa_config.power),
                        ramp_time: config.pa_config.ramp_time,
                    },
                    ..Config::spec_default()
                })
                &&& l.len() >= lh.len() + 3
                &&& l.subrange(0, lh.len() as int) == lh
                &&& l[lh.len() as int] == Xact::Reset
                &&& l[lh.len() as int + 1] matches Xact::ReadRegs { rreg, rrdata } && rreg
                    == Registers::LrFirmwareVersionMsb.spec_value() && rrdata.len() == 2 && {
                    let fw = (rrdata[0] as u16) * 0x100 + rrdata[1] as u16;
                    fw != 0xFFFF && fw != 0x0000
                }
                &&& configure_xacts_ok(
                    l.subrange(0, lh.len() as int + 2),
                    l.subrange(0, l.len() - 1),
                    *config,
                    PacketType::Unset,
                    RegulatorMode::Ldo,
                    52_000_000,
                )
                &&& l.last() == (Xact::WriteCmd {
                    op: Commands::SetStandby.spec_value(),
                    wdata: seq![0u8],
                })
            }),
            !spec_tags_match(config.modem, config.channel) ==> !(r is Ok),
            r matches Err(e) ==> spec_transport_err(e) || e == Error::NoComms || e
                == Error::InvalidConfiguration || e == Error::InvalidFrequency,
    {
        let mut sx128x = Self::build(hal);
        let ghost lh = sx128x.hal.log();
        match sx128x.reset() {
            Ok(()) => {},
            Err(e) => {
                return Err(e);
            },
        }
        let ghost lh1 = sx128x.hal.log();
        let firmware_version = match sx128x.firmware_version() {
            Ok(v) => v,
            Err(e) => {
                return Err(e);
            },
        };
        if firmware_version == 0xFFFF || firmware_version == 0x0000 {
            return Err(Error::NoComms);
        }
        let ghost l2 = sx128x.hal.log();
        match sx128x.configure(config) {
            Ok(()) => {},
            Err(e) => {
                return Err(e);
            },
        }
        let ghost l3 = sx128x.hal.log();
        match sx128x.set_state(State::StandbyRc) {
            Ok(()) => {},
            Err(e) => {
                return Err(e);
            },
        }
        proof {
            let l = sx128x.hal.log();
            assert(l.subrange(0, l.len() - 1) =~= l3);
            assert(l.subrange(0, l3.len() as int) =~= l3);
            lemma_extends_trans(l2, l3, l);
            assert(l2.subrange(0, lh.len() as int) =~= lh);
            lemma_extends_trans(lh, l2, l);
            assert(l2.len() == lh.len() + 2);
            assert(l2[lh.len() as int] == l2.subrange(0, lh1.len() as int)[lh.len() as int]);
            assert(l2[lh.len() as int] == Xact::Reset);
            assert(l2[lh.len() as int + 1] == l2.last());
            assert(l[lh.len() as int] == l2[lh.len() as int]);
            assert(l[lh.len() as int + 1] == l2[lh.len() as int + 1]);
        }
        Ok(sx128x)
    }
}

} // verus!
