//! Device configuration objects, register and command tables, and the
//! frequency/step conversion rules for the transceiver.

use vstd::prelude::*;

pub mod ble;
pub mod common;
pub mod flrc;
pub mod gfsk;
pub mod lora;

use crate::device::ble::{BleChannel, BleConfig};
use crate::device::flrc::{FlrcChannel, FlrcConfig};
use crate::device::gfsk::{GfskChannel, GfskConfig};
use crate::device::lora::{LoRaChannel, LoRaConfig};

verus! {

/// Timeout for the busy-pin wait bracketing every transaction, in milliseconds.
pub const BUSY_TIMEOUT_MS: u32 = 500;

/// Offset subtracted from AutoTx timeouts to compensate for internal delays, in microseconds.
pub const AUTO_RX_TX_OFFSET: u16 = 33;

/// Mask for the ranging mux selection register.
pub const MASK_RANGINGMUXSEL: u8 = 0xCF;

/// Mask for the LNA regime register.
pub const MASK_LNA_REGIME: u8 = 0xC0;

/// Mask for the manual gain control register.
pub const MASK_MANUAL_GAIN_CONTROL: u8 = 0x80;

/// Mask for the demodulator detection register.
pub const MASK_DEMOD_DETECTION: u8 = 0xFE;

/// Mask for the manual gain value register.
pub const MASK_MANUAL_GAIN_VALUE: u8 = 0xF0;

/// Mask for the estimated frequency error register.
pub const MASK_LR_ESTIMATED_FREQUENCY_ERROR: u32 = 0x0FFFFF;

/// Radio state
#[derive(Copy, Clone, PartialEq, Eq, Structural, Debug)]
pub enum State {
    /// Sleep mode
    Sleep,
    /// Standby on the RC oscillator
    StandbyRc,
    /// Standby on the crystal oscillator
    StandbyXosc,
    /// Frequency synthesis
    Fs,
    /// Receive mode
    Rx,
    /// Transmit mode
    Tx,
}

impl State {
    /// Wire value of each variant.
    pub open spec fn spec_value(self) -> u8 {
        match self {
            State::Sleep => 0x00,
            State::StandbyRc => 0x02,
            State::StandbyXosc => 0x03,
            State::Fs => 0x04,
            State::Rx => 0x05,
            State::Tx => 0x06,
        }
    }

    /// Wire value of this variant, as written to the device.
    pub fn value(self) -> (v: u8)
        ensures
            v == self.spec_value(),
    {
        match self {
            State::Sleep => 0x00,
            State::StandbyRc => 0x02,
            State::StandbyXosc => 0x03,
            State::Fs => 0x04,
            State::Rx => 0x05,
            State::Tx => 0x06,
        }
    }
}

/// Status of the last command, reported beside the circuit state
#[derive(Copy, Clone, PartialEq, Eq, Structural, Debug)]
pub enum CommandStatus {
    /// Reserved status
    Reserved,
    /// Command processed successfully
    Success,
    /// Data available to host
    DataAvailable,
    /// Command timed out
    Timeout,
    /// Command processing error
    ProcessingError,
    /// Failure to execute command
    ExecutionFailure,
    /// Transmission complete
    TxDone,
}

impl CommandStatus {
    /// Wire value of each variant.
    pub open spec fn spec_value(self) -> u8 {
        match self {
            CommandStatus::Reserved => 0x0,
            CommandStatus::Success => 0x1,
            CommandStatus::DataAvailable => 0x2,
            CommandStatus::Timeout => 0x3,
            CommandStatus::ProcessingError => 0x4,
            CommandStatus::ExecutionFailure => 0x5,
            CommandStatus::TxDone => 0x6,
        }
    }

    /// Wire value of this variant, as written to the device.
    pub fn value(self) -> (v: u8)
        ensures
            v == self.spec_value(),
    {
        match self {
            CommandStatus::Reserved => 0x0,
            CommandStatus::Success => 0x1,
            CommandStatus::DataAvailable => 0x2,
            CommandStatus::Timeout => 0x3,
            CommandStatus::ProcessingError => 0x4,
            CommandStatus::ExecutionFailure => 0x5,
            CommandStatus::TxDone => 0x6,
        }
    }
}

/// Regulator operating mode
#[derive(Copy, Clone, PartialEq, Eq, Structural, Debug)]
pub enum RegulatorMode {
    /// Internal LDO
    Ldo,
    /// Internal DC/DC converter
    Dcdc,
}

impl RegulatorMode {
    /// Wire value of each variant.
    pub open spec fn spec_value(self) -> u8 {
        match self {
            RegulatorMode::Ldo => 0x00,
            RegulatorMode::Dcdc => 0x01,
        }
    }

    /// Wire value of this variant, as written to the device.
    pub fn value(self) -> (v: u8)
        ensures
            v == self.spec_value(),
    {
        match self {
            RegulatorMode::Ldo => 0x00,
            RegulatorMode::Dcdc => 0x01,
        }
    }
}

/// Power amplifier ramp time
#[derive(Copy, Clone, PartialEq, Eq, Structural, Debug)]
pub enum RampTime {
    /// Ramp over 2us
    Ramp02Us,
    /// Ramp over 4us
    Ramp04Us,
    /// Ramp over 6us
    Ramp06Us,
    /// Ramp over 8us
    Ramp08Us,
    /// Ramp over 10us
    Ramp10Us,
    /// Ramp over 12us
    Ramp12Us,
    /// Ramp over 16us
    Ramp16Us,
    /// Ramp over 20us
    Ramp20Us,
}

impl RampTime {
    /// Wire value of each variant.
    pub open spec fn spec_value(self) -> u8 {
        match self {
            RampTime::Ramp02Us => 0x00,
            RampTime::Ramp04Us => 0x20,
            RampTime::Ramp06Us => 0x40,
            RampTime::Ramp08Us => 0x60,
            RampTime::Ramp10Us => 0x80,
            RampTime::Ramp12Us => 0xA0,
            RampTime::Ramp16Us => 0xC0,
            RampTime::Ramp20Us => 0xE0,
        }
    }

    /// Wire value of this variant, as written to the device.
    pub fn value(self) -> (v: u8)
        ensures
            v == self.spec_value(),
    {
        match self {
            RampTime::Ramp02Us => 0x00,
            RampTime::Ramp04Us => 0x20,
            RampTime::Ramp06Us => 0x40,
            RampTime::Ramp08Us => 0x60,
            RampTime::Ramp10Us => 0x80,
            RampTime::Ramp12Us => 0xA0,
            RampTime::Ramp16Us => 0xC0,
            RampTime::Ramp20Us => 0xE0,
        }
    }
}

/// Packet type enumeration
#[derive(Copy, Clone, PartialEq, Eq, Structural, Debug)]
pub enum PacketType {
    /// GFSK framing
    Gfsk,
    /// LoRa framing
    LoRa,
    /// Ranging framing
    Ranging,
    /// FLRC framing
    Flrc,
    /// BLE framing
    Ble,
    /// No packet type selected
    Unset,
}

impl PacketType {
    /// Wire value of each variant.
    pub open spec fn spec_value(self) -> u8 {
        match self {
            PacketType::Gfsk => 0x00,
            PacketType::LoRa => 0x01,
            PacketType::Ranging => 0x02,
            PacketType::Flrc => 0x03,
            PacketType::Ble => 0x04,
            PacketType::Unset => 0x0F,
        }
    }

    /// Wire value of this variant, as written to the device.
    pub fn value(self) -> (v: u8)
        ensures
            v == self.spec_value(),
    {
        match self {
            PacketType::Gfsk => 0x00,
            PacketType::LoRa => 0x01,
            PacketType::Ranging => 0x02,
            PacketType::Flrc => 0x03,
            PacketType::Ble => 0x04,
            PacketType::Unset => 0x0F,
        }
    }
}

/// Radio command opcodes
#[derive(Copy, Clone, PartialEq, Eq, Structural, Debug)]
pub enum Commands {
    GetStatus,
    WriteRegister,
    ReadRegister,
    WriteBuffer,
    ReadBuffer,
    SetSleep,
    SetStandby,
    SetFs,
    SetTx,
    SetRx,
    SetRxDutyCycle,
    SetCad,
    SetTxContinuousWave,
    SetTxContinuousPreamble,
    SetPacketType,
    GetPacketType,
    SetRfFrequency,
    SetTxParams,
    SetCadParams,
    SetBufferBaseAddress,
    SetModulationParams,
    SetPacketParams,
    GetRxBufferStatus,
    GetPacketStatus,
    GetRssiInst,
    SetDioIrqParams,
    GetIrqStatus,
    ClearIrqStatus,
    Calibrate,
    SetRegulatorMode,
    SetSaveContext,
    SetAutoTx,
    SetAutoFs,
    SetLongPreamble,
    SetUartSpeed,
    SetRangingRole,
}

impl Commands {
    /// Wire value of each variant.
    pub open spec fn spec_value(self) -> u8 {
        match self {
            Commands::GetStatus => 0xC0,
            Commands::WriteRegister => 0x18,
            Commands::ReadRegister => 0x19,
            Commands::WriteBuffer => 0x1A,
            Commands::ReadBuffer => 0x1B,
            Commands::SetSleep => 0x84,
            Commands::SetStandby => 0x80,
            Commands::SetFs => 0xC1,
            Commands::SetTx => 0x83,
            Commands::SetRx => 0x82,
            Commands::SetRxDutyCycle => 0x94,
            Commands::SetCad => 0xC5,
            Commands::SetTxContinuousWave => 0xD1,
            Commands::SetTxContinuousPreamble => 0xD2,
            Commands::SetPacketType => 0x8A,
            Commands::GetPacketType => 0x03,
            Commands::SetRfFrequency => 0x86,
            Commands::SetTxParams => 0x8E,
            Commands::SetCadParams => 0x88,
            Commands::SetBufferBaseAddress => 0x8F,
            Commands::SetModulationParams => 0x8B,
            Commands::SetPacketParams => 0x8C,
            Commands::GetRxBufferStatus => 0x17,
            Commands::GetPacketStatus => 0x1D,
            Commands::GetRssiInst => 0x1F,
            Commands::SetDioIrqParams => 0x8D,
            Commands::GetIrqStatus => 0x15,
            Commands::ClearIrqStatus => 0x97,
            Commands::Calibrate => 0x89,
            Commands::SetRegulatorMode => 0x96,
            Commands::SetSaveContext => 0xD5,
            Commands::SetAutoTx => 0x98,
            Commands::SetAutoFs => 0x9E,
            Commands::SetLongPreamble => 0x9B,
            Commands::SetUartSpeed => 0x9D,
            Commands::SetRangingRole => 0xA3,
        }
    }

    /// Wire value of this variant, as written to the device.
    pub fn value(self) -> (v: u8)
        ensures
            v == self.spec_value(),
    {
        match self {
            Commands::GetStatus => 0xC0,
            Commands::WriteRegister => 0x18,
            Commands::ReadRegister => 0x19,
            Commands::WriteBuffer => 0x1A,
            Commands::ReadBuffer => 0x1B,
            Commands::SetSleep => 0x84,
            Commands::SetStandby => 0x80,
            Commands::SetFs => 0xC1,
            Commands::SetTx => 0x83,
            Commands::SetRx => 0x82,
            Commands::SetRxDutyCycle => 0x94,
            Commands::SetCad => 0xC5,
            Commands::SetTxContinuousWave => 0xD1,
            Commands::SetTxContinuousPreamble => 0xD2,
            Commands::SetPacketType => 0x8A,
            Commands::GetPacketType => 0x03,
            Commands::SetRfFrequency => 0x86,
            Commands::SetTxParams => 0x8E,
            Commands::SetCadParams => 0x88,
            Commands::SetBufferBaseAddress => 0x8F,
            Commands::SetModulationParams => 0x8B,
            Commands::SetPacketParams => 0x8C,
            Commands::GetRxBufferStatus => 0x17,
            Commands::GetPacketStatus => 0x1D,
            Commands::GetRssiInst => 0x1F,
            Commands::SetDioIrqParams => 0x8D,
            Commands::GetIrqStatus => 0x15,
            Commands::ClearIrqStatus => 0x97,
            Commands::Calibrate => 0x89,
            Commands::SetRegulatorMode => 0x96,
            Commands::SetSaveContext => 0xD5,
            Commands::SetAutoTx => 0x98,
            Commands::SetAutoFs => 0x9E,
            Commands::SetLongPreamble => 0x9B,
            Commands::SetUartSpeed => 0x9D,
            Commands::SetRangingRole => 0xA3,
        }
    }
}

/// Radio register addresses
#[derive(Copy, Clone, PartialEq, Eq, Structural, Debug)]
pub enum Registers {
    LrFirmwareVersionMsb,
    LrCrcSeedBaseAddr,
    LrCrcPolyBaseAddr,
    LrWhitSeedBaseAddr,
    LrRangingIdCheckLength,
    LrDeviceRangingAddr,
    LrRequestRangingAddr,
    LrRangingResultConfig,
    LrRangingResultBaseAddr,
    LrRangingResultsFreeze,
    LrRangingReRxTxDelayCal,
    LrRangingFilterWindowSize,
    LrRangingResultClearReg,
    RangingRssi,
    LrPacketParams,
    LrPayloadLength,
    LrSyncWordBaseAddress1,
    LrSyncWordBaseAddress2,
    LrSyncWordBaseAddress3,
    LrEstimatedFrequencyErrorMsb,
    GfskBlePreambleLength,
    LrSyncWordTolerance,
    LrBleAccessAddress,
    LnaRegime,
    EnableManuaLGainControl,
    DemodDetection,
    ManualGainValue,
}

impl Registers {
    /// Wire value of each variant.
    pub open spec fn spec_value(self) -> u16 {
        match self {
            Registers::LrFirmwareVersionMsb => 0x0153,
            Registers::LrCrcSeedBaseAddr => 0x09C8,
            Registers::LrCrcPolyBaseAddr => 0x09C6,
            Registers::LrWhitSeedBaseAddr => 0x09C5,
            Registers::LrRangingIdCheckLength => 0x0931,
            Registers::LrDeviceRangingAddr => 0x0916,
            Registers::LrRequestRangingAddr => 0x0912,
            Registers::LrRangingResultConfig => 0x0924,
            Registers::LrRangingResultBaseAddr => 0x0961,
            Registers::LrRangingResultsFreeze => 0x097F,
            Registers::LrRangingReRxTxDelayCal => 0x092C,
            Registers::LrRangingFilterWindowSize => 0x091E,
            Registers::LrRangingResultClearReg => 0x0923,
            Registers::RangingRssi => 0x0964,
            Registers::LrPacketParams => 0x903,
            Registers::LrPayloadLength => 0x901,
            Registers::LrSyncWordBaseAddress1 => 0x09CE,
            Registers::LrSyncWordBaseAddress2 => 0x09D3,
            Registers::LrSyncWordBaseAddress3 => 0x09D8,
            Registers::LrEstimatedFrequencyErrorMsb => 0x0954,
            Registers::GfskBlePreambleLength => 0x09C1,
            Registers::LrSyncWordTolerance => 0x09CD,
            Registers::LrBleAccessAddress => 0x09CF,
            Registers::LnaRegime => 0x0891,
            Registers::EnableManuaLGainControl => 0x089F,
            Registers::DemodDetection => 0x0895,
            Registers::ManualGainValue => 0x089E,
        }
    }

    /// Wire value of this variant, as written to the device.
    pub fn value(self) -> (v: u16)
        ensures
            v == self.spec_value(),
    {
        match self {
            Registers::LrFirmwareVersionMsb => 0x0153,
            Registers::LrCrcSeedBaseAddr => 0x09C8,
            Registers::LrCrcPolyBaseAddr => 0x09C6,
            Registers::LrWhitSeedBaseAddr => 0x09C5,
            Registers::LrRangingIdCheckLength => 0x0931,
            Registers::LrDeviceRangingAddr => 0x0916,
            Registers::LrRequestRangingAddr => 0x0912,
            Registers::LrRangingResultConfig => 0x0924,
            Registers::LrRangingResultBaseAddr => 0x0961,
            Registers::LrRangingResultsFreeze => 0x097F,
            Registers::LrRangingReRxTxDelayCal => 0x092C,
            Registers::LrRangingFilterWindowSize => 0x091E,
            Registers::LrRangingResultClearReg => 0x0923,
            Registers::RangingRssi => 0x0964,
            Registers::LrPacketParams => 0x903,
            Registers::LrPayloadLength => 0x901,
            Registers::LrSyncWordBaseAddress1 => 0x09CE,
            Registers::LrSyncWordBaseAddress2 => 0x09D3,
            Registers::LrSyncWordBaseAddress3 => 0x09D8,
            Registers::LrEstimatedFrequencyErrorMsb => 0x0954,
            Registers::GfskBlePreambleLength => 0x09C1,
            Registers::LrSyncWordTolerance => 0x09CD,
            Registers::LrBleAccessAddress => 0x09CF,
            Registers::LnaRegime => 0x0891,
            Registers::EnableManuaLGainControl => 0x089F,
            Registers::DemodDetection => 0x0895,
            Registers::ManualGainValue => 0x089E,
        }
    }
}

/// Ranging mode role
#[derive(Copy, Clone, PartialEq, Eq, Structural, Debug)]
pub enum RangingRole {
    /// Responder listens for ranging requests and responds
    Responder,
    /// Initiator sends ranging requests and awaits responses
    Initiator,
}

impl RangingRole {
    /// Wire value of each variant.
    pub open spec fn spec_value(self) -> u8 {
        match self {
            RangingRole::Responder => 0x00,
            RangingRole::Initiator => 0x01,
        }
    }

    /// Wire value of this variant, as written to the device.
    pub fn value(self) -> (v: u8)
        ensures
            v == self.spec_value(),
    {
        match self {
            RangingRole::Responder => 0x00,
            RangingRole::Initiator => 0x01,
        }
    }
}

/// Tick size for timeout calculations
#[derive(Copy, Clone, PartialEq, Eq, Structural, Debug)]
pub enum TickSize {
    /// 15us tick size
    TickSize0015us,
    /// 62us tick size
    TickSize0062us,
    /// 1000us tick size
    TickSize1000us,
    /// 4000us tick size
    TickSize4000us,
}

impl TickSize {
    /// Wire value of each variant.
    pub open spec fn spec_value(self) -> u8 {
        match self {
            TickSize::TickSize0015us => 0x00,
            TickSize::TickSize0062us => 0x01,
            TickSize::TickSize1000us => 0x02,
            TickSize::TickSize4000us => 0x03,
        }
    }

    /// Wire value of this variant, as written to the device.
    pub fn value(self) -> (v: u8)
        ensures
            v == self.spec_value(),
    {
        match self {
            TickSize::TickSize0015us => 0x00,
            TickSize::TickSize0062us => 0x01,
            TickSize::TickSize1000us => 0x02,
            TickSize::TickSize4000us => 0x03,
        }
    }
}

impl State {
    /// Decoding of a raw circuit-mode value (the top three status bits).
    pub open spec fn spec_try_from(v: u8) -> Option<State> {
        match v {
            0x00 => Some(State::Sleep),
            0x02 => Some(State::StandbyRc),
            0x03 => Some(State::StandbyXosc),
            0x04 => Some(State::Fs),
            0x05 => Some(State::Rx),
            0x06 => Some(State::Tx),
            _ => None,
        }
    }

    /// Decode a raw circuit-mode value; out-of-datasheet values give `None`.
    pub fn try_from(v: u8) -> (s: Option<State>)
        ensures
            s == State::spec_try_from(v),
    {
        match v {
            0x00 => Some(State::Sleep),
            0x02 => Some(State::StandbyRc),
            0x03 => Some(State::StandbyXosc),
            0x04 => Some(State::Fs),
            0x05 => Some(State::Rx),
            0x06 => Some(State::Tx),
            _ => None,
        }
    }
}

impl CommandStatus {
    /// Decoding of a raw command-status value (status bits 2 to 4).
    pub open spec fn spec_try_from(v: u8) -> Option<CommandStatus> {
        match v {
            0x00 => Some(CommandStatus::Reserved),
            0x01 => Some(CommandStatus::Success),
            0x02 => Some(CommandStatus::DataAvailable),
            0x03 => Some(CommandStatus::Timeout),
            0x04 => Some(CommandStatus::ProcessingError),
            0x05 => Some(CommandStatus::ExecutionFailure),
            0x06 => Some(CommandStatus::TxDone),
            _ => None,
        }
    }

    /// Decode a raw command-status value; unrecognised values give `None`.
    pub fn try_from(v: u8) -> (s: Option<CommandStatus>)
        ensures
            s == CommandStatus::spec_try_from(v),
    {
        match v {
            0x00 => Some(CommandStatus::Reserved),
            0x01 => Some(CommandStatus::Success),
            0x02 => Some(CommandStatus::DataAvailable),
            0x03 => Some(CommandStatus::Timeout),
            0x04 => Some(CommandStatus::ProcessingError),
            0x05 => Some(CommandStatus::ExecutionFailure),
            0x06 => Some(CommandStatus::TxDone),
            _ => None,
        }
    }
}

/// Power Amplifier configuration
#[derive(Copy, Clone, PartialEq, Eq, Structural, Debug)]
pub struct PaConfig {
    /// Power in dBm
    pub power: i8,
    /// Ramp time for power amplifier
    pub ramp_time: RampTime,
}

/// Timeout configuration for autonomous radio operations
#[derive(Copy, Clone, PartialEq, Eq, Structural, Debug)]
pub enum Timeout {
    /// Single tx/rx mode
    Single,
    /// Configurable timeout
    Configurable {
        /// Timeout step size
        step: TickSize,
        /// Number of steps to timeout
        count: u16,
    },
    /// Continuous rx/tx mode
    Continuous,
}

impl Timeout {
    /// Tick size of a timeout configuration.
    pub open spec fn spec_step(self) -> TickSize {
        match self {
            Timeout::Single => TickSize::TickSize0015us,
            Timeout::Configurable { step, count: _ } => step,
            Timeout::Continuous => TickSize::TickSize0015us,
        }
    }

    /// Fetch the TickSize from a timeout configuration
    pub fn step(&self) -> (s: TickSize)
        ensures
            s == self.spec_step(),
    {
        match self {
            Timeout::Single => TickSize::TickSize0015us,
            Timeout::Configurable { step, count: _ } => *step,
            Timeout::Continuous => TickSize::TickSize0015us,
        }
    }

    /// Step count of a timeout configuration.
    pub open spec fn spec_count(self) -> u16 {
        match self {
            Timeout::Single => 0x0000,
            Timeout::Configurable { step: _, count } => count,
            Timeout::Continuous => 0xFFFF,
        }
    }

    /// Fetch the step count for a timeout configuration
    pub fn count(&self) -> (c: u16)
        ensures
            c == self.spec_count(),
    {
        match self {
            Timeout::Single => 0x0000,
            Timeout::Configurable { step: _, count } => *count,
            Timeout::Continuous => 0xFFFF,
        }
    }
}

/// AutoTx configuration
#[derive(Copy, Clone, PartialEq, Eq, Structural, Debug)]
pub enum AutoTx {
    /// Enable AutoTX with the provided timeout in microseconds (uS)
    Enabled(u16),
    /// Disable AutoTx
    Disabled,
}

/// Radio modem configuration contains fields for each modem mode
#[derive(Copy, Clone, PartialEq, Eq, Structural, Debug)]
pub enum Modem {
    /// GFSK packet configuration
    Gfsk(GfskConfig),
    /// LoRa packet configuration
    LoRa(LoRaConfig),
    /// FLRC packet configuration
    Flrc(FlrcConfig),
    /// BLE packet configuration
    Ble(BleConfig),
    /// Ranging packet configuration (shares the LoRa packet layout)
    Ranging(LoRaConfig),
    /// No modem selected
    Unset,
}

impl Modem {
    /// The modem with its payload length replaced, where the mode carries one.
    pub open spec fn spec_set_payload_len(self, len: u8) -> Modem {
        match self {
            Modem::Gfsk(c) => Modem::Gfsk(GfskConfig { payload_length: len, ..c }),
            Modem::LoRa(c) => Modem::LoRa(LoRaConfig { payload_length: len, ..c }),
            Modem::Flrc(c) => Modem::Flrc(FlrcConfig { payload_length: len, ..c }),
            _ => self,
        }
    }

    /// Update the payload length of a modem configuration, where the mode carries one.
    pub fn set_payload_len(&mut self, len: u8)
        ensures
            *final(self) == old(self).spec_set_payload_len(len),
    {
        match self {
            Modem::Gfsk(c) => c.payload_length = len,
            Modem::LoRa(c) => c.payload_length = len,
            Modem::Flrc(c) => c.payload_length = len,
            _ => (),
        }
    }
}

/// Radio channel configuration contains channel options for each mode
#[derive(Copy, Clone, PartialEq, Eq, Structural, Debug)]
pub enum Channel {
    /// GFSK channel configuration
    Gfsk(GfskChannel),
    /// LoRa channel configuration
    LoRa(LoRaChannel),
    /// FLRC channel configuration
    Flrc(FlrcChannel),
    /// BLE channel configuration
    Ble(BleChannel),
    /// Ranging channel configuration (shares the LoRa channel layout)
    Ranging(LoRaChannel),
}

impl Default for Channel {
    fn default() -> (c: Self)
        ensures
            c == Channel::LoRa(LoRaChannel::spec_default()),
    {
        Channel::LoRa(LoRaChannel::default())
    }
}

impl Channel {
    /// Operating frequency of a channel configuration.
    pub open spec fn spec_frequency(self) -> u32 {
        match self {
            Channel::Gfsk(c) => c.freq,
            Channel::LoRa(c) => c.freq,
            Channel::Flrc(c) => c.freq,
            Channel::Ble(c) => c.freq,
            Channel::Ranging(c) => c.freq,
        }
    }

    /// Fetch frequency for a given modulation configuration
    pub fn frequency(&self) -> (f: u32)
        ensures
            f == self.spec_frequency(),
    {
        match self {
            Channel::Gfsk(c) => c.freq,
            Channel::LoRa(c) => c.freq,
            Channel::Flrc(c) => c.freq,
            Channel::Ble(c) => c.freq,
            Channel::Ranging(c) => c.freq,
        }
    }
}

impl PacketType {
    /// Packet type selected by a modem configuration.
    pub open spec fn spec_of_modem(m: Modem) -> PacketType {
        match m {
            Modem::Gfsk(_) => PacketType::Gfsk,
            Modem::LoRa(_) => PacketType::LoRa,
            Modem::Ranging(_) => PacketType::LoRa,
            Modem::Flrc(_) => PacketType::Flrc,
            Modem::Ble(_) => PacketType::Ble,
            Modem::Unset => PacketType::Unset,
        }
    }

    /// Compute the packet type a modem configuration requires.
    pub fn of_modem(m: &Modem) -> (p: PacketType)
        ensures
            p == PacketType::spec_of_modem(*m),
    {
        match m {
            Modem::Gfsk(_) => PacketType::Gfsk,
            Modem::LoRa(_) => PacketType::LoRa,
            Modem::Ranging(_) => PacketType::LoRa,
            Modem::Flrc(_) => PacketType::Flrc,
            Modem::Ble(_) => PacketType::Ble,
            Modem::Unset => PacketType::Unset,
        }
    }

    /// Packet type selected by a channel configuration.
    pub open spec fn spec_of_channel(c: Channel) -> PacketType {
        match c {
            Channel::Gfsk(_) => PacketType::Gfsk,
            Channel::LoRa(_) => PacketType::LoRa,
            Channel::Ranging(_) => PacketType::LoRa,
            Channel::Flrc(_) => PacketType::Flrc,
            Channel::Ble(_) => PacketType::Ble,
        }
    }

    /// Compute the packet type a channel configuration requires.
    pub fn of_channel(c: &Channel) -> (p: PacketType)
        ensures
            p == PacketType::spec_of_channel(*c),
    {
        match c {
            Channel::Gfsk(_) => PacketType::Gfsk,
            Channel::LoRa(_) => PacketType::LoRa,
            Channel::Ranging(_) => PacketType::LoRa,
            Channel::Flrc(_) => PacketType::Flrc,
            Channel::Ble(_) => PacketType::Ble,
        }
    }
}

/// The modem and channel variants name the same modulation family.
pub open spec fn spec_tags_match(m: Modem, c: Channel) -> bool {
    match (m, c) {
        (Modem::Gfsk(_), Channel::Gfsk(_)) => true,
        (Modem::LoRa(_), Channel::LoRa(_)) => true,
        (Modem::Flrc(_), Channel::Flrc(_)) => true,
        (Modem::Ble(_), Channel::Ble(_)) => true,
        (Modem::Ranging(_), Channel::Ranging(_)) => true,
        _ => false,
    }
}

/// Check that modem and channel configurations name the same modulation family.
pub fn tags_match(m: &Modem, c: &Channel) -> (r: bool)
    ensures
        r == spec_tags_match(*m, *c),
{
    match (m, c) {
        (Modem::Gfsk(_), Channel::Gfsk(_)) => true,
        (Modem::LoRa(_), Channel::LoRa(_)) => true,
        (Modem::Flrc(_), Channel::Flrc(_)) => true,
        (Modem::Ble(_), Channel::Ble(_)) => true,
        (Modem::Ranging(_), Channel::Ranging(_)) => true,
        _ => false,
    }
}

/// Interrupt flag: transmission complete.
pub const IRQ_TX_DONE: u16 = 0x0001;

/// Interrupt flag: reception complete.
pub const IRQ_RX_DONE: u16 = 0x0002;

/// Interrupt flag: sync word detected.
pub const IRQ_SYNCWORD_VALID: u16 = 0x0004;

/// Interrupt flag: sync word mismatch.
pub const IRQ_SYNCWORD_ERROR: u16 = 0x0008;

/// Interrupt flag: header received.
pub const IRQ_HEADER_VALID: u16 = 0x0010;

/// Interrupt flag: header error.
pub const IRQ_HEADER_ERROR: u16 = 0x0020;

/// Interrupt flag: CRC mismatch on a received packet.
pub const IRQ_CRC_ERROR: u16 = 0x0040;

/// Interrupt flag: ranging responder response complete.
pub const IRQ_RANGING_SLAVE_RESPONSE_DONE: u16 = 0x0080;

/// Interrupt flag: ranging responder request discarded.
pub const IRQ_RANGING_SLAVE_REQUEST_DISCARDED: u16 = 0x0100;

/// Interrupt flag: ranging initiator result valid.
pub const IRQ_RANGING_MASTER_RESULT_VALID: u16 = 0x0200;

/// Interrupt flag: ranging initiator timed out.
pub const IRQ_RANGING_MASTER_RESULT_TIMEOUT: u16 = 0x0400;

/// Interrupt flag: ranging responder request valid.
pub const IRQ_RANGING_SLAVE_REQUEST_VALID: u16 = 0x0800;

/// Interrupt flag: channel activity detection complete.
pub const IRQ_CAD_DONE: u16 = 0x1000;

/// Interrupt flag: channel activity detected.
pub const IRQ_CAD_ACTIVITY_DETECTED: u16 = 0x2000;

/// Interrupt flag: receive or transmit timeout.
pub const IRQ_RX_TX_TIMEOUT: u16 = 0x4000;

/// Interrupt flag: preamble detected.
pub const IRQ_PREAMBLE_DETECTED: u16 = 0x8000;

/// Interrupt flags register
#[derive(Copy, Clone, PartialEq, Eq, Structural, Debug)]
pub struct Irq {
    /// Raw interrupt flag bits.
    pub bits: u16,
}

impl Irq {
    /// An empty flag set.
    pub fn empty() -> (r: Irq)
        ensures
            r.bits == 0,
    {
        Irq { bits: 0 }
    }

    /// Decode a raw flag word; every bit of the register is a defined flag.
    pub fn from_bits_truncate(v: u16) -> (r: Irq)
        ensures
            r.bits == v,
    {
        Irq { bits: v }
    }

    /// Raw bits of the flag set.
    pub fn bits(self) -> (v: u16)
        ensures
            v == self.bits,
    {
        self.bits
    }

    /// All bits of `mask` are set.
    pub open spec fn spec_contains(self, mask: u16) -> bool {
        self.bits & mask == mask
    }

    /// Check that all bits of `mask` are set.
    pub fn contains(self, mask: u16) -> (r: bool)
        ensures
            r == self.spec_contains(mask),
    {
        self.bits & mask == mask
    }

    /// Check that no flag is set.
    pub fn is_empty(self) -> (r: bool)
        ensures
            r == (self.bits == 0),
    {
        self.bits == 0
    }
}

/// DIO IRQ flag mask
pub type DioMask = Irq;

/// Packet status flag: sync error.
pub const PACKET_STATUS_SYNC_ERROR: u8 = 0x40;

/// Packet status flag: length error.
pub const PACKET_STATUS_LENGTH_ERROR: u8 = 0x20;

/// Packet status flag: CRC error.
pub const PACKET_STATUS_CRC_ERROR: u8 = 0x10;

/// Packet status flag: abort error.
pub const PACKET_STATUS_ABORT_ERROR: u8 = 0x08;

/// Packet status flag: header received.
pub const PACKET_STATUS_HEADER_RECEIVED: u8 = 0x04;

/// Packet status flag: packet received.
pub const PACKET_STATUS_PACKET_RECEIVED: u8 = 0x02;

/// Packet status flag: packet controller busy.
pub const PACKET_STATUS_PACKET_CONTROLER_BUSY: u8 = 0x01;

/// Packet status register; the top flag value is unknown for lack of a
/// complete datasheet.
#[derive(Copy, Clone, PartialEq, Eq, Structural, Debug)]
pub struct PacketStatus {
    /// Raw packet status bits.
    pub bits: u8,
}

impl PacketStatus {
    /// An empty flag set.
    pub fn empty() -> (r: PacketStatus)
        ensures
            r.bits == 0,
    {
        PacketStatus { bits: 0 }
    }

    /// Decode a raw flag byte; every bit of the register is a defined flag.
    pub fn from_bits_truncate(v: u8) -> (r: PacketStatus)
        ensures
            r.bits == v,
    {
        PacketStatus { bits: v }
    }

    /// Check that all bits of `mask` are set.
    pub fn contains(self, mask: u8) -> (r: bool)
        ensures
            r == (self.bits & mask == mask),
    {
        self.bits & mask == mask
    }
}

/// TxRx status flag: no acknowledgement received.
pub const TX_RX_STATUS_RX_NO_ACK: u8 = 0x20;

/// TxRx status flag: packet sent.
pub const TX_RX_STATUS_PACKET_SENT: u8 = 0x01;

/// TxRx status packet status byte; only two flags of the byte are documented.
#[derive(Copy, Clone, PartialEq, Eq, Structural, Debug)]
pub struct TxRxStatus {
    /// Raw status bits, truncated to the documented flags.
    pub bits: u8,
}

impl TxRxStatus {
    /// An empty flag set.
    pub fn empty() -> (r: TxRxStatus)
        ensures
            r.bits == 0,
    {
        TxRxStatus { bits: 0 }
    }

    /// Decode a raw flag byte, keeping only the documented flags.
    pub fn from_bits_truncate(v: u8) -> (r: TxRxStatus)
        ensures
            r.bits == v & 0x21,
    {
        TxRxStatus { bits: v & 0x21 }
    }

    /// Check that all bits of `mask` are set.
    pub fn contains(self, mask: u8) -> (r: bool)
        ensures
            r == (self.bits & mask == mask),
    {
        self.bits & mask == mask
    }
}

/// Sync address status flag: sync error.
pub const SYNC_ADDR_STATUS_SYNC_ERROR: u8 = 0x40;

/// Sync address status register.
#[derive(Copy, Clone, PartialEq, Eq, Structural, Debug)]
pub struct SyncAddrStatus {
    /// Raw status bits, truncated to the documented flags.
    pub bits: u8,
}

impl SyncAddrStatus {
    /// Decode a raw flag byte, keeping only the documented flags.
    pub fn from_bits_truncate(v: u8) -> (r: SyncAddrStatus)
        ensures
            r.bits == v & 0x40,
    {
        SyncAddrStatus { bits: v & 0x40 }
    }
}

/// Calibration flag: ADC bulk P.
pub const CAL_ADC_BULK_P_ENABLE: u8 = 0x20;

/// Calibration flag: ADC bulk N.
pub const CAL_ADC_BULK_N_ENABLE: u8 = 0x10;

/// Calibration flag: ADC pulse.
pub const CAL_ADC_PULSE_ENABLE: u8 = 0x08;

/// Calibration flag: PLL.
pub const CAL_PLL_ENABLE: u8 = 0x04;

/// Calibration flag: 13 MHz RC oscillator.
pub const CAL_RC13M_ENABLE: u8 = 0x02;

/// Calibration flag: 64 kHz RC oscillator.
pub const CAL_RC64K_ENABLE: u8 = 0x01;

/// Radio calibration parameters: the analog blocks to calibrate.
#[derive(Copy, Clone, PartialEq, Eq, Structural, Debug)]
pub struct CalibrationParams {
    /// Raw calibration flag bits.
    pub bits: u8,
}

impl CalibrationParams {
    /// Decode a raw flag byte, keeping only the defined flags.
    pub fn from_bits_truncate(v: u8) -> (r: CalibrationParams)
        ensures
            r.bits == v & 0x3F,
    {
        CalibrationParams { bits: v & 0x3F }
    }

    /// Raw bits of the flag set.
    pub fn bits(self) -> (v: u8)
        ensures
            v == self.bits,
    {
        self.bits
    }
}

impl Default for CalibrationParams {
    fn default() -> (r: Self)
        ensures
            r.bits == 0x3F,
    {
        CalibrationParams { bits: 0x3F }
    }
}

/// Receive packet information
#[derive(Clone, PartialEq, Debug)]
pub struct PacketInfo {
    /// Received signal strength in dBm.
    pub rssi: i16,
    /// Received signal strength of the sync word, where reported.
    pub rssi_sync: Option<i16>,
    /// Signal to noise ratio, reported for LoRa and Ranging packets only.
    pub snr: Option<i16>,
    /// Packet status flags.
    pub packet_status: PacketStatus,
    /// TxRx status flags.
    pub tx_rx_status: TxRxStatus,
    /// Raw sync address status (low three bits).
    pub sync_addr_status: u8,
}

impl PacketInfo {
    /// Baseline packet information value.
    pub open spec fn spec_default() -> PacketInfo {
        PacketInfo {
            rssi: -100i16,
            rssi_sync: None,
            snr: None,
            packet_status: PacketStatus { bits: 0 },
            tx_rx_status: TxRxStatus { bits: 0 },
            sync_addr_status: 0,
        }
    }
}

impl Default for PacketInfo {
    fn default() -> (r: Self)
        ensures
            r == PacketInfo::spec_default(),
    {
        PacketInfo {
            rssi: -100,
            rssi_sync: None,
            snr: None,
            packet_status: PacketStatus { bits: 0 },
            tx_rx_status: TxRxStatus { bits: 0 },
            sync_addr_status: 0,
        }
    }
}

/// Sx128x general configuration object
#[derive(Copy, Clone, PartialEq, Eq, Structural, Debug)]
pub struct Config {
    /// Regulator mode configuration
    pub regulator_mode: RegulatorMode,
    /// Power amplifier configuration
    pub pa_config: PaConfig,
    /// Internal packet type field to track configurations
    pub packet_type: PacketType,
    /// RF modem configuration (must match the channel configuration)
    pub modem: Modem,
    /// RF modulation / channel configuration (must match the modem configuration)
    pub channel: Channel,
    /// RF timeout configuration. Note that in high-traffic conditions
    /// `Timeout::Single` must be used to avoid the radio becoming
    /// unresponsive.
    pub rf_timeout: Timeout,
    /// Crystal oscillator frequency
    pub xtal_freq: u32,
    /// Timeout for blocking / polling internal methods
    pub timeout_ms: u32,
    /// Skip firmware version validation
    pub skip_version_check: bool,
}

impl Config {
    /// Baseline configuration: LoRa modem and channel on the 52 MHz crystal.
    pub open spec fn spec_default() -> Config {
        Config {
            regulator_mode: RegulatorMode::Ldo,
            pa_config: PaConfig { power: 10, ramp_time: RampTime::Ramp20Us },
            packet_type: PacketType::Unset,
            modem: Modem::LoRa(LoRaConfig::spec_default()),
            channel: Channel::LoRa(LoRaChannel::spec_default()),
            rf_timeout: Timeout::Single,
            xtal_freq: 52_000_000,
            timeout_ms: 100,
            skip_version_check: false,
        }
    }
}

impl Default for Config {
    fn default() -> (c: Self)
        ensures
            c == Config::spec_default(),
    {
        Config {
            regulator_mode: RegulatorMode::Ldo,
            pa_config: PaConfig { power: 10, ramp_time: RampTime::Ramp20Us },
            packet_type: PacketType::Unset,
            modem: Modem::LoRa(LoRaConfig::default()),
            channel: Channel::LoRa(LoRaChannel::default()),
            rf_timeout: Timeout::Single,
            xtal_freq: 52_000_000,
            timeout_ms: 100,
            skip_version_check: false,
        }
    }
}

impl Config {
    /// Create a default FLRC configuration
    pub fn flrc() -> (c: Self)
        ensures
            c == (Config {
                packet_type: PacketType::Flrc,
                modem: Modem::Flrc(FlrcConfig::spec_default()),
                channel: Channel::Flrc(FlrcChannel::spec_default()),
                ..Config::spec_default()
            }),
    {
        Config {
            packet_type: PacketType::Flrc,
            modem: Modem::Flrc(FlrcConfig::default()),
            channel: Channel::Flrc(FlrcChannel::default()),
            ..Default::default()
        }
    }

    /// Create a default GFSK configuration
    pub fn gfsk() -> (c: Self)
        ensures
            c == (Config {
                packet_type: PacketType::Gfsk,
                modem: Modem::Gfsk(GfskConfig::spec_default()),
                channel: Channel::Gfsk(GfskChannel::spec_default()),
                ..Config::spec_default()
            }),
    {
        Config {
            packet_type: PacketType::Gfsk,
            modem: Modem::Gfsk(GfskConfig::default()),
            channel: Channel::Gfsk(GfskChannel::default()),
            ..Default::default()
        }
    }

    /// Create a default LoRa configuration
    pub fn lora() -> (c: Self)
        ensures
            c == (Config {
                packet_type: PacketType::LoRa,
                modem: Modem::LoRa(LoRaConfig::spec_default()),
                channel: Channel::LoRa(LoRaChannel::spec_default()),
                ..Config::spec_default()
            }),
    {
        Config {
            packet_type: PacketType::LoRa,
            modem: Modem::LoRa(LoRaConfig::default()),
            channel: Channel::LoRa(LoRaChannel::default()),
            ..Default::default()
        }
    }
}

/// One frequency step of the synthesiser: the crystal frequency divided by 2^18.
pub open spec fn spec_freq_step(xtal: int) -> int
    recommends
        xtal > 0,
{
    xtal / 0x40000
}

/// Conversion of a frequency in Hz into synthesiser steps of `xtal / 2^18` Hz,
/// truncated: `f * 2^18 / xtal`.
pub open spec fn spec_freq_steps(f: int, xtal: int) -> int
    recommends
        xtal > 0,
{
    f * 0x40000 / xtal
}

/// Conversion of a synthesiser step count back into a frequency in Hz,
/// truncated: `steps * xtal / 2^18`.
pub open spec fn spec_steps_to_freq(steps: int, xtal: int) -> int {
    steps * xtal / 0x40000
}

/// Big-endian three-byte encoding of the low 24 bits of the step count for a
/// frequency.
pub open spec fn spec_freq_bytes(f: int, xtal: int) -> Seq<u8>
    recommends
        xtal > 0,
{
    let c = spec_freq_steps(f, xtal);
    seq![((c / 0x10000) % 0x100) as u8, ((c / 0x100) % 0x100) as u8, (c % 0x100) as u8]
}

impl Config {
    /// Calculate the frequency step for the configured crystal frequency.
    pub fn freq_step(&self) -> (s: u32)
        ensures
            s == spec_freq_step(self.xtal_freq as int),
    {
        self.xtal_freq / 0x40000
    }

    /// Convert a provided frequency in Hz into configuration steps.
    pub fn freq_to_steps(&self, f: u32) -> (steps: u32)
        requires
            self.xtal_freq >= 0x40000,
        ensures
            steps == spec_freq_steps(f as int, self.xtal_freq as int),
    {
        let q: u64 = (f as u64) * 0x40000;
        let s: u64 = q / (self.xtal_freq as u64);
        proof {
            vstd::arithmetic::div_mod::lemma_div_is_ordered_by_denominator(
                q as int, 0x40000, self.xtal_freq as int);
            vstd::arithmetic::div_mod::lemma_div_by_multiple(f as int, 0x40000);
        }
        s as u32
    }
}

/// Law: encoding a frequency into synthesiser steps and decoding the truncated
/// step count back reproduces the frequency to within one step quantum, and
/// the step count of an in-band frequency fits the three-byte wire encoding.
pub proof fn lemma_freq_round_trip(f: int, xtal: int)
    requires
        2_400_000_000 <= f <= 2_500_000_000,
        40_000_000 <= xtal,
    ensures
        0 <= spec_freq_steps(f, xtal) < 0x1000000,
        spec_steps_to_freq(spec_freq_steps(f, xtal), xtal) <= f,
        f - spec_steps_to_freq(spec_freq_steps(f, xtal), xtal) <= spec_freq_step(xtal) + 1,
{
    let q = f * 0x40000;
    let s = q / xtal;
    let r = q % xtal;
    let t = xtal / 0x40000;
    let u = xtal % 0x40000;
    vstd::arithmetic::div_mod::lemma_fundamental_div_mod(q, xtal);
    vstd::arithmetic::div_mod::lemma_mod_division_less_than_divisor(q, xtal);
    vstd::arithmetic::div_mod::lemma_fundamental_div_mod(xtal, 0x40000);
    vstd::arithmetic::div_mod::lemma_mod_division_less_than_divisor(xtal, 0x40000);
    // The step count is non-negative and fits 24 bits.
    vstd::arithmetic::div_mod::lemma_div_pos_is_pos(q, xtal);
    vstd::arithmetic::div_mod::lemma_div_is_ordered_by_denominator(q, 40_000_000, xtal);
    vstd::arithmetic::div_mod::lemma_div_is_ordered(q, 2_500_000_000int * 0x40000, 40_000_000);
    vstd::arithmetic::div_mod::lemma_fundamental_div_mod_converse(
        2_500_000_000int * 0x40000, 40_000_000, 16_384_000, 0);
    // Decoding: xtal * s == q - r, so the decoded frequency is
    // (q - r) / 0x40000 with 0 <= r < xtal.
    let d = spec_steps_to_freq(s, xtal);
    assert(s * xtal == xtal * s) by (nonlinear_arith);
    assert(xtal * s <= q);
    vstd::arithmetic::div_mod::lemma_div_is_ordered(xtal * s, q, 0x40000);
    vstd::arithmetic::div_mod::lemma_div_by_multiple(f, 0x40000);
    assert(q / 0x40000 == f);
    assert(d <= f);
    // Lower bound: xtal * s >= q - xtal + 1 >= (f - t - 1) * 0x40000.
    assert(xtal <= t * 0x40000 + 0x3FFFF);
    assert(q - xtal + 1 >= (f - t - 1) * 0x40000) by (nonlinear_arith)
        requires
            q == f * 0x40000,
            xtal <= t * 0x40000 + 0x3FFFF,
    ;
    if f - t - 1 >= 0 {
        vstd::arithmetic::div_mod::lemma_div_is_ordered((f - t - 1) * 0x40000, xtal * s, 0x40000);
        vstd::arithmetic::div_mod::lemma_div_by_multiple(f - t - 1, 0x40000);
        assert(d >= f - t - 1);
    } else {
        // A very large crystal gives a quantum wider than the band; the bound
        // is then immediate from the decoded frequency being non-negative.
        assert(xtal * s >= 0) by (nonlinear_arith)
            requires
                s >= 0,
                xtal > 0,
        ;
        vstd::arithmetic::div_mod::lemma_div_pos_is_pos(xtal * s, 0x40000);
        assert(d >= 0);
    }
}

} // verus!
