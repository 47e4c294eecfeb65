//! Parameter definitions shared by the GFSK, FLRC and BLE modes.

use vstd::prelude::*;

verus! {

/// Modulation shaping parameter for GFSK, FLRC and BLE modes
#[derive(Copy, Clone, PartialEq, Eq, Structural, Debug)]
pub enum ModShaping {
    /// No filtering
    Off,
    /// BT 1.0 gaussian filtering
    Bt1_0,
    /// BT 0.5 gaussian filtering
    Bt0_5,
}

impl ModShaping {
    /// Wire value of each variant.
    pub open spec fn spec_value(self) -> u8 {
        match self {
            ModShaping::Off => 0x00,
            ModShaping::Bt1_0 => 0x10,
            ModShaping::Bt0_5 => 0x20,
        }
    }

    /// Wire value of this variant, as written to the device.
    pub fn value(self) -> (v: u8)
        ensures
            v == self.spec_value(),
    {
        match self {
            ModShaping::Off => 0x00,
            ModShaping::Bt1_0 => 0x10,
            ModShaping::Bt0_5 => 0x20,
        }
    }
}

/// Preamble lengths for GFSK, FLRC modes
#[derive(Copy, Clone, PartialEq, Eq, Structural, Debug)]
pub enum PreambleLength {
    /// Preamble length: 04 bits
    PreambleLength04,
    /// Preamble length: 08 bits
    PreambleLength08,
    /// Preamble length: 12 bits
    PreambleLength12,
    /// Preamble length: 16 bits
    PreambleLength16,
    /// Preamble length: 20 bits
    PreambleLength20,
    /// Preamble length: 24 bits
    PreambleLength24,
    /// Preamble length: 28 bits
    PreambleLength28,
    /// Preamble length: 32 bits
    PreambleLength32,
}

impl PreambleLength {
    /// Wire value of each variant.
    pub open spec fn spec_value(self) -> u8 {
        match self {
            PreambleLength::PreambleLength04 => 0x00,
            PreambleLength::PreambleLength08 => 0x10,
            PreambleLength::PreambleLength12 => 0x20,
            PreambleLength::PreambleLength16 => 0x30,
            PreambleLength::PreambleLength20 => 0x40,
            PreambleLength::PreambleLength24 => 0x50,
            PreambleLength::PreambleLength28 => 0x60,
            PreambleLength::PreambleLength32 => 0x70,
        }
    }

    /// Wire value of this variant, as written to the device.
    pub fn value(self) -> (v: u8)
        ensures
            v == self.spec_value(),
    {
        match self {
            PreambleLength::PreambleLength04 => 0x00,
            PreambleLength::PreambleLength08 => 0x10,
            PreambleLength::PreambleLength12 => 0x20,
            PreambleLength::PreambleLength16 => 0x30,
            PreambleLength::PreambleLength20 => 0x40,
            PreambleLength::PreambleLength24 => 0x50,
            PreambleLength::PreambleLength28 => 0x60,
            PreambleLength::PreambleLength32 => 0x70,
        }
    }
}

/// Bitrate-Bandwidth for GFSK and BLE modes
#[allow(non_camel_case_types)]
#[derive(Copy, Clone, PartialEq, Eq, Structural, Debug)]
pub enum GfskBleBitrateBandwidth {
    /// Raw baudrate: 2000 kbps Bandwidth: 2.4 MHz
    BR_2_000_BW_2_4,
    /// Raw baudrate: 1600 kbps Bandwidth: 2.4 MHz
    BR_1_600_BW_2_4,
    /// Raw baudrate: 1000 kbps Bandwidth: 2.4 MHz
    BR_1_000_BW_2_4,
    /// Raw baudrate: 1000 kbps Bandwidth: 1.2 MHz
    BR_1_000_BW_1_2,
    /// Raw baudrate: 800 kbps Bandwidth: 2.4 MHz
    BR_0_800_BW_2_4,
    /// Raw baudrate: 800 kbps Bandwidth: 1.2 MHz
    BR_0_800_BW_1_2,
    /// Raw baudrate: 500 kbps Bandwidth: 1.2 MHz
    BR_0_500_BW_1_2,
    /// Raw baudrate: 500 kbps Bandwidth: 0.6 MHz
    BR_0_500_BW_0_6,
    /// Raw baudrate: 400 kbps Bandwidth: 1.2 MHz
    BR_0_400_BW_1_2,
    /// Raw baudrate: 400 kbps Bandwidth: 0.6 MHz
    BR_0_400_BW_0_6,
    /// Raw baudrate: 250 kbps Bandwidth: 0.6 MHz
    BR_0_250_BW_0_6,
    /// Raw baudrate: 250 kbps Bandwidth: 0.3 MHz
    BR_0_250_BW_0_3,
    /// Raw baudrate: 125 kbps Bandwidth: 0.3 MHz
    BR_0_125_BW_0_3,
}

impl GfskBleBitrateBandwidth {
    /// Wire value of each variant.
    pub open spec fn spec_value(self) -> u8 {
        match self {
            GfskBleBitrateBandwidth::BR_2_000_BW_2_4 => 0x04,
            GfskBleBitrateBandwidth::BR_1_600_BW_2_4 => 0x28,
            GfskBleBitrateBandwidth::BR_1_000_BW_2_4 => 0x4C,
            GfskBleBitrateBandwidth::BR_1_000_BW_1_2 => 0x45,
            GfskBleBitrateBandwidth::BR_0_800_BW_2_4 => 0x70,
            GfskBleBitrateBandwidth::BR_0_800_BW_1_2 => 0x69,
            GfskBleBitrateBandwidth::BR_0_500_BW_1_2 => 0x8D,
            GfskBleBitrateBandwidth::BR_0_500_BW_0_6 => 0x86,
            GfskBleBitrateBandwidth::BR_0_400_BW_1_2 => 0xB1,
            GfskBleBitrateBandwidth::BR_0_400_BW_0_6 => 0xAA,
            GfskBleBitrateBandwidth::BR_0_250_BW_0_6 => 0xCE,
            GfskBleBitrateBandwidth::BR_0_250_BW_0_3 => 0xC7,
            GfskBleBitrateBandwidth::BR_0_125_BW_0_3 => 0xEF,
        }
    }

    /// Wire value of this variant, as written to the device.
    pub fn value(self) -> (v: u8)
        ensures
            v == self.spec_value(),
    {
        match self {
            GfskBleBitrateBandwidth::BR_2_000_BW_2_4 => 0x04,
            GfskBleBitrateBandwidth::BR_1_600_BW_2_4 => 0x28,
            GfskBleBitrateBandwidth::BR_1_000_BW_2_4 => 0x4C,
            GfskBleBitrateBandwidth::BR_1_000_BW_1_2 => 0x45,
            GfskBleBitrateBandwidth::BR_0_800_BW_2_4 => 0x70,
            GfskBleBitrateBandwidth::BR_0_800_BW_1_2 => 0x69,
            GfskBleBitrateBandwidth::BR_0_500_BW_1_2 => 0x8D,
            GfskBleBitrateBandwidth::BR_0_500_BW_0_6 => 0x86,
            GfskBleBitrateBandwidth::BR_0_400_BW_1_2 => 0xB1,
            GfskBleBitrateBandwidth::BR_0_400_BW_0_6 => 0xAA,
            GfskBleBitrateBandwidth::BR_0_250_BW_0_6 => 0xCE,
            GfskBleBitrateBandwidth::BR_0_250_BW_0_3 => 0xC7,
            GfskBleBitrateBandwidth::BR_0_125_BW_0_3 => 0xEF,
        }
    }
}

/// Modulation Index for GFSK and BLE modes
#[allow(non_camel_case_types)]
#[derive(Copy, Clone, PartialEq, Eq, Structural, Debug)]
pub enum GfskBleModIndex {
    /// Modulation index 0.35
    MOD_IND_0_35,
    /// Modulation index 0.50
    MOD_IND_0_50,
    /// Modulation index 0.75
    MOD_IND_0_75,
    /// Modulation index 1.00
    MOD_IND_1_00,
    /// Modulation index 1.25
    MOD_IND_1_25,
    /// Modulation index 1.50
    MOD_IND_1_50,
    /// Modulation index 1.75
    MOD_IND_1_75,
    /// Modulation index 2.00
    MOD_IND_2_00,
    /// Modulation index 2.25
    MOD_IND_2_25,
    /// Modulation index 2.50
    MOD_IND_2_50,
    /// Modulation index 2.75
    MOD_IND_2_75,
    /// Modulation index 3.00
    MOD_IND_3_00,
    /// Modulation index 3.25
    MOD_IND_3_25,
    /// Modulation index 3.50
    MOD_IND_3_50,
    /// Modulation index 3.75
    MOD_IND_3_75,
    /// Modulation index 4.00
    MOD_IND_4_00,
}

impl GfskBleModIndex {
    /// Wire value of each variant.
    pub open spec fn spec_value(self) -> u8 {
        match self {
            GfskBleModIndex::MOD_IND_0_35 => 0,
            GfskBleModIndex::MOD_IND_0_50 => 1,
            GfskBleModIndex::MOD_IND_0_75 => 2,
            GfskBleModIndex::MOD_IND_1_00 => 3,
            GfskBleModIndex::MOD_IND_1_25 => 4,
            GfskBleModIndex::MOD_IND_1_50 => 5,
            GfskBleModIndex::MOD_IND_1_75 => 6,
            GfskBleModIndex::MOD_IND_2_00 => 7,
            GfskBleModIndex::MOD_IND_2_25 => 8,
            GfskBleModIndex::MOD_IND_2_50 => 9,
            GfskBleModIndex::MOD_IND_2_75 => 10,
            GfskBleModIndex::MOD_IND_3_00 => 11,
            GfskBleModIndex::MOD_IND_3_25 => 12,
            GfskBleModIndex::MOD_IND_3_50 => 13,
            GfskBleModIndex::MOD_IND_3_75 => 14,
            GfskBleModIndex::MOD_IND_4_00 => 15,
        }
    }

    /// Wire value of this variant, as written to the device.
    pub fn value(self) -> (v: u8)
        ensures
            v == self.spec_value(),
    {
        match self {
            GfskBleModIndex::MOD_IND_0_35 => 0,
            GfskBleModIndex::MOD_IND_0_50 => 1,
            GfskBleModIndex::MOD_IND_0_75 => 2,
            GfskBleModIndex::MOD_IND_1_00 => 3,
            GfskBleModIndex::MOD_IND_1_25 => 4,
            GfskBleModIndex::MOD_IND_1_50 => 5,
            GfskBleModIndex::MOD_IND_1_75 => 6,
            GfskBleModIndex::MOD_IND_2_00 => 7,
            GfskBleModIndex::MOD_IND_2_25 => 8,
            GfskBleModIndex::MOD_IND_2_50 => 9,
            GfskBleModIndex::MOD_IND_2_75 => 10,
            GfskBleModIndex::MOD_IND_3_00 => 11,
            GfskBleModIndex::MOD_IND_3_25 => 12,
            GfskBleModIndex::MOD_IND_3_50 => 13,
            GfskBleModIndex::MOD_IND_3_75 => 14,
            GfskBleModIndex::MOD_IND_4_00 => 15,
        }
    }
}

/// Common radio whitening mode
#[allow(non_camel_case_types)]
#[derive(Copy, Clone, PartialEq, Eq, Structural, Debug)]
pub enum WhiteningModes {
    /// Whitening enabled
    RADIO_WHITENING_ON,
    /// Whitening disabled
    RADIO_WHITENING_OFF,
}

impl WhiteningModes {
    /// Wire value of each variant.
    pub open spec fn spec_value(self) -> u8 {
        match self {
            WhiteningModes::RADIO_WHITENING_ON => 0x00,
            WhiteningModes::RADIO_WHITENING_OFF => 0x08,
        }
    }

    /// Wire value of this variant, as written to the device.
    pub fn value(self) -> (v: u8)
        ensures
            v == self.spec_value(),
    {
        match self {
            WhiteningModes::RADIO_WHITENING_ON => 0x00,
            WhiteningModes::RADIO_WHITENING_OFF => 0x08,
        }
    }
}

/// Sync words to match on receive
#[allow(non_camel_case_types)]
#[derive(Copy, Clone, PartialEq, Eq, Structural, Debug)]
pub enum SyncWordRxMatch {
    /// No correlator turned on, i.e. do not search for SyncWord
    RADIO_RX_MATCH_SYNCWORD_OFF,
    /// Match sync word 1
    RADIO_RX_MATCH_SYNCWORD_1,
    /// Match sync word 2
    RADIO_RX_MATCH_SYNCWORD_2,
    /// Match sync words 1 and 2
    RADIO_RX_MATCH_SYNCWORD_1_2,
    /// Match sync word 3
    RADIO_RX_MATCH_SYNCWORD_3,
    /// Match sync words 1 and 3
    RADIO_RX_MATCH_SYNCWORD_1_3,
    /// Match sync words 2 and 3
    RADIO_RX_MATCH_SYNCWORD_2_3,
    /// Match sync words 1, 2 and 3
    RADIO_RX_MATCH_SYNCWORD_1_2_3,
}

impl SyncWordRxMatch {
    /// Wire value of each variant.
    pub open spec fn spec_value(self) -> u8 {
        match self {
            SyncWordRxMatch::RADIO_RX_MATCH_SYNCWORD_OFF => 0x00,
            SyncWordRxMatch::RADIO_RX_MATCH_SYNCWORD_1 => 0x10,
            SyncWordRxMatch::RADIO_RX_MATCH_SYNCWORD_2 => 0x20,
            SyncWordRxMatch::RADIO_RX_MATCH_SYNCWORD_1_2 => 0x30,
            SyncWordRxMatch::RADIO_RX_MATCH_SYNCWORD_3 => 0x40,
            SyncWordRxMatch::RADIO_RX_MATCH_SYNCWORD_1_3 => 0x50,
            SyncWordRxMatch::RADIO_RX_MATCH_SYNCWORD_2_3 => 0x60,
            SyncWordRxMatch::RADIO_RX_MATCH_SYNCWORD_1_2_3 => 0x70,
        }
    }

    /// Wire value of this variant, as written to the device.
    pub fn value(self) -> (v: u8)
        ensures
            v == self.spec_value(),
    {
        match self {
            SyncWordRxMatch::RADIO_RX_MATCH_SYNCWORD_OFF => 0x00,
            SyncWordRxMatch::RADIO_RX_MATCH_SYNCWORD_1 => 0x10,
            SyncWordRxMatch::RADIO_RX_MATCH_SYNCWORD_2 => 0x20,
            SyncWordRxMatch::RADIO_RX_MATCH_SYNCWORD_1_2 => 0x30,
            SyncWordRxMatch::RADIO_RX_MATCH_SYNCWORD_3 => 0x40,
            SyncWordRxMatch::RADIO_RX_MATCH_SYNCWORD_1_3 => 0x50,
            SyncWordRxMatch::RADIO_RX_MATCH_SYNCWORD_2_3 => 0x60,
            SyncWordRxMatch::RADIO_RX_MATCH_SYNCWORD_1_2_3 => 0x70,
        }
    }
}

/// Header type for GFSK and FLRC packets
#[derive(Copy, Clone, PartialEq, Eq, Structural, Debug)]
pub enum GfskFlrcPacketLength {
    /// Fixed length, no header included
    Fixed,
    /// Variable length, header included in message
    Variable,
}

impl GfskFlrcPacketLength {
    /// Wire value of each variant.
    pub open spec fn spec_value(self) -> u8 {
        match self {
            GfskFlrcPacketLength::Fixed => 0x00,
            GfskFlrcPacketLength::Variable => 0x20,
        }
    }

    /// Wire value of this variant, as written to the device.
    pub fn value(self) -> (v: u8)
        ensures
            v == self.spec_value(),
    {
        match self {
            GfskFlrcPacketLength::Fixed => 0x00,
            GfskFlrcPacketLength::Variable => 0x20,
        }
    }
}

/// CRC modes for GFSK and FLRC packets
#[allow(non_camel_case_types)]
#[derive(Copy, Clone, PartialEq, Eq, Structural, Debug)]
pub enum GfskFlrcCrcModes {
    /// CRC disabled
    RADIO_CRC_OFF,
    /// Two-byte CRC
    RADIO_CRC_2_BYTES,
    /// Three-byte CRC
    RADIO_CRC_3_BYTES,
    /// Four-byte CRC
    RADIO_CRC_4_BYTES,
}

impl GfskFlrcCrcModes {
    /// Wire value of each variant.
    pub open spec fn spec_value(self) -> u8 {
        match self {
            GfskFlrcCrcModes::RADIO_CRC_OFF => 0x00,
            GfskFlrcCrcModes::RADIO_CRC_2_BYTES => 0x10,
            GfskFlrcCrcModes::RADIO_CRC_3_BYTES => 0x20,
            GfskFlrcCrcModes::RADIO_CRC_4_BYTES => 0x30,
        }
    }

    /// Wire value of this variant, as written to the device.
    pub fn value(self) -> (v: u8)
        ensures
            v == self.spec_value(),
    {
        match self {
            GfskFlrcCrcModes::RADIO_CRC_OFF => 0x00,
            GfskFlrcCrcModes::RADIO_CRC_2_BYTES => 0x10,
            GfskFlrcCrcModes::RADIO_CRC_3_BYTES => 0x20,
            GfskFlrcCrcModes::RADIO_CRC_4_BYTES => 0x30,
        }
    }
}

} // verus!
