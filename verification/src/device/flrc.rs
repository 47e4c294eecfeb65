//! FLRC mode device configuration definitions.

use vstd::prelude::*;

use crate::device::common::{GfskFlrcCrcModes, GfskFlrcPacketLength, ModShaping, PreambleLength, SyncWordRxMatch, WhiteningModes};

verus! {

/// Bit rate / bandwidth pairs for FLRC mode
#[allow(non_camel_case_types)]
#[derive(Copy, Clone, PartialEq, Eq, Structural, Debug)]
pub enum FlrcBitrate {
    /// Baud: 2600 kbps Bandwidth: 2.4 MHz
    BR_2_600_BW_2_4,
    /// Baud: 2080 kbps Bandwidth: 2.4 MHz
    BR_2_080_BW_2_4,
    /// Baud: 1300 kbps Bandwidth: 1.2 MHz
    BR_1_300_BW_1_2,
    /// Baud: 1040 kbps Bandwidth: 1.2 MHz
    BR_1_040_BW_1_2,
    /// Baud: 650 kbps Bandwidth: 0.6 MHz
    BR_0_650_BW_0_6,
    /// Baud: 520 kbps Bandwidth: 0.6 MHz
    BR_0_520_BW_0_6,
    /// Baud: 325 kbps Bandwidth: 0.3 MHz
    BR_0_325_BW_0_3,
    /// Baud: 260 kbps Bandwidth: 0.3 MHz
    BR_0_260_BW_0_3,
}

impl FlrcBitrate {
    /// Wire value of each variant.
    pub open spec fn spec_value(self) -> u8 {
        match self {
            FlrcBitrate::BR_2_600_BW_2_4 => 0x04,
            FlrcBitrate::BR_2_080_BW_2_4 => 0x28,
            FlrcBitrate::BR_1_300_BW_1_2 => 0x45,
            FlrcBitrate::BR_1_040_BW_1_2 => 0x69,
            FlrcBitrate::BR_0_650_BW_0_6 => 0x86,
            FlrcBitrate::BR_0_520_BW_0_6 => 0xAA,
            FlrcBitrate::BR_0_325_BW_0_3 => 0xC7,
            FlrcBitrate::BR_0_260_BW_0_3 => 0xEB,
        }
    }

    /// Wire value of this variant, as written to the device.
    pub fn value(self) -> (v: u8)
        ensures
            v == self.spec_value(),
    {
        match self {
            FlrcBitrate::BR_2_600_BW_2_4 => 0x04,
            FlrcBitrate::BR_2_080_BW_2_4 => 0x28,
            FlrcBitrate::BR_1_300_BW_1_2 => 0x45,
            FlrcBitrate::BR_1_040_BW_1_2 => 0x69,
            FlrcBitrate::BR_0_650_BW_0_6 => 0x86,
            FlrcBitrate::BR_0_520_BW_0_6 => 0xAA,
            FlrcBitrate::BR_0_325_BW_0_3 => 0xC7,
            FlrcBitrate::BR_0_260_BW_0_3 => 0xEB,
        }
    }
}

/// Coding rates for FLRC mode
#[allow(non_camel_case_types)]
#[derive(Copy, Clone, PartialEq, Eq, Structural, Debug)]
pub enum FlrcCodingRate {
    /// 1/2 coding rate
    Cr1_2,
    /// 3/4 coding rate
    Cr3_4,
    /// 1/0 coding rate (disabled)
    Cr1_0,
}

impl FlrcCodingRate {
    /// Wire value of each variant.
    pub open spec fn spec_value(self) -> u8 {
        match self {
            FlrcCodingRate::Cr1_2 => 0x00,
            FlrcCodingRate::Cr3_4 => 0x02,
            FlrcCodingRate::Cr1_0 => 0x04,
        }
    }

    /// Wire value of this variant, as written to the device.
    pub fn value(self) -> (v: u8)
        ensures
            v == self.spec_value(),
    {
        match self {
            FlrcCodingRate::Cr1_2 => 0x00,
            FlrcCodingRate::Cr3_4 => 0x02,
            FlrcCodingRate::Cr1_0 => 0x04,
        }
    }
}

/// FLRC sync word length
#[derive(Copy, Clone, PartialEq, Eq, Structural, Debug)]
pub enum FlrcSyncWordLength {
    /// No sync word
    Disabled,
    /// 4-byte sync word
    Length4,
}

impl FlrcSyncWordLength {
    /// Wire value of each variant.
    pub open spec fn spec_value(self) -> u8 {
        match self {
            FlrcSyncWordLength::Disabled => 0x00,
            FlrcSyncWordLength::Length4 => 0x04,
        }
    }

    /// Wire value of this variant, as written to the device.
    pub fn value(self) -> (v: u8)
        ensures
            v == self.spec_value(),
    {
        match self {
            FlrcSyncWordLength::Disabled => 0x00,
            FlrcSyncWordLength::Length4 => 0x04,
        }
    }
}

/// FLRC channel configuration structure
#[derive(Copy, Clone, PartialEq, Eq, Structural, Debug)]
pub struct FlrcChannel {
    /// Operating frequency
    pub freq: u32,
    /// Bitrate bandwidth
    pub br_bw: FlrcBitrate,
    /// Coding rate
    pub cr: FlrcCodingRate,
    /// Modulation shaping
    pub ms: ModShaping,
}

impl FlrcChannel {
    /// Baseline FLRC channel configuration.
    pub open spec fn spec_default() -> FlrcChannel {
        FlrcChannel {
            freq: 2_440_000_000,
            br_bw: FlrcBitrate::BR_2_080_BW_2_4,
            cr: FlrcCodingRate::Cr3_4,
            ms: ModShaping::Off,
        }
    }
}

impl Default for FlrcChannel {
    fn default() -> (c: Self)
        ensures
            c == FlrcChannel::spec_default(),
    {
        FlrcChannel {
            freq: 2_440_000_000,
            br_bw: FlrcBitrate::BR_2_080_BW_2_4,
            cr: FlrcCodingRate::Cr3_4,
            ms: ModShaping::Off,
        }
    }
}

/// FLRC packet configuration structure
#[derive(Copy, Clone, PartialEq, Eq, Structural, Debug)]
pub struct FlrcConfig {
    /// Preamble length
    pub preamble_length: PreambleLength,
    /// Sync word length
    pub sync_word_length: FlrcSyncWordLength,
    /// Sync words to match
    pub sync_word_match: SyncWordRxMatch,
    /// Header type (implicit or explicit)
    pub header_type: GfskFlrcPacketLength,
    /// Payload length
    pub payload_length: u8,
    /// CRC mode
    pub crc_mode: GfskFlrcCrcModes,
    /// Packet whitening
    pub whitening: WhiteningModes,
    /// Patch to force full sync-word matching, working around increased
    /// packet error rates in FLRC packets with sync words. This sets the
    /// sync word tolerance register to its maximum.
    pub patch_syncword: bool,
}

impl FlrcConfig {
    /// Baseline FLRC packet configuration.
    pub open spec fn spec_default() -> FlrcConfig {
        FlrcConfig {
            preamble_length: PreambleLength::PreambleLength16,
            sync_word_length: FlrcSyncWordLength::Length4,
            sync_word_match: SyncWordRxMatch::RADIO_RX_MATCH_SYNCWORD_1,
            header_type: GfskFlrcPacketLength::Variable,
            payload_length: 127,
            crc_mode: GfskFlrcCrcModes::RADIO_CRC_2_BYTES,
            whitening: WhiteningModes::RADIO_WHITENING_OFF,
            patch_syncword: true,
        }
    }
}

impl Default for FlrcConfig {
    fn default() -> (c: Self)
        ensures
            c == FlrcConfig::spec_default(),
    {
        FlrcConfig {
            preamble_length: PreambleLength::PreambleLength16,
            sync_word_length: FlrcSyncWordLength::Length4,
            sync_word_match: SyncWordRxMatch::RADIO_RX_MATCH_SYNCWORD_1,
            header_type: GfskFlrcPacketLength::Variable,
            payload_length: 127,
            crc_mode: GfskFlrcCrcModes::RADIO_CRC_2_BYTES,
            whitening: WhiteningModes::RADIO_WHITENING_OFF,
            patch_syncword: true,
        }
    }
}

} // verus!
