//! GFSK mode device configuration definitions.

use vstd::prelude::*;

use crate::device::common::{GfskBleBitrateBandwidth, GfskBleModIndex, GfskFlrcCrcModes, GfskFlrcPacketLength, ModShaping, PreambleLength, SyncWordRxMatch, WhiteningModes};

verus! {

/// GFSK sync word length configuration
#[allow(non_camel_case_types)]
#[derive(Copy, Clone, PartialEq, Eq, Structural, Debug)]
pub enum GfskSyncWordLength {
    /// Sync word length: 1 byte
    GFSK_SYNCWORD_LENGTH_1_BYTE,
    /// Sync word length: 2 bytes
    GFSK_SYNCWORD_LENGTH_2_BYTE,
    /// Sync word length: 3 bytes
    GFSK_SYNCWORD_LENGTH_3_BYTE,
    /// Sync word length: 4 bytes
    GFSK_SYNCWORD_LENGTH_4_BYTE,
    /// Sync word length: 5 bytes
    GFSK_SYNCWORD_LENGTH_5_BYTE,
}

impl GfskSyncWordLength {
    /// Wire value of each variant.
    pub open spec fn spec_value(self) -> u8 {
        match self {
            GfskSyncWordLength::GFSK_SYNCWORD_LENGTH_1_BYTE => 0x00,
            GfskSyncWordLength::GFSK_SYNCWORD_LENGTH_2_BYTE => 0x02,
            GfskSyncWordLength::GFSK_SYNCWORD_LENGTH_3_BYTE => 0x04,
            GfskSyncWordLength::GFSK_SYNCWORD_LENGTH_4_BYTE => 0x06,
            GfskSyncWordLength::GFSK_SYNCWORD_LENGTH_5_BYTE => 0x08,
        }
    }

    /// Wire value of this variant, as written to the device.
    pub fn value(self) -> (v: u8)
        ensures
            v == self.spec_value(),
    {
        match self {
            GfskSyncWordLength::GFSK_SYNCWORD_LENGTH_1_BYTE => 0x00,
            GfskSyncWordLength::GFSK_SYNCWORD_LENGTH_2_BYTE => 0x02,
            GfskSyncWordLength::GFSK_SYNCWORD_LENGTH_3_BYTE => 0x04,
            GfskSyncWordLength::GFSK_SYNCWORD_LENGTH_4_BYTE => 0x06,
            GfskSyncWordLength::GFSK_SYNCWORD_LENGTH_5_BYTE => 0x08,
        }
    }
}

/// GFSK operating mode channel configuration
#[derive(Copy, Clone, PartialEq, Eq, Structural, Debug)]
pub struct GfskChannel {
    /// Operating frequency
    pub freq: u32,
    /// Bitrate bandwidth
    pub br_bw: GfskBleBitrateBandwidth,
    /// Modulation index
    pub mi: GfskBleModIndex,
    /// Modulation shaping
    pub ms: ModShaping,
}

impl GfskChannel {
    /// Baseline GFSK channel configuration.
    pub open spec fn spec_default() -> GfskChannel {
        GfskChannel {
            freq: 2_440_000_000,
            br_bw: GfskBleBitrateBandwidth::BR_0_250_BW_0_3,
            mi: GfskBleModIndex::MOD_IND_0_35,
            ms: ModShaping::Off,
        }
    }
}

impl Default for GfskChannel {
    fn default() -> (c: Self)
        ensures
            c == GfskChannel::spec_default(),
    {
        GfskChannel {
            freq: 2_440_000_000,
            br_bw: GfskBleBitrateBandwidth::BR_0_250_BW_0_3,
            mi: GfskBleModIndex::MOD_IND_0_35,
            ms: ModShaping::Off,
        }
    }
}

/// GFSK packet configuration
#[derive(Copy, Clone, PartialEq, Eq, Structural, Debug)]
pub struct GfskConfig {
    /// Preamble length
    pub preamble_length: PreambleLength,
    /// Sync word length
    pub sync_word_length: GfskSyncWordLength,
    /// Sync words to match
    pub sync_word_match: SyncWordRxMatch,
    /// Header type (implicit or explicit)
    pub header_type: GfskFlrcPacketLength,
    /// Payload length
    pub payload_length: u8,
    /// CRC mode
    pub crc_mode: GfskFlrcCrcModes,
    /// Packet whitening
    pub whitening: WhiteningModes,
    /// Patch to set the packet preamble settings register with the preamble
    /// length. Without this the preamble is not correctly filtered from
    /// received packets.
    pub patch_preamble: bool,
}

impl GfskConfig {
    /// Baseline GFSK packet configuration.
    pub open spec fn spec_default() -> GfskConfig {
        GfskConfig {
            preamble_length: PreambleLength::PreambleLength32,
            sync_word_length: GfskSyncWordLength::GFSK_SYNCWORD_LENGTH_5_BYTE,
            sync_word_match: SyncWordRxMatch::RADIO_RX_MATCH_SYNCWORD_1,
            header_type: GfskFlrcPacketLength::Variable,
            payload_length: 255,
            crc_mode: GfskFlrcCrcModes::RADIO_CRC_OFF,
            whitening: WhiteningModes::RADIO_WHITENING_OFF,
            patch_preamble: false,
        }
    }
}

impl Default for GfskConfig {
    fn default() -> (c: Self)
        ensures
            c == GfskConfig::spec_default(),
    {
        GfskConfig {
            preamble_length: PreambleLength::PreambleLength32,
            sync_word_length: GfskSyncWordLength::GFSK_SYNCWORD_LENGTH_5_BYTE,
            sync_word_match: SyncWordRxMatch::RADIO_RX_MATCH_SYNCWORD_1,
            header_type: GfskFlrcPacketLength::Variable,
            payload_length: 255,
            crc_mode: GfskFlrcCrcModes::RADIO_CRC_OFF,
            whitening: WhiteningModes::RADIO_WHITENING_OFF,
            patch_preamble: false,
        }
    }
}

} // verus!
