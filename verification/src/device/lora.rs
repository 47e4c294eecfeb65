//! LoRa device configuration definitions.

use vstd::prelude::*;

verus! {

/// Spreading factor for LoRa mode
#[derive(Copy, Clone, PartialEq, Eq, Structural, Debug)]
pub enum LoRaSpreadingFactor {
    /// Spreading factor 5
    Sf5,
    /// Spreading factor 6
    Sf6,
    /// Spreading factor 7
    Sf7,
    /// Spreading factor 8
    Sf8,
    /// Spreading factor 9
    Sf9,
    /// Spreading factor 10
    Sf10,
    /// Spreading factor 11
    Sf11,
    /// Spreading factor 12
    Sf12,
}

impl LoRaSpreadingFactor {
    /// Wire value of each variant.
    pub open spec fn spec_value(self) -> u8 {
        match self {
            LoRaSpreadingFactor::Sf5 => 0x50,
            LoRaSpreadingFactor::Sf6 => 0x60,
            LoRaSpreadingFactor::Sf7 => 0x70,
            LoRaSpreadingFactor::Sf8 => 0x80,
            LoRaSpreadingFactor::Sf9 => 0x90,
            LoRaSpreadingFactor::Sf10 => 0xA0,
            LoRaSpreadingFactor::Sf11 => 0xB0,
            LoRaSpreadingFactor::Sf12 => 0xC0,
        }
    }

    /// Wire value of this variant, as written to the device.
    pub fn value(self) -> (v: u8)
        ensures
            v == self.spec_value(),
    {
        match self {
            LoRaSpreadingFactor::Sf5 => 0x50,
            LoRaSpreadingFactor::Sf6 => 0x60,
            LoRaSpreadingFactor::Sf7 => 0x70,
            LoRaSpreadingFactor::Sf8 => 0x80,
            LoRaSpreadingFactor::Sf9 => 0x90,
            LoRaSpreadingFactor::Sf10 => 0xA0,
            LoRaSpreadingFactor::Sf11 => 0xB0,
            LoRaSpreadingFactor::Sf12 => 0xC0,
        }
    }
}

/// Bandwidth for LoRa mode
#[derive(Copy, Clone, PartialEq, Eq, Structural, Debug)]
pub enum LoRaBandwidth {
    /// 200 kHz bandwidth mode (actually 203.125 kHz)
    Bw200kHz,
    /// 400 kHz bandwidth mode (actually 406.250 kHz)
    Bw400kHz,
    /// 800 kHz bandwidth mode (actually 812.500 kHz)
    Bw800kHz,
    /// 1600 kHz bandwidth mode (actually 1625.000 kHz)
    Bw1600kHz,
}

impl LoRaBandwidth {
    /// Wire value of each variant.
    pub open spec fn spec_value(self) -> u8 {
        match self {
            LoRaBandwidth::Bw200kHz => 0x34,
            LoRaBandwidth::Bw400kHz => 0x26,
            LoRaBandwidth::Bw800kHz => 0x18,
            LoRaBandwidth::Bw1600kHz => 0x0A,
        }
    }

    /// Wire value of this variant, as written to the device.
    pub fn value(self) -> (v: u8)
        ensures
            v == self.spec_value(),
    {
        match self {
            LoRaBandwidth::Bw200kHz => 0x34,
            LoRaBandwidth::Bw400kHz => 0x26,
            LoRaBandwidth::Bw800kHz => 0x18,
            LoRaBandwidth::Bw1600kHz => 0x0A,
        }
    }
}

/// Coding rates for LoRa mode
#[allow(non_camel_case_types)]
#[derive(Copy, Clone, PartialEq, Eq, Structural, Debug)]
pub enum LoRaCodingRate {
    /// LoRa coding rate 4/5
    Cr4_5,
    /// LoRa coding rate 4/6
    Cr4_6,
    /// LoRa coding rate 4/7
    Cr4_7,
    /// LoRa coding rate 4/8
    Cr4_8,
    /// Long-interleaved coding rate 4/5
    CrLI_4_5,
    /// Long-interleaved coding rate 4/6
    CrLI_4_6,
    /// Long-interleaved coding rate 4/7
    CrLI_4_7,
}

impl LoRaCodingRate {
    /// Wire value of each variant.
    pub open spec fn spec_value(self) -> u8 {
        match self {
            LoRaCodingRate::Cr4_5 => 0x01,
            LoRaCodingRate::Cr4_6 => 0x02,
            LoRaCodingRate::Cr4_7 => 0x03,
            LoRaCodingRate::Cr4_8 => 0x04,
            LoRaCodingRate::CrLI_4_5 => 0x05,
            LoRaCodingRate::CrLI_4_6 => 0x06,
            LoRaCodingRate::CrLI_4_7 => 0x07,
        }
    }

    /// Wire value of this variant, as written to the device.
    pub fn value(self) -> (v: u8)
        ensures
            v == self.spec_value(),
    {
        match self {
            LoRaCodingRate::Cr4_5 => 0x01,
            LoRaCodingRate::Cr4_6 => 0x02,
            LoRaCodingRate::Cr4_7 => 0x03,
            LoRaCodingRate::Cr4_8 => 0x04,
            LoRaCodingRate::CrLI_4_5 => 0x05,
            LoRaCodingRate::CrLI_4_6 => 0x06,
            LoRaCodingRate::CrLI_4_7 => 0x07,
        }
    }
}

/// CRC mode for LoRa packet types
#[derive(Copy, Clone, PartialEq, Eq, Structural, Debug)]
pub enum LoRaCrc {
    /// Payload CRC enabled
    Enabled,
    /// Payload CRC disabled
    Disabled,
}

impl LoRaCrc {
    /// Wire value of each variant.
    pub open spec fn spec_value(self) -> u8 {
        match self {
            LoRaCrc::Enabled => 0x20,
            LoRaCrc::Disabled => 0x00,
        }
    }

    /// Wire value of this variant, as written to the device.
    pub fn value(self) -> (v: u8)
        ensures
            v == self.spec_value(),
    {
        match self {
            LoRaCrc::Enabled => 0x20,
            LoRaCrc::Disabled => 0x00,
        }
    }
}

/// IQ mode for LoRa packet types
#[derive(Copy, Clone, PartialEq, Eq, Structural, Debug)]
pub enum LoRaIq {
    /// Normal IQ
    Normal,
    /// Inverted IQ
    Inverted,
}

impl LoRaIq {
    /// Wire value of each variant.
    pub open spec fn spec_value(self) -> u8 {
        match self {
            LoRaIq::Normal => 0x40,
            LoRaIq::Inverted => 0x00,
        }
    }

    /// Wire value of this variant, as written to the device.
    pub fn value(self) -> (v: u8)
        ensures
            v == self.spec_value(),
    {
        match self {
            LoRaIq::Normal => 0x40,
            LoRaIq::Inverted => 0x00,
        }
    }
}

/// Header configuration for LoRa packet types
#[derive(Copy, Clone, PartialEq, Eq, Structural, Debug)]
pub enum LoRaHeader {
    /// Variable length packets, length header included in packet
    Explicit,
    /// Constant length packets, no length header included in packet
    Implicit,
}

impl LoRaHeader {
    /// Wire value of each variant.
    pub open spec fn spec_value(self) -> u8 {
        match self {
            LoRaHeader::Explicit => 0x00,
            LoRaHeader::Implicit => 0x80,
        }
    }

    /// Wire value of this variant, as written to the device.
    pub fn value(self) -> (v: u8)
        ensures
            v == self.spec_value(),
    {
        match self {
            LoRaHeader::Explicit => 0x00,
            LoRaHeader::Implicit => 0x80,
        }
    }
}


impl LoRaBandwidth {
    /// Bandwidth in Hz of each bandwidth configuration.
    pub open spec fn spec_bw_hz(self) -> u32 {
        match self {
            LoRaBandwidth::Bw200kHz => 203125,
            LoRaBandwidth::Bw400kHz => 406250,
            LoRaBandwidth::Bw800kHz => 812500,
            LoRaBandwidth::Bw1600kHz => 1625000,
        }
    }

    /// Fetch the bandwidth in Hz for a given bandwidth configuration
    pub fn get_bw_hz(&self) -> (hz: u32)
        ensures
            hz == self.spec_bw_hz(),
    {
        match self {
            LoRaBandwidth::Bw200kHz => 203125,
            LoRaBandwidth::Bw400kHz => 406250,
            LoRaBandwidth::Bw800kHz => 812500,
            LoRaBandwidth::Bw1600kHz => 1625000,
        }
    }
}

/// LoRa mode radio configuration
#[derive(Copy, Clone, PartialEq, Eq, Structural, Debug)]
pub struct LoRaConfig {
    /// Preamble length in symbols (defaults to 8)
    pub preamble_length: u8,
    /// LoRa header configuration, defaults to variable packet length with explicit headers
    pub header_type: LoRaHeader,
    /// Payload length configuration (or maximum length for variable mode)
    pub payload_length: u8,
    /// Payload RX CRC configuration (defaults to enabled)
    pub crc_mode: LoRaCrc,
    /// IQ inversion configuration (defaults to disabled)
    pub invert_iq: LoRaIq,
}

impl LoRaConfig {
    /// Baseline LoRa packet configuration.
    pub open spec fn spec_default() -> LoRaConfig {
        LoRaConfig {
            preamble_length: 8,
            header_type: LoRaHeader::Explicit,
            payload_length: 255,
            crc_mode: LoRaCrc::Enabled,
            invert_iq: LoRaIq::Inverted,
        }
    }
}

impl Default for LoRaConfig {
    fn default() -> (c: Self)
        ensures
            c == LoRaConfig::spec_default(),
    {
        LoRaConfig {
            preamble_length: 8,
            header_type: LoRaHeader::Explicit,
            payload_length: 255,
            crc_mode: LoRaCrc::Enabled,
            invert_iq: LoRaIq::Inverted,
        }
    }
}

/// LoRa mode channel configuration
#[derive(Copy, Clone, PartialEq, Eq, Structural, Debug)]
pub struct LoRaChannel {
    /// LoRa frequency in Hz (defaults to 2.4GHz)
    pub freq: u32,
    /// LoRa Spreading Factor (defaults to SF8)
    pub sf: LoRaSpreadingFactor,
    /// LoRa channel bandwidth (defaults to 200kHz)
    pub bw: LoRaBandwidth,
    /// LoRa Coding rate (defaults to 4/5)
    pub cr: LoRaCodingRate,
}

impl LoRaChannel {
    /// Baseline LoRa channel configuration.
    pub open spec fn spec_default() -> LoRaChannel {
        LoRaChannel {
            freq: 2_440_000_000,
            sf: LoRaSpreadingFactor::Sf8,
            bw: LoRaBandwidth::Bw200kHz,
            cr: LoRaCodingRate::Cr4_5,
        }
    }
}

impl Default for LoRaChannel {
    fn default() -> (c: Self)
        ensures
            c == LoRaChannel::spec_default(),
    {
        LoRaChannel {
            freq: 2_440_000_000,
            sf: LoRaSpreadingFactor::Sf8,
            bw: LoRaBandwidth::Bw200kHz,
            cr: LoRaCodingRate::Cr4_5,
        }
    }
}

} // verus!
