//! BLE mode device configuration definitions.

use vstd::prelude::*;

use crate::device::common::{GfskBleBitrateBandwidth, GfskBleModIndex, ModShaping, WhiteningModes};

verus! {

/// BLE connection state
#[allow(non_camel_case_types)]
#[derive(Copy, Clone, PartialEq, Eq, Structural, Debug)]
pub enum BleConnectionStates {
    /// Payload length up to 31 bytes
    BLE_PAYLOAD_LENGTH_MAX_31_BYTES,
    /// Payload length up to 37 bytes
    BLE_PAYLOAD_LENGTH_MAX_37_BYTES,
    /// Transmit test mode
    BLE_TX_TEST_MODE,
    /// Payload length up to 255 bytes
    BLE_PAYLOAD_LENGTH_MAX_255_BYTES,
}

impl BleConnectionStates {
    /// Wire value of each variant.
    pub open spec fn spec_value(self) -> u8 {
        match self {
            BleConnectionStates::BLE_PAYLOAD_LENGTH_MAX_31_BYTES => 0x00,
            BleConnectionStates::BLE_PAYLOAD_LENGTH_MAX_37_BYTES => 0x20,
            BleConnectionStates::BLE_TX_TEST_MODE => 0x40,
            BleConnectionStates::BLE_PAYLOAD_LENGTH_MAX_255_BYTES => 0x80,
        }
    }

    /// Wire value of this variant, as written to the device.
    pub fn value(self) -> (v: u8)
        ensures
            v == self.spec_value(),
    {
        match self {
            BleConnectionStates::BLE_PAYLOAD_LENGTH_MAX_31_BYTES => 0x00,
            BleConnectionStates::BLE_PAYLOAD_LENGTH_MAX_37_BYTES => 0x20,
            BleConnectionStates::BLE_TX_TEST_MODE => 0x40,
            BleConnectionStates::BLE_PAYLOAD_LENGTH_MAX_255_BYTES => 0x80,
        }
    }
}

/// BLE CRC field configuration
#[allow(non_camel_case_types)]
#[derive(Copy, Clone, PartialEq, Eq, Structural, Debug)]
pub enum BleCrcFields {
    /// CRC disabled
    BLE_CRC_OFF,
    /// CRC 3B
    BLE_CRC_3B,
}

impl BleCrcFields {
    /// Wire value of each variant.
    pub open spec fn spec_value(self) -> u8 {
        match self {
            BleCrcFields::BLE_CRC_OFF => 0x00,
            BleCrcFields::BLE_CRC_3B => 0x10,
        }
    }

    /// Wire value of this variant, as written to the device.
    pub fn value(self) -> (v: u8)
        ensures
            v == self.spec_value(),
    {
        match self {
            BleCrcFields::BLE_CRC_OFF => 0x00,
            BleCrcFields::BLE_CRC_3B => 0x10,
        }
    }
}

/// BLE mode packet types
#[allow(non_camel_case_types)]
#[derive(Copy, Clone, PartialEq, Eq, Structural, Debug)]
pub enum BlePacketTypes {
    /// Pseudo Random Binary Sequence based on 9th degree polynomial
    BLE_PRBS_9,
    /// Pseudo Random Binary Sequence based on 15th degree polynomial
    BLE_PRBS_15,
    /// Repeated '11110000' sequence
    BLE_EYELONG_1_0,
    /// Repeated '00001111' sequence
    BLE_EYELONG_0_1,
    /// Repeated '10101010' sequence
    BLE_EYESHORT_1_0,
    /// Repeated '01010101' sequence
    BLE_EYESHORT_0_1,
    /// Repeated '11111111' sequence
    BLE_ALL_1,
    /// Repeated '00000000' sequence
    BLE_ALL_0,
}

impl BlePacketTypes {
    /// Wire value of each variant.
    pub open spec fn spec_value(self) -> u8 {
        match self {
            BlePacketTypes::BLE_PRBS_9 => 0x00,
            BlePacketTypes::BLE_PRBS_15 => 0x0C,
            BlePacketTypes::BLE_EYELONG_1_0 => 0x04,
            BlePacketTypes::BLE_EYELONG_0_1 => 0x18,
            BlePacketTypes::BLE_EYESHORT_1_0 => 0x08,
            BlePacketTypes::BLE_EYESHORT_0_1 => 0x1C,
            BlePacketTypes::BLE_ALL_1 => 0x10,
            BlePacketTypes::BLE_ALL_0 => 0x14,
        }
    }

    /// Wire value of this variant, as written to the device.
    pub fn value(self) -> (v: u8)
        ensures
            v == self.spec_value(),
    {
        match self {
            BlePacketTypes::BLE_PRBS_9 => 0x00,
            BlePacketTypes::BLE_PRBS_15 => 0x0C,
            BlePacketTypes::BLE_EYELONG_1_0 => 0x04,
            BlePacketTypes::BLE_EYELONG_0_1 => 0x18,
            BlePacketTypes::BLE_EYESHORT_1_0 => 0x08,
            BlePacketTypes::BLE_EYESHORT_0_1 => 0x1C,
            BlePacketTypes::BLE_ALL_1 => 0x10,
            BlePacketTypes::BLE_ALL_0 => 0x14,
        }
    }
}

/// BLE operating mode channel configuration
#[derive(Copy, Clone, PartialEq, Eq, Structural, Debug)]
pub struct BleChannel {
    /// Operating frequency
    pub freq: u32,
    /// Bitrate bandwidth
    pub br_bw: GfskBleBitrateBandwidth,
    /// Modulation index
    pub mi: GfskBleModIndex,
    /// Modulation shaping
    pub ms: ModShaping,
}

/// BLE operating mode packet configuration
#[derive(Copy, Clone, PartialEq, Eq, Structural, Debug)]
pub struct BleConfig {
    /// BLE connection state
    pub connection_state: BleConnectionStates,
    /// Size of the CRC block in the BLE packet
    pub crc_field: BleCrcFields,
    /// BLE packet types
    pub packet_type: BlePacketTypes,
    /// Whitening on PDU and CRC blocks of BLE packet
    pub whitening: WhiteningModes,
}

} // verus!
