//! Exhaustive check of the numeric command, register and parameter mapping
//! tables against the chip datasheet values: a mismatch here is a silent
//! wire-protocol corruption.

use radio_sx128x::device::{
    CommandStatus, Commands, PacketType, RampTime, RangingRole, Registers, RegulatorMode, State,
    TickSize,
};
use radio_sx128x::device::{ble, common, flrc, gfsk, lora};

#[test]
fn commands_values() {
    assert_eq!(Commands::GetStatus.value(), 0xC0);
    assert_eq!(Commands::WriteRegister.value(), 0x18);
    assert_eq!(Commands::ReadRegister.value(), 0x19);
    assert_eq!(Commands::WriteBuffer.value(), 0x1A);
    assert_eq!(Commands::ReadBuffer.value(), 0x1B);
    assert_eq!(Commands::SetSleep.value(), 0x84);
    assert_eq!(Commands::SetStandby.value(), 0x80);
    assert_eq!(Commands::SetFs.value(), 0xC1);
    assert_eq!(Commands::SetTx.value(), 0x83);
    assert_eq!(Commands::SetRx.value(), 0x82);
    assert_eq!(Commands::SetRxDutyCycle.value(), 0x94);
    assert_eq!(Commands::SetCad.value(), 0xC5);
    assert_eq!(Commands::SetTxContinuousWave.value(), 0xD1);
    assert_eq!(Commands::SetTxContinuousPreamble.value(), 0xD2);
    assert_eq!(Commands::SetPacketType.value(), 0x8A);
    assert_eq!(Commands::GetPacketType.value(), 0x03);
    assert_eq!(Commands::SetRfFrequency.value(), 0x86);
    assert_eq!(Commands::SetTxParams.value(), 0x8E);
    assert_eq!(Commands::SetCadParams.value(), 0x88);
    assert_eq!(Commands::SetBufferBaseAddress.value(), 0x8F);
    assert_eq!(Commands::SetModulationParams.value(), 0x8B);
    assert_eq!(Commands::SetPacketParams.value(), 0x8C);
    assert_eq!(Commands::GetRxBufferStatus.value(), 0x17);
    assert_eq!(Commands::GetPacketStatus.value(), 0x1D);
    assert_eq!(Commands::GetRssiInst.value(), 0x1F);
    assert_eq!(Commands::SetDioIrqParams.value(), 0x8D);
    assert_eq!(Commands::GetIrqStatus.value(), 0x15);
    assert_eq!(Commands::ClearIrqStatus.value(), 0x97);
    assert_eq!(Commands::Calibrate.value(), 0x89);
    assert_eq!(Commands::SetRegulatorMode.value(), 0x96);
    assert_eq!(Commands::SetSaveContext.value(), 0xD5);
    assert_eq!(Commands::SetAutoTx.value(), 0x98);
    assert_eq!(Commands::SetAutoFs.value(), 0x9E);
    assert_eq!(Commands::SetLongPreamble.value(), 0x9B);
    assert_eq!(Commands::SetUartSpeed.value(), 0x9D);
    assert_eq!(Commands::SetRangingRole.value(), 0xA3);
}

#[test]
fn registers_values() {
    assert_eq!(Registers::LrFirmwareVersionMsb.value(), 0x153);
    assert_eq!(Registers::LrCrcSeedBaseAddr.value(), 0x9C8);
    assert_eq!(Registers::LrCrcPolyBaseAddr.value(), 0x9C6);
    assert_eq!(Registers::LrWhitSeedBaseAddr.value(), 0x9C5);
    assert_eq!(Registers::LrRangingIdCheckLength.value(), 0x931);
    assert_eq!(Registers::LrDeviceRangingAddr.value(), 0x916);
    assert_eq!(Registers::LrRequestRangingAddr.value(), 0x912);
    assert_eq!(Registers::LrRangingResultConfig.value(), 0x924);
    assert_eq!(Registers::LrRangingResultBaseAddr.value(), 0x961);
    assert_eq!(Registers::LrRangingResultsFreeze.value(), 0x97F);
    assert_eq!(Registers::LrRangingReRxTxDelayCal.value(), 0x92C);
    assert_eq!(Registers::LrRangingFilterWindowSize.value(), 0x91E);
    assert_eq!(Registers::LrRangingResultClearReg.value(), 0x923);
    assert_eq!(Registers::RangingRssi.value(), 0x964);
    assert_eq!(Registers::LrPacketParams.value(), 0x903);
    assert_eq!(Registers::LrPayloadLength.value(), 0x901);
    assert_eq!(Registers::LrSyncWordBaseAddress1.value(), 0x9CE);
    assert_eq!(Registers::LrSyncWordBaseAddress2.value(), 0x9D3);
    assert_eq!(Registers::LrSyncWordBaseAddress3.value(), 0x9D8);
    assert_eq!(Registers::LrEstimatedFrequencyErrorMsb.value(), 0x954);
    assert_eq!(Registers::GfskBlePreambleLength.value(), 0x9C1);
    assert_eq!(Registers::LrSyncWordTolerance.value(), 0x9CD);
    assert_eq!(Registers::LrBleAccessAddress.value(), 0x9CF);
    assert_eq!(Registers::LnaRegime.value(), 0x891);
    assert_eq!(Registers::EnableManuaLGainControl.value(), 0x89F);
    assert_eq!(Registers::DemodDetection.value(), 0x895);
    assert_eq!(Registers::ManualGainValue.value(), 0x89E);
}

#[test]
fn state_values() {
    assert_eq!(State::Sleep.value(), 0x00);
    assert_eq!(State::StandbyRc.value(), 0x02);
    assert_eq!(State::StandbyXosc.value(), 0x03);
    assert_eq!(State::Fs.value(), 0x04);
    assert_eq!(State::Rx.value(), 0x05);
    assert_eq!(State::Tx.value(), 0x06);
}

#[test]
fn command_status_values() {
    assert_eq!(CommandStatus::Reserved.value(), 0x00);
    assert_eq!(CommandStatus::Success.value(), 0x01);
    assert_eq!(CommandStatus::DataAvailable.value(), 0x02);
    assert_eq!(CommandStatus::Timeout.value(), 0x03);
    assert_eq!(CommandStatus::ProcessingError.value(), 0x04);
    assert_eq!(CommandStatus::ExecutionFailure.value(), 0x05);
    assert_eq!(CommandStatus::TxDone.value(), 0x06);
}

#[test]
fn regulator_mode_values() {
    assert_eq!(RegulatorMode::Ldo.value(), 0x00);
    assert_eq!(RegulatorMode::Dcdc.value(), 0x01);
}

#[test]
fn ramp_time_values() {
    assert_eq!(RampTime::Ramp02Us.value(), 0x00);
    assert_eq!(RampTime::Ramp04Us.value(), 0x20);
    assert_eq!(RampTime::Ramp06Us.value(), 0x40);
    assert_eq!(RampTime::Ramp08Us.value(), 0x60);
    assert_eq!(RampTime::Ramp10Us.value(), 0x80);
    assert_eq!(RampTime::Ramp12Us.value(), 0xA0);
    assert_eq!(RampTime::Ramp16Us.value(), 0xC0);
    assert_eq!(RampTime::Ramp20Us.value(), 0xE0);
}

#[test]
fn packet_type_values() {
    assert_eq!(PacketType::Gfsk.value(), 0x00);
    assert_eq!(PacketType::LoRa.value(), 0x01);
    assert_eq!(PacketType::Ranging.value(), 0x02);
    assert_eq!(PacketType::Flrc.value(), 0x03);
    assert_eq!(PacketType::Ble.value(), 0x04);
    assert_eq!(PacketType::Unset.value(), 0x0F);
}

#[test]
fn ranging_role_values() {
    assert_eq!(RangingRole::Responder.value(), 0x00);
    assert_eq!(RangingRole::Initiator.value(), 0x01);
}

#[test]
fn tick_size_values() {
    assert_eq!(TickSize::TickSize0015us.value(), 0x00);
    assert_eq!(TickSize::TickSize0062us.value(), 0x01);
    assert_eq!(TickSize::TickSize1000us.value(), 0x02);
    assert_eq!(TickSize::TickSize4000us.value(), 0x03);
}

#[test]
fn lo_ra_spreading_factor_values() {
    assert_eq!(lora::LoRaSpreadingFactor::Sf5.value(), 0x50);
    assert_eq!(lora::LoRaSpreadingFactor::Sf6.value(), 0x60);
    assert_eq!(lora::LoRaSpreadingFactor::Sf7.value(), 0x70);
    assert_eq!(lora::LoRaSpreadingFactor::Sf8.value(), 0x80);
    assert_eq!(lora::LoRaSpreadingFactor::Sf9.value(), 0x90);
    assert_eq!(lora::LoRaSpreadingFactor::Sf10.value(), 0xA0);
    assert_eq!(lora::LoRaSpreadingFactor::Sf11.value(), 0xB0);
    assert_eq!(lora::LoRaSpreadingFactor::Sf12.value(), 0xC0);
}

#[test]
fn lo_ra_bandwidth_values() {
    assert_eq!(lora::LoRaBandwidth::Bw200kHz.value(), 0x34);
    assert_eq!(lora::LoRaBandwidth::Bw400kHz.value(), 0x26);
    assert_eq!(lora::LoRaBandwidth::Bw800kHz.value(), 0x18);
    assert_eq!(lora::LoRaBandwidth::Bw1600kHz.value(), 0x0A);
}

#[test]
fn lo_ra_coding_rate_values() {
    assert_eq!(lora::LoRaCodingRate::Cr4_5.value(), 0x01);
    assert_eq!(lora::LoRaCodingRate::Cr4_6.value(), 0x02);
    assert_eq!(lora::LoRaCodingRate::Cr4_7.value(), 0x03);
    assert_eq!(lora::LoRaCodingRate::Cr4_8.value(), 0x04);
    assert_eq!(lora::LoRaCodingRate::CrLI_4_5.value(), 0x05);
    assert_eq!(lora::LoRaCodingRate::CrLI_4_6.value(), 0x06);
    assert_eq!(lora::LoRaCodingRate::CrLI_4_7.value(), 0x07);
}

#[test]
fn lo_ra_crc_values() {
    assert_eq!(lora::LoRaCrc::Enabled.value(), 0x20);
    assert_eq!(lora::LoRaCrc::Disabled.value(), 0x00);
}

#[test]
fn lo_ra_iq_values() {
    assert_eq!(lora::LoRaIq::Normal.value(), 0x40);
    assert_eq!(lora::LoRaIq::Inverted.value(), 0x00);
}

#[test]
fn lo_ra_header_values() {
    assert_eq!(lora::LoRaHeader::Explicit.value(), 0x00);
    assert_eq!(lora::LoRaHeader::Implicit.value(), 0x80);
}

#[test]
fn mod_shaping_values() {
    assert_eq!(common::ModShaping::Off.value(), 0x00);
    assert_eq!(common::ModShaping::Bt1_0.value(), 0x10);
    assert_eq!(common::ModShaping::Bt0_5.value(), 0x20);
}

#[test]
fn preamble_length_values() {
    assert_eq!(common::PreambleLength::PreambleLength04.value(), 0x00);
    assert_eq!(common::PreambleLength::PreambleLength08.value(), 0x10);
    assert_eq!(common::PreambleLength::PreambleLength12.value(), 0x20);
    assert_eq!(common::PreambleLength::PreambleLength16.value(), 0x30);
    assert_eq!(common::PreambleLength::PreambleLength20.value(), 0x40);
    assert_eq!(common::PreambleLength::PreambleLength24.value(), 0x50);
    assert_eq!(common::PreambleLength::PreambleLength28.value(), 0x60);
    assert_eq!(common::PreambleLength::PreambleLength32.value(), 0x70);
}

#[test]
fn gfsk_ble_bitrate_bandwidth_values() {
    assert_eq!(common::GfskBleBitrateBandwidth::BR_2_000_BW_2_4.value(), 0x04);
    assert_eq!(common::GfskBleBitrateBandwidth::BR_1_600_BW_2_4.value(), 0x28);
    assert_eq!(common::GfskBleBitrateBandwidth::BR_1_000_BW_2_4.value(), 0x4C);
    assert_eq!(common::GfskBleBitrateBandwidth::BR_1_000_BW_1_2.value(), 0x45);
    assert_eq!(common::GfskBleBitrateBandwidth::BR_0_800_BW_2_4.value(), 0x70);
    assert_eq!(common::GfskBleBitrateBandwidth::BR_0_800_BW_1_2.value(), 0x69);
    assert_eq!(common::GfskBleBitrateBandwidth::BR_0_500_BW_1_2.value(), 0x8D);
    assert_eq!(common::GfskBleBitrateBandwidth::BR_0_500_BW_0_6.value(), 0x86);
    assert_eq!(common::GfskBleBitrateBandwidth::BR_0_400_BW_1_2.value(), 0xB1);
    assert_eq!(common::GfskBleBitrateBandwidth::BR_0_400_BW_0_6.value(), 0xAA);
    assert_eq!(common::GfskBleBitrateBandwidth::BR_0_250_BW_0_6.value(), 0xCE);
    assert_eq!(common::GfskBleBitrateBandwidth::BR_0_250_BW_0_3.value(), 0xC7);
    assert_eq!(common::GfskBleBitrateBandwidth::BR_0_125_BW_0_3.value(), 0xEF);
}

#[test]
fn gfsk_ble_mod_index_values() {
    assert_eq!(common::GfskBleModIndex::MOD_IND_0_35.value(), 0x00);
    assert_eq!(common::GfskBleModIndex::MOD_IND_0_50.value(), 0x01);
    assert_eq!(common::GfskBleModIndex::MOD_IND_0_75.value(), 0x02);
    assert_eq!(common::GfskBleModIndex::MOD_IND_1_00.value(), 0x03);
    assert_eq!(common::GfskBleModIndex::MOD_IND_1_25.value(), 0x04);
    assert_eq!(common::GfskBleModIndex::MOD_IND_1_50.value(), 0x05);
    assert_eq!(common::GfskBleModIndex::MOD_IND_1_75.value(), 0x06);
    assert_eq!(common::GfskBleModIndex::MOD_IND_2_00.value(), 0x07);
    assert_eq!(common::GfskBleModIndex::MOD_IND_2_25.value(), 0x08);
    assert_eq!(common::GfskBleModIndex::MOD_IND_2_50.value(), 0x09);
    assert_eq!(common::GfskBleModIndex::MOD_IND_2_75.value(), 0x0A);
    assert_eq!(common::GfskBleModIndex::MOD_IND_3_00.value(), 0x0B);
    assert_eq!(common::GfskBleModIndex::MOD_IND_3_25.value(), 0x0C);
    assert_eq!(common::GfskBleModIndex::MOD_IND_3_50.value(), 0x0D);
    assert_eq!(common::GfskBleModIndex::MOD_IND_3_75.value(), 0x0E);
    assert_eq!(common::GfskBleModIndex::MOD_IND_4_00.value(), 0x0F);
}

#[test]
fn whitening_modes_values() {
    assert_eq!(common::WhiteningModes::RADIO_WHITENING_ON.value(), 0x00);
    assert_eq!(common::WhiteningModes::RADIO_WHITENING_OFF.value(), 0x08);
}

#[test]
fn sync_word_rx_match_values() {
    assert_eq!(common::SyncWordRxMatch::RADIO_RX_MATCH_SYNCWORD_OFF.value(), 0x00);
    assert_eq!(common::SyncWordRxMatch::RADIO_RX_MATCH_SYNCWORD_1.value(), 0x10);
    assert_eq!(common::SyncWordRxMatch::RADIO_RX_MATCH_SYNCWORD_2.value(), 0x20);
    assert_eq!(common::SyncWordRxMatch::RADIO_RX_MATCH_SYNCWORD_1_2.value(), 0x30);
    assert_eq!(common::SyncWordRxMatch::RADIO_RX_MATCH_SYNCWORD_3.value(), 0x40);
    assert_eq!(common::SyncWordRxMatch::RADIO_RX_MATCH_SYNCWORD_1_3.value(), 0x50);
    assert_eq!(common::SyncWordRxMatch::RADIO_RX_MATCH_SYNCWORD_2_3.value(), 0x60);
    assert_eq!(common::SyncWordRxMatch::RADIO_RX_MATCH_SYNCWORD_1_2_3.value(), 0x70);
}

#[test]
fn gfsk_flrc_packet_length_values() {
    assert_eq!(common::GfskFlrcPacketLength::Fixed.value(), 0x00);
    assert_eq!(common::GfskFlrcPacketLength::Variable.value(), 0x20);
}

#[test]
fn gfsk_flrc_crc_modes_values() {
    assert_eq!(common::GfskFlrcCrcModes::RADIO_CRC_OFF.value(), 0x00);
    assert_eq!(common::GfskFlrcCrcModes::RADIO_CRC_2_BYTES.value(), 0x10);
    assert_eq!(common::GfskFlrcCrcModes::RADIO_CRC_3_BYTES.value(), 0x20);
    assert_eq!(common::GfskFlrcCrcModes::RADIO_CRC_4_BYTES.value(), 0x30);
}

#[test]
fn gfsk_sync_word_length_values() {
    assert_eq!(gfsk::GfskSyncWordLength::GFSK_SYNCWORD_LENGTH_1_BYTE.value(), 0x00);
    assert_eq!(gfsk::GfskSyncWordLength::GFSK_SYNCWORD_LENGTH_2_BYTE.value(), 0x02);
    assert_eq!(gfsk::GfskSyncWordLength::GFSK_SYNCWORD_LENGTH_3_BYTE.value(), 0x04);
    assert_eq!(gfsk::GfskSyncWordLength::GFSK_SYNCWORD_LENGTH_4_BYTE.value(), 0x06);
    assert_eq!(gfsk::GfskSyncWordLength::GFSK_SYNCWORD_LENGTH_5_BYTE.value(), 0x08);
}

#[test]
fn flrc_bitrate_values() {
    assert_eq!(flrc::FlrcBitrate::BR_2_600_BW_2_4.value(), 0x04);
    assert_eq!(flrc::FlrcBitrate::BR_2_080_BW_2_4.value(), 0x28);
    assert_eq!(flrc::FlrcBitrate::BR_1_300_BW_1_2.value(), 0x45);
    assert_eq!(flrc::FlrcBitrate::BR_1_040_BW_1_2.value(), 0x69);
    assert_eq!(flrc::FlrcBitrate::BR_0_650_BW_0_6.value(), 0x86);
    assert_eq!(flrc::FlrcBitrate::BR_0_520_BW_0_6.value(), 0xAA);
    assert_eq!(flrc::FlrcBitrate::BR_0_325_BW_0_3.value(), 0xC7);
    assert_eq!(flrc::FlrcBitrate::BR_0_260_BW_0_3.value(), 0xEB);
}

#[test]
fn flrc_coding_rate_values() {
    assert_eq!(flrc::FlrcCodingRate::Cr1_2.value(), 0x00);
    assert_eq!(flrc::FlrcCodingRate::Cr3_4.value(), 0x02);
    assert_eq!(flrc::FlrcCodingRate::Cr1_0.value(), 0x04);
}

#[test]
fn flrc_sync_word_length_values() {
    assert_eq!(flrc::FlrcSyncWordLength::Disabled.value(), 0x00);
    assert_eq!(flrc::FlrcSyncWordLength::Length4.value(), 0x04);
}

#[test]
fn ble_connection_states_values() {
    assert_eq!(ble::BleConnectionStates::BLE_PAYLOAD_LENGTH_MAX_31_BYTES.value(), 0x00);
    assert_eq!(ble::BleConnectionStates::BLE_PAYLOAD_LENGTH_MAX_37_BYTES.value(), 0x20);
    assert_eq!(ble::BleConnectionStates::BLE_TX_TEST_MODE.value(), 0x40);
    assert_eq!(ble::BleConnectionStates::BLE_PAYLOAD_LENGTH_MAX_255_BYTES.value(), 0x80);
}

#[test]
fn ble_crc_fields_values() {
    assert_eq!(ble::BleCrcFields::BLE_CRC_OFF.value(), 0x00);
    assert_eq!(ble::BleCrcFields::BLE_CRC_3B.value(), 0x10);
}

#[test]
fn ble_packet_types_values() {
    assert_eq!(ble::BlePacketTypes::BLE_PRBS_9.value(), 0x00);
    assert_eq!(ble::BlePacketTypes::BLE_PRBS_15.value(), 0x0C);
    assert_eq!(ble::BlePacketTypes::BLE_EYELONG_1_0.value(), 0x04);
    assert_eq!(ble::BlePacketTypes::BLE_EYELONG_0_1.value(), 0x18);
    assert_eq!(ble::BlePacketTypes::BLE_EYESHORT_1_0.value(), 0x08);
    assert_eq!(ble::BlePacketTypes::BLE_EYESHORT_0_1.value(), 0x1C);
    assert_eq!(ble::BlePacketTypes::BLE_ALL_1.value(), 0x10);
    assert_eq!(ble::BlePacketTypes::BLE_ALL_0.value(), 0x14);
}

#[test]
fn state_decode_round_trip() {
    for s in [State::Sleep, State::StandbyRc, State::StandbyXosc, State::Fs, State::Rx, State::Tx] {
        assert_eq!(State::try_from(s.value()), Some(s));
    }
    assert_eq!(State::try_from(0x01), None);
    assert_eq!(State::try_from(0x07), None);
}

#[test]
fn command_status_decode_round_trip() {
    for s in [
        CommandStatus::Reserved,
        CommandStatus::Success,
        CommandStatus::DataAvailable,
        CommandStatus::Timeout,
        CommandStatus::ProcessingError,
        CommandStatus::ExecutionFailure,
        CommandStatus::TxDone,
    ] {
        assert_eq!(CommandStatus::try_from(s.value()), Some(s));
    }
    assert_eq!(CommandStatus::try_from(0x07), None);
}
