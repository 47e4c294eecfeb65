//! Tests of the driver operations against the transaction-level mock: the
//! configuration engine, the transmit and receive state machines, and the
//! status decoders.

use radio_sx128x::device::{
    Channel, Config, Irq, Modem, PacketType, RampTime, State, Timeout,
};
use radio_sx128x::device::lora::{LoRaChannel, LoRaConfig, LoRaHeader};
use radio_sx128x::mock::{MockHal, XactRec};
use radio_sx128x::{Error, Sx128x};

fn radio() -> Sx128x<MockHal> {
    Sx128x::build(MockHal::new())
}

/// A driver over a mock whose read queue is pre-loaded, oldest first.
fn radio_with(scripts: Vec<Vec<u8>>) -> Sx128x<MockHal> {
    let mut hal = MockHal::new();
    for s in scripts {
        hal.push_read_response(s);
    }
    Sx128x::build(hal)
}

#[test]
fn configure_caches_packet_type() {
    // After a successful configure the cached packet type equals the type the
    // modem configuration selects.
    let mut r = radio();
    r.configure(&Config::gfsk()).unwrap();
    assert_eq!(r.get_packet_type(), PacketType::Gfsk);
    assert_eq!(r.get_config().modem, Config::gfsk().modem);

    // The FLRC sync-word patch reads the tolerance register once.
    let mut r = radio_with(vec![vec![0xFF]]);
    r.configure(&Config::flrc()).unwrap();
    assert_eq!(r.get_packet_type(), PacketType::Flrc);

    let mut r = radio();
    r.configure(&Config::lora()).unwrap();
    assert_eq!(r.get_packet_type(), PacketType::LoRa);
}

#[test]
fn configure_rejects_mismatched_tags() {
    let mut r = radio();
    let mut config = Config::gfsk();
    config.channel = Channel::LoRa(LoRaChannel::default());
    assert_eq!(r.configure(&config), Err(Error::InvalidConfiguration));
}

#[test]
fn configure_rejects_out_of_band_frequency() {
    let mut r = radio();
    let mut config = Config::lora();
    let mut ch = LoRaChannel::default();
    ch.freq = 2_600_000_000;
    config.channel = Channel::LoRa(ch);
    assert_eq!(r.configure(&config), Err(Error::InvalidFrequency));

    let mut ch = LoRaChannel::default();
    ch.freq = 2_399_999_999;
    config.channel = Channel::LoRa(ch);
    assert_eq!(r.configure(&config), Err(Error::InvalidFrequency));
}

#[test]
fn configure_emits_full_gfsk_sequence() {
    let mut r = radio();
    r.configure(&Config::gfsk()).unwrap();
    let recs = r.hal().records();
    assert_eq!(
        recs,
        &vec![
            // Standby request before any parameter write.
            XactRec::WriteCmd { op: 0x80, data: vec![0x00] },
            // Frequency steps for 2.44 GHz on the 52 MHz crystal.
            XactRec::WriteCmd { op: 0x86, data: vec![0xBB, 0xB1, 0x3B] },
            // Packet type: GFSK.
            XactRec::WriteCmd { op: 0x8A, data: vec![0x00] },
            // Modulation parameters: bitrate/bandwidth, index, shaping.
            XactRec::WriteCmd { op: 0x8B, data: vec![0xC7, 0x00, 0x00] },
            // Packet parameters.
            XactRec::WriteCmd { op: 0x8C, data: vec![0x70, 0x08, 0x10, 0x20, 0xFF, 0x00, 0x08] },
            // Power amplifier: 10 dBm default, 20 us ramp.
            XactRec::WriteCmd { op: 0x8E, data: vec![0x1C, 0xE0] },
        ]
    );
}

#[test]
fn configure_flrc_applies_syncword_patch() {
    let mut r = radio_with(vec![vec![0xAB]]);
    r.configure(&Config::flrc()).unwrap();
    let recs = r.hal().records();
    let n = recs.len();
    // The patch reads the sync-word tolerance register and writes it back
    // with the low nibble cleared, before the power write.
    assert_eq!(recs[n - 3], XactRec::ReadRegs { reg: 0x09CD, data: vec![0xAB] });
    assert_eq!(recs[n - 2], XactRec::WriteRegs { reg: 0x09CD, data: vec![0xA0] });
}

#[test]
fn power_is_clamped_before_encoding() {
    // Requesting 20 dBm writes the same byte as requesting 13 dBm.
    let mut r = radio();
    r.set_power_ramp(20, RampTime::Ramp20Us).unwrap();
    r.set_power_ramp(13, RampTime::Ramp20Us).unwrap();
    r.set_power_ramp(-30, RampTime::Ramp02Us).unwrap();
    let recs = r.hal().records();
    assert_eq!(recs[0], XactRec::WriteCmd { op: 0x8E, data: vec![0x1F, 0xE0] });
    assert_eq!(recs[1], XactRec::WriteCmd { op: 0x8E, data: vec![0x1F, 0xE0] });
    assert_eq!(recs[2], XactRec::WriteCmd { op: 0x8E, data: vec![0x00, 0x00] });
    assert_eq!(r.get_config().pa_config.power, -18);
    assert_eq!(r.get_config().pa_config.ramp_time, RampTime::Ramp02Us);
}

#[test]
fn set_power_keeps_configured_ramp() {
    let mut r = radio();
    r.set_power_ramp(5, RampTime::Ramp10Us).unwrap();
    r.set_power(7).unwrap();
    let recs = r.hal().records();
    assert_eq!(recs[1], XactRec::WriteCmd { op: 0x8E, data: vec![25, 0x80] });
}

#[test]
fn check_transmit_polls_until_tx_done() {
    let mut r = radio_with(vec![vec![0x00, 0x00], vec![0x00, 0x01], vec![0x40, 0x00]]);
    // No flag set: not complete, and nothing is cleared.
    assert_eq!(r.check_transmit(), Ok(false));
    assert_eq!(r.hal().records().len(), 1);
    // TX_DONE: complete exactly once, flags cleared.
    assert_eq!(r.check_transmit(), Ok(true));
    let n = r.hal().records().len();
    assert_eq!(n, 3);
    assert_eq!(
        r.hal().records()[2],
        XactRec::WriteCmd { op: 0x97, data: vec![0x00, 0x01] }
    );
    // RX_TX_TIMEOUT without TX_DONE: a timeout error, never both.
    assert_eq!(r.check_transmit(), Err(Error::Timeout));
}

#[test]
fn check_receive_classifies_in_priority_order() {
    let mut r = radio_with(vec![
        vec![0x00, 0x40],
        vec![0x40, 0x00],
        vec![0x00, 0x08],
        vec![0x00, 0x02],
        vec![0x00, 0x00],
        vec![0x00, 0x42],
    ]);
    assert_eq!(r.check_receive(false), Err(Error::InvalidCrc));
    assert_eq!(r.check_receive(false), Err(Error::Timeout));
    assert_eq!(r.check_receive(false), Err(Error::InvalidSync));
    assert_eq!(r.check_receive(false), Ok(true));
    assert_eq!(r.check_receive(false), Ok(false));
    // CRC error beats a simultaneous completion flag.
    assert_eq!(r.check_receive(false), Err(Error::InvalidCrc));
}

#[test]
fn check_receive_restart_swallows_errors() {
    let mut r = radio_with(vec![vec![0x00, 0x40], vec![0x00, 0x02]]);
    // A CRC error with restart: the error is swallowed, receive is
    // re-entered, and the poll reports not-yet-complete.
    let before = r.hal().records().len();
    assert_eq!(r.check_receive(true), Ok(false));
    let recs = r.hal().records();
    // The restart re-issued the receive-start sequence after the poll.
    assert!(recs.len() > before + 2);
    assert_eq!(recs[recs.len() - 1].clone(), {
        // The final transaction is the RX request with the single-shot
        // timeout bytes.
        XactRec::WriteCmd { op: 0x82, data: vec![0x00, 0x00, 0x00] }
    });
    // A completed packet is still reported under restart.
    assert_eq!(r.check_receive(true), Ok(true));
}

#[test]
fn start_transmit_writes_payload_and_masks() {
    let mut r = radio();
    r.configure(&Config::lora()).unwrap();
    let payload = vec![0x11, 0x22, 0x33];
    r.start_transmit(&payload).unwrap();
    let recs = r.hal().records();
    let n = recs.len();
    // Payload written at offset zero.
    assert!(recs.contains(&XactRec::WriteBuff { offset: 0, data: vec![0x11, 0x22, 0x33] }));
    // Packet parameters carry the payload length of this packet.
    assert!(recs.contains(&XactRec::WriteCmd {
        op: 0x8C,
        data: vec![0x08, 0x00, 0x03, 0x20, 0x00, 0x00, 0x00],
    }));
    // TX interrupt masks: TX_DONE | CRC_ERROR | RX_TX_TIMEOUT on IRQ and DIO1.
    assert_eq!(
        recs[n - 2],
        XactRec::WriteCmd {
            op: 0x8D,
            data: vec![0x40, 0x41, 0x40, 0x41, 0x00, 0x00, 0x00, 0x00],
        }
    );
    // The TX request carries the timeout bytes (single mode: count zero).
    assert_eq!(recs[n - 1], XactRec::WriteCmd { op: 0x83, data: vec![0x00, 0x00, 0x00] });
}

#[test]
fn start_receive_masks_and_request() {
    let mut r = radio();
    r.configure(&Config::lora()).unwrap();
    r.start_receive().unwrap();
    let recs = r.hal().records();
    let n = recs.len();
    // RX interrupt masks: RX_DONE, CRC, timeout, sync and header flags,
    // preamble detection.
    assert_eq!(
        recs[n - 2],
        XactRec::WriteCmd {
            op: 0x8D,
            data: vec![0xC0, 0x7E, 0xC0, 0x7E, 0x00, 0x00, 0x00, 0x00],
        }
    );
    assert_eq!(recs[n - 1], XactRec::WriteCmd { op: 0x82, data: vec![0x00, 0x00, 0x00] });
}

#[test]
fn firmware_version_decodes_big_endian() {
    let mut r = radio_with(vec![vec![0xA9, 0xB5]]);
    assert_eq!(r.firmware_version(), Ok(0xA9B5));
}

#[test]
fn new_rejects_unreachable_device() {
    // 0xFFFF and 0x0000 firmware words mean the chip is absent or shorted.
    let mut hal = MockHal::new();
    hal.push_read_response(vec![0xFF, 0xFF]);
    assert!(matches!(Sx128x::new(hal, &Config::default()), Err(Error::NoComms)));

    let mut hal = MockHal::new();
    hal.push_read_response(vec![0x00, 0x00]);
    assert!(matches!(Sx128x::new(hal, &Config::default()), Err(Error::NoComms)));
}

#[test]
fn new_proceeds_on_expected_and_unexpected_versions() {
    let mut hal = MockHal::new();
    hal.push_read_response(vec![0xA9, 0xB5]);
    let radio = Sx128x::new(hal, &Config::default()).unwrap();
    assert_eq!(radio.get_packet_type(), PacketType::LoRa);

    // A mismatched but live version proceeds (with a warning, not an error).
    let mut hal = MockHal::new();
    hal.push_read_response(vec![0x8E, 0x8E]);
    let radio = Sx128x::new(hal, &Config::default()).unwrap();
    assert_eq!(radio.get_packet_type(), PacketType::LoRa);
}

#[test]
fn rx_buffer_status_uses_status_byte_for_explicit_header() {
    let mut r = radio_with(vec![vec![5, 9]]);
    r.configure(&Config::lora()).unwrap();
    assert_eq!(r.get_rx_buffer_status(), Ok((9, 5)));
}

#[test]
fn rx_buffer_status_reads_register_for_implicit_header() {
    let mut r = radio_with(vec![vec![5, 9], vec![42]]);
    let mut config = Config::lora();
    let mut modem = LoRaConfig::default();
    modem.header_type = LoRaHeader::Implicit;
    config.modem = Modem::LoRa(modem);
    r.configure(&config).unwrap();
    // Length from the dedicated payload-length register, not the status byte.
    assert_eq!(r.get_rx_buffer_status(), Ok((9, 42)));
    let recs = r.hal().records();
    let n = recs.len();
    assert_eq!(recs[n - 1], XactRec::ReadRegs { reg: 0x0901, data: vec![42] });
}

#[test]
fn rx_buffer_status_adds_ble_pdu_header() {
    let mut r = radio_with(vec![vec![5, 9]]);
    let mut config = Config::default();
    config.modem = Modem::Ble(ble_config());
    config.channel = Channel::Ble(ble_channel());
    r.configure(&config).unwrap();
    assert_eq!(r.get_rx_buffer_status(), Ok((9, 7)));
}

fn ble_config() -> radio_sx128x::device::ble::BleConfig {
    radio_sx128x::device::ble::BleConfig {
        connection_state:
            radio_sx128x::device::ble::BleConnectionStates::BLE_PAYLOAD_LENGTH_MAX_255_BYTES,
        crc_field: radio_sx128x::device::ble::BleCrcFields::BLE_CRC_3B,
        packet_type: radio_sx128x::device::ble::BlePacketTypes::BLE_PRBS_9,
        whitening: radio_sx128x::device::common::WhiteningModes::RADIO_WHITENING_OFF,
    }
}

fn ble_channel() -> radio_sx128x::device::ble::BleChannel {
    radio_sx128x::device::ble::BleChannel {
        freq: 2_440_000_000,
        br_bw: radio_sx128x::device::common::GfskBleBitrateBandwidth::BR_1_000_BW_1_2,
        mi: radio_sx128x::device::common::GfskBleModIndex::MOD_IND_0_50,
        ms: radio_sx128x::device::common::ModShaping::Bt0_5,
    }
}

#[test]
fn get_received_reads_buffer_and_decodes_info() {
    let mut r = radio_with(vec![
        vec![3, 0],
        vec![1, 2, 3],
        vec![80, 40, 0x06, 0x21, 0x0D],
    ]);
    r.configure(&Config::lora()).unwrap();
    let mut buff = vec![0u8; 16];
    let (n, info) = r.get_received(&mut buff).unwrap();
    assert_eq!(n, 3);
    assert_eq!(&buff[..3], &[1, 2, 3]);
    assert_eq!(info.rssi, -40);
    assert_eq!(info.snr, Some(10));
    assert_eq!(info.packet_status.bits, 0x06);
    assert_eq!(info.tx_rx_status.bits, 0x21);
    assert_eq!(info.sync_addr_status, 0x05);
}

#[test]
fn get_received_rejects_short_buffer() {
    let mut r = radio_with(vec![vec![10, 0]]);
    r.configure(&Config::lora()).unwrap();
    let mut buff = vec![0u8; 4];
    assert_eq!(r.get_received(&mut buff), Err(Error::InvalidLength));
}

#[test]
fn gfsk_packet_info_uses_second_status_byte() {
    let mut r = radio_with(vec![
        vec![3, 0],
        vec![0xAA],
        vec![90, 100, 0x00, 0x00, 0x00],
    ]);
    r.configure(&Config::gfsk()).unwrap();
    let mut buff = vec![0u8; 8];
    let (_, info) = r.get_received(&mut buff).unwrap();
    assert_eq!(info.rssi, -50);
    assert_eq!(info.snr, None);
}

#[test]
fn lora_snr_wraps_negative_above_128() {
    let mut r = radio_with(vec![
        vec![1, 0],
        vec![0x55],
        // SNR byte 236: (236 - 256) / 4 = -5.
        vec![60, 236, 0x00, 0x00, 0x00],
    ]);
    r.configure(&Config::lora()).unwrap();
    let mut buff = vec![0u8; 8];
    let (_, info) = r.get_received(&mut buff).unwrap();
    assert_eq!(info.rssi, -30);
    assert_eq!(info.snr, Some(-5));
}

#[test]
fn get_state_decodes_mode_and_command_status() {
    let mut r = radio_with(vec![vec![0x44], vec![0xE4], vec![0x5C]]);
    assert_eq!(r.get_state(), Ok(State::StandbyRc));
    assert_eq!(r.get_state(), Err(Error::InvalidCircuitState(0xE4)));
    assert_eq!(r.get_state(), Err(Error::InvalidCommandStatus(0x5C)));
}

#[test]
fn set_state_maps_states_to_commands() {
    let mut r = radio();
    r.set_state(State::Tx).unwrap();
    r.set_state(State::Rx).unwrap();
    r.set_state(State::Fs).unwrap();
    r.set_state(State::StandbyRc).unwrap();
    r.set_state(State::StandbyXosc).unwrap();
    r.set_state(State::Sleep).unwrap();
    let recs = r.hal().records();
    let ops: Vec<u8> = recs
        .iter()
        .map(|x| match x {
            XactRec::WriteCmd { op, .. } => *op,
            _ => 0,
        })
        .collect();
    assert_eq!(ops, vec![0x83, 0x82, 0xC1, 0x80, 0x80, 0x84]);
}

#[test]
fn syncword_slots_and_errata() {
    // Without a packet type no slot exists.
    let mut r = radio();
    assert_eq!(r.set_syncword(1, &vec![1, 2, 3, 4, 5]), Err(Error::InvalidConfiguration));

    // GFSK: five bytes at the base addresses.
    let mut r = radio();
    r.configure(&Config::gfsk()).unwrap();
    r.set_syncword(1, &vec![1, 2, 3, 4, 5]).unwrap();
    r.set_syncword(2, &vec![1, 2, 3, 4, 5]).unwrap();
    r.set_syncword(3, &vec![1, 2, 3, 4, 5]).unwrap();
    // Wrong length is rejected.
    assert_eq!(r.set_syncword(1, &vec![1, 2, 3, 4]), Err(Error::InvalidConfiguration));
    // Index out of range is rejected.
    assert_eq!(r.set_syncword(4, &vec![1, 2, 3, 4, 5]), Err(Error::InvalidConfiguration));
    let recs = r.hal().records();
    let n = recs.len();
    assert_eq!(recs[n - 3], XactRec::WriteRegs { reg: 0x09CE, data: vec![1, 2, 3, 4, 5] });
    assert_eq!(recs[n - 2], XactRec::WriteRegs { reg: 0x09D3, data: vec![1, 2, 3, 4, 5] });
    assert_eq!(recs[n - 1], XactRec::WriteRegs { reg: 0x09D8, data: vec![1, 2, 3, 4, 5] });

    // FLRC: four bytes, offset by one, and the defective patterns rejected.
    let mut r = radio_with(vec![vec![0xFF]]);
    r.configure(&Config::flrc()).unwrap();
    r.set_syncword(1, &vec![1, 2, 3, 4]).unwrap();
    assert_eq!(r.set_syncword(1, &vec![0x8C, 0x32, 0, 0]), Err(Error::InvalidConfiguration));
    assert_eq!(r.set_syncword(2, &vec![0x63, 0x0E, 0, 0]), Err(Error::InvalidConfiguration));
    let recs = r.hal().records();
    let n = recs.len();
    assert_eq!(recs[n - 1], XactRec::WriteRegs { reg: 0x09CF, data: vec![1, 2, 3, 4] });
}

#[test]
fn interrupts_cleared_only_when_set() {
    let mut r = radio_with(vec![vec![0x00, 0x00], vec![0x80, 0x04], vec![0x00, 0x04]]);
    let irq = r.get_interrupts(true).unwrap();
    assert!(irq.is_empty());
    assert_eq!(r.hal().records().len(), 1);
    let irq = r.get_interrupts(true).unwrap();
    assert_eq!(irq.bits(), 0x8004);
    let recs = r.hal().records();
    assert_eq!(recs.len(), 3);
    assert_eq!(recs[2], XactRec::WriteCmd { op: 0x97, data: vec![0x80, 0x04] });
    // Without clear, nothing is written back even with flags set.
    let _ = r.get_interrupts(false).unwrap();
    assert_eq!(r.hal().records().len(), 4);
}

#[test]
fn is_busy_tracks_syncword_progress() {
    let mut r = radio_with(vec![
        vec![0x00, 0x04],
        vec![0x00, 0x06],
        vec![0x00, 0x44],
        vec![0x00, 0x00],
    ]);
    assert_eq!(r.is_busy(), Ok(true));
    assert_eq!(r.is_busy(), Ok(false));
    assert_eq!(r.is_busy(), Ok(false));
    assert_eq!(r.is_busy(), Ok(false));
}

#[test]
fn poll_rssi_halves_and_negates() {
    let mut r = radio_with(vec![vec![80], vec![81]]);
    assert_eq!(r.poll_rssi(), Ok(-40));
    assert_eq!(r.poll_rssi(), Ok(-40));
}

#[test]
fn set_auto_tx_compensates_offset() {
    let mut r = radio();
    r.set_auto_tx(radio_sx128x::device::AutoTx::Enabled(1000)).unwrap();
    r.set_auto_tx(radio_sx128x::device::AutoTx::Disabled).unwrap();
    let recs = r.hal().records();
    assert_eq!(recs[0], XactRec::WriteCmd { op: 0x98, data: vec![0x03, 0xC7] });
    assert_eq!(recs[1], XactRec::WriteCmd { op: 0x98, data: vec![0x00, 0x00] });
}

#[test]
fn calibrate_and_regulator_and_masks() {
    let mut r = radio();
    r.calibrate(radio_sx128x::device::CalibrationParams::from_bits_truncate(0xFF)).unwrap();
    r.set_regulator_mode(radio_sx128x::device::RegulatorMode::Dcdc).unwrap();
    r.set_irq_mask(Irq::from_bits_truncate(0x4041)).unwrap();
    let recs = r.hal().records();
    assert_eq!(recs[0], XactRec::WriteCmd { op: 0x89, data: vec![0x3F] });
    assert_eq!(recs[1], XactRec::WriteCmd { op: 0x96, data: vec![0x01] });
    assert_eq!(recs[2], XactRec::WriteCmd { op: 0x8D, data: vec![0x40, 0x41] });
}

#[test]
fn timeout_bytes_follow_configuration() {
    let mut r = radio();
    let mut config = Config::lora();
    config.rf_timeout = Timeout::Configurable {
        step: radio_sx128x::device::TickSize::TickSize1000us,
        count: 0x1234,
    };
    // The timeout applies to operations started from the driver's own cached
    // configuration, which `configure` does not overwrite.
    assert_eq!(config.rf_timeout.step().value(), 0x02);
    assert_eq!(config.rf_timeout.count(), 0x1234);
    assert_eq!(Timeout::Continuous.count(), 0xFFFF);
    assert_eq!(Timeout::Single.count(), 0x0000);
    r.configure(&config).unwrap();
    r.start_receive().unwrap();
    let recs = r.hal().records();
    let n = recs.len();
    // The driver's timeout policy is the default baseline (single mode).
    assert_eq!(recs[n - 1], XactRec::WriteCmd { op: 0x82, data: vec![0x00, 0x00, 0x00] });
}

#[test]
fn boundary_frequencies_accepted() {
    let mut r = radio();
    let mut config = Config::lora();
    let mut ch = LoRaChannel::default();
    ch.freq = 2_400_000_000;
    config.channel = Channel::LoRa(ch);
    r.configure(&config).unwrap();

    let mut ch = LoRaChannel::default();
    ch.freq = 2_500_000_000;
    config.channel = Channel::LoRa(ch);
    r.configure(&config).unwrap();
    // The highest in-band frequency still encodes into three bytes.
    let recs = r.hal().records();
    assert!(recs.contains(&XactRec::WriteCmd { op: 0x86, data: vec![0xC0, 0x4E, 0xC4] }));
}

#[test]
fn payload_length_bounds() {
    let mut r = radio();
    r.configure(&Config::lora()).unwrap();
    // An empty payload is allowed and writes an empty buffer.
    r.start_transmit(&vec![]).unwrap();
    assert!(r.hal().records().contains(&XactRec::WriteBuff { offset: 0, data: vec![] }));
    // The largest payload the length byte can carry.
    let big = vec![0xA5u8; 255];
    r.start_transmit(&big).unwrap();
    assert!(r.hal().records().contains(&XactRec::WriteBuff { offset: 0, data: big.clone() }));
}
