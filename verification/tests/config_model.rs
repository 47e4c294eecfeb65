//! Tests of the configuration data model: defaults, frequency conversion,
//! payload-length updates, timeouts and flag registers.

use radio_sx128x::device::lora::{LoRaBandwidth, LoRaConfig, LoRaCrc, LoRaHeader, LoRaIq};
use radio_sx128x::device::{
    tags_match, CalibrationParams, Channel, Config, Irq, Modem, PacketStatus, PacketType,
    RegulatorMode, SyncAddrStatus, Timeout, TxRxStatus, IRQ_RX_DONE, IRQ_TX_DONE,
};
use radio_sx128x::{FREQ_MAX, FREQ_MIN};

#[test]
fn default_config_baseline() {
    let c = Config::default();
    assert_eq!(c.regulator_mode, RegulatorMode::Ldo);
    assert_eq!(c.pa_config.power, 10);
    assert_eq!(c.xtal_freq, 52_000_000);
    assert_eq!(c.timeout_ms, 100);
    assert_eq!(c.rf_timeout, Timeout::Single);
    assert!(!c.skip_version_check);
    assert!(matches!(c.modem, Modem::LoRa(_)));
    assert!(matches!(c.channel, Channel::LoRa(_)));
    assert_eq!(PacketType::of_modem(&c.modem), PacketType::LoRa);
}

#[test]
fn mode_constructors_pick_matching_tags() {
    for c in [Config::flrc(), Config::gfsk(), Config::lora()] {
        assert!(tags_match(&c.modem, &c.channel));
        assert_eq!(PacketType::of_modem(&c.modem), PacketType::of_channel(&c.channel));
    }
}

#[test]
fn lora_defaults() {
    let c = LoRaConfig::default();
    assert_eq!(c.preamble_length, 8);
    assert_eq!(c.header_type, LoRaHeader::Explicit);
    assert_eq!(c.payload_length, 255);
    assert_eq!(c.crc_mode, LoRaCrc::Enabled);
    assert_eq!(c.invert_iq, LoRaIq::Inverted);
}

#[test]
fn get_bw_hz() {
    assert_eq!(LoRaBandwidth::Bw200kHz.get_bw_hz(), 203_125);
    assert_eq!(LoRaBandwidth::Bw400kHz.get_bw_hz(), 406_250);
    assert_eq!(LoRaBandwidth::Bw800kHz.get_bw_hz(), 812_500);
    assert_eq!(LoRaBandwidth::Bw1600kHz.get_bw_hz(), 1_625_000);
}

#[test]
fn set_payload_len_touches_only_length_modes() {
    let mut m = Modem::LoRa(LoRaConfig::default());
    m.set_payload_len(17);
    match m {
        Modem::LoRa(c) => assert_eq!(c.payload_length, 17),
        _ => panic!("variant changed"),
    }
    let mut m = Modem::Unset;
    m.set_payload_len(17);
    assert_eq!(m, Modem::Unset);
}

#[test]
fn channel_frequency_reads_each_variant() {
    let c = Config::gfsk();
    assert_eq!(c.channel.frequency(), 2_440_000_000);
    let c = Config::flrc();
    assert_eq!(c.channel.frequency(), 2_440_000_000);
    assert!(FREQ_MIN <= c.channel.frequency() && c.channel.frequency() <= FREQ_MAX);
}

#[test]
fn frequency_step_conversion_round_trip() {
    // Encoding 2.44 GHz on the 52 MHz crystal, then decoding the truncated
    // step count, reproduces the frequency to within one step quantum.
    let c = Config::default();
    let steps = c.freq_to_steps(2_440_000_000);
    assert_eq!(steps, 12_300_603);
    assert!(steps < 0x1000000);
    let decoded = (steps as u64) * (c.xtal_freq as u64) / 0x40000;
    let quantum = c.freq_step();
    assert_eq!(quantum, 198);
    assert!(decoded <= 2_440_000_000);
    assert!(2_440_000_000 - decoded <= quantum as u64 + 1);
}

#[test]
fn timeout_step_and_count() {
    assert_eq!(Timeout::Single.count(), 0x0000);
    assert_eq!(Timeout::Continuous.count(), 0xFFFF);
    let t = Timeout::Configurable {
        step: radio_sx128x::device::TickSize::TickSize4000us,
        count: 0xABCD,
    };
    assert_eq!(t.count(), 0xABCD);
    assert_eq!(t.step().value(), 0x03);
    assert_eq!(Timeout::Single.step().value(), 0x00);
    assert_eq!(Timeout::Continuous.step().value(), 0x00);
}

#[test]
fn irq_flag_operations() {
    let irq = Irq::from_bits_truncate(0x4041);
    assert!(irq.contains(IRQ_TX_DONE));
    assert!(!irq.contains(IRQ_RX_DONE));
    assert!(!irq.is_empty());
    assert_eq!(irq.bits(), 0x4041);
    assert!(Irq::empty().is_empty());
}

#[test]
fn flag_registers_truncate_unknown_bits() {
    // Every bit of the packet status byte is a defined flag.
    assert_eq!(PacketStatus::from_bits_truncate(0xFF).bits, 0xFF);
    // Only two TxRx status bits are documented.
    assert_eq!(TxRxStatus::from_bits_truncate(0xFF).bits, 0x21);
    assert_eq!(SyncAddrStatus::from_bits_truncate(0xFF).bits, 0x40);
    assert_eq!(CalibrationParams::from_bits_truncate(0xFF).bits, 0x3F);
    assert_eq!(CalibrationParams::default().bits, 0x3F);
    assert!(PacketStatus::from_bits_truncate(0x42).contains(0x40));
    assert!(!TxRxStatus::from_bits_truncate(0x42).contains(0x40));
}
