//! Tests of the pin-level protocol layer: the reset vector, the busy-wait
//! bracket around every transaction, the wire prefixes, and the bounded busy
//! timeout.

use radio_sx128x::base::{read_reg, update_reg, wait_busy, write_reg, Base};
use radio_sx128x::device::RampTime;
use radio_sx128x::mock::{MockPort, PortEventRec};
use radio_sx128x::{Error, Sx128x};

#[test]
fn test_api_reset() {
    let port = MockPort::new();
    let base = Base::new(port);
    let mut radio = Sx128x::build(base);
    radio.reset().unwrap();
    let evs = radio.hal().port.events();
    assert_eq!(
        evs,
        &vec![
            PortEventRec::DelayMs { ms: 20 },
            PortEventRec::SdnSet { high: false },
            PortEventRec::DelayMs { ms: 50 },
            PortEventRec::SdnSet { high: true },
            PortEventRec::DelayMs { ms: 20 },
        ]
    );
}

#[test]
fn test_api_power_ramp() {
    // The power/ramp write must emit SetTxParams with the encoded power byte
    // and the raw ramp value, after confirming the busy pin low.
    let port = MockPort::new();
    let base = Base::new(port);
    let mut radio = Sx128x::build(base);
    radio.set_power_ramp(13, RampTime::Ramp20Us).unwrap();
    let evs = radio.hal().port.events();
    assert_eq!(
        evs,
        &vec![
            PortEventRec::BusyRead { busy: false },
            PortEventRec::SpiWrite { prefix: vec![0x8E], data: vec![0x1F, 0xE0] },
            PortEventRec::BusyRead { busy: false },
        ]
    );
}

#[test]
fn test_api_status() {
    let port = MockPort::new();
    let base = Base::new(port);
    let mut radio = Sx128x::build(base);
    radio.get_state().unwrap();
    let evs = radio.hal().port.events();
    assert_eq!(
        evs,
        &vec![
            PortEventRec::BusyRead { busy: false },
            PortEventRec::SpiRead { prefix: vec![0xC0, 0x00], data: vec![0x00] },
            PortEventRec::BusyRead { busy: false },
        ]
    );
}

#[test]
fn test_api_firmware_version() {
    let mut port = MockPort::new();
    port.push_read_response(vec![0x00, 0x10]);
    let base = Base::new(port);
    let mut radio = Sx128x::build(base);
    let version = radio.firmware_version().unwrap();
    assert_eq!(version, 16);
    let evs = radio.hal().port.events();
    // ReadRegister opcode, big-endian firmware version address, dummy byte.
    assert_eq!(
        evs,
        &vec![
            PortEventRec::BusyRead { busy: false },
            PortEventRec::SpiRead { prefix: vec![0x19, 0x01, 0x53, 0x00], data: vec![0x00, 0x10] },
            PortEventRec::BusyRead { busy: false },
        ]
    );
}

#[test]
fn busy_wait_polls_until_low() {
    let mut port = MockPort::new();
    port.set_busy_high(2);
    let result = wait_busy(&mut port);
    assert!(result.is_ok());
    assert_eq!(
        port.events(),
        &vec![
            PortEventRec::BusyRead { busy: true },
            PortEventRec::DelayMs { ms: 1 },
            PortEventRec::BusyRead { busy: true },
            PortEventRec::DelayMs { ms: 1 },
            PortEventRec::BusyRead { busy: false },
        ]
    );
}

#[test]
fn busy_wait_times_out_on_stuck_pin() {
    let mut port = MockPort::new();
    port.set_busy_high(1000);
    assert_eq!(wait_busy(&mut port), Err(Error::BusyTimeout));
    // 501 failed polls, each followed by a one-millisecond wait.
    assert_eq!(port.events().len(), 1002);
}

#[test]
fn write_transaction_brackets_busy_wait() {
    let mut port = MockPort::new();
    port.set_busy_high(1);
    let base = Base::new(port);
    let mut radio = Sx128x::build(base);
    radio.set_buff_base_addr(4, 5).unwrap();
    assert_eq!(
        radio.hal().port.events(),
        &vec![
            PortEventRec::BusyRead { busy: true },
            PortEventRec::DelayMs { ms: 1 },
            PortEventRec::BusyRead { busy: false },
            PortEventRec::SpiWrite { prefix: vec![0x8F], data: vec![4, 5] },
            PortEventRec::BusyRead { busy: false },
        ]
    );
}

#[test]
fn register_write_prefix_is_big_endian() {
    let port = MockPort::new();
    let mut base = Base::new(port);
    write_reg(&mut base, 0x09CE, 0xAA).unwrap();
    assert_eq!(
        base.port.events(),
        &vec![
            PortEventRec::BusyRead { busy: false },
            PortEventRec::SpiWrite { prefix: vec![0x18, 0x09, 0xCE], data: vec![0xAA] },
            PortEventRec::BusyRead { busy: false },
        ]
    );
}

#[test]
fn register_read_prefix_has_dummy_byte() {
    let mut port = MockPort::new();
    port.push_read_response(vec![0x5A]);
    let mut base = Base::new(port);
    let v = read_reg(&mut base, 0x0901).unwrap();
    assert_eq!(v, 0x5A);
    assert_eq!(
        base.port.events(),
        &vec![
            PortEventRec::BusyRead { busy: false },
            PortEventRec::SpiRead { prefix: vec![0x19, 0x09, 0x01, 0x00], data: vec![0x5A] },
            PortEventRec::BusyRead { busy: false },
        ]
    );
}

#[test]
fn update_reg_keeps_bits_outside_mask() {
    let mut port = MockPort::new();
    port.push_read_response(vec![0xAB]);
    let mut base = Base::new(port);
    let updated = update_reg(&mut base, 0x09CD, 0x0F, 0x05).unwrap();
    assert_eq!(updated, 0xA5);
    let evs = base.port.events();
    assert_eq!(evs.len(), 6);
    assert_eq!(
        evs[4],
        PortEventRec::SpiWrite { prefix: vec![0x18, 0x09, 0xCD], data: vec![0xA5] }
    );
}

#[test]
fn buffer_write_and_read_prefixes() {
    let mut port = MockPort::new();
    port.push_read_response(vec![9, 8, 7]);
    let base = Base::new(port);
    let mut radio = Sx128x::build(base);
    let payload = vec![1, 2, 3];
    radio.start_transmit(&payload).unwrap();
    let evs = radio.hal().port.events().clone();
    // The payload write stands somewhere in the transmit-start sequence with
    // the write-buffer opcode and a zero offset.
    assert!(evs.contains(&PortEventRec::SpiWrite { prefix: vec![0x1A, 0x00], data: vec![1, 2, 3] }));
}

#[test]
fn full_configure_over_byte_level_stack() {
    // Drive a complete configuration through the protocol layer and check
    // the raw SPI stream: every transaction busy-bracketed, in order.
    let port = MockPort::new();
    let base = Base::new(port);
    let mut radio = Sx128x::build(base);
    radio
        .configure(&radio_sx128x::device::Config::gfsk())
        .unwrap();
    let evs = radio.hal().port.events();
    let writes: Vec<(Vec<u8>, Vec<u8>)> = evs
        .iter()
        .filter_map(|e| match e {
            PortEventRec::SpiWrite { prefix, data } => Some((prefix.clone(), data.clone())),
            _ => None,
        })
        .collect();
    assert_eq!(
        writes,
        vec![
            (vec![0x80], vec![0x00]),
            (vec![0x86], vec![0xBB, 0xB1, 0x3B]),
            (vec![0x8A], vec![0x00]),
            (vec![0x8B], vec![0xC7, 0x00, 0x00]),
            (vec![0x8C], vec![0x70, 0x08, 0x10, 0x20, 0xFF, 0x00, 0x08]),
            (vec![0x8E], vec![0x1C, 0xE0]),
        ]
    );
    // Six transactions, each bracketed by a leading and a trailing busy
    // sample on an idle pin.
    assert_eq!(evs.len(), 18);
    assert_eq!(evs[0], PortEventRec::BusyRead { busy: false });
    assert_eq!(evs[2], PortEventRec::BusyRead { busy: false });
}
