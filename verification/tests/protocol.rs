//! Byte-level protocol tests against a recording bus double.

use multimidi::bus::Mcp4728I2c;
use multimidi::mcp4728::{Mcp4728, Mcp4728Error};
use multimidi::port::{BusEvent, SimPort};

const SYSCLK: u32 = 192_000_000;
const BUS_HZ: u32 = 100_000;
// SYSCLK / BUS_HZ / 20 = 96 cycles per bit period.
const Q: u32 = 24;
const H: u32 = 48;

fn push_bit_write(ev: &mut Vec<BusEvent>, bit: bool, q: u32, h: u32) {
    ev.push(BusEvent::Sda(bit));
    ev.push(BusEvent::Wait(q));
    ev.push(BusEvent::Scl(true));
    ev.push(BusEvent::Wait(h));
    ev.push(BusEvent::Scl(false));
    ev.push(BusEvent::Wait(q));
    ev.push(BusEvent::Sda(false));
}

fn push_byte_write(ev: &mut Vec<BusEvent>, data: u8, q: u32, h: u32) {
    for offset in (0..8).rev() {
        push_bit_write(ev, data & (1 << offset) != 0, q, h);
    }
}

fn push_ack(ev: &mut Vec<BusEvent>, level: bool, h: u32) {
    ev.push(BusEvent::Sda(true));
    ev.push(BusEvent::Scl(true));
    ev.push(BusEvent::Wait(h));
    ev.push(BusEvent::Read(level));
    ev.push(BusEvent::Scl(false));
    ev.push(BusEvent::Sda(true));
    ev.push(BusEvent::Wait(h));
}

fn push_start(ev: &mut Vec<BusEvent>, addr: u8, read: bool, level: bool, q: u32, h: u32) {
    ev.push(BusEvent::Scl(true));
    ev.push(BusEvent::Sda(true));
    ev.push(BusEvent::Wait(h));
    ev.push(BusEvent::Sda(false));
    ev.push(BusEvent::Wait(h));
    ev.push(BusEvent::Scl(false));
    ev.push(BusEvent::Wait(q));
    push_byte_write(ev, (addr << 1) | if read { 1 } else { 0 }, q, h);
    push_ack(ev, level, h);
}

fn push_stop(ev: &mut Vec<BusEvent>, h: u32) {
    ev.push(BusEvent::Scl(true));
    ev.push(BusEvent::Wait(h));
    ev.push(BusEvent::Sda(true));
    ev.push(BusEvent::Wait(h));
}

fn push_read_byte(ev: &mut Vec<BusEvent>, data: u8, ack: bool, h: u32) {
    ev.push(BusEvent::Sda(true));
    for offset in (0..8).rev() {
        ev.push(BusEvent::Scl(true));
        ev.push(BusEvent::Wait(h));
        ev.push(BusEvent::Read(data & (1 << offset) != 0));
        ev.push(BusEvent::Scl(false));
        ev.push(BusEvent::Wait(h));
    }
    ev.push(BusEvent::Sda(!ack));
    ev.push(BusEvent::Scl(true));
    ev.push(BusEvent::Wait(h));
    ev.push(BusEvent::Scl(false));
    ev.push(BusEvent::Sda(false));
    ev.push(BusEvent::Wait(h));
}

fn push_channel_write(ev: &mut Vec<BusEvent>, addr: u8, channel: u8, value: u16, q: u32, h: u32) {
    push_start(ev, addr, false, false, q, h);
    push_byte_write(ev, 0x40 | (channel << 1), q, h);
    push_ack(ev, false, h);
    push_byte_write(ev, 0x80 | (((value >> 8) as u8) & 0x0F), q, h);
    push_ack(ev, false, h);
    push_byte_write(ev, (value & 0xFF) as u8, q, h);
    push_ack(ev, false, h);
    push_stop(ev, h);
}

/// The readback byte of a chip whose 3-bit address is `selector`: two
/// matching copies plus the `10` check-bit pattern.
fn readback_byte(selector: u8) -> u8 {
    (selector << 5) | (selector << 1) | 0x10
}

/// The data-line levels a fully cooperating chip produces during one device
/// construction that needs no readdressing: three acknowledgments during
/// discovery, the readback byte's bits, and sixteen acknowledgments for the
/// four zeroing channel writes.
fn device_script(readback: u8) -> Vec<bool> {
    let mut s = vec![false, false, false];
    for offset in (0..8).rev() {
        s.push(readback & (1 << offset) != 0);
    }
    for _ in 0..16 {
        s.push(false);
    }
    s
}

/// One successful device construction at its target address, as events.
fn push_device_init(ev: &mut Vec<BusEvent>, chip: usize, selector: u8, q: u32, h: u32) {
    let readback = readback_byte(selector);
    ev.push(BusEvent::Latch(chip, true));
    ev.push(BusEvent::Latch(chip, true));
    push_start(ev, 0x00, false, false, q, h);
    push_byte_write(ev, 0x0C, q, h);
    ev.push(BusEvent::Latch(chip, false));
    push_ack(ev, false, h);
    push_start(ev, 0x60, true, false, q, h);
    push_read_byte(ev, readback, false, h);
    ev.push(BusEvent::Latch(chip, true));
    for channel in 0..4u8 {
        push_channel_write(ev, 0x60 | selector, channel, 0, q, h);
    }
    ev.push(BusEvent::Latch(chip, false));
    ev.push(BusEvent::Wait(h));
    ev.push(BusEvent::Latch(chip, true));
}

#[test]
fn set_channel_emits_exact_bytes() {
    let mut script = device_script(readback_byte(1));
    script.extend(vec![false, false, false, false]);
    let mut i2c = Mcp4728I2c::new(SimPort::new(script), SYSCLK, BUS_HZ);
    let mut dev = Mcp4728::new(0, 0x1, &mut i2c).unwrap();
    let base = i2c.port().log().len();
    dev.set_channel(&mut i2c, 2, 0xABC).unwrap();
    let mut expected = Vec::new();
    push_channel_write(&mut expected, 0x61, 2, 0xABC, Q, H);
    assert_eq!(&i2c.port().log()[base..], &expected[..]);
}

#[test]
fn set_channel_extreme_values() {
    let mut script = device_script(readback_byte(3));
    script.extend(vec![false; 8]);
    let mut i2c = Mcp4728I2c::new(SimPort::new(script), SYSCLK, BUS_HZ);
    let mut dev = Mcp4728::new(2, 0x3, &mut i2c).unwrap();
    let base = i2c.port().log().len();
    dev.set_channel(&mut i2c, 0, 0).unwrap();
    dev.set_channel(&mut i2c, 3, 4095).unwrap();
    let mut expected = Vec::new();
    // 0x40 | (0 << 1), 0x80 | 0x0, 0x00
    push_channel_write(&mut expected, 0x63, 0, 0, Q, H);
    // 0x40 | (3 << 1) = 0x46, 0x80 | 0xF = 0x8F, 0xFF
    push_channel_write(&mut expected, 0x63, 3, 4095, Q, H);
    assert_eq!(&i2c.port().log()[base..], &expected[..]);
}

#[test]
fn set_channel_rejects_out_of_range() {
    let script = device_script(readback_byte(1));
    let mut i2c = Mcp4728I2c::new(SimPort::new(script), SYSCLK, BUS_HZ);
    let mut dev = Mcp4728::new(0, 0x1, &mut i2c).unwrap();
    let base = i2c.port().log().len();
    assert_eq!(dev.set_channel(&mut i2c, 4, 100), Err(Mcp4728Error::OutOfRange));
    assert_eq!(dev.set_channel(&mut i2c, 0, 4096), Err(Mcp4728Error::OutOfRange));
    assert_eq!(dev.set_channel(&mut i2c, 7, 9999), Err(Mcp4728Error::OutOfRange));
    assert_eq!(i2c.port().log().len(), base);
}

#[test]
fn decode_readback_accepts_consistent_bytes() {
    // copies agree at 101 and the check bits read 10
    assert_eq!(Mcp4728::decode_readback(0xBA), Ok(0x65));
    // copies agree at 001
    assert_eq!(Mcp4728::decode_readback(0x32), Ok(0x61));
    // copies agree at 000
    assert_eq!(Mcp4728::decode_readback(0x10), Ok(0x60));
    // copies agree at 111
    assert_eq!(Mcp4728::decode_readback(0xFE), Ok(0x67));
}

#[test]
fn decode_readback_rejects_inconsistent_bytes() {
    // copies disagree (101 versus 001) and the check bits read 00
    assert_eq!(Mcp4728::decode_readback(0xA2), Err(Mcp4728Error::AddressMismatch));
    // copies disagree, check bits fine
    assert_eq!(Mcp4728::decode_readback(0xB2), Err(Mcp4728Error::AddressMismatch));
    // copies agree but the check bits read 11
    assert_eq!(Mcp4728::decode_readback(0xBB), Err(Mcp4728Error::AddressMismatch));
    // copies agree but the check bits read 00
    assert_eq!(Mcp4728::decode_readback(0xAA), Err(Mcp4728Error::AddressMismatch));
}

#[test]
fn start_without_ack_fails_and_stops() {
    let mut i2c = Mcp4728I2c::new(SimPort::new(Vec::new()), SYSCLK, BUS_HZ);
    assert_eq!(i2c.start(0x60, false), Err(Mcp4728Error::NoAck));
    let mut expected = vec![BusEvent::Scl(true), BusEvent::Sda(true)];
    push_start(&mut expected, 0x60, false, true, Q, H);
    assert_eq!(i2c.port().log(), &expected);
}

#[test]
fn no_byte_follows_a_missing_ack() {
    // The chip acknowledges the broadcast, then goes silent: the readback
    // command is the last byte on the wire, nothing follows its failed check.
    let mut i2c = Mcp4728I2c::new(SimPort::new(vec![false]), SYSCLK, BUS_HZ);
    assert!(matches!(Mcp4728::new(0, 0x1, &mut i2c), Err(Mcp4728Error::NoAck)));
    let mut expected = vec![BusEvent::Scl(true), BusEvent::Sda(true)];
    expected.push(BusEvent::Latch(0, true));
    expected.push(BusEvent::Latch(0, true));
    push_start(&mut expected, 0x00, false, false, Q, H);
    push_byte_write(&mut expected, 0x0C, Q, H);
    expected.push(BusEvent::Latch(0, false));
    push_ack(&mut expected, true, H);
    assert_eq!(i2c.port().log(), &expected);
}

#[test]
fn missing_ack_mid_channel_write_stops_the_transaction() {
    // Construction succeeds; the chip then acknowledges the start and the
    // command byte of a channel write but not the high value byte.
    let mut script = device_script(readback_byte(2));
    script.extend(vec![false, false]);
    let mut i2c = Mcp4728I2c::new(SimPort::new(script), SYSCLK, BUS_HZ);
    let mut dev = Mcp4728::new(1, 0x2, &mut i2c).unwrap();
    let base = i2c.port().log().len();
    assert_eq!(dev.set_channel(&mut i2c, 1, 0x123), Err(Mcp4728Error::NoAck));
    let mut expected = Vec::new();
    push_start(&mut expected, 0x62, false, false, Q, H);
    push_byte_write(&mut expected, 0x42, Q, H);
    push_ack(&mut expected, false, H);
    push_byte_write(&mut expected, 0x81, Q, H);
    push_ack(&mut expected, true, H);
    assert_eq!(&i2c.port().log()[base..], &expected[..]);
}

#[test]
fn construction_trace_without_readdressing() {
    let mut i2c = Mcp4728I2c::new(
        SimPort::new(device_script(readback_byte(4))),
        SYSCLK,
        BUS_HZ,
    );
    let dev = Mcp4728::new(3, 0x4, &mut i2c);
    assert!(dev.is_ok());
    let mut expected = vec![BusEvent::Scl(true), BusEvent::Sda(true)];
    push_device_init(&mut expected, 3, 4, Q, H);
    assert_eq!(i2c.port().log(), &expected);
}

#[test]
fn construction_readdresses_a_mismatched_chip() {
    // The chip reports address 0x60 (selector 0) but selector 1 is wanted:
    // the two-step readdressing sequence must appear, then the four zeroing
    // channel writes against the new address.
    let readback = readback_byte(0);
    let mut script = vec![false, false, false];
    for offset in (0..8).rev() {
        script.push(readback & (1 << offset) != 0);
    }
    script.extend(vec![false; 4]); // readdressing acknowledgments
    script.extend(vec![false; 16]); // zeroing writes
    let mut i2c = Mcp4728I2c::new(SimPort::new(script), SYSCLK, BUS_HZ);
    let dev = Mcp4728::new(0, 0x1, &mut i2c);
    assert!(dev.is_ok());
    let mut expected = vec![BusEvent::Scl(true), BusEvent::Sda(true)];
    expected.push(BusEvent::Latch(0, true));
    expected.push(BusEvent::Latch(0, true));
    push_start(&mut expected, 0x00, false, false, Q, H);
    push_byte_write(&mut expected, 0x0C, Q, H);
    expected.push(BusEvent::Latch(0, false));
    push_ack(&mut expected, false, H);
    push_start(&mut expected, 0x60, true, false, Q, H);
    push_read_byte(&mut expected, readback, false, H);
    expected.push(BusEvent::Latch(0, true));
    // readdressing from 0x60 to 0x61
    expected.push(BusEvent::Latch(0, true));
    push_start(&mut expected, 0x60, false, false, Q, H);
    push_byte_write(&mut expected, 0x61, Q, H); // 0x61 | ((0x60 & 7) << 2)
    expected.push(BusEvent::Latch(0, false));
    push_ack(&mut expected, false, H);
    push_byte_write(&mut expected, 0x66, Q, H); // 0x62 | ((0x61 & 7) << 2)
    push_ack(&mut expected, false, H);
    push_byte_write(&mut expected, 0x67, Q, H); // 0x63 | ((0x61 & 7) << 2)
    push_ack(&mut expected, false, H);
    push_stop(&mut expected, H);
    expected.push(BusEvent::Latch(0, true));
    for channel in 0..4u8 {
        push_channel_write(&mut expected, 0x61, channel, 0, Q, H);
    }
    expected.push(BusEvent::Latch(0, false));
    expected.push(BusEvent::Wait(H));
    expected.push(BusEvent::Latch(0, true));
    assert_eq!(i2c.port().log(), &expected);
}

#[test]
fn construction_rejects_corrupted_readback() {
    let mut script = vec![false, false, false];
    for offset in (0..8).rev() {
        script.push(0xA2 & (1 << offset) != 0);
    }
    let mut i2c = Mcp4728I2c::new(SimPort::new(script), SYSCLK, BUS_HZ);
    assert!(matches!(Mcp4728::new(0, 0x1, &mut i2c), Err(Mcp4728Error::AddressMismatch)));
}

#[test]
fn bus_timing_scales_with_clock_ratio() {
    // 16 MHz over 100 kHz gives 8 cycles per bit period: quarter 2, half 4.
    let mut i2c = Mcp4728I2c::new(SimPort::new(Vec::new()), 16_000_000, BUS_HZ);
    assert_eq!(i2c.start(0x60, false), Err(Mcp4728Error::NoAck));
    let mut expected = vec![BusEvent::Scl(true), BusEvent::Sda(true)];
    push_start(&mut expected, 0x60, false, true, 2, 4);
    assert_eq!(i2c.port().log(), &expected);
}
