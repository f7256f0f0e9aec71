//! Panel-level tests: construction, voice/role mapping, end-to-end traces.

use multimidi::cv::{Cv, CvPanel};
use multimidi::mcp4728::Mcp4728Error;
use multimidi::port::{BusEvent, SimPort};

const SYSCLK: u32 = 192_000_000;
// SYSCLK / 100 kHz / 20 = 96 cycles per bit period.
const Q: u32 = 24;
const H: u32 = 48;

fn push_bit_write(ev: &mut Vec<BusEvent>, bit: bool) {
    ev.push(BusEvent::Sda(bit));
    ev.push(BusEvent::Wait(Q));
    ev.push(BusEvent::Scl(true));
    ev.push(BusEvent::Wait(H));
    ev.push(BusEvent::Scl(false));
    ev.push(BusEvent::Wait(Q));
    ev.push(BusEvent::Sda(false));
}

fn push_byte_write(ev: &mut Vec<BusEvent>, data: u8) {
    for offset in (0..8).rev() {
        push_bit_write(ev, data & (1 << offset) != 0);
    }
}

fn push_ack(ev: &mut Vec<BusEvent>, level: bool) {
    ev.push(BusEvent::Sda(true));
    ev.push(BusEvent::Scl(true));
    ev.push(BusEvent::Wait(H));
    ev.push(BusEvent::Read(level));
    ev.push(BusEvent::Scl(false));
    ev.push(BusEvent::Sda(true));
    ev.push(BusEvent::Wait(H));
}

fn push_start(ev: &mut Vec<BusEvent>, addr: u8, read: bool, level: bool) {
    ev.push(BusEvent::Scl(true));
    ev.push(BusEvent::Sda(true));
    ev.push(BusEvent::Wait(H));
    ev.push(BusEvent::Sda(false));
    ev.push(BusEvent::Wait(H));
    ev.push(BusEvent::Scl(false));
    ev.push(BusEvent::Wait(Q));
    push_byte_write(ev, (addr << 1) | if read { 1 } else { 0 });
    push_ack(ev, level);
}

fn push_stop(ev: &mut Vec<BusEvent>) {
    ev.push(BusEvent::Scl(true));
    ev.push(BusEvent::Wait(H));
    ev.push(BusEvent::Sda(true));
    ev.push(BusEvent::Wait(H));
}

fn push_read_byte(ev: &mut Vec<BusEvent>, data: u8, ack: bool) {
    ev.push(BusEvent::Sda(true));
    for offset in (0..8).rev() {
        ev.push(BusEvent::Scl(true));
        ev.push(BusEvent::Wait(H));
        ev.push(BusEvent::Read(data & (1 << offset) != 0));
        ev.push(BusEvent::Scl(false));
        ev.push(BusEvent::Wait(H));
    }
    ev.push(BusEvent::Sda(!ack));
    ev.push(BusEvent::Scl(true));
    ev.push(BusEvent::Wait(H));
    ev.push(BusEvent::Scl(false));
    ev.push(BusEvent::Sda(false));
    ev.push(BusEvent::Wait(H));
}

fn push_channel_write(ev: &mut Vec<BusEvent>, addr: u8, channel: u8, value: u16) {
    push_start(ev, addr, false, false);
    push_byte_write(ev, 0x40 | (channel << 1));
    push_ack(ev, false);
    push_byte_write(ev, 0x80 | (((value >> 8) as u8) & 0x0F));
    push_ack(ev, false);
    push_byte_write(ev, (value & 0xFF) as u8);
    push_ack(ev, false);
    push_stop(ev);
}

fn readback_byte(selector: u8) -> u8 {
    (selector << 5) | (selector << 1) | 0x10
}

fn device_script(readback: u8) -> Vec<bool> {
    let mut s = vec![false, false, false];
    for offset in (0..8).rev() {
        s.push(readback & (1 << offset) != 0);
    }
    for _ in 0..16 {
        s.push(false);
    }
    s
}

fn push_device_init(ev: &mut Vec<BusEvent>, chip: usize, selector: u8) {
    ev.push(BusEvent::Latch(chip, true));
    ev.push(BusEvent::Latch(chip, true));
    push_start(ev, 0x00, false, false);
    push_byte_write(ev, 0x0C);
    ev.push(BusEvent::Latch(chip, false));
    push_ack(ev, false);
    push_start(ev, 0x60, true, false);
    push_read_byte(ev, readback_byte(selector), false);
    ev.push(BusEvent::Latch(chip, true));
    for channel in 0..4u8 {
        push_channel_write(ev, 0x60 | selector, channel, 0);
    }
    ev.push(BusEvent::Latch(chip, false));
    ev.push(BusEvent::Wait(H));
    ev.push(BusEvent::Latch(chip, true));
}

/// The read script of a panel whose four chips already sit at their target
/// addresses, plus `extra` further acknowledgments for traffic after
/// construction.
fn panel_script(extra: usize) -> Vec<bool> {
    let mut script = Vec::new();
    for selector in 1..5u8 {
        script.extend(device_script(readback_byte(selector)));
    }
    for _ in 0..extra {
        script.push(false);
    }
    script
}

/// The expected construction trace of that panel: no readdressing sequence
/// anywhere, four zero-value channel writes per chip.
fn panel_init_events() -> Vec<BusEvent> {
    let mut ev = vec![
        BusEvent::Latch(0, true),
        BusEvent::Latch(1, true),
        BusEvent::Latch(2, true),
        BusEvent::Latch(3, true),
        BusEvent::Scl(true),
        BusEvent::Sda(true),
    ];
    for voice in 0..4usize {
        push_device_init(&mut ev, voice, voice as u8 + 1);
    }
    ev
}

#[test]
fn panel_construction_emits_full_discovery_and_zeroing() {
    let panel = CvPanel::new(SimPort::new(panel_script(0)), SYSCLK).unwrap();
    assert_eq!(panel.port().log(), &panel_init_events());
}

#[test]
fn panel_construction_fails_on_silent_bus() {
    // Nothing ever acknowledges: construction stops at the very first
    // missing acknowledgment, with no byte transmitted after it.
    let result = CvPanel::new(SimPort::new(Vec::new()), SYSCLK);
    assert!(matches!(result, Err(Mcp4728Error::NoAck)));
}

#[test]
fn output_handles_resolve_to_distinct_pairs() {
    let mut panel = CvPanel::new(SimPort::new(panel_script(64)), SYSCLK).unwrap();
    let mut pairs: Vec<(u8, u8)> = Vec::new();
    for voice in 0..4usize {
        let handles: Vec<Cv> = vec![
            panel.gate(voice).unwrap(),
            panel.pitch(voice).unwrap(),
            panel.aux1(voice).unwrap(),
            panel.aux2(voice).unwrap(),
        ];
        for (role, handle) in handles.iter().enumerate() {
            let base = panel.port().log().len();
            handle.set(&mut panel, 1000).unwrap();
            // gate, pitch, aux1, aux2 map to channels 3, 2, 1, 0 of the
            // voice's own chip
            let expected_channel = 3 - role as u8;
            let expected_addr = 0x60 | (voice as u8 + 1);
            let mut expected = Vec::new();
            push_channel_write(&mut expected, expected_addr, expected_channel, 1000);
            assert_eq!(&panel.port().log()[base..], &expected[..]);
            pairs.push((expected_addr, expected_channel));
        }
    }
    for i in 0..pairs.len() {
        for j in 0..i {
            assert_ne!(pairs[i], pairs[j]);
        }
    }
}

#[test]
fn out_of_range_voice_is_rejected_without_bus_activity() {
    let panel = CvPanel::new(SimPort::new(panel_script(0)), SYSCLK).unwrap();
    let base = panel.port().log().len();
    assert!(panel.gate(4).is_none());
    assert!(panel.pitch(4).is_none());
    assert!(panel.aux1(5).is_none());
    assert!(panel.aux2(100).is_none());
    assert_eq!(panel.port().log().len(), base);
}

#[test]
fn out_of_range_value_is_rejected_without_bus_activity() {
    let mut panel = CvPanel::new(SimPort::new(panel_script(0)), SYSCLK).unwrap();
    let handle = panel.pitch(1).unwrap();
    let base = panel.port().log().len();
    assert_eq!(handle.set(&mut panel, 4096), Err(Mcp4728Error::OutOfRange));
    assert_eq!(handle.set(&mut panel, u16::MAX), Err(Mcp4728Error::OutOfRange));
    assert_eq!(panel.port().log().len(), base);
}

#[test]
fn handle_set_emits_one_transaction() {
    let mut panel = CvPanel::new(SimPort::new(panel_script(4)), SYSCLK).unwrap();
    let handle = panel.gate(3).unwrap();
    let base = panel.port().log().len();
    handle.set(&mut panel, 4095).unwrap();
    let mut expected = Vec::new();
    push_channel_write(&mut expected, 0x64, 3, 4095);
    assert_eq!(&panel.port().log()[base..], &expected[..]);
}
