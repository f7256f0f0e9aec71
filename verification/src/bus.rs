//! Software-emulated two-wire serial bus master.
//!
//! Both lines idle high. A byte is transmitted most-significant bit first;
//! for each bit the data line is set, the clock is raised for a half-bit
//! delay and lowered again, with quarter-bit delays around it. The receiver
//! acknowledges a byte by pulling the data line low while the master pulses
//! the clock once more. The two delays are derived once, at construction,
//! from the ratio of the system clock frequency to the target bus frequency;
//! the divisor of twenty absorbs the fixed overhead of the bit-banging loop
//! itself and is a calibrated constant.
//!
//! Every operation's contract states the exact sequence of line transitions,
//! samples and waits it appends to the port's event history.

use vstd::arithmetic::div_mod::{
    lemma_div_is_ordered, lemma_div_multiples_vanish, lemma_div_multiples_vanish_fancy,
    lemma_div_pos_is_pos, lemma_fundamental_div_mod,
};
use vstd::prelude::*;

use crate::mcp4728::Mcp4728Error;
use crate::port::{BusEvent, DacPort};

verus! {

/// Whether the bit at the given offset (0 = least significant) is set.
pub open spec fn bit_of(data: u8, offset: u8) -> bool {
    data & (1u8 << offset) != 0
}

/// The raw spin count one bit period is divided from: system clock cycles
/// per bus-clock period, with the calibration divisor of twenty applied.
pub open spec fn spec_bit_cycles(sysclk_hz: u32, bus_hz: u32) -> u32
    recommends
        bus_hz > 0,
{
    sysclk_hz / bus_hz / 20
}

/// The quarter-bit busy-wait, in system clock cycles.
pub open spec fn spec_quarter_delay(sysclk_hz: u32, bus_hz: u32) -> u32
    recommends
        bus_hz > 0,
{
    spec_bit_cycles(sysclk_hz, bus_hz) / 4
}

/// The half-bit busy-wait, in system clock cycles.
pub open spec fn spec_half_delay(sysclk_hz: u32, bus_hz: u32) -> u32
    recommends
        bus_hz > 0,
{
    spec_bit_cycles(sysclk_hz, bus_hz) / 2
}

/// The events that transmit one bit: data set up, quarter wait, clock pulse
/// of a half wait, quarter wait, data released low.
pub open spec fn bit_write_trace(bit: bool, q: u32, h: u32) -> Seq<BusEvent> {
    seq![
        BusEvent::Sda(bit),
        BusEvent::Wait(q),
        BusEvent::Scl(true),
        BusEvent::Wait(h),
        BusEvent::Scl(false),
        BusEvent::Wait(q),
        BusEvent::Sda(false),
    ]
}

/// The events that transmit the first `k` bits of a byte, most significant
/// first: offsets 7 down to 8 - k.
pub open spec fn byte_write_trace_upto(data: u8, k: int, q: u32, h: u32) -> Seq<BusEvent>
    decreases k,
{
    if k <= 0 {
        Seq::empty()
    } else {
        byte_write_trace_upto(data, k - 1, q, h) + bit_write_trace(
            bit_of(data, (8 - k) as u8),
            q,
            h,
        )
    }
}

/// The events that transmit one whole byte, most significant bit first.
pub open spec fn byte_write_trace(data: u8, q: u32, h: u32) -> Seq<BusEvent> {
    byte_write_trace_upto(data, 8, q, h)
}

/// A byte transmission whose final bit ends with the given chip's latch line
/// pulled low, synchronously with the end of that bit's clock pulse.
pub open spec fn byte_write_latch_trace(data: u8, chip: usize, q: u32, h: u32) -> Seq<BusEvent> {
    byte_write_trace(data, q, h).push(BusEvent::Latch(chip, false))
}

/// The events of one acknowledgment check: data released, clock pulsed, the
/// data line sampled at the given level (low means the device acknowledged).
pub open spec fn ack_check_trace(level: bool, h: u32) -> Seq<BusEvent> {
    seq![
        BusEvent::Sda(true),
        BusEvent::Scl(true),
        BusEvent::Wait(h),
        BusEvent::Read(level),
        BusEvent::Scl(false),
        BusEvent::Sda(true),
        BusEvent::Wait(h),
    ]
}

/// The events that receive one bit: clock raised, the data line sampled at
/// the given level, clock lowered.
pub open spec fn read_bit_trace(level: bool, h: u32) -> Seq<BusEvent> {
    seq![
        BusEvent::Scl(true),
        BusEvent::Wait(h),
        BusEvent::Read(level),
        BusEvent::Scl(false),
        BusEvent::Wait(h),
    ]
}

/// The events that receive the first `k` bits of the given byte, most
/// significant first; each sampled level is that byte's bit.
pub open spec fn read_bits_upto(data: u8, k: int, h: u32) -> Seq<BusEvent>
    decreases k,
{
    if k <= 0 {
        Seq::empty()
    } else {
        read_bits_upto(data, k - 1, h) + read_bit_trace(bit_of(data, (8 - k) as u8), h)
    }
}

/// The events that receive one whole byte: data released, eight bits sampled
/// most significant first, then the data line driven low (more reads follow)
/// or high (last byte) for one further clock pulse, and both lines returned
/// to the post-transfer state.
pub open spec fn read_byte_trace(data: u8, ack: bool, h: u32) -> Seq<BusEvent> {
    seq![BusEvent::Sda(true)] + read_bits_upto(data, 8, h) + seq![
        BusEvent::Sda(!ack),
        BusEvent::Scl(true),
        BusEvent::Wait(h),
        BusEvent::Scl(false),
        BusEvent::Sda(false),
        BusEvent::Wait(h),
    ]
}

/// The 7-bit address with the read/write flag appended as the lowest bit.
pub open spec fn addr_byte(addr: u8, read: bool) -> u8
    recommends
        addr < 128,
{
    (addr << 1) | (if read {
        1u8
    } else {
        0u8
    })
}

/// The events of a start condition: both lines high, data pulled low while
/// the clock stays high, then the clock lowered.
pub open spec fn start_cond_trace(q: u32, h: u32) -> Seq<BusEvent> {
    seq![
        BusEvent::Scl(true),
        BusEvent::Sda(true),
        BusEvent::Wait(h),
        BusEvent::Sda(false),
        BusEvent::Wait(h),
        BusEvent::Scl(false),
        BusEvent::Wait(q),
    ]
}

/// A full start operation: the start condition, the address byte with the
/// read/write flag, and the acknowledgment check sampled at the given level.
pub open spec fn start_trace(addr: u8, read: bool, level: bool, q: u32, h: u32) -> Seq<BusEvent> {
    start_cond_trace(q, h) + byte_write_trace(addr_byte(addr, read), q, h) + ack_check_trace(
        level,
        h,
    )
}

/// The events of a stop condition: clock raised, then data raised.
pub open spec fn stop_trace(h: u32) -> Seq<BusEvent> {
    seq![BusEvent::Scl(true), BusEvent::Wait(h), BusEvent::Sda(true), BusEvent::Wait(h)]
}

/// Bit-banged bus master over a [`DacPort`]. Owns the clock and data lines
/// for the duration of every transaction; nothing else may drive them
/// between a start and the matching stop.
pub struct Mcp4728I2c<P: DacPort> {
    port: P,
    quarter_delay: u32,
    half_delay: u32,
}

impl<P: DacPort> Mcp4728I2c<P> {
    /// The event history of the underlying port.
    pub closed spec fn events(&self) -> Seq<BusEvent> {
        self.port.events()
    }

    /// The calibrated quarter-bit delay.
    pub closed spec fn quarter(&self) -> u32 {
        self.quarter_delay
    }

    /// The calibrated half-bit delay.
    pub closed spec fn half(&self) -> u32 {
        self.half_delay
    }

    /// Take ownership of the lines and derive the two busy-wait delays from
    /// the clock ratio. Both lines are driven to their idle-high level.
    pub fn new(port: P, sysclk_hz: u32, bus_hz: u32) -> (r: Mcp4728I2c<P>)
        requires
            bus_hz > 0,
        ensures
            r.events() == port.events() + seq![BusEvent::Scl(true), BusEvent::Sda(true)],
            r.quarter() == spec_quarter_delay(sysclk_hz, bus_hz),
            r.half() == spec_half_delay(sysclk_hz, bus_hz),
    {
        let cycles = sysclk_hz / bus_hz / 20;
        let mut p = port;
        p.set_scl(true);
        p.set_sda(true);
        let r = Mcp4728I2c { port: p, quarter_delay: cycles / 4, half_delay: cycles / 2 };
        proof {
            assert(r.events() =~= port.events() + seq![
                BusEvent::Scl(true),
                BusEvent::Sda(true),
            ]);
        }
        r
    }

    /// Borrow the underlying port, for inspecting a recording double.
    pub fn port(&self) -> (r: &P)
        ensures
            r.events() == self.events(),
    {
        &self.port
    }

    /// Transmit one byte, most significant bit first. Acknowledgment is not
    /// checked here; the caller follows up with `check_ack` wherever the
    /// protocol expects one.
    pub(crate) fn write_byte(&mut self, data: u8)
        ensures
            final(self).events() == old(self).events() + byte_write_trace(
                data,
                old(self).quarter(),
                old(self).half(),
            ),
            final(self).quarter() == old(self).quarter(),
            final(self).half() == old(self).half(),
    {
        let q = self.quarter_delay;
        let h = self.half_delay;
        let ghost e0 = self.port.events();
        proof {
            assert(e0 + byte_write_trace_upto(data, 0, q, h) =~= e0);
        }
        let mut k: u8 = 0;
        while k < 8
            invariant
                k <= 8,
                self.quarter_delay == q,
                self.half_delay == h,
                self.port.events() == e0 + byte_write_trace_upto(data, k as int, q, h),
            decreases 8 - k,
        {
            let offset: u8 = 7 - k;
            let bit = (data & (1u8 << offset)) != 0;
            self.port.set_sda(bit);
            self.port.spin(q);
            self.port.set_scl(true);
            self.port.spin(h);
            self.port.set_scl(false);
            self.port.spin(q);
            self.port.set_sda(false);
            proof {
                assert(self.port.events() =~= e0 + byte_write_trace_upto(
                    data,
                    k as int + 1,
                    q,
                    h,
                ));
            }
            k = k + 1;
        }
    }

    /// Transmit one byte exactly as `write_byte` does, except that the given
    /// chip's latch line is pulled low at the end of the final bit's clock
    /// pulse. Used only by the address-readback command, which requires the
    /// latch transition to coincide with that last bit.
    pub(crate) fn write_byte_latch(&mut self, data: u8, chip: usize)
        ensures
            final(self).events() == old(self).events() + byte_write_latch_trace(
                data,
                chip,
                old(self).quarter(),
                old(self).half(),
            ),
            final(self).quarter() == old(self).quarter(),
            final(self).half() == old(self).half(),
    {
        self.write_byte(data);
        self.port.set_latch(chip, false);
        proof {
            assert(self.port.events() =~= old(self).events() + byte_write_latch_trace(
                data,
                chip,
                old(self).quarter(),
                old(self).half(),
            ));
        }
    }

    /// Receive one byte, most significant bit first. `should_ack` decides the
    /// level the data line is driven to for the trailing clock pulse: low
    /// signals that more reads follow, high that this was the last byte.
    pub(crate) fn read_byte(&mut self, should_ack: bool) -> (r: u8)
        ensures
            final(self).events() == old(self).events() + read_byte_trace(
                r,
                should_ack,
                old(self).half(),
            ),
            final(self).quarter() == old(self).quarter(),
            final(self).half() == old(self).half(),
    {
        let h = self.half_delay;
        let ghost e0 = self.port.events();
        let mut byte: u8 = 0;
        self.port.set_sda(true);
        proof {
            lemma_zero_has_no_bits();
            assert(self.port.events() =~= e0 + seq![BusEvent::Sda(true)] + read_bits_upto(
                byte,
                0,
                h,
            ));
        }
        let mut k: u8 = 0;
        while k < 8
            invariant
                k <= 8,
                self.quarter_delay == old(self).quarter(),
                self.half_delay == h,
                self.port.events() == e0 + seq![BusEvent::Sda(true)] + read_bits_upto(
                    byte,
                    k as int,
                    h,
                ),
                forall|o: u8| o < 8 - k ==> !bit_of(byte, o),
            decreases 8 - k,
        {
            let offset: u8 = 7 - k;
            self.port.set_scl(true);
            self.port.spin(h);
            let level = self.port.read_sda();
            let ghost prev = byte;
            if level {
                byte = byte | (1u8 << offset);
            }
            self.port.set_scl(false);
            self.port.spin(h);
            proof {
                if level {
                    lemma_or_sets_bit(prev, offset);
                    assert forall|o: u8| o < 8 && o != offset implies bit_of(byte, o) == bit_of(
                        prev,
                        o,
                    ) by {
                        lemma_or_keeps_bit(prev, offset, o);
                    }
                }
                assert(bit_of(byte, offset) == level);
                lemma_read_bits_agree(prev, byte, k as int, h);
                assert(self.port.events() =~= e0 + seq![BusEvent::Sda(true)] + read_bits_upto(
                    byte,
                    k as int + 1,
                    h,
                ));
            }
            k = k + 1;
        }
        if should_ack {
            self.port.set_sda(false);
        } else {
            self.port.set_sda(true);
        }
        self.port.set_scl(true);
        self.port.spin(h);
        self.port.set_scl(false);
        self.port.set_sda(false);
        self.port.spin(h);
        proof {
            assert(self.port.events() =~= e0 + read_byte_trace(byte, should_ack, h));
        }
        byte
    }

    /// Pulse the clock once with the data line released and report whether
    /// the addressed device pulled the data line low.
    fn is_ack(&mut self) -> (r: bool)
        ensures
            final(self).events() == old(self).events() + ack_check_trace(!r, old(self).half()),
            final(self).quarter() == old(self).quarter(),
            final(self).half() == old(self).half(),
    {
        let h = self.half_delay;
        self.port.set_sda(true);
        self.port.set_scl(true);
        self.port.spin(h);
        let level = self.port.read_sda();
        self.port.set_scl(false);
        self.port.set_sda(true);
        self.port.spin(h);
        proof {
            assert(self.port.events() =~= old(self).events() + ack_check_trace(level, h));
        }
        !level
    }

    /// Check for an acknowledgment after a transmitted byte; `NoAck` means
    /// the data line stayed high.
    pub(crate) fn check_ack(&mut self) -> (r: Result<(), Mcp4728Error>)
        ensures
            r is Ok ==> r == Ok::<(), Mcp4728Error>(()) && final(self).events() == old(
                self,
            ).events() + ack_check_trace(false, old(self).half()),
            r is Err ==> r == Err::<(), Mcp4728Error>(Mcp4728Error::NoAck) && final(self).events()
                == old(self).events() + ack_check_trace(true, old(self).half()),
            final(self).quarter() == old(self).quarter(),
            final(self).half() == old(self).half(),
    {
        if !self.is_ack() {
            Err(Mcp4728Error::NoAck)
        } else {
            Ok(())
        }
    }

    /// Drive a start condition, transmit the 7-bit address with the
    /// read/write flag, and check for an acknowledgment. `NoAck` means no
    /// device answered to the address.
    pub fn start(&mut self, addr: u8, read: bool) -> (r: Result<(), Mcp4728Error>)
        requires
            addr < 128,
        ensures
            r is Ok ==> r == Ok::<(), Mcp4728Error>(()) && final(self).events() == old(
                self,
            ).events() + start_trace(addr, read, false, old(self).quarter(), old(self).half()),
            r is Err ==> r == Err::<(), Mcp4728Error>(Mcp4728Error::NoAck) && final(self).events()
                == old(self).events() + start_trace(
                addr,
                read,
                true,
                old(self).quarter(),
                old(self).half(),
            ),
            final(self).quarter() == old(self).quarter(),
            final(self).half() == old(self).half(),
    {
        let data: u8 = (addr << 1) | (if read {
            1u8
        } else {
            0u8
        });
        let q = self.quarter_delay;
        let h = self.half_delay;
        self.port.set_scl(true);
        self.port.set_sda(true);
        self.port.spin(h);
        self.port.set_sda(false);
        self.port.spin(h);
        self.port.set_scl(false);
        self.port.spin(q);
        self.write_byte(data);
        let r = self.check_ack();
        proof {
            if r is Ok {
                assert(self.port.events() =~= old(self).events() + start_trace(
                    addr,
                    read,
                    false,
                    q,
                    h,
                ));
            } else {
                assert(self.port.events() =~= old(self).events() + start_trace(
                    addr,
                    read,
                    true,
                    q,
                    h,
                ));
            }
        }
        r
    }

    /// Drive a stop condition: clock raised, then data raised.
    pub(crate) fn stop(&mut self)
        ensures
            final(self).events() == old(self).events() + stop_trace(old(self).half()),
            final(self).quarter() == old(self).quarter(),
            final(self).half() == old(self).half(),
    {
        let h = self.half_delay;
        self.port.set_scl(true);
        self.port.spin(h);
        self.port.set_sda(true);
        self.port.spin(h);
        proof {
            assert(self.port.events() =~= old(self).events() + stop_trace(h));
        }
    }

    /// Drive the latch line of the given chip.
    pub(crate) fn set_latch(&mut self, chip: usize, high: bool)
        ensures
            final(self).events() == old(self).events().push(BusEvent::Latch(chip, high)),
            final(self).quarter() == old(self).quarter(),
            final(self).half() == old(self).half(),
    {
        self.port.set_latch(chip, high);
    }

    /// Busy-wait for one half-bit delay.
    pub(crate) fn pause(&mut self)
        ensures
            final(self).events() == old(self).events().push(BusEvent::Wait(old(self).half())),
            final(self).quarter() == old(self).quarter(),
            final(self).half() == old(self).half(),
    {
        self.port.spin(self.half_delay);
    }
}

/// A byte with no bits set has every bit clear.
proof fn lemma_zero_has_no_bits()
    ensures
        forall|o: u8| !bit_of(0u8, o),
{
    assert forall|o: u8| !bit_of(0u8, o) by {
        assert(0u8 & (1u8 << o) == 0) by (bit_vector);
    }
}

/// Setting one bit by bitwise-or makes that bit read back as set.
proof fn lemma_or_sets_bit(b: u8, o: u8)
    requires
        o < 8,
    ensures
        bit_of(b | (1u8 << o), o),
{
    assert((b | (1u8 << o)) & (1u8 << o) != 0) by (bit_vector)
        requires
            o < 8,
    ;
}

/// Setting one bit by bitwise-or leaves every other bit unchanged.
proof fn lemma_or_keeps_bit(b: u8, o: u8, other: u8)
    requires
        o < 8,
        other < 8,
        other != o,
    ensures
        bit_of(b | (1u8 << o), other) == bit_of(b, other),
{
    assert(((b | (1u8 << o)) & (1u8 << other) != 0) == (b & (1u8 << other) != 0)) by (bit_vector)
        requires
            o < 8 && other < 8 && other != o,
    ;
}

/// Two bytes that agree on the bits a partial read has sampled so far
/// produce the same partial read trace.
proof fn lemma_read_bits_agree(b1: u8, b2: u8, k: int, h: u32)
    requires
        0 <= k <= 8,
        forall|o: u8| 8 - k <= o < 8 ==> bit_of(b1, o) == bit_of(b2, o),
    ensures
        read_bits_upto(b1, k, h) == read_bits_upto(b2, k, h),
    decreases k,
{
    if k > 0 {
        lemma_read_bits_agree(b1, b2, k - 1, h);
        assert(bit_of(b1, (8 - k) as u8) == bit_of(b2, (8 - k) as u8));
    }
}

/// A start operation whose acknowledgment never came ends with the failed
/// acknowledgment check: its last seven events are exactly the check that
/// sampled the data line high, so nothing further was transmitted after the
/// missing acknowledgment.
pub proof fn lemma_start_ends_at_missing_ack(addr: u8, read: bool, q: u32, h: u32)
    ensures
        start_trace(addr, read, true, q, h).len() >= 7,
        start_trace(addr, read, true, q, h).skip(
            start_trace(addr, read, true, q, h).len() - 7,
        ) == ack_check_trace(true, h),
{
    let t = start_trace(addr, read, true, q, h);
    let front = start_cond_trace(q, h) + byte_write_trace(addr_byte(addr, read), q, h);
    assert(t =~= front + ack_check_trace(true, h));
    assert(t.skip(t.len() - 7) =~= ack_check_trace(true, h));
}

/// At every clock ratio, the half-bit delay is twice the quarter-bit delay,
/// up to the one cycle integer division may drop.
pub proof fn lemma_delay_ratio(sysclk_hz: u32, bus_hz: u32)
    requires
        bus_hz >= 1,
    ensures
        2 * spec_quarter_delay(sysclk_hz, bus_hz) <= spec_half_delay(sysclk_hz, bus_hz),
        spec_half_delay(sysclk_hz, bus_hz) <= 2 * spec_quarter_delay(sysclk_hz, bus_hz) + 1,
{
    let c = sysclk_hz as int;
    let f = bus_hz as int;
    lemma_div_pos_is_pos(c, f);
    lemma_div_pos_is_pos(c / f, 20);
    let n = c / f / 20;
    lemma_fundamental_div_mod(n, 4);
    let quo = n / 4;
    let rem = n % 4;
    assert(n == 4 * quo + rem);
    lemma_div_pos_is_pos(n, 4);
    if rem < 2 {
        lemma_div_multiples_vanish_fancy(2 * quo, rem, 2);
        assert((2 * (2 * quo) + rem) / 2 == 2 * quo);
        assert(n / 2 == 2 * quo);
    } else {
        lemma_div_multiples_vanish_fancy(2 * quo + 1, rem - 2, 2);
        assert((2 * (2 * quo + 1) + (rem - 2)) / 2 == 2 * quo + 1);
        assert(n / 2 == 2 * quo + 1);
    }
}

/// With the system clock at least eighty times the bus frequency, both
/// derived busy-waits are positive as well. (Just above the twenty-fold
/// minimum the divisions can still truncate the quarter-bit delay to zero.)
pub proof fn lemma_delay_calibration(sysclk_hz: u32, bus_hz: u32)
    requires
        bus_hz >= 1,
        sysclk_hz >= 80 * bus_hz,
    ensures
        spec_quarter_delay(sysclk_hz, bus_hz) >= 1,
        spec_half_delay(sysclk_hz, bus_hz) >= 2,
        2 * spec_quarter_delay(sysclk_hz, bus_hz) <= spec_half_delay(sysclk_hz, bus_hz),
        spec_half_delay(sysclk_hz, bus_hz) <= 2 * spec_quarter_delay(sysclk_hz, bus_hz) + 1,
{
    let c = sysclk_hz as int;
    let f = bus_hz as int;
    lemma_div_multiples_vanish(80, f);
    lemma_div_is_ordered(80 * f, c, f);
    assert(c / f >= 80);
    lemma_div_is_ordered(80, c / f, 20);
    lemma_div_multiples_vanish(4, 20);
    assert(c / f / 20 >= 4);
    let n = c / f / 20;
    lemma_div_is_ordered(4, n, 4);
    lemma_div_multiples_vanish(1, 4);
    lemma_div_is_ordered(4, n, 2);
    lemma_div_multiples_vanish(2, 2);
    lemma_delay_ratio(sysclk_hz, bus_hz);
}

} // verus!
