//! Driver for one 4-channel DAC chip on the software bus.
//!
//! A chip answers on a 7-bit address made of the fixed device code `0x60` and
//! a 3-bit chip-select value. Construction discovers the chip's current
//! address through a broadcast readback command (whose final bit must
//! coincide with a latch-line pulse), reassigns it with a deliberate
//! two-step confirmation if it differs from the requested one, and zeroes all
//! four channels. After construction the address is immutable and channel
//! values are programmed with the single-channel immediate-update command.

use vstd::prelude::*;

use crate::bus::{
    ack_check_trace, byte_write_latch_trace, byte_write_trace, read_byte_trace, start_trace,
    stop_trace, Mcp4728I2c,
};
use crate::port::{BusEvent, DacPort};

verus! {

/// The broadcast address every listening device answers to.
pub const GENERAL_CALL_ADDR: u8 = 0x0;

/// The fixed 4-bit device code the chip family answers on.
pub const DEVICE_CODE: u8 = 0x60;

/// Failures the DAC protocol can surface.
#[derive(Clone, Copy, Debug, PartialEq, Eq, Structural)]
pub enum Mcp4728Error {
    /// An addressed device failed to pull the data line low when an
    /// acknowledgment was expected.
    NoAck,
    /// The address-readback byte failed its redundancy or check-bit
    /// validation.
    AddressMismatch,
    /// A channel index or channel value outside its documented range was
    /// rejected before any bus activity.
    OutOfRange,
}

/// The command byte selecting single-channel immediate update of the given
/// channel.
pub open spec fn channel_cmd(channel: u8) -> u8
    recommends
        channel <= 3,
{
    0x40u8 | (channel << 1)
}

/// The second byte of a channel write: fast-mode marker plus the high four
/// bits of the value.
pub open spec fn value_high_byte(value: u16) -> u8 {
    (((value & 0xF00) >> 8) as u8) | 0x80
}

/// The third byte of a channel write: the low eight bits of the value.
pub open spec fn value_low_byte(value: u16) -> u8 {
    (value & 0xFF) as u8
}

/// The first of the two redundant 3-bit address copies in a readback byte
/// (bits 7 to 5).
pub open spec fn readback_copy_a(data: u8) -> u8 {
    (data & 0xE0) >> 5
}

/// The second address copy in a readback byte (bits 3 to 1).
pub open spec fn readback_copy_b(data: u8) -> u8 {
    (data & 0x0E) >> 1
}

/// Whether a readback byte is self-consistent: the two address copies agree
/// and the two fixed check bits carry the expected `10` pattern.
pub open spec fn readback_valid(data: u8) -> bool {
    readback_copy_a(data) == readback_copy_b(data) && data & 0x11 == 0x10
}

/// The bus address encoded by a valid readback byte.
pub open spec fn readback_addr(data: u8) -> u8 {
    readback_copy_a(data) | DEVICE_CODE
}

/// The byte a transaction transmits at position `i` of a channel write:
/// command, high half, low half.
pub open spec fn channel_write_byte(channel: u8, value: u16, i: int) -> u8 {
    if i == 0 {
        channel_cmd(channel)
    } else if i == 1 {
        value_high_byte(value)
    } else {
        value_low_byte(value)
    }
}

/// A channel-write transaction after a successful start and `j` transmitted,
/// acknowledged bytes.
pub open spec fn channel_write_bytes_trace(
    addr: u8,
    channel: u8,
    value: u16,
    j: int,
    q: u32,
    h: u32,
) -> Seq<BusEvent>
    decreases j,
{
    if j <= 0 {
        start_trace(addr, false, false, q, h)
    } else {
        channel_write_bytes_trace(addr, channel, value, j - 1, q, h) + byte_write_trace(
            channel_write_byte(channel, value, j - 1),
            q,
            h,
        ) + ack_check_trace(false, h)
    }
}

/// A whole channel-write transaction, all four acknowledgments received and
/// the stop condition driven.
pub open spec fn channel_write_full_trace(
    addr: u8,
    channel: u8,
    value: u16,
    q: u32,
    h: u32,
) -> Seq<BusEvent> {
    channel_write_bytes_trace(addr, channel, value, 3, q, h) + stop_trace(h)
}

/// A channel-write transaction in which exactly `n` of the four expected
/// acknowledgments arrived. For `n < 4` the transaction breaks off right
/// after the first missing acknowledgment: no further byte follows it.
#[verifier::opaque]
pub open spec fn channel_write_attempt_trace(
    addr: u8,
    channel: u8,
    value: u16,
    n: int,
    q: u32,
    h: u32,
) -> Seq<BusEvent> {
    if n <= 0 {
        start_trace(addr, false, true, q, h)
    } else if n < 4 {
        channel_write_bytes_trace(addr, channel, value, n - 1, q, h) + byte_write_trace(
            channel_write_byte(channel, value, n - 1),
            q,
            h,
        ) + ack_check_trace(true, h)
    } else {
        channel_write_full_trace(addr, channel, value, q, h)
    }
}

/// The write-enable command of the readdressing handshake, carrying the
/// chip's current 3-bit address; its final bit must coincide with a latch
/// pulse.
pub open spec fn readdress_enable_byte(current: u8) -> u8 {
    0x61u8 | ((current & 0x7) << 2)
}

/// The first of the two confirmation bytes proposing the new 3-bit address.
pub open spec fn readdress_propose_byte(new_addr: u8) -> u8 {
    0x62u8 | ((new_addr & 0x7) << 2)
}

/// The second confirmation byte repeating the new 3-bit address.
pub open spec fn readdress_confirm_byte(new_addr: u8) -> u8 {
    0x63u8 | ((new_addr & 0x7) << 2)
}

/// An address-discovery transaction on the chip with the given latch index,
/// in which `n` of the three expected acknowledgments arrived; `d` is the
/// byte the chip answered once all three were in (it is unconstrained
/// otherwise). The transaction breaks off right after the first missing
/// acknowledgment.
#[verifier::opaque]
pub open spec fn read_address_attempt_trace(
    chip: usize,
    n: int,
    d: u8,
    q: u32,
    h: u32,
) -> Seq<BusEvent> {
    let p0 = seq![BusEvent::Latch(chip, true)];
    if n <= 0 {
        p0 + start_trace(GENERAL_CALL_ADDR, false, true, q, h)
    } else if n == 1 {
        p0 + start_trace(GENERAL_CALL_ADDR, false, false, q, h) + byte_write_latch_trace(
            0x0C,
            chip,
            q,
            h,
        ) + ack_check_trace(true, h)
    } else if n == 2 {
        p0 + start_trace(GENERAL_CALL_ADDR, false, false, q, h) + byte_write_latch_trace(
            0x0C,
            chip,
            q,
            h,
        ) + ack_check_trace(false, h) + start_trace(DEVICE_CODE, true, true, q, h)
    } else {
        p0 + start_trace(GENERAL_CALL_ADDR, false, false, q, h) + byte_write_latch_trace(
            0x0C,
            chip,
            q,
            h,
        ) + ack_check_trace(false, h) + start_trace(DEVICE_CODE, true, false, q, h)
            + read_byte_trace(d, false, h) + seq![BusEvent::Latch(chip, true)]
    }
}

/// A readdressing transaction on the chip with the given latch index, moving
/// it from `current` to `new_addr`, in which `n` of the four expected
/// acknowledgments arrived. The transaction breaks off right after the first
/// missing acknowledgment.
#[verifier::opaque]
pub open spec fn write_address_attempt_trace(
    chip: usize,
    current: u8,
    new_addr: u8,
    n: int,
    q: u32,
    h: u32,
) -> Seq<BusEvent> {
    let p0 = seq![BusEvent::Latch(chip, true)];
    if n <= 0 {
        p0 + start_trace(current, false, true, q, h)
    } else if n == 1 {
        p0 + start_trace(current, false, false, q, h) + byte_write_latch_trace(
            readdress_enable_byte(current),
            chip,
            q,
            h,
        ) + ack_check_trace(true, h)
    } else if n == 2 {
        p0 + start_trace(current, false, false, q, h) + byte_write_latch_trace(
            readdress_enable_byte(current),
            chip,
            q,
            h,
        ) + ack_check_trace(false, h) + byte_write_trace(readdress_propose_byte(new_addr), q, h)
            + ack_check_trace(true, h)
    } else if n == 3 {
        p0 + start_trace(current, false, false, q, h) + byte_write_latch_trace(
            readdress_enable_byte(current),
            chip,
            q,
            h,
        ) + ack_check_trace(false, h) + byte_write_trace(readdress_propose_byte(new_addr), q, h)
            + ack_check_trace(false, h) + byte_write_trace(readdress_confirm_byte(new_addr), q, h)
            + ack_check_trace(true, h)
    } else {
        p0 + start_trace(current, false, false, q, h) + byte_write_latch_trace(
            readdress_enable_byte(current),
            chip,
            q,
            h,
        ) + ack_check_trace(false, h) + byte_write_trace(readdress_propose_byte(new_addr), q, h)
            + ack_check_trace(false, h) + byte_write_trace(readdress_confirm_byte(new_addr), q, h)
            + ack_check_trace(false, h) + stop_trace(h) + seq![BusEvent::Latch(chip, true)]
    }
}

/// The construction trace of one chip that answered the readback byte `d`,
/// carried through its discovery, the readdressing (only if the discovered
/// address differs from the requested one), and the first `j` zeroed
/// channels.
#[verifier::opaque]
pub open spec fn new_progress_trace(
    chip: usize,
    address: u8,
    d: u8,
    j: int,
    q: u32,
    h: u32,
) -> Seq<BusEvent>
    decreases j,
{
    if j <= 0 {
        seq![BusEvent::Latch(chip, true)] + read_address_attempt_trace(chip, 3, d, q, h) + (
        if readback_addr(d) != DEVICE_CODE | address {
            write_address_attempt_trace(chip, readback_addr(d), DEVICE_CODE | address, 4, q, h)
        } else {
            Seq::empty()
        })
    } else {
        new_progress_trace(chip, address, d, j - 1, q, h) + channel_write_attempt_trace(
            DEVICE_CODE | address,
            (j - 1) as u8,
            0,
            4,
            q,
            h,
        )
    }
}

/// The full construction trace of one chip that answered the readback byte
/// `d`: latch forced high, address discovery, readdressing only if the
/// discovered address differs from the requested one, all four channels
/// zeroed, and a latch pulse committing the zeroed outputs.
#[verifier::opaque]
pub open spec fn new_ok_trace(chip: usize, address: u8, d: u8, q: u32, h: u32) -> Seq<BusEvent> {
    new_progress_trace(chip, address, d, 4, q, h) + seq![
        BusEvent::Latch(chip, false),
        BusEvent::Wait(h),
        BusEvent::Latch(chip, true),
    ]
}

/// One DAC chip: its resolved bus address, the index of the latch line it
/// exclusively owns, and the last value written to each of its four
/// channels.
pub struct Mcp4728 {
    latch: usize,
    address: u8,
    v0: u16,
    v1: u16,
    v2: u16,
    v3: u16,
}

impl Mcp4728 {
    /// The index of the latch line this chip owns.
    pub closed spec fn latch(&self) -> usize {
        self.latch
    }

    /// The chip's resolved 7-bit bus address.
    pub closed spec fn address(&self) -> u8 {
        self.address
    }

    /// The last value written to each of the four channels.
    pub closed spec fn values(&self) -> Seq<u16> {
        seq![self.v0, self.v1, self.v2, self.v3]
    }

    /// The chip's invariant: a 7-bit address and 12-bit channel values.
    pub open spec fn wf(&self) -> bool {
        &&& self.address() < 128
        &&& forall|i: int| 0 <= i < 4 ==> self.values()[i] < 4096
    }

    /// Program one channel with the single-channel immediate-update command:
    /// a start to the given address, the command byte, the two value bytes,
    /// each acknowledged, then a stop.
    fn write_channel<P: DacPort>(
        addr: u8,
        channel: u8,
        value: u16,
        i2c: &mut Mcp4728I2c<P>,
    ) -> (r: Result<(), Mcp4728Error>)
        requires
            addr < 128,
            channel <= 3,
            value < 4096,
        ensures
            exists|n: int|
                #![auto]
                0 <= n <= 4 && final(i2c).events() == old(i2c).events()
                    + channel_write_attempt_trace(
                    addr,
                    channel,
                    value,
                    n,
                    old(i2c).quarter(),
                    old(i2c).half(),
                ) && (r is Ok <==> n == 4),
            r is Ok ==> r == Ok::<(), Mcp4728Error>(()),
            r is Err ==> r == Err::<(), Mcp4728Error>(Mcp4728Error::NoAck),
            final(i2c).quarter() == old(i2c).quarter(),
            final(i2c).half() == old(i2c).half(),
    {
        let ghost q = i2c.quarter();
        let ghost h = i2c.half();
        match i2c.start(addr, false) {
            Err(e) => {
                proof {
                    reveal(channel_write_attempt_trace);
                    assert(i2c.events() == old(i2c).events() + channel_write_attempt_trace(
                        addr,
                        channel,
                        value,
                        0,
                        q,
                        h,
                    ));
                }
                return Err(e);
            },
            Ok(()) => {},
        }
        proof {
            assert(i2c.events() == old(i2c).events() + channel_write_bytes_trace(
                addr,
                channel,
                value,
                0,
                q,
                h,
            ));
        }
        i2c.write_byte(0x40 | (channel << 1));
        match i2c.check_ack() {
            Err(e) => {
                proof {
                    reveal(channel_write_attempt_trace);
                    assert(i2c.events() =~= old(i2c).events() + channel_write_attempt_trace(
                        addr,
                        channel,
                        value,
                        1,
                        q,
                        h,
                    ));
                }
                return Err(e);
            },
            Ok(()) => {},
        }
        proof {
            assert(i2c.events() =~= old(i2c).events() + channel_write_bytes_trace(
                addr,
                channel,
                value,
                1,
                q,
                h,
            ));
        }
        i2c.write_byte((((value & 0xF00) >> 8) as u8) | 0x80);
        match i2c.check_ack() {
            Err(e) => {
                proof {
                    reveal(channel_write_attempt_trace);
                    assert(i2c.events() =~= old(i2c).events() + channel_write_attempt_trace(
                        addr,
                        channel,
                        value,
                        2,
                        q,
                        h,
                    ));
                }
                return Err(e);
            },
            Ok(()) => {},
        }
        proof {
            assert(i2c.events() =~= old(i2c).events() + channel_write_bytes_trace(
                addr,
                channel,
                value,
                2,
                q,
                h,
            ));
        }
        i2c.write_byte((value & 0xFF) as u8);
        match i2c.check_ack() {
            Err(e) => {
                proof {
                    reveal(channel_write_attempt_trace);
                    assert(i2c.events() =~= old(i2c).events() + channel_write_attempt_trace(
                        addr,
                        channel,
                        value,
                        3,
                        q,
                        h,
                    ));
                }
                return Err(e);
            },
            Ok(()) => {},
        }
        proof {
            assert(i2c.events() =~= old(i2c).events() + channel_write_bytes_trace(
                addr,
                channel,
                value,
                3,
                q,
                h,
            ));
        }
        i2c.stop();
        proof {
            reveal(channel_write_attempt_trace);
            assert(i2c.events() =~= old(i2c).events() + channel_write_attempt_trace(
                addr,
                channel,
                value,
                4,
                q,
                h,
            ));
        }
        Ok(())
    }

    /// Program one channel of this chip. A channel above 3 or a value above
    /// 4095 is rejected before any bus activity; otherwise the chip's output
    /// updates immediately, no latch pulse needed, and the cached channel
    /// value records what was written.
    pub fn set_channel<P: DacPort>(
        &mut self,
        i2c: &mut Mcp4728I2c<P>,
        channel: u8,
        value: u16,
    ) -> (r: Result<(), Mcp4728Error>)
        requires
            old(self).wf(),
        ensures
            final(self).wf(),
            final(self).latch() == old(self).latch(),
            final(self).address() == old(self).address(),
            final(i2c).quarter() == old(i2c).quarter(),
            final(i2c).half() == old(i2c).half(),
            channel > 3 || value > 4095 ==> r == Err::<(), Mcp4728Error>(Mcp4728Error::OutOfRange)
                && final(i2c).events() == old(i2c).events() && *final(self) == *old(self),
            channel <= 3 && value <= 4095 ==> exists|n: int|
                #![auto]
                0 <= n <= 4 && final(i2c).events() == old(i2c).events()
                    + channel_write_attempt_trace(
                    old(self).address(),
                    channel,
                    value,
                    n,
                    old(i2c).quarter(),
                    old(i2c).half(),
                ) && (r is Ok <==> n == 4),
            r is Ok ==> channel <= 3 && value <= 4095 && final(self).values() == old(
                self,
            ).values().update(channel as int, value),
            r is Err ==> (r == Err::<(), Mcp4728Error>(Mcp4728Error::NoAck) || r == Err::<
                (),
                Mcp4728Error,
            >(Mcp4728Error::OutOfRange)) && final(self).values() == old(self).values(),
    {
        if channel > 3 || value > 4095 {
            return Err(Mcp4728Error::OutOfRange);
        }
        match Self::write_channel(self.address, channel, value, i2c) {
            Ok(()) => {
                if channel == 0 {
                    self.v0 = value;
                } else if channel == 1 {
                    self.v1 = value;
                } else if channel == 2 {
                    self.v2 = value;
                } else {
                    self.v3 = value;
                }
                proof {
                    assert(self.values() =~= old(self).values().update(channel as int, value));
                }
                Ok(())
            },
            Err(e) => Err(e),
        }
    }

    /// Discover the current address of the single unaddressed chip wired to
    /// the given latch line: a broadcast of the read-address command with the
    /// latch pulsed low on its final bit, then one byte read back from the
    /// factory-default address and validated.
    fn read_address<P: DacPort>(chip: usize, i2c: &mut Mcp4728I2c<P>) -> (r: Result<
        u8,
        Mcp4728Error,
    >)
        ensures
            exists|n: int, d: u8|
                #![auto]
                0 <= n <= 3 && final(i2c).events() == old(i2c).events()
                    + read_address_attempt_trace(chip, n, d, old(i2c).quarter(), old(i2c).half())
                    && (n < 3 ==> r == Err::<u8, Mcp4728Error>(Mcp4728Error::NoAck)) && (n == 3
                    ==> r == (if readback_valid(d) {
                    Ok::<u8, Mcp4728Error>(readback_addr(d))
                } else {
                    Err::<u8, Mcp4728Error>(Mcp4728Error::AddressMismatch)
                })),
            r matches Ok(a) ==> a < 128,
            r is Err ==> (r == Err::<u8, Mcp4728Error>(Mcp4728Error::NoAck) || r == Err::<
                u8,
                Mcp4728Error,
            >(Mcp4728Error::AddressMismatch)),
            final(i2c).quarter() == old(i2c).quarter(),
            final(i2c).half() == old(i2c).half(),
    {
        let ghost q = i2c.quarter();
        let ghost h = i2c.half();
        i2c.set_latch(chip, true);
        match i2c.start(GENERAL_CALL_ADDR, false) {
            Err(e) => {
                proof {
                    reveal(read_address_attempt_trace);
                    assert(i2c.events() =~= old(i2c).events() + read_address_attempt_trace(
                        chip,
                        0,
                        0,
                        q,
                        h,
                    ));
                }
                return Err(e);
            },
            Ok(()) => {},
        }
        i2c.write_byte_latch(0x0C, chip);
        match i2c.check_ack() {
            Err(e) => {
                proof {
                    reveal(read_address_attempt_trace);
                    assert(i2c.events() =~= old(i2c).events() + read_address_attempt_trace(
                        chip,
                        1,
                        0,
                        q,
                        h,
                    ));
                }
                return Err(e);
            },
            Ok(()) => {},
        }
        match i2c.start(DEVICE_CODE, true) {
            Err(e) => {
                proof {
                    reveal(read_address_attempt_trace);
                    assert(i2c.events() =~= old(i2c).events() + read_address_attempt_trace(
                        chip,
                        2,
                        0,
                        q,
                        h,
                    ));
                }
                return Err(e);
            },
            Ok(()) => {},
        }
        let data = i2c.read_byte(false);
        i2c.set_latch(chip, true);
        proof {
            reveal(read_address_attempt_trace);
            assert(i2c.events() =~= old(i2c).events() + read_address_attempt_trace(
                chip,
                3,
                data,
                q,
                h,
            ));
        }
        Self::decode_readback(data)
    }

    /// Move the chip from its current address to a new one: the write-enable
    /// command with the latch pulsed low on its final bit, then the new
    /// address proposed and confirmed in two separate acknowledged bytes, a
    /// deliberate double step the chip requires so that line noise cannot
    /// readdress it.
    fn write_address<P: DacPort>(
        chip: usize,
        current: u8,
        new_addr: u8,
        i2c: &mut Mcp4728I2c<P>,
    ) -> (r: Result<(), Mcp4728Error>)
        requires
            current < 128,
            new_addr < 128,
        ensures
            exists|n: int|
                #![auto]
                0 <= n <= 4 && final(i2c).events() == old(i2c).events()
                    + write_address_attempt_trace(
                    chip,
                    current,
                    new_addr,
                    n,
                    old(i2c).quarter(),
                    old(i2c).half(),
                ) && (r is Ok <==> n == 4),
            r is Err ==> r == Err::<(), Mcp4728Error>(Mcp4728Error::NoAck),
            final(i2c).quarter() == old(i2c).quarter(),
            final(i2c).half() == old(i2c).half(),
    {
        let ghost q = i2c.quarter();
        let ghost h = i2c.half();
        i2c.set_latch(chip, true);
        match i2c.start(current, false) {
            Err(e) => {
                proof {
                    reveal(write_address_attempt_trace);
                    assert(i2c.events() =~= old(i2c).events() + write_address_attempt_trace(
                        chip,
                        current,
                        new_addr,
                        0,
                        q,
                        h,
                    ));
                }
                return Err(e);
            },
            Ok(()) => {},
        }
        i2c.write_byte_latch(0x61 | ((current & 0x7) << 2), chip);
        match i2c.check_ack() {
            Err(e) => {
                proof {
                    reveal(write_address_attempt_trace);
                    assert(i2c.events() =~= old(i2c).events() + write_address_attempt_trace(
                        chip,
                        current,
                        new_addr,
                        1,
                        q,
                        h,
                    ));
                }
                return Err(e);
            },
            Ok(()) => {},
        }
        i2c.write_byte(0x62 | ((new_addr & 0x7) << 2));
        match i2c.check_ack() {
            Err(e) => {
                proof {
                    reveal(write_address_attempt_trace);
                    assert(i2c.events() =~= old(i2c).events() + write_address_attempt_trace(
                        chip,
                        current,
                        new_addr,
                        2,
                        q,
                        h,
                    ));
                }
                return Err(e);
            },
            Ok(()) => {},
        }
        i2c.write_byte(0x63 | ((new_addr & 0x7) << 2));
        match i2c.check_ack() {
            Err(e) => {
                proof {
                    reveal(write_address_attempt_trace);
                    assert(i2c.events() =~= old(i2c).events() + write_address_attempt_trace(
                        chip,
                        current,
                        new_addr,
                        3,
                        q,
                        h,
                    ));
                }
                return Err(e);
            },
            Ok(()) => {},
        }
        i2c.stop();
        i2c.set_latch(chip, true);
        proof {
            reveal(write_address_attempt_trace);
            assert(i2c.events() =~= old(i2c).events() + write_address_attempt_trace(
                chip,
                current,
                new_addr,
                4,
                q,
                h,
            ));
        }
        Ok(())
    }

    /// Bring up the chip wired to the given latch line and bind it to the
    /// address made of the device code and the given 3-bit selector: force
    /// the latch high, discover the chip's current address, readdress it if
    /// it differs from the requested one, zero all four channels, and pulse
    /// the latch to commit the zeroed outputs. Any missing acknowledgment or
    /// corrupted readback aborts construction with the corresponding error.
    #[verifier::rlimit(80)]
    pub fn new<P: DacPort>(chip: usize, address: u8, i2c: &mut Mcp4728I2c<P>) -> (r: Result<
        Mcp4728,
        Mcp4728Error,
    >)
        requires
            address <= 7,
        ensures
            r matches Ok(dev) ==> {
                &&& dev.wf()
                &&& dev.latch() == chip
                &&& dev.address() == DEVICE_CODE | address
                &&& dev.values() == seq![0u16, 0u16, 0u16, 0u16]
                &&& exists|d: u8|
                    #![auto]
                    readback_valid(d) && final(i2c).events() == old(i2c).events() + new_ok_trace(
                        chip,
                        address,
                        d,
                        old(i2c).quarter(),
                        old(i2c).half(),
                    )
            },
            r is Err ==> (r == Err::<Mcp4728, Mcp4728Error>(Mcp4728Error::NoAck) || r == Err::<
                Mcp4728,
                Mcp4728Error,
            >(Mcp4728Error::AddressMismatch)),
            r is Err ==> {
                ||| exists|n: int, d: u8|
                    #![auto]
                    0 <= n <= 3 && final(i2c).events() == old(i2c).events() + seq![
                        BusEvent::Latch(chip, true),
                    ] + read_address_attempt_trace(chip, n, d, old(i2c).quarter(), old(i2c).half())
                        && (n < 3 ==> r == Err::<Mcp4728, Mcp4728Error>(Mcp4728Error::NoAck)) && (n
                        == 3 ==> !readback_valid(d) && r == Err::<Mcp4728, Mcp4728Error>(
                        Mcp4728Error::AddressMismatch,
                    ))
                ||| exists|d: u8, m: int|
                    #![auto]
                    readback_valid(d) && readback_addr(d) != DEVICE_CODE | address && 0 <= m < 4
                        && final(i2c).events() == old(i2c).events() + seq![
                        BusEvent::Latch(chip, true),
                    ] + read_address_attempt_trace(chip, 3, d, old(i2c).quarter(), old(i2c).half())
                        + write_address_attempt_trace(
                        chip,
                        readback_addr(d),
                        DEVICE_CODE | address,
                        m,
                        old(i2c).quarter(),
                        old(i2c).half(),
                    ) && r == Err::<Mcp4728, Mcp4728Error>(Mcp4728Error::NoAck)
                ||| exists|d: u8, j: int, c: u8, m: int|
                    #![trigger new_progress_trace(
                        chip,
                        address,
                        d,
                        j,
                        old(i2c).quarter(),
                        old(i2c).half(),
                    ), channel_write_attempt_trace(
                        DEVICE_CODE | address,
                        c,
                        0,
                        m,
                        old(i2c).quarter(),
                        old(i2c).half(),
                    )]
                    readback_valid(d) && 0 <= j < 4 && c == j as u8 && 0 <= m < 4
                        && final(i2c).events() == old(i2c).events() + new_progress_trace(
                        chip,
                        address,
                        d,
                        j,
                        old(i2c).quarter(),
                        old(i2c).half(),
                    ) + channel_write_attempt_trace(
                        DEVICE_CODE | address,
                        c,
                        0,
                        m,
                        old(i2c).quarter(),
                        old(i2c).half(),
                    ) && r == Err::<Mcp4728, Mcp4728Error>(Mcp4728Error::NoAck)
            },
            final(i2c).quarter() == old(i2c).quarter(),
            final(i2c).half() == old(i2c).half(),
    {
        let ghost q = i2c.quarter();
        let ghost h = i2c.half();
        proof {
            lemma_device_addr_bound(address);
        }
        i2c.set_latch(chip, true);
        let ghost e1 = i2c.events();
        let current = match Self::read_address(chip, i2c) {
            Ok(a) => a,
            Err(e) => {
                proof {
                    let w = choose|n: int, d: u8|
                        #![auto]
                        0 <= n <= 3 && i2c.events() == e1 + read_address_attempt_trace(
                            chip,
                            n,
                            d,
                            q,
                            h,
                        ) && (n < 3 ==> Err::<u8, Mcp4728Error>(e) == Err::<u8, Mcp4728Error>(
                            Mcp4728Error::NoAck,
                        )) && (n == 3 ==> Err::<u8, Mcp4728Error>(e) == (if readback_valid(d) {
                            Ok::<u8, Mcp4728Error>(readback_addr(d))
                        } else {
                            Err::<u8, Mcp4728Error>(Mcp4728Error::AddressMismatch)
                        }));
                    assert(i2c.events() =~= old(i2c).events() + seq![BusEvent::Latch(chip, true)]
                        + read_address_attempt_trace(chip, w.0, w.1, q, h));
                }
                return Err(e);
            },
        };
        let ghost d0 = choose|n: int, d: u8|
            #![auto]
            0 <= n <= 3 && i2c.events() == e1 + read_address_attempt_trace(chip, n, d, q, h) && (n
                < 3 ==> Ok::<u8, Mcp4728Error>(current) == Err::<u8, Mcp4728Error>(
                Mcp4728Error::NoAck,
            )) && (n == 3 ==> Ok::<u8, Mcp4728Error>(current) == (if readback_valid(d) {
                Ok::<u8, Mcp4728Error>(readback_addr(d))
            } else {
                Err::<u8, Mcp4728Error>(Mcp4728Error::AddressMismatch)
            }));
        proof {
            assert(readback_valid(d0.1) && current == readback_addr(d0.1) && i2c.events() == e1
                + read_address_attempt_trace(chip, 3, d0.1, q, h));
        }
        let ghost d = d0.1;
        let new_addr = DEVICE_CODE | address;
        if current != new_addr {
            let ghost e_ra = i2c.events();
            match Self::write_address(chip, current, new_addr, i2c) {
                Ok(()) => {},
                Err(e) => {
                    proof {
                        let m = choose|m: int|
                            #![auto]
                            0 <= m <= 4 && i2c.events() == e_ra + write_address_attempt_trace(
                                chip,
                                current,
                                new_addr,
                                m,
                                q,
                                h,
                            ) && (Err::<(), Mcp4728Error>(e) is Ok <==> m == 4);
                        assert(i2c.events() =~= old(i2c).events() + seq![
                            BusEvent::Latch(chip, true),
                        ] + read_address_attempt_trace(chip, 3, d, q, h)
                            + write_address_attempt_trace(
                            chip,
                            readback_addr(d),
                            DEVICE_CODE | address,
                            m,
                            q,
                            h,
                        ));
                    }
                    return Err(e);
                },
            }
        }
        proof {
            reveal(new_progress_trace);
            assert(i2c.events() =~= old(i2c).events() + new_progress_trace(
                chip,
                address,
                d,
                0,
                q,
                h,
            ));
        }
        let ghost p0 = i2c.events();
        match Self::write_channel(new_addr, 0, 0x0, i2c) {
            Ok(()) => {},
            Err(e) => {
                proof {
                    let m = choose|m: int|
                        #![auto]
                        0 <= m <= 4 && i2c.events() == p0 + channel_write_attempt_trace(
                            new_addr,
                            0,
                            0,
                            m,
                            q,
                            h,
                        ) && (Err::<(), Mcp4728Error>(e) is Ok <==> m == 4);
                    assert(i2c.events() =~= old(i2c).events() + new_progress_trace(
                        chip,
                        address,
                        d,
                        0,
                        q,
                        h,
                    ) + channel_write_attempt_trace(DEVICE_CODE | address, 0u8, 0, m, q, h));
                }
                return Err(e);
            },
        }
        proof {
            reveal(new_progress_trace);
            assert(i2c.events() =~= old(i2c).events() + new_progress_trace(
                chip,
                address,
                d,
                1,
                q,
                h,
            ));
        }
        let ghost p1 = i2c.events();
        match Self::write_channel(new_addr, 1, 0x0, i2c) {
            Ok(()) => {},
            Err(e) => {
                proof {
                    let m = choose|m: int|
                        #![auto]
                        0 <= m <= 4 && i2c.events() == p1 + channel_write_attempt_trace(
                            new_addr,
                            1,
                            0,
                            m,
                            q,
                            h,
                        ) && (Err::<(), Mcp4728Error>(e) is Ok <==> m == 4);
                    assert(i2c.events() =~= old(i2c).events() + new_progress_trace(
                        chip,
                        address,
                        d,
                        1,
                        q,
                        h,
                    ) + channel_write_attempt_trace(DEVICE_CODE | address, 1u8, 0, m, q, h));
                }
                return Err(e);
            },
        }
        proof {
            reveal(new_progress_trace);
            assert(i2c.events() =~= old(i2c).events() + new_progress_trace(
                chip,
                address,
                d,
                2,
                q,
                h,
            ));
        }
        let ghost p2 = i2c.events();
        match Self::write_channel(new_addr, 2, 0x0, i2c) {
            Ok(()) => {},
            Err(e) => {
                proof {
                    let m = choose|m: int|
                        #![auto]
                        0 <= m <= 4 && i2c.events() == p2 + channel_write_attempt_trace(
                            new_addr,
                            2,
                            0,
                            m,
                            q,
                            h,
                        ) && (Err::<(), Mcp4728Error>(e) is Ok <==> m == 4);
                    assert(i2c.events() =~= old(i2c).events() + new_progress_trace(
                        chip,
                        address,
                        d,
                        2,
                        q,
                        h,
                    ) + channel_write_attempt_trace(DEVICE_CODE | address, 2u8, 0, m, q, h));
                }
                return Err(e);
            },
        }
        proof {
            reveal(new_progress_trace);
            assert(i2c.events() =~= old(i2c).events() + new_progress_trace(
                chip,
                address,
                d,
                3,
                q,
                h,
            ));
        }
        let ghost p3 = i2c.events();
        match Self::write_channel(new_addr, 3, 0x0, i2c) {
            Ok(()) => {},
            Err(e) => {
                proof {
                    let m = choose|m: int|
                        #![auto]
                        0 <= m <= 4 && i2c.events() == p3 + channel_write_attempt_trace(
                            new_addr,
                            3,
                            0,
                            m,
                            q,
                            h,
                        ) && (Err::<(), Mcp4728Error>(e) is Ok <==> m == 4);
                    assert(i2c.events() =~= old(i2c).events() + new_progress_trace(
                        chip,
                        address,
                        d,
                        3,
                        q,
                        h,
                    ) + channel_write_attempt_trace(DEVICE_CODE | address, 3u8, 0, m, q, h));
                }
                return Err(e);
            },
        }
        proof {
            reveal(new_progress_trace);
            assert(i2c.events() =~= old(i2c).events() + new_progress_trace(
                chip,
                address,
                d,
                4,
                q,
                h,
            ));
        }
        i2c.set_latch(chip, false);
        i2c.pause();
        i2c.set_latch(chip, true);
        let dev = Mcp4728 { latch: chip, address: new_addr, v0: 0, v1: 0, v2: 0, v3: 0 };
        proof {
            reveal(new_ok_trace);
            assert(i2c.events() =~= old(i2c).events() + new_ok_trace(chip, address, d, q, h));
            assert(dev.values() =~= seq![0u16, 0u16, 0u16, 0u16]);
        }
        Ok(dev)
    }

    /// Decode an address-readback byte: the two redundant 3-bit address
    /// copies must agree and the fixed check bits must read `10`, otherwise
    /// the chip's answer is rejected as an `AddressMismatch`.
    pub fn decode_readback(data: u8) -> (r: Result<u8, Mcp4728Error>)
        ensures
            r == (if readback_valid(data) {
                Ok::<u8, Mcp4728Error>(readback_addr(data))
            } else {
                Err::<u8, Mcp4728Error>(Mcp4728Error::AddressMismatch)
            }),
            r matches Ok(a) ==> a < 128,
    {
        let addr1 = (data & 0xE0) >> 5;
        let addr2 = (data & 0x0E) >> 1;
        let check = data & 0x11;
        if addr1 != addr2 || check != 0x10 {
            Err(Mcp4728Error::AddressMismatch)
        } else {
            proof {
                lemma_readback_addr_bound(data);
            }
            Ok(addr1 | DEVICE_CODE)
        }
    }
}

/// The three bytes of a channel write, written out: the command selects the
/// channel in its shifted field, the second byte carries the fast-mode
/// marker and the value's high four bits, the third the value's low eight.
pub proof fn lemma_channel_write_bytes(channel: u8, value: u16)
    ensures
        channel_write_byte(channel, value, 0) == 0x40u8 | (channel << 1),
        channel_write_byte(channel, value, 1) == 0x80u8 | (((value >> 8) as u8) & 0xF),
        channel_write_byte(channel, value, 2) == (value & 0xFF) as u8,
{
    assert((((value & 0xF00) >> 8) as u8) | 0x80 == 0x80u8 | (((value >> 8) as u8) & 0xF))
        by (bit_vector);
}

/// A channel-write transaction that lost one of its four acknowledgments
/// ends with the failed acknowledgment check: its last seven events are
/// exactly the check that sampled the data line high, so no further byte is
/// transmitted after the first missing acknowledgment.
pub proof fn lemma_channel_write_ends_at_missing_ack(
    addr: u8,
    channel: u8,
    value: u16,
    n: int,
    q: u32,
    h: u32,
)
    requires
        0 <= n < 4,
    ensures
        channel_write_attempt_trace(addr, channel, value, n, q, h).len() >= 7,
        channel_write_attempt_trace(addr, channel, value, n, q, h).skip(
            channel_write_attempt_trace(addr, channel, value, n, q, h).len() - 7,
        ) == ack_check_trace(true, h),
{
    reveal(channel_write_attempt_trace);
    let t = channel_write_attempt_trace(addr, channel, value, n, q, h);
    if n == 0 {
        crate::bus::lemma_start_ends_at_missing_ack(addr, false, q, h);
    } else {
        let front = channel_write_bytes_trace(addr, channel, value, n - 1, q, h)
            + byte_write_trace(channel_write_byte(channel, value, n - 1), q, h);
        assert(t =~= front + ack_check_trace(true, h));
        assert(t.skip(t.len() - 7) =~= ack_check_trace(true, h));
    }
}

/// The device code combined with any 3-bit selector fits in seven bits.
proof fn lemma_device_addr_bound(address: u8)
    requires
        address <= 7,
    ensures
        (0x60u8 | address) < 128,
{
    assert(0x60u8 | address < 128) by (bit_vector)
        requires
            address <= 7,
    ;
}

/// The address encoded in a readback byte always fits in seven bits.
proof fn lemma_readback_addr_bound(data: u8)
    ensures
        readback_addr(data) < 128,
{
    assert(((data & 0xE0) >> 5) | 0x60 < 128) by (bit_vector);
}

} // verus!
