//! The four-voice output panel: one software bus and four DAC chips.
//!
//! Each voice is served by one chip. A chip's four outputs have fixed
//! meanings: gate on the highest channel, pitch below it, and the two
//! auxiliary signals on the lowest two. Callers obtain a lightweight
//! handle per voice and signal, and program values through it.

use vstd::prelude::*;

use crate::bus::{spec_half_delay, spec_quarter_delay, Mcp4728I2c};
use crate::mcp4728::{
    channel_write_attempt_trace, new_ok_trace, readback_valid, Mcp4728, Mcp4728Error, DEVICE_CODE,
};
use crate::port::{BusEvent, DacPort};

verus! {

/// The bus frequency the panel drives its chips at, in hertz.
pub const BUS_FREQUENCY_HZ: u32 = 100_000;

/// The channel index that carries a voice's gate signal.
pub const GATE_CHANNEL: u8 = 3;

/// The channel index that carries a voice's pitch signal.
pub const PITCH_CHANNEL: u8 = 2;

/// The channel index that carries a voice's first auxiliary signal.
pub const AUX1_CHANNEL: u8 = 1;

/// The channel index that carries a voice's second auxiliary signal.
pub const AUX2_CHANNEL: u8 = 0;

/// The events of a successful panel construction: all four latch lines
/// forced high, the bus lines driven to their idle level, then each chip
/// brought up in voice order against selectors 1 to 4; `d1` to `d4` are the
/// four address-readback bytes the chips answered.
#[verifier::opaque]
pub open spec fn panel_init_trace(d1: u8, d2: u8, d3: u8, d4: u8, q: u32, h: u32) -> Seq<
    BusEvent,
> {
    seq![
        BusEvent::Latch(0, true),
        BusEvent::Latch(1, true),
        BusEvent::Latch(2, true),
        BusEvent::Latch(3, true),
        BusEvent::Scl(true),
        BusEvent::Sda(true),
    ] + new_ok_trace(0, 1, d1, q, h) + new_ok_trace(1, 2, d2, q, h) + new_ok_trace(2, 3, d3, q, h)
        + new_ok_trace(3, 4, d4, q, h)
}

/// The panel: the bus it exclusively owns and its four chips, indexed by
/// voice number.
pub struct CvPanel<P: DacPort> {
    i2c: Mcp4728I2c<P>,
    d0: Mcp4728,
    d1: Mcp4728,
    d2: Mcp4728,
    d3: Mcp4728,
}

impl<P: DacPort> CvPanel<P> {
    /// The event history of the panel's port.
    pub closed spec fn events(&self) -> Seq<BusEvent> {
        self.i2c.events()
    }

    /// The bus's calibrated quarter-bit delay.
    pub closed spec fn quarter(&self) -> u32 {
        self.i2c.quarter()
    }

    /// The bus's calibrated half-bit delay.
    pub closed spec fn half(&self) -> u32 {
        self.i2c.half()
    }

    /// The chip serving the given voice.
    pub closed spec fn dac(&self, voice: int) -> Mcp4728 {
        if voice == 0 {
            self.d0
        } else if voice == 1 {
            self.d1
        } else if voice == 2 {
            self.d2
        } else {
            self.d3
        }
    }

    /// The panel's invariant: each chip is well formed, owns the latch line
    /// of its voice, and answers on the address made of the device code and
    /// its voice's selector (voice number plus one).
    pub open spec fn wf(&self) -> bool {
        forall|voice: int|
            0 <= voice < 4 ==> {
                &&& (#[trigger] self.dac(voice)).wf()
                &&& self.dac(voice).latch() == voice
                &&& self.dac(voice).address() == DEVICE_CODE | (voice + 1) as u8
            }
    }

    /// Borrow the underlying port, for inspecting a recording double.
    pub fn port(&self) -> (r: &P)
        ensures
            r.events() == self.events(),
    {
        self.i2c.port()
    }

    /// Build the panel: force all four latch lines high, construct the bus
    /// at the panel's fixed frequency, then bring up the four chips in
    /// voice order against selectors 1 to 4 — one at a time, because address
    /// discovery is a broadcast and only one unaddressed chip may be queried
    /// at once. Any protocol failure aborts construction with that chip's
    /// error.
    pub fn new(port: P, sysclk_hz: u32) -> (r: Result<CvPanel<P>, Mcp4728Error>)
        ensures
            r matches Ok(panel) ==> {
                &&& panel.wf()
                &&& panel.quarter() == spec_quarter_delay(sysclk_hz, BUS_FREQUENCY_HZ)
                &&& panel.half() == spec_half_delay(sysclk_hz, BUS_FREQUENCY_HZ)
                &&& forall|voice: int, channel: int|
                    0 <= voice < 4 && 0 <= channel < 4 ==> (#[trigger] panel.dac(
                        voice,
                    ).values()[channel]) == 0
                &&& exists|d1: u8, d2: u8, d3: u8, d4: u8|
                    #![auto]
                    readback_valid(d1) && readback_valid(d2) && readback_valid(d3)
                        && readback_valid(d4) && panel.events() == port.events()
                        + panel_init_trace(d1, d2, d3, d4, panel.quarter(), panel.half())
            },
            r is Err ==> (r == Err::<CvPanel<P>, Mcp4728Error>(Mcp4728Error::NoAck) || r == Err::<
                CvPanel<P>,
                Mcp4728Error,
            >(Mcp4728Error::AddressMismatch)),
    {
        let mut lines = port;
        lines.set_latch(0, true);
        lines.set_latch(1, true);
        lines.set_latch(2, true);
        lines.set_latch(3, true);
        let mut i2c = Mcp4728I2c::new(lines, sysclk_hz, BUS_FREQUENCY_HZ);
        let ghost q = i2c.quarter();
        let ghost h = i2c.half();
        let ghost e0 = i2c.events();
        let dac1 = match Mcp4728::new(0, 0x1, &mut i2c) {
            Ok(dev) => dev,
            Err(e) => {
                return Err(e);
            },
        };
        let ghost d1 = choose|d: u8|
            #![auto]
            readback_valid(d) && i2c.events() == e0 + new_ok_trace(0, 1, d, q, h);
        let ghost e1 = i2c.events();
        let dac2 = match Mcp4728::new(1, 0x2, &mut i2c) {
            Ok(dev) => dev,
            Err(e) => {
                return Err(e);
            },
        };
        let ghost d2 = choose|d: u8|
            #![auto]
            readback_valid(d) && i2c.events() == e1 + new_ok_trace(1, 2, d, q, h);
        let ghost e2 = i2c.events();
        let dac3 = match Mcp4728::new(2, 0x3, &mut i2c) {
            Ok(dev) => dev,
            Err(e) => {
                return Err(e);
            },
        };
        let ghost d3 = choose|d: u8|
            #![auto]
            readback_valid(d) && i2c.events() == e2 + new_ok_trace(2, 3, d, q, h);
        let ghost e3 = i2c.events();
        let dac4 = match Mcp4728::new(3, 0x4, &mut i2c) {
            Ok(dev) => dev,
            Err(e) => {
                return Err(e);
            },
        };
        let ghost d4 = choose|d: u8|
            #![auto]
            readback_valid(d) && i2c.events() == e3 + new_ok_trace(3, 4, d, q, h);
        let panel = CvPanel { i2c, d0: dac1, d1: dac2, d2: dac3, d3: dac4 };
        proof {
            reveal(panel_init_trace);
            assert(panel.events() =~= port.events() + panel_init_trace(d1, d2, d3, d4, q, h));
        }
        Ok(panel)
    }

    /// A handle on the given voice's gate output (channel 3). A voice above
    /// 3 is rejected without any bus activity.
    pub fn gate(&self, voice: usize) -> (r: Option<Cv>)
        ensures
            voice <= 3 ==> (r matches Some(c) && c.wf() && c.voice() == voice && c.channel()
                == GATE_CHANNEL),
            voice > 3 ==> r is None,
    {
        if voice <= 3 {
            Some(Cv { dac: voice, channel: GATE_CHANNEL })
        } else {
            None
        }
    }

    /// A handle on the given voice's pitch output (channel 2). A voice above
    /// 3 is rejected without any bus activity.
    pub fn pitch(&self, voice: usize) -> (r: Option<Cv>)
        ensures
            voice <= 3 ==> (r matches Some(c) && c.wf() && c.voice() == voice && c.channel()
                == PITCH_CHANNEL),
            voice > 3 ==> r is None,
    {
        if voice <= 3 {
            Some(Cv { dac: voice, channel: PITCH_CHANNEL })
        } else {
            None
        }
    }

    /// A handle on the given voice's first auxiliary output (channel 1). A
    /// voice above 3 is rejected without any bus activity.
    pub fn aux1(&self, voice: usize) -> (r: Option<Cv>)
        ensures
            voice <= 3 ==> (r matches Some(c) && c.wf() && c.voice() == voice && c.channel()
                == AUX1_CHANNEL),
            voice > 3 ==> r is None,
    {
        if voice <= 3 {
            Some(Cv { dac: voice, channel: AUX1_CHANNEL })
        } else {
            None
        }
    }

    /// A handle on the given voice's second auxiliary output (channel 0). A
    /// voice above 3 is rejected without any bus activity.
    pub fn aux2(&self, voice: usize) -> (r: Option<Cv>)
        ensures
            voice <= 3 ==> (r matches Some(c) && c.wf() && c.voice() == voice && c.channel()
                == AUX2_CHANNEL),
            voice > 3 ==> r is None,
    {
        if voice <= 3 {
            Some(Cv { dac: voice, channel: AUX2_CHANNEL })
        } else {
            None
        }
    }
}

/// A lightweight output handle bound to one (voice, channel) pair of a
/// panel. The handle itself never touches the bus; `set` threads down into
/// the bound chip's channel write.
pub struct Cv {
    dac: usize,
    channel: u8,
}

impl Cv {
    /// The voice (chip index) this handle is bound to.
    pub closed spec fn voice(&self) -> usize {
        self.dac
    }

    /// The channel this handle is bound to.
    pub closed spec fn channel(&self) -> u8 {
        self.channel
    }

    /// A handle is well formed when both indices address one of the panel's
    /// four voices and four channels.
    pub open spec fn wf(&self) -> bool {
        self.voice() <= 3 && self.channel() <= 3
    }

    /// Program the bound output. A value above 4095 is rejected before any
    /// bus activity; otherwise the bound chip's channel is written through
    /// one immediate-update transaction, and its cached value records what
    /// was written. Chips other than the bound one are never touched.
    pub fn set<P: DacPort>(&self, panel: &mut CvPanel<P>, value: u16) -> (r: Result<
        (),
        Mcp4728Error,
    >)
        requires
            self.wf(),
            old(panel).wf(),
        ensures
            final(panel).wf(),
            final(panel).quarter() == old(panel).quarter(),
            final(panel).half() == old(panel).half(),
            forall|v: int|
                0 <= v < 4 && v != self.voice() ==> final(panel).dac(v) == old(panel).dac(v),
            final(panel).dac(self.voice() as int).address() == old(panel).dac(
                self.voice() as int,
            ).address(),
            final(panel).dac(self.voice() as int).latch() == old(panel).dac(
                self.voice() as int,
            ).latch(),
            value > 4095 ==> r == Err::<(), Mcp4728Error>(Mcp4728Error::OutOfRange)
                && final(panel).events() == old(panel).events()
                && final(panel).dac(self.voice() as int) == old(panel).dac(self.voice() as int),
            value <= 4095 ==> exists|n: int|
                #![auto]
                0 <= n <= 4 && final(panel).events() == old(panel).events()
                    + channel_write_attempt_trace(
                    old(panel).dac(self.voice() as int).address(),
                    self.channel(),
                    value,
                    n,
                    old(panel).quarter(),
                    old(panel).half(),
                ) && (r is Ok <==> n == 4),
            r is Ok ==> value <= 4095 && final(panel).dac(self.voice() as int).values()
                == old(panel).dac(self.voice() as int).values().update(self.channel() as int, value),
            r is Err ==> (r == Err::<(), Mcp4728Error>(Mcp4728Error::NoAck) || r == Err::<
                (),
                Mcp4728Error,
            >(Mcp4728Error::OutOfRange)) && final(panel).dac(self.voice() as int).values()
                == old(panel).dac(self.voice() as int).values(),
    {
        proof {
            assert(old(panel).dac(0).wf());
            assert(old(panel).dac(1).wf());
            assert(old(panel).dac(2).wf());
            assert(old(panel).dac(3).wf());
        }
        let r = if self.dac == 0 {
            panel.d0.set_channel(&mut panel.i2c, self.channel, value)
        } else if self.dac == 1 {
            panel.d1.set_channel(&mut panel.i2c, self.channel, value)
        } else if self.dac == 2 {
            panel.d2.set_channel(&mut panel.i2c, self.channel, value)
        } else {
            panel.d3.set_channel(&mut panel.i2c, self.channel, value)
        };
        proof {
            let ghost v = self.voice() as int;
            assert(old(panel).dac(v).address() == if self.dac == 0 {
                old(panel).d0.address()
            } else if self.dac == 1 {
                old(panel).d1.address()
            } else if self.dac == 2 {
                old(panel).d2.address()
            } else {
                old(panel).d3.address()
            });
            if value <= 4095 {
                let n = choose|n: int|
                    #![auto]
                    0 <= n <= 4 && panel.i2c.events() == old(panel).i2c.events()
                        + channel_write_attempt_trace(
                        old(panel).dac(v).address(),
                        self.channel,
                        value,
                        n,
                        old(panel).i2c.quarter(),
                        old(panel).i2c.half(),
                    ) && (r is Ok <==> n == 4);
                assert(0 <= n <= 4 && panel.events() == old(panel).events()
                    + channel_write_attempt_trace(
                    old(panel).dac(v).address(),
                    self.channel(),
                    value,
                    n,
                    old(panel).quarter(),
                    old(panel).half(),
                ) && (r is Ok <==> n == 4));
            }
        }
        r
    }
}

} // verus!
