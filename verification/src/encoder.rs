//! Rotary-encoder front end.
//!
//! Quadrature decoding itself happens in a hardware counter that counts the
//! encoder's edges; this module consumes it through the [`EncoderPort`]
//! capability as a wrapping 16-bit counter plus the level of the select
//! button's line, and re-centers the counter at its midpoint so turns in
//! either direction stay in range.

use vstd::prelude::*;

verus! {

/// The value the counter is re-centered to, so the knob can be turned either
/// way from a fresh reading.
pub const ENCODER_MIDPOINT: u16 = 0x8000;

/// Capability over the encoder hardware: the quadrature counter and the
/// select button's input line. Implemented by [`SimEncoderPort`] for tests;
/// platform code provides an implementation over the real timer and pin.
pub trait EncoderPort: Sized {
    /// The current value of the quadrature counter. The default stands for
    /// an unobserved counter; an inspectable implementation (such as
    /// [`SimEncoderPort`]) overrides it.
    open spec fn counter(&self) -> u16 {
        0
    }

    /// Whether the select button's line reads low (the button is pressed).
    /// The default stands for an unobserved line; an inspectable
    /// implementation overrides it.
    open spec fn select_low(&self) -> bool {
        false
    }

    /// Read the counter.
    fn read_counter(&self) -> (r: u16)
        ensures
            r == self.counter(),
    ;

    /// Overwrite the counter.
    fn write_counter(&mut self, value: u16)
        ensures
            final(self).counter() == value,
            final(self).select_low() == old(self).select_low(),
    ;

    /// Sample the select button's line.
    fn read_select(&self) -> (r: bool)
        ensures
            r == self.select_low(),
    ;
}

/// The rotary encoder: a wrapping position counter and a select button.
pub struct Encoder<T: EncoderPort> {
    port: T,
}

impl<T: EncoderPort> Encoder<T> {
    /// The counter's current value.
    pub closed spec fn counter(&self) -> u16 {
        self.port.counter()
    }

    /// Whether the select button's line reads low.
    pub closed spec fn select_low(&self) -> bool {
        self.port.select_low()
    }

    /// Take ownership of the configured counter and button lines and center
    /// the counter at the midpoint.
    pub fn new(port: T) -> (r: Encoder<T>)
        ensures
            r.counter() == ENCODER_MIDPOINT,
            r.select_low() == port.select_low(),
    {
        let mut p = port;
        p.write_counter(ENCODER_MIDPOINT);
        Encoder { port: p }
    }

    /// Re-center the counter at the midpoint.
    pub fn reset(&mut self)
        ensures
            final(self).counter() == ENCODER_MIDPOINT,
            final(self).select_low() == old(self).select_low(),
    {
        self.port.write_counter(ENCODER_MIDPOINT);
    }

    /// The counter's current value.
    pub fn count(&self) -> (r: u32)
        ensures
            r == self.counter() as u32,
    {
        self.port.read_counter() as u32
    }

    /// Whether the select button is pressed (its line reads low).
    pub fn select_pressed(&self) -> (r: bool)
        ensures
            r == self.select_low(),
    {
        self.port.read_select()
    }
}

/// A simulated encoder port: the counter and button level are plain stored
/// state a test can choose.
pub struct SimEncoderPort {
    counter: u16,
    select_low: bool,
}

impl SimEncoderPort {
    /// A port whose counter and button level start at the given values.
    pub fn new(counter: u16, select_low: bool) -> (r: SimEncoderPort)
        ensures
            r.counter() == counter,
            r.select_low() == select_low,
    {
        SimEncoderPort { counter, select_low }
    }
}

impl EncoderPort for SimEncoderPort {
    closed spec fn counter(&self) -> u16 {
        self.counter
    }

    closed spec fn select_low(&self) -> bool {
        self.select_low
    }

    fn read_counter(&self) -> (r: u16) {
        self.counter
    }

    fn write_counter(&mut self, value: u16) {
        self.counter = value;
    }

    fn read_select(&self) -> (r: bool) {
        self.select_low
    }
}

} // verus!
