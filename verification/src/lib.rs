//! Driver core for a four-voice MIDI-to-control-voltage output panel.
//!
//! The analog outputs are produced by four 4-channel DAC chips that sit on a
//! two-wire serial bus driven entirely in software: the clock and data lines
//! are toggled one GPIO transition at a time, with calibrated busy-wait
//! delays between transitions. This crate contains that bus master, the
//! per-chip addressing and channel-write protocol built on top of it, and the
//! panel abstraction that maps a (voice, signal role) pair onto a (chip,
//! channel) pair.
//!
//! All GPIO access goes through the [`port::DacPort`] capability, so the
//! protocol layers are independent of any particular hardware platform, and a
//! recording simulation ([`port::SimPort`]) can stand in for the real lines.

pub mod bus;
pub mod cv;
pub mod encoder;
pub mod mcp4728;
pub mod port;
