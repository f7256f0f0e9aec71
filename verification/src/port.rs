//! The GPIO capability that the bit-banged bus is built on.
//!
//! Every line transition, data-line sample and busy-wait the protocol code
//! performs is recorded in a ghost sequence of [`BusEvent`]s, so the contracts
//! of the protocol layers can state, bit for bit, what reaches the wires.
//! [`SimPort`] is a verified in-memory implementation whose event log is a
//! real vector; platform code provides an implementation over the actual GPIO
//! registers and a cycle-accurate busy-wait.

use vstd::prelude::*;

verus! {

/// One observable action on the GPIO lines of the DAC subsystem.
#[derive(Clone, Copy, Debug, PartialEq, Eq, Structural)]
pub enum BusEvent {
    /// The clock line was driven to the given level (true = high).
    Scl(bool),
    /// The data line was driven to the given level (true = high).
    Sda(bool),
    /// The data line was sensed; the payload is the level that was seen.
    Read(bool),
    /// The latch line of the chip with the given index was driven to the
    /// given level.
    Latch(usize, bool),
    /// A busy-wait of the given number of system-clock cycles.
    Wait(u32),
}

/// Capability over the lines the DAC subsystem owns: the shared clock and
/// data lines, one latch line per chip, and a calibrated busy-wait.
///
/// `events` is the full history of actions taken through the port. Each
/// method appends exactly one event; nothing else may touch the lines, which
/// is what makes a multi-byte bus transaction a single uninterruptible unit.
/// The result of `read_sda` is decided by whatever device sits on the bus, so
/// no implementation promises anything about the level it returns.
pub trait DacPort: Sized {
    /// The history of line transitions, samples and waits so far. The
    /// default stands for an unobserved history; an implementation whose
    /// history can be inspected (such as [`SimPort`]) overrides it.
    open spec fn events(&self) -> Seq<BusEvent> {
        Seq::empty()
    }

    /// Drive the clock line to the given level.
    fn set_scl(&mut self, high: bool)
        ensures
            final(self).events() == old(self).events().push(BusEvent::Scl(high)),
    ;

    /// Drive the data line to the given level.
    fn set_sda(&mut self, high: bool)
        ensures
            final(self).events() == old(self).events().push(BusEvent::Sda(high)),
    ;

    /// Release the data line and sample its level (true = high). A device
    /// acknowledging a byte pulls the line low, so `false` means "ack".
    fn read_sda(&mut self) -> (r: bool)
        ensures
            final(self).events() == old(self).events().push(BusEvent::Read(r)),
    ;

    /// Drive the latch line of the chip with the given index.
    fn set_latch(&mut self, chip: usize, high: bool)
        ensures
            final(self).events() == old(self).events().push(BusEvent::Latch(chip, high)),
    ;

    /// Busy-wait for the given number of system-clock cycles.
    fn spin(&mut self, cycles: u32)
        ensures
            final(self).events() == old(self).events().push(BusEvent::Wait(cycles)),
    ;
}

/// A simulated port: it records every event in an inspectable vector and
/// answers data-line samples from a fixed script, front to back. Once the
/// script is exhausted the line reads high, which is what a pulled-up bus
/// with no device driving it looks like; an empty script therefore models a
/// bus on which nothing ever acknowledges.
pub struct SimPort {
    log: Vec<BusEvent>,
    reads: Vec<bool>,
    cursor: usize,
}

impl SimPort {
    /// The scripted data-line levels, in the order they will be returned.
    pub closed spec fn script(&self) -> Seq<bool> {
        self.reads@
    }

    /// How many scripted levels have been consumed.
    pub closed spec fn consumed(&self) -> int {
        self.cursor as int
    }

    /// A fresh port with an empty log and the given read script.
    pub fn new(reads: Vec<bool>) -> (r: SimPort)
        ensures
            r.events() == Seq::<BusEvent>::empty(),
            r.script() == reads@,
            r.consumed() == 0,
    {
        SimPort { log: Vec::new(), reads, cursor: 0 }
    }

    /// The recorded event log.
    pub fn log(&self) -> (r: &Vec<BusEvent>)
        ensures
            r@ == self.events(),
    {
        &self.log
    }
}

impl DacPort for SimPort {
    closed spec fn events(&self) -> Seq<BusEvent> {
        self.log@
    }

    fn set_scl(&mut self, high: bool) {
        self.log.push(BusEvent::Scl(high));
    }

    fn set_sda(&mut self, high: bool) {
        self.log.push(BusEvent::Sda(high));
    }

    fn read_sda(&mut self) -> (r: bool) {
        let level: bool = if self.cursor < self.reads.len() {
            let v = self.reads[self.cursor];
            self.cursor = self.cursor + 1;
            v
        } else {
            true
        };
        self.log.push(BusEvent::Read(level));
        level
    }

    fn set_latch(&mut self, chip: usize, high: bool) {
        self.log.push(BusEvent::Latch(chip, high));
    }

    fn spin(&mut self, cycles: u32) {
        self.log.push(BusEvent::Wait(cycles));
    }
}

} // verus!
