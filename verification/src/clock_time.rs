//! The clock's view of wall-clock time: a reading on the local civil
//! timeline, precise to the microsecond.
//!
//! The display pipeline never talks to a time source itself; the caller
//! samples the clock and hands a reading in. Sub-second phase, second of
//! minute and minute index are all derived from the microsecond count, so
//! the animation and scheduling arithmetic stays in plain integers. Only
//! the 12-hour dial reading cannot be derived from it and travels as its
//! own field.

use vstd::prelude::*;

verus! {

pub const MICROS_PER_SECOND: u64 = 1_000_000;

pub const MICROS_PER_MINUTE: u64 = 60_000_000;

/// Upper bound on accepted clock readings (around the year 2096), leaving
/// wide headroom for overlay window arithmetic in `u64`.
pub const MAX_CLOCK_MICROS: u64 = 4_000_000_000_000_000;

/// One sampled reading of the local wall clock.
#[derive(Debug, Copy, Clone, PartialEq, Eq, Structural)]
pub struct ClockTime {
    /// Microseconds on the local civil timeline: seconds and minutes of the
    /// civil time of day fall on its exact second and minute boundaries.
    pub epoch_micros: u64,
    /// Hour on the 12-hour dial, `1..=12`.
    pub hour12: u8,
}

impl ClockTime {
    pub open spec fn wf(&self) -> bool {
        &&& self.epoch_micros <= MAX_CLOCK_MICROS
        &&& 1 <= self.hour12 <= 12
    }

    /// Microseconds into the current second.
    pub open spec fn subsec_micros_spec(&self) -> int {
        self.epoch_micros as int % (MICROS_PER_SECOND as int)
    }

    /// Milliseconds into the current second.
    pub open spec fn subsec_millis_spec(&self) -> int {
        self.subsec_micros_spec() / 1000
    }

    /// Second of the current minute.
    pub open spec fn second_of_minute_spec(&self) -> int {
        (self.epoch_micros as int / (MICROS_PER_SECOND as int)) % 60
    }

    /// Minute of the current hour.
    pub open spec fn minute_of_hour_spec(&self) -> int {
        (self.epoch_micros as int / (MICROS_PER_MINUTE as int)) % 60
    }

    /// Minutes elapsed on the civil timeline; advances exactly at minute
    /// rollover.
    pub open spec fn minute_index_spec(&self) -> int {
        self.epoch_micros as int / (MICROS_PER_MINUTE as int)
    }

    /// The microsecond at which the current minute began.
    pub open spec fn minute_start_spec(&self) -> int {
        self.minute_index_spec() * (MICROS_PER_MINUTE as int)
    }

    pub fn subsec_micros(&self) -> (r: u32)
        ensures
            r == self.subsec_micros_spec(),
            r < 1_000_000,
    {
        (self.epoch_micros % MICROS_PER_SECOND) as u32
    }

    pub fn subsec_millis(&self) -> (r: u32)
        ensures
            r == self.subsec_millis_spec(),
            r < 1000,
    {
        self.subsec_micros() / 1000
    }

    pub fn second_of_minute(&self) -> (r: u32)
        ensures
            r == self.second_of_minute_spec(),
            r < 60,
    {
        ((self.epoch_micros / MICROS_PER_SECOND) % 60) as u32
    }

    pub fn minute_of_hour(&self) -> (r: u32)
        ensures
            r == self.minute_of_hour_spec(),
            r < 60,
    {
        ((self.epoch_micros / MICROS_PER_MINUTE) % 60) as u32
    }

    pub fn minute_index(&self) -> (r: u64)
        ensures
            r == self.minute_index_spec(),
    {
        self.epoch_micros / MICROS_PER_MINUTE
    }

    pub fn minute_start_micros(&self) -> (r: u64)
        requires
            self.wf(),
        ensures
            r == self.minute_start_spec(),
            r <= self.epoch_micros,
    {
        let idx = self.epoch_micros / MICROS_PER_MINUTE;
        idx * MICROS_PER_MINUTE
    }
}

} // verus!
