//! The shared temperature cell and the sensor-side bookkeeping.
//!
//! The probe itself is an external collaborator: it polls a one-wire bus
//! on its own thread and hands each outcome to [`TemperatureSensor`],
//! whose decision — publish the reading, clear a stale one, or leave the
//! cell alone — is plain logic and verified here. The cell is the one
//! piece of state the sensor context shares with the display loop.

use vstd::prelude::*;

use std::sync::Arc;
use std::sync::RwLock;

use crate::clock_time::ClockTime;

verus! {

/// A single-slot shared cell holding the latest temperature in hundredths
/// of a degree Celsius, or `None` while no fresh reading is known. The
/// sensor context is the sole writer; display-side overlays read it.
/// Opaque to the verifier: a read returns an arbitrary value, so whatever
/// is proved of the readers holds for every reading.
#[verifier::external_body]
pub struct TemperatureCell {
    inner: Arc<RwLock<Option<i16>>>,
}

impl TemperatureCell {
    /// Relies on `Arc::new` and `RwLock::new`: a fresh, empty cell.
    #[verifier::external_body]
    pub fn new() -> TemperatureCell {
        TemperatureCell { inner: Arc::new(RwLock::new(None)) }
    }

    /// Relies on `Arc::clone`: a second handle to the same cell.
    #[verifier::external_body]
    pub fn clone_handle(&self) -> TemperatureCell {
        TemperatureCell { inner: Arc::clone(&self.inner) }
    }

    /// Relies on `RwLock::read`: the most recent value written. Which
    /// value that is depends on the writer thread's timing, so nothing is
    /// promised of the result.
    #[verifier::external_body]
    pub fn read(&self) -> Option<i16> {
        *self.inner.read().unwrap()
    }

    /// Relies on `RwLock::write`: stores the value for later readers.
    #[verifier::external_body]
    pub fn write(&self, value: Option<i16>) {
        *self.inner.write().unwrap() = value;
    }
}

/// How long a published reading stays trustworthy without a successful
/// refresh before the sensor clears it.
pub const TEMPERATURE_STALE_MICROS: u64 = 120_000_000;

/// Sensor-side bookkeeping: remembers when the last successful reading
/// was published, so a long run of failed polls clears the shared cell
/// instead of letting a stale value linger on the display.
pub struct TemperatureSensor {
    /// When the cell was last written with a fresh reading.
    pub updated_at_micros: Option<u64>,
}

impl TemperatureSensor {
    /// The published reading has outlived its trust window.
    pub open spec fn is_stale_at(&self, now: int) -> bool {
        match self.updated_at_micros {
            Some(u) => u + TEMPERATURE_STALE_MICROS < now,
            None => false,
        }
    }

    pub fn new() -> (r: TemperatureSensor)
        ensures
            r.updated_at_micros is None,
    {
        TemperatureSensor { updated_at_micros: None }
    }

    /// Decides what one poll outcome does to the shared cell: a fresh
    /// reading is always published; a failed poll publishes nothing,
    /// except that it clears the cell once the last success is stale.
    /// Returns the value to write, or `None` to leave the cell alone.
    pub fn on_poll_result(&mut self, now: &ClockTime, reading: Option<i16>) -> (r: Option<
        Option<i16>,
    >)
        requires
            now.wf(),
        ensures
            match reading {
                Some(v) => r == Some(Some(v)) && final(self).updated_at_micros == Some(
                    now.epoch_micros,
                ),
                None => if old(self).is_stale_at(now.epoch_micros as int) {
                    r == Some(Option::<i16>::None) && final(self).updated_at_micros is None
                } else {
                    r is None && *final(self) == *old(self)
                },
            },
    {
        match reading {
            Some(v) => {
                self.updated_at_micros = Some(now.epoch_micros);
                Some(Some(v))
            },
            None => {
                let stale = match self.updated_at_micros {
                    Some(u) => (u as u128) + (TEMPERATURE_STALE_MICROS as u128) < (
                    now.epoch_micros as u128),
                    None => false,
                };
                if stale {
                    self.updated_at_micros = None;
                    Some(None)
                } else {
                    None
                }
            },
        }
    }
}

} // verus!
