//! Display pipeline for a bank of cold-cathode numeric tubes driven over
//! a serial shift-register chain: tube encoding, frame register
//! composition, time-indexed animation, overlay scheduling and the
//! per-frame latch protocol decisions.

pub mod animation_utils;
pub mod bits;
pub mod clock_driver;
pub mod clock_objects;
pub mod clock_time;
pub mod errors;
pub mod randomness;
pub mod spin_delay;
pub mod temperature_sensor;
pub mod tube_objects;

pub use errors::DisplayMessageError;
pub use errors::DisplayMessageResult;
