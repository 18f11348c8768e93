//! Spin-precision delay handle.
//!
//! The display loop needs sub-millisecond sleeps between latch phases.
//! This carrier type owns no state; the caller pairs it with a
//! spin-sleeping backend at the peripheral layer, where the actual
//! waiting is I/O and stays outside the verified core.

use vstd::prelude::*;

verus! {

/// A delay provider for the peripheral timing traits.
#[derive(Debug)]
pub struct Delay {}

impl Delay {
    /// Constructs a new `Delay`.
    pub fn new() -> Delay {
        Delay {  }
    }
}

} // verus!
