//! Error taxonomy for the display pipeline.

use vstd::prelude::*;

verus! {

/// Rejection raised by the strict paths of the display pipeline: either the
/// caller addressed a tube slot outside the active layout, or it asked a tube
/// class to show a character outside that class's alphabet.
#[derive(Debug, Copy, Clone, PartialEq, Eq, Structural)]
pub enum DisplayMessageError {
    TubeIndexOutOfRange,
    UnexpectedCharForTubeType,
}

pub type DisplayMessageResult<T> = Result<T, DisplayMessageError>;

} // verus!
