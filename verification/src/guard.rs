//! The range guard: a reusable bounds check run before a value is encoded.

use vstd::prelude::*;

verus! {

/// The one failure a command constructor can report: a numeric field fell
/// outside its device-accepted range. `start` and `end` carry the inclusive
/// bounds the value was held against.
#[derive(Debug, Clone, Copy, PartialEq, Eq, Structural)]
pub enum FieldError {
    InvalidRange { start: u16, end: u16 },
}

/// Validate `value` against the inclusive bounds `[min, max]`.
///
/// Only the upper bound is enforced: a value above `max` is rejected, while
/// a value below `min` passes. `min` is still carried into the error payload.
/// This asymmetry is deliberate and mirrors the device-facing behaviour.
pub fn bounded(value: u16, min: u16, max: u16) -> (r: Result<(), FieldError>)
    ensures
        value > max ==> r == Err::<(), FieldError>(
            FieldError::InvalidRange { start: min, end: max },
        ),
        value <= max ==> r == Ok::<(), FieldError>(()),
{
    if value > max {
        Err(FieldError::InvalidRange { start: min, end: max })
    } else {
        Ok(())
    }
}

/// Validate `value` against an upper bound alone; the lower bound defaults
/// to zero.
pub fn bounded_max(value: u16, max: u16) -> (r: Result<(), FieldError>)
    ensures
        value > max ==> r == Err::<(), FieldError>(
            FieldError::InvalidRange { start: 0, end: max },
        ),
        value <= max ==> r == Ok::<(), FieldError>(()),
{
    bounded(value, 0, max)
}

} // verus!
