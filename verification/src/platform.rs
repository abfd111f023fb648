//! What the library asks of the platform it runs on.

use vstd::prelude::*;

verus! {

/// A point in time on a platform without a clock. Every instant is the
/// same instant, and no time passes between two of them.
#[derive(Clone, Copy, Debug, PartialEq, Eq, Structural)]
pub struct Instant;

impl Instant {
    /// Returns the present instant.
    pub fn now() -> (instant: Instant)
        ensures
            instant == Instant,
    {
        Instant
    }

    /// Returns the nanoseconds that passed since an earlier instant: none.
    pub fn nanoseconds_since(self, earlier: Instant) -> (nanoseconds: u64)
        ensures
            nanoseconds == 0,
    {
        0
    }
}

/// A clock that a platform without one of its own supplies.
pub trait Clock {
    /// Returns the time that has passed since some fixed moment.
    fn now(&self) -> core::time::Duration;
}

/// A marker for the types that hold the channels of a pixel.
pub trait Pixel {
}

} // verus!
