//! Whole-second time intervals.
use std::time::Duration;
use vstd::prelude::*;
use crate::error::Error;

verus! {

/// The whole seconds that a `Duration` holds, as `Duration::as_secs` tells them.
pub uninterp spec fn whole_seconds(duration: Duration) -> u64;

/// The `Duration` that `Duration::from_secs` makes of a number of seconds.
pub uninterp spec fn seconds_long(seconds: u64) -> Duration;

/// `Duration::as_secs` returns the number of whole seconds contained in the
/// duration; what is left of a second is dropped.
pub assume_specification[ Duration::as_secs ](duration: &Duration) -> (seconds: u64)
    ensures
        seconds == whole_seconds(*duration),
;

/// `Duration::from_secs` makes a duration of exactly that many whole seconds.
pub assume_specification[ Duration::from_secs ](seconds: u64) -> (duration: Duration)
    ensures
        duration == seconds_long(seconds),
        whole_seconds(duration) == seconds,
;

/// A strictly positive whole number of seconds.
///
/// Sub-second precision is not supported.
#[derive(Debug, Clone, Copy, PartialEq, Eq, Structural, PartialOrd, Ord, Hash)]
pub struct Interval(u64);

impl View for Interval {
    type V = nat;

    /// The length of the interval in seconds.
    closed spec fn view(&self) -> nat {
        self.0 as nat
    }
}

impl Interval {
    #[verifier::type_invariant]
    pub(crate) open spec fn positive(self) -> bool {
        0 < self@ <= u64::MAX
    }

    /// Creates a new [`Interval`] with the given number of seconds.
    pub fn from_secs(seconds: u64) -> (r: Result<Interval, Error>)
        ensures
            r is Ok <==> seconds > 0,
            r matches Ok(i) ==> i@ == seconds,
            r matches Err(e) ==> e == Error::ZeroTimeInterval,
    {
        if seconds > 0 {
            Ok(Interval(seconds))
        } else {
            Err(Error::ZeroTimeInterval)
        }
    }

    /// Creates a new [`Interval`] with a given [`Duration`].
    ///
    /// Sub-second precision duration is not supported. Instead, it will be rounded
    /// down to the nearest second.
    pub fn from_duration(duration: Duration) -> (r: Result<Interval, Error>)
        ensures
            r is Ok <==> whole_seconds(duration) > 0,
            r matches Ok(i) ==> i@ == whole_seconds(duration),
            r matches Err(e) ==> e == Error::ZeroTimeInterval,
    {
        Interval::from_secs(duration.as_secs())
    }

    /// Returns the number of seconds in the interval.
    pub fn as_secs(&self) -> (s: u64)
        ensures
            s == self@,
            s > 0,
    {
        proof {
            use_type_invariant(self);
        }
        self.0
    }
}

impl From<Interval> for Duration {
    fn from(interval: Interval) -> (duration: Duration) {
        Duration::from_secs(interval.as_secs())
    }
}

impl vstd::std_specs::convert::FromSpecImpl<Interval> for Duration {
    open spec fn obeys_from_spec() -> bool {
        true
    }

    open spec fn from_spec(interval: Interval) -> Duration {
        seconds_long(interval@ as u64)
    }
}

/// Two intervals of the same length are the same interval, and the length of
/// an interval is a number of seconds that a `u64` holds.
pub proof fn lemma_same_length(a: Interval, b: Interval)
    ensures
        a@ <= u64::MAX,
        a@ == b@ ==> a == b,
{
}

} // verus!
