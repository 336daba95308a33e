//! What a rate limiter answers: a decision and the quota behind it.
use vstd::prelude::*;
use crate::connection::Connection;
use crate::error::Error;

verus! {

/// A rate limiter for a single resource.
pub trait RateLimiter {
    /// The limit that the rule sets: the most tokens that it admits at once.
    spec fn limit(&self) -> u64;

    /// Acquires a resource from the rate limiter. The weight of the resource is
    /// specified by `tokens`.
    ///
    /// If the rate limit has not been exceeded, the resource is acquired and
    /// [`AcquireResult::Accepted`] is returned.
    /// Otherwise, [`AcquireResult::Throttled`] is returned, which is no error.
    ///
    /// Requires a connection to the store to be passed in. The store evaluates
    /// at most one script per call, and nothing is tried twice: on an
    /// [`Error::Internal`] the caller cannot know whether the tokens were
    /// debited, so trying again may debit them twice.
    fn acquire<C: Connection>(&self, resource: &str, tokens: u64, con: &mut C) -> (r: Result<
        AcquireResult,
        Error,
    >)
        ensures
            r matches Ok(decision) ==> decision.quota().limit == self.limit()
                && decision.quota().wf(),
            r matches Err(e) ==> e is Internal,
    ;
}

/// Metadata about the current rate limiting state.
#[derive(Debug, Clone, Copy, PartialEq, Eq, Structural)]
pub struct Quota {
    /// The maximum amount of resource that can be requested in an interval.
    pub limit: u64,
    /// The amount of resource remaining in the current interval.
    pub remaining: u64,
    /// The amount of resource that has been requested in the current interval.
    pub used: u64,
    /// The epoch-seconds timestamp when the current interval will reset.
    ///
    /// The client may use this to determine when to retry the request.
    pub reset: u64,
}

impl Quota {
    /// The quota of a rule with the given capacity of which `remaining` is left.
    pub open spec fn spec_new(capacity: u64, remaining: u64, reset: u64) -> Quota {
        Quota {
            limit: capacity,
            remaining,
            used: if capacity >= remaining {
                (capacity - remaining) as u64
            } else {
                0
            },
            reset,
        }
    }

    /// A quota is consistent when `used` is what `limit` exceeds `remaining` by,
    /// and zero where it does not.
    pub open spec fn wf(self) -> bool {
        self.used == if self.limit >= self.remaining {
            self.limit - self.remaining
        } else {
            0
        }
    }

    /// Creates a new [`Quota`] with the given capacity, remaining tokens, and
    /// reset timestamp.
    #[verifier::when_used_as_spec(spec_new)]
    pub fn new(capacity: u64, remaining: u64, reset: u64) -> (q: Quota)
        ensures
            q == Quota::spec_new(capacity, remaining, reset),
            q.wf(),
    {
        Quota {
            limit: capacity,
            remaining,
            used: if capacity >= remaining {
                capacity - remaining
            } else {
                0
            },
            reset,
        }
    }
}

/// A result from a rate limiting request.
#[derive(Debug, Clone, Copy, PartialEq, Eq, Structural)]
pub enum AcquireResult {
    /// The request was allowed, and has been debited.
    Accepted(Quota),
    /// The request was denied because the rate limit was exceeded.
    Throttled(Quota),
}

impl AcquireResult {
    /// The quota that the decision carries.
    pub open spec fn quota(self) -> Quota {
        match self {
            AcquireResult::Accepted(q) => q,
            AcquireResult::Throttled(q) => q,
        }
    }

    /// The decision on a request of which the store said whether it was
    /// `accepted`, and the quota around it.
    pub open spec fn decided(accepted: bool, quota: Quota) -> AcquireResult {
        if accepted {
            AcquireResult::Accepted(quota)
        } else {
            AcquireResult::Throttled(quota)
        }
    }
}

} // verus!
