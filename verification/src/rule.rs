//! Rate limiting rules.
use vstd::prelude::*;
use crate::connection::Connection;
use crate::connection::ScriptCall;
use crate::error::Error;
use crate::rate_limiter::AcquireResult;
use crate::rate_limiter::RateLimiter;

pub mod clock;
pub mod fixed_window;
pub mod token_bucket;

pub use self::fixed_window::FixedWindow;
pub use self::token_bucket::TokenBucket;

verus! {

/// Rate limiting rule.
#[derive(Debug, Clone, Copy, PartialEq, Eq, Structural)]
pub enum Rule {
    /// Rate limiting rule based on token bucket algorithm.
    ///
    /// See [`TokenBucket`] for details.
    TokenBucket(TokenBucket),
    /// Rate limiting rule based on fixed window algorithm.
    ///
    /// See [`FixedWindow`] for details.
    FixedWindow(FixedWindow),
}

impl RateLimiter for Rule {
    open spec fn limit(&self) -> u64 {
        match *self {
            Rule::TokenBucket(rule) => rule@.capacity,
            Rule::FixedWindow(rule) => rule@.capacity,
        }
    }

    /// Acquires by the rule that this is, as that rule's own `acquire` does.
    fn acquire<C: Connection>(&self, resource: &str, tokens: u64, con: &mut C) -> (r: Result<
        AcquireResult,
        Error,
    >)
        ensures
            match *self {
                Rule::TokenBucket(rule) => exists|
                    now: u64,
                    asked: &mut C,
                    call: ScriptCall,
                    reply: Result<redis::Value, redis::RedisError>,
                |
                    #![trigger
                        TokenBucket::asks(rule@, resource@, tokens, now, call),
                        call_ensures(C::evaluate, (asked, &call), reply),
                    ]
                    {
                        &&& mut_ref_current(asked) == *old(con)
                        &&& mut_ref_future(asked) == *final(con)
                        &&& TokenBucket::asks(rule@, resource@, tokens, now, call)
                        &&& call_ensures(C::evaluate, (asked, &call), reply)
                        &&& TokenBucket::concludes(rule@, reply, r)
                    },
                Rule::FixedWindow(rule) => exists|
                    clock: &mut C,
                    time: Result<redis::Value, redis::RedisError>,
                |
                    {
                        &&& mut_ref_current(clock) == *old(con)
                        &&& #[trigger] call_ensures(C::time, (clock,), time)
                        &&& match FixedWindow::seconds_told(time) {
                            Some(seconds) => exists|
                                asked: &mut C,
                                call: ScriptCall,
                                reply: Result<redis::Value, redis::RedisError>,
                            |
                                {
                                    &&& mut_ref_current(asked) == mut_ref_future(clock)
                                    &&& mut_ref_future(asked) == *final(con)
                                    &&& FixedWindow::asks(rule@, resource@, tokens, seconds, call)
                                    &&& #[trigger] call_ensures(
                                        C::evaluate,
                                        (asked, &call),
                                        reply,
                                    )
                                    &&& FixedWindow::concludes(rule@, seconds, reply, r)
                                },
                            None => mut_ref_future(clock) == *final(con) && r is Err,
                        }
                    },
            },
    {
        match self {
            Rule::TokenBucket(rule) => rule.acquire(resource, tokens, con),
            Rule::FixedWindow(rule) => rule.acquire(resource, tokens, con),
        }
    }
}

} // verus!
