//! The fixed window rule.
use vstd::prelude::*;
use vstd::string::StringExecFns;
use crate::connection::internal;
use crate::connection::read_time;
use crate::connection::read_window_reply;
use crate::connection::time_in;
use crate::connection::window_reply_in;
use crate::connection::Connection;
use crate::connection::Script;
use crate::connection::ScriptCall;
use crate::error::Error;
use crate::interval::lemma_same_length;
use crate::interval::Interval;
use crate::rate_limiter::AcquireResult;
use crate::rate_limiter::Quota;
use crate::rate_limiter::RateLimiter;
use crate::store::window;
use crate::text::decimal;
use crate::text::lemma_decimal_injective;
use crate::text::push_decimal;

verus! {

/// What a fixed window rule says, as plain numbers.
pub struct WindowRule {
    /// The most tokens that one window admits.
    pub capacity: u64,
    /// The length of a window in seconds.
    pub window: u64,
}

impl WindowRule {
    /// A window lasts at least a second.
    pub open spec fn valid(self) -> bool {
        self.window > 0
    }
}

/// [Fixed window](https://developer.redis.com/develop/java/spring/rate-limiting/fixed-window/)
/// is a simple algorithm for rate limiting. It allows a limited amount of traffic in a fixed
/// time window. Once the window is full, no more traffic is allowed until the window is reset.
#[derive(Debug, Clone, Copy, PartialEq, Eq, Structural)]
pub struct FixedWindow {
    capacity: u64,
    window: Interval,
}

impl View for FixedWindow {
    type V = WindowRule;

    closed spec fn view(&self) -> WindowRule {
        WindowRule { capacity: self.capacity, window: self.window@ as u64 }
    }
}

impl FixedWindow {
    /// Creates a new [`FixedWindow`] with the given capacity and window.
    ///
    /// A capacity of zero is a rule that throttles every request.
    pub fn new(capacity: u64, window: Interval) -> (r: Result<FixedWindow, Error>)
        ensures
            r matches Ok(rule) && rule@ == (WindowRule { capacity, window: window@ as u64 })
                && rule@.valid(),
    {
        proof {
            use_type_invariant(&window);
        }
        Ok(FixedWindow { capacity, window })
    }

    /// Returns the capacity of the fixed window rule.
    pub fn capacity(&self) -> (c: u64)
        ensures
            c == self@.capacity,
    {
        self.capacity
    }

    /// Returns the window of the fixed window rule.
    pub fn window(&self) -> (w: Interval)
        ensures
            w@ == self@.window,
            self@.window > 0,
    {
        proof {
            use_type_invariant(&self.window);
        }
        self.window
    }
}

/// Two rules that say the same are the same rule.
pub proof fn lemma_same_rule(a: FixedWindow, b: FixedWindow)
    requires
        a@ == b@,
    ensures
        a == b,
{
    lemma_same_length(a.window, b.window);
    lemma_same_length(b.window, a.window);
}

/// The number of the window that a second of the store's clock falls into.
/// Windows start at the epoch and do not overlap.
pub open spec fn window_of(rule: WindowRule, seconds: u64) -> u64 {
    (seconds as int / rule.window as int) as u64
}

/// The second at which the window after that of `seconds` starts, or the last
/// second that can be told where that would lie beyond it.
pub open spec fn reset_at(rule: WindowRule, seconds: u64) -> u64 {
    let next = (window_of(rule, seconds) + 1) * rule.window;
    if next <= u64::MAX {
        next as u64
    } else {
        u64::MAX
    }
}

/// A window starts no later than any of its seconds, and the next one starts
/// after them, one window's length later.
pub proof fn lemma_window_bounds(rule: WindowRule, seconds: u64)
    requires
        rule.valid(),
    ensures
        window_of(rule, seconds) == seconds as int / rule.window as int,
        window_of(rule, seconds) * rule.window <= seconds < (window_of(rule, seconds) + 1)
            * rule.window,
        (window_of(rule, seconds) + 1) * rule.window == window_of(rule, seconds) * rule.window
            + rule.window,
{
    let window = rule.window as int;
    let passed = seconds as int;
    let id = passed / window;
    assert(id * window <= passed < (id + 1) * window && 0 <= id <= passed && (id + 1) * window
        == id * window + window) by (nonlinear_arith)
        requires
            id == passed / window,
            window > 0,
            passed >= 0,
    ;
}

/// Monotone reset: while the store's clock does not run backwards, the reset
/// that a later request is told is no earlier than that of the one before.
pub proof fn lemma_reset_monotone(rule: WindowRule, seconds: u64, later: u64)
    requires
        rule.valid(),
        seconds <= later,
    ensures
        window_of(rule, seconds) <= window_of(rule, later),
        reset_at(rule, seconds) <= reset_at(rule, later),
{
    lemma_window_bounds(rule, seconds);
    lemma_window_bounds(rule, later);
    let window = rule.window as int;
    let a = window_of(rule, seconds) as int;
    let b = window_of(rule, later) as int;
    assert(a <= b && (a + 1) * window <= (b + 1) * window) by (nonlinear_arith)
        requires
            window > 0,
            a * window <= seconds,
            seconds <= later,
            later < (b + 1) * window,
    ;
}

/// The reset is a usable hint to retry: where it can be told, it lies after
/// the second of the request, and every second from it on falls into a later
/// window, whose counter the request has not touched.
pub proof fn lemma_reset_opens_window(rule: WindowRule, seconds: u64, later: u64)
    requires
        rule.valid(),
        reset_at(rule, seconds) < u64::MAX,
        later >= reset_at(rule, seconds),
    ensures
        seconds < reset_at(rule, seconds),
        window_of(rule, reset_at(rule, seconds)) == window_of(rule, seconds) + 1,
        window_of(rule, later) > window_of(rule, seconds),
{
    lemma_window_bounds(rule, seconds);
    lemma_window_bounds(rule, later);
    lemma_window_bounds(rule, reset_at(rule, seconds));
    let window = rule.window as int;
    let a = window_of(rule, seconds) as int;
    let b = window_of(rule, later) as int;
    let c = window_of(rule, reset_at(rule, seconds)) as int;
    let reset = reset_at(rule, seconds) as int;
    assert(b > a) by (nonlinear_arith)
        requires
            window > 0,
            (a + 1) * window <= later,
            later < (b + 1) * window,
    ;
    assert(c == a + 1) by (nonlinear_arith)
        requires
            window > 0,
            reset == (a + 1) * window,
            c * window <= reset,
            reset < (c + 1) * window,
    ;
}

impl FixedWindow {
    /// The key under which the store counts one window of a resource. The
    /// resource's name is taken as it is, and the window's number is written
    /// in decimal.
    pub open spec fn spec_key(resource: Seq<char>, window_id: u64) -> Seq<char> {
        "fixed_window:"@ + resource + ":"@ + decimal(window_id as nat)
    }

    /// The number of the window that the second `seconds` falls into.
    pub fn window_id(&self, seconds: u64) -> (id: u64)
        ensures
            id == window_of(self@, seconds),
    {
        seconds / self.window.as_secs()
    }

    /// The second at which the window after that of `seconds` starts.
    pub fn reset(&self, seconds: u64) -> (reset: u64)
        ensures
            reset == reset_at(self@, seconds),
    {
        let window = self.window.as_secs();
        let id = seconds / window;
        proof {
            lemma_window_bounds(self@, seconds);
        }
        let next: u128 = (id as u128 + 1) * (window as u128);
        if next <= u64::MAX as u128 {
            next as u64
        } else {
            u64::MAX
        }
    }

    /// The key under which the store counts the window `window_id` of
    /// `resource`.
    pub fn key(resource: &str, window_id: u64) -> (key: String)
        ensures
            key@ == Self::spec_key(resource@, window_id),
    {
        let mut key = String::from_str("fixed_window:").concat(resource).concat(":");
        push_decimal(&mut key, window_id);
        key
    }

    /// The arguments that the script is called with, in the order in which it
    /// reads them.
    pub open spec fn spec_args(rule: WindowRule, tokens: u64) -> Seq<u64> {
        seq![rule.capacity, rule.window, tokens]
    }

    /// Whether `call` is the evaluation that asks the store for `tokens` of
    /// `resource` in the window of the second `seconds`: the fixed window
    /// script, on the key of that window, with the arguments in order.
    pub open spec fn asks(
        rule: WindowRule,
        resource: Seq<char>,
        tokens: u64,
        seconds: u64,
        call: ScriptCall,
    ) -> bool {
        &&& call.script == Script::FixedWindow
        &&& call.key@ == Self::spec_key(resource, window_of(rule, seconds))
        &&& call.args@ == Self::spec_args(rule, tokens)
    }

    /// The evaluation that asks the store for `tokens` of `resource` in the
    /// window of the second `seconds` of the store's clock.
    pub fn call(&self, resource: &str, tokens: u64, seconds: u64) -> (call: ScriptCall)
        ensures
            Self::asks(self@, resource@, tokens, seconds, call),
    {
        let args = vec![self.capacity, self.window.as_secs(), tokens];
        assert(args@ =~= seq![self@.capacity, self@.window, tokens]);
        ScriptCall {
            script: Script::FixedWindow,
            key: Self::key(resource, self.window_id(seconds)),
            args,
        }
    }

    /// The decision that a reply `(accepted, remaining)` of the script stands
    /// for under a rule, for a request in the window of `seconds`.
    pub open spec fn decided(rule: WindowRule, seconds: u64, accepted: bool, remaining: u64)
        -> AcquireResult {
        AcquireResult::decided(
            accepted,
            Quota::spec_new(rule.capacity, remaining, reset_at(rule, seconds)),
        )
    }

    /// Turns a reply of the script into the decision it stands for: the
    /// capacity is the limit, `remaining` is what the window still admits, and
    /// the reset is the start of the next window.
    pub fn decision(&self, seconds: u64, accepted: bool, remaining: u64) -> (d: AcquireResult)
        ensures
            d == Self::decided(self@, seconds, accepted, remaining),
            d.quota().wf(),
    {
        let quota = Quota::new(self.capacity, remaining, self.reset(seconds));
        if accepted {
            AcquireResult::Accepted(quota)
        } else {
            AcquireResult::Throttled(quota)
        }
    }

    /// The seconds that the store's answer to the question for its time
    /// tells, where it tells any.
    pub open spec fn seconds_told(reply: Result<redis::Value, redis::RedisError>) -> Option<u64> {
        match reply {
            Ok(value) => match time_in(value) {
                Some((seconds, _)) => Some(seconds),
                None => None,
            },
            Err(_) => None,
        }
    }

    /// Reads the store's answer to the question for its time: the seconds of
    /// its wall clock. A failure, or a reply that holds no pair of numbers, is
    /// an [`Error::Internal`].
    pub fn server_seconds(reply: Result<redis::Value, redis::RedisError>) -> (r: Result<
        u64,
        Error,
    >)
        ensures
            match r {
                Ok(seconds) => Self::seconds_told(reply) == Some(seconds),
                Err(e) => Self::seconds_told(reply) is None && e is Internal,
            },
    {
        match reply {
            Ok(value) => match read_time(&value) {
                Ok((seconds, _)) => Ok(seconds),
                Err(error) => Err(internal(&error)),
            },
            Err(error) => Err(internal(&error)),
        }
    }

    /// What [`FixedWindow::conclude`] makes of what came back from the store,
    /// but for the text of an error.
    pub open spec fn concluded(
        rule: WindowRule,
        seconds: u64,
        reply: Result<redis::Value, redis::RedisError>,
    ) -> Option<AcquireResult> {
        match reply {
            Ok(value) => match window_reply_in(value) {
                Some((accepted, remaining)) => Some(
                    Self::decided(rule, seconds, accepted, remaining),
                ),
                None => None,
            },
            Err(_) => None,
        }
    }

    /// Whether `r` is what is made of what came back from the store for a
    /// call made for the second `seconds`: a reply that holds a pair of a flag
    /// and a number is the decision it stands for; a failure, or any other
    /// reply, is an [`Error::Internal`].
    pub open spec fn concludes(
        rule: WindowRule,
        seconds: u64,
        reply: Result<redis::Value, redis::RedisError>,
        r: Result<AcquireResult, Error>,
    ) -> bool {
        match r {
            Ok(d) => Self::concluded(rule, seconds, reply) == Some(d),
            Err(e) => Self::concluded(rule, seconds, reply) is None && e is Internal,
        }
    }

    /// Reads what came back from the store for a [`FixedWindow::call`] made
    /// for the second `seconds`: a reply that holds a pair of a flag and a
    /// number is the decision it stands for; a failure, or any other reply, is
    /// an [`Error::Internal`].
    pub fn conclude(&self, seconds: u64, reply: Result<redis::Value, redis::RedisError>) -> (r:
        Result<AcquireResult, Error>)
        ensures
            Self::concludes(self@, seconds, reply, r),
    {
        match reply {
            Ok(value) => match read_window_reply(&value) {
                Ok((accepted, remaining)) => Ok(self.decision(seconds, accepted, remaining)),
                Err(error) => Err(internal(&error)),
            },
            Err(error) => Err(internal(&error)),
        }
    }
}

/// The windows of a resource are counted under keys of their own: no two
/// windows of one resource share a key.
pub proof fn lemma_windows_have_their_own_keys(resource: Seq<char>, window: u64, other: u64)
    requires
        window != other,
    ensures
        FixedWindow::spec_key(resource, window) != FixedWindow::spec_key(resource, other),
{
    let head = "fixed_window:"@ + resource + ":"@;
    let key = FixedWindow::spec_key(resource, window);
    let other_key = FixedWindow::spec_key(resource, other);
    if key == other_key {
        assert(key.subrange(head.len() as int, key.len() as int) =~= decimal(window as nat));
        assert(other_key.subrange(head.len() as int, other_key.len() as int) =~= decimal(
            other as nat,
        ));
        lemma_decimal_injective(window as nat, other as nat);
    }
}

/// The store reads a call as the client wrote it: what it makes of the
/// arguments of a call is the evaluation of that request under that rule.
pub proof fn lemma_call_is_understood(rule: WindowRule, counter: Option<u64>, requested: u64)
    requires
        rule.valid(),
    ensures
        window::answered(FixedWindow::spec_args(rule, requested), counter) == Some(
            window::evaluated(rule, counter, requested),
        ),
{
}

/// What a client is told when it asks for `requested` tokens while the
/// store's clock reads `seconds`, and the store evaluates the request against
/// the counter of that window as [`window::evaluated`] says.
pub open spec fn served(rule: WindowRule, counter: Option<u64>, seconds: u64, requested: u64)
    -> AcquireResult {
    let evaluation = window::evaluated(rule, counter, requested);
    FixedWindow::decided(rule, seconds, evaluation.accepted, evaluation.remaining)
}

/// The quota that a client is told is consistent: its limit is the capacity,
/// and what remains and what is used make up the limit. While the counter is
/// within the capacity, what is used is what the window has counted.
pub proof fn lemma_served_quota(
    rule: WindowRule,
    counter: Option<u64>,
    seconds: u64,
    requested: u64,
)
    ensures
        served(rule, counter, seconds, requested).quota().wf(),
        served(rule, counter, seconds, requested).quota().limit == rule.capacity,
        served(rule, counter, seconds, requested).quota().remaining + served(
            rule,
            counter,
            seconds,
            requested,
        ).quota().used == rule.capacity,
        window::count_of(counter) <= rule.capacity ==> served(
            rule,
            counter,
            seconds,
            requested,
        ).quota().used == window::count_of(window::evaluated(rule, counter, requested).counter),
{
}

/// Zero capacity always throttles: under a rule without capacity a client that
/// asks for a token or more is told that it is throttled, with a limit of zero
/// and nothing remaining.
pub proof fn lemma_zero_capacity_throttles(
    rule: WindowRule,
    counter: Option<u64>,
    seconds: u64,
    requested: u64,
)
    requires
        rule.capacity == 0,
        requested >= 1,
    ensures
        served(rule, counter, seconds, requested) is Throttled,
        served(rule, counter, seconds, requested).quota().limit == 0,
        served(rule, counter, seconds, requested).quota().remaining == 0,
        served(rule, counter, seconds, requested).quota().used == 0,
{
}

/// Idempotence of a throttled request: a client that is throttled and asks
/// the same again while the store's clock reads the same is told the same.
pub proof fn lemma_throttled_again(
    rule: WindowRule,
    counter: Option<u64>,
    seconds: u64,
    requested: u64,
)
    requires
        served(rule, counter, seconds, requested) is Throttled,
    ensures
        served(rule, window::evaluated(rule, counter, requested).counter, seconds, requested)
            == served(rule, counter, seconds, requested),
{
}

impl RateLimiter for FixedWindow {
    open spec fn limit(&self) -> u64 {
        self@.capacity
    }

    /// Acquires `tokens` of `resource` in the window that the store's clock
    /// is in: the connection is asked for the store's time, then once to
    /// evaluate [`FixedWindow::call`] for that time, and what it answers is
    /// read by [`FixedWindow::conclude`]. Where the store does not tell its
    /// time, nothing is evaluated.
    ///
    /// The windows follow the store's clock, so that all clients agree on
    /// where a window ends, whatever their own clocks read.
    fn acquire<C: Connection>(&self, resource: &str, tokens: u64, con: &mut C) -> (r: Result<
        AcquireResult,
        Error,
    >)
        ensures
            exists|clock: &mut C, time: Result<redis::Value, redis::RedisError>|
                {
                    &&& mut_ref_current(clock) == *old(con)
                    &&& #[trigger] call_ensures(C::time, (clock,), time)
                    &&& match Self::seconds_told(time) {
                        Some(seconds) => exists|
                            asked: &mut C,
                            call: ScriptCall,
                            reply: Result<redis::Value, redis::RedisError>,
                        |
                            {
                                &&& mut_ref_current(asked) == mut_ref_future(clock)
                                &&& mut_ref_future(asked) == *final(con)
                                &&& Self::asks(self@, resource@, tokens, seconds, call)
                                &&& #[trigger] call_ensures(C::evaluate, (asked, &call), reply)
                                &&& Self::concludes(self@, seconds, reply, r)
                            },
                        None => mut_ref_future(clock) == *final(con) && r is Err,
                    }
                },
    {
        let time = con.time();
        match Self::server_seconds(time) {
            Ok(seconds) => {
                let call = self.call(resource, tokens, seconds);
                let reply = con.evaluate(&call);
                self.conclude(seconds, reply)
            },
            Err(error) => Err(error),
        }
    }
}

} // verus!
