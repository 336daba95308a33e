//! The token bucket rule.
use vstd::prelude::*;
use vstd::string::StringExecFns;
use crate::connection::bucket_reply_in;
use crate::connection::internal;
use crate::connection::read_bucket_reply;
use crate::connection::Connection;
use crate::connection::Script;
use crate::connection::ScriptCall;
use crate::error::Error;
use crate::interval::lemma_same_length;
use crate::interval::Interval;
use crate::rate_limiter::AcquireResult;
use crate::rate_limiter::Quota;
use crate::rate_limiter::RateLimiter;
use crate::rule::clock;
use crate::store::bucket;

verus! {

/// What a token bucket rule says, as plain numbers.
pub struct BucketRule {
    /// The most tokens that the bucket holds.
    pub capacity: u64,
    /// The seconds between two refills.
    pub interval: u64,
    /// The tokens that one refill adds.
    pub amount: u64,
}

impl BucketRule {
    /// A rule refills at least one token, and not more often than once a second.
    pub open spec fn valid(self) -> bool {
        self.interval > 0 && self.amount > 0
    }
}

/// [Token bucket](https://en.wikipedia.org/wiki/Token_bucket) algorithm is a common
/// algorithm for rate limiting. While it allows traffic to be passed at a constant rate,
/// it also allows bursts of traffic to be passed over a short period of time.
///
/// The rule carries no state: all state lives in the store, keyed by resource.
#[derive(Debug, Clone, Copy, PartialEq, Eq, Structural)]
pub struct TokenBucket {
    capacity: u64,
    refill_interval: Interval,
    refill_amount: u64,
}

impl View for TokenBucket {
    type V = BucketRule;

    closed spec fn view(&self) -> BucketRule {
        BucketRule {
            capacity: self.capacity,
            interval: self.refill_interval@ as u64,
            amount: self.refill_amount,
        }
    }
}

impl TokenBucket {
    #[verifier::type_invariant]
    spec fn refills(self) -> bool {
        self.refill_amount > 0
    }

    /// Creates a new [`TokenBucket`] with the given capacity, refill interval and refill amount.
    ///
    /// A capacity of zero is a rule that throttles every request.
    ///
    /// # Errors
    /// - [`Error::InvalidRule`] if `refill_amount` is zero.
    pub fn new(capacity: u64, refill_interval: Interval, refill_amount: u64) -> (r: Result<
        TokenBucket,
        Error,
    >)
        ensures
            r is Ok <==> refill_amount > 0,
            r matches Ok(rule) ==> rule@ == (BucketRule {
                capacity,
                interval: refill_interval@ as u64,
                amount: refill_amount,
            }) && rule@.valid(),
            r matches Err(e) ==> (e matches Error::InvalidRule(msg) && msg@
                == "Refill amount must be greater than zero"@),
    {
        if refill_amount == 0 {
            Err(Error::InvalidRule(String::from_str("Refill amount must be greater than zero")))
        } else {
            proof {
                use_type_invariant(&refill_interval);
            }
            Ok(TokenBucket { capacity, refill_interval, refill_amount })
        }
    }

    /// Returns the capacity of the token bucket rule.
    pub fn capacity(&self) -> (c: u64)
        ensures
            c == self@.capacity,
    {
        self.capacity
    }

    /// Returns the refill interval of the token bucket rule.
    pub fn refill_interval(&self) -> (i: Interval)
        ensures
            i@ == self@.interval,
            self@.interval > 0,
    {
        proof {
            use_type_invariant(&self.refill_interval);
        }
        self.refill_interval
    }

    /// Returns the refill amount of the token bucket rule.
    pub fn refill_amount(&self) -> (a: u64)
        ensures
            a == self@.amount,
            a > 0,
    {
        proof {
            use_type_invariant(self);
        }
        self.refill_amount
    }
}

impl TokenBucket {
    /// The key under which the store keeps the bucket of a resource. The
    /// resource's name is taken as it is.
    pub open spec fn spec_key(resource: Seq<char>) -> Seq<char> {
        "token_bucket:"@ + resource
    }

    /// The key under which the store keeps the bucket of `resource`.
    pub fn key(resource: &str) -> (key: String)
        ensures
            key@ == Self::spec_key(resource@),
    {
        String::from_str("token_bucket:").concat(resource)
    }

    /// The arguments that the script is called with, in the order in which it
    /// reads them.
    pub open spec fn spec_args(rule: BucketRule, tokens: u64, now: u64) -> Seq<u64> {
        seq![now, rule.capacity, rule.interval, rule.amount, tokens]
    }

    /// Whether `call` is the evaluation that asks the store for `tokens` of
    /// `resource` at the second `now`: the token bucket script, on the
    /// resource's key, with the arguments in order.
    pub open spec fn asks(
        rule: BucketRule,
        resource: Seq<char>,
        tokens: u64,
        now: u64,
        call: ScriptCall,
    ) -> bool {
        &&& call.script == Script::TokenBucket
        &&& call.key@ == Self::spec_key(resource)
        &&& call.args@ == Self::spec_args(rule, tokens, now)
    }

    /// The evaluation that asks the store for `tokens` of `resource` at the
    /// second `now` of the client's clock.
    pub fn call(&self, resource: &str, tokens: u64, now: u64) -> (call: ScriptCall)
        ensures
            Self::asks(self@, resource@, tokens, now, call),
    {
        let args = vec![
            now,
            self.capacity,
            self.refill_interval.as_secs(),
            self.refill_amount,
            tokens,
        ];
        assert(args@ =~= seq![now, self@.capacity, self@.interval, self@.amount, tokens]);
        ScriptCall { script: Script::TokenBucket, key: Self::key(resource), args }
    }

    /// The decision that a reply `(accepted, tokens, reset)` of the script
    /// stands for under a rule.
    pub open spec fn decided(rule: BucketRule, accepted: bool, tokens: u64, reset: u64)
        -> AcquireResult {
        AcquireResult::decided(accepted, Quota::spec_new(rule.capacity, tokens, reset))
    }

    /// Turns a reply of the script into the decision it stands for: the
    /// capacity is the limit, `tokens` is what remains, and `reset` is when to
    /// expect more.
    pub fn decision(&self, accepted: bool, tokens: u64, reset: u64) -> (d: AcquireResult)
        ensures
            d == Self::decided(self@, accepted, tokens, reset),
            d.quota().wf(),
    {
        let quota = Quota::new(self.capacity, tokens, reset);
        if accepted {
            AcquireResult::Accepted(quota)
        } else {
            AcquireResult::Throttled(quota)
        }
    }

    /// What [`TokenBucket::conclude`] makes of what came back from the store,
    /// but for the text of an error.
    pub open spec fn concluded(
        rule: BucketRule,
        reply: Result<redis::Value, redis::RedisError>,
    ) -> Option<AcquireResult> {
        match reply {
            Ok(value) => match bucket_reply_in(value) {
                Some((accepted, tokens, reset)) => Some(
                    Self::decided(rule, accepted, tokens, reset),
                ),
                None => None,
            },
            Err(_) => None,
        }
    }

    /// Whether `r` is what is made of what came back from the store: a reply
    /// that holds a triple of a flag and two numbers is the decision it stands
    /// for; a failure, or any other reply, is an [`Error::Internal`].
    pub open spec fn concludes(
        rule: BucketRule,
        reply: Result<redis::Value, redis::RedisError>,
        r: Result<AcquireResult, Error>,
    ) -> bool {
        match r {
            Ok(d) => Self::concluded(rule, reply) == Some(d),
            Err(e) => Self::concluded(rule, reply) is None && e is Internal,
        }
    }

    /// Reads what came back from the store for a [`TokenBucket::call`]: a
    /// reply that holds a triple of a flag and two numbers is the decision it
    /// stands for; a failure, or any other reply, is an [`Error::Internal`].
    pub fn conclude(&self, reply: Result<redis::Value, redis::RedisError>) -> (r: Result<
        AcquireResult,
        Error,
    >)
        ensures
            Self::concludes(self@, reply, r),
    {
        match reply {
            Ok(value) => match read_bucket_reply(&value) {
                Ok((accepted, tokens, reset)) => Ok(self.decision(accepted, tokens, reset)),
                Err(error) => Err(internal(&error)),
            },
            Err(error) => Err(internal(&error)),
        }
    }

    /// Acquires `tokens` of `resource` as of the second `now`: the connection
    /// is asked once, to evaluate [`TokenBucket::call`], and what it answers is
    /// read by [`TokenBucket::conclude`].
    pub fn acquire_at<C: Connection>(&self, resource: &str, tokens: u64, now: u64, con: &mut C)
        -> (r: Result<AcquireResult, Error>)
        ensures
            exists|asked: &mut C, call: ScriptCall, reply: Result<redis::Value, redis::RedisError>|
                {
                    &&& mut_ref_current(asked) == *old(con)
                    &&& mut_ref_future(asked) == *final(con)
                    &&& Self::asks(self@, resource@, tokens, now, call)
                    &&& #[trigger] call_ensures(C::evaluate, (asked, &call), reply)
                    &&& Self::concludes(self@, reply, r)
                },
            r matches Ok(d) ==> d.quota().limit == self@.capacity && d.quota().wf(),
            r matches Err(e) ==> e is Internal,
    {
        let call = self.call(resource, tokens, now);
        let reply = con.evaluate(&call);
        self.conclude(reply)
    }
}

/// Two rules that say the same are the same rule.
pub proof fn lemma_same_rule(a: TokenBucket, b: TokenBucket)
    requires
        a@ == b@,
    ensures
        a == b,
{
    lemma_same_length(a.refill_interval, b.refill_interval);
    lemma_same_length(b.refill_interval, a.refill_interval);
}

/// The store reads a call as the client wrote it: what it makes of the
/// arguments of a call is the evaluation of that request under that rule.
pub proof fn lemma_call_is_understood(
    rule: BucketRule,
    state: Option<bucket::BucketState>,
    now: u64,
    requested: u64,
)
    requires
        rule.valid(),
    ensures
        bucket::answered(TokenBucket::spec_args(rule, requested, now), state) == Some(
            bucket::evaluated(rule, state, now, requested),
        ),
{
}

/// What a client is told when it asks for `requested` tokens at the second
/// `now`, and the store evaluates the request against the record `state` as
/// [`bucket::evaluated`] says.
pub open spec fn served(
    rule: BucketRule,
    state: Option<bucket::BucketState>,
    now: u64,
    requested: u64,
) -> AcquireResult {
    let evaluation = bucket::evaluated(rule, state, now, requested);
    TokenBucket::decided(rule, evaluation.accepted, evaluation.state.tokens, evaluation.reset)
}

/// The quota that a client is told is consistent: its limit is the capacity,
/// no more remains than the limit, and what remains and what is used make up
/// the limit.
pub proof fn lemma_served_quota(
    rule: BucketRule,
    state: Option<bucket::BucketState>,
    now: u64,
    requested: u64,
)
    requires
        rule.valid(),
    ensures
        served(rule, state, now, requested).quota().wf(),
        served(rule, state, now, requested).quota().limit == rule.capacity,
        served(rule, state, now, requested).quota().remaining <= rule.capacity,
        served(rule, state, now, requested).quota().remaining + served(
            rule,
            state,
            now,
            requested,
        ).quota().used == rule.capacity,
{
    bucket::lemma_tokens_within_capacity(rule, state, now, requested);
}

/// Zero capacity always throttles: under a rule without capacity a client that
/// asks for a token or more is told that it is throttled, with a limit of zero
/// and nothing remaining.
pub proof fn lemma_zero_capacity_throttles(
    rule: BucketRule,
    state: Option<bucket::BucketState>,
    now: u64,
    requested: u64,
)
    requires
        rule.valid(),
        rule.capacity == 0,
        requested >= 1,
    ensures
        served(rule, state, now, requested) is Throttled,
        served(rule, state, now, requested).quota().limit == 0,
        served(rule, state, now, requested).quota().remaining == 0,
        served(rule, state, now, requested).quota().used == 0,
{
    bucket::lemma_zero_capacity_throttles(rule, state, now, requested);
}

/// Idempotence of a throttled request: a client that is throttled and asks
/// the same again at the same second is told the same.
pub proof fn lemma_throttled_again(
    rule: BucketRule,
    state: Option<bucket::BucketState>,
    now: u64,
    requested: u64,
)
    requires
        rule.valid(),
        served(rule, state, now, requested) is Throttled,
    ensures
        served(rule, Some(bucket::evaluated(rule, state, now, requested).state), now, requested)
            == served(rule, state, now, requested),
{
    bucket::lemma_throttled_is_idempotent(rule, state, now, requested);
}

/// Monotone reset: of two successive requests on the same resource, the second
/// is told a reset that is no earlier than the first's.
pub proof fn lemma_reset_monotone(
    rule: BucketRule,
    state: Option<bucket::BucketState>,
    now: u64,
    requested: u64,
    next_now: u64,
    next_requested: u64,
)
    requires
        rule.valid(),
    ensures
        served(rule, state, now, requested).quota().reset <= served(
            rule,
            Some(bucket::evaluated(rule, state, now, requested).state),
            next_now,
            next_requested,
        ).quota().reset,
{
    bucket::lemma_reset_monotone(rule, state, now, requested, next_now, next_requested);
}

impl RateLimiter for TokenBucket {
    open spec fn limit(&self) -> u64 {
        self@.capacity
    }

    /// Acquires `tokens` of `resource` as of now on this machine's clock.
    ///
    /// The store is told the client's time and does not read its own, so the
    /// decisions are right only as far as the clocks of all clients are
    /// monotonic and reasonably in step.
    fn acquire<C: Connection>(&self, resource: &str, tokens: u64, con: &mut C) -> (r: Result<
        AcquireResult,
        Error,
    >)
        ensures
            exists|
                now: u64,
                asked: &mut C,
                call: ScriptCall,
                reply: Result<redis::Value, redis::RedisError>,
            |
                #![trigger
                    Self::asks(self@, resource@, tokens, now, call),
                    call_ensures(C::evaluate, (asked, &call), reply),
                ]
                {
                    &&& mut_ref_current(asked) == *old(con)
                    &&& mut_ref_future(asked) == *final(con)
                    &&& Self::asks(self@, resource@, tokens, now, call)
                    &&& call_ensures(C::evaluate, (asked, &call), reply)
                    &&& Self::concludes(self@, reply, r)
                },
    {
        self.acquire_at(resource, tokens, clock::now(), con)
    }
}

} // verus!
