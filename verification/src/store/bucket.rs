//! One evaluation of the token bucket script.
use vstd::prelude::*;
use crate::interval::Interval;
use crate::rule::token_bucket::BucketRule;
use crate::rule::token_bucket::TokenBucket;

verus! {

/// The record that the store keeps for one bucket.
#[derive(Debug, Clone, Copy, PartialEq, Eq, Structural)]
pub struct BucketState {
    /// The tokens left in the bucket.
    pub tokens: u64,
    /// The second up to which refills have been taken into account.
    pub last_refill: u64,
}

/// What one evaluation decides, leaves in the store and answers.
///
/// The script's reply is `(accepted, state.tokens, reset)`.
#[derive(Debug, Clone, Copy, PartialEq, Eq, Structural)]
pub struct BucketEval {
    /// Whether the requested tokens were debited.
    pub accepted: bool,
    /// The record that the evaluation stores.
    pub state: BucketState,
    /// The second at which at least one more refill will have occurred.
    pub reset: u64,
    /// The seconds for which the store keeps the record if nobody asks again.
    pub ttl: u64,
}

/// The record that an evaluation starts from: the stored one, or a full
/// bucket that was last refilled now where nothing is stored.
pub open spec fn observed(rule: BucketRule, state: Option<BucketState>, now: u64) -> BucketState {
    match state {
        Some(stored) => stored,
        None => BucketState { tokens: rule.capacity, last_refill: now },
    }
}

/// The whole refill intervals that have passed since the record's last refill.
/// A clock that reads earlier than the record counts as no time passed.
pub open spec fn steps_due(rule: BucketRule, state: BucketState, now: u64) -> int {
    if now >= state.last_refill {
        (now - state.last_refill) / (rule.interval as int)
    } else {
        0
    }
}

/// The record after the refills that are due: each adds the rule's amount up
/// to the capacity, and moves the last refill on by one interval, so that the
/// part of an interval that has passed keeps counting.
pub open spec fn refilled(rule: BucketRule, state: BucketState, now: u64) -> BucketState {
    let steps = steps_due(rule, state, now);
    let tokens = state.tokens + steps * rule.amount;
    BucketState {
        tokens: if tokens >= rule.capacity {
            rule.capacity
        } else {
            tokens as u64
        },
        last_refill: (state.last_refill + steps * rule.interval) as u64,
    }
}

/// The second at which the next refill of a record is due, or the last second
/// that can be told where that would lie beyond it.
pub open spec fn reset_of(rule: BucketRule, state: BucketState) -> u64 {
    if state.last_refill + rule.interval <= u64::MAX {
        (state.last_refill + rule.interval) as u64
    } else {
        u64::MAX
    }
}

/// The refills that fill an empty bucket, and one at least.
pub open spec fn refills_to_full(rule: BucketRule) -> int {
    let whole = rule.capacity as int / rule.amount as int;
    let refills = if rule.capacity as int % rule.amount as int == 0 {
        whole
    } else {
        whole + 1
    };
    if refills >= 1 {
        refills
    } else {
        1
    }
}

/// The seconds for which the store keeps an idle record: as long as it takes
/// to fill an empty bucket, so that a record is dropped only once it would
/// have been full again anyway.
pub open spec fn lifetime(rule: BucketRule) -> u64 {
    let seconds = rule.interval * refills_to_full(rule);
    if seconds <= u64::MAX {
        seconds as u64
    } else {
        u64::MAX
    }
}

/// One evaluation: take the refills that are due, then debit the requested
/// tokens if the bucket holds that many, and leave it as it is if not.
pub open spec fn evaluated(
    rule: BucketRule,
    state: Option<BucketState>,
    now: u64,
    requested: u64,
) -> BucketEval {
    let full = refilled(rule, observed(rule, state, now), now);
    let accepted = full.tokens >= requested;
    let left = BucketState {
        tokens: if accepted {
            (full.tokens - requested) as u64
        } else {
            full.tokens
        },
        last_refill: full.last_refill,
    };
    BucketEval { accepted, state: left, reset: reset_of(rule, left), ttl: lifetime(rule) }
}

/// Whole intervals never reach beyond the time that has passed, and what is
/// left over is less than one interval.
pub proof fn lemma_steps_fit(rule: BucketRule, state: BucketState, now: u64)
    requires
        rule.valid(),
    ensures
        steps_due(rule, state, now) >= 0,
        now >= state.last_refill ==> state.last_refill + steps_due(rule, state, now)
            * rule.interval <= now < state.last_refill + steps_due(rule, state, now)
            * rule.interval + rule.interval,
        now < state.last_refill ==> steps_due(rule, state, now) == 0,
        steps_due(rule, state, now) <= u64::MAX,
        refilled(rule, state, now).last_refill == state.last_refill + steps_due(rule, state, now)
            * rule.interval,
        refilled(rule, state, now).tokens <= rule.capacity,
        refilled(rule, state, now).tokens <= state.tokens + steps_due(rule, state, now)
            * rule.amount,
{
    let steps = steps_due(rule, state, now);
    if now >= state.last_refill {
        let passed = now - state.last_refill;
        let interval = rule.interval as int;
        assert(steps * interval <= passed < steps * interval + interval && 0 <= steps <= passed)
            by (nonlinear_arith)
            requires
                steps == passed / interval,
                interval > 0,
                passed >= 0,
        ;
    }
    assert(steps * rule.amount >= 0) by (nonlinear_arith)
        requires
            steps >= 0,
            rule.amount >= 0,
    ;
}

/// Takes the refills that are due at `now`.
pub fn refill(rule: &TokenBucket, state: BucketState, now: u64) -> (full: BucketState)
    ensures
        full == refilled(rule@, state, now),
        full.tokens <= rule@.capacity,
{
    let capacity = rule.capacity();
    let interval = rule.refill_interval().as_secs();
    let amount = rule.refill_amount();
    proof {
        lemma_steps_fit(rule@, state, now);
    }
    let steps: u64 = if now >= state.last_refill {
        (now - state.last_refill) / interval
    } else {
        0
    };
    let last_refill: u64 = state.last_refill + steps * interval;
    assert(steps * amount <= 0xffff_ffff_ffff_ffff * 0xffff_ffff_ffff_ffff) by (nonlinear_arith)
        requires
            0 <= steps <= 0xffff_ffff_ffff_ffff,
            0 <= amount <= 0xffff_ffff_ffff_ffff,
    ;
    let gained: u128 = (steps as u128) * (amount as u128);
    let total: u128 = state.tokens as u128 + gained;
    let tokens: u64 = if total >= capacity as u128 {
        capacity
    } else {
        total as u64
    };
    BucketState { tokens, last_refill }
}

/// The seconds for which the store keeps an idle record of this rule.
pub fn time_to_live(rule: &TokenBucket) -> (ttl: u64)
    ensures
        ttl == lifetime(rule@),
        ttl >= rule@.interval,
{
    let capacity = rule.capacity();
    let interval = rule.refill_interval().as_secs();
    let amount = rule.refill_amount();
    let whole: u64 = capacity / amount;
    let refills: u128 = if capacity % amount == 0 {
        whole as u128
    } else {
        whole as u128 + 1
    };
    let refills: u128 = if refills >= 1 {
        refills
    } else {
        1
    };
    assert(interval * refills <= 0xffff_ffff_ffff_ffff * 0x1_0000_0000_0000_0000 && interval
        * refills >= interval) by (nonlinear_arith)
        requires
            0 <= interval <= 0xffff_ffff_ffff_ffff,
            1 <= refills <= 0x1_0000_0000_0000_0000,
    ;
    let seconds: u128 = (interval as u128) * refills;
    if seconds <= u64::MAX as u128 {
        seconds as u64
    } else {
        u64::MAX
    }
}

/// Evaluates one request for `requested` tokens at the second `now` against
/// the record `state` of a bucket, as the store does in one atomic step.
pub fn evaluate(rule: &TokenBucket, state: Option<BucketState>, now: u64, requested: u64) -> (e:
    BucketEval)
    ensures
        e == evaluated(rule@, state, now, requested),
{
    let interval = rule.refill_interval().as_secs();
    let seen = match state {
        Some(stored) => stored,
        None => BucketState { tokens: rule.capacity(), last_refill: now },
    };
    let full = refill(rule, seen, now);
    let accepted = full.tokens >= requested;
    let left = BucketState {
        tokens: if accepted {
            full.tokens - requested
        } else {
            full.tokens
        },
        last_refill: full.last_refill,
    };
    let reset: u64 = if left.last_refill <= u64::MAX - interval {
        left.last_refill + interval
    } else {
        u64::MAX
    };
    BucketEval { accepted, state: left, reset, ttl: time_to_live(rule) }
}

/// What the store makes of the arguments of a call when it evaluates the
/// script against the record `state`: the clock, the capacity, the refill
/// interval, the refill amount and the requested tokens, in this order. The
/// script fails on anything but five arguments that make a rule.
pub open spec fn answered(args: Seq<u64>, state: Option<BucketState>) -> Option<BucketEval> {
    if args.len() == 5 && args[2] > 0 && args[3] > 0 {
        Some(
            evaluated(
                BucketRule { capacity: args[1], interval: args[2], amount: args[3] },
                state,
                args[0],
                args[4],
            ),
        )
    } else {
        None
    }
}

/// Evaluates the script on the arguments of a call against the record `state`,
/// as the store does in one atomic step.
pub fn answer(args: &Vec<u64>, state: Option<BucketState>) -> (e: Option<BucketEval>)
    ensures
        e == answered(args@, state),
{
    if args.len() != 5 {
        return None;
    }
    match Interval::from_secs(args[2]) {
        Ok(interval) => match TokenBucket::new(args[1], interval, args[3]) {
            Ok(rule) => Some(evaluate(&rule, state, args[0], args[4])),
            Err(_) => None,
        },
        Err(_) => None,
    }
}

/// A request for tokens at a second of the client's clock.
pub struct BucketRequest {
    /// The second at which the request is evaluated.
    pub now: u64,
    /// The tokens that it asks for.
    pub tokens: u64,
}

/// The tokens that a sequence of requests is granted in all, evaluated one
/// after the other from the record `state` on.
pub open spec fn granted(rule: BucketRule, state: Option<BucketState>, requests: Seq<BucketRequest>)
    -> int
    decreases requests.len(),
{
    if requests.len() == 0 {
        0
    } else {
        let first = evaluated(rule, state, requests[0].now, requests[0].tokens);
        let grant = if first.accepted {
            requests[0].tokens as int
        } else {
            0
        };
        grant + granted(rule, Some(first.state), requests.drop_first())
    }
}

/// The refills that fall due while a sequence of requests is evaluated.
pub open spec fn refills(rule: BucketRule, state: Option<BucketState>, requests: Seq<BucketRequest>)
    -> int
    decreases requests.len(),
{
    if requests.len() == 0 {
        0
    } else {
        let first = evaluated(rule, state, requests[0].now, requests[0].tokens);
        steps_due(rule, observed(rule, state, requests[0].now), requests[0].now) + refills(
            rule,
            Some(first.state),
            requests.drop_first(),
        )
    }
}

/// The record that a sequence of requests leaves.
pub open spec fn replayed(
    rule: BucketRule,
    state: Option<BucketState>,
    requests: Seq<BucketRequest>,
) -> Option<BucketState>
    decreases requests.len(),
{
    if requests.len() == 0 {
        state
    } else {
        let first = evaluated(rule, state, requests[0].now, requests[0].tokens);
        replayed(rule, Some(first.state), requests.drop_first())
    }
}

/// The tokens that a record offers before any refill: what it holds, up to the
/// capacity, and a full bucket where nothing is stored.
pub open spec fn available(rule: BucketRule, state: Option<BucketState>) -> int {
    match state {
        Some(stored) => if stored.tokens <= rule.capacity {
            stored.tokens as int
        } else {
            rule.capacity as int
        },
        None => rule.capacity as int,
    }
}

/// An evaluation never leaves more tokens than the capacity, and what it
/// leaves and grants together is what the refilled bucket held.
pub proof fn lemma_tokens_within_capacity(
    rule: BucketRule,
    state: Option<BucketState>,
    now: u64,
    requested: u64,
)
    requires
        rule.valid(),
    ensures
        evaluated(rule, state, now, requested).state.tokens <= rule.capacity,
        evaluated(rule, state, now, requested).accepted ==> evaluated(
            rule,
            state,
            now,
            requested,
        ).state.tokens + requested == refilled(rule, observed(rule, state, now), now).tokens,
        !evaluated(rule, state, now, requested).accepted ==> evaluated(
            rule,
            state,
            now,
            requested,
        ).state == refilled(rule, observed(rule, state, now), now),
{
    lemma_steps_fit(rule, observed(rule, state, now), now);
}

/// The refills that fall due while requests are evaluated are the whole
/// intervals by which the record's last refill moves on.
pub proof fn lemma_refills_are_intervals(
    rule: BucketRule,
    state: Option<BucketState>,
    requests: Seq<BucketRequest>,
)
    requires
        rule.valid(),
        requests.len() > 0,
    ensures
        refills(rule, state, requests) >= 0,
        replayed(rule, state, requests) matches Some(last) && last.last_refill == observed(
            rule,
            state,
            requests[0].now,
        ).last_refill + refills(rule, state, requests) * rule.interval,
    decreases requests.len(),
{
    let now = requests[0].now;
    let first = evaluated(rule, state, now, requests[0].tokens);
    let seen = observed(rule, state, now);
    let steps = steps_due(rule, seen, now);
    let rest = requests.drop_first();
    lemma_steps_fit(rule, seen, now);
    if rest.len() > 0 {
        lemma_refills_are_intervals(rule, Some(first.state), rest);
        let later = refills(rule, Some(first.state), rest);
        assert((steps + later) * rule.interval == steps * rule.interval + later * rule.interval)
            by (nonlinear_arith);
    } else {
        assert(refills(rule, Some(first.state), rest) == 0);
        assert(replayed(rule, Some(first.state), rest) == Some(first.state));
    }
}

/// Capacity never exceeded: however the requests of any number of clients
/// fall, they are granted no more tokens in all than the bucket offered at
/// the start, which is at most the capacity, and the refills that fell due
/// delivered. While no refill falls due, that is at most the capacity.
pub proof fn lemma_grants_bounded(
    rule: BucketRule,
    state: Option<BucketState>,
    requests: Seq<BucketRequest>,
)
    requires
        rule.valid(),
    ensures
        refills(rule, state, requests) >= 0,
        granted(rule, state, requests) <= available(rule, state) + refills(rule, state, requests)
            * rule.amount,
        granted(rule, state, requests) <= rule.capacity + refills(rule, state, requests)
            * rule.amount,
        refills(rule, state, requests) == 0 ==> granted(rule, state, requests) <= rule.capacity,
    decreases requests.len(),
{
    if requests.len() > 0 {
        let now = requests[0].now;
        let first = evaluated(rule, state, now, requests[0].tokens);
        let seen = observed(rule, state, now);
        let steps = steps_due(rule, seen, now);
        let rest = requests.drop_first();
        lemma_steps_fit(rule, seen, now);
        lemma_tokens_within_capacity(rule, state, now, requests[0].tokens);
        lemma_grants_bounded(rule, Some(first.state), rest);
        let later = refills(rule, Some(first.state), rest);
        assert((steps + later) * rule.amount == steps * rule.amount + later * rule.amount
            && steps * rule.amount >= 0) by (nonlinear_arith)
            requires
                steps >= 0,
                rule.amount >= 0,
        ;
    }
}

/// Monotone reset: of two successive evaluations on the same record, the
/// second tells a reset that is no earlier than the first's, whatever the two
/// clocks read.
pub proof fn lemma_reset_monotone(
    rule: BucketRule,
    state: Option<BucketState>,
    now: u64,
    requested: u64,
    next_now: u64,
    next_requested: u64,
)
    requires
        rule.valid(),
    ensures
        evaluated(rule, state, now, requested).reset <= evaluated(
            rule,
            Some(evaluated(rule, state, now, requested).state),
            next_now,
            next_requested,
        ).reset,
{
    let first = evaluated(rule, state, now, requested);
    lemma_steps_fit(rule, first.state, next_now);
    let steps = steps_due(rule, first.state, next_now);
    assert(steps * rule.interval >= 0) by (nonlinear_arith)
        requires
            steps >= 0,
            rule.interval >= 0,
    ;
}

/// Monotone reset where the store has dropped the record in between: the
/// next request that finds no record is told a reset that is no earlier than
/// the last one told, as long as its clock does not read earlier than the
/// record's last refill.
pub proof fn lemma_reset_monotone_after_drop(
    rule: BucketRule,
    state: Option<BucketState>,
    now: u64,
    requested: u64,
    next_now: u64,
    next_requested: u64,
)
    requires
        rule.valid(),
        next_now >= evaluated(rule, state, now, requested).state.last_refill,
    ensures
        evaluated(rule, state, now, requested).reset <= evaluated(
            rule,
            None,
            next_now,
            next_requested,
        ).reset,
{
    let fresh = observed(rule, None, next_now);
    lemma_steps_fit(rule, fresh, next_now);
    assert(steps_due(rule, fresh, next_now) == 0) by (nonlinear_arith)
        requires
            steps_due(rule, fresh, next_now) == 0int / (rule.interval as int),
            rule.interval > 0,
    ;
    assert(0 * rule.interval == 0);
}

/// Zero capacity always throttles: a rule without capacity denies every
/// request for a token or more, and tells that none is left.
pub proof fn lemma_zero_capacity_throttles(
    rule: BucketRule,
    state: Option<BucketState>,
    now: u64,
    requested: u64,
)
    requires
        rule.valid(),
        rule.capacity == 0,
        requested >= 1,
    ensures
        !evaluated(rule, state, now, requested).accepted,
        evaluated(rule, state, now, requested).state.tokens == 0,
{
    lemma_steps_fit(rule, observed(rule, state, now), now);
}

/// A request for nothing is accepted and debits nothing, and a request for
/// more than the capacity is denied even where the bucket is full.
pub proof fn lemma_edge_requests(
    rule: BucketRule,
    state: Option<BucketState>,
    now: u64,
    requested: u64,
)
    requires
        rule.valid(),
    ensures
        requested == 0 ==> evaluated(rule, state, now, requested).accepted && evaluated(
            rule,
            state,
            now,
            requested,
        ).state == refilled(rule, observed(rule, state, now), now),
        requested > rule.capacity ==> !evaluated(rule, state, now, requested).accepted,
{
    lemma_steps_fit(rule, observed(rule, state, now), now);
}

/// Idempotence of a throttled request: it debits nothing, so the record it
/// leaves is the refilled one, and the same request at the same second is
/// evaluated to the same decision, the same reply and the same record again.
pub proof fn lemma_throttled_is_idempotent(
    rule: BucketRule,
    state: Option<BucketState>,
    now: u64,
    requested: u64,
)
    requires
        rule.valid(),
        !evaluated(rule, state, now, requested).accepted,
    ensures
        evaluated(rule, state, now, requested).state == refilled(
            rule,
            observed(rule, state, now),
            now,
        ),
        evaluated(rule, Some(evaluated(rule, state, now, requested).state), now, requested)
            == evaluated(rule, state, now, requested),
{
    let seen = observed(rule, state, now);
    let first = evaluated(rule, state, now, requested);
    lemma_steps_fit(rule, seen, now);
    lemma_settled(rule, seen, now);
}

/// Once the refills due at a second are taken, none is due at that second.
pub proof fn lemma_settled(rule: BucketRule, state: BucketState, now: u64)
    requires
        rule.valid(),
    ensures
        steps_due(rule, refilled(rule, state, now), now) == 0,
        state.tokens <= rule.capacity ==> refilled(rule, refilled(rule, state, now), now)
            == refilled(rule, state, now),
{
    lemma_steps_fit(rule, state, now);
    let full = refilled(rule, state, now);
    if now >= full.last_refill {
        let left = now - full.last_refill;
        let interval = rule.interval as int;
        assert(left / interval == 0) by (nonlinear_arith)
            requires
                0 <= left < interval,
        ;
    }
    assert(0 * rule.amount == 0 && 0 * rule.interval == 0);
}

/// The reset is a usable hint to retry: where it can be told, it lies after
/// the second of the evaluation unless the clock read earlier than the record,
/// and an evaluation at that second or later finds a refill due.
pub proof fn lemma_reset_brings_refill(
    rule: BucketRule,
    state: Option<BucketState>,
    now: u64,
    requested: u64,
    later: u64,
)
    requires
        rule.valid(),
        evaluated(rule, state, now, requested).reset < u64::MAX,
        later >= evaluated(rule, state, now, requested).reset,
    ensures
        observed(rule, state, now).last_refill <= now ==> now < evaluated(
            rule,
            state,
            now,
            requested,
        ).reset,
        steps_due(rule, evaluated(rule, state, now, requested).state, later) >= 1,
{
    let seen = observed(rule, state, now);
    let first = evaluated(rule, state, now, requested);
    lemma_steps_fit(rule, seen, now);
    let passed = later - first.state.last_refill;
    let interval = rule.interval as int;
    assert(passed / interval >= 1) by (nonlinear_arith)
        requires
            passed >= interval,
            interval > 0,
    ;
}

/// The store drops an idle record no sooner than the bucket would have been
/// full again: a request that comes once the record's lifetime has passed
/// since its last refill finds as many tokens as one that finds no record.
pub proof fn lemma_dropped_record_was_full(rule: BucketRule, state: BucketState, now: u64)
    requires
        rule.valid(),
        lifetime(rule) < u64::MAX,
        now >= state.last_refill + lifetime(rule),
    ensures
        refilled(rule, state, now).tokens == rule.capacity,
        refilled(rule, state, now).tokens == observed(rule, None, now).tokens,
{
    lemma_steps_fit(rule, state, now);
    let steps = steps_due(rule, state, now);
    let needed = refills_to_full(rule);
    let interval = rule.interval as int;
    let amount = rule.amount as int;
    let capacity = rule.capacity as int;
    let passed = now - state.last_refill;
    assert(interval * needed >= 0) by (nonlinear_arith)
        requires
            interval > 0,
            needed >= 1,
    ;
    assert(steps >= needed) by (nonlinear_arith)
        requires
            steps == passed / interval,
            passed >= interval * needed,
            interval > 0,
    ;
    vstd::arithmetic::div_mod::lemma_fundamental_div_mod(capacity, amount);
    assert(needed * amount >= capacity) by (nonlinear_arith)
        requires
            amount > 0,
            capacity >= 0,
            needed >= capacity / amount,
            capacity % amount != 0 ==> needed >= capacity / amount + 1,
            capacity == amount * (capacity / amount) + capacity % amount,
            0 <= capacity % amount < amount,
    ;
    assert(steps * amount >= needed * amount) by (nonlinear_arith)
        requires
            steps >= needed,
            amount > 0,
    ;
}

} // verus!
