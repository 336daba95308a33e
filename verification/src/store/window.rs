//! One evaluation of the fixed window script.
use vstd::prelude::*;
use crate::interval::Interval;
use crate::rule::fixed_window::FixedWindow;
use crate::rule::fixed_window::WindowRule;

verus! {

/// What one evaluation decides, leaves in the store and answers.
///
/// The script's reply is `(accepted, remaining)`.
#[derive(Debug, Clone, Copy, PartialEq, Eq, Structural)]
pub struct WindowEval {
    /// Whether the requested tokens were counted.
    pub accepted: bool,
    /// The counter that the window's key holds afterwards, if any.
    pub counter: Option<u64>,
    /// The tokens that the window still admits.
    pub remaining: u64,
    /// The seconds for which the store keeps the counter from now on, where
    /// the evaluation stored it: one window's length, after which no request
    /// asks for this window again. A denied request stores nothing and leaves
    /// the key's lifetime as it was.
    pub ttl: Option<u64>,
}

/// The tokens that a window has admitted: what its key holds, and nothing
/// where the key does not exist.
pub open spec fn count_of(counter: Option<u64>) -> u64 {
    match counter {
        Some(count) => count,
        None => 0,
    }
}

/// One evaluation: count the requested tokens if the window admits them all,
/// and leave the counter untouched if not.
pub open spec fn evaluated(rule: WindowRule, counter: Option<u64>, requested: u64) -> WindowEval {
    let current = count_of(counter);
    if current + requested <= rule.capacity {
        WindowEval {
            accepted: true,
            counter: Some((current + requested) as u64),
            remaining: (rule.capacity - current - requested) as u64,
            ttl: Some(rule.window),
        }
    } else {
        WindowEval {
            accepted: false,
            counter,
            remaining: if rule.capacity >= current {
                (rule.capacity - current) as u64
            } else {
                0
            },
            ttl: None,
        }
    }
}

/// Evaluates one request for `requested` tokens against the counter of a
/// window, as the store does in one atomic step.
pub fn evaluate(rule: &FixedWindow, counter: Option<u64>, requested: u64) -> (e: WindowEval)
    ensures
        e == evaluated(rule@, counter, requested),
{
    let capacity = rule.capacity();
    let current = match counter {
        Some(count) => count,
        None => 0,
    };
    if current <= capacity && requested <= capacity - current {
        WindowEval {
            accepted: true,
            counter: Some(current + requested),
            remaining: capacity - current - requested,
            ttl: Some(rule.window().as_secs()),
        }
    } else {
        WindowEval {
            accepted: false,
            counter,
            remaining: if capacity >= current {
                capacity - current
            } else {
                0
            },
            ttl: None,
        }
    }
}

/// What the store makes of the arguments of a call when it evaluates the
/// script against the counter of a window: the capacity, the window's length
/// and the requested tokens, in this order. The script fails on anything but
/// three arguments that make a rule.
pub open spec fn answered(args: Seq<u64>, counter: Option<u64>) -> Option<WindowEval> {
    if args.len() == 3 && args[1] > 0 {
        Some(evaluated(WindowRule { capacity: args[0], window: args[1] }, counter, args[2]))
    } else {
        None
    }
}

/// Evaluates the script on the arguments of a call against the counter of a
/// window, as the store does in one atomic step.
pub fn answer(args: &Vec<u64>, counter: Option<u64>) -> (e: Option<WindowEval>)
    ensures
        e == answered(args@, counter),
{
    if args.len() != 3 {
        return None;
    }
    match Interval::from_secs(args[1]) {
        Ok(length) => match FixedWindow::new(args[0], length) {
            Ok(rule) => Some(evaluate(&rule, counter, args[2])),
            Err(_) => None,
        },
        Err(_) => None,
    }
}

/// The tokens that a sequence of requests is granted in all, evaluated one
/// after the other against the counter of one window.
pub open spec fn granted(rule: WindowRule, counter: Option<u64>, requests: Seq<u64>) -> int
    decreases requests.len(),
{
    if requests.len() == 0 {
        0
    } else {
        let first = evaluated(rule, counter, requests[0]);
        let grant = if first.accepted {
            requests[0] as int
        } else {
            0
        };
        grant + granted(rule, first.counter, requests.drop_first())
    }
}

/// The counter that a sequence of requests leaves.
pub open spec fn replayed(rule: WindowRule, counter: Option<u64>, requests: Seq<u64>) -> Option<u64>
    decreases requests.len(),
{
    if requests.len() == 0 {
        counter
    } else {
        replayed(rule, evaluated(rule, counter, requests[0]).counter, requests.drop_first())
    }
}

/// An evaluation never tells that more is left than the capacity. While the
/// counter is within the capacity, what is left and what is counted make up
/// the capacity, and the counter stays within it.
pub proof fn lemma_remaining_and_counted(rule: WindowRule, counter: Option<u64>, requested: u64)
    ensures
        evaluated(rule, counter, requested).remaining <= rule.capacity,
        count_of(counter) <= rule.capacity ==> evaluated(rule, counter, requested).remaining
            + count_of(evaluated(rule, counter, requested).counter) == rule.capacity,
{
}

/// Capacity never exceeded: however the requests of any number of clients
/// fall within one window, the counter grows by exactly what they are granted,
/// and never beyond the capacity. A fresh window grants the capacity at most.
pub proof fn lemma_grants_bounded(rule: WindowRule, counter: Option<u64>, requests: Seq<u64>)
    requires
        count_of(counter) <= rule.capacity,
    ensures
        granted(rule, counter, requests) >= 0,
        count_of(replayed(rule, counter, requests)) == count_of(counter) + granted(
            rule,
            counter,
            requests,
        ),
        count_of(replayed(rule, counter, requests)) <= rule.capacity,
        counter is None ==> granted(rule, counter, requests) <= rule.capacity,
    decreases requests.len(),
{
    if requests.len() > 0 {
        lemma_grants_bounded(
            rule,
            evaluated(rule, counter, requests[0]).counter,
            requests.drop_first(),
        );
    }
}

/// Zero capacity always throttles: a rule without capacity denies every
/// request for a token or more, and tells that none is left.
pub proof fn lemma_zero_capacity_throttles(rule: WindowRule, counter: Option<u64>, requested: u64)
    requires
        rule.capacity == 0,
        requested >= 1,
    ensures
        !evaluated(rule, counter, requested).accepted,
        evaluated(rule, counter, requested).remaining == 0,
{
}

/// A request for nothing is accepted while the counter is within the capacity,
/// and counts nothing; a request for more than the capacity is denied even in
/// a fresh window.
pub proof fn lemma_edge_requests(rule: WindowRule, counter: Option<u64>, requested: u64)
    ensures
        requested == 0 && count_of(counter) <= rule.capacity ==> evaluated(
            rule,
            counter,
            requested,
        ).accepted && count_of(evaluated(rule, counter, requested).counter) == count_of(counter),
        requested > rule.capacity ==> !evaluated(rule, counter, requested).accepted,
{
}

/// Idempotence of a throttled request: it leaves the window's key as it was,
/// and the same request is evaluated to the same decision and reply again.
pub proof fn lemma_throttled_is_idempotent(rule: WindowRule, counter: Option<u64>, requested: u64)
    requires
        !evaluated(rule, counter, requested).accepted,
    ensures
        evaluated(rule, counter, requested).counter == counter,
        evaluated(rule, evaluated(rule, counter, requested).counter, requested) == evaluated(
            rule,
            counter,
            requested,
        ),
{
}

} // verus!
