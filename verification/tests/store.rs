use arret_core::interval::Interval;
use arret_core::rule::{FixedWindow, TokenBucket};
use arret_core::store::bucket::{self, BucketEval, BucketState};
use arret_core::store::window::{self, WindowEval};

fn bucket_rule(capacity: u64, interval: u64, amount: u64) -> TokenBucket {
    TokenBucket::new(capacity, Interval::from_secs(interval).unwrap(), amount).unwrap()
}

fn window_rule(capacity: u64, seconds: u64) -> FixedWindow {
    FixedWindow::new(capacity, Interval::from_secs(seconds).unwrap()).unwrap()
}

#[test]
fn bucket_starts_full() {
    let rule = bucket_rule(10, 10, 10);
    assert_eq!(
        bucket::evaluate(&rule, None, 1000, 1),
        BucketEval {
            accepted: true,
            state: BucketState {
                tokens: 9,
                last_refill: 1000,
            },
            reset: 1010,
            ttl: 10,
        }
    );
}

#[test]
fn bucket_refills_in_whole_steps() {
    let rule = bucket_rule(10, 10, 3);
    let empty = BucketState {
        tokens: 0,
        last_refill: 1000,
    };
    // Nothing before a whole interval has passed.
    assert_eq!(bucket::refill(&rule, empty, 1009), empty);
    // One step after ten seconds; the last refill moves on by the interval.
    assert_eq!(
        bucket::refill(&rule, empty, 1010),
        BucketState {
            tokens: 3,
            last_refill: 1010,
        }
    );
    // The part of an interval that has passed keeps counting.
    assert_eq!(
        bucket::refill(&rule, empty, 1025),
        BucketState {
            tokens: 6,
            last_refill: 1020,
        }
    );
    // Never beyond the capacity.
    assert_eq!(
        bucket::refill(&rule, empty, 1045),
        BucketState {
            tokens: 10,
            last_refill: 1040,
        }
    );
    assert_eq!(
        bucket::refill(&rule, empty, u64::MAX),
        BucketState {
            tokens: 10,
            last_refill: u64::MAX - 5,
        }
    );
}

#[test]
fn bucket_clock_that_reads_earlier_refills_nothing() {
    let rule = bucket_rule(10, 10, 3);
    let state = BucketState {
        tokens: 4,
        last_refill: 1000,
    };
    assert_eq!(bucket::refill(&rule, state, 0), state);
    assert_eq!(bucket::refill(&rule, state, 999), state);
    assert_eq!(
        bucket::evaluate(&rule, Some(state), 900, 4),
        BucketEval {
            accepted: true,
            state: BucketState {
                tokens: 0,
                last_refill: 1000,
            },
            reset: 1010,
            ttl: 40,
        }
    );
}

#[test]
fn bucket_record_above_capacity_is_cut_down() {
    let rule = bucket_rule(5, 10, 1);
    let state = BucketState {
        tokens: 50,
        last_refill: 1000,
    };
    assert_eq!(bucket::refill(&rule, state, 1000).tokens, 5);
    assert!(!bucket::evaluate(&rule, Some(state), 1000, 6).accepted);
}

#[test]
fn bucket_arithmetic_does_not_overflow() {
    let rule = bucket_rule(u64::MAX, 1, u64::MAX);
    let state = BucketState {
        tokens: u64::MAX - 1,
        last_refill: 0,
    };
    let evaluation = bucket::evaluate(&rule, Some(state), u64::MAX, u64::MAX);
    assert_eq!(
        evaluation,
        BucketEval {
            accepted: true,
            state: BucketState {
                tokens: 0,
                last_refill: u64::MAX,
            },
            reset: u64::MAX,
            ttl: 1,
        }
    );

    let rule = bucket_rule(u64::MAX, u64::MAX, 1);
    assert_eq!(bucket::time_to_live(&rule), u64::MAX);
    let evaluation = bucket::evaluate(&rule, None, 5, 1);
    assert_eq!(evaluation.reset, u64::MAX);
    assert_eq!(evaluation.state.tokens, u64::MAX - 1);
}

#[test]
fn bucket_time_to_live() {
    // As long as it takes to fill an empty bucket: ceil(10 / 3) refills.
    assert_eq!(bucket::time_to_live(&bucket_rule(10, 5, 3)), 20);
    assert_eq!(bucket::time_to_live(&bucket_rule(9, 5, 3)), 15);
    assert_eq!(bucket::time_to_live(&bucket_rule(10, 10, 10)), 10);
    assert_eq!(bucket::time_to_live(&bucket_rule(2, 1, 1)), 2);
    // One interval at least.
    assert_eq!(bucket::time_to_live(&bucket_rule(0, 7, 3)), 7);
    assert_eq!(bucket::time_to_live(&bucket_rule(1, 7, 3)), 7);
}

#[test]
fn bucket_record_dropped_after_its_lifetime_was_full() {
    let rule = bucket_rule(10, 5, 3);
    let ttl = bucket::time_to_live(&rule);
    for tokens in [0u64, 1, 9, 10] {
        let state = BucketState {
            tokens,
            last_refill: 1000,
        };
        let kept = bucket::evaluate(&rule, Some(state), 1000 + ttl, 10);
        let dropped = bucket::evaluate(&rule, None, 1000 + ttl, 10);
        assert!(kept.accepted);
        assert_eq!(kept.state.tokens, dropped.state.tokens);
    }
}

#[test]
fn bucket_refill_step_by_step() {
    let rule = bucket_rule(2, 1, 1);
    let first = bucket::evaluate(&rule, None, 500, 1);
    assert!(first.accepted);
    assert_eq!(first.state.tokens, 1);
    let second = bucket::evaluate(&rule, Some(first.state), 500, 1);
    assert!(second.accepted);
    assert_eq!(second.state.tokens, 0);
    let third = bucket::evaluate(&rule, Some(second.state), 500, 1);
    assert!(!third.accepted);
    assert_eq!(third.state.tokens, 0);
    // Exactly one token is refilled after a second, consumed, and gone.
    let fourth = bucket::evaluate(&rule, Some(third.state), 501, 1);
    assert!(fourth.accepted);
    assert_eq!(fourth.state.tokens, 0);
    let fifth = bucket::evaluate(&rule, Some(fourth.state), 501, 1);
    assert!(!fifth.accepted);
    assert_eq!(fifth.state.tokens, 0);
}

#[test]
fn bucket_capacity_is_never_exceeded() {
    let rule = bucket_rule(10, 10, 4);
    let requests: [(u64, u64); 12] = [
        (100, 3),
        (100, 3),
        (101, 3),
        (102, 3),
        (105, 1),
        (109, 1),
        (110, 5),
        (110, 4),
        (111, 1),
        (125, 7),
        (126, 2),
        (129, 1),
    ];
    let mut state = None;
    let mut granted = 0;
    let mut refills = 0;
    for (now, tokens) in requests {
        let seen = state.unwrap_or(BucketState {
            tokens: 10,
            last_refill: now,
        });
        refills += (now - seen.last_refill) / 10;
        let evaluation = bucket::evaluate(&rule, state, now, tokens);
        if evaluation.accepted {
            granted += tokens;
        }
        assert!(evaluation.state.tokens <= 10);
        assert!(granted <= 10 + refills * 4);
        state = Some(evaluation.state);
    }
    assert_eq!(refills, 2);
    assert_eq!(granted, 17);

    // Within one refill period no more than the capacity is granted.
    let mut state = None;
    let mut granted = 0;
    for tokens in [4u64, 4, 4, 1, 1, 1, 1] {
        let evaluation = bucket::evaluate(&rule, state, 100, tokens);
        if evaluation.accepted {
            granted += tokens;
        }
        state = Some(evaluation.state);
    }
    assert_eq!(granted, 10);
}

#[test]
fn bucket_reset_never_goes_back() {
    let rule = bucket_rule(3, 10, 1);
    let clock = [100u64, 104, 95, 110, 109, 131, 131, 0, 200];
    let mut state = None;
    let mut last_reset = 0;
    for now in clock {
        let evaluation = bucket::evaluate(&rule, state, now, 1);
        assert!(evaluation.reset >= last_reset);
        last_reset = evaluation.reset;
        state = Some(evaluation.state);
    }
    assert_eq!(last_reset, 210);
}

#[test]
fn bucket_reset_brings_a_refill() {
    let rule = bucket_rule(1, 10, 1);
    let first = bucket::evaluate(&rule, None, 1003, 1);
    assert!(first.accepted);
    assert_eq!(first.reset, 1013);
    assert!(!bucket::evaluate(&rule, Some(first.state), first.reset - 1, 1).accepted);
    assert!(bucket::evaluate(&rule, Some(first.state), first.reset, 1).accepted);
}

#[test]
fn bucket_zero_capacity_always_throttles() {
    let rule = bucket_rule(0, 10, 10);
    for state in [
        None,
        Some(BucketState {
            tokens: 0,
            last_refill: 0,
        }),
        Some(BucketState {
            tokens: 7,
            last_refill: 3,
        }),
    ] {
        for now in [0u64, 1000, u64::MAX] {
            for tokens in [1u64, 2, u64::MAX] {
                let evaluation = bucket::evaluate(&rule, state, now, tokens);
                assert!(!evaluation.accepted);
                assert_eq!(evaluation.state.tokens, 0);
            }
        }
    }
}

#[test]
fn bucket_throttled_request_changes_nothing() {
    let rule = bucket_rule(5, 10, 2);
    let state = BucketState {
        tokens: 1,
        last_refill: 1000,
    };
    let first = bucket::evaluate(&rule, Some(state), 1013, 4);
    assert!(!first.accepted);
    // Nothing is debited: the record is the refilled one.
    assert_eq!(first.state, bucket::refill(&rule, state, 1013));
    assert_eq!(
        first.state,
        BucketState {
            tokens: 3,
            last_refill: 1010,
        }
    );
    let again = bucket::evaluate(&rule, Some(first.state), 1013, 4);
    assert_eq!(again, first);
}

#[test]
fn window_counts_up_to_the_capacity() {
    let rule = window_rule(10, 10);
    assert_eq!(
        window::evaluate(&rule, None, 5),
        WindowEval {
            accepted: true,
            counter: Some(5),
            remaining: 5,
            ttl: Some(10),
        }
    );
    assert_eq!(
        window::evaluate(&rule, Some(5), 5),
        WindowEval {
            accepted: true,
            counter: Some(10),
            remaining: 0,
            ttl: Some(10),
        }
    );
    assert_eq!(
        window::evaluate(&rule, Some(5), 6),
        WindowEval {
            accepted: false,
            counter: Some(5),
            remaining: 5,
            ttl: None,
        }
    );
    assert_eq!(
        window::evaluate(&rule, None, 11),
        WindowEval {
            accepted: false,
            counter: None,
            remaining: 10,
            ttl: None,
        }
    );
}

#[test]
fn window_progressive_throttle() {
    let rule = window_rule(10, 10);
    let mut counter = None;
    let mut told = Vec::new();
    for _ in 0..5 {
        let evaluation = window::evaluate(&rule, counter, 3);
        told.push((evaluation.accepted, evaluation.remaining));
        counter = evaluation.counter;
    }
    assert_eq!(
        told,
        vec![(true, 7), (true, 4), (true, 1), (false, 1), (false, 1)]
    );
}

#[test]
fn window_arithmetic_does_not_overflow() {
    let rule = window_rule(u64::MAX, 1);
    assert!(window::evaluate(&rule, Some(u64::MAX), 0).accepted);
    assert!(!window::evaluate(&rule, Some(u64::MAX), 1).accepted);
    assert!(!window::evaluate(&rule, Some(1), u64::MAX).accepted);
    assert_eq!(
        window::evaluate(&rule, Some(1), u64::MAX - 1),
        WindowEval {
            accepted: true,
            counter: Some(u64::MAX),
            remaining: 0,
            ttl: Some(1),
        }
    );
    // A counter beyond the capacity admits nothing and tells nothing left.
    let rule = window_rule(3, 1);
    assert_eq!(
        window::evaluate(&rule, Some(5), 0),
        WindowEval {
            accepted: false,
            counter: Some(5),
            remaining: 0,
            ttl: None,
        }
    );
}

#[test]
fn window_capacity_is_never_exceeded() {
    let rule = window_rule(10, 10);
    let mut counter = None;
    let mut granted = 0;
    for tokens in [3u64, 0, 4, 5, 2, 2, 1, 1, 0] {
        let evaluation = window::evaluate(&rule, counter, tokens);
        if evaluation.accepted {
            granted += tokens;
        }
        counter = evaluation.counter;
        assert_eq!(counter.unwrap_or(0), granted);
        assert_eq!(evaluation.remaining + counter.unwrap_or(0), 10);
        assert!(granted <= 10);
    }
    assert_eq!(granted, 10);
}

#[test]
fn window_zero_capacity_always_throttles() {
    let rule = window_rule(0, 10);
    for counter in [None, Some(0u64), Some(4)] {
        for tokens in [1u64, 2, u64::MAX] {
            let evaluation = window::evaluate(&rule, counter, tokens);
            assert!(!evaluation.accepted);
            assert_eq!(evaluation.remaining, 0);
            assert_eq!(evaluation.counter, counter);
        }
    }
}

#[test]
fn window_throttled_request_changes_nothing() {
    let rule = window_rule(10, 10);
    for counter in [None, Some(8u64)] {
        let first = window::evaluate(&rule, counter, 11);
        assert!(!first.accepted);
        assert_eq!(first.counter, counter);
        assert_eq!(window::evaluate(&rule, first.counter, 11), first);
    }
}

#[test]
fn window_reset_never_goes_back_and_opens_a_window() {
    let rule = window_rule(10, 10);
    let mut last_reset = 0;
    for seconds in [0u64, 1, 9, 10, 11, 25, 25, 39, 40, 1_700_000_000] {
        let reset = rule.reset(seconds);
        assert!(reset >= last_reset);
        assert!(reset > seconds);
        assert_eq!(rule.window_id(reset), rule.window_id(seconds) + 1);
        last_reset = reset;
    }
}

#[test]
fn bucket_store_reads_a_call_as_the_client_wrote_it() {
    let rule = bucket_rule(10, 7, 3);
    let state = Some(BucketState {
        tokens: 2,
        last_refill: 1000,
    });
    let call = rule.call("res", 4, 1015);
    assert_eq!(
        bucket::answer(&call.args, state),
        Some(bucket::evaluate(&rule, state, 1015, 4))
    );
    assert_eq!(
        bucket::answer(&call.args, state),
        Some(BucketEval {
            accepted: true,
            state: BucketState {
                tokens: 4,
                last_refill: 1014,
            },
            reset: 1021,
            ttl: 28,
        })
    );
    assert_eq!(
        bucket::answer(&call.args, None),
        Some(bucket::evaluate(&rule, None, 1015, 4))
    );
}

#[test]
fn bucket_store_fails_on_what_is_no_call() {
    assert_eq!(bucket::answer(&vec![], None), None);
    assert_eq!(bucket::answer(&vec![1000, 10, 7, 3], None), None);
    assert_eq!(bucket::answer(&vec![1000, 10, 7, 3, 4, 5], None), None);
    // No interval, or nothing to refill.
    assert_eq!(bucket::answer(&vec![1000, 10, 0, 3, 4], None), None);
    assert_eq!(bucket::answer(&vec![1000, 10, 7, 0, 4], None), None);
    assert!(bucket::answer(&vec![1000, 0, 1, 1, 0], None).is_some());
}

#[test]
fn window_store_reads_a_call_as_the_client_wrote_it() {
    let rule = window_rule(10, 60);
    let call = rule.call("res", 4, 1_700_000_000);
    assert_eq!(
        window::answer(&call.args, Some(3)),
        Some(window::evaluate(&rule, Some(3), 4))
    );
    assert_eq!(
        window::answer(&call.args, Some(3)),
        Some(WindowEval {
            accepted: true,
            counter: Some(7),
            remaining: 3,
            ttl: Some(60),
        })
    );
}

#[test]
fn window_store_fails_on_what_is_no_call() {
    assert_eq!(window::answer(&vec![], None), None);
    assert_eq!(window::answer(&vec![10, 60], None), None);
    assert_eq!(window::answer(&vec![10, 60, 4, 5], None), None);
    assert_eq!(window::answer(&vec![10, 0, 4], None), None);
    assert!(window::answer(&vec![0, 1, 0], None).is_some());
}
