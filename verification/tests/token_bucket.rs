use std::collections::HashMap;
use std::time::{Duration, Instant};

use arret_core::connection::{Connection, Script, ScriptCall};
use arret_core::interval::Interval;
use arret_core::rate_limiter::{AcquireResult, Quota, RateLimiter};
use arret_core::rule::clock::now;
use arret_core::rule::TokenBucket;
use arret_core::store::bucket::{self, BucketState};
use redis::{ErrorKind, RedisError, Value};

/// A store in memory that evaluates the token bucket script as the library
/// says the store does, and answers in the shape the store answers in.
struct MemoryStore {
    buckets: HashMap<String, BucketState>,
    evaluations: usize,
}

impl MemoryStore {
    fn new() -> Self {
        MemoryStore {
            buckets: HashMap::new(),
            evaluations: 0,
        }
    }
}

impl Connection for MemoryStore {
    fn evaluate(&mut self, call: &ScriptCall) -> Result<Value, RedisError> {
        self.evaluations += 1;
        let stored = self.buckets.get(&call.key).copied();
        let evaluation = match call.script {
            Script::TokenBucket => bucket::answer(&call.args, stored),
            Script::FixedWindow => None,
        };
        let Some(evaluation) = evaluation else {
            return Err(RedisError::from((
                ErrorKind::ResponseError,
                "the script failed",
            )));
        };
        self.buckets.insert(call.key.clone(), evaluation.state);
        Ok(Value::Bulk(vec![
            Value::Int(i64::from(evaluation.accepted)),
            Value::Int(evaluation.state.tokens as i64),
            Value::Int(evaluation.reset as i64),
        ]))
    }

    fn time(&mut self) -> Result<Value, RedisError> {
        Err(RedisError::from((
            ErrorKind::ClientError,
            "the token bucket does not ask for the time",
        )))
    }
}

fn prepare_connection() -> MemoryStore {
    MemoryStore::new()
}

fn wait(seconds: u64) {
    let start = Instant::now();
    while start.elapsed() < Duration::from_secs(seconds) {
        std::hint::spin_loop();
    }
}

/// Returns right after the clock has moved on to a new second, so that what
/// follows has nearly a whole second before the next one begins.
fn wait_for_tick() {
    let start = now();
    while now() == start {
        std::hint::spin_loop();
    }
}

fn assert_ok(res: AcquireResult, expected_limit: u64, expected_remaining: u64) {
    match res {
        AcquireResult::Accepted(Quota {
            limit, remaining, ..
        }) => {
            assert_eq!(limit, expected_limit);
            assert_eq!(remaining, expected_remaining);
        }
        _ => panic!("Expected Ok, got {:?}", res),
    }
}

fn assert_throttled(res: AcquireResult, expected_limit: u64, expected_remaining: u64) {
    match res {
        AcquireResult::Throttled(Quota {
            limit, remaining, ..
        }) => {
            assert_eq!(limit, expected_limit);
            assert_eq!(remaining, expected_remaining);
        }
        _ => panic!("Expected Throttled, got {:?}", res),
    }
}

#[test]
fn token_bucket_single_token() {
    let mut con = prepare_connection();

    let token_bucket = TokenBucket::new(10, Interval::from_secs(10).unwrap(), 10).unwrap();

    let res = token_bucket
        .acquire("res:single_token", 1, &mut con)
        .expect("Failed to acquire from token bucket");

    assert_ok(res, 10, 9);
}

#[test]
fn token_bucket_multiple_token() {
    let mut con = prepare_connection();

    let token_bucket = TokenBucket::new(10, Interval::from_secs(10).unwrap(), 10).unwrap();

    let res = token_bucket
        .acquire("res:multiple_token", 5, &mut con)
        .expect("Failed to acquire from token bucket");

    assert_ok(res, 10, 5);
}

#[test]
fn token_bucket_zero_capacity() {
    let mut con = prepare_connection();

    let token_bucket = TokenBucket::new(0, Interval::from_secs(10).unwrap(), 10).unwrap();

    let res = token_bucket
        .acquire("res:zero_capacity", 1, &mut con)
        .expect("Failed to acquire from token bucket");

    assert_throttled(res, 0, 0);
}

#[test]
fn token_bucket_throttled() {
    let mut con = prepare_connection();

    let token_bucket = TokenBucket::new(10, Interval::from_secs(10).unwrap(), 10).unwrap();

    for i in 0..5 {
        let res = token_bucket
            .acquire("res:throttled", 3, &mut con)
            .expect("Failed to acquire from token bucket");

        if i < 3 {
            assert_ok(res, 10, 7 - i * 3);
        } else {
            assert_throttled(res, 10, 1);
        }
    }
}

#[test]
fn refill() {
    let mut con = prepare_connection();

    let token_bucket = TokenBucket::new(2, Interval::from_secs(1).unwrap(), 1).unwrap();

    wait_for_tick();

    let res = token_bucket
        .acquire("res:refill", 1, &mut con)
        .expect("Failed to acquire from token bucket");

    assert_ok(res, 2, 1);

    let res = token_bucket
        .acquire("res:refill", 1, &mut con)
        .expect("Failed to acquire from token bucket");

    assert_ok(res, 2, 0);

    let res = token_bucket
        .acquire("res:refill", 1, &mut con)
        .expect("Failed to acquire from token bucket");

    assert_throttled(res, 2, 0);

    wait(1);

    let res = token_bucket
        .acquire("res:refill", 1, &mut con)
        .expect("Failed to acquire from token bucket");

    assert_ok(res, 2, 0);

    let res = token_bucket
        .acquire("res:refill", 1, &mut con)
        .expect("Failed to acquire from token bucket");

    assert_throttled(res, 2, 0);
}

#[test]
fn token_bucket_acquire_evaluates_once() {
    let mut con = prepare_connection();
    let token_bucket = TokenBucket::new(10, Interval::from_secs(10).unwrap(), 10).unwrap();

    token_bucket.acquire("res:once", 1, &mut con).unwrap();
    assert_eq!(con.evaluations, 1);
    token_bucket.acquire("res:once", 100, &mut con).unwrap();
    assert_eq!(con.evaluations, 2);
}

#[test]
fn token_bucket_key_and_arguments() {
    let token_bucket = TokenBucket::new(10, Interval::from_secs(7).unwrap(), 3).unwrap();
    let call = token_bucket.call("user:42", 5, 1_700_000_000);

    assert_eq!(call.script, Script::TokenBucket);
    assert_eq!(call.key, "token_bucket:user:42");
    assert_eq!(call.args, vec![1_700_000_000, 10, 7, 3, 5]);
    assert_eq!(TokenBucket::key(""), "token_bucket:");
}

#[test]
fn token_bucket_acquire_at_tells_the_full_quota() {
    let mut con = prepare_connection();
    let token_bucket = TokenBucket::new(10, Interval::from_secs(10).unwrap(), 4).unwrap();

    let res = token_bucket.acquire_at("res:at", 3, 1000, &mut con).unwrap();
    assert_eq!(
        res,
        AcquireResult::Accepted(Quota {
            limit: 10,
            remaining: 7,
            used: 3,
            reset: 1010,
        })
    );

    // Nine seconds later no refill is due yet.
    let res = token_bucket.acquire_at("res:at", 8, 1009, &mut con).unwrap();
    assert_eq!(
        res,
        AcquireResult::Throttled(Quota {
            limit: 10,
            remaining: 7,
            used: 3,
            reset: 1010,
        })
    );

    // At the reset one refill of four is due, of which three fit.
    let res = token_bucket.acquire_at("res:at", 8, 1010, &mut con).unwrap();
    assert_eq!(
        res,
        AcquireResult::Accepted(Quota {
            limit: 10,
            remaining: 2,
            used: 8,
            reset: 1020,
        })
    );

    // Another resource has a bucket of its own.
    let res = token_bucket.acquire_at("res:other", 10, 1010, &mut con).unwrap();
    assert_eq!(
        res,
        AcquireResult::Accepted(Quota {
            limit: 10,
            remaining: 0,
            used: 10,
            reset: 1020,
        })
    );
}

#[test]
fn token_bucket_request_for_nothing_is_accepted() {
    let mut con = prepare_connection();
    let token_bucket = TokenBucket::new(1, Interval::from_secs(10).unwrap(), 1).unwrap();

    token_bucket.acquire_at("res:none", 1, 50, &mut con).unwrap();
    let before = con.buckets["token_bucket:res:none"];
    let res = token_bucket.acquire_at("res:none", 0, 50, &mut con).unwrap();
    assert_ok(res, 1, 0);
    assert_eq!(con.buckets["token_bucket:res:none"], before);
}

#[test]
fn token_bucket_request_above_capacity_is_throttled() {
    let mut con = prepare_connection();
    let token_bucket = TokenBucket::new(10, Interval::from_secs(10).unwrap(), 10).unwrap();

    let res = token_bucket.acquire_at("res:above", 11, 50, &mut con).unwrap();
    assert_throttled(res, 10, 10);
}
