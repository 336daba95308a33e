//! The narrow capability that a rate limiter needs from the store: evaluate
//! one of two scripts atomically against a key, and tell the store's time.
use vstd::prelude::*;
use crate::error::Error;

verus! {

/// `redis::Value`: a reply as the store sent it. Nothing is known of its
/// contents here; it is handed on to the decoding functions of `redis`.
#[verifier::external_type_specification]
#[verifier::external_body]
pub struct ExValue(redis::Value);

/// `redis::RedisError`: a failure of the transport, of the store, or of
/// decoding a reply.
#[verifier::external_type_specification]
#[verifier::external_body]
pub struct ExRedisError(redis::RedisError);

/// Store-side text of the token bucket algorithm.
///
/// `KEYS[1]` is the bucket's key; `ARGV` holds, in this order, the client's
/// clock in seconds, the capacity, the refill interval in seconds, the refill
/// amount and the requested tokens. The reply is
/// `(accepted, tokens_remaining, reset_epoch_seconds)`.
///
/// Nothing is proved of this text. It is meant to do what
/// [`crate::store::bucket::evaluate`] does, and does so while every quantity
/// stays below 2^53, up to where the store's numbers are exact.
pub const TOKEN_BUCKET_SCRIPT: &'static str = "
local key = KEYS[1]
local now = tonumber(ARGV[1])
local capacity = tonumber(ARGV[2])
local interval = tonumber(ARGV[3])
local amount = tonumber(ARGV[4])
local requested = tonumber(ARGV[5])

local state = redis.call('HMGET', key, 'tokens', 'last_refill')
local tokens = tonumber(state[1])
local last_refill = tonumber(state[2])
if tokens == nil or last_refill == nil then
  tokens = capacity
  last_refill = now
end

local steps = 0
if now > last_refill then
  steps = math.floor((now - last_refill) / interval)
end
tokens = math.min(capacity, tokens + steps * amount)
last_refill = last_refill + steps * interval

local accepted = 0
if tokens >= requested then
  tokens = tokens - requested
  accepted = 1
end

redis.call('HSET', key, 'tokens', tokens, 'last_refill', last_refill)
redis.call('EXPIRE', key, interval * math.max(1, math.ceil(capacity / amount)))
return { accepted, tokens, last_refill + interval }
";

/// Store-side text of the fixed window algorithm.
///
/// `KEYS[1]` is the key of one window of one resource; `ARGV` holds, in this
/// order, the capacity, the window length in seconds and the requested tokens.
/// The reply is `(accepted, remaining_in_window)`.
///
/// Nothing is proved of this text. It is meant to do what
/// [`crate::store::window::evaluate`] does, and does so while every quantity
/// stays below 2^53, up to where the store's numbers are exact.
pub const FIXED_WINDOW_SCRIPT: &'static str = "
local key = KEYS[1]
local capacity = tonumber(ARGV[1])
local window = tonumber(ARGV[2])
local requested = tonumber(ARGV[3])

local current = tonumber(redis.call('GET', key)) or 0
local count = current + requested
if count <= capacity then
  redis.call('SET', key, count, 'EX', window)
  return { 1, capacity - count }
end
return { 0, math.max(0, capacity - current) }
";

/// The two scripts that the store evaluates.
#[derive(Debug, Clone, Copy, PartialEq, Eq, Structural)]
pub enum Script {
    /// Step-wise refill: [`TOKEN_BUCKET_SCRIPT`].
    TokenBucket,
    /// One counter per window: [`FIXED_WINDOW_SCRIPT`].
    FixedWindow,
}

impl Script {
    /// The text that the store evaluates for this script.
    pub fn source(&self) -> (text: &'static str)
        ensures
            text@ == match *self {
                Script::TokenBucket => TOKEN_BUCKET_SCRIPT@,
                Script::FixedWindow => FIXED_WINDOW_SCRIPT@,
            },
    {
        match self {
            Script::TokenBucket => TOKEN_BUCKET_SCRIPT,
            Script::FixedWindow => FIXED_WINDOW_SCRIPT,
        }
    }
}

/// One evaluation of a script: the script, the single key it works on, and
/// its arguments in order.
#[derive(Debug, Clone, PartialEq, Eq)]
pub struct ScriptCall {
    /// Which script to evaluate.
    pub script: Script,
    /// The key that holds the resource's state.
    pub key: String,
    /// The arguments, each sent as a decimal numeral.
    pub args: Vec<u64>,
}

/// What a caller must provide: a connection to the store.
///
/// Neither operation promises anything about its result: the rate limiters
/// are verified for whatever a connection answers.
pub trait Connection {
    /// Evaluates `call.script` atomically with `call.key` as its only key and
    /// `call.args` as its arguments, and hands back the store's reply.
    fn evaluate(&mut self, call: &ScriptCall) -> Result<redis::Value, redis::RedisError>;

    /// Asks the store for its wall clock (`TIME`), and hands back the reply.
    fn time(&mut self) -> Result<redis::Value, redis::RedisError>;
}

/// The triple `(accepted, tokens_remaining, reset_epoch_seconds)` that a reply
/// holds, as `redis::from_redis_value` reads it at `(bool, u64, u64)`, or
/// nothing where it reads none.
pub uninterp spec fn bucket_reply_in(value: redis::Value) -> Option<(bool, u64, u64)>;

/// The pair `(accepted, remaining_in_window)` that a reply holds, as
/// `redis::from_redis_value` reads it at `(bool, u64)`, or nothing where it
/// reads none.
pub uninterp spec fn window_reply_in(value: redis::Value) -> Option<(bool, u64)>;

/// The pair `(seconds, microseconds)` that a reply to `TIME` holds, as
/// `redis::from_redis_value` reads it at `(u64, u64)`, or nothing where it
/// reads none.
pub uninterp spec fn time_in(value: redis::Value) -> Option<(u64, u64)>;

/// `redis::from_redis_value` at `(bool, u64, u64)`: reads a reply as the triple
/// that the token bucket script answers with. What it reads depends on the
/// reply alone; a reply of another shape is an error, never a panic.
#[verifier::external_body]
pub(crate) fn read_bucket_reply(value: &redis::Value) -> (r: Result<
    (bool, u64, u64),
    redis::RedisError,
>)
    ensures
        bucket_reply_in(*value) == match r {
            Ok(triple) => Some(triple),
            Err(_) => None,
        },
{
    redis::from_redis_value(value)
}

/// `redis::from_redis_value` at `(bool, u64)`: reads a reply as the pair that
/// the fixed window script answers with. What it reads depends on the reply
/// alone; a reply of another shape is an error, never a panic.
#[verifier::external_body]
pub(crate) fn read_window_reply(value: &redis::Value) -> (r: Result<
    (bool, u64),
    redis::RedisError,
>)
    ensures
        window_reply_in(*value) == match r {
            Ok(pair) => Some(pair),
            Err(_) => None,
        },
{
    redis::from_redis_value(value)
}

/// `redis::from_redis_value` at `(u64, u64)`: reads the reply to `TIME` as
/// seconds and microseconds. What it reads depends on the reply alone; a
/// reply of another shape is an error, never a panic.
#[verifier::external_body]
pub(crate) fn read_time(value: &redis::Value) -> (r: Result<(u64, u64), redis::RedisError>)
    ensures
        time_in(*value) == match r {
            Ok(pair) => Some(pair),
            Err(_) => None,
        },
{
    redis::from_redis_value(value)
}

/// The error that stands for a failure below the library: it carries the
/// failure's own text.
pub(crate) fn internal(error: &redis::RedisError) -> (e: Error)
    ensures
        e matches Error::Internal(text) && vstd::string::to_string_from_display_ensures::<
            redis::RedisError,
        >(error, text),
{
    Error::Internal(error.to_string())
}

} // verus!
