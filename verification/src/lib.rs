//! Distributed rate limiting against a shared key-value store.
//!
//! A rule ([`rule::TokenBucket`] or [`rule::FixedWindow`]) is an immutable
//! value. All mutable state lives in the store and is changed only by one
//! atomic store-side script per decision, so that uncoordinated clients agree
//! on every resource's budget.
//!
//! - [`interval`], [`error`], [`rate_limiter`]: the values that callers see.
//! - [`rule`]: the two rules, the calls they make and how they read replies.
//! - [`connection`]: what a caller must provide to reach the store, and the
//!   text of the scripts.
//! - [`store`]: what the store does when it evaluates a script, and what
//!   follows from it: the capacity is never exceeded, the reset never goes
//!   back, a throttled request changes nothing.
//! - [`text`]: decimal numerals for keys.
pub mod connection;
pub mod error;
pub mod interval;
pub mod rate_limiter;
pub mod rule;
pub mod store;
pub mod text;
