//! What the store does with a resource's record when it evaluates a script.
//!
//! The store evaluates each script as one atomic step on one key, so however
//! many clients ask at once, a resource's record goes through a sequence of
//! evaluations. The functions here are that step, for each algorithm, on plain
//! values: they say what the store-side scripts are meant to do, they serve as
//! a store where none is at hand, and the guarantees of the algorithms are
//! proved of them.
pub mod bucket;
pub mod window;
