//! A minimal cooperative task scheduler: the decisions of its executor loop,
//! its join combinator and its timer, as verified state machines.
//!
//! The code that owns futures, wakers and threads drives these machines: it
//! performs the action that a machine hands back and reports the outcome.

pub mod channel;
pub mod executor;
pub mod join;
pub mod timer;
