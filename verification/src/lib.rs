//! Sagas: pure reaction functions from an action result to the actions that
//! follow from it, and the combinators that compose them.
//!
//! A [`saga::Saga`] holds a reaction function and runs it with
//! [`saga::ActionComputation::compute_new_actions`]. Its combinators build new
//! sagas from it: `map_action` and `map_action_result` adapt its types,
//! `combine` puts two sagas over unrelated types under one type, the [`Sum`]
//! of theirs, and `merge` lets two sagas react to the same input.
//!
//! In contracts a saga stands for its [`behavior::Behavior`]: the inputs on
//! which its reaction function may be called, and the sequences of actions
//! that it may return on each. Every combinator states the behavior of the
//! saga that it builds in terms of the behaviors of its parts, and [`laws`]
//! holds what follows for all sagas.

pub mod behavior;
pub mod laws;
pub mod react;
pub mod saga;
pub mod sum;

pub use crate::react::{React, ReactFunction};
pub use crate::sum::Sum;
