//! A guard for the boundary between code that may unwind and a caller that
//! cannot tolerate unwinding.
//!
//! The library holds the guard's decisions: how the result of one contained
//! call is classified, and what the guard owes its caller for each class.

pub mod guard;
pub mod outcome;

pub use guard::{settle, Action, DIAGNOSTIC};
pub use outcome::Outcome;
