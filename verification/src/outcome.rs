//! What one contained call came to.

use vstd::prelude::*;

verus! {

/// The result of running one operation under containment: it either ran to
/// completion and produced a value, or an unwind was intercepted on its way
/// out. A call has exactly one outcome.
#[derive(Debug, PartialEq, Eq)]
pub enum Outcome<T> {
    /// The operation returned this value.
    Completed(T),
    /// An unwind left the operation and was intercepted.
    Unwound,
}

impl<T> Outcome<T> {
    /// The outcome that a containment result stands for.
    ///
    /// The payload of an intercepted unwind is dropped: the guard does not
    /// look at what failed, only at whether the operation completed.
    pub open spec fn of_caught<E>(caught: Result<T, E>) -> Outcome<T> {
        match caught {
            Ok(value) => Outcome::Completed(value),
            Err(_) => Outcome::Unwound,
        }
    }

    /// Classifies what a containment scope handed back: `Ok` holds the
    /// value of an operation that completed, `Err` whatever an intercepted
    /// unwind carried.
    pub fn from_caught<E>(caught: Result<T, E>) -> (outcome: Outcome<T>)
        ensures
            outcome == Self::of_caught(caught),
    {
        match caught {
            Ok(value) => Outcome::Completed(value),
            Err(_) => Outcome::Unwound,
        }
    }
}

} // verus!
