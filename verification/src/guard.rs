//! What the guard owes its caller once a contained call has an outcome.

use vstd::prelude::*;
use crate::outcome::Outcome;

verus! {

/// The line that reports an intercepted unwind.
pub const DIAGNOSTIC: &'static str = "Attempt to Unwind out of rust code";

/// The one thing the guard does next. The two variants are the two ways a
/// guarded call ends: control goes back to the caller with a value, or the
/// process is terminated.
#[derive(Debug, PartialEq, Eq)]
pub enum Action<T> {
    /// Hand this value back to the caller. Nothing is written anywhere.
    Return(T),
    /// Write `diagnostic` as one line to the standard error stream, then
    /// terminate the process abnormally, skipping all cleanup. Control never
    /// goes back to the caller.
    Abort { diagnostic: &'static str },
}

impl<T> Action<T> {
    /// The lines this action puts on the standard error stream, in order.
    pub open spec fn diagnostics(self) -> Seq<Seq<char>> {
        match self {
            Action::Return(_) => Seq::empty(),
            Action::Abort { diagnostic } => seq![diagnostic@],
        }
    }
}

/// A text that takes up exactly one line when written out followed by a
/// line break: it is not empty and holds no line break of its own.
pub open spec fn is_single_line(text: Seq<char>) -> bool {
    &&& text.len() > 0
    &&& forall|i: int| 0 <= i < text.len() ==> text[i] != '\n'
}

/// The action that an outcome calls for: a completed call's value is handed
/// on untouched, and an intercepted unwind ends the process after one
/// diagnostic line.
pub open spec fn action_for<T>(outcome: Outcome<T>) -> Action<T> {
    match outcome {
        Outcome::Completed(value) => Action::Return(value),
        Outcome::Unwound => Action::Abort { diagnostic: DIAGNOSTIC },
    }
}

/// Decides what the guard does with the outcome of the call it contained.
pub fn settle<T>(outcome: Outcome<T>) -> (action: Action<T>)
    ensures
        action == action_for(outcome),
{
    match outcome {
        Outcome::Completed(value) => Action::Return(value),
        Outcome::Unwound => Action::Abort { diagnostic: DIAGNOSTIC },
    }
}

/// The diagnostic is one line: written out and followed by a line break, it
/// puts exactly one line on the stream.
pub proof fn lemma_diagnostic_is_one_line()
    ensures
        is_single_line(DIAGNOSTIC@),
{
    reveal_strlit("Attempt to Unwind out of rust code");
}

/// A call that completes has its value handed back unchanged, whatever the
/// value is, and nothing is written to the standard error stream.
pub proof fn lemma_completed_call_returns_its_value<T, E>(value: T)
    ensures
        action_for(Outcome::of_caught(Ok::<T, E>(value))) == Action::Return(value),
        action_for(Outcome::of_caught(Ok::<T, E>(value))).diagnostics().len() == 0,
{
}

/// A call that an unwind leaves never gets control back to the caller: the
/// process is terminated, after exactly one line on the standard error
/// stream. What the unwind carried makes no difference to any of this.
pub proof fn lemma_unwound_call_aborts<T, E>(payload: E, other: E)
    ensures
        action_for(Outcome::<T>::of_caught(Err(payload))) is Abort,
        action_for(Outcome::<T>::of_caught(Err(payload))).diagnostics().len() == 1,
        is_single_line(action_for(Outcome::<T>::of_caught(Err(payload))).diagnostics()[0]),
        action_for(Outcome::<T>::of_caught(Err(payload))) == action_for(
            Outcome::<T>::of_caught(Err(other)),
        ),
{
    lemma_diagnostic_is_one_line();
}

/// Every contained call ends in exactly one of the two ways, never both and
/// never neither: it is handed back precisely when the call completed, with
/// the value the call produced, and the process is terminated precisely
/// when an unwind was intercepted.
pub proof fn lemma_exactly_one_ending<T, E>(caught: Result<T, E>)
    ensures
        (Outcome::of_caught(caught) is Completed) != (Outcome::of_caught(caught) is Unwound),
        (action_for(Outcome::of_caught(caught)) is Return) != (action_for(
            Outcome::of_caught(caught),
        ) is Abort),
        action_for(Outcome::of_caught(caught)) is Return <==> caught is Ok,
        action_for(Outcome::of_caught(caught)) is Abort <==> caught is Err,
        caught matches Ok(value) ==> action_for(Outcome::of_caught(caught)) == Action::Return(
            value,
        ),
{
}

} // verus!
