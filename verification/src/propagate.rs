//! Propagation as a function: convert a source, then either go on with the
//! value it produced or hand the abrupt payload back at once.
//!
//! Written out in a function body, propagation is a `match` on the completion
//! with a `return` in the abrupt arm. [`propagate`] is the same control flow
//! as one call, with the remainder of the function passed as a closure.

use vstd::prelude::*;
use crate::completion::Completion;
use crate::convert::IntoCompletion;

verus! {

/// Whether `result` is what a computation returning `R` may return when it
/// converts `source` and goes on with `rest`: for some outcome of the
/// conversion, either the outcome is a value and `result` is what `rest` may
/// return for it, or the outcome is abrupt and `result` is its payload.
pub open spec fn propagates_to<S, R, K>(source: S, rest: K, result: R) -> bool where
    S: IntoCompletion<R>,
    K: FnOnce(S::Value) -> R,
{
    exists|c: Completion<S::Value, R>| #[trigger]
        source.completes_to(c) && match c {
            Completion::Value(value) => call_ensures(rest, (value,), result),
            Completion::Abrupt(payload) => result == payload,
        }
}

/// Converts `source` for a computation that returns `R` and threads the
/// outcome: a produced value is passed to `rest`, whose result is returned; an
/// abrupt payload is returned as it is, and `rest` is not called.
///
/// `rest` stands for what the surrounding computation does after the source
/// has been evaluated. It has to accept the values that the source may
/// produce; nothing is asked of it for abrupt outcomes.
pub fn propagate<S, R, K>(source: S, rest: K) -> (result: R) where
    S: IntoCompletion<R>,
    K: FnOnce(S::Value) -> R,

    requires
        forall|value: S::Value| #[trigger]
            source.completes_to(Completion::Value(value)) ==> call_requires(rest, (value,)),
    ensures
        propagates_to(source, rest, result),
{
    match source.into_completion() {
        Completion::Value(value) => rest(value),
        Completion::Abrupt(payload) => payload,
    }
}

} // verus!
