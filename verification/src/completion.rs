//! The completion carrier: the outcome of a computation that either produced a
//! value or ended abruptly.

use vstd::prelude::*;

verus! {

/// The outcome of a computation: either the value it produced, or the payload
/// with which it ended abruptly.
///
/// The two type parameters are independent of each other. The abrupt payload is
/// a value of the representation that the surrounding computation itself
/// returns, so it can be handed back as that computation's result unchanged.
pub enum Completion<V, F> {
    /// The computation produced a value.
    Value(V),
    /// The computation ended abruptly with this payload.
    Abrupt(F),
}

} // verus!
