//! What holds of the built-in conversion rules and of the propagation
//! function, for all inputs.

use vstd::prelude::*;
use vstd::std_specs::convert::IntoSpec;
use crate::completion::Completion;
use crate::convert::IntoCompletion;
use crate::pointer::{ConstPtr, MutPtr};
use crate::propagate::propagates_to;

verus! {

/// A success converts to the value it holds, unchanged, whatever the failure
/// conversion is: `Ok(value)` completes to `Value(value)` and to nothing else.
pub proof fn lemma_success_is_kept<T, U, E: Into<F>, F>(
    value: T,
    c: Completion<T, Result<U, F>>,
)
    ensures
        Ok::<T, E>(value).completes_to(c) <==> c == Completion::<T, Result<U, F>>::Value(value),
{
}

/// The same for a target that is an optional outcome: `Ok(value)` completes to
/// `Value(value)` and to nothing else.
pub proof fn lemma_success_is_kept_in_option<T, U, E: Into<F>, F>(
    value: T,
    c: Completion<T, Option<Result<U, F>>>,
)
    ensures
        Ok::<T, E>(value).completes_to(c) <==> c == Completion::<T, Option<Result<U, F>>>::Value(
            value,
        ),
{
}

/// A failure converts to an abrupt failure that wraps an outcome of the failure
/// conversion applied to the very failure held; where that conversion obeys
/// its `into_spec`, the payload is `Err` of that value.
pub proof fn lemma_failure_is_coerced<T, U, E: Into<F>, F>(
    err: E,
    c: Completion<T, Result<U, F>>,
)
    requires
        Err::<T, E>(err).completes_to(c),
    ensures
        c matches Completion::Abrupt(Err(failure)) && call_ensures(
            <E as Into<F>>::into,
            (err,),
            failure,
        ),
        E::obeys_into_spec() ==> c == Completion::<T, Result<U, F>>::Abrupt(Err(err.into_spec())),
{
}

/// The same for a target that is an optional outcome: the abrupt payload is
/// present and wraps the converted failure.
pub proof fn lemma_failure_is_coerced_in_option<T, U, E: Into<F>, F>(
    err: E,
    c: Completion<T, Option<Result<U, F>>>,
)
    requires
        Err::<T, E>(err).completes_to(c),
    ensures
        c matches Completion::Abrupt(Some(Err(failure))) && call_ensures(
            <E as Into<F>>::into,
            (err,),
            failure,
        ),
        E::obeys_into_spec() ==> c == Completion::<T, Option<Result<U, F>>>::Abrupt(
            Some(Err(err.into_spec())),
        ),
{
}

/// An absent optional converts to an absent optional of any element type, and
/// a present one to the value it holds.
pub proof fn lemma_option_rule<U, V>(source: Option<U>, c: Completion<U, Option<V>>)
    ensures
        source is None ==> (source.completes_to(c) <==> c == Completion::<U, Option<V>>::Abrupt(
            None,
        )),
        source matches Some(value) ==> (source.completes_to(c) <==> c == Completion::<
            U,
            Option<V>,
        >::Value(value)),
{
}

/// The null pointer converts to an absent optional; any other pointer converts
/// to itself.
pub proof fn lemma_const_ptr_rule<U, V>(p: ConstPtr<U>, c: Completion<ConstPtr<U>, Option<V>>)
    ensures
        p@ == 0 ==> (p.completes_to(c) <==> c == Completion::<ConstPtr<U>, Option<V>>::Abrupt(
            None,
        )),
        p@ != 0 ==> (p.completes_to(c) <==> c == Completion::<ConstPtr<U>, Option<V>>::Value(p)),
{
}

/// The null pointer converts to an absent optional; any other pointer converts
/// to itself.
pub proof fn lemma_mut_ptr_rule<U, V>(p: MutPtr<U>, c: Completion<MutPtr<U>, Option<V>>)
    ensures
        p@ == 0 ==> (p.completes_to(c) <==> c == Completion::<MutPtr<U>, Option<V>>::Abrupt(
            None,
        )),
        p@ != 0 ==> (p.completes_to(c) <==> c == Completion::<MutPtr<U>, Option<V>>::Value(p)),
{
}

/// Where every outcome of converting `source` is abrupt with `payload`,
/// propagation returns `payload`, whatever `rest` is and whatever it would
/// have returned.
pub proof fn lemma_abrupt_ends_the_computation<S: IntoCompletion<R>, R, K: FnOnce(S::Value) -> R>(
    source: S,
    rest: K,
    payload: R,
    result: R,
)
    requires
        forall|c: Completion<S::Value, R>| #[trigger]
            source.completes_to(c) ==> c == Completion::<S::Value, R>::Abrupt(payload),
        propagates_to(source, rest, result),
    ensures
        result == payload,
{
}

/// Where every outcome of converting `source` is the value `value`,
/// propagation returns what `rest` returns for `value`.
pub proof fn lemma_value_goes_on<S: IntoCompletion<R>, R, K: FnOnce(S::Value) -> R>(
    source: S,
    rest: K,
    value: S::Value,
    result: R,
)
    requires
        forall|c: Completion<S::Value, R>| #[trigger]
            source.completes_to(c) ==> c == Completion::<S::Value, R>::Value(value),
        propagates_to(source, rest, result),
    ensures
        call_ensures(rest, (value,), result),
{
}

/// The rule for an optional outcome is the rule for an outcome with its abrupt
/// payload made present: one admits a completion exactly when the other
/// admits the same completion with `Some` around the payload.
pub proof fn lemma_optional_outcome_wraps_the_payload<T, U, E: Into<F>, F>(
    source: Result<T, E>,
    c: Completion<T, Result<U, F>>,
)
    ensures
        source.completes_to(c) <==> source.completes_to(
            match c {
                Completion::Value(value) => Completion::<T, Option<Result<U, F>>>::Value(value),
                Completion::Abrupt(payload) => Completion::<T, Option<Result<U, F>>>::Abrupt(
                    Some(payload),
                ),
            },
        ),
{
}

} // verus!
