//! The conversion protocol: how a value of one fallible representation becomes
//! a [`Completion`] whose abrupt payload has the representation that the
//! surrounding computation returns.

use vstd::prelude::*;
use crate::completion::Completion;

verus! {

/// Conversion of a source representation into a [`Completion`] whose abrupt
/// payload is of type `R`.
///
/// One source type may implement this trait for several target
/// representations `R`; which rule applies is settled by the types at the call
/// site, never by a test at run time.
pub trait IntoCompletion<R>: Sized {
    /// What a successful source yields.
    type Value;

    /// Whether `c` is an outcome that converting `self` may have.
    ///
    /// This is a relation, not a function, because a rule may hand part of its
    /// work to a conversion of which only the contract is known. A rule that
    /// does not say what it yields admits every outcome, which is the default.
    open spec fn completes_to(self, c: Completion<Self::Value, R>) -> bool {
        true
    }

    /// Converts `self` into a completion. The conversion is total: an abrupt
    /// completion is a regular outcome of it, not a failure of the conversion.
    fn into_completion(self) -> (c: Completion<Self::Value, R>)
        ensures
            self.completes_to(c),
    ;
}

/// A fallible outcome, for a function that returns a fallible outcome: a
/// success yields its value; a failure ends abruptly with the failure
/// converted into the function's failure type.
impl<T, U, E, F> IntoCompletion<Result<U, F>> for Result<T, E> where E: Into<F> {
    type Value = T;

    open spec fn completes_to(self, c: Completion<T, Result<U, F>>) -> bool {
        match self {
            Ok(value) => c == Completion::<T, Result<U, F>>::Value(value),
            Err(err) => c matches Completion::Abrupt(Err(failure)) && call_ensures(
                <E as Into<F>>::into,
                (err,),
                failure,
            ),
        }
    }

    fn into_completion(self) -> (c: Completion<T, Result<U, F>>)
        ensures
            self matches Ok(value) ==> c == Completion::<T, Result<U, F>>::Value(value),
            self matches Err(err) ==> c matches Completion::<T, Result<U, F>>::Abrupt(
                Err(failure),
            ) && call_ensures(<E as Into<F>>::into, (err,), failure),
    {
        match self {
            Ok(value) => Completion::Value(value),
            Err(err) => Completion::Abrupt(Err(err.into())),
        }
    }
}

/// A fallible outcome, for a function that returns an optional fallible
/// outcome, as the step of an iteration does: a success yields its value; a
/// failure ends abruptly with the converted failure as a present item.
impl<T, U, E, F> IntoCompletion<Option<Result<U, F>>> for Result<T, E> where E: Into<F> {
    type Value = T;

    open spec fn completes_to(self, c: Completion<T, Option<Result<U, F>>>) -> bool {
        match self {
            Ok(value) => c == Completion::<T, Option<Result<U, F>>>::Value(value),
            Err(err) => c matches Completion::Abrupt(Some(Err(failure))) && call_ensures(
                <E as Into<F>>::into,
                (err,),
                failure,
            ),
        }
    }

    fn into_completion(self) -> (c: Completion<T, Option<Result<U, F>>>)
        ensures
            self matches Ok(value) ==> c == Completion::<T, Option<Result<U, F>>>::Value(value),
            self matches Err(err) ==> c matches Completion::<T, Option<Result<U, F>>>::Abrupt(
                Some(Err(failure)),
            ) && call_ensures(<E as Into<F>>::into, (err,), failure),
    {
        match self {
            Ok(value) => Completion::Value(value),
            Err(err) => Completion::Abrupt(Some(Err(err.into()))),
        }
    }
}

/// An optional, for a function that returns an optional of any element type:
/// a present value is yielded; an absent one ends abruptly with absent. No
/// value of the target's element type `V` is ever made.
impl<U, V> IntoCompletion<Option<V>> for Option<U> {
    type Value = U;

    open spec fn completes_to(self, c: Completion<U, Option<V>>) -> bool {
        c == match self {
            Some(value) => Completion::<U, Option<V>>::Value(value),
            None => Completion::<U, Option<V>>::Abrupt(None),
        }
    }

    fn into_completion(self) -> (c: Completion<U, Option<V>>)
        ensures
            self matches Some(value) ==> c == Completion::<U, Option<V>>::Value(value),
            self is None ==> c matches Completion::<U, Option<V>>::Abrupt(None),
    {
        match self {
            Some(value) => Completion::Value(value),
            None => Completion::Abrupt(None),
        }
    }
}

} // verus!
