//! Nullable pointers, reduced to the address they hold.
//!
//! The conversion rule for a pointer reads one thing of it: whether it is
//! null. [`ConstPtr`] and [`MutPtr`] carry the address and the pointee's type
//! and nothing else, so the rule is stated and proved over the address. They
//! cannot be read through; a caller that holds a real pointer passes its
//! address in and keeps the pointer.

use vstd::prelude::*;
use core::marker::PhantomData;
use crate::completion::Completion;
use crate::convert::IntoCompletion;

verus! {

/// The address held by a pointer to an immutable `U`. Address zero is the null
/// pointer.
pub struct ConstPtr<U> {
    addr: usize,
    pointee: PhantomData<U>,
}

impl<U> ConstPtr<U> {
    /// The address that the pointer holds.
    pub closed spec fn view(self) -> usize {
        self.addr
    }

    /// The null pointer.
    pub fn null() -> (p: Self)
        ensures
            p@ == 0,
    {
        ConstPtr { addr: 0, pointee: PhantomData }
    }

    /// The pointer that holds `addr`.
    pub fn from_addr(addr: usize) -> (p: Self)
        ensures
            p@ == addr,
    {
        ConstPtr { addr, pointee: PhantomData }
    }

    /// The address that the pointer holds.
    pub fn addr(&self) -> (addr: usize)
        ensures
            addr == self@,
    {
        self.addr
    }

    /// Whether the pointer is null.
    pub fn is_null(&self) -> (null: bool)
        ensures
            null == (self@ == 0),
    {
        self.addr == 0
    }
}

/// A pointer, for a function that returns an optional of any element type: the
/// null pointer ends abruptly with absent; any other pointer is yielded as it
/// is, still a pointer.
impl<U, V> IntoCompletion<Option<V>> for ConstPtr<U> {
    type Value = ConstPtr<U>;

    open spec fn completes_to(self, c: Completion<ConstPtr<U>, Option<V>>) -> bool {
        c == if self@ == 0 {
            Completion::<ConstPtr<U>, Option<V>>::Abrupt(None)
        } else {
            Completion::<ConstPtr<U>, Option<V>>::Value(self)
        }
    }

    fn into_completion(self) -> (c: Completion<ConstPtr<U>, Option<V>>)
        ensures
            self@ == 0 ==> c matches Completion::<ConstPtr<U>, Option<V>>::Abrupt(None),
            self@ != 0 ==> c == Completion::<ConstPtr<U>, Option<V>>::Value(self),
    {
        if self.is_null() {
            Completion::Abrupt(None)
        } else {
            Completion::Value(self)
        }
    }
}

/// The address held by a pointer to a mutable `U`. Address zero is the null
/// pointer.
pub struct MutPtr<U> {
    addr: usize,
    pointee: PhantomData<U>,
}

impl<U> MutPtr<U> {
    /// The address that the pointer holds.
    pub closed spec fn view(self) -> usize {
        self.addr
    }

    /// The null pointer.
    pub fn null() -> (p: Self)
        ensures
            p@ == 0,
    {
        MutPtr { addr: 0, pointee: PhantomData }
    }

    /// The pointer that holds `addr`.
    pub fn from_addr(addr: usize) -> (p: Self)
        ensures
            p@ == addr,
    {
        MutPtr { addr, pointee: PhantomData }
    }

    /// The address that the pointer holds.
    pub fn addr(&self) -> (addr: usize)
        ensures
            addr == self@,
    {
        self.addr
    }

    /// Whether the pointer is null.
    pub fn is_null(&self) -> (null: bool)
        ensures
            null == (self@ == 0),
    {
        self.addr == 0
    }
}

/// A pointer, for a function that returns an optional of any element type: the
/// null pointer ends abruptly with absent; any other pointer is yielded as it
/// is, still a pointer.
impl<U, V> IntoCompletion<Option<V>> for MutPtr<U> {
    type Value = MutPtr<U>;

    open spec fn completes_to(self, c: Completion<MutPtr<U>, Option<V>>) -> bool {
        c == if self@ == 0 {
            Completion::<MutPtr<U>, Option<V>>::Abrupt(None)
        } else {
            Completion::<MutPtr<U>, Option<V>>::Value(self)
        }
    }

    fn into_completion(self) -> (c: Completion<MutPtr<U>, Option<V>>)
        ensures
            self@ == 0 ==> c matches Completion::<MutPtr<U>, Option<V>>::Abrupt(None),
            self@ != 0 ==> c == Completion::<MutPtr<U>, Option<V>>::Value(self),
    {
        if self.is_null() {
            Completion::Abrupt(None)
        } else {
            Completion::Value(self)
        }
    }
}

} // verus!
