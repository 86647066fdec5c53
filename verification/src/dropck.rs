//! An owned, heap-allocated value with by-reference access.
//!
//! `Foo` places its value behind one heap indirection and hands out shared
//! or, through [`Foo::get_mut`], exclusive references to it. It declares no
//! destructor of its own, so holding borrowed data in a `Foo` does not
//! extend that data's required lifetime beyond the last use.

use vstd::prelude::*;

verus! {

/// A single heap-allocated value of type `T`.
pub struct Foo<T> {
    inner: Box<T>,
}

impl<T> View for Foo<T> {
    type V = T;

    closed spec fn view(&self) -> T {
        *self.inner
    }
}

impl<T> Foo<T> {
    /// Moves `val` onto the heap.
    pub fn new(val: T) -> (r: Self)
        ensures
            r@ == val,
    {
        Self { inner: Box::new(val) }
    }

    /// A shared reference to the stored value.
    pub fn get(&self) -> (r: &T)
        ensures
            *r == self@,
    {
        &self.inner
    }

    /// An exclusive reference to the stored value.
    pub fn get_mut(&mut self) -> (r: &mut T)
        ensures
            *r == old(self)@,
            final(self)@ == *final(r),
    {
        &mut self.inner
    }
}

} // verus!
