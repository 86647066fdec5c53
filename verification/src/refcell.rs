//! A single-value container with borrow handles.
//!
//! `RefCell` stores one value and hands out read access through [`Ref`]
//! handles — any number may be alive at once — or write access through an
//! exclusive reference from [`RefCell::borrow_mut`]. Exclusive and shared
//! access cannot overlap; here that discipline is enforced statically, so a
//! conflicting borrow is rejected before the program runs instead of at run
//! time.

use vstd::prelude::*;

verus! {

/// A container holding exactly one value of type `T`, borrowed through
/// [`RefCell::borrow`] and [`RefCell::borrow_mut`].
pub struct RefCell<T> {
    inner: T,
}

impl<T> View for RefCell<T> {
    type V = T;

    closed spec fn view(&self) -> T {
        self.inner
    }
}

impl<T> RefCell<T> {
    /// Creates a cell holding `value`.
    pub fn new(value: T) -> (r: Self)
        ensures
            r@ == value,
    {
        Self { inner: value }
    }

    /// A read handle on the stored value. Any number of read handles may be
    /// alive at the same time.
    pub fn borrow(&self) -> (r: Ref<'_, T>)
        ensures
            r@ == self@,
    {
        Ref { value: &self.inner }
    }

    /// Exclusive write access to the stored value: every update made
    /// through the returned reference is the cell's new contents.
    pub fn borrow_mut(&mut self) -> (r: &mut T)
        ensures
            *r == old(self)@,
            final(self)@ == *final(r),
    {
        &mut self.inner
    }
}

/// A read handle into a [`RefCell`]: a smart-pointer-like view of the
/// stored value for as long as the handle lives.
pub struct Ref<'a, T> {
    value: &'a T,
}

impl<'a, T> View for Ref<'a, T> {
    type V = T;

    closed spec fn view(&self) -> T {
        *self.value
    }
}

impl<'a, T> Ref<'a, T> {
    /// The borrowed value.
    pub fn get(&self) -> (r: &'a T)
        ensures
            *r == self@,
    {
        self.value
    }
}

} // verus!
