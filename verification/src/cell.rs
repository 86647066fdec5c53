//! A single-value container with a settable slot.
//!
//! The stored value is replaced through `set` and, for `Copy` contents, read
//! out through `get`. Updates go through an exclusive reference, so every
//! change of the contents is visible in the type's view.

use vstd::prelude::*;

verus! {

/// A container holding exactly one value of type `T`.
#[derive(Debug)]
pub struct Cell<T> {
    value: T,
}

impl<T> View for Cell<T> {
    type V = T;

    closed spec fn view(&self) -> T {
        self.value
    }
}

impl<T> Cell<T> {
    /// Creates a cell holding `value`.
    pub fn new(value: T) -> (r: Self)
        ensures
            r@ == value,
    {
        Self { value }
    }

    /// Replaces the stored value with `value`.
    pub fn set(&mut self, value: T)
        ensures
            final(self)@ == value,
    {
        self.value = value;
    }
}

impl<T> Cell<T> where T: Copy {
    /// Returns the stored value.
    pub fn get(&self) -> (r: T)
        ensures
            r == self@,
    {
        self.value
    }
}

} // verus!
