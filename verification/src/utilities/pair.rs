use vstd::prelude::*;

verus! {

/// Struct holding two objects of arbitrary type.
#[derive(Debug)]
pub struct Pair<T, U> {
    first: T,
    second: U,
}

impl<T, U> View for Pair<T, U> {
    type V = (T, U);

    /// A pair is its two fields, in order.
    closed spec fn view(&self) -> (T, U) {
        (self.first, self.second)
    }
}

impl<T, U> Pair<T, U> {
    /// Creates a new pair from its two values.
    pub fn new(first: T, second: U) -> (pair: Self)
        ensures
            pair@ == (first, second),
    {
        Pair { first, second }
    }

    /// Returns a read-only reference to the first value.
    pub fn first(&self) -> (value: &T)
        ensures
            *value == self@.0,
    {
        &self.first
    }

    /// Returns a read-only reference to the second value.
    pub fn second(&self) -> (value: &U)
        ensures
            *value == self@.1,
    {
        &self.second
    }

    /// Replaces the first value and leaves the second one as it was.
    pub fn set_first(&mut self, first: T)
        ensures
            final(self)@ == (first, old(self)@.1),
    {
        self.first = first;
    }

    /// Replaces the second value and leaves the first one as it was.
    pub fn set_second(&mut self, second: U)
        ensures
            final(self)@ == (old(self)@.0, second),
    {
        self.second = second;
    }
}

} // verus!
