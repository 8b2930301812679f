//! A pair of components.

use vstd::prelude::*;

verus! {

/// Two components of one type.
#[derive(Clone, Copy, Debug, PartialEq)]
pub struct Vector2<T> {
    pub x: T,
    pub y: T,
}

impl<T> Vector2<T> {
    /// The components in order: `x`, `y`.
    pub open spec fn components(self) -> Seq<T> {
        seq![self.x, self.y]
    }
}

impl<T> Vector2<T> where T: Default {
    /// The vector with the given components.
    pub fn new(x: T, y: T) -> (v: Self)
        ensures
            v.x == x,
            v.y == y,
    {
        Vector2 { x, y }
    }

    /// The vector whose components are default values of `T`.
    pub fn default() -> (v: Self)
        ensures
            call_ensures(T::default, (), v.x),
            call_ensures(T::default, (), v.y),
    {
        Vector2 { x: T::default(), y: T::default() }
    }
}

impl<T> Vector2<T> {
    /// The components as a list, in the order `x`, `y`.
    pub fn into_vec(self) -> (items: Vec<T>)
        ensures
            items@ == self.components(),
    {
        let mut items: Vec<T> = Vec::new();
        items.push(self.x);
        items.push(self.y);
        proof {
            assert(items@ =~= self.components());
        }
        items
    }
}

} // verus!
