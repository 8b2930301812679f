//! A triple of components.

use vstd::prelude::*;

verus! {

/// Three components of one type.
#[derive(Clone, Copy, Debug, PartialEq)]
pub struct Vector3<T> {
    pub x: T,
    pub y: T,
    pub z: T,
}

impl<T> Vector3<T> {
    /// The components in order: `x`, `y`, `z`.
    pub open spec fn components(self) -> Seq<T> {
        seq![self.x, self.y, self.z]
    }
}

impl<T> Vector3<T> where T: Default {
    /// The vector with the given components.
    pub fn new(x: T, y: T, z: T) -> (v: Self)
        ensures
            v.x == x,
            v.y == y,
            v.z == z,
    {
        Vector3 { x, y, z }
    }

    /// The vector whose components are default values of `T`.
    pub fn default() -> (v: Self)
        ensures
            call_ensures(T::default, (), v.x),
            call_ensures(T::default, (), v.y),
            call_ensures(T::default, (), v.z),
    {
        Vector3 { x: T::default(), y: T::default(), z: T::default() }
    }
}

impl<T> Vector3<T> {
    /// The components as a list, in the order `x`, `y`, `z`.
    pub fn into_vec(self) -> (items: Vec<T>)
        ensures
            items@ == self.components(),
    {
        let mut items: Vec<T> = Vec::new();
        items.push(self.x);
        items.push(self.y);
        items.push(self.z);
        proof {
            assert(items@ =~= self.components());
        }
        items
    }
}

} // verus!
