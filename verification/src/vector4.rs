//! A quadruple of components.

use vstd::prelude::*;

verus! {

/// Four components of one type.
#[derive(Clone, Copy, Debug, PartialEq)]
pub struct Vector4<T> {
    pub x: T,
    pub y: T,
    pub z: T,
    pub w: T,
}

impl<T> Vector4<T> {
    /// The components in order: `x`, `y`, `z`, `w`.
    pub open spec fn components(self) -> Seq<T> {
        seq![self.x, self.y, self.z, self.w]
    }

    /// The vector with the given components.
    pub fn new(x: T, y: T, z: T, w: T) -> (v: Self)
        ensures
            v.x == x,
            v.y == y,
            v.z == z,
            v.w == w,
    {
        Vector4 { x, y, z, w }
    }

    /// The components as a list, in the order `x`, `y`, `z`, `w`.
    pub fn into_vec(self) -> (items: Vec<T>)
        ensures
            items@ == self.components(),
    {
        let mut items: Vec<T> = Vec::new();
        items.push(self.x);
        items.push(self.y);
        items.push(self.z);
        items.push(self.w);
        proof {
            assert(items@ =~= self.components());
        }
        items
    }
}

} // verus!
