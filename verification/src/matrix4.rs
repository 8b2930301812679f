//! A 4×4 matrix, held by columns.

use vstd::prelude::*;
use crate::vector4::Vector4;

verus! {

/// Four columns of four components each, in the order in which a backend
/// reads a column-major matrix.
#[derive(Clone, Copy, Debug, PartialEq)]
pub struct Matrix4<T> {
    pub c0: Vector4<T>,
    pub c1: Vector4<T>,
    pub c2: Vector4<T>,
    pub c3: Vector4<T>,
}

impl<T> Matrix4<T> {
    /// The sixteen components, column after column.
    pub open spec fn components(self) -> Seq<T> {
        self.c0.components() + self.c1.components() + self.c2.components() + self.c3.components()
    }

    /// The matrix with the given columns.
    pub fn from_columns(c0: Vector4<T>, c1: Vector4<T>, c2: Vector4<T>, c3: Vector4<T>) -> (m: Self)
        ensures
            m.c0 == c0,
            m.c1 == c1,
            m.c2 == c2,
            m.c3 == c3,
    {
        Matrix4 { c0, c1, c2, c3 }
    }
}

} // verus!
