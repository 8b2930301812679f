//! Geometry as a model file gives it: flat lists of scalars and indices.

use vstd::prelude::*;
use crate::vector2::Vector2;
use crate::vector3::Vector3;
use crate::vertex::Vertex;

verus! {

/// The geometry of one object of a model file, already parsed. Positions
/// and normals come three scalars to a vertex, texture coordinates two,
/// indices three to a triangle. Normals and texture coordinates may be
/// absent, which is an empty list.
pub struct ObjMesh<T> {
    pub positions: Vec<T>,
    pub normals: Vec<T>,
    pub texcoords: Vec<T>,
    pub indices: Vec<u32>,
}

impl<T> ObjMesh<T> {
    /// How many vertices the positions describe.
    pub open spec fn vertex_count(&self) -> nat {
        (self.positions@.len() / 3) as nat
    }

    /// How many whole triangles the indices describe.
    pub open spec fn face_count(&self) -> nat {
        (self.indices@.len() / 3) as nat
    }

    /// Whether the normals and the texture coordinates, where there are any,
    /// reach as far as the positions do.
    pub open spec fn well_formed(&self) -> bool {
        &&& self.normals@.len() == 0 || self.normals@.len() >= 3 * self.vertex_count()
        &&& self.texcoords@.len() == 0 || self.texcoords@.len() >= 2 * self.vertex_count()
    }

    /// Vertex `i`, with `zero` in the place of each scalar of an absent
    /// attribute.
    pub open spec fn vertex(&self, i: int, zero: T) -> Vertex<T> {
        Vertex {
            position: Vector3 {
                x: self.positions@[3 * i],
                y: self.positions@[3 * i + 1],
                z: self.positions@[3 * i + 2],
            },
            normal: if self.normals@.len() == 0 {
                Vector3 { x: zero, y: zero, z: zero }
            } else {
                Vector3 {
                    x: self.normals@[3 * i],
                    y: self.normals@[3 * i + 1],
                    z: self.normals@[3 * i + 2],
                }
            },
            tex_coord: if self.texcoords@.len() == 0 {
                Vector2 { x: zero, y: zero }
            } else {
                Vector2 { x: self.texcoords@[2 * i], y: self.texcoords@[2 * i + 1] }
            },
        }
    }

    /// Triangle `i`: three consecutive indices.
    pub open spec fn face(&self, i: int) -> Vector3<u32> {
        Vector3 {
            x: self.indices@[3 * i],
            y: self.indices@[3 * i + 1],
            z: self.indices@[3 * i + 2],
        }
    }

    /// The vertices, in order.
    pub open spec fn vertex_seq(&self, zero: T) -> Seq<Vertex<T>> {
        Seq::new(self.vertex_count(), |i: int| self.vertex(i, zero))
    }

    /// The whole triangles, in order; indices left over at the end belong to
    /// none.
    pub open spec fn face_seq(&self) -> Seq<Vector3<u32>> {
        Seq::new(self.face_count(), |i: int| self.face(i))
    }

    /// The geometry with the given lists.
    pub fn new(positions: Vec<T>, normals: Vec<T>, texcoords: Vec<T>, indices: Vec<u32>) -> (obj:
        Self)
        ensures
            obj.positions == positions,
            obj.normals == normals,
            obj.texcoords == texcoords,
            obj.indices == indices,
    {
        ObjMesh { positions, normals, texcoords, indices }
    }

    /// The whole triangles, in order.
    pub fn faces(&self) -> (out: Vec<Vector3<u32>>)
        ensures
            out@ == self.face_seq(),
    {
        let len: usize = self.indices.len();
        let count: usize = len / 3;
        let mut out: Vec<Vector3<u32>> = Vec::new();
        let mut i: usize = 0;
        while i < count
            invariant
                i <= count,
                count == self.face_count(),
                len == self.indices@.len(),
                3 * count <= len,
                out@.len() == i,
                forall|f: int| 0 <= f < i ==> out@[f] == self.face(f),
            decreases count - i,
        {
            out.push(
                Vector3 {
                    x: self.indices[3 * i],
                    y: self.indices[3 * i + 1],
                    z: self.indices[3 * i + 2],
                },
            );
            i = i + 1;
        }
        proof {
            assert(out@ =~= self.face_seq());
        }
        out
    }
}

impl<T: Copy + Default> ObjMesh<T> {
    /// The vertices, in order. Where normals or texture coordinates are
    /// absent, every scalar of them is one default value of `T`.
    pub fn vertices(&self) -> (out: Vec<Vertex<T>>)
        requires
            self.well_formed(),
        ensures
            exists|zero: T| call_ensures(T::default, (), zero) && out@ == self.vertex_seq(zero),
    {
        let zero: T = T::default();
        let len: usize = self.positions.len();
        let count: usize = len / 3;
        let no_normals: bool = self.normals.len() == 0;
        let no_texcoords: bool = self.texcoords.len() == 0;
        let mut out: Vec<Vertex<T>> = Vec::new();
        let mut i: usize = 0;
        while i < count
            invariant
                i <= count,
                count == self.vertex_count(),
                len == self.positions@.len(),
                3 * count <= len,
                self.well_formed(),
                no_normals == (self.normals@.len() == 0),
                no_texcoords == (self.texcoords@.len() == 0),
                out@.len() == i,
                forall|v: int| 0 <= v < i ==> out@[v] == self.vertex(v, zero),
            decreases count - i,
        {
            let position = Vector3 {
                x: self.positions[3 * i],
                y: self.positions[3 * i + 1],
                z: self.positions[3 * i + 2],
            };
            let normal = if no_normals {
                Vector3 { x: zero, y: zero, z: zero }
            } else {
                Vector3 {
                    x: self.normals[3 * i],
                    y: self.normals[3 * i + 1],
                    z: self.normals[3 * i + 2],
                }
            };
            let tex_coord = if no_texcoords {
                Vector2 { x: zero, y: zero }
            } else {
                Vector2 { x: self.texcoords[2 * i], y: self.texcoords[2 * i + 1] }
            };
            out.push(Vertex { position, normal, tex_coord });
            i = i + 1;
        }
        proof {
            assert(out@ =~= self.vertex_seq(zero));
        }
        out
    }
}

} // verus!
