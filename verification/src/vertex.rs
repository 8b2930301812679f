//! Vertices of the fixed layout: position, normal, texture coordinate.

use vstd::prelude::*;
use crate::vector2::Vector2;
use crate::vector3::Vector3;

verus! {

/// One vertex of the fixed layout.
#[derive(Clone, Copy, Debug, PartialEq)]
pub struct Vertex<T> {
    pub position: Vector3<T>,
    pub normal: Vector3<T>,
    pub tex_coord: Vector2<T>,
}

/// The scalars of the given vertices in the order in which they are
/// uploaded: vertex after vertex, each as its eight components.
pub open spec fn vertex_stream<T>(vertices: Seq<Vertex<T>>) -> Seq<T>
    decreases vertices.len(),
{
    if vertices.len() == 0 {
        Seq::empty()
    } else {
        vertex_stream(vertices.drop_last()) + vertices.last().components()
    }
}

/// The indices of the given triangles, three for each, in order.
pub open spec fn face_indices(faces: Seq<Vector3<u32>>) -> Seq<u32>
    decreases faces.len(),
{
    if faces.len() == 0 {
        Seq::empty()
    } else {
        face_indices(faces.drop_last()) + faces.last().components()
    }
}

/// A stream of `n` vertices holds eight scalars for each.
pub proof fn lemma_vertex_stream_len<T>(vertices: Seq<Vertex<T>>)
    ensures
        vertex_stream(vertices).len() == 8 * vertices.len(),
    decreases vertices.len(),
{
    if vertices.len() > 0 {
        lemma_vertex_stream_len(vertices.drop_last());
    }
}

/// `n` triangles give three indices each.
pub proof fn lemma_face_indices_len(faces: Seq<Vector3<u32>>)
    ensures
        face_indices(faces).len() == 3 * faces.len(),
    decreases faces.len(),
{
    if faces.len() > 0 {
        lemma_face_indices_len(faces.drop_last());
    }
}

impl<T> Vertex<T> {
    /// The eight scalars of the vertex: position, normal, texture coordinate.
    pub open spec fn components(self) -> Seq<T> {
        self.position.components() + self.normal.components() + self.tex_coord.components()
    }

    /// The widths of the three attributes, in the order of the layout.
    pub open spec fn layout() -> Seq<usize> {
        seq![3usize, 3usize, 2usize]
    }

    /// The vertex with the given attributes.
    pub fn new(position: Vector3<T>, normal: Vector3<T>, tex_coord: Vector2<T>) -> (v: Self)
        ensures
            v.position == position,
            v.normal == normal,
            v.tex_coord == tex_coord,
    {
        Vertex { position, normal, tex_coord }
    }

    /// The widths of the three attributes, in the order of the layout.
    pub fn lengths() -> (widths: Vec<usize>)
        ensures
            widths@ == Self::layout(),
    {
        let mut widths: Vec<usize> = Vec::new();
        widths.push(3);
        widths.push(3);
        widths.push(2);
        proof {
            assert(widths@ =~= Self::layout());
        }
        widths
    }
}

impl<T: Default> Vertex<T> {
    /// The vertex with the given position and texture coordinate, and a
    /// normal of default scalars.
    pub fn tex(position: Vector3<T>, tex_coord: Vector2<T>) -> (v: Self)
        ensures
            v.position == position,
            v.tex_coord == tex_coord,
            call_ensures(T::default, (), v.normal.x),
            call_ensures(T::default, (), v.normal.y),
            call_ensures(T::default, (), v.normal.z),
    {
        Vertex { position, normal: Vector3::default(), tex_coord }
    }
}

impl<T: Copy> Vertex<T> {
    /// Appends the eight scalars of the vertex to `out`.
    pub fn push_onto(&self, out: &mut Vec<T>)
        ensures
            final(out)@ == old(out)@ + self.components(),
    {
        out.push(self.position.x);
        out.push(self.position.y);
        out.push(self.position.z);
        out.push(self.normal.x);
        out.push(self.normal.y);
        out.push(self.normal.z);
        out.push(self.tex_coord.x);
        out.push(self.tex_coord.y);
        proof {
            assert(out@ =~= old(out)@ + self.components());
        }
    }
}

/// The scalars of the given vertices, vertex after vertex.
pub fn flatten_vertices<T: Copy>(vertices: &Vec<Vertex<T>>) -> (out: Vec<T>)
    ensures
        out@ == vertex_stream(vertices@),
{
    let mut out: Vec<T> = Vec::new();
    let mut i: usize = 0;
    proof {
        assert(vertices@.take(0) =~= Seq::<Vertex<T>>::empty());
    }
    while i < vertices.len()
        invariant
            i <= vertices.len(),
            out@ == vertex_stream(vertices@.take(i as int)),
        decreases vertices.len() - i,
    {
        vertices[i].push_onto(&mut out);
        proof {
            let next = vertices@.take(i + 1);
            assert(next.drop_last() =~= vertices@.take(i as int));
            assert(next.last() == vertices@[i as int]);
        }
        i = i + 1;
    }
    proof {
        assert(vertices@.take(vertices@.len() as int) =~= vertices@);
    }
    out
}

/// The indices of the given triangles, three for each, in order.
pub fn flatten_faces(faces: &Vec<Vector3<u32>>) -> (out: Vec<u32>)
    ensures
        out@ == face_indices(faces@),
{
    let mut out: Vec<u32> = Vec::new();
    let mut i: usize = 0;
    proof {
        assert(faces@.take(0) =~= Seq::<Vector3<u32>>::empty());
    }
    while i < faces.len()
        invariant
            i <= faces.len(),
            out@ == face_indices(faces@.take(i as int)),
        decreases faces.len() - i,
    {
        let ghost before = out@;
        out.push(faces[i].x);
        out.push(faces[i].y);
        out.push(faces[i].z);
        proof {
            let next = faces@.take(i + 1);
            assert(next.drop_last() =~= faces@.take(i as int));
            assert(next.last() == faces@[i as int]);
            assert(out@ =~= before + faces@[i as int].components());
        }
        i = i + 1;
    }
    proof {
        assert(faces@.take(faces@.len() as int) =~= faces@);
    }
    out
}

} // verus!
