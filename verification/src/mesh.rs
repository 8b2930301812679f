//! Meshes: vertex data on the backend, its layout, and how it is drawn.

use vstd::prelude::*;
use vstd::layout::size_of;
use crate::buffer::Buffer;
use crate::command::{
    draw_calls, lemma_draw_calls_concat, lemma_views_push, views, Command, CommandView,
};
use crate::layout::{
    covers, interleave, interleaved, lemma_total_width_prefix, lemma_total_width_step, total_width,
    widths, widths_positive,
};
use crate::obj_mesh::ObjMesh;
use crate::texture::Texture;
use crate::vector3::Vector3;
use crate::vertex::{
    face_indices, flatten_faces, flatten_vertices, lemma_face_indices_len, vertex_stream, Vertex,
};

verus! {

/// Why a mesh could not be built from a list of streams.
#[derive(Clone, Copy, Debug, PartialEq, Eq)]
pub enum MeshBuildError {
    /// The list of streams is empty.
    EmptyBufferList,
    /// A stream describes another number of vertices than the first one
    /// does: `expected` is the first stream's number, `found` that of the
    /// earliest stream that differs.
    UnequalBufferLengths { expected: usize, found: usize },
}

impl MeshBuildError {
    /// The error in words.
    pub open spec fn text(self) -> Seq<char> {
        match self {
            MeshBuildError::EmptyBufferList => "empty buffer list"@,
            MeshBuildError::UnequalBufferLengths { .. } => "unequal buffer lengths"@,
        }
    }

    /// The error in words; the numbers of vertices stay in the error itself.
    pub fn message(&self) -> (words: String)
        ensures
            words@ == self.text(),
    {
        match self {
            MeshBuildError::EmptyBufferList => String::from_str("empty buffer list"),
            MeshBuildError::UnequalBufferLengths { .. } => String::from_str(
                "unequal buffer lengths",
            ),
        }
    }
}

/// A mesh on the backend: a vertex array with its vertex buffer and index
/// buffer, and the number of indices to draw.
pub struct Mesh {
    vao: u32,
    vbo: u32,
    ebo: u32,
    total_indices: usize,
}

/// The fixed layout of position, normal and texture coordinate is eight
/// scalars wide.
pub proof fn lemma_fixed_layout_width()
    ensures
        total_width(seq![3usize, 3usize, 2usize]) == 8,
{
    let w = seq![3usize, 3usize, 2usize];
    assert(w.drop_last() =~= seq![3usize, 3usize]);
    assert(w.drop_last().drop_last() =~= seq![3usize]);
    assert(w.drop_last().drop_last().drop_last() =~= Seq::<usize>::empty());
    reveal_with_fuel(total_width, 4);
}

/// The offset, in bytes, at which attribute `k` starts within a vertex:
/// the widths of the attributes before it, times the size of a scalar.
pub open spec fn attribute_offset(widths: Seq<usize>, k: int, scalar: nat) -> nat {
    total_width(widths.take(k)) * scalar
}

/// The distance, in bytes, from one vertex to the next: the sum of the
/// widths, times the size of a scalar.
pub open spec fn stride(widths: Seq<usize>, scalar: nat) -> nat {
    total_width(widths) * scalar
}

/// The commands that describe the first `n` attributes of a layout: for each
/// attribute, at the index of its place in the list, its pointer and the
/// switch that enables it.
pub open spec fn attribute_commands<T>(widths: Seq<usize>, n: nat, scalar: nat) -> Seq<
    CommandView<T>,
>
    decreases n,
{
    if n == 0 {
        Seq::empty()
    } else {
        attribute_commands(widths, (n - 1) as nat, scalar) + seq![
            CommandView::VertexAttribPointer {
                index: (n - 1) as usize,
                width: widths[n - 1],
                stride: stride(widths, scalar) as usize,
                offset: attribute_offset(widths, n - 1, scalar) as usize,
            },
            CommandView::EnableVertexAttribArray { index: (n - 1) as usize },
        ]
    }
}

/// Whether `k` is the place of the earliest stream whose vertex count is not
/// that of the first stream.
pub open spec fn first_mismatch<T>(buffers: Seq<Buffer<T>>, k: int) -> bool {
    &&& 0 < k < buffers.len()
    &&& buffers[k].vertex_count() != buffers[0].vertex_count()
    &&& forall|j: int|
        0 <= j < k ==> (#[trigger] buffers[j]).vertex_count() == buffers[0].vertex_count()
}

/// Whether `error` is the reason why no mesh can be built from the streams:
/// the list is empty; or it is not, and the error carries the number of
/// vertices of the first stream and that of the earliest stream that
/// differs from it.
pub open spec fn explains<T>(buffers: Seq<Buffer<T>>, error: MeshBuildError) -> bool {
    match error {
        MeshBuildError::EmptyBufferList => buffers.len() == 0,
        MeshBuildError::UnequalBufferLengths { expected, found } => {
            &&& buffers.len() > 0
            &&& expected == buffers[0].vertex_count()
            &&& exists|k: int| first_mismatch(buffers, k) && found == buffers[k].vertex_count()
        },
    }
}

/// Whether all streams describe the same number of vertices.
pub open spec fn equal_counts<T>(buffers: Seq<Buffer<T>>) -> bool {
    forall|k: int|
        0 <= k < buffers.len() ==> (#[trigger] buffers[k]).vertex_count()
            == buffers[0].vertex_count()
}

/// The layout, attribute by attribute: the commands of attribute `k` stand
/// at the places `2k` and `2k + 1`, and the attribute lies within one
/// vertex, behind the attributes before it.
pub proof fn lemma_attribute_commands_index<T>(widths: Seq<usize>, n: nat, scalar: nat, k: int)
    requires
        n <= widths.len(),
        0 <= k < n,
    ensures
        attribute_commands::<T>(widths, n, scalar).len() == 2 * n,
        attribute_commands::<T>(widths, n, scalar)[2 * k] == (
        CommandView::<T>::VertexAttribPointer {
            index: k as usize,
            width: widths[k],
            stride: stride(widths, scalar) as usize,
            offset: attribute_offset(widths, k, scalar) as usize,
        }),
        attribute_commands::<T>(widths, n, scalar)[2 * k + 1] == (
        CommandView::<T>::EnableVertexAttribArray { index: k as usize }),
        attribute_offset(widths, k, scalar) + widths[k] * scalar <= stride(widths, scalar),
    decreases n,
{
    lemma_attribute_commands_len::<T>(widths, n, scalar);
    lemma_attribute_commands_len::<T>(widths, (n - 1) as nat, scalar);
    if k < n - 1 {
        lemma_attribute_commands_index::<T>(widths, (n - 1) as nat, scalar, k);
    } else {
        lemma_total_width_step(widths, k);
        lemma_total_width_prefix(widths, k + 1);
        let before = total_width(widths.take(k));
        let width = widths[k] as nat;
        let total = total_width(widths);
        assert(before * scalar + width * scalar <= total * scalar) by (nonlinear_arith)
            requires
                before + width <= total,
        ;
    }
}

/// A layout of `n` attributes takes two commands for each.
pub proof fn lemma_attribute_commands_len<T>(widths: Seq<usize>, n: nat, scalar: nat)
    ensures
        attribute_commands::<T>(widths, n, scalar).len() == 2 * n,
    decreases n,
{
    if n > 0 {
        lemma_attribute_commands_len::<T>(widths, (n - 1) as nat, scalar);
    }
}

/// Texture `i` of the list is bound to unit `i`: its two commands stand at
/// the places `2i` and `2i + 1`.
pub proof fn lemma_texture_bindings_index<T>(textures: Seq<u32>, n: nat, i: int)
    requires
        0 <= i < n,
    ensures
        Mesh::texture_bindings::<T>(textures, n).len() == 2 * n,
        Mesh::texture_bindings::<T>(textures, n)[2 * i] == (CommandView::<T>::ActiveTexture {
            unit: i as usize,
        }),
        Mesh::texture_bindings::<T>(textures, n)[2 * i + 1] == (CommandView::<T>::BindTexture {
            texture: textures[i],
        }),
    decreases n,
{
    lemma_texture_bindings_len::<T>(textures, n);
    lemma_texture_bindings_len::<T>(textures, (n - 1) as nat);
    if i < n - 1 {
        lemma_texture_bindings_index::<T>(textures, (n - 1) as nat, i);
    }
}

/// Binding `n` textures takes two commands for each.
pub proof fn lemma_texture_bindings_len<T>(textures: Seq<u32>, n: nat)
    ensures
        Mesh::texture_bindings::<T>(textures, n).len() == 2 * n,
    decreases n,
{
    if n > 0 {
        lemma_texture_bindings_len::<T>(textures, (n - 1) as nat);
    }
}

/// Binding textures draws nothing.
pub proof fn lemma_texture_bindings_draw_nothing<T>(textures: Seq<u32>, n: nat)
    ensures
        draw_calls(Mesh::texture_bindings::<T>(textures, n)) == 0,
    decreases n,
{
    if n > 0 {
        let pair = seq![
            CommandView::<T>::ActiveTexture { unit: (n - 1) as usize },
            CommandView::BindTexture { texture: textures[n - 1] },
        ];
        lemma_texture_bindings_draw_nothing::<T>(textures, (n - 1) as nat);
        lemma_draw_calls_concat(Mesh::texture_bindings::<T>(textures, (n - 1) as nat), pair);
        lemma_two_commands(pair);
    }
}

/// The draws of a list of two commands are those of its first and of its
/// second command.
pub proof fn lemma_two_commands<T>(pair: Seq<CommandView<T>>)
    requires
        pair.len() == 2,
    ensures
        draw_calls(pair) == (if pair[0] is DrawElements {
            1nat
        } else {
            0nat
        }) + (if pair[1] is DrawElements {
            1nat
        } else {
            0nat
        }),
{
    assert(pair.drop_last().drop_last() =~= Seq::<CommandView<T>>::empty());
    reveal_with_fuel(draw_calls, 3);
}

/// Drawing a mesh is one indexed draw, whatever the number of textures,
/// and it is the last command, over all indices of the mesh.
pub proof fn lemma_mesh_draws_once<T>(vao: u32, count: nat, textures: Seq<u32>)
    ensures
        draw_calls(Mesh::draw_commands::<T>(vao, count, textures)) == 1,
        Mesh::draw_commands::<T>(vao, count, textures).last() == (CommandView::<T>::DrawElements {
            count: count as usize,
        }),
{
    let tail = seq![
        CommandView::<T>::BindVertexArray { vertex_array: vao },
        CommandView::DrawElements { count: count as usize },
    ];
    lemma_texture_bindings_draw_nothing::<T>(textures, textures.len());
    lemma_draw_calls_concat(Mesh::texture_bindings::<T>(textures, textures.len()), tail);
    lemma_two_commands(tail);
}

impl Mesh {
    /// The backend's handle of the vertex array.
    pub closed spec fn vertex_array(&self) -> u32 {
        self.vao
    }

    /// The backend's handle of the vertex buffer.
    pub closed spec fn vertex_buffer(&self) -> u32 {
        self.vbo
    }

    /// The backend's handle of the index buffer.
    pub closed spec fn index_buffer(&self) -> u32 {
        self.ebo
    }

    /// The number of indices that a draw of the mesh covers.
    pub closed spec fn index_count(&self) -> nat {
        self.total_indices as nat
    }

    /// What the backend has to do to fill a mesh: bind the vertex array,
    /// fill the vertex buffer and the index buffer, and describe the layout
    /// attribute by attribute.
    pub open spec fn upload_commands<T>(
        vao: u32,
        vbo: u32,
        ebo: u32,
        data: Seq<T>,
        indices: Seq<u32>,
        widths: Seq<usize>,
        scalar: nat,
    ) -> Seq<CommandView<T>> {
        seq![
            CommandView::BindVertexArray { vertex_array: vao },
            CommandView::BindArrayBuffer { buffer: vbo },
            CommandView::ArrayBufferData { data },
            CommandView::BindElementBuffer { buffer: ebo },
            CommandView::ElementBufferData { indices },
        ] + attribute_commands(widths, widths.len(), scalar)
    }

    /// What releasing the objects of a mesh asks of the backend: release
    /// the vertex buffer, the index buffer and the vertex array, together.
    pub open spec fn release_commands<T>(vao: u32, vbo: u32, ebo: u32) -> Seq<CommandView<T>> {
        seq![
            CommandView::DeleteBuffer { buffer: vbo },
            CommandView::DeleteBuffer { buffer: ebo },
            CommandView::DeleteVertexArray { vertex_array: vao },
        ]
    }

    /// The commands that bind the first `n` of the given textures: texture
    /// `i` goes to unit `i`.
    pub open spec fn texture_bindings<T>(textures: Seq<u32>, n: nat) -> Seq<CommandView<T>>
        decreases n,
    {
        if n == 0 {
            Seq::empty()
        } else {
            Self::texture_bindings(textures, (n - 1) as nat) + seq![
                CommandView::ActiveTexture { unit: (n - 1) as usize },
                CommandView::BindTexture { texture: textures[n - 1] },
            ]
        }
    }

    /// What the backend has to do to draw a mesh with the given textures:
    /// bind each texture to the unit of its place in the list, bind the
    /// vertex array, draw all indices.
    pub open spec fn draw_commands<T>(vao: u32, count: nat, textures: Seq<u32>) -> Seq<
        CommandView<T>,
    > {
        Self::texture_bindings(textures, textures.len()) + seq![
            CommandView::BindVertexArray { vertex_array: vao },
            CommandView::DrawElements { count: count as usize },
        ]
    }

    /// The handles of the given textures, in order.
    pub open spec fn texture_ids(textures: Seq<&Texture>) -> Seq<u32> {
        textures.map_values(|t: &Texture| t.id())
    }

    /// The mesh over the given backend objects, and the commands that fill
    /// it with an interleaved stream whose attributes have the given widths.
    pub fn from_interleaved<T>(
        vao: u32,
        vbo: u32,
        ebo: u32,
        data: Vec<T>,
        indices: Vec<u32>,
        widths: &Vec<usize>,
    ) -> (made: (Mesh, Vec<Command<T>>))
        requires
            total_width(widths@) <= usize::MAX,
            stride(widths@, size_of::<T>()) <= usize::MAX,
        ensures
            made.0.vertex_array() == vao,
            made.0.vertex_buffer() == vbo,
            made.0.index_buffer() == ebo,
            made.0.index_count() == indices@.len(),
            views(made.1@) == Self::upload_commands(
                vao,
                vbo,
                ebo,
                data@,
                indices@,
                widths@,
                size_of::<T>(),
            ),
    {
        let ghost raw_data = data@;
        let ghost raw_indices = indices@;
        let ghost scalar_size = size_of::<T>();
        let total_indices: usize = indices.len();
        let scalar: usize = core::mem::size_of::<T>();
        let mut total: usize = 0;
        let mut k: usize = 0;
        proof {
            assert(widths@.take(0) =~= Seq::<usize>::empty());
        }
        while k < widths.len()
            invariant
                k <= widths.len(),
                total_width(widths@) <= usize::MAX,
                total == total_width(widths@.take(k as int)),
            decreases widths.len() - k,
        {
            proof {
                lemma_total_width_step(widths@, k as int);
                lemma_total_width_prefix(widths@, k + 1);
            }
            total = total + widths[k];
            k = k + 1;
        }
        proof {
            assert(widths@.take(widths@.len() as int) =~= widths@);
        }
        let stride_bytes: usize = total * scalar;
        let mut commands: Vec<Command<T>> = Vec::new();
        commands.push(Command::BindVertexArray { vertex_array: vao });
        commands.push(Command::BindArrayBuffer { buffer: vbo });
        commands.push(Command::ArrayBufferData { data });
        commands.push(Command::BindElementBuffer { buffer: ebo });
        commands.push(Command::ElementBufferData { indices });
        let ghost head = seq![
            CommandView::<T>::BindVertexArray { vertex_array: vao },
            CommandView::BindArrayBuffer { buffer: vbo },
            CommandView::ArrayBufferData { data: raw_data },
            CommandView::BindElementBuffer { buffer: ebo },
            CommandView::ElementBufferData { indices: raw_indices },
        ];
        proof {
            assert(views(commands@) =~= head);
            assert(head + attribute_commands::<T>(widths@, 0, scalar_size) =~= head);
        }
        let mut prefix: usize = 0;
        let mut i: usize = 0;
        while i < widths.len()
            invariant
                i <= widths.len(),
                scalar == scalar_size,
                total == total_width(widths@),
                stride_bytes == stride(widths@, scalar_size),
                stride(widths@, scalar_size) <= usize::MAX,
                prefix == total_width(widths@.take(i as int)),
                views(commands@) == head + attribute_commands::<T>(widths@, i as nat, scalar_size),
            decreases widths.len() - i,
        {
            proof {
                lemma_total_width_step(widths@, i as int);
                lemma_total_width_prefix(widths@, i as int);
                lemma_total_width_prefix(widths@, i + 1);
                assert(prefix * scalar <= total * scalar) by (nonlinear_arith)
                    requires
                        prefix <= total,
                        scalar >= 0,
                ;
            }
            let offset: usize = prefix * scalar;
            let ghost before = commands@;
            let pointer = Command::VertexAttribPointer {
                index: i,
                width: widths[i],
                stride: stride_bytes,
                offset,
            };
            let enable = Command::EnableVertexAttribArray { index: i };
            proof {
                lemma_views_push(before, pointer);
                lemma_views_push(before.push(pointer), enable);
            }
            commands.push(pointer);
            commands.push(enable);
            proof {
                assert(views(commands@) =~= head + attribute_commands::<T>(
                    widths@,
                    (i + 1) as nat,
                    scalar_size,
                ));
            }
            prefix = prefix + widths[i];
            i = i + 1;
        }
        (Mesh { vao, vbo, ebo, total_indices }, commands)
    }

    /// The mesh of the given vertices and triangles, in the fixed layout of
    /// position, normal and texture coordinate, and the commands that fill
    /// it.
    pub fn from_vertices<T: Copy>(
        vao: u32,
        vbo: u32,
        ebo: u32,
        vertices: Vec<Vertex<T>>,
        faces: Vec<Vector3<u32>>,
    ) -> (made: (Mesh, Vec<Command<T>>))
        requires
            8 * size_of::<T>() <= usize::MAX,
        ensures
            made.0.vertex_array() == vao,
            made.0.vertex_buffer() == vbo,
            made.0.index_buffer() == ebo,
            made.0.index_count() == 3 * faces@.len(),
            views(made.1@) == Self::upload_commands(
                vao,
                vbo,
                ebo,
                vertex_stream(vertices@),
                face_indices(faces@),
                Vertex::<T>::layout(),
                size_of::<T>(),
            ),
    {
        let data = flatten_vertices(&vertices);
        let indices = flatten_faces(&faces);
        let widths = Vertex::<T>::lengths();
        proof {
            lemma_face_indices_len(faces@);
            lemma_fixed_layout_width();
        }
        Self::from_interleaved(vao, vbo, ebo, data, indices, &widths)
    }

    /// The mesh of the geometry of a model file, in the fixed layout, and the
    /// commands that fill it. Absent normals and texture coordinates are
    /// filled with a default value of `T`.
    pub fn from_tobj<T: Copy + Default>(vao: u32, vbo: u32, ebo: u32, obj: &ObjMesh<T>) -> (made: (
        Mesh,
        Vec<Command<T>>,
    ))
        requires
            obj.well_formed(),
            8 * size_of::<T>() <= usize::MAX,
        ensures
            made.0.vertex_array() == vao,
            made.0.vertex_buffer() == vbo,
            made.0.index_buffer() == ebo,
            made.0.index_count() == 3 * obj.face_count(),
            exists|zero: T|
                call_ensures(T::default, (), zero) && views(made.1@) == Self::upload_commands(
                    vao,
                    vbo,
                    ebo,
                    vertex_stream(obj.vertex_seq(zero)),
                    face_indices(obj.face_seq()),
                    Vertex::<T>::layout(),
                    size_of::<T>(),
                ),
    {
        let vertices = obj.vertices();
        let faces = obj.faces();
        Self::from_vertices(vao, vbo, ebo, vertices, faces)
    }

    /// Examines a list of streams without touching the backend: the number
    /// of vertices that all of them describe, or the reason why no mesh can
    /// be built from them. A caller can ask this before any object of the
    /// backend is created.
    pub fn check_buffers<T: Copy>(buffers: &Vec<Buffer<T>>) -> (checked: Result<
        usize,
        MeshBuildError,
    >)
        requires
            widths_positive(buffers@),
        ensures
            checked is Ok <==> buffers@.len() > 0 && equal_counts(buffers@),
            checked == Err::<usize, MeshBuildError>(MeshBuildError::EmptyBufferList)
                <==> buffers@.len() == 0,
            match checked {
                Ok(count) => count == buffers@[0].vertex_count(),
                Err(error) => explains(buffers@, error),
            },
    {
        if buffers.len() == 0 {
            return Err(MeshBuildError::EmptyBufferList);
        }
        let count: usize = buffers[0].count();
        let mut k: usize = 1;
        while k < buffers.len()
            invariant
                1 <= k <= buffers.len(),
                widths_positive(buffers@),
                count == buffers@[0].vertex_count(),
                forall|j: int| 0 <= j < k ==> (#[trigger] buffers@[j]).vertex_count() == count,
            decreases buffers.len() - k,
        {
            let found: usize = buffers[k].count();
            if found != count {
                proof {
                    assert(first_mismatch(buffers@, k as int));
                }
                return Err(MeshBuildError::UnequalBufferLengths { expected: count, found });
            }
            k = k + 1;
        }
        Ok(count)
    }

    /// The commands that release the objects of a mesh: the vertex buffer,
    /// the index buffer, the vertex array.
    pub fn release_objects<T>(vao: u32, vbo: u32, ebo: u32) -> (commands: Vec<Command<T>>)
        ensures
            views(commands@) == Self::release_commands::<T>(vao, vbo, ebo),
    {
        let mut commands: Vec<Command<T>> = Vec::new();
        commands.push(Command::DeleteBuffer { buffer: vbo });
        commands.push(Command::DeleteBuffer { buffer: ebo });
        commands.push(Command::DeleteVertexArray { vertex_array: vao });
        proof {
            assert(views(commands@) =~= Self::release_commands::<T>(vao, vbo, ebo));
        }
        commands
    }

    /// Builds a mesh of the given streams, interleaved, over the given
    /// objects of the backend. Where the streams allow it, the result is the
    /// mesh and the commands that fill it. Where the list is empty, or a
    /// stream disagrees with the first one in its number of vertices, the
    /// result is the reason, and the commands release the three objects:
    /// nothing is cut short or filled up, and nothing is left behind.
    pub fn from_buffers<T: Copy>(
        vao: u32,
        vbo: u32,
        ebo: u32,
        buffers: &Vec<Buffer<T>>,
        indices: Vec<u32>,
    ) -> (made: (Result<Mesh, MeshBuildError>, Vec<Command<T>>))
        requires
            widths_positive(buffers@),
            total_width(widths(buffers@)) <= usize::MAX,
            stride(widths(buffers@), size_of::<T>()) <= usize::MAX,
        ensures
            made.0 is Ok <==> buffers@.len() > 0 && equal_counts(buffers@),
            made.0 == Err::<Mesh, MeshBuildError>(MeshBuildError::EmptyBufferList)
                <==> buffers@.len() == 0,
            match made.0 {
                Ok(mesh) => {
                    &&& mesh.vertex_array() == vao
                    &&& mesh.vertex_buffer() == vbo
                    &&& mesh.index_buffer() == ebo
                    &&& mesh.index_count() == indices@.len()
                    &&& views(made.1@) == Self::upload_commands(
                        vao,
                        vbo,
                        ebo,
                        interleaved(buffers@, buffers@[0].vertex_count()),
                        indices@,
                        widths(buffers@),
                        size_of::<T>(),
                    )
                },
                Err(error) => {
                    &&& explains(buffers@, error)
                    &&& views(made.1@) == Self::release_commands::<T>(vao, vbo, ebo)
                },
            },
    {
        let count: usize = match Self::check_buffers(buffers) {
            Ok(count) => count,
            Err(error) => {
                return (Err(error), Self::release_objects(vao, vbo, ebo));
            },
        };
        let mut layout: Vec<usize> = Vec::new();
        let mut k: usize = 0;
        proof {
            assert(layout@ =~= widths(buffers@.take(0)));
        }
        while k < buffers.len()
            invariant
                k <= buffers.len(),
                layout@ == widths(buffers@.take(k as int)),
            decreases buffers.len() - k,
        {
            layout.push(buffers[k].size);
            proof {
                assert(layout@ =~= widths(buffers@.take(k + 1)));
            }
            k = k + 1;
        }
        proof {
            assert(buffers@.take(buffers@.len() as int) =~= buffers@);
            assert(covers(buffers@, count as nat));
        }
        let data = interleave(buffers, count);
        let (mesh, commands) = Self::from_interleaved(vao, vbo, ebo, data, indices, &layout);
        (Ok(mesh), commands)
    }

    /// The commands that draw the mesh with the given textures bound,
    /// texture `i` to unit `i`.
    pub fn draw<T>(&self, textures: &[&Texture]) -> (commands: Vec<Command<T>>)
        ensures
            views(commands@) == Self::draw_commands::<T>(
                self.vertex_array(),
                self.index_count(),
                Self::texture_ids(textures@),
            ),
    {
        let ghost ids = Self::texture_ids(textures@);
        let mut commands: Vec<Command<T>> = Vec::new();
        let mut i: usize = 0;
        proof {
            assert(views(commands@) =~= Self::texture_bindings::<T>(ids, 0));
        }
        while i < textures.len()
            invariant
                i <= textures.len(),
                ids == Self::texture_ids(textures@),
                views(commands@) == Self::texture_bindings::<T>(ids, i as nat),
            decreases textures.len() - i,
        {
            let ghost before = commands@;
            let select = Command::ActiveTexture { unit: i };
            let bind = Command::BindTexture { texture: textures[i].get_id() };
            proof {
                lemma_views_push(before, select);
                lemma_views_push(before.push(select), bind);
            }
            commands.push(select);
            commands.push(bind);
            proof {
                assert(views(commands@) =~= Self::texture_bindings::<T>(ids, (i + 1) as nat));
            }
            i = i + 1;
        }
        let ghost bound = commands@;
        let array = Command::BindVertexArray { vertex_array: self.vao };
        let draw = Command::DrawElements { count: self.total_indices };
        proof {
            lemma_views_push(bound, array);
            lemma_views_push(bound.push(array), draw);
        }
        commands.push(array);
        commands.push(draw);
        proof {
            assert(views(commands@) =~= Self::draw_commands::<T>(
                self.vertex_array(),
                self.index_count(),
                ids,
            ));
        }
        commands
    }

    /// Gives the mesh up: the commands that release its vertex buffer, its
    /// index buffer and its vertex array.
    pub fn release<T>(self) -> (commands: Vec<Command<T>>)
        ensures
            views(commands@) == Self::release_commands::<T>(
                self.vertex_array(),
                self.vertex_buffer(),
                self.index_buffer(),
            ),
    {
        Self::release_objects(self.vao, self.vbo, self.ebo)
    }
}

} // verus!
