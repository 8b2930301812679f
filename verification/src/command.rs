//! The backend's surface, written down as data.
//!
//! Nothing in this library talks to a graphics backend. Each operation
//! returns the commands that the backend has to carry out, in order; whoever
//! owns the rendering context executes them.

use vstd::prelude::*;
use crate::matrix4::Matrix4;
use crate::vector2::Vector2;
use crate::vector3::Vector3;
use crate::vector4::Vector4;

verus! {

/// How a texture continues beyond its edges.
#[derive(Clone, Copy, Debug, PartialEq, Eq)]
pub enum WrapMode {
    Repeat,
    MirroredRepeat,
    ClampToEdge,
    ClampToBorder,
}

/// How a texture is sampled when it is drawn smaller or larger than it is.
#[derive(Clone, Copy, Debug, PartialEq, Eq)]
pub enum FilterMode {
    Nearest,
    Linear,
    NearestMipMapNearest,
    LinearMipMapNearest,
    NearestMipMapLinear,
    LinearMipMapLinear,
}

/// The stage of the pipeline that a shader is written for.
#[derive(Clone, Copy, Debug, PartialEq, Eq)]
pub enum ShaderType {
    VertexShader,
    FragmentShader,
}

/// A value for a uniform, tagged with its kind.
#[derive(Clone, Copy, Debug, PartialEq)]
pub enum ProgramValue<T> {
    Int(i32),
    Float(T),
    Vec2(Vector2<T>),
    Vec3(Vector3<T>),
    Vec4(Vector4<T>),
    Mat4(Matrix4<T>),
}

/// One operation of the backend.
#[allow(inconsistent_fields)]
#[derive(Debug, PartialEq)]
pub enum Command<T> {
    /// Replace the source text of a shader.
    ShaderSource { shader: u32, source: Vec<u8> },
    /// Compile a shader from its current source text.
    CompileShader { shader: u32 },
    /// Release a shader.
    DeleteShader { shader: u32 },
    /// Attach a compiled shader to a program.
    AttachShader { program: u32, shader: u32 },
    /// Link the shaders attached to a program.
    LinkProgram { program: u32 },
    /// Detach a shader from a program.
    DetachShader { program: u32, shader: u32 },
    /// Release a program.
    DeleteProgram { program: u32 },
    /// Make a program the current one.
    UseProgram { program: u32 },
    /// Look the uniform `name` up in `program` and store `value` in it; do
    /// nothing where the program has no such uniform.
    SetUniform { program: u32, name: String, value: ProgramValue<T> },
    /// Select the texture unit that later texture bindings go to.
    ActiveTexture { unit: usize },
    /// Bind a two-dimensional texture to the selected unit.
    BindTexture { texture: u32 },
    /// Set the wrap mode of the bound texture along its first axis.
    SetWrapS { mode: WrapMode },
    /// Set the wrap mode of the bound texture along its second axis.
    SetWrapT { mode: WrapMode },
    /// Set the filter used when the bound texture is drawn smaller than it is.
    SetMinFilter { mode: FilterMode },
    /// Set the filter used when the bound texture is drawn larger than it is.
    SetMagFilter { mode: FilterMode },
    /// Upload rows of RGBA pixels, eight bits per channel, to the bound texture.
    TexImage { width: u32, height: u32, pixels: Vec<u8> },
    /// Derive the smaller levels of the bound texture.
    GenerateMipmap,
    /// Release a texture.
    DeleteTexture { texture: u32 },
    /// Bind a vertex array.
    BindVertexArray { vertex_array: u32 },
    /// Bind a buffer as the source of vertex data.
    BindArrayBuffer { buffer: u32 },
    /// Bind a buffer as the source of indices.
    BindElementBuffer { buffer: u32 },
    /// Fill the bound vertex buffer.
    ArrayBufferData { data: Vec<T> },
    /// Fill the bound index buffer.
    ElementBufferData { indices: Vec<u32> },
    /// Describe one attribute of the bound vertex buffer: `width` scalars,
    /// found `offset` bytes into each vertex, vertices `stride` bytes apart.
    VertexAttribPointer { index: usize, width: usize, stride: usize, offset: usize },
    /// Switch an attribute of the bound vertex array on.
    EnableVertexAttribArray { index: usize },
    /// Draw `count` indices of the bound vertex array as triangles.
    DrawElements { count: usize },
    /// Release a buffer.
    DeleteBuffer { buffer: u32 },
    /// Release a vertex array.
    DeleteVertexArray { vertex_array: u32 },
    /// Switch depth testing on.
    EnableDepthTest,
    /// Set the colour that clearing fills the framebuffer with.
    ClearColor { color: Vector4<T> },
    /// Clear the colour and depth buffers.
    Clear,
    /// Set the viewport to the rectangle from the origin to the given size.
    Viewport { width: i32, height: i32 },
}

/// What a [`Command`] says, with its payloads as sequences.
#[allow(inconsistent_fields)]
pub ghost enum CommandView<T> {
    ShaderSource { shader: u32, source: Seq<u8> },
    CompileShader { shader: u32 },
    DeleteShader { shader: u32 },
    AttachShader { program: u32, shader: u32 },
    LinkProgram { program: u32 },
    DetachShader { program: u32, shader: u32 },
    DeleteProgram { program: u32 },
    UseProgram { program: u32 },
    SetUniform { program: u32, name: Seq<char>, value: ProgramValue<T> },
    ActiveTexture { unit: usize },
    BindTexture { texture: u32 },
    SetWrapS { mode: WrapMode },
    SetWrapT { mode: WrapMode },
    SetMinFilter { mode: FilterMode },
    SetMagFilter { mode: FilterMode },
    TexImage { width: u32, height: u32, pixels: Seq<u8> },
    GenerateMipmap,
    DeleteTexture { texture: u32 },
    BindVertexArray { vertex_array: u32 },
    BindArrayBuffer { buffer: u32 },
    BindElementBuffer { buffer: u32 },
    ArrayBufferData { data: Seq<T> },
    ElementBufferData { indices: Seq<u32> },
    VertexAttribPointer { index: usize, width: usize, stride: usize, offset: usize },
    EnableVertexAttribArray { index: usize },
    DrawElements { count: usize },
    DeleteBuffer { buffer: u32 },
    DeleteVertexArray { vertex_array: u32 },
    EnableDepthTest,
    ClearColor { color: Vector4<T> },
    Clear,
    Viewport { width: i32, height: i32 },
}

impl<T> View for Command<T> {
    type V = CommandView<T>;

    open spec fn view(&self) -> CommandView<T> {
        match *self {
            Command::ShaderSource { shader, source } => CommandView::ShaderSource {
                shader,
                source: source@,
            },
            Command::CompileShader { shader } => CommandView::CompileShader { shader },
            Command::DeleteShader { shader } => CommandView::DeleteShader { shader },
            Command::AttachShader { program, shader } => CommandView::AttachShader {
                program,
                shader,
            },
            Command::LinkProgram { program } => CommandView::LinkProgram { program },
            Command::DetachShader { program, shader } => CommandView::DetachShader {
                program,
                shader,
            },
            Command::DeleteProgram { program } => CommandView::DeleteProgram { program },
            Command::UseProgram { program } => CommandView::UseProgram { program },
            Command::SetUniform { program, name, value } => CommandView::SetUniform {
                program,
                name: name@,
                value,
            },
            Command::ActiveTexture { unit } => CommandView::ActiveTexture { unit },
            Command::BindTexture { texture } => CommandView::BindTexture { texture },
            Command::SetWrapS { mode } => CommandView::SetWrapS { mode },
            Command::SetWrapT { mode } => CommandView::SetWrapT { mode },
            Command::SetMinFilter { mode } => CommandView::SetMinFilter { mode },
            Command::SetMagFilter { mode } => CommandView::SetMagFilter { mode },
            Command::TexImage { width, height, pixels } => CommandView::TexImage {
                width,
                height,
                pixels: pixels@,
            },
            Command::GenerateMipmap => CommandView::GenerateMipmap,
            Command::DeleteTexture { texture } => CommandView::DeleteTexture { texture },
            Command::BindVertexArray { vertex_array } => CommandView::BindVertexArray {
                vertex_array,
            },
            Command::BindArrayBuffer { buffer } => CommandView::BindArrayBuffer { buffer },
            Command::BindElementBuffer { buffer } => CommandView::BindElementBuffer { buffer },
            Command::ArrayBufferData { data } => CommandView::ArrayBufferData { data: data@ },
            Command::ElementBufferData { indices } => CommandView::ElementBufferData {
                indices: indices@,
            },
            Command::VertexAttribPointer { index, width, stride, offset } => {
                CommandView::VertexAttribPointer { index, width, stride, offset }
            },
            Command::EnableVertexAttribArray { index } => CommandView::EnableVertexAttribArray {
                index,
            },
            Command::DrawElements { count } => CommandView::DrawElements { count },
            Command::DeleteBuffer { buffer } => CommandView::DeleteBuffer { buffer },
            Command::DeleteVertexArray { vertex_array } => CommandView::DeleteVertexArray {
                vertex_array,
            },
            Command::EnableDepthTest => CommandView::EnableDepthTest,
            Command::ClearColor { color } => CommandView::ClearColor { color },
            Command::Clear => CommandView::Clear,
            Command::Viewport { width, height } => CommandView::Viewport { width, height },
        }
    }
}

/// What a list of commands says, command by command.
pub open spec fn views<T>(commands: Seq<Command<T>>) -> Seq<CommandView<T>> {
    commands.map_values(|c: Command<T>| c@)
}

/// The views of a list that grew by one command are the views of the list,
/// and then the view of that command.
pub proof fn lemma_views_push<T>(commands: Seq<Command<T>>, c: Command<T>)
    ensures
        views(commands.push(c)) == views(commands).push(c@),
{
    assert(views(commands.push(c)) =~= views(commands).push(c@));
}

/// The views of two lists, one after the other, are the views of the first
/// and then those of the second.
pub proof fn lemma_views_concat<T>(a: Seq<Command<T>>, b: Seq<Command<T>>)
    ensures
        views(a + b) == views(a) + views(b),
{
    assert(views(a + b) =~= views(a) + views(b));
}

/// How many indexed draws a list of commands holds.
pub open spec fn draw_calls<T>(commands: Seq<CommandView<T>>) -> nat
    decreases commands.len(),
{
    if commands.len() == 0 {
        0
    } else {
        draw_calls(commands.drop_last()) + if commands.last() is DrawElements {
            1nat
        } else {
            0nat
        }
    }
}

/// Two lists, one after the other, hold the draws of both.
pub proof fn lemma_draw_calls_concat<T>(a: Seq<CommandView<T>>, b: Seq<CommandView<T>>)
    ensures
        draw_calls(a + b) == draw_calls(a) + draw_calls(b),
    decreases b.len(),
{
    if b.len() == 0 {
        assert(a + b =~= a);
    } else {
        lemma_draw_calls_concat(a, b.drop_last());
        assert((a + b).drop_last() =~= a + b.drop_last());
        assert((a + b).last() == b.last());
    }
}

/// The program that is the current one after the given commands, as far as
/// they say: the program of the last command that makes one current.
pub open spec fn current_program<T>(commands: Seq<CommandView<T>>) -> Option<u32>
    decreases commands.len(),
{
    if commands.len() == 0 {
        None
    } else {
        match commands.last() {
            CommandView::UseProgram { program } => Some(program),
            _ => current_program(commands.drop_last()),
        }
    }
}

/// Whether none of the commands makes a program the current one.
pub open spec fn keeps_program<T>(commands: Seq<CommandView<T>>) -> bool {
    forall|i: int| 0 <= i < commands.len() ==> !(#[trigger] commands[i] is UseProgram)
}

/// Commands that make no program current leave the current one as it was.
pub proof fn lemma_current_program_kept<T>(a: Seq<CommandView<T>>, b: Seq<CommandView<T>>)
    requires
        keeps_program(b),
    ensures
        current_program(a + b) == current_program(a),
    decreases b.len(),
{
    if b.len() == 0 {
        assert(a + b =~= a);
    } else {
        assert forall|i: int| 0 <= i < b.drop_last().len() implies !(
        #[trigger] b.drop_last()[i] is UseProgram) by {
            assert(b.drop_last()[i] == b[i]);
        }
        lemma_current_program_kept(a, b.drop_last());
        assert((a + b).drop_last() =~= a + b.drop_last());
        assert((a + b).last() == b.last());
        assert(b.last() == b[b.len() - 1]);
    }
}

/// Moves the commands of `tail` to the end of `head`, keeping their order.
pub fn extend<T>(head: &mut Vec<Command<T>>, tail: Vec<Command<T>>)
    ensures
        views(final(head)@) == views(old(head)@) + views(tail@),
{
    let mut tail = tail;
    let ghost before = head@;
    let ghost moved = tail@;
    head.append(&mut tail);
    proof {
        lemma_views_concat(before, moved);
    }
}

} // verus!
