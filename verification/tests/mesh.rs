use render_core::buffer::Buffer;
use render_core::command::{Command, FilterMode, WrapMode};
use render_core::layout::{interleave, push_vertex};
use render_core::mesh::{Mesh, MeshBuildError};
use render_core::obj_mesh::ObjMesh;
use render_core::texture::Texture;
use render_core::vector2::Vector2;
use render_core::vector3::Vector3;
use render_core::vertex::Vertex;

fn released(vao: u32, vbo: u32, ebo: u32) -> Vec<Command<f32>> {
    vec![
        Command::DeleteBuffer { buffer: vbo },
        Command::DeleteBuffer { buffer: ebo },
        Command::DeleteVertexArray { vertex_array: vao },
    ]
}

fn quad() -> (Vec<Vertex<f32>>, Vec<Vector3<u32>>) {
    (
        vec![
            Vertex::tex(Vector3::new(0.5, 0.5, 0.0), Vector2::new(1.0, 0.0)),
            Vertex::tex(Vector3::new(0.5, -0.5, 0.0), Vector2::new(1.0, 1.0)),
            Vertex::tex(Vector3::new(-0.5, -0.5, 0.0), Vector2::new(0.0, 1.0)),
            Vertex::tex(Vector3::new(-0.5, 0.5, 0.0), Vector2::new(0.0, 0.0)),
        ],
        vec![Vector3::new(0, 1, 3), Vector3::new(1, 2, 3)],
    )
}

#[test]
fn from_buffers_rejects_unequal_vertex_counts() {
    let a = Buffer::new(vec![0.0f32; 12], 3);
    let b = Buffer::new(vec![0.0f32; 6], 3);
    let (made, commands) = Mesh::from_buffers(1, 2, 3, &vec![a, b], vec![0, 1, 2]);
    assert_eq!(
        made.err(),
        Some(MeshBuildError::UnequalBufferLengths { expected: 4, found: 2 })
    );
    assert_eq!(commands, released(1, 2, 3));
}

#[test]
fn from_buffers_reports_the_earliest_stream_that_differs() {
    let a = Buffer::new(vec![0.0f32; 6], 3);
    let b = Buffer::new(vec![0.0f32; 4], 2);
    let c = Buffer::new(vec![0.0f32; 5], 1);
    let d = Buffer::new(vec![0.0f32; 7], 1);
    let (made, commands) = Mesh::from_buffers(1, 2, 3, &vec![a, b, c, d], vec![]);
    assert_eq!(
        made.err(),
        Some(MeshBuildError::UnequalBufferLengths { expected: 2, found: 5 })
    );
    assert_eq!(commands, released(1, 2, 3));
}

#[test]
fn from_buffers_rejects_an_empty_list() {
    let buffers: Vec<Buffer<f32>> = Vec::new();
    let (made, commands) = Mesh::from_buffers(7, 8, 9, &buffers, vec![0, 1, 2]);
    assert_eq!(made.err(), Some(MeshBuildError::EmptyBufferList));
    assert_eq!(commands, released(7, 8, 9));
}

#[test]
fn check_buffers_counts_vertices_before_anything_is_created() {
    let a = Buffer::new(vec![0.0f32; 12], 3);
    let b = Buffer::new(vec![0.0f32; 8], 2);
    assert_eq!(Mesh::check_buffers(&vec![a, b]), Ok(4));
    let a = Buffer::new(vec![0.0f32; 12], 3);
    let b = Buffer::new(vec![0.0f32; 6], 3);
    assert_eq!(
        Mesh::check_buffers(&vec![a, b]),
        Err(MeshBuildError::UnequalBufferLengths { expected: 4, found: 2 })
    );
    let none: Vec<Buffer<f32>> = Vec::new();
    assert_eq!(Mesh::check_buffers(&none), Err(MeshBuildError::EmptyBufferList));
    assert_eq!(Mesh::check_buffers(&vec![Buffer::new(vec![1u8, 2, 3], 2)]), Ok(1));
}

#[test]
fn release_objects_releases_buffers_then_the_vertex_array() {
    assert_eq!(Mesh::release_objects::<f32>(4, 5, 6), released(4, 5, 6));
}

#[test]
fn from_buffers_interleaves_in_list_order() {
    let positions = Buffer::new(vec![1.0f32, 2.0, 3.0, 4.0, 5.0, 6.0], 3);
    let coords = Buffer::new(vec![0.25f32, 0.5, 0.75, 1.0], 2);
    let (made, commands) = Mesh::from_buffers(7, 8, 9, &vec![positions, coords], vec![0, 1, 0]);
    let mesh = made.ok().expect("the streams agree");
    assert_eq!(
        commands,
        vec![
            Command::BindVertexArray { vertex_array: 7 },
            Command::BindArrayBuffer { buffer: 8 },
            Command::ArrayBufferData {
                data: vec![1.0, 2.0, 3.0, 0.25, 0.5, 4.0, 5.0, 6.0, 0.75, 1.0]
            },
            Command::BindElementBuffer { buffer: 9 },
            Command::ElementBufferData { indices: vec![0, 1, 0] },
            Command::VertexAttribPointer { index: 0, width: 3, stride: 20, offset: 0 },
            Command::EnableVertexAttribArray { index: 0 },
            Command::VertexAttribPointer { index: 1, width: 2, stride: 20, offset: 12 },
            Command::EnableVertexAttribArray { index: 1 },
        ]
    );
    let draw: Vec<Command<f32>> = mesh.draw(&[]);
    assert_eq!(
        draw,
        vec![Command::BindVertexArray { vertex_array: 7 }, Command::DrawElements { count: 3 }]
    );
}

#[test]
fn from_buffers_ignores_a_trailing_partial_vertex() {
    let a = Buffer::new(vec![1u8, 2, 3, 4, 5], 2);
    let b = Buffer::new(vec![10u8, 20], 1);
    let (made, commands) = Mesh::from_buffers(1, 2, 3, &vec![a, b], vec![]);
    assert!(made.is_ok());
    assert_eq!(commands[2], Command::ArrayBufferData { data: vec![1, 2, 10, 3, 4, 20] });
    assert_eq!(
        commands[5],
        Command::VertexAttribPointer { index: 0, width: 2, stride: 3, offset: 0 }
    );
    assert_eq!(
        commands[7],
        Command::VertexAttribPointer { index: 1, width: 1, stride: 3, offset: 2 }
    );
}

#[test]
fn from_buffers_offsets_accumulate_over_three_streams() {
    let a = Buffer::new(vec![0u16; 3], 3);
    let b = Buffer::new(vec![0u16; 4], 4);
    let c = Buffer::new(vec![0u16; 2], 2);
    let (made, commands) = Mesh::from_buffers(1, 2, 3, &vec![a, b, c], vec![]);
    assert!(made.is_ok());
    assert_eq!(commands.len(), 11);
    assert_eq!(
        commands[9],
        Command::VertexAttribPointer { index: 2, width: 2, stride: 18, offset: 14 }
    );
    assert_eq!(commands[10], Command::EnableVertexAttribArray { index: 2 });
}

#[test]
fn interleave_takes_only_the_vertices_asked_for() {
    let a = Buffer::new(vec![1u32, 2, 3, 4], 2);
    let b = Buffer::new(vec![5u32, 6], 1);
    let buffers = vec![a, b];
    assert_eq!(interleave(&buffers, 1), vec![1, 2, 5]);
    assert_eq!(interleave(&buffers, 2), vec![1, 2, 5, 3, 4, 6]);
    assert_eq!(interleave(&buffers, 0), Vec::<u32>::new());
    let mut out = vec![0u32];
    push_vertex(&buffers, &mut out, 1);
    assert_eq!(out, vec![0, 3, 4, 6]);
}

#[test]
fn from_vertices_uses_the_fixed_layout() {
    let (vertices, faces) = quad();
    let (_, commands) = Mesh::from_vertices(1, 2, 3, vertices, faces);
    assert_eq!(
        commands,
        vec![
            Command::BindVertexArray { vertex_array: 1 },
            Command::BindArrayBuffer { buffer: 2 },
            Command::ArrayBufferData {
                data: vec![
                    0.5, 0.5, 0.0, 0.0, 0.0, 0.0, 1.0, 0.0, //
                    0.5, -0.5, 0.0, 0.0, 0.0, 0.0, 1.0, 1.0, //
                    -0.5, -0.5, 0.0, 0.0, 0.0, 0.0, 0.0, 1.0, //
                    -0.5, 0.5, 0.0, 0.0, 0.0, 0.0, 0.0, 0.0,
                ]
            },
            Command::BindElementBuffer { buffer: 3 },
            Command::ElementBufferData { indices: vec![0, 1, 3, 1, 2, 3] },
            Command::VertexAttribPointer { index: 0, width: 3, stride: 32, offset: 0 },
            Command::EnableVertexAttribArray { index: 0 },
            Command::VertexAttribPointer { index: 1, width: 3, stride: 32, offset: 12 },
            Command::EnableVertexAttribArray { index: 1 },
            Command::VertexAttribPointer { index: 2, width: 2, stride: 32, offset: 24 },
            Command::EnableVertexAttribArray { index: 2 },
        ]
    );
}

#[test]
fn from_vertices_agrees_with_from_buffers_on_the_same_streams() {
    let (vertices, faces) = quad();
    let positions: Vec<f32> = vertices.iter().flat_map(|v| v.position.into_vec()).collect();
    let normals: Vec<f32> = vertices.iter().flat_map(|v| v.normal.into_vec()).collect();
    let coords: Vec<f32> = vertices.iter().flat_map(|v| v.tex_coord.into_vec()).collect();
    let buffers =
        vec![Buffer::new(positions, 3), Buffer::new(normals, 3), Buffer::new(coords, 2)];
    let (_, fixed) = Mesh::from_vertices(1, 2, 3, vertices, faces);
    let (made, general) = Mesh::from_buffers(1, 2, 3, &buffers, vec![0, 1, 3, 1, 2, 3]);
    assert!(made.is_ok());
    assert_eq!(fixed, general);
}

#[test]
fn from_interleaved_with_no_attributes_only_uploads() {
    let (mesh, commands) = Mesh::from_interleaved(4, 5, 6, vec![1.0f32], vec![0, 0, 0], &vec![]);
    assert_eq!(commands.len(), 5);
    assert_eq!(commands[2], Command::ArrayBufferData { data: vec![1.0] });
    let released: Vec<Command<f32>> = mesh.release();
    assert_eq!(released, self::released(4, 5, 6));
}

#[test]
fn from_tobj_fills_absent_attributes_with_zero() {
    let obj = ObjMesh::new(
        vec![1.0f32, 2.0, 3.0, 4.0, 5.0, 6.0, 7.0],
        vec![],
        vec![],
        vec![0, 1, 0, 1],
    );
    assert_eq!(
        obj.vertices(),
        vec![
            Vertex::tex(Vector3::new(1.0, 2.0, 3.0), Vector2::new(0.0, 0.0)),
            Vertex::tex(Vector3::new(4.0, 5.0, 6.0), Vector2::new(0.0, 0.0)),
        ]
    );
    assert_eq!(obj.faces(), vec![Vector3::new(0, 1, 0)]);
    let (mesh, commands) = Mesh::from_tobj(1, 2, 3, &obj);
    assert_eq!(
        commands[2],
        Command::ArrayBufferData {
            data: vec![
                1.0, 2.0, 3.0, 0.0, 0.0, 0.0, 0.0, 0.0, //
                4.0, 5.0, 6.0, 0.0, 0.0, 0.0, 0.0, 0.0,
            ]
        }
    );
    assert_eq!(commands[4], Command::ElementBufferData { indices: vec![0, 1, 0] });
    let draw: Vec<Command<f32>> = mesh.draw(&[]);
    assert_eq!(draw[1], Command::DrawElements { count: 3 });
}

#[test]
fn from_tobj_reads_normals_and_texture_coordinates() {
    let obj = ObjMesh::new(
        vec![1, 2, 3, 4, 5, 6],
        vec![7, 8, 9, 10, 11, 12],
        vec![13, 14, 15, 16],
        vec![0u32, 1, 1],
    );
    let (_, commands) = Mesh::from_tobj(1, 2, 3, &obj);
    assert_eq!(
        commands[2],
        Command::ArrayBufferData {
            data: vec![1, 2, 3, 7, 8, 9, 13, 14, 4, 5, 6, 10, 11, 12, 15, 16]
        }
    );
    assert_eq!(
        commands[9],
        Command::VertexAttribPointer { index: 2, width: 2, stride: 32, offset: 24 }
    );
}

#[test]
fn draw_binds_texture_i_to_unit_i() {
    let (vertices, faces) = quad();
    let (mesh, _) = Mesh::from_vertices(10, 11, 12, vertices, faces);
    let (first, _) = Texture::from_pixels::<f32>(
        21,
        1,
        1,
        vec![255; 4],
        WrapMode::Repeat,
        FilterMode::Linear,
        FilterMode::Linear,
    );
    let (second, _) = Texture::from_pixels::<f32>(
        22,
        1,
        1,
        vec![0; 4],
        WrapMode::ClampToEdge,
        FilterMode::Nearest,
        FilterMode::Nearest,
    );
    let commands: Vec<Command<f32>> = mesh.draw(&[&first, &second]);
    assert_eq!(
        commands,
        vec![
            Command::ActiveTexture { unit: 0 },
            Command::BindTexture { texture: 21 },
            Command::ActiveTexture { unit: 1 },
            Command::BindTexture { texture: 22 },
            Command::BindVertexArray { vertex_array: 10 },
            Command::DrawElements { count: 6 },
        ]
    );
}

#[test]
fn texture_upload_sets_parameters_before_the_pixels() {
    let (texture, commands) = Texture::from_pixels::<f32>(
        5,
        2,
        1,
        vec![255, 0, 0, 255, 0, 255, 0, 255],
        WrapMode::Repeat,
        FilterMode::LinearMipMapLinear,
        FilterMode::Linear,
    );
    assert_eq!(texture.get_id(), 5);
    assert_eq!(texture.get_wrap(), WrapMode::Repeat);
    assert_eq!(texture.get_min_filter(), FilterMode::LinearMipMapLinear);
    assert_eq!(texture.get_mag_filter(), FilterMode::Linear);
    assert_eq!(
        commands,
        vec![
            Command::BindTexture { texture: 5 },
            Command::SetWrapS { mode: WrapMode::Repeat },
            Command::SetWrapT { mode: WrapMode::Repeat },
            Command::SetMinFilter { mode: FilterMode::LinearMipMapLinear },
            Command::SetMagFilter { mode: FilterMode::Linear },
            Command::TexImage { width: 2, height: 1, pixels: vec![255, 0, 0, 255, 0, 255, 0, 255] },
            Command::GenerateMipmap,
        ]
    );
    let released: Vec<Command<f32>> = texture.release();
    assert_eq!(released, vec![Command::DeleteTexture { texture: 5 }]);
}

#[test]
fn build_errors_say_what_went_wrong() {
    assert_eq!(MeshBuildError::EmptyBufferList.message(), "empty buffer list");
    assert_eq!(
        MeshBuildError::UnequalBufferLengths { expected: 4, found: 2 }.message(),
        "unequal buffer lengths"
    );
}
