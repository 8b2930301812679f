//! Objects of a scene: a mesh with its textures, its program and its place
//! in the world.

use vstd::prelude::*;
use vstd::slice::slice_to_vec;
use crate::camera::Camera;
use crate::command::{
    current_program, draw_calls, extend, lemma_current_program_kept, lemma_draw_calls_concat, views,
    Command, CommandView, ProgramValue,
};
use crate::matrix4::Matrix4;
use crate::mesh::{
    lemma_mesh_draws_once, lemma_texture_bindings_index, lemma_texture_bindings_len,
    lemma_two_commands, Mesh,
};
use crate::program::ShaderProgram;
use crate::texture::Texture;
use crate::transform::{Algebra, Transform};
use crate::uniform_name::{sampler_name, sampler_name_spec};

verus! {

/// One object of a scene. It refers to its mesh, textures and program,
/// which several objects may share, and owns its transform.
pub struct MeshObject<'a, A: Algebra> {
    pub mesh: &'a Mesh,
    pub textures: Vec<&'a Texture>,
    pub shader_program: &'a ShaderProgram,
    pub transform: Transform<A>,
}

/// The name of the uniform that takes an object's model matrix.
pub open spec fn model_name() -> Seq<char> {
    seq!['m', 'o', 'd', 'e', 'l']
}

/// The name of the uniform that takes the camera's view matrix.
pub open spec fn view_name() -> Seq<char> {
    seq!['v', 'i', 'e', 'w']
}

/// The name of the uniform that takes the camera's projection matrix.
pub open spec fn projection_name() -> Seq<char> {
    seq!['p', 'r', 'o', 'j', 'e', 'c', 't', 'i', 'o', 'n']
}

/// The commands that tie the first `n` sampler uniforms of `program` to
/// texture units: the sampler named after unit `i` reads from unit `i`.
pub open spec fn sampler_bindings<T>(program: u32, n: nat) -> Seq<CommandView<T>>
    decreases n,
{
    if n == 0 {
        Seq::empty()
    } else {
        sampler_bindings(program, (n - 1) as nat) + ShaderProgram::set_value_commands(
            program,
            sampler_name_spec((n - 1) as nat),
            ProgramValue::<T>::Int((n - 1) as i32),
        )
    }
}

/// What drawing one object asks of the backend: set the model, view and
/// projection matrices on the object's program, each after making the
/// program the current one, then draw the mesh with the object's textures.
pub open spec fn object_draw_commands<T>(
    program: u32,
    model: Matrix4<T>,
    view: Matrix4<T>,
    projection: Matrix4<T>,
    vertex_array: u32,
    index_count: nat,
    textures: Seq<u32>,
) -> Seq<CommandView<T>> {
    ShaderProgram::set_value_commands(program, model_name(), ProgramValue::Mat4(model))
        + ShaderProgram::set_value_commands(program, view_name(), ProgramValue::Mat4(view))
        + ShaderProgram::set_value_commands(
        program,
        projection_name(),
        ProgramValue::Mat4(projection),
    ) + Mesh::draw_commands(vertex_array, index_count, textures)
}

/// Drawing one object is one indexed draw, over all indices of its mesh,
/// and it starts by making the object's program the current one.
pub proof fn lemma_object_draws_once<T>(
    program: u32,
    model: Matrix4<T>,
    view: Matrix4<T>,
    projection: Matrix4<T>,
    vertex_array: u32,
    index_count: nat,
    textures: Seq<u32>,
)
    ensures
        draw_calls(
            object_draw_commands(
                program,
                model,
                view,
                projection,
                vertex_array,
                index_count,
                textures,
            ),
        ) == 1,
        object_draw_commands(
            program,
            model,
            view,
            projection,
            vertex_array,
            index_count,
            textures,
        ).last() == (CommandView::<T>::DrawElements { count: index_count as usize }),
        object_draw_commands(
            program,
            model,
            view,
            projection,
            vertex_array,
            index_count,
            textures,
        )[0] == (CommandView::<T>::UseProgram { program }),
{
    let a = ShaderProgram::set_value_commands(program, model_name(), ProgramValue::Mat4(model));
    let b = ShaderProgram::set_value_commands(program, view_name(), ProgramValue::Mat4(view));
    let c = ShaderProgram::set_value_commands(
        program,
        projection_name(),
        ProgramValue::Mat4(projection),
    );
    let d = Mesh::draw_commands::<T>(vertex_array, index_count, textures);
    lemma_two_commands(a);
    lemma_two_commands(b);
    lemma_two_commands(c);
    lemma_mesh_draws_once::<T>(vertex_array, index_count, textures);
    lemma_draw_calls_concat(a, b);
    lemma_draw_calls_concat(a + b, c);
    lemma_draw_calls_concat(a + b + c, d);
}

/// Whatever the backend did before, when an object's draw is reached the
/// object's own program is the current one.
pub proof fn lemma_own_program_at_draw<T>(
    before: Seq<CommandView<T>>,
    program: u32,
    model: Matrix4<T>,
    view: Matrix4<T>,
    projection: Matrix4<T>,
    vertex_array: u32,
    index_count: nat,
    textures: Seq<u32>,
)
    ensures
        current_program(
            before + object_draw_commands(
                program,
                model,
                view,
                projection,
                vertex_array,
                index_count,
                textures,
            ).drop_last(),
        ) == Some(program),
{
    let a = ShaderProgram::set_value_commands(program, model_name(), ProgramValue::Mat4(model));
    let b = ShaderProgram::set_value_commands(program, view_name(), ProgramValue::Mat4(view));
    let bindings = Mesh::texture_bindings::<T>(textures, textures.len());
    let array = seq![CommandView::<T>::BindVertexArray { vertex_array }];
    let all = object_draw_commands(
        program,
        model,
        view,
        projection,
        vertex_array,
        index_count,
        textures,
    );
    let set_last = seq![
        CommandView::SetUniform {
            program,
            name: projection_name(),
            value: ProgramValue::Mat4(projection),
        },
    ];
    let head = before + a + b + seq![CommandView::<T>::UseProgram { program }];
    assert(before + all.drop_last() =~= head + (set_last + bindings + array));
    assert forall|i: int| 0 <= i < (set_last + bindings + array).len() implies !(#[trigger] (
    set_last + bindings + array)[i] is UseProgram) by {
        lemma_texture_bindings_len::<T>(textures, textures.len());
        if 1 <= i < 1 + bindings.len() {
            let j = i - 1;
            lemma_texture_bindings_index::<T>(textures, textures.len(), j / 2);
            if j % 2 == 0 {
                assert(bindings[j] == bindings[2 * (j / 2)]);
            } else {
                assert(bindings[j] == bindings[2 * (j / 2) + 1]);
            }
        }
    }
    lemma_current_program_kept(head, set_last + bindings + array);
    assert(head.last() == (CommandView::<T>::UseProgram { program }));
}

impl<'a, A: Algebra> MeshObject<'a, A> {
    /// Whether `commands` are what drawing the object through `camera` asks
    /// of the backend when `model`, `view` and `projection` are the matrices
    /// and `m`, `v` and `p` their components. The model matrix is the
    /// object's own transform taken as an object's, the view matrix the
    /// camera's transform taken as a camera's, the projection matrix the
    /// camera's.
    pub open spec fn draws_with(
        &self,
        camera: &Camera<A>,
        model: A::Matrix,
        view: A::Matrix,
        projection: A::Matrix,
        m: Matrix4<A::Scalar>,
        v: Matrix4<A::Scalar>,
        p: Matrix4<A::Scalar>,
        commands: Seq<CommandView<A::Scalar>>,
    ) -> bool {
        &&& self.transform.composes(false, model)
        &&& camera.transform.composes(true, view)
        &&& camera.projects(projection)
        &&& call_ensures(A::columns, (model,), m)
        &&& call_ensures(A::columns, (view,), v)
        &&& call_ensures(A::columns, (projection,), p)
        &&& commands == object_draw_commands(
            self.shader_program.id(),
            m,
            v,
            p,
            self.mesh.vertex_array(),
            self.mesh.index_count(),
            Mesh::texture_ids(self.textures@),
        )
    }

    /// Whether `commands` are what drawing the object through `camera` asks
    /// of the backend.
    pub open spec fn draws(
        &self,
        camera: &Camera<A>,
        commands: Seq<CommandView<A::Scalar>>,
    ) -> bool {
        exists|
            model: A::Matrix,
            view: A::Matrix,
            projection: A::Matrix,
            m: Matrix4<A::Scalar>,
            v: Matrix4<A::Scalar>,
            p: Matrix4<A::Scalar>,
        | #[trigger] self.draws_with(camera, model, view, projection, m, v, p, commands)
    }

    /// The object of the given mesh, textures and program, with the
    /// identity transform, and the commands that tie the program's sampler
    /// uniforms to texture units. This is done here, once: the ties do not
    /// change from frame to frame.
    pub fn new(
        mesh: &'a Mesh,
        textures: &[&'a Texture],
        shader_program: &'a ShaderProgram,
    ) -> (made: (Self, Vec<Command<A::Scalar>>))
        requires
            textures@.len() <= i32::MAX,
        ensures
            made.0.mesh == mesh,
            made.0.textures@ == textures@,
            made.0.shader_program == shader_program,
            made.0.transform.is_identity(),
            views(made.1@) == sampler_bindings::<A::Scalar>(shader_program.id(), textures@.len()),
    {
        let mut commands: Vec<Command<A::Scalar>> = Vec::new();
        let mut i: usize = 0;
        proof {
            assert(views(commands@) =~= sampler_bindings::<A::Scalar>(shader_program.id(), 0));
        }
        while i < textures.len()
            invariant
                i <= textures.len(),
                textures@.len() <= i32::MAX,
                views(commands@) == sampler_bindings::<A::Scalar>(shader_program.id(), i as nat),
            decreases textures.len() - i,
        {
            let name = sampler_name(i);
            let bind = shader_program.set_value(name.as_str(), ProgramValue::Int(i as i32));
            extend(&mut commands, bind);
            i = i + 1;
        }
        let object = MeshObject {
            mesh,
            textures: slice_to_vec(textures),
            shader_program,
            transform: Transform::default(),
        };
        (object, commands)
    }

    /// The commands that draw the object as `camera` sees it.
    pub fn draw(&self, camera: &Camera<A>) -> (commands: Vec<Command<A::Scalar>>)
        ensures
            self.draws(camera, views(commands@)),
    {
        proof {
            reveal_strlit("model");
            reveal_strlit("view");
            reveal_strlit("projection");
            assert("model"@ =~= model_name());
            assert("view"@ =~= view_name());
            assert("projection"@ =~= projection_name());
        }
        let model = self.get_transform_matrix();
        let view = camera.get_transform_matrix();
        let projection = camera.get_projection_matrix();
        let m = A::columns(model);
        let v = A::columns(view);
        let p = A::columns(projection);
        let mut commands = self.shader_program.set_value("model", ProgramValue::Mat4(m));
        let set_view = self.shader_program.set_value("view", ProgramValue::Mat4(v));
        extend(&mut commands, set_view);
        let set_projection = self.shader_program.set_value("projection", ProgramValue::Mat4(p));
        extend(&mut commands, set_projection);
        let mesh = self.mesh.draw(self.textures.as_slice());
        extend(&mut commands, mesh);
        proof {
            assert(self.draws_with(camera, model, view, projection, m, v, p, views(commands@)));
        }
        commands
    }

    /// The object's model matrix.
    pub fn get_transform_matrix(&self) -> (m: A::Matrix)
        ensures
            self.transform.composes(false, m),
    {
        self.transform.to_matrix(false)
    }
}

} // verus!
