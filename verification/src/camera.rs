//! Cameras: the view onto a scene, and the frame drawn through it.

use vstd::prelude::*;
use crate::command::{draw_calls, extend, lemma_draw_calls_concat, views, Command, CommandView};
use crate::matrix4::Matrix4;
use crate::mesh::Mesh;
use crate::mesh_object::{lemma_object_draws_once, MeshObject};
use crate::transform::{Algebra, Transform};
use crate::vector4::Vector4;

verus! {

/// How a camera projects what it sees.
#[derive(Clone, Copy, Debug, PartialEq)]
pub enum Projection<S> {
    /// In perspective: the vertical field of view, in degrees, and the near
    /// and far planes. The aspect ratio is that of the screen.
    Perspective { fov: S, near: S, far: S },
    /// In parallel: the bounds of the box that is seen.
    Orthographic { left: S, right: S, bottom: S, top: S, near: S, far: S },
}

/// A camera: its transform, its projection, the size of the screen it
/// draws to, and the colour it clears the screen with, if it clears it.
pub struct Camera<A: Algebra> {
    pub transform: Transform<A>,
    pub projection: Projection<A::Scalar>,
    pub screen_width: i32,
    pub screen_height: i32,
    pub clear_color: Option<Vector4<A::Scalar>>,
}

/// Whether `m` is a matrix of the projection on a screen of the given size.
/// In perspective, the aspect ratio is the quotient of width and height and
/// the field of view is taken in radians.
pub open spec fn is_projection_matrix<A: Algebra>(
    projection: Projection<A::Scalar>,
    screen_width: i32,
    screen_height: i32,
    m: A::Matrix,
) -> bool {
    match projection {
        Projection::Perspective { fov, near, far } => exists|aspect: A::Scalar, fovy: A::Scalar|
            {
                &&& call_ensures(A::ratio, (screen_width, screen_height), aspect)
                &&& call_ensures(A::radians, (fov,), fovy)
                &&& call_ensures(A::perspective, (aspect, fovy, near, far), m)
            },
        Projection::Orthographic { left, right, bottom, top, near, far } => call_ensures(
            A::orthographic,
            (left, right, bottom, top, near, far),
            m,
        ),
    }
}

/// Whether `commands` are what drawing the first `n` of the given objects
/// asks of the backend: the objects one after the other, in the order of the
/// list.
pub open spec fn is_frame<'a, A: Algebra>(
    camera: &Camera<A>,
    objects: Seq<&MeshObject<'a, A>>,
    n: nat,
    commands: Seq<CommandView<A::Scalar>>,
) -> bool
    decreases n,
{
    if n == 0 {
        commands == Seq::<CommandView<A::Scalar>>::empty()
    } else {
        exists|head: Seq<CommandView<A::Scalar>>, tail: Seq<CommandView<A::Scalar>>|
            {
                &&& commands == #[trigger] (head + tail)
                &&& is_frame(camera, objects, (n - 1) as nat, head)
                &&& objects[n - 1].draws(camera, tail)
            }
    }
}

/// A frame holds one indexed draw for each object.
pub proof fn lemma_frame_draws_each_once<'a, A: Algebra>(
    camera: &Camera<A>,
    objects: Seq<&MeshObject<'a, A>>,
    n: nat,
    commands: Seq<CommandView<A::Scalar>>,
)
    requires
        n <= objects.len(),
        is_frame(camera, objects, n, commands),
    ensures
        draw_calls(commands) == n,
    decreases n,
{
    if n > 0 {
        let (head, tail) = choose|
            head: Seq<CommandView<A::Scalar>>,
            tail: Seq<CommandView<A::Scalar>>,
        |
            {
                &&& commands == #[trigger] (head + tail)
                &&& is_frame(camera, objects, (n - 1) as nat, head)
                &&& objects[n - 1].draws(camera, tail)
            };
        let object = objects[n - 1];
        lemma_frame_draws_each_once(camera, objects, (n - 1) as nat, head);
        lemma_draws_once(object, camera, tail);
        lemma_draw_calls_concat(head, tail);
    }
}

/// Drawing an object through a camera is one indexed draw.
pub proof fn lemma_draws_once<'a, A: Algebra>(
    object: &MeshObject<'a, A>,
    camera: &Camera<A>,
    commands: Seq<CommandView<A::Scalar>>,
)
    requires
        object.draws(camera, commands),
    ensures
        draw_calls(commands) == 1,
        commands.last() == (CommandView::<A::Scalar>::DrawElements {
            count: object.mesh.index_count() as usize,
        }),
{
    let (model, view, projection, m, v, p) = choose|
        model: A::Matrix,
        view: A::Matrix,
        projection: A::Matrix,
        m: Matrix4<A::Scalar>,
        v: Matrix4<A::Scalar>,
        p: Matrix4<A::Scalar>,
    | #[trigger] object.draws_with(camera, model, view, projection, m, v, p, commands);
    lemma_object_draws_once(
        object.shader_program.id(),
        m,
        v,
        p,
        object.mesh.vertex_array(),
        object.mesh.index_count(),
        Mesh::texture_ids(object.textures@),
    );
}

impl<A: Algebra> Camera<A> {
    /// Whether `m` is a projection matrix of the camera for the current
    /// size of the screen.
    pub open spec fn projects(&self, m: A::Matrix) -> bool {
        is_projection_matrix::<A>(self.projection, self.screen_width, self.screen_height, m)
    }

    /// What clearing asks of the backend: with a clear colour, set it and
    /// clear the colour and depth buffers; without one, nothing.
    pub open spec fn clear_commands(color: Option<Vector4<A::Scalar>>) -> Seq<
        CommandView<A::Scalar>,
    > {
        match color {
            Some(color) => seq![CommandView::ClearColor { color }, CommandView::Clear],
            None => Seq::empty(),
        }
    }

    /// The camera with a perspective projection of the given field of view,
    /// in degrees, and near and far planes, for a screen of the given size,
    /// with the identity transform; and the one command that switches depth
    /// testing on.
    pub fn new(
        fov: A::Scalar,
        screen_width: i32,
        screen_height: i32,
        near_clipping_plane: A::Scalar,
        far_clipping_plane: A::Scalar,
        clear_color: Option<Vector4<A::Scalar>>,
    ) -> (made: (Self, Vec<Command<A::Scalar>>))
        ensures
            made.0.transform.is_identity(),
            made.0.projection == (Projection::Perspective {
                fov,
                near: near_clipping_plane,
                far: far_clipping_plane,
            }),
            made.0.screen_width == screen_width,
            made.0.screen_height == screen_height,
            made.0.clear_color == clear_color,
            views(made.1@) == seq![CommandView::<A::Scalar>::EnableDepthTest],
    {
        Self::with_projection(
            Projection::Perspective { fov, near: near_clipping_plane, far: far_clipping_plane },
            screen_width,
            screen_height,
            clear_color,
        )
    }

    /// The camera with the given projection, for a screen of the given size,
    /// with the identity transform; and the one command that switches depth
    /// testing on.
    pub fn with_projection(
        projection: Projection<A::Scalar>,
        screen_width: i32,
        screen_height: i32,
        clear_color: Option<Vector4<A::Scalar>>,
    ) -> (made: (Self, Vec<Command<A::Scalar>>))
        ensures
            made.0.transform.is_identity(),
            made.0.projection == projection,
            made.0.screen_width == screen_width,
            made.0.screen_height == screen_height,
            made.0.clear_color == clear_color,
            views(made.1@) == seq![CommandView::<A::Scalar>::EnableDepthTest],
    {
        let mut commands: Vec<Command<A::Scalar>> = Vec::new();
        commands.push(Command::EnableDepthTest);
        proof {
            assert(views(commands@) =~= seq![CommandView::<A::Scalar>::EnableDepthTest]);
        }
        let camera = Camera {
            transform: Transform::default(),
            projection,
            screen_width,
            screen_height,
            clear_color,
        };
        (camera, commands)
    }

    /// The commands that draw the given objects, in the order of the list.
    pub fn draw_objects<'a>(&self, objects: &[&MeshObject<'a, A>]) -> (commands: Vec<
        Command<A::Scalar>,
    >)
        ensures
            is_frame(self, objects@, objects@.len(), views(commands@)),
    {
        let mut commands: Vec<Command<A::Scalar>> = Vec::new();
        let mut i: usize = 0;
        proof {
            assert(views(commands@) =~= Seq::<CommandView<A::Scalar>>::empty());
        }
        while i < objects.len()
            invariant
                i <= objects.len(),
                is_frame(self, objects@, i as nat, views(commands@)),
            decreases objects.len() - i,
        {
            let ghost head = views(commands@);
            let object = objects[i].draw(self);
            let ghost tail = views(object@);
            extend(&mut commands, object);
            proof {
                assert(views(commands@) == head + tail);
                assert(objects@[i as int].draws(self, tail));
            }
            i = i + 1;
        }
        commands
    }

    /// The camera's projection matrix, computed from its projection and the
    /// current size of the screen.
    pub fn get_projection_matrix(&self) -> (m: A::Matrix)
        ensures
            self.projects(m),
    {
        match self.projection {
            Projection::Perspective { fov, near, far } => {
                let aspect = A::ratio(self.screen_width, self.screen_height);
                let fovy = A::radians(fov);
                A::perspective(aspect, fovy, near, far)
            },
            Projection::Orthographic { left, right, bottom, top, near, far } => A::orthographic(
                left,
                right,
                bottom,
                top,
                near,
                far,
            ),
        }
    }

    /// The camera's view matrix.
    pub fn get_transform_matrix(&self) -> (m: A::Matrix)
        ensures
            self.transform.composes(true, m),
    {
        self.transform.to_matrix(true)
    }

    /// The commands that clear the screen to the camera's clear colour.
    pub fn clear(&self) -> (commands: Vec<Command<A::Scalar>>)
        ensures
            views(commands@) == Self::clear_commands(self.clear_color),
    {
        let mut commands: Vec<Command<A::Scalar>> = Vec::new();
        match self.clear_color {
            Some(color) => {
                commands.push(Command::ClearColor { color });
                commands.push(Command::Clear);
            },
            None => {},
        }
        proof {
            assert(views(commands@) =~= Self::clear_commands(self.clear_color));
        }
        commands
    }

    /// Takes a new size of the screen, by which the projection matrix goes
    /// from now on, and gives the one command that sets the viewport to that
    /// size. Transform, projection and clear colour stay.
    pub fn set_screen_size(&mut self, screen_width: i32, screen_height: i32) -> (commands: Vec<
        Command<A::Scalar>,
    >)
        ensures
            final(self).screen_width == screen_width,
            final(self).screen_height == screen_height,
            final(self).projection == old(self).projection,
            final(self).transform == old(self).transform,
            final(self).clear_color == old(self).clear_color,
            views(commands@) == seq![
                CommandView::<A::Scalar>::Viewport { width: screen_width, height: screen_height },
            ],
    {
        self.screen_width = screen_width;
        self.screen_height = screen_height;
        let mut commands: Vec<Command<A::Scalar>> = Vec::new();
        commands.push(Command::Viewport { width: screen_width, height: screen_height });
        proof {
            assert(views(commands@) =~= seq![
                CommandView::<A::Scalar>::Viewport { width: screen_width, height: screen_height },
            ]);
        }
        commands
    }
}

} // verus!
