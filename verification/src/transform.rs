//! Position, rotation and scale, and the matrices they compose to.
//!
//! The library decides how transforms compose; the arithmetic itself is the
//! implementor's, behind [`Algebra`]. What each operation here returns is
//! therefore stated over the operations' own outcomes: of a result it is
//! said which operations, applied to what, may have produced it.

use vstd::prelude::*;
use crate::matrix4::Matrix4;

verus! {

/// A coordinate axis.
#[derive(Clone, Copy, Debug, PartialEq, Eq)]
pub enum Axis {
    X,
    Y,
    Z,
}

/// The scalars, vectors, rotations and matrices that transforms are made
/// of, with their operations.
///
/// The library calls the operations with whatever its transforms and
/// cameras hold. It states nothing of what they compute: that an operation
/// returns for every argument, and returns the same for the same, is the
/// implementor's to see to.
pub trait Algebra {
    type Scalar: Copy;

    type Vector: Copy;

    type Rotation: Copy;

    type Matrix: Copy;

    /// The vector of zeros.
    fn origin() -> Self::Vector;

    /// The vector of ones.
    fn unit_scale() -> Self::Vector;

    /// The rotation that turns nothing.
    fn identity_rotation() -> Self::Rotation;

    /// The vector `-v`.
    fn opposite(v: Self::Vector) -> Self::Vector;

    /// The rotation that undoes `q`.
    fn inverse(q: Self::Rotation) -> Self::Rotation;

    /// The rotation by `angle`, in radians, about `axis`, counter-clockwise
    /// as seen from the positive end of the axis: a quarter turn about `Y`
    /// takes the direction `+Z` to `+X`.
    fn axis_rotation(angle: Self::Scalar, axis: Axis) -> Self::Rotation;

    /// The rotation `a · b`: first `b`, then `a`.
    fn compose(a: Self::Rotation, b: Self::Rotation) -> Self::Rotation;

    /// The angle of `degrees` degrees, in radians.
    fn radians(degrees: Self::Scalar) -> Self::Scalar;

    /// The quotient `width / height`.
    fn ratio(width: i32, height: i32) -> Self::Scalar;

    /// The matrix that moves by `v`.
    fn translation(v: Self::Vector) -> Self::Matrix;

    /// The matrix that turns as `q` does.
    fn rotation(q: Self::Rotation) -> Self::Matrix;

    /// The matrix that scales each axis by its component of `v`.
    fn scaling(v: Self::Vector) -> Self::Matrix;

    /// The matrix product `a · b`.
    fn product(a: Self::Matrix, b: Self::Matrix) -> Self::Matrix;

    /// The perspective projection with the given aspect ratio, vertical
    /// field of view in radians, and near and far planes.
    fn perspective(
        aspect: Self::Scalar,
        fovy: Self::Scalar,
        near: Self::Scalar,
        far: Self::Scalar,
    ) -> Self::Matrix;

    /// The orthographic projection of the box with the given bounds.
    fn orthographic(
        left: Self::Scalar,
        right: Self::Scalar,
        bottom: Self::Scalar,
        top: Self::Scalar,
        near: Self::Scalar,
        far: Self::Scalar,
    ) -> Self::Matrix;

    /// The components of `m`, column by column.
    fn columns(m: Self::Matrix) -> Matrix4<Self::Scalar>;
}

/// Where something is, how it is turned and how large it is.
pub struct Transform<A: Algebra> {
    pub position: A::Vector,
    pub rotation: A::Rotation,
    pub scale: A::Vector,
}

/// Whether `m` is a matrix of an object with the given position, rotation
/// and scale: a product `(T · R) · S` of its translation, its rotation and
/// its scaling.
pub open spec fn is_model_matrix<A: Algebra>(
    position: A::Vector,
    rotation: A::Rotation,
    scale: A::Vector,
    m: A::Matrix,
) -> bool {
    exists|t: A::Matrix, r: A::Matrix, s: A::Matrix, tr: A::Matrix|
        {
            &&& call_ensures(A::translation, (position,), t)
            &&& call_ensures(A::rotation, (rotation,), r)
            &&& call_ensures(A::scaling, (scale,), s)
            &&& call_ensures(A::product, (t, r), tr)
            &&& call_ensures(A::product, (tr, s), m)
        }
}

/// Whether `m` is a matrix of a camera with the given position and
/// rotation: a product `R' · T'` of the inverse rotation and the opposite
/// translation. A camera's scale plays no part.
pub open spec fn is_view_matrix<A: Algebra>(
    position: A::Vector,
    rotation: A::Rotation,
    m: A::Matrix,
) -> bool {
    exists|back: A::Vector, undo: A::Rotation, t: A::Matrix, r: A::Matrix|
        {
            &&& call_ensures(A::opposite, (position,), back)
            &&& call_ensures(A::inverse, (rotation,), undo)
            &&& call_ensures(A::translation, (back,), t)
            &&& call_ensures(A::rotation, (undo,), r)
            &&& call_ensures(A::product, (r, t), m)
        }
}

/// Whether `q` is a rotation of the given angles, in radians: a product
/// `(Ry(yaw) · Rx(pitch)) · Rz(roll)`.
pub open spec fn is_euler_rotation<A: Algebra>(
    pitch: A::Scalar,
    yaw: A::Scalar,
    roll: A::Scalar,
    q: A::Rotation,
) -> bool {
    exists|ry: A::Rotation, rx: A::Rotation, rz: A::Rotation, yx: A::Rotation|
        {
            &&& call_ensures(A::axis_rotation, (yaw, Axis::Y), ry)
            &&& call_ensures(A::axis_rotation, (pitch, Axis::X), rx)
            &&& call_ensures(A::axis_rotation, (roll, Axis::Z), rz)
            &&& call_ensures(A::compose, (ry, rx), yx)
            &&& call_ensures(A::compose, (yx, rz), q)
        }
}

/// Whether `q` is a rotation of the given angles, in degrees: the rotation
/// of their radians.
pub open spec fn is_euler_rotation_deg<A: Algebra>(
    pitch: A::Scalar,
    yaw: A::Scalar,
    roll: A::Scalar,
    q: A::Rotation,
) -> bool {
    exists|p: A::Scalar, y: A::Scalar, r: A::Scalar|
        {
            &&& call_ensures(A::radians, (pitch,), p)
            &&& call_ensures(A::radians, (yaw,), y)
            &&& call_ensures(A::radians, (roll,), r)
            &&& #[trigger] is_euler_rotation::<A>(p, y, r, q)
        }
}

impl<A: Algebra> Transform<A> {
    /// Whether `m` is a matrix of the transform, taken as an object's or as
    /// a camera's.
    pub open spec fn composes(&self, is_camera: bool, m: A::Matrix) -> bool {
        if is_camera {
            is_view_matrix::<A>(self.position, self.rotation, m)
        } else {
            is_model_matrix::<A>(self.position, self.rotation, self.scale, m)
        }
    }

    /// Whether this is an identity transform: at the origin, not turned,
    /// of unit scale.
    pub open spec fn is_identity(&self) -> bool {
        &&& call_ensures(A::origin, (), self.position)
        &&& call_ensures(A::identity_rotation, (), self.rotation)
        &&& call_ensures(A::unit_scale, (), self.scale)
    }

    /// The transform with the given parts.
    pub fn new(position: A::Vector, rotation: A::Rotation, scale: A::Vector) -> (t: Self)
        ensures
            t.position == position,
            t.rotation == rotation,
            t.scale == scale,
    {
        Transform { position, rotation, scale }
    }

    /// The matrix of the transform. For an object it is
    /// `Translate(position) · Rotate(rotation) · Scale(scale)`; for a camera
    /// it is `Rotate(inverse(rotation)) · Translate(-position)`.
    pub fn to_matrix(&self, is_camera: bool) -> (m: A::Matrix)
        ensures
            self.composes(is_camera, m),
    {
        if is_camera {
            let back = A::opposite(self.position);
            let undo = A::inverse(self.rotation);
            let t = A::translation(back);
            let r = A::rotation(undo);
            A::product(r, t)
        } else {
            let t = A::translation(self.position);
            let r = A::rotation(self.rotation);
            let s = A::scaling(self.scale);
            let tr = A::product(t, r);
            A::product(tr, s)
        }
    }

    /// Turns the transform to the given angles, in radians: yaw about the
    /// Y axis, pitch about the X axis, roll about the Z axis, composed as
    /// `Ry(yaw) · Rx(pitch) · Rz(roll)`. Position and scale stay.
    pub fn set_euler_angles(&mut self, pitch: A::Scalar, yaw: A::Scalar, roll: A::Scalar)
        ensures
            is_euler_rotation::<A>(pitch, yaw, roll, final(self).rotation),
            final(self).position == old(self).position,
            final(self).scale == old(self).scale,
    {
        let ry = A::axis_rotation(yaw, Axis::Y);
        let rx = A::axis_rotation(pitch, Axis::X);
        let rz = A::axis_rotation(roll, Axis::Z);
        let yx = A::compose(ry, rx);
        self.rotation = A::compose(yx, rz);
    }

    /// Turns the transform to the given angles, in degrees. Position and
    /// scale stay.
    pub fn set_euler_angles_deg(&mut self, pitch: A::Scalar, yaw: A::Scalar, roll: A::Scalar)
        ensures
            is_euler_rotation_deg::<A>(pitch, yaw, roll, final(self).rotation),
            final(self).position == old(self).position,
            final(self).scale == old(self).scale,
    {
        let p = A::radians(pitch);
        let y = A::radians(yaw);
        let r = A::radians(roll);
        self.set_euler_angles(p, y, r);
    }
}

impl<A: Algebra> Default for Transform<A> {
    /// The identity transform.
    fn default() -> (t: Self)
        ensures
            t.is_identity(),
    {
        Transform {
            position: A::origin(),
            rotation: A::identity_rotation(),
            scale: A::unit_scale(),
        }
    }
}

} // verus!
