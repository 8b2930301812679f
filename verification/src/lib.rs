//! A verified core for a small real-time renderer.
//!
//! The library plans what a graphics backend has to do: it lays out vertex
//! data, follows the compile and link protocol of shader programs, composes
//! the matrices of objects and cameras, and writes down, command by command,
//! what a frame asks of the backend. It performs no backend call itself:
//! whoever owns the rendering context carries the commands out and hands
//! the backend's answers back.
//!
//! The library is generic in the scalar type of vertex and uniform data, and
//! in the arithmetic of vectors, rotations and matrices, which an
//! implementor of [`transform::Algebra`] brings along.

pub mod buffer;
pub mod camera;
pub mod command;
pub mod decode;
pub mod layout;
pub mod matrix4;
pub mod mesh;
pub mod mesh_object;
pub mod obj_mesh;
pub mod program;
pub mod shader;
pub mod status;
pub mod texture;
pub mod transform;
pub mod uniform_name;
pub mod vector2;
pub mod vector3;
pub mod vector4;
pub mod vertex;
