//! A small linear-algebra library for an immediate-mode 3D point-cloud
//! renderer: fixed-size vectors and matrices over binary32 scalars, and the
//! transformation-matrix constructors built on top of them.
//!
//! Scalars are carried as IEEE 754 binary32 bit patterns (`u32`); see
//! [`fpbits`] for the arithmetic. Matrices store their entries in a flat
//! row-major sequence of `dimension * dimension` scalars.

pub mod fpbits;
pub mod indexing;
pub mod matrix2;
pub mod matrix3;
pub mod matrix4;
pub mod point;
pub mod shader;
pub mod vector2;
pub mod vector3;
pub mod vector4;

pub use matrix2::Matrix2;
pub use matrix3::Matrix3;
pub use matrix4::{
    fps_camera, look_at, perspective_matrix, rotation_matrix_x, rotation_matrix_y,
    rotation_matrix_z, scale_matrix_xyz, translation_matrix_xyz, Matrix4,
};
pub use point::Point3D;
pub use vector2::Vector2;
pub use vector3::Vector3;
pub use vector4::Vector4;
