//! Two small numeric utilities: a generic 3D coordinate type with
//! elementary geometric operations, and the buffer-size rule that guards a
//! dense matrix-multiply binding.

pub mod blas;
pub mod point3d;
pub mod scalar;
