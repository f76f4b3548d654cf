//! Fixed-size vectors, quaternions, matrices and plain geometric aggregates,
//! generic over their numeric element.
mod arith;
pub mod scalar;
pub mod vec;
pub mod mat;
pub mod quat;
pub mod point;
pub mod size;
pub mod rect;
pub mod quad;
