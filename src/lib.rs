//! Static linear algebra: fixed-length vectors with copy-on-write storage,
//! native kernels for the algebraic operations, and shape-aware tensors and
//! matrices with a lazily tracked transpose.

pub mod algebra;
pub mod backends;
pub mod cow;
pub mod laws;
pub mod num;
pub mod shape;
pub mod simd_lanes;
pub mod tags;
pub mod tensor;
pub mod traits;

pub use cow::StaticCowVec;
