//! Geometric building blocks for rendering and simulation: a three-component
//! vector over an abstract scalar, and a closed interval of single-precision
//! values.

pub mod binary32;
pub mod binary64;
pub mod decimal;
pub mod exact;
pub mod int64;
pub mod interval;
pub mod scalar;
pub mod vec3;

pub use binary32::Binary32;
pub use exact::ExactScalar;
pub use int64::Int64;
pub use interval::Interval;
pub use scalar::Scalar;
pub use vec3::{Vec3, P3};
