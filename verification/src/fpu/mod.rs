//! Floating point in software.
pub mod apfloat;
pub mod bits;
pub mod rounding;
pub mod soft_float;
pub mod sqrt;

pub use bits::{FloatFormat, Round};
pub use soft_float::SoftFPU;
