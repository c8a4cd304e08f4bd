//! A small ray tracer with a fully verified core.
//!
//! All geometry is carried out in signed 64-bit fixed-point arithmetic
//! (16 fractional bits). Every executable function of the library has an
//! exact contract over the integer model defined in [`fx`].

pub mod filter;
pub mod fx;
pub mod light;
pub mod math;
pub mod object;
pub mod raytracer;
