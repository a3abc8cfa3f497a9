//! Fractal families and their iteration kernels.

pub mod fractal_float;
pub mod fractal_kernels;
pub mod fractal_simd;
pub mod fractal_type;
