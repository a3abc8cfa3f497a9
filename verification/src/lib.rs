//! Escape-time fractal engine: iteration kernels for the Mandelbrot, Julia,
//! Burning Ship and Tricorn maps, batched kernels that advance several points
//! in lock-step, and a rasterizer that turns iteration counts into RGBA bytes.
//!
//! The kernels are written once against the numeric capability
//! [`fractals::fractal_float::FractalFloat`] and are instantiated by the caller
//! for each arithmetic width.

pub mod fractals;
pub mod render;
pub mod utils;
