//! Value types shared by the kernels and the rasterizer.

pub mod color_scheme;
pub mod point;
pub mod precision_mode;
