use crate::fractals::fractal_float::FractalFloat;
use vstd::prelude::*;

verus! {

/// The numeric width used for iteration. Selecting a mode never changes the
/// iteration rule, only the arithmetic type the kernels are instantiated with.
#[derive(Clone, Copy, Debug, PartialEq, Eq, Structural)]
pub enum PrecisionMode {
    /// 32-bit arithmetic: standard precision, fastest.
    Fast,
    /// 64-bit arithmetic: double precision.
    High,
    /// 128-bit decimal arithmetic for extreme zooms.
    UltraHigh,
}

/// The arithmetic types that stand behind the precision modes.
pub trait Arithmetic {
    /// The arithmetic of [`PrecisionMode::Fast`].
    type Fast: FractalFloat;

    /// The arithmetic of [`PrecisionMode::High`].
    type High: FractalFloat;

    /// The arithmetic of [`PrecisionMode::UltraHigh`].
    type UltraHigh: FractalFloat;
}

} // verus!
