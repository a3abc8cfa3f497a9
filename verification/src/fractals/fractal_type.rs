use crate::fractals::fractal_float::FractalFloat;
use crate::fractals::fractal_float::MINUS_HALF_BITS;
use crate::fractals::fractal_kernels::burning_ship_iterations;
use crate::fractals::fractal_kernels::iteration_count;
use crate::fractals::fractal_kernels::julia_iterations;
use crate::fractals::fractal_kernels::mandelbrot_iterations;
use crate::fractals::fractal_kernels::tricorn_iterations;
use crate::utils::point::Point;
use crate::utils::precision_mode::Arithmetic;
use crate::utils::precision_mode::PrecisionMode;
use vstd::prelude::*;

verus! {

/// Represents the type of fractal to be generated.
#[derive(Clone, Copy, Debug, PartialEq, Eq, Structural)]
pub enum FractalType {
    Mandelbrot,
    Julia,
    BurningShip,
    Tricorn,
}

impl FractalType {
    /// The display name of each fractal type.
    pub open spec fn name_spec(self) -> Seq<char> {
        match self {
            FractalType::Mandelbrot => "Mandelbrot Set"@,
            FractalType::Julia => "Julia Set"@,
            FractalType::BurningShip => "Burning Ship"@,
            FractalType::Tricorn => "Tricorn"@,
        }
    }

    /// The point on which the view of each fractal type is centered at first.
    pub open spec fn default_center_spec<T: FractalFloat>(self) -> Point<T> {
        match self {
            FractalType::Mandelbrot => Point {
                x: T::from_f64_spec(MINUS_HALF_BITS),
                y: T::zero_spec(),
            },
            FractalType::Julia | FractalType::Tricorn => Point {
                x: T::zero_spec(),
                y: T::zero_spec(),
            },
            FractalType::BurningShip => Point {
                x: T::from_f64_spec(MINUS_HALF_BITS),
                y: T::from_f64_spec(MINUS_HALF_BITS),
            },
        }
    }

    /// The iteration count of the point `p` at the given precision: the count
    /// in the arithmetic that stands behind the mode, of the point and the
    /// Julia constant converted to that arithmetic. The mode changes nothing
    /// but the arithmetic.
    pub open spec fn iterations_spec<A: Arithmetic>(
        self,
        p: Point<u64>,
        julia_c: Point<u64>,
        max: nat,
        precision: PrecisionMode,
    ) -> nat {
        match precision {
            PrecisionMode::Fast => iteration_count::<A::Fast>(
                self,
                converted(p),
                converted(julia_c),
                max,
            ),
            PrecisionMode::High => iteration_count::<A::High>(
                self,
                converted(p),
                converted(julia_c),
                max,
            ),
            PrecisionMode::UltraHigh => iteration_count::<A::UltraHigh>(
                self,
                converted(p),
                converted(julia_c),
                max,
            ),
        }
    }

    /// Returns the number of iterations with specified precision mode.
    ///
    /// The point `(cx, cy)` and the constant `julia_c` are binary64 numbers,
    /// given by their bits. `julia_c` is consulted only for the Julia kind.
    #[inline]
    pub fn iterations<A: Arithmetic>(
        &self,
        cx: u64,
        cy: u64,
        max_iteration: u16,
        julia_c: &Point<u64>,
        precision: PrecisionMode,
    ) -> (count: u16)
        ensures
            count == self.iterations_spec::<A>(
                Point { x: cx, y: cy },
                *julia_c,
                max_iteration as nat,
                precision,
            ),
            count <= max_iteration,
    {
        let p = Point { x: cx, y: cy };
        match precision {
            PrecisionMode::Fast => {
                let p = convert::<A::Fast>(&p);
                self.iterations_in(p.x, p.y, max_iteration, &convert::<A::Fast>(julia_c))
            },
            PrecisionMode::High => {
                let p = convert::<A::High>(&p);
                self.iterations_in(p.x, p.y, max_iteration, &convert::<A::High>(julia_c))
            },
            PrecisionMode::UltraHigh => {
                let p = convert::<A::UltraHigh>(&p);
                self.iterations_in(p.x, p.y, max_iteration, &convert::<A::UltraHigh>(julia_c))
            },
        }
    }

    /// Returns the number of iterations after which the orbit of the point
    /// `(cx, cy)` escapes under this fractal's map in the arithmetic `T`, or
    /// `max_iteration` if it does not escape within that budget. `julia_c` is
    /// consulted only for the Julia kind.
    #[inline]
    pub fn iterations_in<T: FractalFloat>(
        &self,
        cx: T,
        cy: T,
        max_iteration: u16,
        julia_c: &Point<T>,
    ) -> (count: u16)
        ensures
            count == iteration_count(*self, Point { x: cx, y: cy }, *julia_c, max_iteration as nat),
            count <= max_iteration,
    {
        match self {
            FractalType::Mandelbrot => mandelbrot_iterations(cx, cy, max_iteration),
            FractalType::Julia => julia_iterations(cx, cy, max_iteration, julia_c),
            FractalType::BurningShip => burning_ship_iterations(cx, cy, max_iteration),
            FractalType::Tricorn => tricorn_iterations(cx, cy, max_iteration),
        }
    }

    /// Returns the name of the fractal type
    #[inline]
    #[must_use]
    pub fn name(&self) -> (s: &'static str)
        ensures
            s@ == self.name_spec(),
    {
        match self {
            FractalType::Mandelbrot => "Mandelbrot Set",
            FractalType::Julia => "Julia Set",
            FractalType::BurningShip => "Burning Ship",
            FractalType::Tricorn => "Tricorn",
        }
    }

    /// Returns the default center point for the fractal type
    #[inline]
    pub fn default_center<T: FractalFloat>(&self) -> (center: Point<T>)
        ensures
            center == self.default_center_spec::<T>(),
    {
        match self {
            FractalType::Mandelbrot => Point::new(T::from_f64(MINUS_HALF_BITS), T::zero()),
            FractalType::Julia | FractalType::Tricorn => Point::new(T::zero(), T::zero()),
            FractalType::BurningShip => Point::new(
                T::from_f64(MINUS_HALF_BITS),
                T::from_f64(MINUS_HALF_BITS),
            ),
        }
    }
}

/// The point of the arithmetic `T` that stands for a point of binary64
/// coordinates, given by their bits.
pub open spec fn converted<T: FractalFloat>(p: Point<u64>) -> Point<T> {
    Point { x: T::from_f64_spec(p.x), y: T::from_f64_spec(p.y) }
}

/// Converts a point of binary64 coordinates, given by their bits, to the
/// arithmetic `T`.
pub fn convert<T: FractalFloat>(p: &Point<u64>) -> (q: Point<T>)
    ensures
        q == converted::<T>(*p),
{
    Point { x: T::from_f64(p.x), y: T::from_f64(p.y) }
}

} // verus!
