//! Escape-time iteration kernels, one per fractal family.
//!
//! Each kernel is stated against [`iteration_count`], the escape time of an
//! orbit in the arithmetic of the type it is instantiated with.

use crate::fractals::fractal_float::FractalFloat;
use crate::fractals::fractal_float::MINUS_TWO_BITS;
use crate::fractals::fractal_float::ONE_BITS;
use crate::fractals::fractal_float::QUARTER_BITS;
use crate::fractals::fractal_float::SIXTEENTH_BITS;
use crate::fractals::fractal_type::FractalType;
use crate::utils::point::Point;
use vstd::prelude::*;

verus! {

// ============================================================================
// MODEL
// ============================================================================

/// The squared magnitude `x² + y²` of `z`.
pub open spec fn magnitude_squared<T: FractalFloat>(z: Point<T>) -> T {
    z.x.mul_spec(z.x).add_spec(z.y.mul_spec(z.y))
}

/// Whether `z` has left the disc of radius two: `x² + y² > 4`.
pub open spec fn escaped<T: FractalFloat>(z: Point<T>) -> bool {
    magnitude_squared(z).greater_than_spec(T::four_spec())
}

/// One application of the iterated map of `kind` to `z`, with constant `c`.
///
/// The real part is `x² − y² + cx` for every family. The imaginary part is
/// `2·x·y + cy` for Mandelbrot and Julia, `2·|x|·|y| + cy` for Burning Ship
/// and `−2·x·y + cy` for Tricorn.
pub open spec fn step<T: FractalFloat>(kind: FractalType, z: Point<T>, c: Point<T>) -> Point<T> {
    let re = z.x.mul_spec(z.x).sub_spec(z.y.mul_spec(z.y)).add_spec(c.x);
    let im = match kind {
        FractalType::Mandelbrot | FractalType::Julia => T::two_spec().mul_spec(z.x).mul_spec(
            z.y,
        ).add_spec(c.y),
        FractalType::BurningShip => T::two_spec().mul_spec(z.x.abs_spec()).mul_spec(
            z.y.abs_spec(),
        ).add_spec(c.y),
        FractalType::Tricorn => T::from_f64_spec(MINUS_TWO_BITS).mul_spec(z.x).mul_spec(
            z.y,
        ).add_spec(c.y),
    };
    Point { x: re, y: im }
}

/// The `n`-th point of the orbit that starts at `z0`.
pub open spec fn orbit<T: FractalFloat>(
    kind: FractalType,
    z0: Point<T>,
    c: Point<T>,
    n: nat,
) -> Point<T>
    decreases n,
{
    if n == 0 {
        z0
    } else {
        step(kind, orbit(kind, z0, c, (n - 1) as nat), c)
    }
}

/// The first index at or after `from` at which the orbit has escaped, or
/// `max` if there is none below `max`.
pub open spec fn first_escape<T: FractalFloat>(
    kind: FractalType,
    z0: Point<T>,
    c: Point<T>,
    from: nat,
    max: nat,
) -> nat
    decreases max - from,
{
    if from >= max {
        max
    } else if escaped(orbit(kind, z0, c, from)) {
        from
    } else {
        first_escape(kind, z0, c, from + 1, max)
    }
}

/// The escape time of the orbit from `z0`: the number of iterations completed
/// before the orbit first leaves the disc of radius two, or `max` if it stays
/// inside for `max` iterations.
pub open spec fn escape_time<T: FractalFloat>(
    kind: FractalType,
    z0: Point<T>,
    c: Point<T>,
    max: nat,
) -> nat {
    first_escape(kind, z0, c, 0, max)
}

/// Whether `p` passes the main-cardioid test `q·(q + (x − 0.25)) < 0.25·y²`
/// with `q = (x − 0.25)² + y²`.
pub open spec fn in_main_cardioid<T: FractalFloat>(p: Point<T>) -> bool {
    let quarter = T::from_f64_spec(QUARTER_BITS);
    let x_offset = p.x.sub_spec(quarter);
    let q = x_offset.mul_spec(x_offset).add_spec(p.y.mul_spec(p.y));
    quarter.mul_spec(p.y).mul_spec(p.y).greater_than_spec(q.mul_spec(q.add_spec(x_offset)))
}

/// Whether `p` passes the period-2 bulb test `(x + 1)² + y² < 0.0625`.
pub open spec fn in_period_two_bulb<T: FractalFloat>(p: Point<T>) -> bool {
    let x_plus_one = p.x.add_spec(T::from_f64_spec(ONE_BITS));
    T::from_f64_spec(SIXTEENTH_BITS).greater_than_spec(
        x_plus_one.mul_spec(x_plus_one).add_spec(p.y.mul_spec(p.y)),
    )
}

/// Whether `p` lies in the main cardioid or the period-2 bulb of the
/// Mandelbrot set, where no orbit escapes.
pub open spec fn mandelbrot_interior<T: FractalFloat>(p: Point<T>) -> bool {
    in_main_cardioid(p) || in_period_two_bulb(p)
}

/// The origin, where the orbits of all families but Julia start.
pub open spec fn origin<T: FractalFloat>() -> Point<T> {
    Point { x: T::zero_spec(), y: T::zero_spec() }
}

/// The Mandelbrot count of the pixel `p`: `max` at once for a point inside
/// the main cardioid or the period-2 bulb, else the escape time of the orbit
/// that starts at zero with `p` as the constant.
pub open spec fn mandelbrot_count<T: FractalFloat>(p: Point<T>, max: nat) -> nat {
    if mandelbrot_interior(p) {
        max
    } else {
        escape_time(FractalType::Mandelbrot, origin(), p, max)
    }
}

/// The Julia count of the pixel `p`: the escape time of the orbit that starts
/// at `p`, with the fixed constant `c`.
pub open spec fn julia_count<T: FractalFloat>(p: Point<T>, c: Point<T>, max: nat) -> nat {
    escape_time(FractalType::Julia, p, c, max)
}

/// The Burning Ship count of the pixel `p`: the escape time of the orbit that
/// starts at zero with `p` as the constant.
pub open spec fn burning_ship_count<T: FractalFloat>(p: Point<T>, max: nat) -> nat {
    escape_time(FractalType::BurningShip, origin(), p, max)
}

/// The Tricorn count of the pixel `p`: the escape time of the orbit that
/// starts at zero with `p` as the constant.
pub open spec fn tricorn_count<T: FractalFloat>(p: Point<T>, max: nat) -> nat {
    escape_time(FractalType::Tricorn, origin(), p, max)
}

/// The iteration count of the pixel `p` under the map of `kind`. The constant
/// `julia_c` counts only for the Julia kind.
pub open spec fn iteration_count<T: FractalFloat>(
    kind: FractalType,
    p: Point<T>,
    julia_c: Point<T>,
    max: nat,
) -> nat {
    match kind {
        FractalType::Mandelbrot => mandelbrot_count(p, max),
        FractalType::Julia => julia_count(p, julia_c, max),
        FractalType::BurningShip => burning_ship_count(p, max),
        FractalType::Tricorn => tricorn_count(p, max),
    }
}

// ============================================================================
// LAWS
// ============================================================================

/// A search for the first escape never returns less than where it started
/// (as long as that is within the budget) nor more than the budget.
pub proof fn lemma_first_escape_bounds<T: FractalFloat>(
    kind: FractalType,
    z0: Point<T>,
    c: Point<T>,
    from: nat,
    max: nat,
)
    requires
        from <= max,
    ensures
        from <= first_escape(kind, z0, c, from, max) <= max,
    decreases max - from,
{
    if from < max && !escaped(orbit(kind, z0, c, from)) {
        lemma_first_escape_bounds(kind, z0, c, from + 1, max);
    }
}

/// Bounded output: an iteration count never exceeds the iteration budget.
pub proof fn lemma_iteration_count_bounded<T: FractalFloat>(
    kind: FractalType,
    p: Point<T>,
    julia_c: Point<T>,
    max: nat,
)
    ensures
        0 <= iteration_count(kind, p, julia_c, max) <= max,
{
    lemma_first_escape_bounds(kind, origin(), p, 0, max);
    lemma_first_escape_bounds(kind, p, julia_c, 0, max);
}

/// Every Mandelbrot point inside the main cardioid or the period-2 bulb has
/// exactly the iteration budget as its count.
pub proof fn lemma_mandelbrot_interior_never_escapes<T: FractalFloat>(
    p: Point<T>,
    julia_c: Point<T>,
    max: nat,
)
    requires
        mandelbrot_interior(p),
    ensures
        iteration_count(FractalType::Mandelbrot, p, julia_c, max) == max,
{
}

/// What the escape time is: the orbit stays inside the disc at every index
/// below it, and has escaped at it unless the budget ran out.
pub proof fn lemma_escape_time_is_first_escape<T: FractalFloat>(
    kind: FractalType,
    z0: Point<T>,
    c: Point<T>,
    max: nat,
)
    ensures
        forall|k: nat|
            k < escape_time(kind, z0, c, max) ==> !escaped(#[trigger] orbit(kind, z0, c, k)),
        escape_time(kind, z0, c, max) < max ==> escaped(
            orbit(kind, z0, c, escape_time(kind, z0, c, max)),
        ),
{
    lemma_first_escape_characterised(kind, z0, c, 0, max);
}

/// The search from `from` passes only over indices at which the orbit is
/// still inside the disc, and stops at one where it has escaped unless it
/// reaches the budget.
pub proof fn lemma_first_escape_characterised<T: FractalFloat>(
    kind: FractalType,
    z0: Point<T>,
    c: Point<T>,
    from: nat,
    max: nat,
)
    requires
        from <= max,
    ensures
        forall|k: nat|
            from <= k < first_escape(kind, z0, c, from, max) ==> !escaped(
                #[trigger] orbit(kind, z0, c, k),
            ),
        first_escape(kind, z0, c, from, max) < max ==> escaped(
            orbit(kind, z0, c, first_escape(kind, z0, c, from, max)),
        ),
    decreases max - from,
{
    if from < max && !escaped(orbit(kind, z0, c, from)) {
        lemma_first_escape_characterised(kind, z0, c, from + 1, max);
    }
}

/// The constant `julia_c` counts only for the Julia kind: the counts of the
/// other kinds are the same whatever it is.
pub proof fn lemma_julia_constant_only_for_julia<T: FractalFloat>(
    kind: FractalType,
    p: Point<T>,
    first: Point<T>,
    second: Point<T>,
    max: nat,
)
    requires
        kind != FractalType::Julia,
    ensures
        iteration_count(kind, p, first, max) == iteration_count(kind, p, second, max),
{
}

/// A search with a smaller budget finds what the search with the larger
/// budget finds, cut off at the smaller budget.
pub proof fn lemma_first_escape_cut_off<T: FractalFloat>(
    kind: FractalType,
    z0: Point<T>,
    c: Point<T>,
    from: nat,
    small: nat,
    large: nat,
)
    requires
        from <= small <= large,
    ensures
        first_escape(kind, z0, c, from, small) == if first_escape(kind, z0, c, from, large)
            < small {
            first_escape(kind, z0, c, from, large)
        } else {
            small
        },
    decreases small - from,
{
    lemma_first_escape_bounds(kind, z0, c, from, large);
    if from < small && !escaped(orbit(kind, z0, c, from)) {
        lemma_first_escape_cut_off(kind, z0, c, from + 1, small, large);
    }
}

/// The iteration budget only cuts counts off: with a smaller budget a point
/// has the count that it has with the larger budget, or the smaller budget if
/// that count is not below it.
pub proof fn lemma_budget_cuts_count_off<T: FractalFloat>(
    kind: FractalType,
    p: Point<T>,
    julia_c: Point<T>,
    small: nat,
    large: nat,
)
    requires
        small <= large,
    ensures
        iteration_count(kind, p, julia_c, small) == if iteration_count(kind, p, julia_c, large)
            < small {
            iteration_count(kind, p, julia_c, large)
        } else {
            small
        },
{
    lemma_first_escape_cut_off(kind, origin(), p, 0, small, large);
    lemma_first_escape_cut_off(kind, p, julia_c, 0, small, large);
}

/// While the orbit is inside the disc, the search moves on by one index and
/// the orbit by one application of the map.
pub proof fn lemma_orbit_advances<T: FractalFloat>(
    kind: FractalType,
    z0: Point<T>,
    c: Point<T>,
    i: nat,
    max: nat,
)
    requires
        i < max,
        !escaped(orbit(kind, z0, c, i)),
    ensures
        first_escape(kind, z0, c, i, max) == first_escape(kind, z0, c, i + 1, max),
        orbit(kind, z0, c, i + 1) == step(kind, orbit(kind, z0, c, i), c),
{
}

// ============================================================================
// HELPER FUNCTIONS
// ============================================================================

/// Check if a point is in the main cardioid or period-2 bulb of the Mandelbrot set.
/// This early-out optimization skips a good part of the calculations.
#[inline(always)]
pub fn mandelbrot_early_out<T: FractalFloat>(cx: T, cy: T) -> (inside: bool)
    ensures
        inside == mandelbrot_interior(Point { x: cx, y: cy }),
{
    // Check main cardioid: q*(q + (x-0.25)) < 0.25*y^2 where q = (x-0.25)^2 + y^2
    let quarter = T::from_f64(QUARTER_BITS);
    let x_offset = cx.sub(&quarter);
    let q = x_offset.mul(&x_offset).add(&cy.mul(&cy));
    if quarter.mul(&cy).mul(&cy).greater_than(&q.mul(&q.add(&x_offset))) {
        return true;
    }

    // Check period-2 bulb: (x+1)^2 + y^2 < 0.0625
    let x_plus_one = cx.add(&T::from_f64(ONE_BITS));
    if T::from_f64(SIXTEENTH_BITS).greater_than(&x_plus_one.mul(&x_plus_one).add(&cy.mul(&cy))) {
        return true;
    }
    false
}

/// Runs the escape-time loop of `kind` from `z0` with constant `c`.
///
/// The loop is unrolled by hand, four iterations per pass, with a plain loop
/// for the last iterations (fewer than four).
#[inline(always)]
pub fn escape_iterations<T: FractalFloat>(
    kind: FractalType,
    z0: Point<T>,
    c: Point<T>,
    max_iteration: u16,
) -> (iterations: u16)
    ensures
        iterations == escape_time(kind, z0, c, max_iteration as nat),
        iterations <= max_iteration,
{
    let ghost max = max_iteration as nat;
    let mut z = z0;
    let mut iterations: u16 = 0;

    while max_iteration - iterations >= 4
        invariant
            iterations <= max_iteration,
            max == max_iteration,
            z == orbit(kind, z0, c, iterations as nat),
            first_escape(kind, z0, c, iterations as nat, max) == escape_time(kind, z0, c, max),
        decreases max_iteration - iterations,
    {
        // Iteration 1
        if has_escaped(&z) {
            break;
        }
        proof {
            lemma_orbit_advances(kind, z0, c, iterations as nat, max);
        }
        z = advance(kind, &z, &c);
        iterations += 1;

        // Iteration 2
        if has_escaped(&z) {
            break;
        }
        proof {
            lemma_orbit_advances(kind, z0, c, iterations as nat, max);
        }
        z = advance(kind, &z, &c);
        iterations += 1;

        // Iteration 3
        if has_escaped(&z) {
            break;
        }
        proof {
            lemma_orbit_advances(kind, z0, c, iterations as nat, max);
        }
        z = advance(kind, &z, &c);
        iterations += 1;

        // Iteration 4
        if has_escaped(&z) {
            break;
        }
        proof {
            lemma_orbit_advances(kind, z0, c, iterations as nat, max);
        }
        z = advance(kind, &z, &c);
        iterations += 1;
    }

    // Handle remaining iterations (< 4)
    while iterations < max_iteration
        invariant
            iterations <= max_iteration,
            max == max_iteration,
            z == orbit(kind, z0, c, iterations as nat),
            first_escape(kind, z0, c, iterations as nat, max) == escape_time(kind, z0, c, max),
        ensures
            iterations <= max_iteration,
            iterations == escape_time(kind, z0, c, max),
        decreases max_iteration - iterations,
    {
        if has_escaped(&z) {
            break;
        }
        proof {
            lemma_orbit_advances(kind, z0, c, iterations as nat, max);
        }
        z = advance(kind, &z, &c);
        iterations += 1;
    }

    iterations
}

/// Tests whether `z` has left the disc of radius two.
#[inline(always)]
pub fn has_escaped<T: FractalFloat>(z: &Point<T>) -> (out: bool)
    ensures
        out == escaped(*z),
{
    let x2 = z.x.mul(&z.x);
    let y2 = z.y.mul(&z.y);
    x2.add(&y2).greater_than(&T::four())
}

/// Applies the map of `kind` once: `z ← z² + c` in the family's form.
#[inline(always)]
pub fn advance<T: FractalFloat>(kind: FractalType, z: &Point<T>, c: &Point<T>) -> (next: Point<T>)
    ensures
        next == step(kind, *z, *c),
{
    let x2 = z.x.mul(&z.x);
    let y2 = z.y.mul(&z.y);
    let re = x2.sub(&y2).add(&c.x);
    let im = match kind {
        FractalType::Mandelbrot | FractalType::Julia => T::two().mul(&z.x).mul(&z.y).add(&c.y),
        FractalType::BurningShip => T::two().mul(&z.x.abs()).mul(&z.y.abs()).add(&c.y),
        FractalType::Tricorn => T::from_f64(MINUS_TWO_BITS).mul(&z.x).mul(&z.y).add(&c.y),
    };
    Point { x: re, y: im }
}

// ============================================================================
// KERNELS
// ============================================================================

/// Mandelbrot iteration kernel.
/// Features: loop unrolling, early bailout, cardioid checking.
#[inline(always)]
pub fn mandelbrot_iterations<T: FractalFloat>(cx: T, cy: T, max_iteration: u16) -> (iterations: u16)
    ensures
        iterations == mandelbrot_count(Point { x: cx, y: cy }, max_iteration as nat),
        iterations <= max_iteration,
        mandelbrot_interior(Point { x: cx, y: cy }) ==> iterations == max_iteration,
{
    // Early exit for points in main set components
    if mandelbrot_early_out(cx, cy) {
        return max_iteration;
    }
    let zero = Point { x: T::zero(), y: T::zero() };
    escape_iterations(FractalType::Mandelbrot, zero, Point { x: cx, y: cy }, max_iteration)
}

/// Julia iteration kernel: the orbit starts at `(zx, zy)` and the constant of
/// the map is `c`.
#[inline(always)]
pub fn julia_iterations<T: FractalFloat>(
    zx: T,
    zy: T,
    max_iteration: u16,
    c: &Point<T>,
) -> (iterations: u16)
    ensures
        iterations == julia_count(Point { x: zx, y: zy }, *c, max_iteration as nat),
        iterations <= max_iteration,
{
    escape_iterations(FractalType::Julia, Point { x: zx, y: zy }, *c, max_iteration)
}

/// Burning Ship iteration kernel.
#[inline(always)]
pub fn burning_ship_iterations<T: FractalFloat>(
    cx: T,
    cy: T,
    max_iteration: u16,
) -> (iterations: u16)
    ensures
        iterations == burning_ship_count(Point { x: cx, y: cy }, max_iteration as nat),
        iterations <= max_iteration,
{
    let zero = Point { x: T::zero(), y: T::zero() };
    escape_iterations(FractalType::BurningShip, zero, Point { x: cx, y: cy }, max_iteration)
}

/// Tricorn iteration kernel.
#[inline(always)]
pub fn tricorn_iterations<T: FractalFloat>(cx: T, cy: T, max_iteration: u16) -> (iterations: u16)
    ensures
        iterations == tricorn_count(Point { x: cx, y: cy }, max_iteration as nat),
        iterations <= max_iteration,
{
    let zero = Point { x: T::zero(), y: T::zero() };
    escape_iterations(FractalType::Tricorn, zero, Point { x: cx, y: cy }, max_iteration)
}

} // verus!
