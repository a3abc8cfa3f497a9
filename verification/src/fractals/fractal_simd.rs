//! Batched iteration kernels.
//!
//! A batch advances `N` points in lock-step. Beside the numeric state of each
//! lane it carries a flag that tells whether the lane is still active, and the
//! whole batch stops as soon as no lane is.
//!
//! Batching changes how fast a count is found, never the count: each lane of
//! a batched kernel returns what the scalar kernel returns for that point.

use crate::fractals::fractal_float::FractalFloat;
use crate::fractals::fractal_kernels::advance;
use crate::fractals::fractal_kernels::burning_ship_count;
use crate::fractals::fractal_kernels::escape_time;
use crate::fractals::fractal_kernels::first_escape;
use crate::fractals::fractal_kernels::has_escaped;
use crate::fractals::fractal_kernels::iteration_count;
use crate::fractals::fractal_kernels::julia_count;
use crate::fractals::fractal_kernels::lemma_first_escape_bounds;
use crate::fractals::fractal_kernels::lemma_orbit_advances;
use crate::fractals::fractal_kernels::mandelbrot_count;
use crate::fractals::fractal_kernels::mandelbrot_early_out;
use crate::fractals::fractal_kernels::mandelbrot_interior;
use crate::fractals::fractal_kernels::orbit;
use crate::fractals::fractal_kernels::tricorn_count;
use crate::fractals::fractal_type::FractalType;
use crate::utils::point::Point;
use vstd::prelude::*;

verus! {

/// The number of lanes of a batch at narrow (32-bit) precision.
pub const NARROW_LANES: usize = 4;

/// The number of lanes of a batch at wide (64-bit) precision.
pub const WIDE_LANES: usize = 2;

/// The number of lanes for a precision without batched arithmetic: with no
/// lanes, every point goes through the scalar kernels.
pub const SCALAR_ONLY: usize = 0;

/// What a lane holds when the batch is done: the escape time of its orbit if
/// the lane was active at the start, else the count it was settled with.
pub open spec fn lane_result<T: FractalFloat>(
    kind: FractalType,
    start: Point<T>,
    c: Point<T>,
    settled: u16,
    active: bool,
    max: nat,
) -> nat {
    if active {
        escape_time(kind, start, c, max)
    } else {
        settled as nat
    }
}

/// The reduction that ends a batch: tells whether any lane is still active.
pub fn any_active<const N: usize>(active: &[bool; N]) -> (any: bool)
    ensures
        any == exists|i: int| 0 <= i < N && active@[i],
{
    let mut i: usize = 0;
    while i < N
        invariant
            i <= N,
            forall|j: int| 0 <= j < i ==> !active@[j],
        decreases N - i,
    {
        if active[i] {
            return true;
        }
        i += 1;
    }
    false
}

/// Puts two arrays of coordinates together, lane by lane.
pub fn pair_lanes<T: FractalFloat, const N: usize>(
    xs: &[T; N],
    ys: &[T; N],
) -> (points: [Point<T>; N])
    ensures
        forall|i: int| 0 <= i < N ==> #[trigger] points@[i] == (Point { x: xs@[i], y: ys@[i] }),
{
    let mut points: [Point<T>; N] = [Point { x: T::zero(), y: T::zero() };N];
    let mut i: usize = 0;
    while i < N
        invariant
            i <= N,
            forall|j: int| 0 <= j < i ==> #[trigger] points@[j] == (Point { x: xs@[j], y: ys@[j] }),
        decreases N - i,
    {
        points[i] = Point { x: xs[i], y: ys[i] };
        i += 1;
    }
    points
}

/// What holds of lane `j` during iteration `iter` of the batch, when the lanes
/// below `done` have been advanced in it. With `k` the number of times that
/// lane `j` has been advanced: its position is the `k`-th point of its orbit;
/// if it is still active, its orbit has not escaped before index `k`; if it
/// is not, its count is final.
spec fn lane_invariant<T: FractalFloat>(
    kind: FractalType,
    start: Seq<Point<T>>,
    c: Seq<Point<T>>,
    settled: Seq<u16>,
    active_at_start: Seq<bool>,
    z: Seq<Point<T>>,
    active: Seq<bool>,
    iterations: Seq<u16>,
    iter: nat,
    done: int,
    max: nat,
    j: int,
) -> bool {
    let k = if j < done {
        iter + 1
    } else {
        iter
    };
    &&& z[j] == orbit(kind, start[j], c[j], k)
    &&& active[j] ==> active_at_start[j] && first_escape(kind, start[j], c[j], k, max)
        == escape_time(kind, start[j], c[j], max)
    &&& !active[j] ==> iterations[j] == lane_result(
        kind,
        start[j],
        c[j],
        settled[j],
        active_at_start[j],
        max,
    )
}

/// What holds of lane `j` while the counts of the lanes that outlasted the
/// budget are filled in, lanes below `done` first.
spec fn lane_settled<T: FractalFloat>(
    kind: FractalType,
    start: Seq<Point<T>>,
    c: Seq<Point<T>>,
    settled: Seq<u16>,
    active_at_start: Seq<bool>,
    active: Seq<bool>,
    iterations: Seq<u16>,
    done: int,
    max: nat,
    j: int,
) -> bool {
    &&& active[j] ==> active_at_start[j] && escape_time(kind, start[j], c[j], max) == max
    &&& (j < done || !active[j]) ==> iterations[j] == lane_result(
        kind,
        start[j],
        c[j],
        settled[j],
        active_at_start[j],
        max,
    )
}

/// Advances all lanes in lock-step until every lane is inactive or the
/// iteration budget is used up.
///
/// A lane that is inactive at the start keeps the count in `settled`. An
/// active lane is deactivated at the iteration at which its orbit is found
/// outside the disc of radius two, and that iteration's index is its count;
/// one that is still active when the budget is used up gets `max_iteration`.
/// The positions of inactive lanes are still updated: their values are of no
/// consequence.
pub fn iterate_lanes<T: FractalFloat, const N: usize>(
    kind: FractalType,
    start: &[Point<T>; N],
    c: &[Point<T>; N],
    settled: [u16; N],
    active_at_start: [bool; N],
    max_iteration: u16,
) -> (iterations: [u16; N])
    ensures
        forall|i: int|
            0 <= i < N ==> #[trigger] iterations@[i] == lane_result(
                kind,
                start@[i],
                c@[i],
                settled@[i],
                active_at_start@[i],
                max_iteration as nat,
            ),
{
    let ghost max = max_iteration as nat;
    let mut z: [Point<T>; N] = *start;
    let mut iterations: [u16; N] = settled;
    let mut active: [bool; N] = active_at_start;
    let mut iter: u16 = 0;

    while iter < max_iteration && any_active(&active)
        invariant
            iter <= max_iteration,
            max == max_iteration,
            forall|j: int|
                0 <= j < N ==> #[trigger] lane_invariant(
                    kind,
                    start@,
                    c@,
                    settled@,
                    active_at_start@,
                    z@,
                    active@,
                    iterations@,
                    iter as nat,
                    0,
                    max,
                    j,
                ),
        decreases max_iteration - iter,
    {
        let mut i: usize = 0;
        while i < N
            invariant
                i <= N,
                iter < max_iteration,
                max == max_iteration,
                forall|j: int|
                    0 <= j < N ==> #[trigger] lane_invariant(
                        kind,
                        start@,
                        c@,
                        settled@,
                        active_at_start@,
                        z@,
                        active@,
                        iterations@,
                        iter as nat,
 i as int,
                        max,
                        j,
                    ),
            decreases N - i,
        {
            let ghost z_before = z@;
            let ghost active_before = active@;
            let ghost iterations_before = iterations@;
            // Check escape condition for this lane
            if active[i] && has_escaped(&z[i]) {
                iterations[i] = iter;
                active[i] = false;
            }
            // z = z² + c
            z[i] = advance(kind, &z[i], &c[i]);
            let ghost lane = i as int;
            i += 1;
            proof {
                assert(lane_invariant(
                    kind,
                    start@,
                    c@,
                    settled@,
                    active_at_start@,
                    z_before,
                    active_before,
                    iterations_before,
                    iter as nat,
                    lane,
                    max,
                    lane,
                ));
                if active@[lane] {
                    lemma_orbit_advances(kind, start@[lane], c@[lane], iter as nat, max);
                }
                assert forall|j: int| 0 <= j < N implies #[trigger] lane_invariant(
                    kind,
                    start@,
                    c@,
                    settled@,
                    active_at_start@,
                    z@,
                    active@,
                    iterations@,
                    iter as nat,
                    i as int,
                    max,
                    j,
                ) by {
                    assert(lane_invariant(
                        kind,
                        start@,
                        c@,
                        settled@,
                        active_at_start@,
                        z_before,
                        active_before,
                        iterations_before,
                        iter as nat,
                        lane,
                        max,
                        j,
                    ));
                }
            }
        }
        let ghost before = iter as nat;
        iter += 1;
        proof {
            assert forall|j: int| 0 <= j < N implies #[trigger] lane_invariant(
                kind,
                start@,
                c@,
                settled@,
                active_at_start@,
                z@,
                active@,
                iterations@,
                iter as nat,
                0,
                max,
                j,
            ) by {
                assert(lane_invariant(
                    kind,
                    start@,
                    c@,
                    settled@,
                    active_at_start@,
                    z@,
                    active@,
                    iterations@,
                    before,
                    N as int,
                    max,
                    j,
                ));
            }
        }
    }

    proof {
        assert forall|j: int| 0 <= j < N implies #[trigger] lane_settled(
            kind,
            start@,
            c@,
            settled@,
            active_at_start@,
            active@,
            iterations@,
            0,
            max,
            j,
        ) by {
            assert(lane_invariant(
                kind,
                start@,
                c@,
                settled@,
                active_at_start@,
                z@,
                active@,
                iterations@,
                iter as nat,
                0,
                max,
                j,
            ));
        }
    }

    // Set remaining active lanes to max_iteration
    let mut i: usize = 0;
    while i < N
        invariant
            i <= N,
            max == max_iteration,
            forall|j: int|
                0 <= j < N ==> #[trigger] lane_settled(
                    kind,
                    start@,
                    c@,
                    settled@,
                    active_at_start@,
                    active@,
                    iterations@,
                    i as int,
                    max,
                    j,
                ),
        decreases N - i,
    {
        let ghost iterations_before = iterations@;
        if active[i] {
            iterations[i] = max_iteration;
        }
        proof {
            assert forall|j: int| 0 <= j < N implies #[trigger] lane_settled(
                kind,
                start@,
                c@,
                settled@,
                active_at_start@,
                active@,
                iterations@,
                i + 1,
                max,
                j,
            ) by {
                assert(lane_settled(
                    kind,
                    start@,
                    c@,
                    settled@,
                    active_at_start@,
                    active@,
                    iterations_before,
                    i as int,
                    max,
                    j,
                ));
            }
        }
        i += 1;
    }

    proof {
        assert forall|j: int| 0 <= j < N implies #[trigger] iterations@[j] == lane_result(
            kind,
            start@[j],
            c@[j],
            settled@[j],
            active_at_start@[j],
            max,
        ) by {
            assert(lane_settled(
                kind,
                start@,
                c@,
                settled@,
                active_at_start@,
                active@,
                iterations@,
                N as int,
                max,
                j,
            ));
        }
    }
    iterations
}

/// What holds of lane `j` when the lanes below `done` have had their
/// early-out test: a lane that has had it is inactive exactly if its point
/// lies in the main cardioid or the period-2 bulb, and then its count is the
/// iteration budget; a lane that has not is active.
spec fn lane_screened<T: FractalFloat>(
    cx: Seq<T>,
    cy: Seq<T>,
    active: Seq<bool>,
    iterations: Seq<u16>,
    done: int,
    max: nat,
    j: int,
) -> bool {
    if j < done {
        &&& active[j] == !mandelbrot_interior(Point { x: cx[j], y: cy[j] })
        &&& !active[j] ==> iterations[j] == max
    } else {
        active[j]
    }
}

// ============================================================================
// MANDELBROT BATCHED KERNEL
// ============================================================================

/// Batched Mandelbrot kernel processing `N` points simultaneously.
///
/// Returns, lane by lane, the count that the scalar kernel gives for that
/// point. A batch whose lanes all lie in the main cardioid or the period-2
/// bulb is answered before the iteration loop is entered.
#[inline(always)]
pub fn mandelbrot_simd<T: FractalFloat, const N: usize>(
    cx: &[T; N],
    cy: &[T; N],
    max_iteration: u16,
) -> (iterations: [u16; N])
    ensures
        forall|i: int|
            0 <= i < N ==> #[trigger] iterations@[i] == mandelbrot_count(
                Point { x: cx@[i], y: cy@[i] },
                max_iteration as nat,
            ),
        forall|i: int| 0 <= i < N ==> #[trigger] iterations@[i] <= max_iteration,
        forall|i: int|
            0 <= i < N && mandelbrot_interior(Point { x: cx@[i], y: cy@[i] })
                ==> #[trigger] iterations@[i] == max_iteration,
{
    let ghost max = max_iteration as nat;
    let mut iterations: [u16; N] = [0u16;N];
    let mut active_mask: [bool; N] = [true;N];

    // Early exit checks for each pixel
    let mut i: usize = 0;
    while i < N
        invariant
            i <= N,
            max == max_iteration,
            forall|j: int|
                0 <= j < N ==> #[trigger] lane_screened(
                    cx@,
                    cy@,
                    active_mask@,
                    iterations@,
                    i as int,
                    max,
                    j,
                ),
        decreases N - i,
    {
        let ghost active_before = active_mask@;
        let ghost iterations_before = iterations@;
        let ghost lane = i as int;
        if mandelbrot_early_out(cx[i], cy[i]) {
            iterations[i] = max_iteration;
            active_mask[i] = false;
        }
        i += 1;
        proof {
            assert forall|j: int| 0 <= j < N implies #[trigger] lane_screened(
                cx@,
                cy@,
                active_mask@,
                iterations@,
                i as int,
                max,
                j,
            ) by {
                assert(lane_screened(cx@, cy@, active_before, iterations_before, lane, max, j));
            }
        }
    }

    if !any_active(&active_mask) {
        proof {
            assert forall|j: int| 0 <= j < N implies #[trigger] iterations@[j] == mandelbrot_count(
                Point { x: cx@[j], y: cy@[j] },
                max,
            ) && iterations@[j] <= max_iteration by {
                assert(lane_screened(cx@, cy@, active_mask@, iterations@, N as int, max, j));
            }
        }
        return iterations;
    }
    let c = pair_lanes(cx, cy);
    let zero = Point { x: T::zero(), y: T::zero() };
    let start: [Point<T>; N] = [zero;N];
    let counts = iterate_lanes(
        FractalType::Mandelbrot,
        &start,
        &c,
        iterations,
        active_mask,
        max_iteration,
    );
    proof {
        assert forall|j: int| 0 <= j < N implies #[trigger] counts@[j] == mandelbrot_count(
            Point { x: cx@[j], y: cy@[j] },
            max,
        ) && counts@[j] <= max_iteration by {
            assert(lane_screened(cx@, cy@, active_mask@, iterations@, N as int, max, j));
            lemma_first_escape_bounds(FractalType::Mandelbrot, start@[j], c@[j], 0, max);
        }
    }
    counts
}

/// Runs the batched escape-time loop of `kind` with every lane active.
fn iterate_all_lanes<T: FractalFloat, const N: usize>(
    kind: FractalType,
    start: &[Point<T>; N],
    c: &[Point<T>; N],
    max_iteration: u16,
) -> (iterations: [u16; N])
    ensures
        forall|i: int|
            0 <= i < N ==> #[trigger] iterations@[i] == escape_time(
                kind,
                start@[i],
                c@[i],
                max_iteration as nat,
            ) && iterations@[i] <= max_iteration,
{
    let settled: [u16; N] = [0u16;N];
    let active_mask: [bool; N] = [true;N];
    let counts = iterate_lanes(kind, start, c, settled, active_mask, max_iteration);
    proof {
        assert forall|j: int| 0 <= j < N implies #[trigger] counts@[j] == escape_time(
            kind,
            start@[j],
            c@[j],
            max_iteration as nat,
        ) && counts@[j] <= max_iteration by {
            lemma_first_escape_bounds(kind, start@[j], c@[j], 0, max_iteration as nat);
        }
    }
    counts
}

// ============================================================================
// JULIA BATCHED KERNEL
// ============================================================================

/// Batched Julia kernel processing `N` points simultaneously: lane `i`'s
/// orbit starts at `(zx[i], zy[i])`, and `(cx, cy)` is the constant of the map
/// for all lanes.
#[inline(always)]
pub fn julia_simd<T: FractalFloat, const N: usize>(
    zx: &[T; N],
    zy: &[T; N],
    cx: T,
    cy: T,
    max_iteration: u16,
) -> (iterations: [u16; N])
    ensures
        forall|i: int|
            0 <= i < N ==> #[trigger] iterations@[i] == julia_count(
                Point { x: zx@[i], y: zy@[i] },
                Point { x: cx, y: cy },
                max_iteration as nat,
            ),
        forall|i: int| 0 <= i < N ==> #[trigger] iterations@[i] <= max_iteration,
{
    let start = pair_lanes(zx, zy);
    let c: [Point<T>; N] = [Point { x: cx, y: cy };N];
    iterate_all_lanes(FractalType::Julia, &start, &c, max_iteration)
}

// ============================================================================
// BURNING SHIP BATCHED KERNEL
// ============================================================================

/// Batched Burning Ship kernel processing `N` points simultaneously.
#[inline(always)]
pub fn burning_ship_simd<T: FractalFloat, const N: usize>(
    cx: &[T; N],
    cy: &[T; N],
    max_iteration: u16,
) -> (iterations: [u16; N])
    ensures
        forall|i: int|
            0 <= i < N ==> #[trigger] iterations@[i] == burning_ship_count(
                Point { x: cx@[i], y: cy@[i] },
                max_iteration as nat,
            ),
        forall|i: int| 0 <= i < N ==> #[trigger] iterations@[i] <= max_iteration,
{
    let c = pair_lanes(cx, cy);
    let start: [Point<T>; N] = [Point { x: T::zero(), y: T::zero() };N];
    iterate_all_lanes(FractalType::BurningShip, &start, &c, max_iteration)
}

// ============================================================================
// TRICORN BATCHED KERNEL
// ============================================================================

/// Batched Tricorn kernel processing `N` points simultaneously.
#[inline(always)]
pub fn tricorn_simd<T: FractalFloat, const N: usize>(
    cx: &[T; N],
    cy: &[T; N],
    max_iteration: u16,
) -> (iterations: [u16; N])
    ensures
        forall|i: int|
            0 <= i < N ==> #[trigger] iterations@[i] == tricorn_count(
                Point { x: cx@[i], y: cy@[i] },
                max_iteration as nat,
            ),
        forall|i: int| 0 <= i < N ==> #[trigger] iterations@[i] <= max_iteration,
{
    let c = pair_lanes(cx, cy);
    let start: [Point<T>; N] = [Point { x: T::zero(), y: T::zero() };N];
    iterate_all_lanes(FractalType::Tricorn, &start, &c, max_iteration)
}

// ============================================================================
// DISPATCH
// ============================================================================

/// Returns the iteration counts of `N` points under the map of `kind`,
/// through the batched kernel of that kind. Lane by lane the counts are those
/// of the scalar kernels. `julia_c` is consulted only for the Julia kind.
#[inline]
pub fn iterations_simd<T: FractalFloat, const N: usize>(
    kind: FractalType,
    cx: &[T; N],
    cy: &[T; N],
    max_iteration: u16,
    julia_c: &Point<T>,
) -> (iterations: [u16; N])
    ensures
        forall|i: int|
            0 <= i < N ==> #[trigger] iterations@[i] == iteration_count(
                kind,
                Point { x: cx@[i], y: cy@[i] },
                *julia_c,
                max_iteration as nat,
            ),
        forall|i: int| 0 <= i < N ==> #[trigger] iterations@[i] <= max_iteration,
{
    match kind {
        FractalType::Mandelbrot => mandelbrot_simd(cx, cy, max_iteration),
        FractalType::Julia => julia_simd(cx, cy, julia_c.x, julia_c.y, max_iteration),
        FractalType::BurningShip => burning_ship_simd(cx, cy, max_iteration),
        FractalType::Tricorn => tricorn_simd(cx, cy, max_iteration),
    }
}

// ============================================================================
// LAWS
// ============================================================================

/// Scalar/batch equivalence: whatever the points, the count that a batched
/// kernel returns for a lane is the count that the scalar kernel returns for
/// that lane's point. Stated of any results that meet the two kernels'
/// contracts for the same budget.
pub proof fn lemma_batch_equals_scalar<T: FractalFloat, const N: usize>(
    kind: FractalType,
    cx: [T; N],
    cy: [T; N],
    julia_c: Point<T>,
    max_iteration: u16,
    batch: [u16; N],
    scalar: Seq<u16>,
)
    requires
        scalar.len() == N,
        forall|i: int|
            0 <= i < N ==> #[trigger] batch@[i] == iteration_count(
                kind,
                Point { x: cx@[i], y: cy@[i] },
                julia_c,
                max_iteration as nat,
            ),
        forall|i: int|
            0 <= i < N ==> #[trigger] scalar[i] == iteration_count(
                kind,
                Point { x: cx@[i], y: cy@[i] },
                julia_c,
                max_iteration as nat,
            ),
    ensures
        batch@ == scalar,
{
    assert(batch@ =~= scalar);
}

/// Early-out for a whole batch: where every lane's point lies in the main
/// cardioid or the period-2 bulb, every lane's Mandelbrot count is the
/// iteration budget.
pub proof fn lemma_interior_batch_returns_budget<T: FractalFloat, const N: usize>(
    cx: [T; N],
    cy: [T; N],
    max_iteration: u16,
    batch: [u16; N],
)
    requires
        forall|i: int|
            0 <= i < N ==> mandelbrot_interior(Point { x: #[trigger] cx@[i], y: cy@[i] }),
        forall|i: int|
            0 <= i < N ==> #[trigger] batch@[i] == mandelbrot_count(
                Point { x: cx@[i], y: cy@[i] },
                max_iteration as nat,
            ),
    ensures
        forall|i: int| 0 <= i < N ==> #[trigger] batch@[i] == max_iteration,
{
    assert forall|i: int| 0 <= i < N implies #[trigger] batch@[i] == max_iteration by {
        assert(mandelbrot_interior(Point { x: cx@[i], y: cy@[i] }));
    }
}

} // verus!
