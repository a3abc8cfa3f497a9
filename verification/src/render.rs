//! The rasterizer: from the plane coordinates of an image's columns and rows
//! to a flat buffer of RGBA bytes, row-major, four bytes per pixel.
//!
//! Within a row the columns are taken `N` at a time through the batched
//! kernels, and the columns that are left over one at a time through the
//! scalar kernels. Each row is computed from its own coordinate alone, so
//! rows can be rendered in any order, or side by side, and put together
//! afterwards.
//!
//! [`render`] and [`render_row`] take the coordinates as binary64 numbers,
//! given by their bits, and a precision mode; the mode selects the arithmetic
//! and the width of the batches. [`render_in`] and [`render_row_in`] take the
//! coordinates in the arithmetic itself.

use crate::fractals::fractal_float::FractalFloat;
use crate::fractals::fractal_kernels::iteration_count;
use crate::fractals::fractal_simd::iterations_simd;
use crate::fractals::fractal_simd::NARROW_LANES;
use crate::fractals::fractal_simd::SCALAR_ONLY;
use crate::fractals::fractal_simd::WIDE_LANES;
use crate::fractals::fractal_type::convert;
use crate::fractals::fractal_type::converted;
use crate::fractals::fractal_type::FractalType;
use crate::utils::color_scheme::Palette;
use crate::utils::color_scheme::Rgba;
use crate::utils::point::Point;
use crate::utils::precision_mode::Arithmetic;
use crate::utils::precision_mode::PrecisionMode;
use vstd::prelude::*;

verus! {

/// The color of the pixel whose plane coordinate is `p`.
pub open spec fn pixel_color<T: FractalFloat>(
    kind: FractalType,
    p: Point<T>,
    julia_c: Point<T>,
    palette: Palette,
) -> Rgba {
    palette.color_spec(iteration_count(kind, p, julia_c, palette.budget()))
}

/// The color that the buffer holds for the pixel with the given index: four
/// bytes, red first, from offset `4 * index`.
pub open spec fn pixel_at(buffer: Seq<u8>, index: int) -> Rgba {
    Rgba {
        r: buffer[4 * index],
        g: buffer[4 * index + 1],
        b: buffer[4 * index + 2],
        a: buffer[4 * index + 3],
    }
}

/// Whether `row` holds the first `columns` pixels of the image row with the
/// plane coordinate `cy`, and nothing else.
pub open spec fn is_rendered_row<T: FractalFloat>(
    row: Seq<u8>,
    kind: FractalType,
    xs: Seq<T>,
    cy: T,
    julia_c: Point<T>,
    palette: Palette,
    columns: int,
) -> bool {
    &&& row.len() == 4 * columns
    &&& forall|px: int|
        0 <= px < columns ==> #[trigger] pixel_at(row, px) == pixel_color(
            kind,
            Point { x: xs[px], y: cy },
            julia_c,
            palette,
        )
}

/// Whether `buffer` holds the first `rows` rows of the image, row-major, and
/// nothing else: the pixel in column `px` of row `py` has the index
/// `py * width + px`.
pub open spec fn is_rendered_image<T: FractalFloat>(
    buffer: Seq<u8>,
    kind: FractalType,
    xs: Seq<T>,
    ys: Seq<T>,
    julia_c: Point<T>,
    palette: Palette,
    rows: int,
) -> bool {
    &&& buffer.len() == 4 * xs.len() * rows
    &&& forall|px: int, py: int|
        #![trigger xs[px], ys[py]]
        0 <= px < xs.len() && 0 <= py < rows ==> pixel_at(buffer, py * xs.len() + px)
            == pixel_color(kind, Point { x: xs[px], y: ys[py] }, julia_c, palette)
}

/// Appends the four bytes of `color` to `buffer`.
pub fn push_color(buffer: &mut Vec<u8>, color: Rgba)
    ensures
        final(buffer)@ == old(buffer)@ + color.bytes(),
{
    let ghost before = buffer@;
    buffer.push(color.r);
    buffer.push(color.g);
    buffer.push(color.b);
    buffer.push(color.a);
    assert(buffer@ =~= before + color.bytes());
}

/// Appending the color of the next pixel to a row that holds the first
/// `columns` pixels gives a row that holds one pixel more.
proof fn lemma_row_extended<T: FractalFloat>(
    row: Seq<u8>,
    color: Rgba,
    kind: FractalType,
    xs: Seq<T>,
    cy: T,
    julia_c: Point<T>,
    palette: Palette,
    columns: int,
)
    requires
        0 <= columns,
        is_rendered_row(row, kind, xs, cy, julia_c, palette, columns),
        color == pixel_color(kind, Point { x: xs[columns], y: cy }, julia_c, palette),
    ensures
        is_rendered_row(row + color.bytes(), kind, xs, cy, julia_c, palette, columns + 1),
{
    let longer = row + color.bytes();
    assert forall|px: int| 0 <= px < columns + 1 implies #[trigger] pixel_at(longer, px)
        == pixel_color(kind, Point { x: xs[px], y: cy }, julia_c, palette) by {
        if px < columns {
            assert(pixel_at(longer, px) == pixel_at(row, px));
        }
    }
}

/// Renders one row of the image: the pixels whose plane coordinates are
/// `(xs[0], cy)`, `(xs[1], cy)` and so on, four bytes each.
///
/// The columns are advanced `N` at a time with the batched kernel of `kind`,
/// and the columns left over at the end of the row with its scalar kernel.
/// With `N` zero the whole row goes through the scalar kernel.
pub fn render_row_in<T: FractalFloat, const N: usize>(
    kind: FractalType,
    xs: &Vec<T>,
    cy: T,
    julia_c: &Point<T>,
    palette: &Palette,
) -> (row: Vec<u8>)
    ensures
        is_rendered_row(row@, kind, xs@, cy, *julia_c, *palette, xs@.len() as int),
        row@.len() == 4 * xs@.len(),
{
    let width = xs.len();
    let max_iterations = palette.max_iterations();
    let mut row: Vec<u8> = Vec::new();
    let mut px: usize = 0;

    while N > 0 && width - px >= N
        invariant
            px <= width,
            width == xs@.len(),
            max_iterations == palette.budget(),
            is_rendered_row(row@, kind, xs@, cy, *julia_c, *palette, px as int),
        decreases width - px,
    {
        let mut batch_x: [T; N] = [cy;N];
        let mut lane: usize = 0;
        while lane < N
            invariant
                lane <= N,
                px + N <= width,
                width == xs@.len(),
                forall|j: int| 0 <= j < lane ==> #[trigger] batch_x@[j] == xs@[px + j],
            decreases N - lane,
        {
            batch_x[lane] = xs[px + lane];
            lane += 1;
        }
        let batch_y: [T; N] = [cy;N];
        let counts = iterations_simd(kind, &batch_x, &batch_y, max_iterations, julia_c);

        let mut lane: usize = 0;
        while lane < N
            invariant
                lane <= N,
                px + N <= width,
                width == xs@.len(),
                max_iterations == palette.budget(),
                forall|j: int| 0 <= j < N ==> #[trigger] batch_x@[j] == xs@[px + j],
                forall|j: int| 0 <= j < N ==> #[trigger] batch_y@[j] == cy,
                forall|j: int|
                    0 <= j < N ==> #[trigger] counts@[j] == iteration_count(
                        kind,
                        Point { x: batch_x@[j], y: batch_y@[j] },
                        *julia_c,
                        max_iterations as nat,
                    ),
                is_rendered_row(row@, kind, xs@, cy, *julia_c, *palette, px + lane),
            decreases N - lane,
        {
            let color = palette.to_color32(counts[lane]);
            proof {
                lemma_row_extended(row@, color, kind, xs@, cy, *julia_c, *palette, px + lane);
            }
            push_color(&mut row, color);
            lane += 1;
        }
        px += N;
    }

    while px < width
        invariant
            px <= width,
            width == xs@.len(),
            max_iterations == palette.budget(),
            is_rendered_row(row@, kind, xs@, cy, *julia_c, *palette, px as int),
        decreases width - px,
    {
        let count = kind.iterations_in(xs[px], cy, max_iterations, julia_c);
        let color = palette.to_color32(count);
        proof {
            lemma_row_extended(row@, color, kind, xs@, cy, *julia_c, *palette, px as int);
        }
        push_color(&mut row, color);
        px += 1;
    }

    row
}

/// Appending a whole row to an image of whole rows adds that row and leaves
/// the rows before it as they were.
proof fn lemma_row_appended(buffer: Seq<u8>, row: Seq<u8>, width: int, rows: int)
    requires
        0 <= width,
        0 <= rows,
        buffer.len() == 4 * width * rows,
        row.len() == 4 * width,
    ensures
        (buffer + row).len() == 4 * width * (rows + 1),
        forall|px: int|
            0 <= px < width ==> #[trigger] pixel_at(buffer + row, rows * width + px) == pixel_at(
                row,
                px,
            ),
        forall|px: int, py: int|
            0 <= px < width && 0 <= py < rows ==> #[trigger] pixel_at(buffer + row, py * width + px)
                == pixel_at(buffer, py * width + px),
{
    assert(4 * width * (rows + 1) == 4 * width * rows + 4 * width) by (nonlinear_arith);
    assert forall|px: int| 0 <= px < width implies #[trigger] pixel_at(
        buffer + row,
        rows * width + px,
    ) == pixel_at(row, px) by {
        assert(4 * (rows * width + px) == 4 * width * rows + 4 * px) by (nonlinear_arith);
    }
    assert forall|px: int, py: int| 0 <= px < width && 0 <= py < rows implies #[trigger] pixel_at(
        buffer + row,
        py * width + px,
    ) == pixel_at(buffer, py * width + px) by {
        assert(0 <= 4 * (py * width + px) && 4 * (py * width + px) + 3 < 4 * width * rows)
            by (nonlinear_arith)
            requires
                0 <= px < width,
                0 <= py < rows,
        ;
    }
}

/// Renders the image whose columns have the plane coordinates `xs` and whose
/// rows have the plane coordinates `ys`.
///
/// The buffer is row-major with four bytes (red, green, blue, alpha) per
/// pixel, and every alpha is fully opaque. An image without columns or
/// without rows is answered with a single opaque black pixel. The iteration
/// budget is that of the palette; `julia_c` is consulted only for the Julia
/// kind.
pub fn render_in<T: FractalFloat, const N: usize>(
    kind: FractalType,
    xs: &Vec<T>,
    ys: &Vec<T>,
    julia_c: &Point<T>,
    palette: &Palette,
) -> (buffer: Vec<u8>)
    ensures
        xs@.len() == 0 || ys@.len() == 0 ==> buffer@ == Rgba::black_spec().bytes(),
        xs@.len() > 0 && ys@.len() > 0 ==> is_rendered_image(
            buffer@,
            kind,
            xs@,
            ys@,
            *julia_c,
            *palette,
            ys@.len() as int,
        ),
        xs@.len() > 0 && ys@.len() > 0 ==> buffer@.len() == 4 * xs@.len() * ys@.len(),
{
    let width = xs.len();
    let height = ys.len();
    let mut buffer: Vec<u8> = Vec::new();

    if width == 0 || height == 0 {
        push_color(&mut buffer, Rgba::black());
        assert(buffer@ =~= Rgba::black_spec().bytes());
        return buffer;
    }
    let mut py: usize = 0;
    while py < height
        invariant
            py <= height,
            width == xs@.len(),
            height == ys@.len(),
            is_rendered_image(buffer@, kind, xs@, ys@, *julia_c, *palette, py as int),
        decreases height - py,
    {
        let mut row = render_row_in::<T, N>(kind, xs, ys[py], julia_c, palette);
        proof {
            lemma_row_appended(buffer@, row@, width as int, py as int);
        }
        buffer.append(&mut row);
        py += 1;
    }
    buffer
}

/// Every pixel of a rendered image is fully opaque: the fourth byte of each
/// pixel, the alpha channel, is 255.
pub proof fn lemma_rendered_image_is_opaque<T: FractalFloat>(
    buffer: Seq<u8>,
    kind: FractalType,
    xs: Seq<T>,
    ys: Seq<T>,
    julia_c: Point<T>,
    palette: Palette,
)
    requires
        is_rendered_image(buffer, kind, xs, ys, julia_c, palette, ys.len() as int),
    ensures
        forall|k: int| 0 <= k < buffer.len() && k % 4 == 3 ==> #[trigger] buffer[k] == 255,
{
    let width = xs.len() as int;
    let height = ys.len() as int;
    assert(4 * width * height == 4 * (width * height)) by (nonlinear_arith);
    assert forall|k: int| 0 <= k < buffer.len() && k % 4 == 3 implies #[trigger] buffer[k]
        == 255 by {
        let index = k / 4;
        assert(0 <= index < width * height && k == 4 * index + 3);
        lemma_pixel_position(index, width, height);
        let px = index % width;
        let py = index / width;
        assert(pixel_at(buffer, py * width + px) == pixel_color(
            kind,
            Point { x: xs[px], y: ys[py] },
            julia_c,
            palette,
        ));
    }
}

/// A pixel index below `width * height` is the index of one column of one
/// row.
pub proof fn lemma_pixel_position(index: int, width: int, height: int)
    requires
        0 <= index < width * height,
        0 <= width,
        0 <= height,
    ensures
        0 <= index % width < width,
        0 <= index / width < height,
        index == (index / width) * width + index % width,
{
    assert(width > 0) by (nonlinear_arith)
        requires
            0 <= index < width * height,
            0 <= width,
    ;
    vstd::arithmetic::div_mod::lemma_fundamental_div_mod(index, width);
    vstd::arithmetic::div_mod::lemma_mod_bound(index, width);
    assert(width * (index / width) == (index / width) * width) by (nonlinear_arith);
    let row = index / width;
    assert(0 <= row < height) by (nonlinear_arith)
        requires
            0 <= index < width * height,
            width > 0,
            index == width * row + index % width,
            0 <= index % width < width,
    ;
}

/// An image is determined by its inputs: two buffers that both hold the
/// rendered image are equal byte for byte. So the pixels do not depend on the
/// width of the batches, nor on how the rows were shared out or in what order
/// they were computed.
pub proof fn lemma_rendered_image_is_unique<T: FractalFloat>(
    first: Seq<u8>,
    second: Seq<u8>,
    kind: FractalType,
    xs: Seq<T>,
    ys: Seq<T>,
    julia_c: Point<T>,
    palette: Palette,
)
    requires
        is_rendered_image(first, kind, xs, ys, julia_c, palette, ys.len() as int),
        is_rendered_image(second, kind, xs, ys, julia_c, palette, ys.len() as int),
    ensures
        first == second,
{
    let width = xs.len() as int;
    let height = ys.len() as int;
    assert(4 * width * height == 4 * (width * height)) by (nonlinear_arith);
    assert forall|k: int| 0 <= k < first.len() implies first[k] == second[k] by {
        let index = k / 4;
        assert(0 <= index < width * height && k == 4 * index + k % 4 && 0 <= k % 4 < 4);
        lemma_pixel_position(index, width, height);
        let px = index % width;
        let py = index / width;
        assert(pixel_at(first, py * width + px) == pixel_color(
            kind,
            Point { x: xs[px], y: ys[py] },
            julia_c,
            palette,
        ));
        assert(pixel_at(second, py * width + px) == pixel_color(
            kind,
            Point { x: xs[px], y: ys[py] },
            julia_c,
            palette,
        ));
        assert(pixel_at(first, index) == pixel_at(second, index));
    }
    assert(first =~= second);
}

// ============================================================================
// BY PRECISION MODE
// ============================================================================

/// The values of the arithmetic `T` that stand for binary64 numbers, given by
/// their bits.
pub open spec fn converted_all<T: FractalFloat>(values: Seq<u64>) -> Seq<T> {
    Seq::new(values.len(), |i: int| T::from_f64_spec(values[i]))
}

/// Converts binary64 numbers, given by their bits, to the arithmetic `T`.
pub fn convert_all<T: FractalFloat>(values: &Vec<u64>) -> (out: Vec<T>)
    ensures
        out@ == converted_all::<T>(values@),
{
    let mut out: Vec<T> = Vec::new();
    let mut i: usize = 0;
    while i < values.len()
        invariant
            i <= values@.len(),
            out@.len() == i,
            forall|j: int| 0 <= j < i ==> #[trigger] out@[j] == T::from_f64_spec(values@[j]),
        decreases values@.len() - i,
    {
        out.push(T::from_f64(values[i]));
        i += 1;
    }
    assert(out@ =~= converted_all::<T>(values@));
    out
}

/// Whether `row` holds the image row with the plane coordinate `cy`, rendered
/// in the arithmetic of the given precision mode.
pub open spec fn is_rendered_row_at<A: Arithmetic>(
    row: Seq<u8>,
    kind: FractalType,
    xs: Seq<u64>,
    cy: u64,
    julia_c: Point<u64>,
    palette: Palette,
    precision: PrecisionMode,
) -> bool {
    match precision {
        PrecisionMode::Fast => is_rendered_row::<A::Fast>(
            row,
            kind,
            converted_all(xs),
            A::Fast::from_f64_spec(cy),
            converted(julia_c),
            palette,
            xs.len() as int,
        ),
        PrecisionMode::High => is_rendered_row::<A::High>(
            row,
            kind,
            converted_all(xs),
            A::High::from_f64_spec(cy),
            converted(julia_c),
            palette,
            xs.len() as int,
        ),
        PrecisionMode::UltraHigh => is_rendered_row::<A::UltraHigh>(
            row,
            kind,
            converted_all(xs),
            A::UltraHigh::from_f64_spec(cy),
            converted(julia_c),
            palette,
            xs.len() as int,
        ),
    }
}

/// Whether `buffer` holds the whole image, rendered in the arithmetic of the
/// given precision mode.
pub open spec fn is_rendered_image_at<A: Arithmetic>(
    buffer: Seq<u8>,
    kind: FractalType,
    xs: Seq<u64>,
    ys: Seq<u64>,
    julia_c: Point<u64>,
    palette: Palette,
    precision: PrecisionMode,
) -> bool {
    match precision {
        PrecisionMode::Fast => is_rendered_image::<A::Fast>(
            buffer,
            kind,
            converted_all(xs),
            converted_all(ys),
            converted(julia_c),
            palette,
            ys.len() as int,
        ),
        PrecisionMode::High => is_rendered_image::<A::High>(
            buffer,
            kind,
            converted_all(xs),
            converted_all(ys),
            converted(julia_c),
            palette,
            ys.len() as int,
        ),
        PrecisionMode::UltraHigh => is_rendered_image::<A::UltraHigh>(
            buffer,
            kind,
            converted_all(xs),
            converted_all(ys),
            converted(julia_c),
            palette,
            ys.len() as int,
        ),
    }
}

/// Renders one row of the image at the given precision.
///
/// The plane coordinates `xs` of the columns, the coordinate `cy` of the row
/// and the constant `julia_c` are binary64 numbers, given by their bits. They
/// are converted to the arithmetic of the mode, and the row is rendered in
/// batches of four columns at narrow precision and of two at wide precision;
/// the 128-bit mode has no batches and goes through the scalar kernels.
pub fn render_row<A: Arithmetic>(
    kind: FractalType,
    xs: &Vec<u64>,
    cy: u64,
    julia_c: &Point<u64>,
    palette: &Palette,
    precision: PrecisionMode,
) -> (row: Vec<u8>)
    ensures
        is_rendered_row_at::<A>(row@, kind, xs@, cy, *julia_c, *palette, precision),
        row@.len() == 4 * xs@.len(),
{
    match precision {
        PrecisionMode::Fast => render_row_in::<A::Fast, NARROW_LANES>(
            kind,
            &convert_all(xs),
            A::Fast::from_f64(cy),
            &convert(julia_c),
            palette,
        ),
        PrecisionMode::High => render_row_in::<A::High, WIDE_LANES>(
            kind,
            &convert_all(xs),
            A::High::from_f64(cy),
            &convert(julia_c),
            palette,
        ),
        PrecisionMode::UltraHigh => render_row_in::<A::UltraHigh, SCALAR_ONLY>(
            kind,
            &convert_all(xs),
            A::UltraHigh::from_f64(cy),
            &convert(julia_c),
            palette,
        ),
    }
}

/// Renders the image at the given precision.
///
/// The plane coordinates `xs` of the columns and `ys` of the rows and the
/// constant `julia_c` are binary64 numbers, given by their bits. The buffer is
/// row-major with four bytes (red, green, blue, alpha) per pixel, and every
/// alpha is fully opaque. An image without columns or without rows is
/// answered with a single opaque black pixel. The iteration budget is that of
/// the palette; `julia_c` is consulted only for the Julia kind.
pub fn render<A: Arithmetic>(
    kind: FractalType,
    xs: &Vec<u64>,
    ys: &Vec<u64>,
    julia_c: &Point<u64>,
    palette: &Palette,
    precision: PrecisionMode,
) -> (buffer: Vec<u8>)
    ensures
        xs@.len() == 0 || ys@.len() == 0 ==> buffer@ == Rgba::black_spec().bytes(),
        xs@.len() > 0 && ys@.len() > 0 ==> is_rendered_image_at::<A>(
            buffer@,
            kind,
            xs@,
            ys@,
            *julia_c,
            *palette,
            precision,
        ),
        xs@.len() > 0 && ys@.len() > 0 ==> buffer@.len() == 4 * xs@.len() * ys@.len(),
{
    match precision {
        PrecisionMode::Fast => render_in::<A::Fast, NARROW_LANES>(
            kind,
            &convert_all(xs),
            &convert_all(ys),
            &convert(julia_c),
            palette,
        ),
        PrecisionMode::High => render_in::<A::High, WIDE_LANES>(
            kind,
            &convert_all(xs),
            &convert_all(ys),
            &convert(julia_c),
            palette,
        ),
        PrecisionMode::UltraHigh => render_in::<A::UltraHigh, SCALAR_ONLY>(
            kind,
            &convert_all(xs),
            &convert_all(ys),
            &convert(julia_c),
            palette,
        ),
    }
}

} // verus!
