use fractals_rs::fractals::fractal_float::FractalFloat;
use fractals_rs::fractals::fractal_kernels::burning_ship_iterations;
use fractals_rs::fractals::fractal_kernels::julia_iterations;
use fractals_rs::fractals::fractal_kernels::mandelbrot_iterations;
use fractals_rs::fractals::fractal_kernels::tricorn_iterations;
use fractals_rs::fractals::fractal_simd::mandelbrot_simd;
use fractals_rs::fractals::fractal_type::FractalType;
use fractals_rs::render::render;
use fractals_rs::utils::color_scheme::Palette;
use fractals_rs::utils::point::Point;
use fractals_rs::utils::precision_mode::Arithmetic;
use fractals_rs::utils::precision_mode::PrecisionMode;
use rust_decimal::Decimal;

/// A 128-bit decimal as a scalar of the kernels. Its sums and products panic
/// where the decimal overflows.
#[derive(Clone, Copy, Debug, PartialEq)]
struct Dec(Decimal);

impl FractalFloat for Dec {
    fn zero_spec() -> Self {
        unreachable!()
    }

    fn two_spec() -> Self {
        unreachable!()
    }

    fn four_spec() -> Self {
        unreachable!()
    }

    fn abs_spec(self) -> Self {
        unreachable!()
    }

    fn from_f64_spec(_bits: u64) -> Self {
        unreachable!()
    }

    fn to_f64_spec(self) -> u64 {
        unreachable!()
    }

    fn add_spec(self, _other: Self) -> Self {
        unreachable!()
    }

    fn sub_spec(self, _other: Self) -> Self {
        unreachable!()
    }

    fn mul_spec(self, _other: Self) -> Self {
        unreachable!()
    }

    fn greater_than_spec(self, _other: Self) -> bool {
        unreachable!()
    }

    fn zero() -> Self {
        Dec(Decimal::ZERO)
    }

    fn two() -> Self {
        Dec(Decimal::TWO)
    }

    fn four() -> Self {
        Dec(Decimal::new(4, 0))
    }

    fn abs(&self) -> Self {
        Dec(self.0.abs())
    }

    fn from_f64(bits: u64) -> Self {
        Dec(Decimal::from_f64_retain(f64::from_bits(bits)).unwrap_or(Decimal::ZERO))
    }

    fn to_f64(&self) -> u64 {
        f64::try_from(self.0).unwrap_or(0.0).to_bits()
    }

    fn add(&self, other: &Self) -> Self {
        Dec(self.0 + other.0)
    }

    fn sub(&self, other: &Self) -> Self {
        Dec(self.0 - other.0)
    }

    fn mul(&self, other: &Self) -> Self {
        Dec(self.0 * other.0)
    }

    fn greater_than(&self, other: &Self) -> bool {
        self.0 > other.0
    }
}

fn dec(value: f64) -> Dec {
    Dec(Decimal::from_f64_retain(value).unwrap())
}

fn as_wide(value: Dec) -> f64 {
    f64::from_bits(value.to_f64())
}

#[test]
fn test_fractal_float_decimal() {
    let a = dec(1.5);
    let b = dec(2.5);

    // Test arithmetic operations
    let sum = a.add(&b);
    assert_eq!(as_wide(sum), 4.0_f64);

    let diff = a.sub(&b);
    assert_eq!(as_wide(diff), -1.0_f64);

    let prod = a.mul(&b);
    assert_eq!(as_wide(prod), 3.75_f64);

    // Test abs
    assert_eq!(as_wide(a.abs()), 1.5_f64);

    // Test conversion functions
    let converted = <Dec as FractalFloat>::from_f64(3.0_f64.to_bits());
    assert_eq!(as_wide(converted), 3.0_f64);

    // Test constant functions
    assert_eq!(as_wide(<Dec as FractalFloat>::zero()), 0.0_f64);
    assert_eq!(as_wide(<Dec as FractalFloat>::two()), 2.0_f64);
    assert_eq!(as_wide(<Dec as FractalFloat>::four()), 4.0_f64);
}

#[test]
fn test_mandelbrot_f128() {
    let iterations = mandelbrot_iterations(Dec(Decimal::ZERO), Dec(Decimal::ZERO), 1000);
    assert!(iterations > 0);
}

#[test]
fn test_julia_f128() {
    let c = Point::new(dec(0.355), dec(0.355));
    let iterations = julia_iterations(Dec(Decimal::ZERO), Dec(Decimal::ZERO), 1000, &c);
    assert!(iterations > 0);
}

#[test]
fn test_burning_ship_f128() {
    let iterations = burning_ship_iterations(Dec(Decimal::ZERO), Dec(Decimal::ZERO), 1000);
    assert!(iterations > 0);
}

#[test]
fn test_tricorn_f128() {
    let iterations = tricorn_iterations(Dec(Decimal::ZERO), Dec(Decimal::ZERO), 1000);
    assert!(iterations > 0);
}

#[test]
fn decimal_counts_on_points_with_exact_arithmetic() {
    // (2, 2): zero is inside the disc, the first point of the orbit is not.
    assert_eq!(mandelbrot_iterations(dec(2.0), dec(2.0), 1000), 1);
    // (1, 1): 0, (1, 1), (1, 3).
    assert_eq!(mandelbrot_iterations(dec(1.0), dec(1.0), 1000), 2);
    assert_eq!(tricorn_iterations(dec(1.0), dec(1.0), 1000), 3);
    // The centers of the main cardioid and of the period-2 bulb.
    assert_eq!(mandelbrot_iterations(dec(-0.5), dec(0.0), 1000), 1000);
    assert_eq!(mandelbrot_iterations(dec(-1.0), dec(0.0), 1000), 1000);
    // Zero is a fixed point of all maps with the constant zero.
    assert_eq!(burning_ship_iterations(dec(0.0), dec(0.0), 1000), 1000);
    assert_eq!(tricorn_iterations(dec(0.0), dec(0.0), 1000), 1000);
}

#[test]
fn decimal_batch_equals_scalar() {
    let cx = [dec(2.0), dec(1.0), dec(-0.5), dec(0.5)];
    let cy = [dec(2.0), dec(1.0), dec(0.0), dec(0.5)];
    let counts = mandelbrot_simd(&cx, &cy, 60);
    assert_eq!(counts[0], 1);
    assert_eq!(counts[1], 2);
    assert_eq!(counts[2], 60);
    for lane in 0..2 {
        assert_eq!(counts[lane], mandelbrot_iterations(cx[lane], cy[lane], 60));
    }
}

/// An arithmetic whose every mode is the 128-bit decimal.
struct Decimals;

impl Arithmetic for Decimals {
    type Fast = Dec;
    type High = Dec;
    type UltraHigh = Dec;
}

#[test]
fn ultra_high_mode_renders_with_the_scalar_kernels() {
    let xs: Vec<u64> = [2.0_f64, 1.0, -0.5, -1.0, 0.0].iter().map(|v| v.to_bits()).collect();
    let ys: Vec<u64> = [2.0_f64, 0.0].iter().map(|v| v.to_bits()).collect();
    let julia_c = Point::new(0.0_f64.to_bits(), 0.0_f64.to_bits());
    let palette = Palette::from_fn(40, |count| (count as u8, 0, 0));
    let buffer = render::<Decimals>(
        FractalType::Mandelbrot,
        &xs,
        &ys,
        &julia_c,
        &palette,
        PrecisionMode::UltraHigh,
    );
    assert_eq!(buffer.len(), 5 * 2 * 4);
    // Row 0 (y = 2): the first point of each orbit is the pixel itself, and
    // only (0, 2) is not yet outside the disc of radius two.
    for px in 0..4 {
        assert_eq!(&buffer[4 * px..4 * px + 4], &[1, 0, 0, 255]);
    }
    assert_eq!(&buffer[4 * 4..4 * 4 + 4], &[2, 0, 0, 255]);
    // Row 1 (y = 0): 2 and 1 escape after 2 and 3 iterations, -0.5, -1 and 0
    // are interior.
    assert_eq!(&buffer[4 * 5..4 * 5 + 4], &[2, 0, 0, 255]);
    assert_eq!(&buffer[4 * 6..4 * 6 + 4], &[3, 0, 0, 255]);
    for px in 2..5 {
        assert_eq!(&buffer[4 * (5 + px)..4 * (5 + px) + 4], &[0, 0, 0, 255]);
    }
}
