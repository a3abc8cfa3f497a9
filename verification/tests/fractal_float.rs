use fractals_rs::fractals::fractal_float::FractalFloat;

#[derive(Clone, Copy, Debug, PartialEq)]
struct Narrow(f32);

impl FractalFloat for Narrow {
    fn zero_spec() -> Self {
        unreachable!()
    }

    fn two_spec() -> Self {
        unreachable!()
    }

    fn four_spec() -> Self {
        unreachable!()
    }

    fn abs_spec(self) -> Self {
        unreachable!()
    }

    fn from_f64_spec(_bits: u64) -> Self {
        unreachable!()
    }

    fn to_f64_spec(self) -> u64 {
        unreachable!()
    }

    fn add_spec(self, _other: Self) -> Self {
        unreachable!()
    }

    fn sub_spec(self, _other: Self) -> Self {
        unreachable!()
    }

    fn mul_spec(self, _other: Self) -> Self {
        unreachable!()
    }

    fn greater_than_spec(self, _other: Self) -> bool {
        unreachable!()
    }

    fn zero() -> Self {
        Narrow(0.0)
    }

    fn two() -> Self {
        Narrow(2.0)
    }

    fn four() -> Self {
        Narrow(4.0)
    }

    fn abs(&self) -> Self {
        Narrow(self.0.abs())
    }

    fn from_f64(bits: u64) -> Self {
        Narrow(f64::from_bits(bits) as f32)
    }

    fn to_f64(&self) -> u64 {
        f64::from(self.0).to_bits()
    }

    fn add(&self, other: &Self) -> Self {
        Narrow(self.0 + other.0)
    }

    fn sub(&self, other: &Self) -> Self {
        Narrow(self.0 - other.0)
    }

    fn mul(&self, other: &Self) -> Self {
        Narrow(self.0 * other.0)
    }

    fn greater_than(&self, other: &Self) -> bool {
        self.0 > other.0
    }
}

#[derive(Clone, Copy, Debug, PartialEq)]
struct Wide(f64);

impl FractalFloat for Wide {
    fn zero_spec() -> Self {
        unreachable!()
    }

    fn two_spec() -> Self {
        unreachable!()
    }

    fn four_spec() -> Self {
        unreachable!()
    }

    fn abs_spec(self) -> Self {
        unreachable!()
    }

    fn from_f64_spec(_bits: u64) -> Self {
        unreachable!()
    }

    fn to_f64_spec(self) -> u64 {
        unreachable!()
    }

    fn add_spec(self, _other: Self) -> Self {
        unreachable!()
    }

    fn sub_spec(self, _other: Self) -> Self {
        unreachable!()
    }

    fn mul_spec(self, _other: Self) -> Self {
        unreachable!()
    }

    fn greater_than_spec(self, _other: Self) -> bool {
        unreachable!()
    }

    fn zero() -> Self {
        Wide(0.0)
    }

    fn two() -> Self {
        Wide(2.0)
    }

    fn four() -> Self {
        Wide(4.0)
    }

    fn abs(&self) -> Self {
        Wide(self.0.abs())
    }

    fn from_f64(bits: u64) -> Self {
        Wide(f64::from_bits(bits))
    }

    fn to_f64(&self) -> u64 {
        self.0.to_bits()
    }

    fn add(&self, other: &Self) -> Self {
        Wide(self.0 + other.0)
    }

    fn sub(&self, other: &Self) -> Self {
        Wide(self.0 - other.0)
    }

    fn mul(&self, other: &Self) -> Self {
        Wide(self.0 * other.0)
    }

    fn greater_than(&self, other: &Self) -> bool {
        self.0 > other.0
    }
}

#[test]
fn fractal_float_test_fractal_float_f32() {
    let a = Narrow(1.5);
    let b = Narrow(2.5);

    // Test arithmetic operations
    assert_eq!(a.add(&b), Narrow(4.0_f32));
    assert_eq!(a.sub(&b), Narrow(-1.0_f32));
    assert_eq!(a.mul(&b), Narrow(3.75_f32));

    // Test abs
    assert_eq!(a.abs(), Narrow(1.5_f32));

    // Test conversion functions
    assert_eq!(<Narrow as FractalFloat>::from_f64(3.0_f64.to_bits()), Narrow(3.0_f32));
    assert_eq!(f64::from_bits(a.to_f64()), 1.5_f64);

    // Test constant functions with explicit type specification
    assert_eq!(<Narrow as FractalFloat>::zero(), Narrow(0.0_f32));
    assert_eq!(<Narrow as FractalFloat>::two(), Narrow(2.0_f32));
    assert_eq!(<Narrow as FractalFloat>::four(), Narrow(4.0_f32));
}

#[test]
fn fractal_float_test_fractal_float_f64() {
    let a = Wide(1.5);
    let b = Wide(2.5);

    // Test arithmetic operations
    assert_eq!(a.add(&b), Wide(4.0_f64));
    assert_eq!(a.sub(&b), Wide(-1.0_f64));
    assert_eq!(a.mul(&b), Wide(3.75_f64));

    // Test abs
    assert_eq!(a.abs(), Wide(1.5_f64));

    // Test conversion functions
    assert_eq!(<Wide as FractalFloat>::from_f64(3.0_f64.to_bits()), Wide(3.0_f64));
    assert_eq!(f64::from_bits(a.to_f64()), 1.5_f64);

    // Test constant functions with explicit type specification
    assert_eq!(<Wide as FractalFloat>::zero(), Wide(0.0_f64));
    assert_eq!(<Wide as FractalFloat>::two(), Wide(2.0_f64));
    assert_eq!(<Wide as FractalFloat>::four(), Wide(4.0_f64));
}

#[test]
fn fractal_float_test_negative_abs() {
    let neg_f32 = Narrow(-3.5);
    let neg_f64 = Wide(-3.5);

    assert_eq!(neg_f32.abs(), Narrow(3.5_f32));
    assert_eq!(neg_f64.abs(), Wide(3.5_f64));
}

#[test]
fn fractal_float_test_conversion_precision() {
    // Test conversion from the wide reference value to the narrow type
    // (potential precision loss)
    let large_f64 = 1.23456789012345_f64;
    let converted_f32 = <Narrow as FractalFloat>::from_f64(large_f64.to_bits());

    // Convert back to check
    let back_to_f64 = f64::from_bits(converted_f32.to_f64());

    // Should be approximately equal due to the narrow type's precision limits
    assert!((back_to_f64 - large_f64).abs() < 1e-6);
}

#[test]
fn fractal_float_test_edge_cases() {
    // Test with zero
    let zero_f32 = Narrow(0.0_f32);
    let zero_f64 = Wide(0.0_f64);

    assert_eq!(zero_f32.abs(), Narrow(0.0_f32));
    assert_eq!(zero_f64.abs(), Wide(0.0_f64));

    // Test arithmetic with zero
    let val_f32 = Narrow(5.0_f32);
    let val_f64 = Wide(5.0_f64);

    assert_eq!(val_f32.add(&zero_f32), Narrow(5.0_f32));
    assert_eq!(val_f32.sub(&zero_f32), Narrow(5.0_f32));
    assert_eq!(val_f32.mul(&zero_f32), Narrow(0.0_f32));

    assert_eq!(val_f64.add(&zero_f64), Wide(5.0_f64));
    assert_eq!(val_f64.sub(&zero_f64), Wide(5.0_f64));
    assert_eq!(val_f64.mul(&zero_f64), Wide(0.0_f64));
}

#[test]
fn fractal_float_comparison_is_strict() {
    assert!(Wide(4.5).greater_than(&Wide(4.0)));
    assert!(!Wide(4.0).greater_than(&Wide(4.0)));
    assert!(!Narrow(3.5).greater_than(&Narrow(4.0)));
}

#[test]
fn test_fractal_float_f32() {
    let a = Narrow(1.5);
    let b = Narrow(2.5);

    // Test arithmetic operations
    assert_eq!(a.add(&b), Narrow(4.0_f32));
    assert_eq!(a.sub(&b), Narrow(-1.0_f32));
    assert_eq!(a.mul(&b), Narrow(3.75_f32));

    // Test abs
    assert_eq!(a.abs(), Narrow(1.5_f32));

    // Test conversion functions
    assert_eq!(<Narrow as FractalFloat>::from_f64(3.0_f64.to_bits()), Narrow(3.0_f32));
    assert_eq!(f64::from_bits(a.to_f64()), 1.5_f64);

    // Test constant functions with explicit type specification
    assert_eq!(<Narrow as FractalFloat>::zero(), Narrow(0.0_f32));
    assert_eq!(<Narrow as FractalFloat>::two(), Narrow(2.0_f32));
    assert_eq!(<Narrow as FractalFloat>::four(), Narrow(4.0_f32));
}

#[test]
fn test_fractal_float_f64() {
    let a = Wide(1.5);
    let b = Wide(2.5);

    // Test arithmetic operations
    assert_eq!(a.add(&b), Wide(4.0_f64));
    assert_eq!(a.sub(&b), Wide(-1.0_f64));
    assert_eq!(a.mul(&b), Wide(3.75_f64));

    // Test abs
    assert_eq!(a.abs(), Wide(1.5_f64));

    // Test conversion functions
    assert_eq!(<Wide as FractalFloat>::from_f64(3.0_f64.to_bits()), Wide(3.0_f64));
    assert_eq!(f64::from_bits(a.to_f64()), 1.5_f64);

    // Test constant functions with explicit type specification
    assert_eq!(<Wide as FractalFloat>::zero(), Wide(0.0_f64));
    assert_eq!(<Wide as FractalFloat>::two(), Wide(2.0_f64));
    assert_eq!(<Wide as FractalFloat>::four(), Wide(4.0_f64));
}

#[test]
fn test_negative_abs() {
    let neg_f32 = Narrow(-3.5);
    let neg_f64 = Wide(-3.5);

    assert_eq!(neg_f32.abs(), Narrow(3.5_f32));
    assert_eq!(neg_f64.abs(), Wide(3.5_f64));
}

#[test]
fn test_conversion_precision() {
    // Test conversion from the wide reference value to the narrow type
    // (potential precision loss)
    let large_f64 = 1.23456789012345_f64;
    let converted_f32 = <Narrow as FractalFloat>::from_f64(large_f64.to_bits());

    // Convert back to check
    let back_to_f64 = f64::from_bits(converted_f32.to_f64());

    // Should be approximately equal due to the narrow type's precision limits
    assert!((back_to_f64 - large_f64).abs() < 1e-6);
}

#[test]
fn test_edge_cases() {
    // Test with zero
    let zero_f32 = Narrow(0.0_f32);
    let zero_f64 = Wide(0.0_f64);

    assert_eq!(zero_f32.abs(), Narrow(0.0_f32));
    assert_eq!(zero_f64.abs(), Wide(0.0_f64));

    // Test arithmetic with zero
    let val_f32 = Narrow(5.0_f32);
    let val_f64 = Wide(5.0_f64);

    assert_eq!(val_f32.add(&zero_f32), Narrow(5.0_f32));
    assert_eq!(val_f32.sub(&zero_f32), Narrow(5.0_f32));
    assert_eq!(val_f32.mul(&zero_f32), Narrow(0.0_f32));

    assert_eq!(val_f64.add(&zero_f64), Wide(5.0_f64));
    assert_eq!(val_f64.sub(&zero_f64), Wide(5.0_f64));
    assert_eq!(val_f64.mul(&zero_f64), Wide(0.0_f64));
}
