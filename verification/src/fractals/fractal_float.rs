use vstd::prelude::*;

verus! {

/// A number that the iteration kernels can compute with.
///
/// Every operation is a total function of its operands: the spec function
/// beside each method names the value that the method returns. The kernels are
/// proved against these names alone, so what they guarantee holds for an
/// implementation exactly as far as its methods return what its spec
/// functions say, and return at all.
///
/// For the machine's floating-point types the spec functions are the IEEE 754
/// operations, with every NaN taken as the same value. An implementation that
/// is written outside verified code still has to give each spec function a
/// body; that body is never run.
///
/// The reference 64-bit value that `from_f64` and `to_f64` speak of is an
/// IEEE 754 binary64 number, handed over as its bit pattern.
pub trait FractalFloat: Copy {
    /// The value zero.
    spec fn zero_spec() -> Self;

    /// The value two.
    spec fn two_spec() -> Self;

    /// The value four.
    spec fn four_spec() -> Self;

    /// The absolute value of `self`.
    spec fn abs_spec(self) -> Self;

    /// The value of this type that stands for the binary64 number with the
    /// bit pattern `bits`.
    spec fn from_f64_spec(bits: u64) -> Self;

    /// The bit pattern of the binary64 number that stands for `self`.
    spec fn to_f64_spec(self) -> u64;

    /// The sum of `self` and `other` in this type's arithmetic.
    spec fn add_spec(self, other: Self) -> Self;

    /// The difference of `self` and `other` in this type's arithmetic.
    spec fn sub_spec(self, other: Self) -> Self;

    /// The product of `self` and `other` in this type's arithmetic.
    spec fn mul_spec(self, other: Self) -> Self;

    /// Whether `self` is strictly greater than `other`.
    spec fn greater_than_spec(self, other: Self) -> bool;

    /// Represents the zero value.
    fn zero() -> (r: Self)
        ensures
            r == Self::zero_spec(),
    ;

    /// Represents the two value.
    fn two() -> (r: Self)
        ensures
            r == Self::two_spec(),
    ;

    /// Represents the four value.
    fn four() -> (r: Self)
        ensures
            r == Self::four_spec(),
    ;

    /// Returns the absolute value.
    fn abs(&self) -> (r: Self)
        ensures
            r == self.abs_spec(),
    ;

    /// Converts a binary64 number, given by its bits, to the implementing type.
    fn from_f64(bits: u64) -> (r: Self)
        ensures
            r == Self::from_f64_spec(bits),
    ;

    /// Converts the implementing type to a binary64 number, given by its bits.
    fn to_f64(&self) -> (r: u64)
        ensures
            r == self.to_f64_spec(),
    ;

    /// Adds two values.
    fn add(&self, other: &Self) -> (r: Self)
        ensures
            r == self.add_spec(*other),
    ;

    /// Subtracts two values.
    fn sub(&self, other: &Self) -> (r: Self)
        ensures
            r == self.sub_spec(*other),
    ;

    /// Multiplies two values.
    fn mul(&self, other: &Self) -> (r: Self)
        ensures
            r == self.mul_spec(*other),
    ;

    /// Tells whether `self` is strictly greater than `other`.
    fn greater_than(&self, other: &Self) -> (r: bool)
        ensures
            r == self.greater_than_spec(*other),
    ;
}

/// Bit pattern of the binary64 number 0.25.
pub const QUARTER_BITS: u64 = 0x3FD0_0000_0000_0000;

/// Bit pattern of the binary64 number 1.0.
pub const ONE_BITS: u64 = 0x3FF0_0000_0000_0000;

/// Bit pattern of the binary64 number 0.0625.
pub const SIXTEENTH_BITS: u64 = 0x3FB0_0000_0000_0000;

/// Bit pattern of the binary64 number -2.0.
pub const MINUS_TWO_BITS: u64 = 0xC000_0000_0000_0000;

/// Bit pattern of the binary64 number -0.5.
pub const MINUS_HALF_BITS: u64 = 0xBFE0_0000_0000_0000;

} // verus!
