//! Single-precision numbers by their bit patterns.

use rustc_apfloat::ieee::Single;
use vstd::prelude::*;

verus! {

/// Bit pattern of the sum of two IEEE-754 singles, rounded to nearest with
/// ties to even.
pub uninterp spec fn single_sum(a: u32, b: u32) -> u32;

/// Bit pattern of the product of two IEEE-754 singles, rounded to nearest
/// with ties to even.
pub uninterp spec fn single_product(a: u32, b: u32) -> u32;

/// Adds two singles given by their bit patterns.
///
/// Trusted: calls `rustc_apfloat`'s `Add` for `ieee::Single`, which rounds to
/// nearest, ties to even. The contract claims only that the outcome is a
/// function of the two bit patterns, and calls it `single_sum`.
#[verifier::external_body]
fn single_add(a: u32, b: u32) -> (r: u32)
    ensures
        r == single_sum(a, b),
{
    let x: Single = rustc_apfloat::Float::from_bits(a as u128);
    let y: Single = rustc_apfloat::Float::from_bits(b as u128);
    rustc_apfloat::Float::to_bits((x + y).value) as u32
}

/// Multiplies two singles given by their bit patterns.
///
/// Trusted: calls `rustc_apfloat`'s `Mul` for `ieee::Single`, which rounds to
/// nearest, ties to even. The contract claims only that the outcome is a
/// function of the two bit patterns, and calls it `single_product`.
#[verifier::external_body]
fn single_mul(a: u32, b: u32) -> (r: u32)
    ensures
        r == single_product(a, b),
{
    let x: Single = rustc_apfloat::Float::from_bits(a as u128);
    let y: Single = rustc_apfloat::Float::from_bits(b as u128);
    rustc_apfloat::Float::to_bits((x * y).value) as u32
}

/// An IEEE-754 single, held by its bit pattern.
#[derive(Clone, Copy, Debug, PartialEq, Eq, Hash)]
pub struct Scalar {
    pub bits: u32,
}

impl Scalar {
    /// The number with the given bit pattern.
    pub fn from_bits(bits: u32) -> (r: Scalar)
        ensures
            r.bits == bits,
    {
        Scalar { bits }
    }

    /// The bit pattern of this number.
    pub fn to_bits(self) -> (r: u32)
        ensures
            r == self.bits,
    {
        self.bits
    }

    /// Positive zero.
    pub open spec fn spec_zero() -> Scalar {
        Scalar { bits: 0 }
    }

    /// Positive zero.
    #[verifier::when_used_as_spec(spec_zero)]
    pub fn zero() -> (r: Scalar)
        ensures
            r == Scalar::spec_zero(),
    {
        Scalar { bits: 0 }
    }

    /// The sum `self + rhs`.
    pub open spec fn spec_plus(self, rhs: Scalar) -> Scalar {
        Scalar { bits: single_sum(self.bits, rhs.bits) }
    }

    /// The sum `self + rhs`.
    #[verifier::when_used_as_spec(spec_plus)]
    pub fn plus(self, rhs: Scalar) -> (r: Scalar)
        ensures
            r == self.spec_plus(rhs),
    {
        Scalar { bits: single_add(self.bits, rhs.bits) }
    }

    /// The product `self * rhs`.
    pub open spec fn spec_times(self, rhs: Scalar) -> Scalar {
        Scalar { bits: single_product(self.bits, rhs.bits) }
    }

    /// The product `self * rhs`.
    #[verifier::when_used_as_spec(spec_times)]
    pub fn times(self, rhs: Scalar) -> (r: Scalar)
        ensures
            r == self.spec_times(rhs),
    {
        Scalar { bits: single_mul(self.bits, rhs.bits) }
    }
}

/// A point or an extent in the plane.
#[derive(Clone, Copy, Debug, PartialEq, Eq, Hash)]
pub struct Vec2 {
    pub x: Scalar,
    pub y: Scalar,
}

impl Vec2 {
    /// The vector with the given components.
    pub fn new(x: Scalar, y: Scalar) -> (r: Vec2)
        ensures
            r == (Vec2 { x, y }),
    {
        Vec2 { x, y }
    }

    /// The component-wise sum `self + rhs`.
    pub open spec fn spec_plus(self, rhs: Vec2) -> Vec2 {
        Vec2 { x: self.x.spec_plus(rhs.x), y: self.y.spec_plus(rhs.y) }
    }

    /// The component-wise sum `self + rhs`.
    #[verifier::when_used_as_spec(spec_plus)]
    pub fn plus(self, rhs: Vec2) -> (r: Vec2)
        ensures
            r == self.spec_plus(rhs),
    {
        Vec2 { x: self.x.plus(rhs.x), y: self.y.plus(rhs.y) }
    }
}

} // verus!
