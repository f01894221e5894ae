//! Fixed-point scalars and vectors with 8 fractional bits. A `Fixed` stores
//! its value scaled by 256 in an `i32`, so one pixel is 256 raw units and
//! arithmetic never loses more than the configured fractional precision.

use vstd::prelude::*;

verus! {

/// Raw units per integer pixel: 2^8 for 8 fractional bits.
pub const FRAC_ONE: i32 = 256;

/// Largest integer whose fixed-point encoding fits in an `i32`.
pub const MAX_WHOLE: i32 = 8388607;

/// Smallest integer whose fixed-point encoding fits in an `i32`.
pub const MIN_WHOLE: i32 = -8388608;

/// A scalar with 8 fractional bits; the represented value is `raw / 256`.
#[derive(Clone, Copy, Debug, PartialEq, Eq, Structural)]
pub struct Fixed {
    pub raw: i32,
}

/// Rounding to the nearest integer, halves up: the pixel coordinate of a
/// fixed-point coordinate.
pub open spec fn round_raw(raw: int) -> int {
    (raw + 128) / 256
}

/// Division truncating toward zero, as the machine division of signed
/// integers behaves (spec-level `/` is Euclidean instead).
pub open spec fn div_trunc(a: int, d: int) -> int {
    if a >= 0 {
        a / d
    } else {
        -((-a) / d)
    }
}

/// Truncating division moves its argument toward zero and never past it.
pub proof fn lemma_div_trunc_bounds(a: int, d: int)
    requires
        1 <= d,
    ensures
        a >= 0 ==> 0 <= div_trunc(a, d) <= a,
        a < 0 ==> a <= div_trunc(a, d) <= 0,
{
    if a >= 0 {
        vstd::arithmetic::div_mod::lemma_div_pos_is_pos(a, d);
        vstd::arithmetic::div_mod::lemma_div_nonincreasing(a, d);
    } else {
        vstd::arithmetic::div_mod::lemma_div_pos_is_pos(-a, d);
        vstd::arithmetic::div_mod::lemma_div_nonincreasing(-a, d);
    }
}

impl Fixed {
    /// The fixed-point encoding of the integer `v`.
    pub fn from_int(v: i32) -> (r: Fixed)
        requires
            MIN_WHOLE <= v <= MAX_WHOLE,
        ensures
            r.raw == 256 * v,
    {
        Fixed { raw: v * FRAC_ONE }
    }

    /// Fixed-point addition; exact on the raw representation.
    pub fn add(self, other: Fixed) -> (r: Fixed)
        requires
            i32::MIN <= self.raw + other.raw <= i32::MAX,
        ensures
            r.raw == self.raw + other.raw,
    {
        Fixed { raw: self.raw + other.raw }
    }

    /// Fixed-point subtraction; exact on the raw representation.
    pub fn sub(self, other: Fixed) -> (r: Fixed)
        requires
            i32::MIN <= self.raw - other.raw <= i32::MAX,
        ensures
            r.raw == self.raw - other.raw,
    {
        Fixed { raw: self.raw - other.raw }
    }

    /// Rounds to the nearest integer pixel coordinate, halves up.
    pub fn round(self) -> (r: i32)
        ensures
            r as int == round_raw(self.raw as int),
            MIN_WHOLE <= r <= MAX_WHOLE + 1,
    {
        let wide: i64 = self.raw as i64 + 128;
        let q: i64 = wide.checked_div_euclid(256).unwrap();
        proof {
            assert(MIN_WHOLE <= wide / 256 <= MAX_WHOLE + 1) by (nonlinear_arith)
                requires
                    i32::MIN as i64 <= wide <= i32::MAX as i64 + 128,
            ;
        }
        q as i32
    }
}

/// A two-dimensional fixed-point coordinate.
#[derive(Clone, Copy, Debug, PartialEq, Eq, Structural)]
pub struct FixedVec2 {
    pub x: Fixed,
    pub y: Fixed,
}

/// A two-dimensional integer coordinate (pixels, sub-tiles or cells).
#[derive(Clone, Copy, Debug, PartialEq, Eq, Structural)]
pub struct IntVec2 {
    pub x: i32,
    pub y: i32,
}

impl FixedVec2 {
    /// The fixed-point encoding of an integer coordinate pair.
    pub fn from_ints(x: i32, y: i32) -> (r: FixedVec2)
        requires
            MIN_WHOLE <= x <= MAX_WHOLE,
            MIN_WHOLE <= y <= MAX_WHOLE,
        ensures
            r.x.raw == 256 * x,
            r.y.raw == 256 * y,
    {
        FixedVec2 { x: Fixed::from_int(x), y: Fixed::from_int(y) }
    }

    /// Component-wise addition.
    pub fn add(self, other: FixedVec2) -> (r: FixedVec2)
        requires
            i32::MIN <= self.x.raw + other.x.raw <= i32::MAX,
            i32::MIN <= self.y.raw + other.y.raw <= i32::MAX,
        ensures
            r.x.raw == self.x.raw + other.x.raw,
            r.y.raw == self.y.raw + other.y.raw,
    {
        FixedVec2 { x: self.x.add(other.x), y: self.y.add(other.y) }
    }

    /// Component-wise subtraction.
    pub fn sub(self, other: FixedVec2) -> (r: FixedVec2)
        requires
            i32::MIN <= self.x.raw - other.x.raw <= i32::MAX,
            i32::MIN <= self.y.raw - other.y.raw <= i32::MAX,
        ensures
            r.x.raw == self.x.raw - other.x.raw,
            r.y.raw == self.y.raw - other.y.raw,
    {
        FixedVec2 { x: self.x.sub(other.x), y: self.y.sub(other.y) }
    }

    /// Rounds both components to integer pixel coordinates.
    pub fn round(self) -> (r: IntVec2)
        ensures
            r.x as int == round_raw(self.x.raw as int),
            r.y as int == round_raw(self.y.raw as int),
            MIN_WHOLE <= r.x <= MAX_WHOLE + 1,
            MIN_WHOLE <= r.y <= MAX_WHOLE + 1,
    {
        IntVec2 { x: self.x.round(), y: self.y.round() }
    }
}

/// An axis-aligned rectangle in fixed-point coordinates.
#[derive(Clone, Copy, Debug, PartialEq, Eq, Structural)]
pub struct FixedRect {
    pub pos: FixedVec2,
    pub size: FixedVec2,
}

} // verus!
