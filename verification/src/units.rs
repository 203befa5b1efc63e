//! Fixed-point quantities: conversion from pixels, clamping to the
//! representable range, sign and truncating division.

use vstd::prelude::*;

verus! {

/// Number of units in one pixel.
pub const UNITS_PER_PIXEL: i64 = 1000;

/// Number of units in half a pixel.
pub const UNITS_PER_HALF_PIXEL: i64 = 500;

/// `v` clamped to the range a stored quantity can hold.
pub open spec fn saturate(v: int) -> int {
    if v < i64::MIN {
        i64::MIN as int
    } else if v > i64::MAX {
        i64::MAX as int
    } else {
        v
    }
}

/// Whether `v` can be stored without clamping.
pub open spec fn representable(v: int) -> bool {
    i64::MIN <= v <= i64::MAX
}

/// The sign of `v`: -1, 0 or 1.
pub open spec fn signum(v: int) -> int {
    if v < 0 {
        -1
    } else if v == 0 {
        0
    } else {
        1
    }
}

/// The magnitude of `v`.
pub open spec fn magnitude(v: int) -> int {
    if v < 0 {
        -v
    } else {
        v
    }
}

/// The quotient of `a` by `b` rounded toward zero.
pub open spec fn quotient_toward_zero(a: int, b: int) -> int
    recommends
        b != 0,
{
    if (a < 0) == (b < 0) {
        magnitude(a) / magnitude(b)
    } else {
        -(magnitude(a) / magnitude(b))
    }
}

/// A whole number of pixels expressed in units.
pub open spec fn pixels(p: int) -> int {
    p * UNITS_PER_PIXEL
}

/// Half of a whole number of pixels, expressed in units.
pub open spec fn half_pixels(p: int) -> int {
    p * UNITS_PER_HALF_PIXEL
}

/// Converts whole pixels to units.
pub fn from_pixels(p: i32) -> (r: i64)
    ensures
        r == pixels(p as int),
{
    (p as i64) * UNITS_PER_PIXEL
}

/// Converts whole pixels to units and halves the result.
pub fn from_half_pixels(p: i32) -> (r: i64)
    ensures
        r == half_pixels(p as int),
{
    (p as i64) * UNITS_PER_HALF_PIXEL
}

/// Clamps an exact intermediate result to the representable range.
pub fn clamp(v: i128) -> (r: i64)
    ensures
        r == saturate(v as int),
{
    if v < i64::MIN as i128 {
        i64::MIN
    } else if v > i64::MAX as i128 {
        i64::MAX
    } else {
        v as i64
    }
}

/// Divides rounding toward zero.
pub fn divide_toward_zero(a: i128, b: i128) -> (r: i128)
    requires
        b != 0,
        -i128::MAX <= a,
        -i128::MAX <= b,
    ensures
        r == quotient_toward_zero(a as int, b as int),
{
    let numerator: i128 = if a < 0 { -a } else { a };
    let denominator: i128 = if b < 0 { -b } else { b };
    let quotient: i128 = numerator / denominator;
    if (a < 0) == (b < 0) {
        quotient
    } else {
        -quotient
    }
}

} // verus!
