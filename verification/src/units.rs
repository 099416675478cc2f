//! Units of measurement and the two roundings every other module relies on:
//! wrapping an angle into one turn and clamping a length to the machine range.

use vstd::prelude::*;

verus! {

/// One full turn, in microdegrees.
pub const FULL_TURN: i64 = 360_000_000;

/// One degree, in microdegrees.
pub const DEGREE: i64 = 1_000_000;

/// One second, in microseconds.
pub const SECOND: i64 = 1_000_000;

/// One pixel, in nanopixels.
pub const PIXEL: i64 = 1_000_000_000;

/// The length of a unit heading: its components are counted in millionths.
pub const HEADING_UNIT: i32 = 1_000_000;

/// The angle in `[0, FULL_TURN)` that differs from `angle` by whole turns.
pub open spec fn canonical(angle: int) -> int {
    angle % (FULL_TURN as int)
}

/// Whether `angle` lies in the canonical half-open range `[0, FULL_TURN)`.
pub open spec fn is_canonical(angle: int) -> bool {
    0 <= angle < FULL_TURN
}

/// The value of type `i64` nearest to `v`.
pub open spec fn clamped(v: int) -> int {
    if v < i64::MIN {
        i64::MIN as int
    } else if v > i64::MAX {
        i64::MAX as int
    } else {
        v
    }
}

/// The share `factor / HEADING_UNIT` of `length`, rounded toward zero:
/// `factor` counts millionths.
pub open spec fn scaled(factor: int, length: int) -> int {
    let product = factor * length;
    if product >= 0 {
        product / (HEADING_UNIT as int)
    } else {
        -((-product) / (HEADING_UNIT as int))
    }
}

/// Wraps `angle` into one turn.
pub fn canonical_angle(angle: i128) -> (r: i64)
    ensures
        r == canonical(angle as int),
        is_canonical(r as int),
{
    let rem: i128 = angle % (FULL_TURN as i128);
    if rem < 0 {
        (rem + FULL_TURN as i128) as i64
    } else {
        rem as i64
    }
}

/// Clamps `v` to the range of `i64`.
pub fn clamp_to_i64(v: i128) -> (r: i64)
    ensures
        r == clamped(v as int),
{
    if v < i64::MIN as i128 {
        i64::MIN
    } else if v > i64::MAX as i128 {
        i64::MAX
    } else {
        v as i64
    }
}

/// A million millionths are the whole, no millionths are nothing, and a
/// million millionths taken the other way are the opposite.
pub proof fn lemma_scaled_by_unit(length: int)
    ensures
        scaled(HEADING_UNIT as int, length) == length,
        scaled(0, length) == 0,
        scaled(-HEADING_UNIT, length) == -length,
        scaled(length, HEADING_UNIT as int) == length,
        scaled(length, 0) == 0,
{
    assert(1_000_000 * length == length * 1_000_000) by (nonlinear_arith);
    assert((-1_000_000) * length == -(1_000_000 * length)) by (nonlinear_arith);
    assert(0 * length == 0 && length * 0 == 0) by (nonlinear_arith);
}

/// Rounding toward zero treats both signs alike: the share of an opposite
/// is the opposite of the share.
pub proof fn lemma_scaled_is_odd(factor: int, length: int)
    ensures
        scaled(factor, -length) == -scaled(factor, length),
        scaled(-factor, length) == -scaled(factor, length),
        scaled(-factor, -length) == scaled(factor, length),
{
    assert(factor * (-length) == -(factor * length) && (-factor) * length == -(factor * length)
        && (-factor) * (-length) == factor * length) by (nonlinear_arith);
}

/// Takes `factor` millionths of `length`, rounding toward zero.
pub fn scale(factor: i64, length: i64) -> (r: i128)
    ensures
        r == scaled(factor as int, length as int),
        -0x800_0000_0000_0000_0000_0000_0000 <= r <= 0x800_0000_0000_0000_0000_0000_0000,
{
    assert(-0x4000_0000_0000_0000_0000_0000_0000_0000 <= factor * length
        <= 0x4000_0000_0000_0000_0000_0000_0000_0000) by (nonlinear_arith)
        requires
            -0x8000_0000_0000_0000 <= factor <= 0x8000_0000_0000_0000,
            -0x8000_0000_0000_0000 <= length <= 0x8000_0000_0000_0000,
    ;
    let product: i128 = factor as i128 * length as i128;
    product / HEADING_UNIT as i128
}

} // verus!
