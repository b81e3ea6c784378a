//! Exact-arithmetic facts about the pipeline's elevation stages.
//!
//! The deterministic stages of the planet pipeline — clamping, scaling and
//! biasing, blending — are affine or piecewise-affine maps with dyadic
//! rational coefficients.  This module states their load-bearing properties
//! over an exact integer model: an elevation or signal value `v` is carried
//! as the integer `v * 2^20`, so one planetary unit is [`MODEL_ONE`] and
//! every coefficient of interest is an integer once a stage's equation is
//! multiplied through by a fixed power of two (named in each spec function's
//! documentation).
//!
//! [`lemma_stage_constants_encode`] ties the model's coefficients to the
//! binary64 bit patterns that the built graph carries, so the facts below
//! speak about the very constants a host evaluates with.

use vstd::prelude::*;

verus! {

use vstd::arithmetic::mul::lemma_mul_inequality;
use crate::bits::encodes_dyadic;
use crate::assembly::{
    CONTINENT_HEIGHT_SCALE_BITS, RIVER_SCALE_BITS, RIVER_BIAS_BITS, TRENCH_SCALE_BITS,
    SHELF_BOTTOM_BITS, SEA_LEVEL_BITS,
};

/// One planetary elevation unit in the integer model: `2^20`.
pub const MODEL_ONE: u64 = 0x10_0000;

/// The maximum river depth, `0.0234375` planetary units, scaled by `2^28`.
pub const RIVER_DEPTH_SCALED: u64 = 0x60_0000;

/// A value restricted to `[lo, hi]`, as the clamp stage computes it.
pub open spec fn clamp_units(v: int, lo: int, hi: int) -> int {
    if v < lo {
        lo
    } else if v > hi {
        hi
    } else {
        v
    }
}

/// A clamp stage with ordered bounds never leaves them: the final range
/// guarantee of every clamped elevation, sea bottom and continent alike.
pub proof fn lemma_clamp_bounds(v: int, lo: int, hi: int)
    requires
        lo <= hi,
    ensures
        lo <= clamp_units(v, lo, hi) <= hi,
        -MODEL_ONE <= v <= MODEL_ONE && lo == -MODEL_ONE && hi == MODEL_ONE ==> clamp_units(
            v,
            lo,
            hi,
        ) == v,
{
}

/// The river stage's displacement, scaled by `2^28`: the river signal `r`
/// (an integer multiple of `2^-20`) is mapped through scale `3/256` and
/// bias `-3/256`, the values of [`RIVER_SCALE_BITS`] and
/// [`RIVER_BIAS_BITS`].
pub open spec fn river_offset_scaled(r: int) -> int {
    3 * r - 3 * MODEL_ONE
}

/// Carving rivers never raises the terrain: for any river signal within
/// `[-1, 1]`, the displacement added to the pre-river elevation lies in
/// `[-RIVER_DEPTH, 0]`, so the carved elevation is at most the uncarved one
/// and at most `RIVER_DEPTH` below it.  All values are scaled by `2^28`.
pub proof fn lemma_river_carving_never_raises(e: int, r: int)
    requires
        -MODEL_ONE <= r <= MODEL_ONE,
    ensures
        -RIVER_DEPTH_SCALED <= river_offset_scaled(r) <= 0,
        256 * e + river_offset_scaled(r) <= 256 * e,
        256 * e + river_offset_scaled(r) >= 256 * e - RIVER_DEPTH_SCALED,
{
}

/// The continental-shelf stage's output, scaled by `2^23`: the terraced
/// continent signal `t` is clamped to `[-3/4, 0]` (the values of
/// [`SHELF_BOTTOM_BITS`] and [`SEA_LEVEL_BITS`]), and the trench signal
/// `-r/8 - 1/8` (ridges `r` inverted through [`TRENCH_SCALE_BITS`]) is
/// added to it.
pub open spec fn shelf_stage_scaled(t: int, r: int) -> int {
    8 * clamp_units(t, -786432, 0) + (-r - MODEL_ONE)
}

/// The continental shelf never rises above sea level: as long as the
/// trench ridges stay at or above `-1`, the inverted trench offset is
/// nonpositive and the clamp already ends at sea level, so the whole stage
/// stays at or below it.
pub proof fn lemma_shelf_never_above_sea_level(t: int, r: int)
    requires
        r >= -MODEL_ONE,
    ensures
        shelf_stage_scaled(t, r) <= 0,
{
}

/// A linear cross-fade between `a` and `b`, scaled by `2^20`: the value of
/// blend stages and of the smooth transition inside a select stage.
pub open spec fn lerp_scaled(a: int, b: int, t: int) -> int {
    MODEL_ONE * a + t * (b - a)
}

/// A cross-fade whose weight lies in `[0, 1]` stays between its endpoints:
/// inside a select stage's falloff band the output never leaves the range
/// spanned by the two selected signals.
pub proof fn lemma_blend_stays_between(a: int, b: int, t: int)
    requires
        0 <= t <= MODEL_ONE,
    ensures
        MODEL_ONE * (if a <= b {
            a
        } else {
            b
        }) <= lerp_scaled(a, b, t),
        lerp_scaled(a, b, t) <= MODEL_ONE * (if a <= b {
            b
        } else {
            a
        }),
{
    if a <= b {
        lemma_mul_inequality(0, t, b - a);
        lemma_mul_inequality(t, MODEL_ONE as int, b - a);
        assert(MODEL_ONE * a + (MODEL_ONE as int) * (b - a) == MODEL_ONE * b) by (nonlinear_arith);
    } else {
        lemma_mul_inequality(0, t, a - b);
        lemma_mul_inequality(t, MODEL_ONE as int, a - b);
        assert(t * (b - a) == -(t * (a - b))) by (nonlinear_arith);
        assert((MODEL_ONE as int) * (a - b) == MODEL_ONE * a - MODEL_ONE * b) by (nonlinear_arith);
    }
}

/// The model's coefficients are exactly the dyadic rationals that the
/// pipeline's bit-pattern constants encode: the river scale and bias are
/// `3/256` and `-3/256`, the trench scale and bias are `-1/8`, the shelf
/// clamp runs from `-3/4` to `0`, and the continent height scale — also
/// the river blend's width — is `1/4`.
pub proof fn lemma_stage_constants_encode()
    ensures
        encodes_dyadic(RIVER_SCALE_BITS, 3, 8),
        encodes_dyadic(RIVER_BIAS_BITS, -3, 8),
        encodes_dyadic(TRENCH_SCALE_BITS, -1, 3),
        encodes_dyadic(SHELF_BOTTOM_BITS, -3, 2),
        encodes_dyadic(SEA_LEVEL_BITS, 0, 0),
        encodes_dyadic(CONTINENT_HEIGHT_SCALE_BITS, 1, 2),
{
    vstd::arithmetic::power2::lemma2_to64();
    vstd::arithmetic::power2::lemma2_to64_rest();
}

} // verus!
