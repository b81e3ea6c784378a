//! Ordering and decoding of IEEE 754 binary64 bit patterns.
//!
//! Every numeric parameter of the node graph is carried as the raw 64-bit
//! pattern of a binary64 value.  This module gives those patterns an exact
//! meaning: a finiteness test, a total order that agrees with the ordinary
//! order of the encoded values (with the two zero patterns ranking equal),
//! and a decoding of a finite pattern into the dyadic rational it encodes.

use vstd::prelude::*;

verus! {

use vstd::arithmetic::power2::pow2;

/// The sign bit of a binary64 pattern: `2^63`.
pub const SIGN_BIT: u64 = 0x8000_0000_0000_0000;

/// The weight of the exponent field: `2^52`.
pub const EXP_UNIT: u64 = 0x10_0000_0000_0000;

/// True if the pattern's sign bit is set.
pub open spec fn is_negative(b: u64) -> bool {
    b >= SIGN_BIT
}

/// The pattern with the sign bit cleared.
pub open spec fn magnitude(b: u64) -> int {
    if is_negative(b) {
        b - SIGN_BIT
    } else {
        b as int
    }
}

/// A rank that orders finite bit patterns exactly as the values they encode,
/// with `-0.0` and `0.0` both ranking zero.
pub open spec fn rank(b: u64) -> int {
    if is_negative(b) {
        -magnitude(b)
    } else {
        magnitude(b)
    }
}

/// The biased exponent field of the pattern.
pub open spec fn exp_field(b: u64) -> int {
    magnitude(b) / (EXP_UNIT as int)
}

/// The fraction field of the pattern.
pub open spec fn frac_field(b: u64) -> int {
    magnitude(b) % (EXP_UNIT as int)
}

/// True if the pattern encodes a finite value (neither an infinity nor a NaN).
pub open spec fn is_finite(b: u64) -> bool {
    exp_field(b) != 0x7FF
}

/// The significand of a finite pattern, with the implicit leading bit.
pub open spec fn mantissa(b: u64) -> int {
    if exp_field(b) == 0 {
        frac_field(b)
    } else {
        frac_field(b) + EXP_UNIT
    }
}

/// The significand carrying the pattern's sign.
pub open spec fn signed_mantissa(b: u64) -> int {
    if is_negative(b) {
        -mantissa(b)
    } else {
        mantissa(b)
    }
}

/// The power-of-two scale of the significand: a finite pattern encodes the
/// value `signed_mantissa * 2^pow2_exp`.
pub open spec fn pow2_exp(b: u64) -> int {
    if exp_field(b) == 0 {
        -1074
    } else {
        exp_field(b) - 1075
    }
}

/// True if the finite pattern `b` encodes exactly the dyadic rational
/// `num / 2^denp`.
pub open spec fn encodes_dyadic(b: u64, num: int, denp: nat) -> bool {
    is_finite(b) && {
        let s = pow2_exp(b) + denp;
        if s >= 0 {
            num == signed_mantissa(b) * pow2(s as nat)
        } else {
            num * pow2((-s) as nat) == signed_mantissa(b)
        }
    }
}

/// The value of a finite pattern as an integer, scaled by `2^1074` (the
/// smallest positive subnormal is `1`): `signed_mantissa * 2^(pow2_exp +
/// 1074)`.
pub open spec fn scaled_value(b: u64) -> int {
    signed_mantissa(b) * pow2((pow2_exp(b) + 1074) as nat)
}

/// The magnitude of a finite pattern orders its absolute scaled value: the
/// binary64 encoding is monotone.
proof fn lemma_abs_scaled_monotone(a: u64, b: u64)
    requires
        is_finite(a),
        is_finite(b),
        magnitude(a) < magnitude(b),
    ensures
        mantissa(a) * pow2((pow2_exp(a) + 1074) as nat) < mantissa(b) * pow2(
            (pow2_exp(b) + 1074) as nat,
        ),
{
    broadcast use vstd::arithmetic::power2::lemma_pow2_pos;

    let ea = exp_field(a);
    let eb = exp_field(b);
    let ma = mantissa(a);
    let mb = mantissa(b);
    let pa = (pow2_exp(a) + 1074) as nat;
    let pb = (pow2_exp(b) + 1074) as nat;
    let u = EXP_UNIT as int;
    vstd::arithmetic::div_mod::lemma_fundamental_div_mod(magnitude(a), u);
    vstd::arithmetic::div_mod::lemma_fundamental_div_mod(magnitude(b), u);
    vstd::arithmetic::div_mod::lemma_mod_bound(magnitude(a), u);
    vstd::arithmetic::div_mod::lemma_mod_bound(magnitude(b), u);
    vstd::arithmetic::div_mod::lemma_div_is_ordered(magnitude(a), magnitude(b), u);
    vstd::arithmetic::power2::lemma2_to64();
    vstd::arithmetic::power2::lemma2_to64_rest();
    if ea == eb {
        // same binade: the fraction fields decide, the scale is shared
        assert(frac_field(a) < frac_field(b));
        assert(ma < mb);
        vstd::arithmetic::mul::lemma_mul_strict_inequality(ma, mb, pow2(pa) as int);
        assert(ma * pow2(pa) < mb * pow2(pa));
        vstd::arithmetic::mul::lemma_mul_is_commutative(ma, pow2(pa) as int);
        vstd::arithmetic::mul::lemma_mul_is_commutative(mb, pow2(pa) as int);
    } else {
        assert(ea < eb);
        assert(eb >= 1);
        assert(pb == eb - 1);
        assert(mb >= EXP_UNIT);
        // the larger binade starts above everything the smaller one holds
        vstd::arithmetic::mul::lemma_mul_inequality(u, mb, pow2(pb) as int);
        vstd::arithmetic::power2::lemma_pow2_adds(52, pb);
        assert(u == pow2(52));
        assert(u * pow2(pb) == pow2(52 + pb));
        if ea == 0 {
            // subnormal against normal: the fraction alone stays below 2^52
            assert(pa == 0);
            assert(pow2(0) == 1);
            vstd::arithmetic::mul::lemma_mul_basics(ma);
            assert(ma * pow2(pa) == ma);
            assert(ma < pow2(52));
            vstd::arithmetic::power2::lemma_pow2_strictly_increases(51, 52);
            assert(pow2(52) <= pow2(52 + pb)) by {
                if pb > 0 {
                    vstd::arithmetic::power2::lemma_pow2_strictly_increases(52, 52 + pb);
                }
            }
        } else {
            assert(pa == ea - 1);
            assert(pa + 1 <= pb);
            assert(ma < 2 * EXP_UNIT);
            vstd::arithmetic::mul::lemma_mul_strict_inequality(
                ma,
                2 * EXP_UNIT as int,
                pow2(pa) as int,
            );
            assert(ma * pow2(pa) < (2 * EXP_UNIT as int) * pow2(pa));
            vstd::arithmetic::power2::lemma_pow2_adds(53, pa);
            assert((2 * EXP_UNIT as int) == pow2(53));
            assert(pow2(53) * pow2(pa) == pow2(53 + pa));
            assert(pow2(53 + pa) <= pow2(52 + pb)) by {
                if 53 + pa < 52 + pb {
                    vstd::arithmetic::power2::lemma_pow2_strictly_increases(53 + pa, 52 + pb);
                }
            }
        }
    }
}

/// Zero scaled values come only from zero magnitudes.
proof fn lemma_scaled_zero(b: u64)
    requires
        is_finite(b),
    ensures
        magnitude(b) == 0 <==> mantissa(b) * pow2((pow2_exp(b) + 1074) as nat) == 0,
{
    broadcast use vstd::arithmetic::power2::lemma_pow2_pos;

    let u = EXP_UNIT as int;
    vstd::arithmetic::div_mod::lemma_fundamental_div_mod(magnitude(b), u);
    vstd::arithmetic::div_mod::lemma_mod_bound(magnitude(b), u);
    if mantissa(b) == 0 {
        assert(magnitude(b) == 0);
    } else {
        vstd::arithmetic::mul::lemma_mul_strict_inequality(
            0,
            mantissa(b),
            pow2((pow2_exp(b) + 1074) as nat) as int,
        );
        vstd::arithmetic::mul::lemma_mul_is_commutative(
            mantissa(b),
            pow2((pow2_exp(b) + 1074) as nat) as int,
        );
    }
}

/// The rank of finite patterns orders them exactly as the values they
/// encode: `rank(a) < rank(b)` holds precisely when `a`'s value is below
/// `b`'s.
pub proof fn lemma_rank_orders_values(a: u64, b: u64)
    requires
        is_finite(a),
        is_finite(b),
    ensures
        rank(a) < rank(b) <==> scaled_value(a) < scaled_value(b),
{
    broadcast use vstd::arithmetic::power2::lemma_pow2_pos;

    let wa = mantissa(a) * pow2((pow2_exp(a) + 1074) as nat);
    let wb = mantissa(b) * pow2((pow2_exp(b) + 1074) as nat);
    vstd::arithmetic::mul::lemma_mul_nonnegative(mantissa(a), pow2((pow2_exp(a) + 1074) as nat) as int);
    vstd::arithmetic::mul::lemma_mul_nonnegative(mantissa(b), pow2((pow2_exp(b) + 1074) as nat) as int);
    vstd::arithmetic::mul::lemma_mul_unary_negation(mantissa(a), pow2((pow2_exp(a) + 1074) as nat) as int);
    vstd::arithmetic::mul::lemma_mul_unary_negation(mantissa(b), pow2((pow2_exp(b) + 1074) as nat) as int);
    assert(scaled_value(a) == if is_negative(a) {
        -wa
    } else {
        wa
    });
    assert(scaled_value(b) == if is_negative(b) {
        -wb
    } else {
        wb
    });
    lemma_scaled_zero(a);
    lemma_scaled_zero(b);
    if magnitude(a) < magnitude(b) {
        lemma_abs_scaled_monotone(a, b);
    } else if magnitude(b) < magnitude(a) {
        lemma_abs_scaled_monotone(b, a);
    }
}

/// For two patterns that encode dyadic rationals over a common
/// denominator, the rank order is exactly the order of the numerators.
pub proof fn lemma_rank_orders_encoded_dyadics(a: u64, b: u64, na: int, nb: int, k: nat)
    requires
        encodes_dyadic(a, na, k),
        encodes_dyadic(b, nb, k),
        k <= 1074,
    ensures
        rank(a) < rank(b) <==> na < nb,
{
    broadcast use vstd::arithmetic::power2::lemma_pow2_pos;

    lemma_dyadic_scaled(a, na, k);
    lemma_dyadic_scaled(b, nb, k);
    let p = pow2((1074 - k) as nat) as int;
    if na < nb {
        vstd::arithmetic::mul::lemma_mul_strict_inequality(na, nb, p);
    }
    if nb < na {
        vstd::arithmetic::mul::lemma_mul_strict_inequality(nb, na, p);
    }
    lemma_rank_orders_values(a, b);
}

/// A pattern that encodes `n / 2^k` has the scaled value `n * 2^(1074-k)`.
proof fn lemma_dyadic_scaled(b: u64, n: int, k: nat)
    requires
        encodes_dyadic(b, n, k),
        k <= 1074,
    ensures
        scaled_value(b) == n * pow2((1074 - k) as nat),
{
    broadcast use vstd::arithmetic::power2::lemma_pow2_pos;

    let e = pow2_exp(b) + 1074;
    let s = pow2_exp(b) + k;
    if s >= 0 {
        // n == sm * 2^s, and the scaled value is sm * 2^e
        vstd::arithmetic::power2::lemma_pow2_adds(s as nat, (1074 - k) as nat);
        assert(pow2(s as nat) * pow2((1074 - k) as nat) == pow2(e as nat));
        vstd::arithmetic::mul::lemma_mul_is_associative(
            signed_mantissa(b),
            pow2(s as nat) as int,
            pow2((1074 - k) as nat) as int,
        );
    } else {
        // n * 2^(-s) == sm, so sm * 2^e == n * 2^(-s + e) == n * 2^(1074 - k)
        vstd::arithmetic::power2::lemma_pow2_adds((-s) as nat, e as nat);
        assert(pow2((-s) as nat) * pow2(e as nat) == pow2((1074 - k) as nat));
        vstd::arithmetic::mul::lemma_mul_is_associative(
            n,
            pow2((-s) as nat) as int,
            pow2(e as nat) as int,
        );
        assert(scaled_value(b) == (n * pow2((-s) as nat)) * pow2(e as nat));
        assert((n * pow2((-s) as nat)) * pow2(e as nat) == n * (pow2((-s) as nat)
            * pow2(e as nat)));
    }
}

/// Whether the pattern encodes a finite value.
pub fn finite_bits(b: u64) -> (r: bool)
    ensures
        r == is_finite(b),
{
    let m: u64 = if b >= SIGN_BIT {
        b - SIGN_BIT
    } else {
        b
    };
    m / EXP_UNIT != 0x7FF
}

/// Whether the value encoded by `a` is strictly below the value encoded by
/// `b`, decided on the bit patterns alone.
pub fn lt_bits(a: u64, b: u64) -> (r: bool)
    ensures
        r == (rank(a) < rank(b)),
{
    let neg_a = a >= SIGN_BIT;
    let neg_b = b >= SIGN_BIT;
    let mag_a: u64 = if neg_a {
        a - SIGN_BIT
    } else {
        a
    };
    let mag_b: u64 = if neg_b {
        b - SIGN_BIT
    } else {
        b
    };
    if neg_a {
        if neg_b {
            mag_b < mag_a
        } else {
            mag_a > 0 || mag_b > 0
        }
    } else {
        if neg_b {
            false
        } else {
            mag_a < mag_b
        }
    }
}

/// Whether the value encoded by `a` is at most the value encoded by `b`,
/// decided on the bit patterns alone.
pub fn le_bits(a: u64, b: u64) -> (r: bool)
    ensures
        r == (rank(a) <= rank(b)),
{
    !lt_bits(b, a)
}

} // verus!
