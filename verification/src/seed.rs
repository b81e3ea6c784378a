//! The seed hash: a deterministic, positional-weighted transform from a seed
//! string to the 64-bit base seed of a planet.
//!
//! Each byte of the string contributes `27^(255 - i) * (1 + byte)` at position
//! `i`, with every operation performed in wrapping machine arithmetic: the
//! weight exponent wraps in 32 bits and the weights, products and running sum
//! all wrap in 64 bits.

use vstd::prelude::*;

verus! {

use vstd::arithmetic::power::{
    pow, lemma_pow0, lemma_pow1, lemma_pow_adds, lemma_pow_mod_noop, lemma_pow_multiplies,
};
use vstd::arithmetic::div_mod::{lemma_mul_mod_noop_general, lemma_mul_mod_noop_right};
use vstd::string::StringSliceAdditionalSpecFns;

/// The modulus of wrapping 64-bit arithmetic.
pub open spec fn m64() -> int {
    0x1_0000_0000_0000_0000
}

/// The modulus of wrapping 32-bit arithmetic.
pub open spec fn m32() -> int {
    0x1_0000_0000
}

/// The weight exponent for byte position `i`: `255 - i`, as 32-bit wrapping
/// arithmetic computes it.
pub open spec fn weight_exp(i: nat) -> nat {
    ((255 - (i as int % m32())) % m32()) as nat
}

/// The positional weight `27^e`, reduced modulo `2^64`.
pub open spec fn pow27_mod(e: nat) -> int {
    pow(27, e) % m64()
}

/// The hash of the first `n` bytes of `s`: a weighted sum of `1 + byte`,
/// folded left to right modulo `2^64`.
pub open spec fn seed_hash_prefix(s: Seq<u8>, n: nat) -> int
    decreases n,
{
    if n == 0 {
        0
    } else {
        (seed_hash_prefix(s, (n - 1) as nat) + pow27_mod(weight_exp((n - 1) as nat)) * (1 + s[n
            - 1])) % m64()
    }
}

/// The seed hash of a whole byte sequence.
pub open spec fn seed_hash(s: Seq<u8>) -> int {
    seed_hash_prefix(s, s.len())
}

/// `27^e` modulo `2^64`, by binary exponentiation.
fn pow27_wrapping(e: u32) -> (r: u64)
    ensures
        r == pow27_mod(e as nat),
{
    let mut result: u64 = 1;
    let mut base: u64 = 27;
    let mut exp: u32 = e;
    while exp > 0
        invariant
            (result * pow(base as int, exp as nat)) % m64() == pow(27, e as nat) % m64(),
        decreases exp,
    {
        if exp % 2 == 1 {
            proof {
                lemma_pow1(base as int);
                lemma_pow_adds(base as int, 1nat, (exp - 1) as nat);
                assert(pow(base as int, exp as nat) == base * pow(base as int, (exp - 1) as nat));
                lemma_mul_mod_noop_general(
                    result as int,
                    base as int,
                    m64(),
                );
                lemma_mul_mod_noop_general(
                    (result * base) % m64(),
                    pow(base as int, (exp - 1) as nat),
                    m64(),
                );
                lemma_mul_mod_noop_general(
                    result * base,
                    pow(base as int, (exp - 1) as nat),
                    m64(),
                );
                assert((result * base) * pow(base as int, (exp - 1) as nat) == result * (base * pow(
                    base as int,
                    (exp - 1) as nat,
                ))) by (nonlinear_arith);
            }
            result = result.wrapping_mul(base);
            exp = exp - 1;
        } else {
            proof {
                let k = (exp / 2) as nat;
                lemma_pow_multiplies(base as int, 2nat, k);
                lemma_pow1(base as int);
                lemma_pow_adds(base as int, 1nat, 1nat);
                assert(pow(base as int, 2nat) == base * base);
                lemma_pow_mod_noop((base * base) as int, k, m64());
                lemma_mul_mod_noop_right(result as int, pow(((base * base) % m64()), k), m64());
                lemma_mul_mod_noop_right(result as int, pow((base * base) as int, k), m64());
                assert(2 * k == exp as nat);
            }
            base = base.wrapping_mul(base);
            exp = exp / 2;
        }
    }
    proof {
        lemma_pow0(base as int);
        assert((result as int) % m64() == result as int);
    }
    result
}

/// Hashes a seed string to the 64-bit base seed of a planet.
///
/// The result is exactly the positional-weighted sum [`seed_hash`] of the
/// string's bytes, for a string of any length.
pub fn seed_to_u64(seed: &str) -> (r: u64)
    ensures
        r as int == seed_hash(seed.spec_bytes()),
{
    let bytes = seed.as_bytes();
    let mut value: u64 = 0;
    let n = bytes.len();
    for i in 0..n
        invariant
            n == bytes@.len(),
            bytes@ == seed.spec_bytes(),
            value as int == seed_hash_prefix(seed.spec_bytes(), i as nat),
    {
        let ei: u32 = ((i as u64) % 0x1_0000_0000) as u32;
        let e: u32 = 255u32.wrapping_sub(ei);
        proof {
            assert(e as nat == weight_exp(i as nat));
        }
        let w = pow27_wrapping(e);
        let term = w.wrapping_mul(1 + bytes[i] as u64);
        proof {
            let prev = value as int;
            let wt = pow27_mod(weight_exp(i as nat));
            let b = 1 + bytes@[i as int];
            lemma_mul_mod_noop_general(pow(27, weight_exp(i as nat)), b as int, m64());
            assert(term as int == (wt * b) % m64());
            assert((prev + (wt * b) % m64()) % m64() == (prev + wt * b) % m64()) by {
                vstd::arithmetic::div_mod::lemma_add_mod_noop_right(prev, wt * b, m64());
            }
        }
        value = value.wrapping_add(term);
    }
    value
}

} // verus!
