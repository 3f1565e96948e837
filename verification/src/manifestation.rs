//! Manifestation potential integrator: turns an externally produced
//! single-precision reading, addressed by index into a flat byte store, into
//! the bounded unsigned modifier the weighting engine consumes.
//!
//! A record is four bytes, a little-endian IEEE 754 binary32 value; this
//! module works on its raw bit pattern, so every step is exact integer
//! arithmetic. A reading that is NaN, infinite or negative degrades to a
//! fixed floor constant; a missing record degrades to the neutral modifier
//! zero. Valid readings are divided by the cohesion factor and floored.
//!
//! The cohesion factor is the binary32 value nearest 1/200: exactly
//! `COHESION_DIVISOR / 2^31`. Dividing a reading `m * 2^(e - 150)` by it and
//! flooring is therefore the exact integer quotient
//! `m * 2^(e - 119) / COHESION_DIVISOR`.

use vstd::arithmetic::div_mod::{lemma_basic_div, lemma_div_is_ordered, lemma_div_multiples_vanish};
use vstd::arithmetic::mul::{lemma_mul_inequality, lemma_mul_is_associative};
use vstd::arithmetic::power2::{
    lemma2_to64, lemma2_to64_rest, lemma_pow2_adds, lemma_pow2_pos, lemma_pow2_strictly_increases,
    pow2,
};
use vstd::prelude::*;

verus! {

/// Fallback multiplier for NaN, infinite or negative readings: the minimal
/// security floor.
pub const MULTIPLIER_FLOOR: u64 = 10_000_000;

/// Mantissa units of the cohesion factor: the factor is exactly
/// `COHESION_DIVISOR / 2^31`, the binary32 value nearest 1/200.
pub const COHESION_DIVISOR: u64 = 10_737_418;

/// Sign bit of a binary32 bit pattern.
pub open spec fn f32_sign_bit(bits: u32) -> u32 {
    bits >> 31
}

/// Biased exponent field of a binary32 bit pattern.
pub open spec fn f32_exponent(bits: u32) -> u32 {
    (bits >> 23) & 0xFF
}

/// Fraction field of a binary32 bit pattern.
pub open spec fn f32_fraction(bits: u32) -> u32 {
    bits & 0x7FFFFF
}

/// A reading is rejected when it is NaN, infinite (exponent field all ones)
/// or negative (sign bit set on anything but a negative zero).
pub open spec fn potential_rejected(bits: u32) -> bool {
    f32_exponent(bits) == 255 || (f32_sign_bit(bits) == 1 && !(f32_exponent(bits) == 0
        && f32_fraction(bits) == 0))
}

/// The mantissa of an accepted reading in whole units: the fraction field,
/// with the implicit leading one added for normal numbers.
pub open spec fn mantissa_units(bits: u32) -> int {
    if f32_exponent(bits) == 0 {
        f32_fraction(bits) as int
    } else {
        0x800000 + f32_fraction(bits) as int
    }
}

/// Power of two applied to the mantissa units in the quotient
/// `value / cohesion factor`: the reading is `mantissa * 2^(e - 150)` with
/// effective exponent `e` (subnormals share the exponent of `e == 1`), and
/// dividing by `COHESION_DIVISOR / 2^31` adds 31.
pub open spec fn cohesion_shift(bits: u32) -> int {
    (if f32_exponent(bits) == 0 {
        1int
    } else {
        f32_exponent(bits) as int
    }) - 119
}

/// Exact floor of an accepted reading divided by the cohesion factor.
pub open spec fn cohesion_quotient(bits: u32) -> int {
    let m = mantissa_units(bits);
    let s = cohesion_shift(bits);
    if s >= 0 {
        (m * pow2(s as nat)) / (COHESION_DIVISOR as int)
    } else {
        m / ((COHESION_DIVISOR as int) * pow2((-s) as nat))
    }
}

/// The modifier a reading converts to: the floor constant for rejected
/// readings, else the cohesion quotient saturated to 64 bits.
pub open spec fn potential_multiplier(bits: u32) -> u64 {
    if potential_rejected(bits) {
        MULTIPLIER_FLOOR
    } else if cohesion_quotient(bits) > u64::MAX {
        u64::MAX
    } else {
        cohesion_quotient(bits) as u64
    }
}

/// The bit pattern stored little-endian at record `index` of the store.
pub open spec fn record_bits(store: Seq<u8>, index: int) -> u32 {
    ((store[4 * index] as int) + (store[4 * index + 1] as int) * 0x100 + (store[4 * index + 2]
        as int) * 0x10000 + (store[4 * index + 3] as int) * 0x1000000) as u32
}

/// The structure responsible for integrating externally computed
/// manifestation potential readings.
pub struct ManifestationIntegrator;

impl ManifestationIntegrator {
    /// Reads the raw bit pattern of the potential record for one transaction
    /// index out of the flat byte store: four little-endian bytes at byte
    /// offset `index * 4`. Returns `None` exactly when the record does not
    /// lie whole inside the store.
    pub fn get_potential_for_svt(potential_data: &Vec<u8>, svt_index: usize) -> (r: Option<u32>)
        ensures
            r is Some <==> 4 * svt_index + 4 <= potential_data@.len(),
            r matches Some(bits) ==> bits == record_bits(potential_data@, svt_index as int),
    {
        if svt_index >= potential_data.len() / 4 {
            return None;
        }
        let offset = svt_index * 4;
        let b0 = potential_data[offset];
        let b1 = potential_data[offset + 1];
        let b2 = potential_data[offset + 2];
        let b3 = potential_data[offset + 3];
        Some((b0 as u32) + (b1 as u32) * 0x100 + (b2 as u32) * 0x10000 + (b3 as u32) * 0x1000000)
    }

    /// Converts a reading's bit pattern into the unsigned consensus
    /// modifier: the floor constant for NaN, infinite or negative readings,
    /// else the reading divided by the cohesion factor, floored and
    /// saturated to 64 bits. Never fails; invalid inputs degrade rather
    /// than propagate.
    pub fn calculate_potential_multiplier(potential_bits: u32) -> (r: u64)
        ensures
            r == potential_multiplier(potential_bits),
    {
        let sign = potential_bits >> 31;
        let exp = (potential_bits >> 23) & 0xFF;
        let frac = potential_bits & 0x7FFFFF;
        proof {
            assert(potential_bits & 0x7FFFFF <= 0x7FFFFF) by (bit_vector);
            assert((potential_bits >> 23) & 0xFF <= 255) by (bit_vector);
        }
        if exp == 255 || (sign == 1 && !(exp == 0 && frac == 0)) {
            return MULTIPLIER_FLOOR;
        }
        let mantissa: u32 = if exp == 0 {
            frac
        } else {
            0x800000 + frac
        };
        let effective_exp: u32 = if exp == 0 {
            1
        } else {
            exp
        };
        if effective_exp < 119 {
            proof {
                lemma_quotient_below_one(potential_bits);
            }
            return 0;
        }
        let shift: u32 = effective_exp - 119;
        if shift >= 65 {
            proof {
                lemma_quotient_saturates(potential_bits);
            }
            return u64::MAX;
        }
        let mut scaled: u128 = mantissa as u128;
        let mut step: u32 = 0;
        proof {
            lemma2_to64();
        }
        while step < shift
            invariant
                step <= shift,
                shift <= 64,
                mantissa <= 0xFFFFFF,
                scaled == (mantissa as int) * pow2(step as nat),
            decreases shift - step,
        {
            proof {
                lemma2_to64();
                lemma2_to64_rest();
                if (step as nat) < 63 {
                    lemma_pow2_strictly_increases(step as nat, 63);
                }
                lemma_mul_inequality(mantissa as int, 0xFFFFFF, pow2(step as nat) as int);
                lemma_mul_inequality(pow2(step as nat) as int, pow2(63) as int, 0xFFFFFF);
                assert(scaled <= 0xFFFFFF * pow2(63));
            }
            scaled = scaled * 2;
            proof {
                lemma_pow2_adds(step as nat, 1);
                assert(pow2(step as nat + 1) == pow2(step as nat) * 2);
                lemma_mul_is_associative(mantissa as int, pow2(step as nat) as int, 2);
            }
            step = step + 1;
        }
        let quotient: u128 = scaled / (COHESION_DIVISOR as u128);
        if quotient > 0xFFFF_FFFF_FFFF_FFFF {
            u64::MAX
        } else {
            quotient as u64
        }
    }

    /// Composes the record fetch with the multiplier conversion: a missing
    /// record yields the neutral modifier zero rather than an error, while
    /// a present but invalid reading degrades to the floor constant.
    pub fn integrate_potential_modifier(svt_index: usize, potential_data: &Vec<u8>) -> (r: u64)
        ensures
            4 * svt_index + 4 > potential_data@.len() ==> r == 0,
            4 * svt_index + 4 <= potential_data@.len() ==> r == potential_multiplier(
                record_bits(potential_data@, svt_index as int),
            ),
    {
        match Self::get_potential_for_svt(potential_data, svt_index) {
            Some(bits) => Self::calculate_potential_multiplier(bits),
            None => 0,
        }
    }
}

/// A reading whose effective exponent sits below the cohesion factor's
/// magnitude has a quotient below one, so its floor is zero.
proof fn lemma_quotient_below_one(bits: u32)
    requires
        !potential_rejected(bits),
        cohesion_shift(bits) < 0,
    ensures
        cohesion_quotient(bits) == 0,
{
    let m = mantissa_units(bits);
    let k = (-cohesion_shift(bits)) as nat;
    assert(bits & 0x7FFFFF <= 0x7FFFFF) by (bit_vector);
    lemma_pow2_pos((k - 1) as nat);
    lemma_pow2_adds(1, (k - 1) as nat);
    lemma2_to64();
    assert(pow2(k) >= 2);
    lemma_mul_inequality(2, pow2(k) as int, COHESION_DIVISOR as int);
    assert((COHESION_DIVISOR as int) * pow2(k) >= 2 * COHESION_DIVISOR);
    assert(0 <= m <= 0xFFFFFF);
    lemma_basic_div(m, (COHESION_DIVISOR as int) * pow2(k));
}

/// A reading whose effective exponent is 65 or more above the cohesion
/// factor's magnitude has a quotient past the 64-bit range.
proof fn lemma_quotient_saturates(bits: u32)
    requires
        !potential_rejected(bits),
        cohesion_shift(bits) >= 65,
    ensures
        cohesion_quotient(bits) > u64::MAX,
{
    let m = mantissa_units(bits);
    let s = cohesion_shift(bits) as nat;
    let d = COHESION_DIVISOR as int;
    lemma2_to64();
    assert(m >= 0x800000);
    if s > 65 {
        lemma_pow2_strictly_increases(65, s);
    }
    lemma_mul_inequality(0x800000, m, pow2(s) as int);
    lemma_mul_inequality(pow2(65) as int, pow2(s) as int, 0x800000);
    assert(m * pow2(s) >= 0x800000 * pow2(65));
    lemma_pow2_adds(23, 65);
    assert(0x800000 * pow2(65) == pow2(88));
    lemma_pow2_adds(64, 24);
    assert(pow2(88) == pow2(64) * pow2(24));
    lemma2_to64_rest();
    assert(pow2(64) * d < pow2(64) * pow2(24)) by {
        lemma_mul_inequality(d + 1, pow2(24) as int, pow2(64) as int);
    }
    assert(m * pow2(s) >= (pow2(64) as int) * d);
    lemma_div_is_ordered((pow2(64) as int) * d, m * pow2(s), d);
    lemma_div_multiples_vanish(pow2(64) as int, d);
    assert((m * pow2(s)) / d >= pow2(64));
    assert(pow2(64) > u64::MAX);
}

} // verus!
