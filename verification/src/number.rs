//! Truncation of a binary64 number to a 64-bit integer.
//!
//! A source number reaches the adapter as the 64 bits of its IEEE 754 binary64
//! encoding: one sign bit, eleven exponent bits, fifty-two fraction bits. An
//! integral column takes the number's whole part: the fraction is cut off, so
//! the result moves toward zero, never away from it. A number too large for
//! `i64` becomes the nearest bound, and a NaN becomes zero.

use vstd::arithmetic::power2::{lemma2_to64, lemma_pow2_pos, lemma_pow2_strictly_increases, pow2};
use vstd::bits::{lemma_u64_shl_is_mul, lemma_u64_shr_is_div};
use vstd::prelude::*;

verus! {

/// Two to the fifty-second: the weight of the exponent's lowest bit within an
/// encoding, and the hidden leading bit of a normal number's significand.
pub const HIDDEN_BIT: u64 = 0x10_0000_0000_0000;

/// The exponent field of a number whose magnitude is in `[1, 2)`.
pub const EXPONENT_OF_ONE: u64 = 1023;

/// The exponent field from which on the significand, read as an integer, is
/// the number's magnitude or a power-of-two multiple of it.
pub const EXPONENT_OF_WHOLE: u64 = 1075;

/// Whether the sign bit is set.
pub open spec fn is_negative(bits: u64) -> bool {
    bits >= 0x8000_0000_0000_0000
}

/// The eleven exponent bits.
pub open spec fn exponent_field(bits: u64) -> nat {
    (bits as nat / HIDDEN_BIT as nat) % 2048
}

/// The fifty-two fraction bits.
pub open spec fn fraction_field(bits: u64) -> nat {
    bits as nat % HIDDEN_BIT as nat
}

/// Whether the encoding is that of a NaN.
pub open spec fn is_nan(bits: u64) -> bool {
    exponent_field(bits) == 2047 && fraction_field(bits) != 0
}

/// The significand of a normal number as an integer: the fraction bits under
/// the hidden leading bit. The number's magnitude is this integer times two to
/// the power `exponent_field - 1075`.
pub open spec fn significand(bits: u64) -> nat {
    HIDDEN_BIT as nat + fraction_field(bits)
}

/// The whole part of the number's magnitude, unbounded.
///
/// Below an exponent field of 1023 the magnitude is less than one (this covers
/// zero and the subnormal numbers, which have no hidden bit). From 1075 on the
/// magnitude is a whole number already. In between, the low `1075 - exponent`
/// bits of the significand are the fractional part, and dividing drops them.
/// An infinity counts as a magnitude beyond every bound.
pub open spec fn whole_magnitude(bits: u64) -> nat {
    let e = exponent_field(bits);
    if e < EXPONENT_OF_ONE {
        0
    } else if e < EXPONENT_OF_WHOLE {
        significand(bits) / pow2((EXPONENT_OF_WHOLE - e) as nat)
    } else {
        significand(bits) * pow2((e - EXPONENT_OF_WHOLE) as nat)
    }
}

/// The integer that a binary64 number becomes in an integral column.
pub open spec fn truncated(bits: u64) -> int {
    if is_nan(bits) {
        0
    } else if is_negative(bits) {
        if whole_magnitude(bits) >= 0x8000_0000_0000_0000 {
            i64::MIN as int
        } else {
            -(whole_magnitude(bits) as int)
        }
    } else {
        if whole_magnitude(bits) > i64::MAX {
            i64::MAX as int
        } else {
            whole_magnitude(bits) as int
        }
    }
}

/// Truncates a binary64 number, given by its encoding, toward zero.
pub fn truncate_toward_zero(bits: u64) -> (r: i64)
    ensures
        r == truncated(bits),
{
    let exponent: u64 = (bits >> 52) & 0x7ff;
    let fraction: u64 = bits & 0xf_ffff_ffff_ffff;
    let negative: bool = (bits >> 63) == 1;
    proof {
        assert(((bits >> 52) & 0x7ff) == (bits / 0x10_0000_0000_0000) % 2048) by (bit_vector);
        assert((bits & 0xf_ffff_ffff_ffff) == bits % 0x10_0000_0000_0000) by (bit_vector);
        assert(((bits >> 63) == 1) == (bits >= 0x8000_0000_0000_0000)) by (bit_vector);
        assert(exponent == exponent_field(bits));
        assert(fraction == fraction_field(bits));
        assert(negative == is_negative(bits));
    }
    if exponent == 2047 && fraction != 0 {
        return 0;
    }
    if exponent < 1023 {
        return 0;
    }
    let mantissa: u64 = fraction | 0x10_0000_0000_0000;
    proof {
        assert(fraction < 0x10_0000_0000_0000 ==> (fraction | 0x10_0000_0000_0000) == fraction
            + 0x10_0000_0000_0000) by (bit_vector);
        assert(mantissa == significand(bits));
        lemma2_to64();
    }
    if exponent >= 1086 {
        proof {
            let k = (exponent - 1075) as nat;
            if k > 11 {
                lemma_pow2_strictly_increases(11, k);
            }
            assert(pow2(k) >= 2048);
            assert(mantissa * pow2(k) >= 0x8000_0000_0000_0000) by (nonlinear_arith)
                requires
                    mantissa >= 0x10_0000_0000_0000,
                    pow2(k) >= 2048,
            ;
        }
        return if negative {
            i64::MIN
        } else {
            i64::MAX
        };
    }
    let magnitude: u64 = if exponent >= 1075 {
        let shift: u64 = exponent - 1075;
        proof {
            let k = shift as nat;
            if k < 10 {
                lemma_pow2_strictly_increases(k, 10);
            }
            lemma_pow2_pos(k);
            assert(pow2(k) <= 1024);
            assert(mantissa * pow2(k) < 0x8000_0000_0000_0000) by (nonlinear_arith)
                requires
                    mantissa < 0x20_0000_0000_0000,
                    0 < pow2(k) <= 1024,
            ;
            lemma_u64_shl_is_mul(mantissa, shift);
        }
        mantissa << shift
    } else {
        let shift: u64 = 1075 - exponent;
        proof {
            lemma_pow2_pos(shift as nat);
            lemma_u64_shr_is_div(mantissa, shift);
            assert(mantissa as nat / pow2(shift as nat) <= mantissa) by (nonlinear_arith)
                requires
                    pow2(shift as nat) > 0,
            ;
        }
        mantissa >> shift
    };
    assert(magnitude == whole_magnitude(bits));
    assert(magnitude < 0x8000_0000_0000_0000);
    if negative {
        -(magnitude as i64)
    } else {
        magnitude as i64
    }
}

/// Truncation is toward zero. For a number with a fractional part, counted in
/// units of the significand's lowest bit, the whole part is the largest whole
/// number that does not exceed the magnitude: it is at most the magnitude, and
/// the next whole number is beyond it.
pub proof fn lemma_whole_part_is_floor(bits: u64)
    requires
        EXPONENT_OF_ONE <= exponent_field(bits) < EXPONENT_OF_WHOLE,
    ensures
        ({
            let unit = pow2((EXPONENT_OF_WHOLE - exponent_field(bits)) as nat);
            &&& whole_magnitude(bits) * unit <= significand(bits)
            &&& significand(bits) < (whole_magnitude(bits) + 1) * unit
        }),
{
    let unit = pow2((EXPONENT_OF_WHOLE - exponent_field(bits)) as nat);
    lemma_pow2_pos((EXPONENT_OF_WHOLE - exponent_field(bits)) as nat);
    let m = significand(bits);
    assert((m / unit) * unit <= m < (m / unit + 1) * unit) by (nonlinear_arith)
        requires
            unit > 0,
    ;
}

/// The result is a 64-bit integer, whatever the number.
pub proof fn lemma_truncated_fits(bits: u64)
    ensures
        i64::MIN <= truncated(bits) <= i64::MAX,
{
}

/// A number of magnitude below one truncates to zero, whatever its sign.
pub proof fn lemma_small_truncates_to_zero(bits: u64)
    requires
        exponent_field(bits) < EXPONENT_OF_ONE,
    ensures
        truncated(bits) == 0,
{
}

/// The sign of the result is the sign of the number: a negative number never
/// truncates to a positive integer, nor a positive one to a negative integer,
/// and the two numbers of one magnitude truncate to opposite integers unless
/// the magnitude is beyond `i64`.
pub proof fn lemma_truncation_mirrors_sign(positive: u64, negative: u64)
    requires
        !is_negative(positive),
        negative == positive + 0x8000_0000_0000_0000,
    ensures
        truncated(positive) >= 0,
        truncated(negative) <= 0,
        whole_magnitude(positive) <= i64::MAX ==> truncated(negative) == -truncated(positive),
{
    let p = positive as int;
    let n = negative as int;
    let h = HIDDEN_BIT as int;
    assert(n / h == p / h + 2048 && n % h == p % h) by {
        assert(n == p + 2048 * h);
        vstd::arithmetic::div_mod::lemma_fundamental_div_mod(p, h);
        vstd::arithmetic::div_mod::lemma_fundamental_div_mod_converse(
            n,
            h,
            p / h + 2048,
            p % h,
        );
    }
    assert(exponent_field(negative) == exponent_field(positive));
    assert(fraction_field(negative) == fraction_field(positive));
    assert(whole_magnitude(negative) == whole_magnitude(positive));
}

} // verus!
