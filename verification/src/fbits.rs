//! Exact integer models of the few IEEE-754 single-precision operations the
//! compiler applies to its constants. A scalar is carried as the 32-bit
//! pattern of the value it denotes; every function here is a pure function
//! of those patterns, so compilation is deterministic bit for bit.

use vstd::prelude::*;

verus! {

/// Sign bit of a single-precision pattern.
pub const SIGN_MASK: u32 = 0x8000_0000;

/// Exponent field of a single-precision pattern.
pub const EXP_MASK: u32 = 0x7F80_0000;

/// Fraction field of a single-precision pattern.
pub const FRAC_MASK: u32 = 0x007F_FFFF;

/// Pattern of positive infinity.
pub const POS_INF_BITS: u32 = 0x7F80_0000;

/// Pattern of the canonical quiet NaN.
pub const QUIET_NAN_BITS: u32 = 0x7FC0_0000;

/// The pattern is a NaN: exponent all ones, fraction nonzero.
pub open spec fn is_nan_bits(a: u32) -> bool {
    (a & EXP_MASK) == EXP_MASK && (a & FRAC_MASK) != 0
}

/// The pattern is a zero of either sign.
pub open spec fn is_zero_bits(a: u32) -> bool {
    (a & 0x7FFF_FFFF) == 0
}

/// The sign bit is set: the value is negative, a negative zero, or a NaN
/// with the sign bit set.
pub open spec fn sign_bits(a: u32) -> bool {
    (a & SIGN_MASK) != 0
}

/// IEEE-754 equality of the two denoted values: NaN equals nothing, the two
/// zeros are equal, and any other pair is equal exactly when the patterns are.
pub open spec fn f32_eq_bits(a: u32, b: u32) -> bool {
    !is_nan_bits(a) && !is_nan_bits(b) && (a == b || (is_zero_bits(a) && is_zero_bits(b)))
}

/// IEEE-754 `<` on two non-NaN patterns: signed-magnitude order, with the
/// two zeros equal. False when either pattern is a NaN.
pub open spec fn f32_lt_bits(a: u32, b: u32) -> bool {
    &&& !is_nan_bits(a)
    &&& !is_nan_bits(b)
    &&& if is_zero_bits(a) && is_zero_bits(b) {
        false
    } else if sign_bits(a) != sign_bits(b) {
        sign_bits(a)
    } else if sign_bits(a) {
        b < a
    } else {
        a < b
    }
}

/// IEEE-754 `<=`: equal or less, false when either pattern is a NaN.
pub open spec fn f32_le_bits(a: u32, b: u32) -> bool {
    f32_eq_bits(a, b) || f32_lt_bits(a, b)
}

/// Exact IEEE-754 negation: the sign bit flips and nothing else moves.
pub open spec fn negated_bits(a: u32) -> u32 {
    a ^ SIGN_MASK
}

/// IEEE-754 equality of the denoted values.
pub fn f32_eq(a: u32, b: u32) -> (r: bool)
    ensures
        r == f32_eq_bits(a, b),
{
    let a_nan: bool = (a & EXP_MASK) == EXP_MASK && (a & FRAC_MASK) != 0;
    let b_nan: bool = (b & EXP_MASK) == EXP_MASK && (b & FRAC_MASK) != 0;
    !a_nan && !b_nan && (a == b || ((a & 0x7FFF_FFFF) == 0 && (b & 0x7FFF_FFFF) == 0))
}

/// IEEE-754 `<` on the denoted values; false when either is a NaN.
pub fn f32_lt(a: u32, b: u32) -> (r: bool)
    ensures
        r == f32_lt_bits(a, b),
{
    let a_nan: bool = (a & EXP_MASK) == EXP_MASK && (a & FRAC_MASK) != 0;
    let b_nan: bool = (b & EXP_MASK) == EXP_MASK && (b & FRAC_MASK) != 0;
    if a_nan || b_nan {
        false
    } else if (a & 0x7FFF_FFFF) == 0 && (b & 0x7FFF_FFFF) == 0 {
        false
    } else if ((a & SIGN_MASK) != 0) != ((b & SIGN_MASK) != 0) {
        (a & SIGN_MASK) != 0
    } else if (a & SIGN_MASK) != 0 {
        b < a
    } else {
        a < b
    }
}

/// IEEE-754 `<=` on the denoted values; false when either is a NaN.
pub fn f32_le(a: u32, b: u32) -> (r: bool)
    ensures
        r == f32_le_bits(a, b),
{
    f32_eq(a, b) || f32_lt(a, b)
}

/// Negation: flips the sign bit.
pub fn f32_neg(a: u32) -> (r: u32)
    ensures
        r == negated_bits(a),
{
    a ^ SIGN_MASK
}

/// Negating twice gives the pattern back.
pub proof fn lemma_neg_involution(a: u32)
    ensures
        negated_bits(negated_bits(a)) == a,
{
    assert((a ^ SIGN_MASK) ^ SIGN_MASK == a) by (bit_vector);
}

/// Pattern of the least smoothing size the compiler emits (1e-4).
pub const MIN_SMOOTHING_BITS: u32 = 0x38D1_B717;

/// Pattern of the least sagitta a biconvex lens accepts (1e-3).
pub const MIN_SAGITTA_BITS: u32 = 0x3A83_126F;

/// The result of `max(a, 1e-4)` on the denoted values: the argument itself
/// when it is a value above the floor, and the floor on anything else
/// (smaller values, zeros, negative values, NaN). On non-negative non-NaN
/// patterns the unsigned order of the patterns is the order of the values.
pub open spec fn clamped_smoothing_bits(a: u32) -> u32 {
    if !is_nan_bits(a) && !sign_bits(a) && a > MIN_SMOOTHING_BITS {
        a
    } else {
        MIN_SMOOTHING_BITS
    }
}

/// `max(a, 1e-4)` on the denoted values, as the compiler applies it to
/// smoothing sizes.
pub fn f32_clamp_smoothing(a: u32) -> (r: u32)
    ensures
        r == clamped_smoothing_bits(a),
{
    let a_nan: bool = (a & EXP_MASK) == EXP_MASK && (a & FRAC_MASK) != 0;
    if !a_nan && (a & SIGN_MASK) == 0 && a > MIN_SMOOTHING_BITS {
        a
    } else {
        MIN_SMOOTHING_BITS
    }
}

/// Clamping a smoothing size twice gives the same pattern as clamping once.
pub proof fn lemma_clamp_smoothing_idempotent(a: u32)
    ensures
        clamped_smoothing_bits(clamped_smoothing_bits(a)) == clamped_smoothing_bits(a),
{
    assert((MIN_SMOOTHING_BITS & EXP_MASK) != EXP_MASK) by (bit_vector);
    assert((MIN_SMOOTHING_BITS & SIGN_MASK) == 0) by (bit_vector);
}

/// Exact IEEE-754 halving (round to nearest, ties to even): the exponent
/// drops by one; at the bottom of the exponent range the significand shifts
/// into the subnormals and the dropped bit rounds to even. Infinities and
/// NaNs are unchanged.
pub open spec fn half_bits(a: u32) -> u32 {
    let s = a & SIGN_MASK;
    let e = (a >> 23) & 0xFF;
    let m = a & FRAC_MASK;
    if e == 0xFF {
        a
    } else if e >= 2 {
        (s + (e - 1) * 0x0080_0000 + m) as u32
    } else {
        let mm = if e == 1 {
            (0x0080_0000 + m) as u32
        } else {
            m
        };
        let q = mm / 2;
        let tie = if mm % 2 == 1 && q % 2 == 1 { 1 as u32 } else { 0 as u32 };
        (s + q + tie) as u32
    }
}

/// Halves the denoted value, exactly as dividing by two does.
pub fn f32_half(a: u32) -> (r: u32)
    ensures
        r == half_bits(a),
{
    let s: u32 = a & SIGN_MASK;
    let e: u32 = (a >> 23) & 0xFF;
    let m: u32 = a & FRAC_MASK;
    proof {
        assert((a & SIGN_MASK) == 0 || (a & SIGN_MASK) == 0x8000_0000) by (bit_vector);
        assert(((a >> 23) & 0xFF) <= 0xFF) by (bit_vector);
        assert((a & FRAC_MASK) <= FRAC_MASK) by (bit_vector);
    }
    if e == 0xFF {
        a
    } else if e >= 2 {
        s + (e - 1) * 0x0080_0000 + m
    } else {
        let mm: u32 = if e == 1 {
            0x0080_0000 + m
        } else {
            m
        };
        let q: u32 = mm / 2;
        let tie: u32 = if mm % 2 == 1 && q % 2 == 1 { 1 } else { 0 };
        s + q + tie
    }
}

/// The result of `clamp(x, lo, hi)` on the denoted values: `lo` when the
/// value is below `lo`, `hi` when it is above `hi`, otherwise the value
/// itself; a NaN passes through.
pub open spec fn clamped_bits(x: u32, lo: u32, hi: u32) -> u32 {
    if is_nan_bits(x) {
        x
    } else if f32_lt_bits(x, lo) {
        lo
    } else if f32_lt_bits(hi, x) {
        hi
    } else {
        x
    }
}

/// `clamp(x, lo, hi)` on the denoted values. The bounds must be an ordered
/// pair of non-NaN values, as the standard clamp demands.
pub fn f32_clamp(x: u32, lo: u32, hi: u32) -> (r: u32)
    requires
        !is_nan_bits(lo),
        !is_nan_bits(hi),
        f32_le_bits(lo, hi),
    ensures
        r == clamped_bits(x, lo, hi),
{
    let x_nan: bool = (x & EXP_MASK) == EXP_MASK && (x & FRAC_MASK) != 0;
    if x_nan {
        x
    } else if f32_lt(x, lo) {
        lo
    } else if f32_lt(hi, x) {
        hi
    } else {
        x
    }
}

/// Quotient of `n / m` rounded to nearest, ties to even.
pub open spec fn spec_rounded_div(n: int, m: int) -> int {
    let q = n / m;
    let r = n % m;
    if 2 * r > m {
        q + 1
    } else if 2 * r < m {
        q
    } else {
        q + (q % 2)
    }
}

/// The significand `m`, doubled until it reaches the normal range
/// `[2^23, 2^24)`.
pub open spec fn spec_norm_m(m: int) -> int
    decreases 0x0080_0000 - m
        when 1 <= m < 0x0080_0000
{
    if 2 * m >= 0x0080_0000 {
        2 * m
    } else {
        spec_norm_m(2 * m)
    }
}

/// How many doublings [`spec_norm_m`] takes.
pub open spec fn spec_norm_shift(m: int) -> int
    decreases 0x0080_0000 - m
        when 1 <= m < 0x0080_0000
{
    if 2 * m >= 0x0080_0000 {
        1
    } else {
        1 + spec_norm_shift(2 * m)
    }
}

/// The reciprocal `1/x` of the denoted value, rounded to nearest with ties
/// to even: the exact IEEE-754 single-precision quotient. A NaN gives the
/// canonical quiet NaN; infinities give the zero of the same sign and zeros
/// the infinity of the same sign; a result too large in magnitude gives an
/// infinity and a tiny one a subnormal.
pub open spec fn spec_recip_bits(a: u32) -> u32 {
    let s = (a & SIGN_MASK) as int;
    let e = ((a >> 23) & 0xFF) as int;
    let m = (a & FRAC_MASK) as int;
    if e == 0xFF {
        if m != 0 {
            QUIET_NAN_BITS
        } else {
            s as u32
        }
    } else if e == 0 && m == 0 {
        (s + POS_INF_BITS) as u32
    } else if e >= 253 {
        // The reciprocal is subnormal (or the least normal value): round the
        // exact value, counted in units of 2^-149, in one step.
        let n = if e == 253 {
            0x4000_0000_0000
        } else {
            0x2000_0000_0000
        };
        (s + spec_rounded_div(n, 0x0080_0000 + m)) as u32
    } else {
        let mm = if e == 0 {
            spec_norm_m(m)
        } else {
            0x0080_0000 + m
        };
        let ee = if e == 0 {
            -149 - spec_norm_shift(m)
        } else {
            e - 150
        };
        let q = spec_rounded_div(0x8000_0000_0000, mm);
        let mant = if q == 0x0100_0000 {
            0x0080_0000
        } else {
            q
        };
        let g = if q == 0x0100_0000 {
            -23 - ee
        } else {
            -24 - ee
        };
        let biased = g + 127;
        if biased >= 255 {
            (s + POS_INF_BITS) as u32
        } else {
            (s + biased * 0x0080_0000 + (mant - 0x0080_0000)) as u32
        }
    }
}

/// Quotient of `n / m` rounded to nearest, ties to even.
fn rounded_div(n: u64, m: u64) -> (r: u64)
    requires
        1 <= m < 0x0100_0000,
        n <= 0x8000_0000_0000,
    ensures
        r == spec_rounded_div(n as int, m as int),
        (n as int) / (m as int) <= r <= (n as int) / (m as int) + 1,
{
    let q: u64 = n / m;
    let rem: u64 = n % m;
    if 2 * rem > m {
        q + 1
    } else if 2 * rem < m {
        q
    } else {
        q + (q % 2)
    }
}

/// The significand doubled into `[2^23, 2^24)`, with the number of doublings.
fn norm_sub(m: u32) -> (r: (u32, u32))
    requires
        1 <= m < 0x0080_0000,
    ensures
        r.0 == spec_norm_m(m as int),
        r.1 == spec_norm_shift(m as int),
        0x0080_0000 <= r.0 < 0x0100_0000,
        r.0 as nat == m as nat * vstd::arithmetic::power2::pow2(r.1 as nat),
        1 <= r.1 <= 23,
    decreases 0x0080_0000 - m,
{
    let d: u32 = 2 * m;
    if d >= 0x0080_0000 {
        proof {
            vstd::arithmetic::power2::lemma2_to64();
        }
        (d, 1)
    } else {
        let (mm, sh): (u32, u32) = norm_sub(d);
        proof {
            vstd::arithmetic::power2::lemma_pow2_adds(sh as nat, 1);
            vstd::arithmetic::power2::lemma2_to64();
            assert(m as nat * (vstd::arithmetic::power2::pow2(sh as nat) * 2) == (2 * m as nat)
                * vstd::arithmetic::power2::pow2(sh as nat)) by (nonlinear_arith);
            // The product m * 2^(sh + 1) stays below 2^24, so sh + 1 <= 23.
            if sh + 1 > 23 {
                if sh + 1 > 24 {
                    vstd::arithmetic::power2::lemma_pow2_strictly_increases(24, (sh + 1) as nat);
                }
                assert(m as nat * vstd::arithmetic::power2::pow2((sh + 1) as nat)
                    >= vstd::arithmetic::power2::pow2((sh + 1) as nat)) by (nonlinear_arith)
                    requires
                        m as nat >= 1,
                ;
            }
        }
        (mm, sh + 1)
    }
}

/// The IEEE-754 single-precision reciprocal of the denoted value, rounded to
/// nearest with ties to even.
pub fn f32_recip(a: u32) -> (r: u32)
    ensures
        r == spec_recip_bits(a),
{
    let s: u32 = a & SIGN_MASK;
    let e: u32 = (a >> 23) & 0xFF;
    let m: u32 = a & FRAC_MASK;
    proof {
        assert((a & SIGN_MASK) == 0 || (a & SIGN_MASK) == 0x8000_0000) by (bit_vector);
        assert(((a >> 23) & 0xFF) <= 0xFF) by (bit_vector);
        assert((a & FRAC_MASK) <= FRAC_MASK) by (bit_vector);
    }
    if e == 0xFF {
        if m != 0 {
            QUIET_NAN_BITS
        } else {
            s
        }
    } else if e == 0 && m == 0 {
        s + POS_INF_BITS
    } else if e >= 253 {
        let big_m: u64 = 0x0080_0000u64 + m as u64;
        let n: u64 = if e == 253 {
            0x4000_0000_0000
        } else {
            0x2000_0000_0000
        };
        let nn: u64 = rounded_div(n, big_m);
        proof {
            // floor(n / big_m) <= 2^23 since big_m >= 2^23 and n <= 2^46;
            // the round-up case stays below that bound.
            assert((n as int) / (big_m as int) <= 0x0080_0000 - 1 || ((n as int) / (big_m as int) == 0x0080_0000 && (n as int) % (big_m as int) == 0))
                by (nonlinear_arith)
                requires
                    0x0080_0000 <= (big_m as int),
                    (n as int) <= 0x4000_0000_0000,
            ;
        }
        s + (nn as u32)
    } else {
        let (mm64, ee): (u64, i64) = if e == 0 {
            let (m2, sh): (u32, u32) = norm_sub(m);
            (m2 as u64, -149 - (sh as i64))
        } else {
            ((0x0080_0000u32 + m) as u64, (e as i64) - 150)
        };
        let q: u64 = rounded_div(0x8000_0000_0000, mm64);
        proof {
            let qf = (0x8000_0000_0000 as int) / (mm64 as int);
            assert(0x0080_0000 <= qf) by (nonlinear_arith)
                requires
                    0x0080_0000 <= (mm64 as int) && (mm64 as int) < 0x0100_0000,
                    qf == (0x8000_0000_0000 as int) / (mm64 as int),
            ;
            assert((mm64 as int) > 0x0080_0000 ==> qf <= 0x0100_0000 - 2) by (nonlinear_arith)
                requires
                    0x0080_0000 <= (mm64 as int) && (mm64 as int) < 0x0100_0000,
                    qf == (0x8000_0000_0000 as int) / (mm64 as int),
            ;
            assert((mm64 as int) == 0x0080_0000 ==> qf == 0x0100_0000 && (0x8000_0000_0000 as int) % (mm64 as int) == 0)
                by (nonlinear_arith)
                requires
                    0x0080_0000 <= (mm64 as int),
                    qf == (0x8000_0000_0000 as int) / (mm64 as int),
            ;
        }
        let (mant, g): (u64, i64) = if q == 0x0100_0000 {
            (0x0080_0000u64, -23 - ee)
        } else {
            (q, -24 - ee)
        };
        let biased: i64 = g + 127;
        if biased >= 255 {
            s + POS_INF_BITS
        } else {
            s + (biased as u32) * 0x0080_0000 + ((mant as u32) - 0x0080_0000)
        }
    }
}

} // verus!

