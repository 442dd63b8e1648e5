//! Scaled-integer command values.
//!
//! Commands travel on the wire as 4-byte IEEE-754 single-precision
//! values, but the control logic works on an exact fixed-point form:
//! millionths of the commanded value ("micro-units"), saturated to the
//! command range `[-1, 1]`. Converting a wire bit pattern to micro-units
//! is plain integer arithmetic on the pattern's sign, exponent and
//! fraction fields, so the whole command path stays verifiable.

use vstd::arithmetic::div_mod::{lemma_basic_div, lemma_multiply_divide_lt};
use vstd::arithmetic::power2::{
    lemma2_to64, lemma2_to64_rest, lemma_pow2_adds, lemma_pow2_strictly_increases, pow2,
};
use vstd::bits::{lemma_u64_pow2_no_overflow, lemma_u64_shl_is_mul, lemma_u64_shr_is_div};
use vstd::prelude::*;

verus! {

/// The micro-unit magnitude of a value `m / 2^shift`, rounded to the
/// nearest micro-unit (ties away from zero).
pub open spec fn mag_micro(m: nat, shift: nat) -> int
    recommends
        shift >= 1,
{
    (m * 1_000_000 + pow2((shift - 1) as nat)) as int / pow2(shift) as int
}

/// The micro-unit command encoded by an IEEE-754 single-precision bit
/// pattern: the value rounded to the nearest millionth and saturated to
/// `[-1, 1]`. A quiet or signalling not-a-number pattern reads as 0, an
/// infinity as the saturated `1` or `-1`.
pub open spec fn micro_of_bits(bits: u32) -> int {
    let e = (bits >> 23) & 0xff;
    let f = bits & 0x7fffff;
    let neg = (bits >> 31) == 1u32;
    let mag: int = if e == 255 && f != 0 {
        0
    } else if e >= 127 {
        1_000_000
    } else if e == 0 {
        mag_micro(f as nat, 149)
    } else {
        mag_micro((0x800000 + f) as nat, (150 - e) as nat)
    };
    if neg {
        -mag
    } else {
        mag
    }
}

/// Converts a wire bit pattern to the micro-unit command it encodes.
pub fn micro_from_bits(bits: u32) -> (r: i32)
    ensures
        r == micro_of_bits(bits),
        -1_000_000 <= r <= 1_000_000,
{
    let e: u32 = (bits >> 23) & 0xff;
    let f: u32 = bits & 0x7fffff;
    let neg: bool = (bits >> 31) == 1;
    proof {
        assert((bits >> 23) & 0xff < 256) by (bit_vector);
        assert(bits & 0x7fffff < 0x800000) by (bit_vector);
    }
    let mag: i32 = if e == 255 && f != 0 {
        0
    } else if e >= 127 {
        1_000_000
    } else {
        let m: u64 = if e == 0 {
            f as u64
        } else {
            proof {
                assert((0x800000u32 | (bits & 0x7fffff)) == 0x800000 + (bits & 0x7fffff))
                    by (bit_vector);
            }
            (0x800000u32 | f) as u64
        };
        let shift: u64 = if e == 0 {
            149
        } else {
            (150 - e) as u64
        };
        if shift >= 45 {
            proof {
                lemma_mag_micro_small(m as nat, shift as nat);
            }
            0
        } else {
            let half: u64 = 1u64 << (shift - 1);
            proof {
                lemma2_to64();
                lemma2_to64_rest();
                lemma_u64_pow2_no_overflow((shift - 1) as nat);
                lemma_u64_shl_is_mul(1u64, (shift - 1) as u64);
                if shift - 1 < 43 {
                    lemma_pow2_strictly_increases((shift - 1) as nat, 43);
                }
                assert(half == pow2((shift - 1) as nat));
                assert(half <= pow2(43));
            }
            let num: u64 = m * 1_000_000 + half;
            proof {
                lemma_u64_shr_is_div(num, shift);
                lemma_mag_micro_bound(m as nat, shift as nat);
            }
            (num >> shift) as i32
        }
    };
    if neg {
        -mag
    } else {
        mag
    }
}

/// A value below `2^-44` has no nearest micro-unit above zero: its
/// rounded magnitude is 0.
proof fn lemma_mag_micro_small(m: nat, shift: nat)
    requires
        m < 0x1000000,
        45 <= shift,
    ensures
        mag_micro(m, shift) == 0,
{
    lemma2_to64();
    lemma2_to64_rest();
    if 44 < shift - 1 {
        lemma_pow2_strictly_increases(44, (shift - 1) as nat);
    }
    assert(m * 1_000_000 <= 0xffffff * 1_000_000);
    assert(m * 1_000_000 < pow2(44));
    assert(pow2(44) <= pow2((shift - 1) as nat));
    lemma_pow2_adds((shift - 1) as nat, 1);
    assert(pow2(shift) == pow2((shift - 1) as nat) * 2);
    assert(m * 1_000_000 + pow2((shift - 1) as nat) < pow2(shift));
    lemma_basic_div((m * 1_000_000 + pow2((shift - 1) as nat)) as int, pow2(shift) as int);
}

/// For magnitudes below one unit, the rounded micro-unit magnitude
/// never exceeds one million.
proof fn lemma_mag_micro_bound(m: nat, shift: nat)
    requires
        m < 0x1000000,
        24 <= shift <= 44,
    ensures
        0 <= mag_micro(m, shift) <= 1_000_000,
{
    lemma2_to64();
    if 24 < shift {
        lemma_pow2_strictly_increases(24, shift);
    }
    assert(m < pow2(shift));
    assert(m * 1_000_000 <= (pow2(shift) - 1) * 1_000_000);
    lemma_pow2_strictly_increases((shift - 1) as nat, shift);
    assert(m * 1_000_000 + pow2((shift - 1) as nat) < pow2(shift) * 1_000_001);
    lemma_multiply_divide_lt(
        (m * 1_000_000 + pow2((shift - 1) as nat)) as int,
        pow2(shift) as int,
        1_000_001,
    );
}

/// The all-zero bit pattern is the command 0: what the failsafe writes.
pub proof fn lemma_zero_bits_is_zero()
    ensures
        micro_of_bits(0) == 0,
{
    assert((0u32 >> 23) & 0xff == 0) by (bit_vector);
    assert(0u32 & 0x7fffff == 0) by (bit_vector);
    assert((0u32 >> 31) != 1) by (bit_vector);
    lemma2_to64();
    lemma2_to64_rest();
    lemma_pow2_strictly_increases(148, 149);
    lemma_basic_div((0 * 1_000_000 + pow2(148)) as int, pow2(149) as int);
}

/// Scaling the command 0 yields 0, whatever the factor.
pub proof fn lemma_scaled_zero(factor: int)
    ensures
        scaled_micro(0, factor) == 0,
{
    lemma_basic_div(500_000, 1_000_000);
}

/// The product of two micro-unit values, scaled back to micro-units and
/// rounded to the nearest (ties away from zero): multiplying a command
/// by a micro-unit factor.
pub open spec fn scaled_micro(v: int, factor: int) -> int {
    let p = v * factor;
    if p >= 0 {
        (p + 500_000) / 1_000_000
    } else {
        -((-p + 500_000) / 1_000_000)
    }
}

/// Multiplies a micro-unit value by a micro-unit factor.
pub fn scale_micro(v: i32, factor: i32) -> (r: i32)
    requires
        -1_000_000 <= v <= 1_000_000,
        -1_000_000 <= factor <= 1_000_000,
    ensures
        r == scaled_micro(v as int, factor as int),
        -1_000_000 <= r <= 1_000_000,
{
    proof {
        assert((v as int) * (factor as int) <= 1_000_000_000_000 && (v as int) * (factor as int)
            >= -1_000_000_000_000) by (nonlinear_arith)
            requires
                -1_000_000 <= v as int <= 1_000_000,
                -1_000_000 <= factor as int <= 1_000_000,
        ;
    }
    let p: i64 = (v as i64) * (factor as i64);
    let neg: bool = p < 0;
    let mag: u64 = if neg {
        (-p) as u64
    } else {
        p as u64
    };
    let m: u64 = (mag + 500_000) / 1_000_000;
    proof {
        lemma_multiply_divide_lt((mag + 500_000) as int, 1_000_000, 1_000_001);
    }
    if neg {
        -(m as i32)
    } else {
        m as i32
    }
}

} // verus!
