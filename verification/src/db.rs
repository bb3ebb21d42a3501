//! Fixed-point decibel conversion for volume factors.
//!
//! The volume filter takes a gain in decibels with one fractional digit,
//! while requests carry a linear factor (here in ten-thousandths). The
//! conversion `20 * log10(factor)` is carried out in integer arithmetic:
//! a base-2 logarithm with 20 fractional bits, obtained digit by digit by
//! squaring a 32-bit mantissa, is scaled by `200 * log10(2)` held in the
//! same fixed-point format, then rounded to the nearest tenth of a decibel.

use vstd::arithmetic::power2::{
    lemma2_to64, lemma_pow2_strictly_increases, lemma_pow2_unfold, pow2,
};
use vstd::prelude::*;

verus! {

/// Doubles `m` until it reaches [2^31, 2^32); yields the normalized
/// mantissa and the number of doublings taken.
pub open spec fn spec_norm(m: nat) -> (nat, nat)
    decreases (if m < 0x80000000 { (0x80000000 - m) as int } else { 0int }),
{
    if m == 0 {
        (0, 0)
    } else if m >= 0x80000000 {
        (m, 0)
    } else {
        let rec = spec_norm(m * 2);
        (rec.0, rec.1 + 1)
    }
}

/// The first `k` fractional bits of `log2(m / 2^31)`, most significant
/// first, for a mantissa `m` in [2^31, 2^32): squaring the mantissa
/// doubles the logarithm, and the bit records whether it passed 2^32.
pub open spec fn spec_frac(m: nat, k: nat) -> nat
    decreases k,
{
    if k == 0 {
        0
    } else {
        let m2 = (m * m) / 0x80000000;
        if m2 >= 0x100000000 {
            pow2((k - 1) as nat) + spec_frac(m2 / 2, (k - 1) as nat)
        } else {
            spec_frac(m2, (k - 1) as nat)
        }
    }
}

/// `log2(n)` in fixed point with 20 fractional bits, rounded down.
pub open spec fn spec_log2_q20(n: nat) -> nat {
    let m = spec_norm(n).0;
    let z = spec_norm(n).1;
    let e = if z <= 31 {
        (31 - z) as nat
    } else {
        0nat
    };
    e * 0x100000 + spec_frac(m, 20)
}

/// `20 * log10(v / 10000)` rounded to the nearest tenth of a decibel:
/// the difference of the two fixed-point base-2 logarithms, scaled by
/// `200 * log10(2)` in the same 2^20 fixed-point format.
pub open spec fn spec_db_tenths(v: nat) -> int {
    let a = spec_log2_q20(v);
    let b = spec_log2_q20(10000);
    if a >= b {
        (((a - b) * 63130566 + 0x8000000000) / 0x10000000000) as int
    } else {
        -((((b - a) * 63130566 + 0x8000000000) / 0x10000000000) as int)
    }
}

/// The normalized mantissa equals `m` shifted by the doubling count, so
/// the count stays at most 31 for any 32-bit input.
proof fn lemma_norm(m: nat)
    requires
        1 <= m < 0x100000000,
    ensures
        spec_norm(m).0 == m * pow2(spec_norm(m).1),
        0x80000000 <= spec_norm(m).0 < 0x100000000,
        spec_norm(m).1 <= 31,
    decreases (if m < 0x80000000 { (0x80000000 - m) as int } else { 0int }),
{
    lemma2_to64();
    if m >= 0x80000000 {
        assert(pow2(0) == 1);
        assert(m * pow2(0) == m) by (nonlinear_arith)
            requires
                pow2(0) == 1,
        ;
    } else {
        lemma_norm(m * 2);
        let z = spec_norm(m * 2).1;
        lemma_pow2_unfold(z + 1);
        assert((m * 2) * pow2(z) == m * (2 * pow2(z))) by (nonlinear_arith);
        if z + 1 > 31 {
            // then z == 31, but 2m * 2^31 >= 2^32 contradicts the bound
            assert(m * 2 >= 2);
            assert((m * 2) * pow2(31) >= 2 * pow2(31)) by (nonlinear_arith)
                requires
                    m * 2 >= 2,
                    pow2(31) > 0,
            ;
        }
    }
}

/// Each fractional-bit string is below its positional weight.
proof fn lemma_frac_bound(m: nat, k: nat)
    ensures
        spec_frac(m, k) < pow2(k),
    decreases k,
{
    lemma2_to64();
    if k == 0 {
        assert(pow2(0) == 1);
    } else {
        let m2 = (m * m) / 0x80000000;
        lemma_pow2_unfold(k);
        if m2 >= 0x100000000 {
            lemma_frac_bound(m2 / 2, (k - 1) as nat);
        } else {
            lemma_frac_bound(m2, (k - 1) as nat);
        }
    }
}

/// The reference points of the decibel conversion: a doubled volume is
/// +6.0 dB and a halved one is -6.0 dB, after rounding to tenths.
pub proof fn lemma_db_reference_points()
    ensures
        spec_db_tenths(20000) == 60,
        spec_db_tenths(5000) == -60,
{
    reveal_with_fuel(spec_norm, 33);
    reveal_with_fuel(spec_frac, 21);
    assert(spec_db_tenths(20000) == 60);
    assert(spec_db_tenths(5000) == -60);
}

/// Executable mirror of [`spec_norm`].
fn norm_shift(m: u64) -> (r: (u64, u32))
    requires
        1 <= m < 0x100000000,
    ensures
        r.0 as nat == spec_norm(m as nat).0,
        r.1 as nat == spec_norm(m as nat).1,
        0x80000000 <= r.0 < 0x100000000,
        r.1 <= 31,
    decreases (if m < 0x80000000 { (0x80000000u64 - m) as int } else { 0int }),
{
    proof {
        lemma_norm(m as nat);
    }
    if m >= 0x80000000 {
        (m, 0)
    } else {
        let rec = norm_shift(m * 2);
        (rec.0, rec.1 + 1)
    }
}

/// 2 to the power `k`, as an executable value.
fn pow2_u64(k: u32) -> (r: u64)
    requires
        k <= 20,
    ensures
        r as nat == pow2(k as nat),
        r <= 0x100000,
{
    let mut r: u64 = 1;
    let mut i: u32 = 0;
    proof {
        lemma2_to64();
        assert(pow2(0) == 1);
    }
    while i < k
        invariant
            i <= k <= 20,
            r as nat == pow2(i as nat),
            r <= 0x100000,
        decreases k - i,
    {
        proof {
            lemma2_to64();
            if (i as nat) < 20 {
                lemma_pow2_strictly_increases(i as nat, 20);
            }
            lemma_pow2_unfold((i + 1) as nat);
        }
        r = r * 2;
        i = i + 1;
    }
    r
}

/// Executable mirror of [`spec_frac`].
fn frac_bits(m: u64, k: u32) -> (r: u64)
    requires
        0x80000000 <= m < 0x100000000,
        k <= 20,
    ensures
        r as nat == spec_frac(m as nat, k as nat),
        r <= 0x100000,
    decreases k,
{
    proof {
        lemma_frac_bound(m as nat, k as nat);
        lemma2_to64();
        if (k as nat) < 20 {
            lemma_pow2_strictly_increases(k as nat, 20);
        }
    }
    if k == 0 {
        0
    } else {
        proof {
            assert(m * m < 0x100000000 * 0x100000000) by (nonlinear_arith)
                requires
                    m < 0x100000000,
            ;
            assert(m * m >= 0x80000000 * 0x80000000) by (nonlinear_arith)
                requires
                    m >= 0x80000000,
            ;
        }
        let m2: u64 = (m * m) / 0x80000000;
        if m2 >= 0x100000000 {
            let w = pow2_u64(k - 1);
            let rest = frac_bits(m2 / 2, k - 1);
            proof {
                lemma_frac_bound((m2 / 2) as nat, (k - 1) as nat);
            }
            w + rest
        } else {
            frac_bits(m2, k - 1)
        }
    }
}

/// Executable mirror of [`spec_log2_q20`].
fn log2_q20(n: u32) -> (r: u64)
    requires
        1 <= n,
    ensures
        r as nat == spec_log2_q20(n as nat),
        r < 0x2000000,
{
    let nm = norm_shift(n as u64);
    let f = frac_bits(nm.0, 20);
    proof {
        lemma_frac_bound(nm.0 as nat, 20);
        lemma2_to64();
    }
    ((31 - nm.1) as u64) * 0x100000 + f
}

/// The gain in tenths of a decibel corresponding to a linear volume
/// factor of `v` ten-thousandths: `20 * log10(v / 10000)` rounded to
/// the nearest tenth.
pub fn db_tenths(v: u32) -> (t: i32)
    requires
        1 <= v <= 20000,
    ensures
        t as int == spec_db_tenths(v as nat),
        -2100 <= t <= 2100,
{
    let a = log2_q20(v);
    let b = log2_q20(10000);
    if a >= b {
        let q: u64 = ((a - b) * 63130566 + 0x8000000000) / 0x10000000000;
        q as i32
    } else {
        let q: u64 = ((b - a) * 63130566 + 0x8000000000) / 0x10000000000;
        -(q as i32)
    }
}

} // verus!
