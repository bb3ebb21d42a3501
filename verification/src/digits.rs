//! Decimal rendering of integers and fixed-point values.
//!
//! Filter expressions and argument vectors carry numbers with a fixed count
//! of fractional digits; the values themselves are held as scaled integers
//! (tenths, hundredths, ...) and rendered here.

use vstd::prelude::*;

verus! {

/// The character for a single decimal digit.
pub open spec fn spec_digit(d: nat) -> char {
    if d == 0 {
        '0'
    } else if d == 1 {
        '1'
    } else if d == 2 {
        '2'
    } else if d == 3 {
        '3'
    } else if d == 4 {
        '4'
    } else if d == 5 {
        '5'
    } else if d == 6 {
        '6'
    } else if d == 7 {
        '7'
    } else if d == 8 {
        '8'
    } else {
        '9'
    }
}

/// The decimal digits of `n`, most significant first, no leading zeros
/// (a single `'0'` for zero).
pub open spec fn spec_dec(n: nat) -> Seq<char>
    decreases n,
{
    if n < 10 {
        seq![spec_digit(n)]
    } else {
        spec_dec(n / 10) + seq![spec_digit(n % 10)]
    }
}

/// The low `width` decimal digits of `n`, zero-padded on the left.
pub open spec fn spec_dec_pad(n: nat, width: nat) -> Seq<char>
    decreases width,
{
    if width == 0 {
        Seq::empty()
    } else {
        spec_dec_pad(n / 10, (width - 1) as nat) + seq![spec_digit(n % 10)]
    }
}

/// 10 to the power `k`.
pub open spec fn spec_pow10(k: nat) -> nat
    decreases k,
{
    if k == 0 {
        1
    } else {
        10 * spec_pow10((k - 1) as nat)
    }
}

/// `v` rendered as a decimal number with exactly `frac` digits after the
/// point, where `v` counts units of `10^-frac` (so `spec_fixed(-65, 1)`
/// renders as `-6.5`).
pub open spec fn spec_fixed(v: int, frac: nat) -> Seq<char> {
    let a = vstd::math::abs(v);
    let m = spec_pow10(frac);
    (if v < 0 {
        "-"@
    } else {
        Seq::<char>::empty()
    }) + spec_dec(a / m) + "."@ + spec_dec_pad(a % m, frac)
}

/// Relies on `String::push` from std: appends exactly the one character.
#[verifier::external_body]
pub(crate) fn push_char(s: &mut String, c: char)
    ensures
        final(s)@ == old(s)@ + seq![c],
{
    s.push(c);
}

/// Appends the character for one decimal digit.
fn push_digit(s: &mut String, d: u64)
    requires
        d < 10,
    ensures
        final(s)@ == old(s)@ + seq![spec_digit(d as nat)],
{
    let lit: &str = match d {
        0 => "0",
        1 => "1",
        2 => "2",
        3 => "3",
        4 => "4",
        5 => "5",
        6 => "6",
        7 => "7",
        8 => "8",
        _ => "9",
    };
    proof {
        reveal_strlit("0");
        reveal_strlit("1");
        reveal_strlit("2");
        reveal_strlit("3");
        reveal_strlit("4");
        reveal_strlit("5");
        reveal_strlit("6");
        reveal_strlit("7");
        reveal_strlit("8");
        reveal_strlit("9");
        assert(lit@ =~= seq![spec_digit(d as nat)]);
    }
    s.append(lit);
}

/// Appends the decimal digits of `n`, most significant first.
pub fn push_dec(s: &mut String, n: u64)
    ensures
        final(s)@ == old(s)@ + spec_dec(n as nat),
    decreases n,
{
    if n < 10 {
        push_digit(s, n);
    } else {
        push_dec(s, n / 10);
        push_digit(s, n % 10);
        proof {
            assert(final(s)@ =~= old(s)@ + spec_dec(n as nat));
        }
    }
}

/// Appends the low `width` decimal digits of `n`, zero-padded on the left.
pub fn push_dec_pad(s: &mut String, n: u64, width: u32)
    ensures
        final(s)@ == old(s)@ + spec_dec_pad(n as nat, width as nat),
    decreases width,
{
    if width > 0 {
        push_dec_pad(s, n / 10, width - 1);
        push_digit(s, n % 10);
        proof {
            assert(final(s)@ =~= old(s)@ + spec_dec_pad(n as nat, width as nat));
        }
    } else {
        proof {
            assert(final(s)@ =~= old(s)@ + spec_dec_pad(n as nat, 0));
        }
    }
}

/// The decimal digits of `n` as a fresh string.
pub fn dec_string(n: u64) -> (r: String)
    ensures
        r@ == spec_dec(n as nat),
{
    let mut s = String::new();
    push_dec(&mut s, n);
    proof {
        assert(s@ =~= spec_dec(n as nat));
    }
    s
}

/// 10 to the power `k`, as an executable value.
fn pow10_u64(k: u32) -> (r: u64)
    requires
        k <= 4,
    ensures
        r as nat == spec_pow10(k as nat),
        1 <= r <= 10000,
{
    proof {
        reveal_with_fuel(spec_pow10, 5);
        assert(spec_pow10(4) == 10000);
    }
    match k {
        0 => 1,
        1 => 10,
        2 => 100,
        3 => 1000,
        _ => 10000,
    }
}

/// Appends `v` (in units of `10^-frac`) rendered with exactly `frac`
/// digits after the decimal point.
pub fn push_fixed(s: &mut String, v: i64, frac: u32)
    requires
        frac <= 4,
        -1000000000000 <= v <= 1000000000000,
    ensures
        final(s)@ == old(s)@ + spec_fixed(v as int, frac as nat),
{
    let a: u64 = if v < 0 {
        proof {
            reveal_strlit("-");
        }
        s.append("-");
        (-v) as u64
    } else {
        v as u64
    };
    let m = pow10_u64(frac);
    push_dec(s, a / m);
    proof {
        reveal_strlit(".");
    }
    s.append(".");
    push_dec_pad(s, a % m, frac);
    proof {
        assert(final(s)@ =~= old(s)@ + spec_fixed(v as int, frac as nat));
    }
}

} // verus!
