//! Decimal rendering of fixed-point readings.

use vstd::prelude::*;
use vstd::string::StringExecFns;
use vstd::arithmetic::div_mod::{lemma_fundamental_div_mod, lemma_fundamental_div_mod_converse};

verus! {

/// Readings are fixed-point numbers counted in millionths of a unit.
pub const SCALE: u64 = 1_000_000;

/// Largest number of decimals a reading carries.
pub const MAX_PRECISION: u8 = 6;

/// The character of a decimal digit.
pub open spec fn digit_char(d: nat) -> char {
    if d == 0 { '0' }
    else if d == 1 { '1' }
    else if d == 2 { '2' }
    else if d == 3 { '3' }
    else if d == 4 { '4' }
    else if d == 5 { '5' }
    else if d == 6 { '6' }
    else if d == 7 { '7' }
    else if d == 8 { '8' }
    else { '9' }
}

/// Decimal digits of `n`, most significant first, without leading zeros.
pub open spec fn digits(n: nat) -> Seq<char>
    decreases n,
{
    if n < 10 {
        seq![digit_char(n)]
    } else {
        digits(n / 10).push(digit_char(n % 10))
    }
}

/// The last `w` decimal digits of `n`, padded with leading zeros.
pub open spec fn padded(n: nat, w: nat) -> Seq<char>
    decreases w,
{
    if w == 0 {
        Seq::empty()
    } else {
        padded(n / 10, (w - 1) as nat).push(digit_char(n % 10))
    }
}

/// `10^p`.
pub open spec fn pow10(p: nat) -> nat
    decreases p,
{
    if p == 0 { 1 } else { 10 * pow10((p - 1) as nat) }
}

/// Decimals actually shown for a requested precision.
pub open spec fn effective_precision(p: nat) -> nat {
    if p > MAX_PRECISION { MAX_PRECISION as nat } else { p }
}

/// Magnitude `m` (in millionths) rounded to `p` decimals, half away from zero,
/// counted in units of `10^-p`.
pub open spec fn rounded(m: nat, p: nat) -> nat {
    ((m * pow10(p) + 500_000) / 1_000_000) as nat
}

/// Text of a reading `v` (in millionths) with `p` decimals: an optional minus
/// sign, the whole part, and for `p > 0` a point and exactly `p` decimals.
pub open spec fn fixed_text(v: int, p: nat) -> Seq<char> {
    let q = effective_precision(p);
    let m = if v < 0 { (-v) as nat } else { v as nat };
    let r = rounded(m, q);
    let sign = if v < 0 && r > 0 { seq!['-'] } else { Seq::empty() };
    let whole = digits(r / pow10(q));
    let frac = if q == 0 { Seq::empty() } else { seq!['.'] + padded(r % pow10(q), q) };
    sign + whole + frac
}

fn digit_str(d: u64) -> (r: &'static str)
    requires
        d < 10,
    ensures
        r@ == seq![digit_char(d as nat)],
{
    proof {
        reveal_strlit("0");
        reveal_strlit("1");
        reveal_strlit("2");
        reveal_strlit("3");
        reveal_strlit("4");
        reveal_strlit("5");
        reveal_strlit("6");
        reveal_strlit("7");
        reveal_strlit("8");
        reveal_strlit("9");
    }
    if d == 0 { "0" }
    else if d == 1 { "1" }
    else if d == 2 { "2" }
    else if d == 3 { "3" }
    else if d == 4 { "4" }
    else if d == 5 { "5" }
    else if d == 6 { "6" }
    else if d == 7 { "7" }
    else if d == 8 { "8" }
    else { "9" }
}

/// Appends the decimal digits of `n`.
pub fn push_digits(s: &mut String, n: u64)
    ensures
        final(s)@ == old(s)@ + digits(n as nat),
    decreases n,
{
    if n >= 10 {
        push_digits(s, n / 10);
    }
    s.append(digit_str(n % 10));
    proof {
        assert(final(s)@ =~= old(s)@ + digits(n as nat));
    }
}

/// Appends the last `w` digits of `n`, padded with leading zeros.
pub fn push_padded(s: &mut String, n: u64, w: u8)
    ensures
        final(s)@ == old(s)@ + padded(n as nat, w as nat),
    decreases w,
{
    if w > 0 {
        push_padded(s, n / 10, w - 1);
        s.append(digit_str(n % 10));
        proof {
            assert(final(s)@ =~= old(s)@ + padded(n as nat, w as nat));
        }
    } else {
        proof {
            assert(final(s)@ =~= old(s)@ + padded(n as nat, w as nat));
        }
    }
}


fn pow10_exec(q: u8) -> (r: u64)
    requires
        q <= MAX_PRECISION,
    ensures
        r as nat == pow10(q as nat),
        1 <= r <= SCALE,
{
    reveal_with_fuel(pow10, 7);
    if q == 0 { 1 }
    else if q == 1 { 10 }
    else if q == 2 { 100 }
    else if q == 3 { 1_000 }
    else if q == 4 { 10_000 }
    else if q == 5 { 100_000 }
    else { 1_000_000 }
}

/// Splitting the rounding of a magnitude into its whole millions and the rest.
proof fn lemma_rounding(m: nat, pw: nat)
    requires
        1 <= pw <= 1_000_000,
    ensures
        ((m % 1_000_000) * pw + 500_000) / 1_000_000 <= pw,
        (m * pw + 500_000) / 1_000_000 == (m / 1_000_000) * pw + ((m % 1_000_000) * pw
            + 500_000) / 1_000_000,
{
    let w0 = m / 1_000_000;
    let rem = m % 1_000_000;
    let y = rem * pw + 500_000;
    let f = y / 1_000_000;
    let g = y % 1_000_000;
    lemma_fundamental_div_mod(m as int, 1_000_000);
    lemma_fundamental_div_mod(y as int, 1_000_000);
    assert(m * pw + 500_000 == (w0 * pw + f) * 1_000_000 + g) by (nonlinear_arith)
        requires
            m == w0 * 1_000_000 + rem,
            y == f * 1_000_000 + g,
            y == rem * pw + 500_000,
    ;
    lemma_fundamental_div_mod_converse((m * pw + 500_000) as int, 1_000_000, (w0 * pw + f) as int, g as int);
    assert(f <= pw) by (nonlinear_arith)
        requires
            rem < 1_000_000,
            y == f * 1_000_000 + g,
            y == rem * pw + 500_000,
            g >= 0,
            pw >= 1,
    ;
}

/// Appends `fixed_text(v, p)`.
pub fn push_fixed(s: &mut String, v: i64, p: u8)
    ensures
        final(s)@ == old(s)@ + fixed_text(v as int, p as nat),
{
    let q: u8 = if p > MAX_PRECISION { MAX_PRECISION } else { p };
    let m: u64 = if v < 0 { ((-(v + 1)) as u64) + 1 } else { v as u64 };
    let pw = pow10_exec(q);
    let whole0 = m / SCALE;
    let rest = m % SCALE;
    assert(rest * pw <= 1_000_000 * 1_000_000) by (nonlinear_arith)
        requires
            rest < 1_000_000,
            pw <= 1_000_000,
    ;
    let f = (rest * pw + 500_000) / SCALE;
    proof {
        lemma_rounding(m as nat, pw as nat);
    }
    let ghost r = rounded(m as nat, q as nat);
    let whole: u64;
    let frac: u64;
    if f == pw {
        whole = whole0 + 1;
        frac = 0;
        proof {
            assert(r == whole * pw) by (nonlinear_arith)
                requires
                    r == whole0 * pw + pw,
                    whole == whole0 + 1,
            ;
            lemma_fundamental_div_mod_converse(r as int, pw as int, whole as int, 0);
        }
    } else {
        whole = whole0;
        frac = f;
        proof {
            lemma_fundamental_div_mod_converse(r as int, pw as int, whole as int, frac as int);
        }
    }
    let ghost s0 = s@;
    if v < 0 && (whole > 0 || frac > 0) {
        s.append("-");
    }
    let ghost s1 = s@;
    push_digits(s, whole);
    let ghost s2 = s@;
    if q > 0 {
        s.append(".");
        push_padded(s, frac, q);
    }
    proof {
        reveal_strlit("-");
        reveal_strlit(".");
        let sign = if v < 0 && r > 0 { seq!['-'] } else { Seq::<char>::empty() };
        assert(s1 =~= s0 + sign);
        assert(final(s)@ =~= old(s)@ + fixed_text(v as int, p as nat));
    }
}

/// The text of reading `v` (in millionths) with `p` decimals.
pub fn fixed_string(v: i64, p: u8) -> (r: String)
    ensures
        r@ == fixed_text(v as int, p as nat),
{
    let mut s = String::new();
    push_fixed(&mut s, v, p);
    proof {
        assert(s@ =~= fixed_text(v as int, p as nat));
    }
    s
}

} // verus!
