//! Sizes and counts as short texts with a unit: `1.50 GB`, `7.24B`.
//!
//! A size is divided by its unit in double precision and written with a
//! fixed number of decimals. Both steps are carried out here on whole
//! numbers: the quotient is rounded to 53 significant bits, and the decimals
//! are those of that rounded quotient. Every rounding goes to the nearest
//! value, and to the even one of two that are equally near.

use vstd::prelude::*;
use crate::text::{decimal_text, digit_char, push_decimal, push_text, string_of};

verus! {

/// Two to the power `n`.
pub open spec fn pow2(n: nat) -> nat
    decreases n,
{
    if n == 0 {
        1
    } else {
        2 * pow2((n - 1) as nat)
    }
}

/// The whole number nearest to `num / den`; of two equally near, the even
/// one.
pub open spec fn round_half_even(num: nat, den: nat) -> nat
    recommends
        den > 0,
{
    let q = num / den;
    let r = num % den;
    if 2 * r < den {
        q
    } else if 2 * r > den {
        q + 1
    } else if q % 2 == 0 {
        q
    } else {
        q + 1
    }
}

/// The least `e` from `from` on, and at most 11, for which `x` is below
/// two to the power `53 + e`.
pub open spec fn excess_bits(x: nat, from: nat) -> nat
    decreases 11 - from,
{
    if from >= 11 || x < pow2(53 + from) {
        from
    } else {
        excess_bits(x, from + 1)
    }
}

/// The double-precision number nearest to the whole number `x`, for `x`
/// below two to the power 64.
pub open spec fn nearest_double(x: nat) -> nat {
    let e = excess_bits(x, 0);
    round_half_even(x, pow2(e)) * pow2(e)
}

/// The greatest `e` up to `from` for which `p` times two to the power `e`
/// is below `q` times two to the power 53; 0 where there is none.
pub open spec fn scale_bits(p: nat, q: nat, from: nat) -> nat
    decreases from,
{
    if from == 0 || p * pow2(from) < q * pow2(53) {
        from
    } else {
        scale_bits(p, q, (from - 1) as nat)
    }
}

/// The digits of `p / q`, computed in double precision and rounded to
/// `places` decimals, as one whole number: the value times ten to the
/// power `places`.
///
/// With `e = scale_bits(p, q, 52)`, the quotient in double precision is
/// `m / 2^e`, where `m` is `p * 2^e / q` rounded to a whole number.
pub open spec fn fixed_digits(p: nat, q: nat, scale: nat) -> nat
    recommends
        q > 0,
        q <= p,
{
    let e = scale_bits(p, q, 52);
    let m = round_half_even(p * pow2(e), q);
    round_half_even(m * scale, pow2(e))
}

/// A number with two decimals.
pub open spec fn two_decimals(n: nat) -> Seq<char> {
    decimal_text(n / 100) + "."@ + seq![digit_char(n / 10 % 10), digit_char(n % 10)]
}

/// A number with one decimal.
pub open spec fn one_decimal(n: nat) -> Seq<char> {
    decimal_text(n / 10) + "."@ + seq![digit_char(n % 10)]
}

/// The number of bytes in the unit `KB`.
pub const KIB: u64 = 1024;

/// The number of bytes in the unit `MB`.
pub const MIB: u64 = 1_048_576;

/// The number of bytes in the unit `GB`.
pub const GIB: u64 = 1_073_741_824;

/// A number of bytes in the largest fitting unit of `GB`, `MB` and `KB`
/// (powers of 1024) with two decimals, or in `B` without decimals.
pub open spec fn file_size_text(bytes: u64) -> Seq<char> {
    if bytes >= GIB {
        two_decimals(fixed_digits(nearest_double(bytes as nat), GIB as nat, 100)) + " GB"@
    } else if bytes >= MIB {
        two_decimals(fixed_digits(bytes as nat, MIB as nat, 100)) + " MB"@
    } else if bytes >= KIB {
        two_decimals(fixed_digits(bytes as nat, KIB as nat, 100)) + " KB"@
    } else {
        decimal_text(bytes as nat) + " B"@
    }
}

/// A count in billions or millions with two decimals, in thousands with
/// one, or as it is.
pub open spec fn param_count_text(count: u64) -> Seq<char> {
    if count >= 1_000_000_000 {
        two_decimals(fixed_digits(nearest_double(count as nat), 1_000_000_000, 100)) + "B"@
    } else if count >= 1_000_000 {
        two_decimals(fixed_digits(count as nat, 1_000_000, 100)) + "M"@
    } else if count >= 1_000 {
        one_decimal(fixed_digits(count as nat, 1_000, 10)) + "K"@
    } else {
        decimal_text(count as nat)
    }
}

proof fn pow2_values()
    ensures
        pow2(0) == 1,
        pow2(11) == 0x800,
        pow2(52) == 0x10_0000_0000_0000,
        pow2(53) == 0x20_0000_0000_0000,
        pow2(64) == 0x1_0000_0000_0000_0000,
        forall|n: nat| #![trigger pow2(n)] pow2(n) > 0,
        forall|n: nat| #![trigger pow2(n + 1)] pow2(n + 1) == 2 * pow2(n),
{
    assert(pow2(0) == 1);
    assert(pow2(11) == 0x800) by {
        reveal_with_fuel(pow2, 12);
    }
    assert(pow2(13) == 0x2000) by {
        reveal_with_fuel(pow2, 14);
    }
    pow2_sum(13, 13);
    assert(pow2(26) == 0x400_0000);
    pow2_sum(26, 26);
    assert(pow2(52) == 0x10_0000_0000_0000);
    assert(pow2(53) == 2 * pow2(52));
    pow2_sum(53, 11);
    assert(pow2(64) == 0x1_0000_0000_0000_0000);
    assert forall|n: nat| #![trigger pow2(n)] pow2(n) > 0 by {
        pow2_positive(n);
    }
}

proof fn pow2_positive(n: nat)
    ensures
        pow2(n) > 0,
    decreases n,
{
    if n > 0 {
        pow2_positive((n - 1) as nat);
    }
}

proof fn pow2_monotone(a: nat, b: nat)
    requires
        a <= b,
    ensures
        pow2(a) <= pow2(b),
    decreases b - a,
{
    if a < b {
        pow2_monotone(a, (b - 1) as nat);
    }
}

/// Rounds `num / den` to the nearest whole number, ties to even.
fn rounded_quotient(num: u128, den: u128) -> (r: u128)
    requires
        den > 0,
        num / den < u128::MAX,
        den <= u128::MAX / 2,
    ensures
        r == round_half_even(num as nat, den as nat),
        r <= num / den + 1,
{
    let q: u128 = num / den;
    let rem: u128 = num % den;
    if 2 * rem < den {
        q
    } else if 2 * rem > den {
        q + 1
    } else if q % 2 == 0 {
        q
    } else {
        q + 1
    }
}

/// The double-precision number nearest to `x`.
fn to_double(x: u64) -> (r: u128)
    ensures
        r == nearest_double(x as nat),
        r <= 0x1_0000_0000_0000_0000,
        x < 0x20_0000_0000_0000 ==> r == x,
        x >= 1 ==> r >= 1,
{
    proof {
        pow2_values();
    }
    let wide: u128 = x as u128;
    let mut unit: u128 = 1;
    let mut e: u32 = 0;
    while e < 11 && wide >= 0x20_0000_0000_0000 * unit
        invariant
            e <= 11,
            unit == pow2(e as nat),
            unit <= 0x800,
            wide == x,
            excess_bits(x as nat, 0) == excess_bits(x as nat, e as nat),
            e > 0 ==> wide >= 0x10_0000_0000_0000 * unit,
        decreases 11 - e,
    {
        proof {
            pow2_values();
            assert(pow2(53 + e as nat) == pow2(53) * pow2(e as nat)) by {
                pow2_sum(53, e as nat);
            }
            pow2_monotone((e + 1) as nat, 11);
        }
        unit = unit * 2;
        e = e + 1;
    }
    proof {
        pow2_values();
        pow2_sum(53, e as nat);
        if e >= 11 {
            assert(wide < 0x20_0000_0000_0000 * unit);
        }
    }
    let m = rounded_quotient(wide, unit);
    proof {
        let ghost a: int = wide as int;
        let ghost b: int = unit as int;
        assert(a / b < 0x20_0000_0000_0000) by (nonlinear_arith)
            requires
                a < 0x20_0000_0000_0000 * b,
                b > 0,
        ;
        assert(m * unit <= 0x20_0000_0000_0000 * unit) by (nonlinear_arith)
            requires
                m <= 0x20_0000_0000_0000,
                unit >= 0,
        ;
        if e > 0 {
            assert(a / b >= 0x10_0000_0000_0000) by (nonlinear_arith)
                requires
                    a >= 0x10_0000_0000_0000 * b,
                    b > 0,
            ;
            assert(m * unit >= 1) by (nonlinear_arith)
                requires
                    m >= 1,
                    unit >= 1,
            ;
        }
    }
    m * unit
}

proof fn pow2_sum(a: nat, b: nat)
    ensures
        pow2(a + b) == pow2(a) * pow2(b),
    decreases b,
{
    if b == 0 {
        assert(pow2(a) * 1 == pow2(a));
    } else {
        pow2_sum(a, (b - 1) as nat);
        assert(pow2(a + b) == 2 * pow2((a + b - 1) as nat));
        assert(2 * (pow2(a) * pow2((b - 1) as nat)) == pow2(a) * (2 * pow2((b - 1) as nat)))
            by (nonlinear_arith);
    }
}

/// The digits of `p / q` in double precision at the given decimal scale.
fn quotient_digits(p: u128, q: u128, scale: u128) -> (r: u128)
    requires
        0 < q <= 0x1_0000_0000,
        q <= p <= 0x1_0000_0000_0000_0000,
        p < q * 0x20_0000_0000_0000,
        scale == 10 || scale == 100,
    ensures
        r == fixed_digits(p as nat, q as nat, scale as nat),
        r <= 0x1000_0000_0000_0000,
{
    proof {
        pow2_values();
    }
    let top: u128 = q * 0x20_0000_0000_0000;
    let mut unit: u128 = 0x10_0000_0000_0000;
    let mut e: u32 = 52;
    assert(p * unit <= 0x1_0000_0000_0000_0000 * 0x10_0000_0000_0000) by (nonlinear_arith)
        requires
            p <= 0x1_0000_0000_0000_0000,
            unit == 0x10_0000_0000_0000,
    ;
    while e > 0 && p * unit >= top
        invariant
            e <= 52,
            unit == pow2(e as nat),
            1 <= unit <= 0x10_0000_0000_0000,
            top == q * pow2(53),
            p <= 0x1_0000_0000_0000_0000,
            p * unit <= 0x1_0000_0000_0000_0000 * 0x10_0000_0000_0000,
            scale_bits(p as nat, q as nat, 52) == scale_bits(p as nat, q as nat, e as nat),
        decreases e,
    {
        proof {
            pow2_values();
            assert(pow2(e as nat) == 2 * pow2((e - 1) as nat));
            assert(p * (unit / 2) <= p * unit) by (nonlinear_arith)
                requires
                    unit >= 0,
                    p >= 0,
            ;
        }
        unit = unit / 2;
        e = e - 1;
    }
    proof {
        pow2_values();
        if e == 0 {
            assert(unit == 1);
            assert(p * unit == p) by (nonlinear_arith)
                requires
                    unit == 1,
            ;
        }
        assert(p * unit < top);
        let ghost a: int = p * unit;
        let ghost b: int = q as int;
        assert(a / b < 0x20_0000_0000_0000) by (nonlinear_arith)
            requires
                a < b * 0x20_0000_0000_0000,
                b > 0,
        ;
    }
    let m = rounded_quotient(p * unit, q);
    proof {
        assert(m * scale <= 0x20_0000_0000_0000 * 100) by (nonlinear_arith)
            requires
                m <= 0x20_0000_0000_0000,
                scale <= 100,
        ;
        let ghost c: int = m * scale;
        let ghost d: int = unit as int;
        assert(c / d <= c) by (nonlinear_arith)
            requires
                d >= 1,
                c >= 0,
        ;
    }
    rounded_quotient(m * scale, unit)
}

fn push_two_decimals(out: &mut Vec<char>, n: u128)
    requires
        n <= 0x1000_0000_0000_0000,
    ensures
        final(out)@ == old(out)@ + two_decimals(n as nat),
{
    push_decimal(out, (n / 100) as u64);
    push_text(out, ".");
    let tens: u8 = (n / 10 % 10) as u8;
    let ones: u8 = (n % 10) as u8;
    out.push((48 + tens) as char);
    out.push((48 + ones) as char);
    assert(out@ =~= old(out)@ + two_decimals(n as nat));
}

fn push_one_decimal(out: &mut Vec<char>, n: u128)
    requires
        n <= 0x1000_0000_0000_0000,
    ensures
        final(out)@ == old(out)@ + one_decimal(n as nat),
{
    push_decimal(out, (n / 10) as u64);
    push_text(out, ".");
    let ones: u8 = (n % 10) as u8;
    out.push((48 + ones) as char);
    assert(out@ =~= old(out)@ + one_decimal(n as nat));
}

/// A number of bytes as a short text: `1.50 GB`, `12.00 KB`, `17 B`.
pub fn format_file_size(bytes: u64) -> (r: String)
    ensures
        r@ == file_size_text(bytes),
{
    let mut out: Vec<char> = Vec::new();
    if bytes >= GIB {
        let p = to_double(bytes);
        assert(p >= GIB) by {
            if bytes < 0x20_0000_0000_0000 {
            } else {
                double_keeps_order(bytes as nat);
            }
        }
        push_two_decimals(&mut out, quotient_digits(p, GIB as u128, 100));
        push_text(&mut out, " GB");
    } else if bytes >= MIB {
        push_two_decimals(&mut out, quotient_digits(bytes as u128, MIB as u128, 100));
        push_text(&mut out, " MB");
    } else if bytes >= KIB {
        push_two_decimals(&mut out, quotient_digits(bytes as u128, KIB as u128, 100));
        push_text(&mut out, " KB");
    } else {
        push_decimal(&mut out, bytes);
        push_text(&mut out, " B");
    }
    assert(out@ =~= file_size_text(bytes));
    string_of(out.as_slice())
}

/// A number of bytes as a short text; the same as `format_file_size`.
pub fn format_bytes(bytes: u64) -> (r: String)
    ensures
        r@ == file_size_text(bytes),
{
    format_file_size(bytes)
}

/// A parameter count as a short text: `7.24B`, `125.00M`, `1.5K`, `999`.
pub fn format_param_count(count: u64) -> (r: String)
    ensures
        r@ == param_count_text(count),
{
    let mut out: Vec<char> = Vec::new();
    if count >= 1_000_000_000 {
        let p = to_double(count);
        assert(p >= 1_000_000_000) by {
            if count < 0x20_0000_0000_0000 {
            } else {
                double_keeps_order(count as nat);
            }
        }
        push_two_decimals(&mut out, quotient_digits(p, 1_000_000_000, 100));
        push_text(&mut out, "B");
    } else if count >= 1_000_000 {
        push_two_decimals(&mut out, quotient_digits(count as u128, 1_000_000, 100));
        push_text(&mut out, "M");
    } else if count >= 1_000 {
        push_one_decimal(&mut out, quotient_digits(count as u128, 1_000, 10));
        push_text(&mut out, "K");
    } else {
        push_decimal(&mut out, count);
    }
    assert(out@ =~= param_count_text(count));
    string_of(out.as_slice())
}

/// Rounding a number of at least 53 bits to double precision leaves it at
/// least two to the power 52.
proof fn double_keeps_order(x: nat)
    requires
        x >= 0x20_0000_0000_0000,
        x < 0x1_0000_0000_0000_0000,
    ensures
        nearest_double(x) >= 0x10_0000_0000_0000,
{
    pow2_values();
    let e = excess_bits(x, 0);
    excess_bits_bound(x, 0);
    pow2_positive(e);
    let u = pow2(e);
    let m = round_half_even(x, u);
    if e == 0 {
        assert(u == 1);
        assert(m == x);
    } else {
        pow2_sum(52, e);
        assert(x >= pow2(52) * u);
        let a: int = x as int;
        let b: int = u as int;
        let c: int = pow2(52) as int;
        assert(a / b >= c) by (nonlinear_arith)
            requires
                a >= c * b,
                b > 0,
        ;
        assert(m * u >= pow2(52)) by (nonlinear_arith)
            requires
                m >= pow2(52),
                u >= 1,
        ;
    }
}

/// What `excess_bits` returns is at most 11, and where it is positive the
/// number has more than 52 bits beyond it.
proof fn excess_bits_bound(x: nat, from: nat)
    requires
        from <= 11,
        from > 0 ==> x >= pow2((52 + from) as nat),
    ensures
        excess_bits(x, from) <= 11,
        excess_bits(x, from) > 0 ==> x >= pow2((52 + excess_bits(x, from)) as nat),
        excess_bits(x, from) >= from,
    decreases 11 - from,
{
    if from >= 11 || x < pow2(53 + from) {
    } else {
        excess_bits_bound(x, from + 1);
    }
}

} // verus!
