use vstd::prelude::*;

use crate::text::{decimal, digit_char, digit_to_char, push_char, push_decimal, push_text};

verus! {

/// Two to the power `e`.
pub open spec fn pow2n(e: nat) -> nat
    decreases e,
{
    if e == 0 {
        1
    } else {
        2 * pow2n((e - 1) as nat)
    }
}

/// `a / d` rounded to the nearest integer, ties to the even one.
pub open spec fn round_half_even(a: nat, d: nat) -> nat {
    let q = a / d;
    let r = a % d;
    if 2 * r > d || (2 * r == d && q % 2 == 1) {
        q + 1
    } else {
        q
    }
}

/// How many low bits a number loses when it becomes an `f64`, whose
/// significand holds 53 bits.
pub open spec fn f64_excess(n: nat) -> nat
    decreases n,
{
    if n < 0x20_0000_0000_0000 {
        0
    } else {
        1 + f64_excess(n / 2)
    }
}

/// The value of `n as f64`: `n` rounded to 53 significant bits, ties to
/// even.
pub open spec fn as_f64(n: nat) -> nat {
    round_half_even(n, pow2n(f64_excess(n))) * pow2n(f64_excess(n))
}

/// `bytes as f64 / 2^shift` in hundredths, rounded as `{:.2}` rounds:
/// to the nearest, ties to even.
pub open spec fn hundredths(bytes: nat, shift: nat) -> nat {
    round_half_even(as_f64(bytes) * 100, pow2n(shift))
}

/// A number of hundredths written with two decimals, as `{:.2}` writes it.
pub open spec fn fixed2(h: nat) -> Seq<char> {
    decimal(h / 100) + seq!['.', digit_char(((h % 100) / 10) as int), digit_char((h % 10) as int)]
}

/// A byte count in the largest unit (B, KB, MB, GB, TB, each 1024 times the
/// one before) that it reaches; bytes as an integer, the other units with
/// two decimals.
pub open spec fn human_bytes(bytes: nat) -> Seq<char> {
    if bytes >= pow2n(40) {
        fixed2(hundredths(bytes, 40)) + " TB"@
    } else if bytes >= pow2n(30) {
        fixed2(hundredths(bytes, 30)) + " GB"@
    } else if bytes >= pow2n(20) {
        fixed2(hundredths(bytes, 20)) + " MB"@
    } else if bytes >= pow2n(10) {
        fixed2(hundredths(bytes, 10)) + " KB"@
    } else {
        decimal(bytes) + " B"@
    }
}

/// A number below 100 in at least two digits.
pub open spec fn two_digits(n: nat) -> Seq<char> {
    if n < 10 {
        "0"@ + decimal(n)
    } else {
        decimal(n)
    }
}

/// A duration in its two largest units, the smaller one in two digits:
/// `30s`, `1m 05s`, `1h 01m`, `1d 00h`.
pub open spec fn padded_duration(seconds: nat) -> Seq<char> {
    let days = seconds / 86400;
    let hours = (seconds % 86400) / 3600;
    let minutes = (seconds % 3600) / 60;
    let secs = seconds % 60;
    if days > 0 {
        decimal(days) + "d "@ + two_digits(hours) + "h"@
    } else if hours > 0 {
        decimal(hours) + "h "@ + two_digits(minutes) + "m"@
    } else if minutes > 0 {
        decimal(minutes) + "m "@ + two_digits(secs) + "s"@
    } else {
        decimal(secs) + "s"@
    }
}

/// A duration in seconds in its two largest units: days and hours, hours
/// and minutes, minutes and seconds, or seconds alone.
pub open spec fn human_duration(seconds: nat) -> Seq<char> {
    let days = seconds / 86400;
    let hours = (seconds % 86400) / 3600;
    let minutes = (seconds % 3600) / 60;
    let secs = seconds % 60;
    if days > 0 {
        decimal(days) + "d "@ + decimal(hours) + "h"@
    } else if hours > 0 {
        decimal(hours) + "h "@ + decimal(minutes) + "m"@
    } else if minutes > 0 {
        decimal(minutes) + "m "@ + decimal(secs) + "s"@
    } else {
        decimal(secs) + "s"@
    }
}

proof fn lemma_pow2n_pos(e: nat)
    ensures
        pow2n(e) >= 1,
    decreases e,
{
    if e > 0 {
        lemma_pow2n_pos((e - 1) as nat);
    }
}

proof fn lemma_pow2n_values()
    ensures
        pow2n(10) == 0x400,
        pow2n(20) == 0x10_0000,
        pow2n(30) == 0x4000_0000,
        pow2n(40) == 0x100_0000_0000,
{
    reveal_with_fuel(pow2n, 41);
}

/// `a / d` rounded half to even.
fn round_half_even_exec(a: u128, d: u128) -> (r: u128)
    requires
        d > 0,
        a / d < u128::MAX,
    ensures
        r == round_half_even(a as nat, d as nat),
{
    let q = a / d;
    let rem = a % d;
    assert(rem < d);
    if (rem > d - rem) || (rem == d - rem && q % 2 == 1) {
        q + 1
    } else {
        q
    }
}

/// `n as f64`, kept as the exact integer it equals.
fn as_f64_value(n: u64) -> (r: u128)
    ensures
        r == as_f64(n as nat),
        r <= 2 * (n as nat) + 2,
{
    let mut m: u64 = n;
    let mut d: u128 = 1;
    let ghost mut e: nat = 0;
    while m >= 0x20_0000_0000_0000
        invariant
            m as nat == (n as nat) / (d as nat),
            d as nat == pow2n(e),
            1 <= d <= n as nat + 1,
            f64_excess(n as nat) == e + f64_excess(m as nat),
        decreases m,
    {
        proof {
            vstd::arithmetic::div_mod::lemma_div_denominator(n as int, d as int, 2);
            assert((n as nat) / (d as nat) >= 1);
            assert(d as nat <= n as nat) by (nonlinear_arith)
                requires
                    (n as nat) / (d as nat) >= 1,
                    d >= 1,
            ;
            assert((m as nat) / 2 >= 1);
            assert(2 * (d as nat) <= n as nat) by (nonlinear_arith)
                requires
                    ((n as nat) / (d as nat)) / 2 >= 1,
                    ((n as nat) / (d as nat)) / 2 == (n as nat) / ((d as nat) * 2),
                    d >= 1,
            ;
        }
        m = m / 2;
        d = d * 2;
        proof {
            e = e + 1;
        }
    }
    assert(f64_excess(m as nat) == 0);
    let nn = n as u128;
    assert(nn / d <= nn);
    let q = round_half_even_exec(nn, d);
    assert(q <= nn / d + 1);
    proof {
        vstd::arithmetic::div_mod::lemma_fundamental_div_mod(nn as int, d as int);
        assert(q * d <= 2 * (nn as nat) + 2) by (nonlinear_arith)
            requires
                q <= nn / d + 1,
                d <= nn + 1,
                d >= 1,
                nn == d * (nn / d) + nn % d,
                nn % d >= 0,
        ;
    }
    q * d
}

/// Appends a number of hundredths with two decimals.
fn push_fixed2(s: &mut String, h: u128)
    ensures
        final(s)@ == old(s)@ + fixed2(h as nat),
{
    push_decimal(s, h / 100);
    push_char(s, '.');
    push_char(s, digit_to_char(((h % 100) / 10) as u64));
    push_char(s, digit_to_char((h % 10) as u64));
    assert(final(s)@ =~= old(s)@ + fixed2(h as nat));
}

/// A byte count in human units: `512 B`, `1.00 KB`, `1.50 MB`, ...
pub fn format_bytes(bytes: u64) -> (s: String)
    ensures
        s@ == human_bytes(bytes as nat),
{
    proof {
        lemma_pow2n_values();
    }
    let mut s = String::new();
    if bytes < 0x400 {
        push_decimal(&mut s, bytes as u128);
        push_text(&mut s, " B");
        assert(s@ =~= human_bytes(bytes as nat));
        return s;
    }
    let (shift, unit): (u128, &str) = if bytes >= 0x100_0000_0000 {
        (0x100_0000_0000, " TB")
    } else if bytes >= 0x4000_0000 {
        (0x4000_0000, " GB")
    } else if bytes >= 0x10_0000 {
        (0x10_0000, " MB")
    } else {
        (0x400, " KB")
    };
    let v = as_f64_value(bytes);
    let a = v * 100;
    let h = round_half_even_exec(a, shift);
    push_fixed2(&mut s, h);
    push_text(&mut s, unit);
    assert(s@ =~= human_bytes(bytes as nat));
    s
}

/// A duration in seconds in human units: `30s`, `1m 30s`, `1h 1m`, `1d 0h`.
pub fn format_duration(seconds: u64) -> (s: String)
    ensures
        s@ == human_duration(seconds as nat),
{
    let days = seconds / 86400;
    let hours = (seconds % 86400) / 3600;
    let minutes = (seconds % 3600) / 60;
    let secs = seconds % 60;
    let mut s = String::new();
    if days > 0 {
        push_decimal(&mut s, days as u128);
        push_text(&mut s, "d ");
        push_decimal(&mut s, hours as u128);
        push_text(&mut s, "h");
    } else if hours > 0 {
        push_decimal(&mut s, hours as u128);
        push_text(&mut s, "h ");
        push_decimal(&mut s, minutes as u128);
        push_text(&mut s, "m");
    } else if minutes > 0 {
        push_decimal(&mut s, minutes as u128);
        push_text(&mut s, "m ");
        push_decimal(&mut s, secs as u128);
        push_text(&mut s, "s");
    } else {
        push_decimal(&mut s, secs as u128);
        push_text(&mut s, "s");
    }
    assert(s@ =~= human_duration(seconds as nat));
    s
}

/// Appends a number below 100 in at least two digits.
fn push_two_digits(s: &mut String, n: u64)
    requires
        n < 100,
    ensures
        final(s)@ == old(s)@ + two_digits(n as nat),
{
    if n < 10 {
        push_text(s, "0");
    }
    push_decimal(s, n as u128);
    proof {
        if n < 10 {
            assert(final(s)@ =~= old(s)@ + ("0"@ + decimal(n as nat)));
        }
    }
}

/// A duration in its two largest units, the smaller one in two digits,
/// as the terminal dashboard shows uptimes.
pub fn format_duration_padded(seconds: u64) -> (s: String)
    ensures
        s@ == padded_duration(seconds as nat),
{
    let days = seconds / 86400;
    let hours = (seconds % 86400) / 3600;
    let minutes = (seconds % 3600) / 60;
    let secs = seconds % 60;
    let mut s = String::new();
    if days > 0 {
        push_decimal(&mut s, days as u128);
        push_text(&mut s, "d ");
        push_two_digits(&mut s, hours);
        push_text(&mut s, "h");
    } else if hours > 0 {
        push_decimal(&mut s, hours as u128);
        push_text(&mut s, "h ");
        push_two_digits(&mut s, minutes);
        push_text(&mut s, "m");
    } else if minutes > 0 {
        push_decimal(&mut s, minutes as u128);
        push_text(&mut s, "m ");
        push_two_digits(&mut s, secs);
        push_text(&mut s, "s");
    } else {
        push_decimal(&mut s, secs as u128);
        push_text(&mut s, "s");
    }
    assert(s@ =~= padded_duration(seconds as nat));
    s
}

} // verus!
