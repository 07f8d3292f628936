//! Rendering of numbers, and of the memory figure.
//!
//! The memory figure is the used memory in gibibytes with one decimal. It is
//! the figure that double-precision arithmetic gives: the byte count is first
//! rounded to the nearest double, and the quotient is then rounded to the
//! nearest tenth, ties going to the even neighbour both times. All of it is
//! computed in integers.

use vstd::prelude::*;
use vstd::string::StringExecFns;

verus! {

/// Bytes in a gibibyte.
pub const GIB: u128 = 0x4000_0000;

/// The least magnitude at which neighbouring doubles are more than 1 apart.
pub const DOUBLE_EXACT: u64 = 0x20_0000_0000_0000;

/// `n / d` rounded to the nearest integer, a tie going to the even one.
pub open spec fn round_half_even(n: nat, d: nat) -> nat
    recommends
        d > 0,
{
    let q = n / d;
    let r = n % d;
    if 2 * r > d || (2 * r == d && q % 2 == 1) {
        q + 1
    } else {
        q
    }
}

/// Rounding goes to a nearest integer: the rounded quotient, times the
/// divisor, is at most half a divisor away from the dividend.
pub proof fn lemma_round_is_nearest(n: nat, d: nat)
    requires
        d > 0,
    ensures
        2 * (round_half_even(n, d) * d - n) <= d,
        2 * (n - round_half_even(n, d) * d) <= d,
{
    let q = n / d;
    let r = n % d;
    vstd::arithmetic::div_mod::lemma_fundamental_div_mod(n as int, d as int);
    assert(n == q * d + r) by (nonlinear_arith)
        requires
            n == d * q + r,
    ;
    assert((q + 1) * d == q * d + d) by (nonlinear_arith);
}

/// The distance between neighbouring doubles at magnitude `x`.
pub open spec fn double_step(x: nat) -> nat
    decreases x,
{
    if x < DOUBLE_EXACT {
        1
    } else {
        2 * double_step(x / 2)
    }
}

/// The double nearest to the integer `x`, a tie going to the even mantissa.
pub open spec fn nearest_double(x: nat) -> nat {
    round_half_even(x, double_step(x)) * double_step(x)
}

/// Every integer below 2 to the 53 is a double.
pub proof fn lemma_small_counts_are_exact(x: nat)
    requires
        x < DOUBLE_EXACT,
    ensures
        nearest_double(x) == x,
{
    assert(double_step(x) == 1);
    assert(x / 1 == x && x % 1 == 0);
    assert(round_half_even(x, 1) == x);
}

/// Tenths of a gibibyte in `bytes`, as shown.
pub open spec fn gib_tenths(bytes: nat) -> nat {
    round_half_even(nearest_double(bytes) * 10, GIB as nat)
}

/// The character of a decimal digit.
pub open spec fn digit_char(d: nat) -> char
    recommends
        d < 10,
{
    if d == 0 {
        '0'
    } else if d == 1 {
        '1'
    } else if d == 2 {
        '2'
    } else if d == 3 {
        '3'
    } else if d == 4 {
        '4'
    } else if d == 5 {
        '5'
    } else if d == 6 {
        '6'
    } else if d == 7 {
        '7'
    } else if d == 8 {
        '8'
    } else {
        '9'
    }
}

/// The decimal digits of `n`, most significant first, without leading zeros.
pub open spec fn decimal_digits(n: nat) -> Seq<char>
    decreases n,
{
    if n < 10 {
        seq![digit_char(n)]
    } else {
        decimal_digits(n / 10).push(digit_char(n % 10))
    }
}

/// The glyph that follows the memory figure.
pub open spec fn memory_glyph() -> char {
    '\u{e4e6}'
}

/// The memory figure for `bytes` of used memory: the gibibytes with one
/// decimal, a space and the glyph.
pub open spec fn mem_text(bytes: nat) -> Seq<char> {
    let tenths = gib_tenths(bytes);
    decimal_digits(tenths / 10) + seq!['.', digit_char(tenths % 10), ' ', memory_glyph()]
}

/// Returns `n / d` rounded to the nearest integer, ties to even.
pub fn round_div(n: u128, d: u128) -> (q: u128)
    requires
        0 < d <= u128::MAX / 2,
    ensures
        q == round_half_even(n as nat, d as nat),
        q <= n / d + 1,
{
    let q: u128 = n / d;
    let r: u128 = n % d;
    let twice: u128 = 2 * r;
    if twice > d || (twice == d && q % 2 == 1) {
        assert(q < u128::MAX) by (nonlinear_arith)
            requires
                q == n / d,
                d >= 2,
                n <= u128::MAX,
        ;
        q + 1
    } else {
        q
    }
}

/// A power of two from 1 to 2048: the distances between neighbouring
/// doubles below 2 to the 64.
pub open spec fn is_short_step(step: nat) -> bool {
    ||| step == 1
    ||| step == 2
    ||| step == 4
    ||| step == 8
    ||| step == 16
    ||| step == 32
    ||| step == 64
    ||| step == 128
    ||| step == 256
    ||| step == 512
    ||| step == 1024
    ||| step == 2048
}

/// The multiples of a short step reach 2 to the 64: rounding a 64-bit
/// number to such a multiple leads no further than that.
pub proof fn lemma_step_multiples(x: nat, step: nat)
    requires
        x <= u64::MAX,
        is_short_step(step),
    ensures
        (x / step) * step + step <= 0x1_0000_0000_0000_0000,
{
    if step == 1 {
        assert((x / 1) * 1 + 1 <= 0x1_0000_0000_0000_0000);
    }
    if step == 2 {
        assert((x / 2) * 2 + 2 <= 0x1_0000_0000_0000_0000);
    }
    if step == 4 {
        assert((x / 4) * 4 + 4 <= 0x1_0000_0000_0000_0000);
    }
    if step == 8 {
        assert((x / 8) * 8 + 8 <= 0x1_0000_0000_0000_0000);
    }
    if step == 16 {
        assert((x / 16) * 16 + 16 <= 0x1_0000_0000_0000_0000);
    }
    if step == 32 {
        assert((x / 32) * 32 + 32 <= 0x1_0000_0000_0000_0000);
    }
    if step == 64 {
        assert((x / 64) * 64 + 64 <= 0x1_0000_0000_0000_0000);
    }
    if step == 128 {
        assert((x / 128) * 128 + 128 <= 0x1_0000_0000_0000_0000);
    }
    if step == 256 {
        assert((x / 256) * 256 + 256 <= 0x1_0000_0000_0000_0000);
    }
    if step == 512 {
        assert((x / 512) * 512 + 512 <= 0x1_0000_0000_0000_0000);
    }
    if step == 1024 {
        assert((x / 1024) * 1024 + 1024 <= 0x1_0000_0000_0000_0000);
    }
    if step == 2048 {
        assert((x / 2048) * 2048 + 2048 <= 0x1_0000_0000_0000_0000);
    }
}

/// Returns the distance between neighbouring doubles at magnitude `x`.
pub fn double_step_of(x: u64) -> (step: u64)
    ensures
        step == double_step(x as nat),
        is_short_step(step as nat),
{
    let mut step: u64 = 1;
    let mut rest: u64 = x;
    while rest >= DOUBLE_EXACT
        invariant
            is_short_step(step as nat),
            rest * step <= x,
            double_step(x as nat) == step * double_step(rest as nat),
        decreases rest,
    {
        assert(step < 2048) by (nonlinear_arith)
            requires
                rest * step <= x,
                x <= u64::MAX,
                rest >= 0x20_0000_0000_0000,
        ;
        assert((rest / 2) * (2 * step) <= rest * step) by (nonlinear_arith)
            requires
                step >= 1,
                rest >= 0,
        ;
        assert(step * (2 * double_step((rest / 2) as nat)) == (2 * step) * double_step(
            (rest / 2) as nat,
        )) by (nonlinear_arith);
        rest = rest / 2;
        step = step * 2;
    }
    assert(step * double_step(rest as nat) == step) by (nonlinear_arith)
        requires
            double_step(rest as nat) == 1,
    ;
    step
}

/// Returns the double nearest to `x`, as an integer.
pub fn nearest_double_of(x: u64) -> (value: u128)
    ensures
        value == nearest_double(x as nat),
        value <= 0x1_0000_0000_0000_0000,
{
    let step = double_step_of(x);
    let wide: u128 = x.into();
    let unit: u128 = step.into();
    let q = round_div(wide, unit);
    assert(q * unit <= 0x1_0000_0000_0000_0000) by {
        lemma_step_multiples(x as nat, step as nat);
        assert(q * unit <= (wide / unit + 1) * unit) by (nonlinear_arith)
            requires
                q <= wide / unit + 1,
                unit >= 0,
        ;
        assert((wide / unit + 1) * unit == (wide / unit) * unit + unit) by (nonlinear_arith);
    }
    q * unit
}

/// Returns the tenths of a gibibyte in `bytes`, as shown.
pub fn gib_tenths_of(bytes: u64) -> (tenths: u128)
    ensures
        tenths == gib_tenths(bytes as nat),
{
    let value = nearest_double_of(bytes);
    round_div(value * 10, GIB)
}

/// Returns the text of one decimal digit.
pub fn digit_text(d: u128) -> (text: &'static str)
    requires
        d < 10,
    ensures
        text@ == seq![digit_char(d as nat)],
{
    proof {
        reveal_strlit("0");
        reveal_strlit("1");
        reveal_strlit("2");
        reveal_strlit("3");
        reveal_strlit("4");
        reveal_strlit("5");
        reveal_strlit("6");
        reveal_strlit("7");
        reveal_strlit("8");
        reveal_strlit("9");
    }
    let text = if d == 0 {
        "0"
    } else if d == 1 {
        "1"
    } else if d == 2 {
        "2"
    } else if d == 3 {
        "3"
    } else if d == 4 {
        "4"
    } else if d == 5 {
        "5"
    } else if d == 6 {
        "6"
    } else if d == 7 {
        "7"
    } else if d == 8 {
        "8"
    } else {
        "9"
    };
    assert(text@ =~= seq![digit_char(d as nat)]);
    text
}

/// Returns `n` in decimal.
pub fn decimal_text(n: u128) -> (text: String)
    ensures
        text@ == decimal_digits(n as nat),
    decreases n,
{
    if n < 10 {
        String::from_str(digit_text(n))
    } else {
        let mut text = decimal_text(n / 10);
        text.append(digit_text(n % 10));
        assert(text@ =~= decimal_digits(n as nat));
        text
    }
}

/// Returns the memory figure for `mem_usage` bytes of used memory.
pub fn mem_display(mem_usage: u64) -> (text: String)
    ensures
        text@ == mem_text(mem_usage as nat),
{
    let tenths = gib_tenths_of(mem_usage);
    let mut text = decimal_text(tenths / 10);
    text.append(".");
    text.append(digit_text(tenths % 10));
    text.append(" \u{e4e6}");
    proof {
        reveal_strlit(".");
        reveal_strlit(" \u{e4e6}");
        assert(text@ =~= mem_text(mem_usage as nat));
    }
    text
}

} // verus!
