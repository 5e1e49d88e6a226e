//! Decimal text of unsigned numbers.

use vstd::prelude::*;
use vstd::string::StringExecFns;

verus! {

/// The character of the decimal digit `d`.
pub open spec fn digit_char(d: nat) -> char {
    if d == 0 {
        '0'
    } else if d == 1 {
        '1'
    } else if d == 2 {
        '2'
    } else if d == 3 {
        '3'
    } else if d == 4 {
        '4'
    } else if d == 5 {
        '5'
    } else if d == 6 {
        '6'
    } else if d == 7 {
        '7'
    } else if d == 8 {
        '8'
    } else {
        '9'
    }
}

/// The decimal digits of `n`, most significant first, without leading zeros.
pub open spec fn decimal(n: nat) -> Seq<char>
    decreases n,
{
    if n < 10 {
        seq![digit_char(n)]
    } else {
        decimal(n / 10).push(digit_char(n % 10))
    }
}

/// The last `width` decimal digits of `n`, most significant first, with
/// leading zeros where `n` has fewer digits.
pub open spec fn padded(n: nat, width: nat) -> Seq<char>
    decreases width,
{
    if width == 0 {
        Seq::<char>::empty()
    } else {
        padded(n / 10, (width - 1) as nat).push(digit_char(n % 10))
    }
}

/// The texts of a list of lines.
pub open spec fn lines_of(lines: Seq<String>) -> Seq<Seq<char>> {
    lines.map_values(|l: String| l@)
}

/// Ten to the power `k`.
pub open spec fn pow10(k: nat) -> nat
    decreases k,
{
    if k == 0 {
        1
    } else {
        10 * pow10((k - 1) as nat)
    }
}

/// The text of `value` counted in units of `10^-decimals`: its whole part,
/// a point, and exactly `decimals` digits.
pub open spec fn fixed(value: nat, decimals: nat) -> Seq<char> {
    decimal(value / pow10(decimals)) + seq!['.'] + padded(value % pow10(decimals), decimals)
}

/// `n / d` rounded to the nearest whole number, halves upwards.
pub open spec fn rounded_div(n: nat, d: nat) -> nat
    recommends
        d > 0,
{
    (n + d / 2) / d
}

/// The text of one decimal digit.
pub fn digit_text(d: u8) -> (text: &'static str)
    requires
        d < 10,
    ensures
        text@ == seq![digit_char(d as nat)],
{
    proof {
        reveal_strlit("0");
        reveal_strlit("1");
        reveal_strlit("2");
        reveal_strlit("3");
        reveal_strlit("4");
        reveal_strlit("5");
        reveal_strlit("6");
        reveal_strlit("7");
        reveal_strlit("8");
        reveal_strlit("9");
    }
    let text = if d == 0 {
        "0"
    } else if d == 1 {
        "1"
    } else if d == 2 {
        "2"
    } else if d == 3 {
        "3"
    } else if d == 4 {
        "4"
    } else if d == 5 {
        "5"
    } else if d == 6 {
        "6"
    } else if d == 7 {
        "7"
    } else if d == 8 {
        "8"
    } else {
        "9"
    };
    assert(text@ =~= seq![digit_char(d as nat)]);
    text
}

/// Appends the decimal digits of `n` to `out`.
pub fn append_decimal(out: &mut String, n: u128)
    ensures
        final(out)@ == old(out)@ + decimal(n as nat),
    decreases n,
{
    if n >= 10 {
        append_decimal(out, n / 10);
    }
    out.append(digit_text((n % 10) as u8));
    proof {
        if n >= 10 {
            assert(final(out)@ =~= old(out)@ + decimal(n as nat));
        } else {
            assert(final(out)@ =~= old(out)@ + decimal(n as nat));
        }
    }
}

/// Appends the last `width` decimal digits of `n` to `out`, with leading zeros.
pub fn append_padded(out: &mut String, n: u128, width: u8)
    ensures
        final(out)@ == old(out)@ + padded(n as nat, width as nat),
    decreases width,
{
    if width > 0 {
        append_padded(out, n / 10, width - 1);
        out.append(digit_text((n % 10) as u8));
    }
    assert(final(out)@ =~= old(out)@ + padded(n as nat, width as nat));
}

/// The decimal text of `n`.
pub fn decimal_string(n: u128) -> (text: String)
    ensures
        text@ == decimal(n as nat),
{
    let mut text = String::new();
    append_decimal(&mut text, n);
    assert(text@ =~= decimal(n as nat));
    text
}

/// The longest fraction that `append_fixed` writes: the largest power of ten
/// below `u128::MAX` is the 38th.
pub const MAX_DECIMALS: u8 = 38;

/// Ten to the power `k`.
pub fn power_of_ten(k: u8) -> (scale: u128)
    requires
        k <= MAX_DECIMALS,
    ensures
        scale == pow10(k as nat),
        1 <= scale <= 100_000_000_000_000_000_000_000_000_000_000_000_000,
{
    let mut scale: u128 = 1;
    let mut i: u8 = 0;
    proof {
        lemma_pow10_grows(0, MAX_DECIMALS as nat);
        lemma_pow10_of_max();
    }
    while i < k
        invariant
            i <= k <= MAX_DECIMALS,
            scale == pow10(i as nat),
            1 <= scale <= 100_000_000_000_000_000_000_000_000_000_000_000_000,
        decreases k - i,
    {
        proof {
            lemma_pow10_grows((i + 1) as nat, MAX_DECIMALS as nat);
            lemma_pow10_of_max();
        }
        scale = scale * 10;
        i = i + 1;
    }
    scale
}

/// Powers of ten grow with the exponent.
pub proof fn lemma_pow10_grows(a: nat, b: nat)
    requires
        a <= b,
    ensures
        1 <= pow10(a) <= pow10(b),
    decreases b,
{
    if a < b {
        lemma_pow10_grows(a, (b - 1) as nat);
    } else if a > 0 {
        lemma_pow10_grows((a - 1) as nat, (a - 1) as nat);
    }
}

/// The largest scale that `append_fixed` uses.
proof fn lemma_pow10_of_max()
    ensures
        pow10(MAX_DECIMALS as nat) == 100_000_000_000_000_000_000_000_000_000_000_000_000,
{
    reveal_with_fuel(pow10, 40);
}

/// Appends to `out` the text of `value` counted in units of `10^-decimals`.
pub fn append_fixed(out: &mut String, value: u128, decimals: u8)
    requires
        decimals <= MAX_DECIMALS,
    ensures
        final(out)@ == old(out)@ + fixed(value as nat, decimals as nat),
{
    let scale = power_of_ten(decimals);
    append_decimal(out, value / scale);
    out.append(".");
    append_padded(out, value % scale, decimals);
    proof {
        reveal_strlit(".");
        assert("."@ =~= seq!['.']);
        assert(final(out)@ =~= old(out)@ + fixed(value as nat, decimals as nat));
    }
}

/// `n / d` rounded to the nearest whole number, halves upwards.
pub fn div_rounded(n: u128, d: u128) -> (q: u128)
    requires
        d > 0,
        n + d / 2 <= u128::MAX,
    ensures
        q == rounded_div(n as nat, d as nat),
{
    (n + d / 2) / d
}

} // verus!
