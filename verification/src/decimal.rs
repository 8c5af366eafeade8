//! Fixed-point coordinates and their decimal text.
//!
//! A coordinate is a whole number of millionths of a map unit, so the six
//! decimals that a map document prints hold it exactly.

use vstd::prelude::*;
use vstd::string::*;

verus! {

/// Millionths in one map unit.
pub const MICROS_PER_UNIT: u64 = 1_000_000;

/// Digits printed after the decimal point.
pub const FRACTION_DIGITS: u32 = 6;

/// The character of one decimal digit.
pub open spec fn digit_char(d: int) -> char {
    if d == 0 {
        '0'
    } else if d == 1 {
        '1'
    } else if d == 2 {
        '2'
    } else if d == 3 {
        '3'
    } else if d == 4 {
        '4'
    } else if d == 5 {
        '5'
    } else if d == 6 {
        '6'
    } else if d == 7 {
        '7'
    } else if d == 8 {
        '8'
    } else {
        '9'
    }
}

/// The decimal digits of `n`, most significant first, without leading zeros
/// (a single `0` for zero).
pub open spec fn decimal_digits(n: nat) -> Seq<char>
    decreases n,
{
    if n < 10 {
        seq![digit_char(n as int)]
    } else {
        decimal_digits(n / 10).push(digit_char((n % 10) as int))
    }
}

/// The last `width` decimal digits of `f`, padded with zeros on the left.
pub open spec fn padded_digits(f: nat, width: nat) -> Seq<char>
    decreases width,
{
    if width == 0 {
        Seq::empty()
    } else {
        padded_digits(f / 10, (width - 1) as nat).push(digit_char((f % 10) as int))
    }
}

/// The magnitude of a coordinate.
pub open spec fn magnitude(v: int) -> nat {
    if v < 0 {
        (-v) as nat
    } else {
        v as nat
    }
}

/// The text of a coordinate: a minus sign where it is negative, the whole
/// units, a point, and six decimals.
pub open spec fn micro_text(v: int) -> Seq<char> {
    let sign = if v < 0 {
        seq!['-']
    } else {
        Seq::<char>::empty()
    };
    sign + decimal_digits(magnitude(v) / 1_000_000) + seq!['.'] + padded_digits(
        magnitude(v) % 1_000_000,
        6,
    )
}

/// The digit that a character stands for, if it is a decimal digit.
pub open spec fn digit_value(c: char) -> Option<int> {
    if c == '0' {
        Some(0)
    } else if c == '1' {
        Some(1)
    } else if c == '2' {
        Some(2)
    } else if c == '3' {
        Some(3)
    } else if c == '4' {
        Some(4)
    } else if c == '5' {
        Some(5)
    } else if c == '6' {
        Some(6)
    } else if c == '7' {
        Some(7)
    } else if c == '8' {
        Some(8)
    } else if c == '9' {
        Some(9)
    } else {
        None
    }
}

/// The number that a run of decimal digits stands for, if all of them are
/// digits. The empty run stands for 0.
pub open spec fn digits_value(s: Seq<char>) -> Option<int>
    decreases s.len(),
{
    if s.len() == 0 {
        Some(0)
    } else {
        match (digits_value(s.drop_last()), digit_value(s.last())) {
            (Some(high), Some(d)) => Some(high * 10 + d),
            _ => None,
        }
    }
}

/// What a reader makes of a coordinate's text: an optional minus sign, the
/// digits of the whole units, a point, and six decimals. Anything else is not
/// a coordinate.
pub open spec fn read_micro(text: Seq<char>) -> Option<int> {
    let negative = text.len() > 0 && text[0] == '-';
    let body = if negative {
        text.skip(1)
    } else {
        text
    };
    if body.len() < 7 || body[body.len() - 7] != '.' {
        None
    } else {
        match (
            digits_value(body.take(body.len() - 7)),
            digits_value(body.skip(body.len() - 6)),
        ) {
            (Some(whole), Some(fraction)) => Some(
                if negative {
                    -(whole * 1_000_000 + fraction)
                } else {
                    whole * 1_000_000 + fraction
                },
            ),
            _ => None,
        }
    }
}

/// Ten to the power `w`.
pub open spec fn pow10(w: nat) -> nat
    decreases w,
{
    if w == 0 {
        1
    } else {
        10 * pow10((w - 1) as nat)
    }
}

/// The digits of a number read back give the number, and they begin with a
/// digit, not with a minus sign.
pub proof fn lemma_decimal_digits_read(n: nat)
    ensures
        digits_value(decimal_digits(n)) == Some(n as int),
        decimal_digits(n).len() >= 1,
        decimal_digits(n)[0] != '-',
    decreases n,
{
    if n < 10 {
        let s = decimal_digits(n);
        assert(s.drop_last() =~= Seq::<char>::empty());
        assert(digits_value(s.drop_last()) == Some(0int));
    } else {
        lemma_decimal_digits_read(n / 10);
        let s = decimal_digits(n);
        assert(s.drop_last() =~= decimal_digits(n / 10));
        assert(s.last() == digit_char((n % 10) as int));
        assert(s[0] == decimal_digits(n / 10)[0]);
    }
}

/// The padded digits of a number below ten to the power `width` are `width`
/// digits that read back as the number.
pub proof fn lemma_padded_digits_read(f: nat, width: nat)
    requires
        f < pow10(width),
    ensures
        padded_digits(f, width).len() == width,
        digits_value(padded_digits(f, width)) == Some(f as int),
    decreases width,
{
    if width > 0 {
        lemma_padded_digits_read(f / 10, (width - 1) as nat);
        let s = padded_digits(f, width);
        assert(s.drop_last() =~= padded_digits(f / 10, (width - 1) as nat));
        assert(s.last() == digit_char((f % 10) as int));
    }
}

/// Reading the text of a coordinate gives the coordinate back.
pub proof fn lemma_read_micro_text(v: int)
    ensures
        read_micro(micro_text(v)) == Some(v),
{
    let m = magnitude(v);
    let whole = decimal_digits(m / 1_000_000);
    let fraction = padded_digits(m % 1_000_000, 6);
    lemma_decimal_digits_read(m / 1_000_000);
    assert(pow10(6) == 1_000_000) by {
        reveal_with_fuel(pow10, 7);
    }
    lemma_padded_digits_read(m % 1_000_000, 6);
    let text = micro_text(v);
    let body = whole + seq!['.'] + fraction;
    if v < 0 {
        assert(text =~= seq!['-'] + body);
        assert(text[0] == '-');
        assert(text.skip(1) =~= body);
    } else {
        assert(text =~= body);
        assert(text[0] == whole[0]);
    }
    assert(body.len() == whole.len() + 7);
    assert(body[body.len() - 7] == '.');
    assert(body.take(body.len() - 7) =~= whole);
    assert(body.skip(body.len() - 6) =~= fraction);
}

/// One decimal digit as text.
fn digit_str(d: u64) -> (r: &'static str)
    requires
        d < 10,
    ensures
        r@ == seq![digit_char(d as int)],
{
    proof {
        reveal_strlit("0");
        reveal_strlit("1");
        reveal_strlit("2");
        reveal_strlit("3");
        reveal_strlit("4");
        reveal_strlit("5");
        reveal_strlit("6");
        reveal_strlit("7");
        reveal_strlit("8");
        reveal_strlit("9");
    }
    let r: &'static str = if d == 0 {
        "0"
    } else if d == 1 {
        "1"
    } else if d == 2 {
        "2"
    } else if d == 3 {
        "3"
    } else if d == 4 {
        "4"
    } else if d == 5 {
        "5"
    } else if d == 6 {
        "6"
    } else if d == 7 {
        "7"
    } else if d == 8 {
        "8"
    } else {
        "9"
    };
    assert(r@ =~= seq![digit_char(d as int)]);
    r
}

/// Appends the decimal digits of `n` to `out`.
pub fn push_decimal(out: &mut String, n: u64)
    ensures
        final(out)@ == old(out)@ + decimal_digits(n as nat),
    decreases n,
{
    if n >= 10 {
        push_decimal(out, n / 10);
    }
    out.append(digit_str(n % 10));
    assert(final(out)@ =~= old(out)@ + decimal_digits(n as nat));
}

/// Appends the last `width` decimal digits of `f` to `out`, zeros included.
pub fn push_padded(out: &mut String, f: u64, width: u32)
    ensures
        final(out)@ == old(out)@ + padded_digits(f as nat, width as nat),
    decreases width,
{
    if width > 0 {
        push_padded(out, f / 10, width - 1);
        out.append(digit_str(f % 10));
    }
    assert(final(out)@ =~= old(out)@ + padded_digits(f as nat, width as nat));
}

/// The magnitude of a coordinate as an unsigned number.
pub fn magnitude_of(v: i64) -> (m: u64)
    ensures
        m == magnitude(v as int),
{
    if v >= 0 {
        v as u64
    } else if v == i64::MIN {
        9_223_372_036_854_775_808u64
    } else {
        (-v) as u64
    }
}

/// Appends the text of the coordinate `v` to `out`.
pub fn push_micro(out: &mut String, v: i64)
    ensures
        final(out)@ == old(out)@ + micro_text(v as int),
{
    let m: u64 = magnitude_of(v);
    if v < 0 {
        proof {
            reveal_strlit("-");
        }
        out.append("-");
    }
    push_decimal(out, m / MICROS_PER_UNIT);
    proof {
        reveal_strlit(".");
    }
    out.append(".");
    push_padded(out, m % MICROS_PER_UNIT, FRACTION_DIGITS);
    assert(final(out)@ =~= old(out)@ + micro_text(v as int));
}

/// The text of the coordinate `v`.
pub fn format_micro(v: i64) -> (text: String)
    ensures
        text@ == micro_text(v as int),
{
    let mut text = String::new();
    push_micro(&mut text, v);
    assert(text@ =~= micro_text(v as int));
    text
}

} // verus!
