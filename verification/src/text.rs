//! Text rendering of numbers.
//!
//! Each renderer is described by a spec function from a number to its
//! characters; the executable function appends exactly those characters.

use itertools::Itertools;
use pretty_duration::{pretty_duration, PrettyDurationOptions, PrettyDurationOutputFormat};
use std::time::Duration;
use vstd::prelude::*;
use vstd::string::*;

verus! {

/// The character that stands for a digit below sixteen, lower case.
pub open spec fn digit_char(d: nat) -> char {
    if d == 0 {
        '0'
    } else if d == 1 {
        '1'
    } else if d == 2 {
        '2'
    } else if d == 3 {
        '3'
    } else if d == 4 {
        '4'
    } else if d == 5 {
        '5'
    } else if d == 6 {
        '6'
    } else if d == 7 {
        '7'
    } else if d == 8 {
        '8'
    } else if d == 9 {
        '9'
    } else if d == 10 {
        'a'
    } else if d == 11 {
        'b'
    } else if d == 12 {
        'c'
    } else if d == 13 {
        'd'
    } else if d == 14 {
        'e'
    } else {
        'f'
    }
}

/// The decimal digits of `n`, most significant first, without leading
/// zeros; zero is the single digit `0`.
pub open spec fn dec_digits(n: nat) -> Seq<char>
    decreases n,
{
    if n < 10 {
        seq![digit_char(n)]
    } else {
        dec_digits(n / 10).push(digit_char(n % 10))
    }
}

/// The lower-case hexadecimal digits of `n`, most significant first, without
/// leading zeros; zero is the single digit `0`.
pub open spec fn hex_digits(n: nat) -> Seq<char>
    decreases n,
{
    if n < 16 {
        seq![digit_char(n)]
    } else {
        hex_digits(n / 16).push(digit_char(n % 16))
    }
}

/// The one-character text of a digit.
fn digit_str(d: u8) -> (s: &'static str)
    requires
        d < 16,
    ensures
        s@ == seq![digit_char(d as nat)],
{
    proof {
        reveal_strlit("0");
        reveal_strlit("1");
        reveal_strlit("2");
        reveal_strlit("3");
        reveal_strlit("4");
        reveal_strlit("5");
        reveal_strlit("6");
        reveal_strlit("7");
        reveal_strlit("8");
        reveal_strlit("9");
        reveal_strlit("a");
        reveal_strlit("b");
        reveal_strlit("c");
        reveal_strlit("d");
        reveal_strlit("e");
        reveal_strlit("f");
    }
    let s = match d {
        0 => "0",
        1 => "1",
        2 => "2",
        3 => "3",
        4 => "4",
        5 => "5",
        6 => "6",
        7 => "7",
        8 => "8",
        9 => "9",
        10 => "a",
        11 => "b",
        12 => "c",
        13 => "d",
        14 => "e",
        _ => "f",
    };
    assert(s@ =~= seq![digit_char(d as nat)]);
    s
}

/// Appends the decimal digits of `n`.
pub fn push_decimal(out: &mut String, n: u64)
    ensures
        final(out)@ == old(out)@ + dec_digits(n as nat),
    decreases n,
{
    if n >= 10 {
        push_decimal(out, n / 10);
    }
    let d: u8 = (n % 10) as u8;
    out.append(digit_str(d));
    assert(out@ =~= old(out)@ + dec_digits(n as nat));
}

/// Appends the lower-case hexadecimal digits of `n`.
pub fn push_hex(out: &mut String, n: u64)
    ensures
        final(out)@ == old(out)@ + hex_digits(n as nat),
    decreases n,
{
    if n >= 16 {
        push_hex(out, n / 16);
    }
    let d: u8 = (n % 16) as u8;
    out.append(digit_str(d));
    assert(out@ =~= old(out)@ + hex_digits(n as nat));
}

/// Ten to the power `n`.
pub open spec fn pow10(n: nat) -> nat
    decreases n,
{
    if n == 0 {
        1
    } else {
        10 * pow10((n - 1) as nat)
    }
}

/// The lowest `width` decimal digits of `n`, most significant first, with
/// leading zeros kept.
pub open spec fn padded_digits(n: nat, width: nat) -> Seq<char>
    decreases width,
{
    if width == 0 {
        Seq::empty()
    } else {
        padded_digits(n / 10, (width - 1) as nat).push(digit_char(n % 10))
    }
}

/// `magnitude` divided by ten to the `dropped`, rounded to the nearest whole
/// number, a half rounding up.
pub open spec fn scaled_round(magnitude: nat, dropped: nat) -> nat {
    (magnitude + pow10(dropped) / 2) / pow10(dropped)
}

/// The magnitude of an integer.
pub open spec fn magnitude(value: int) -> nat {
    if value < 0 {
        (-value) as nat
    } else {
        value as nat
    }
}

/// The text of a fixed-point number.
///
/// `value` counts units of ten to the minus `scale`. The text shows it with
/// `places` decimals, rounding the magnitude half up: a minus sign for a
/// negative value, the whole part, then a point and the decimals unless
/// `places` is zero.
pub open spec fn fixed_text(value: int, scale: nat, places: nat) -> Seq<char> {
    let r = scaled_round(magnitude(value), (scale - places) as nat);
    let sign = if value < 0 {
        seq!['-']
    } else {
        Seq::<char>::empty()
    };
    let whole = dec_digits(r / pow10(places));
    if places == 0 {
        sign + whole
    } else {
        sign + whole + seq!['.'] + padded_digits(r % pow10(places), places)
    }
}

/// The text of a signed whole number: a minus sign where it is negative,
/// then its decimal digits.
pub open spec fn signed_text(value: int) -> Seq<char> {
    if value < 0 {
        seq!['-'] + dec_digits(magnitude(value))
    } else {
        dec_digits(magnitude(value))
    }
}

/// Ten to the power `n`, for the powers that fit in 64 bits.
pub fn pow10_of(n: u8) -> (p: u64)
    requires
        n <= 18,
    ensures
        p == pow10(n as nat),
        1 <= p <= 1_000_000_000_000_000_000,
{
    proof {
        reveal_with_fuel(pow10, 20);
    }
    match n {
        0 => 1,
        1 => 10,
        2 => 100,
        3 => 1_000,
        4 => 10_000,
        5 => 100_000,
        6 => 1_000_000,
        7 => 10_000_000,
        8 => 100_000_000,
        9 => 1_000_000_000,
        10 => 10_000_000_000,
        11 => 100_000_000_000,
        12 => 1_000_000_000_000,
        13 => 10_000_000_000_000,
        14 => 100_000_000_000_000,
        15 => 1_000_000_000_000_000,
        16 => 10_000_000_000_000_000,
        17 => 100_000_000_000_000_000,
        _ => 1_000_000_000_000_000_000,
    }
}

/// The magnitude of a 64-bit signed number.
pub fn magnitude_of(value: i64) -> (m: u64)
    ensures
        m == magnitude(value as int),
{
    if value >= 0 {
        value as u64
    } else if value == i64::MIN {
        9_223_372_036_854_775_808
    } else {
        (-value) as u64
    }
}

/// Appends the lowest `width` decimal digits of `n`, leading zeros kept.
pub fn push_padded(out: &mut String, n: u64, width: u8)
    ensures
        final(out)@ == old(out)@ + padded_digits(n as nat, width as nat),
    decreases width,
{
    if width > 0 {
        push_padded(out, n / 10, width - 1);
        let d: u8 = (n % 10) as u8;
        out.append(digit_str(d));
    }
    assert(out@ =~= old(out)@ + padded_digits(n as nat, width as nat));
}

/// Appends a signed whole number.
pub fn push_signed(out: &mut String, value: i64)
    ensures
        final(out)@ == old(out)@ + signed_text(value as int),
{
    if value < 0 {
        out.append("-");
    }
    push_decimal(out, magnitude_of(value));
    proof {
        reveal_strlit("-");
        assert(out@ =~= old(out)@ + signed_text(value as int));
    }
}

/// Appends a fixed-point number shown with `places` decimals.
pub fn push_fixed(out: &mut String, value: i64, scale: u8, places: u8)
    requires
        places <= scale <= 18,
    ensures
        final(out)@ == old(out)@ + fixed_text(value as int, scale as nat, places as nat),
{
    let m: u64 = magnitude_of(value);
    let unit: u64 = pow10_of(scale - places);
    let r: u64 = (m + unit / 2) / unit;
    let q: u64 = pow10_of(places);
    if value < 0 {
        out.append("-");
    }
    push_decimal(out, r / q);
    if places > 0 {
        out.append(".");
        push_padded(out, r % q, places);
    }
    proof {
        reveal_strlit("-");
        reveal_strlit(".");
        assert(out@ =~= old(out)@ + fixed_text(value as int, scale as nat, places as nat));
    }
}

/// The parts laid end to end with `sep` between each two neighbours.
pub open spec fn joined(parts: Seq<Seq<char>>, sep: Seq<char>) -> Seq<char>
    decreases parts.len(),
{
    if parts.len() == 0 {
        Seq::empty()
    } else if parts.len() == 1 {
        parts[0]
    } else {
        joined(parts.drop_last(), sep) + sep + parts.last()
    }
}

/// The characters of each text in turn.
pub open spec fn texts(parts: Seq<String>) -> Seq<Seq<char>> {
    parts.map_values(|s: String| s@)
}

/// Joins texts with a separator.
///
/// Trusted: calls `itertools::Itertools::join` on the texts in order. The
/// contract claims what that method's source shows: the first text, then for
/// every further text the separator followed by that text, and the empty
/// text where there is none.
#[verifier::external_body]
pub(crate) fn join_texts(parts: &Vec<String>, sep: &str) -> (r: String)
    ensures
        r@ == joined(texts(parts@), sep@),
{
    parts.iter().join(sep)
}

/// The words in which a span of whole seconds is shown, in the long form
/// with unit names written out.
pub uninterp spec fn expanded_duration_text(secs: u64) -> Seq<char>;

/// Renders a span of whole seconds in words.
///
/// Trusted: calls `pretty_duration::pretty_duration` on a `Duration` of
/// `secs` seconds with the expanded output format and the default labels.
/// The contract only names the result: it depends on `secs` alone.
#[verifier::external_body]
pub(crate) fn duration_words(secs: u64) -> (r: String)
    ensures
        r@ == expanded_duration_text(secs),
{
    pretty_duration(
        &Duration::from_secs(secs),
        Some(PrettyDurationOptions {
            output_format: Some(PrettyDurationOutputFormat::Expanded),
            singular_labels: None,
            plural_labels: None,
        }),
    )
}

} // verus!
