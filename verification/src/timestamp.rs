//! Rendering of millisecond timestamps as seconds with one decimal place.

use vstd::prelude::*;

verus! {

/// The character for a decimal digit.
pub open spec fn digit_char(d: nat) -> char {
    if d == 0 {
        '0'
    } else if d == 1 {
        '1'
    } else if d == 2 {
        '2'
    } else if d == 3 {
        '3'
    } else if d == 4 {
        '4'
    } else if d == 5 {
        '5'
    } else if d == 6 {
        '6'
    } else if d == 7 {
        '7'
    } else if d == 8 {
        '8'
    } else {
        '9'
    }
}

/// The decimal numeral of `n`, without leading zeros.
pub open spec fn decimal(n: nat) -> Seq<char>
    decreases n,
{
    if n < 10 {
        seq![digit_char(n)]
    } else {
        decimal(n / 10).push(digit_char(n % 10))
    }
}

/// A duration in milliseconds as a count of tenths of a second, rounded to
/// the nearest tenth; a value exactly halfway goes to the even tenth.
pub open spec fn tenths_of(ms: nat) -> nat {
    let whole = ms / 100;
    let rest = ms % 100;
    if rest > 50 || (rest == 50 && whole % 2 == 1) {
        whole + 1
    } else {
        whole
    }
}

/// A millisecond timestamp as seconds with one decimal place, such as
/// `12.5`.
pub open spec fn seconds_text(ms: nat) -> Seq<char> {
    let tenths = tenths_of(ms);
    decimal(tenths / 10) + seq!['.', digit_char(tenths % 10)]
}

/// A time range as `start - end`, both in seconds with one decimal place.
pub open spec fn range_text(start_ms: nat, end_ms: nat) -> Seq<char> {
    seconds_text(start_ms) + seq![' ', '-', ' '] + seconds_text(end_ms)
}

fn digit(d: u8) -> (c: char)
    requires
        d < 10,
    ensures
        c == digit_char(d as nat),
{
    if d == 0 {
        '0'
    } else if d == 1 {
        '1'
    } else if d == 2 {
        '2'
    } else if d == 3 {
        '3'
    } else if d == 4 {
        '4'
    } else if d == 5 {
        '5'
    } else if d == 6 {
        '6'
    } else if d == 7 {
        '7'
    } else if d == 8 {
        '8'
    } else {
        '9'
    }
}

/// Appends the decimal numeral of `n` to `out`.
pub fn push_decimal(out: &mut Vec<char>, n: u128)
    ensures
        final(out)@ == old(out)@ + decimal(n as nat),
    decreases n,
{
    if n >= 10 {
        push_decimal(out, n / 10);
    }
    out.push(digit((n % 10) as u8));
    assert(final(out)@ =~= old(out)@ + decimal(n as nat));
}

/// Appends `ms` as seconds with one decimal place to `out`.
pub fn push_seconds(out: &mut Vec<char>, ms: u128)
    ensures
        final(out)@ == old(out)@ + seconds_text(ms as nat),
{
    let whole: u128 = ms / 100;
    let rest: u128 = ms % 100;
    let tenths: u128 = if rest > 50 || (rest == 50 && whole % 2 == 1) {
        whole + 1
    } else {
        whole
    };
    push_decimal(out, tenths / 10);
    out.push('.');
    out.push(digit((tenths % 10) as u8));
    assert(final(out)@ =~= old(out)@ + seconds_text(ms as nat));
}

/// Renders the range from `start_ms` to `end_ms`.
pub fn format_range(start_ms: u128, end_ms: u128) -> (text: Vec<char>)
    ensures
        text@ == range_text(start_ms as nat, end_ms as nat),
{
    let mut text: Vec<char> = Vec::new();
    push_seconds(&mut text, start_ms);
    text.push(' ');
    text.push('-');
    text.push(' ');
    push_seconds(&mut text, end_ms);
    assert(text@ =~= range_text(start_ms as nat, end_ms as nat));
    text
}

} // verus!
