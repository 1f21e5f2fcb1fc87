//! Decimal numbers and calendar dates written as text.
use vstd::prelude::*;

verus! {

/// The decimal digit for `d`, for `d` below ten.
pub open spec fn digit_char(d: nat) -> char {
    if d == 0 { '0' }
    else if d == 1 { '1' }
    else if d == 2 { '2' }
    else if d == 3 { '3' }
    else if d == 4 { '4' }
    else if d == 5 { '5' }
    else if d == 6 { '6' }
    else if d == 7 { '7' }
    else if d == 8 { '8' }
    else { '9' }
}

/// `n` in decimal, without sign or leading zeros.
pub open spec fn decimal(n: nat) -> Seq<char>
    decreases n,
{
    if n < 10 {
        seq![digit_char(n)]
    } else {
        decimal(n / 10).push(digit_char(n % 10))
    }
}

/// `n` in decimal with a `-` in front when negative.
pub open spec fn signed_decimal(n: int) -> Seq<char> {
    if n < 0 {
        "-"@ + decimal((-n) as nat)
    } else {
        decimal(n as nat)
    }
}

/// `n` (not negative) in decimal, with a leading zero when below ten.
pub open spec fn two_digits(n: int) -> Seq<char> {
    if n < 10 {
        "0"@ + decimal(n as nat)
    } else {
        decimal(n as nat)
    }
}

/// `{year}-{month:02}-{day:02}`.
pub open spec fn date_layout(year: int, month: int, day: int) -> Seq<char> {
    signed_decimal(year) + "-"@ + two_digits(month) + "-"@ + two_digits(day)
}

fn digit_str(d: u32) -> (r: &'static str)
    requires
        d < 10,
    ensures
        r@ == seq![digit_char(d as nat)],
{
    proof {
        reveal_strlit("0"); reveal_strlit("1"); reveal_strlit("2"); reveal_strlit("3");
        reveal_strlit("4"); reveal_strlit("5"); reveal_strlit("6"); reveal_strlit("7");
        reveal_strlit("8"); reveal_strlit("9");
    }
    if d == 0 { "0" }
    else if d == 1 { "1" }
    else if d == 2 { "2" }
    else if d == 3 { "3" }
    else if d == 4 { "4" }
    else if d == 5 { "5" }
    else if d == 6 { "6" }
    else if d == 7 { "7" }
    else if d == 8 { "8" }
    else { "9" }
}

pub(crate) fn append_decimal(s: &mut String, n: u32)
    ensures
        final(s)@ == old(s)@ + decimal(n as nat),
    decreases n,
{
    if n >= 10 {
        append_decimal(s, n / 10);
    }
    s.append(digit_str(n % 10));
    assert(final(s)@ =~= old(s)@ + decimal(n as nat));
}

/// Writes a calendar date as `{year}-{month:02}-{day:02}`.
pub(crate) fn write_date(year: i32, month: u32, day: u32) -> (r: String)
    ensures
        r@ == date_layout(year as int, month as int, day as int),
{
    let mut r = String::new();
    if year < 0 {
        r.append("-");
        append_decimal(&mut r, (-(year as i64)) as u32);
    } else {
        append_decimal(&mut r, year as u32);
    }
    r.append("-");
    if month < 10 {
        r.append("0");
    }
    append_decimal(&mut r, month);
    r.append("-");
    if day < 10 {
        r.append("0");
    }
    append_decimal(&mut r, day);
    assert(r@ =~= date_layout(year as int, month as int, day as int));
    r
}

} // verus!
