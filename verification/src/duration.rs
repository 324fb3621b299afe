//! Rendering of a duration as `hours:minutes:seconds`.

use vstd::prelude::*;
use vstd::string::*;

verus! {

/// Seconds in a minute.
pub const SECS_PER_MINUTE: u128 = 60;

/// Seconds in an hour.
pub const SECS_PER_HOUR: u128 = 3600;

/// The character that stands for the digit `d`.
pub open spec fn digit_char(d: nat) -> char
    recommends
        d < 10,
{
    if d == 0 {
        '0'
    } else if d == 1 {
        '1'
    } else if d == 2 {
        '2'
    } else if d == 3 {
        '3'
    } else if d == 4 {
        '4'
    } else if d == 5 {
        '5'
    } else if d == 6 {
        '6'
    } else if d == 7 {
        '7'
    } else if d == 8 {
        '8'
    } else {
        '9'
    }
}

/// The decimal numeral of `n`, most significant digit first and without
/// leading zeros; zero is written `0`.
pub open spec fn decimal(n: nat) -> Seq<char>
    decreases n,
{
    if n < 10 {
        seq![digit_char(n)]
    } else {
        decimal(n / 10).push(digit_char(n % 10))
    }
}

/// Whole hours in `secs` seconds.
pub open spec fn hours_of(secs: nat) -> nat {
    secs / 3600
}

/// Whole minutes left in `secs` seconds once the hours are taken out.
pub open spec fn minutes_of(secs: nat) -> nat {
    (secs % 3600) / 60
}

/// Seconds left in `secs` seconds once hours and minutes are taken out.
pub open spec fn seconds_of(secs: nat) -> nat {
    secs % 60
}

/// The text of a duration of `secs` seconds: minutes and seconds as plain
/// numerals with a colon between them, and the hours with a colon before
/// them when there is at least one.
pub open spec fn duration_text(secs: nat) -> Seq<char> {
    let tail = decimal(minutes_of(secs)) + seq![':'] + decimal(seconds_of(secs));
    if hours_of(secs) > 0 {
        decimal(hours_of(secs)) + seq![':'] + tail
    } else {
        tail
    }
}

/// The one-character text of a digit.
fn digit_str(d: u8) -> (s: &'static str)
    requires
        d < 10,
    ensures
        s@ == seq![digit_char(d as nat)],
{
    proof {
        reveal_strlit("0");
        reveal_strlit("1");
        reveal_strlit("2");
        reveal_strlit("3");
        reveal_strlit("4");
        reveal_strlit("5");
        reveal_strlit("6");
        reveal_strlit("7");
        reveal_strlit("8");
        reveal_strlit("9");
    }
    let s = if d == 0 {
        "0"
    } else if d == 1 {
        "1"
    } else if d == 2 {
        "2"
    } else if d == 3 {
        "3"
    } else if d == 4 {
        "4"
    } else if d == 5 {
        "5"
    } else if d == 6 {
        "6"
    } else if d == 7 {
        "7"
    } else if d == 8 {
        "8"
    } else {
        "9"
    };
    s
}

/// Appends the decimal numeral of `n` to `out`.
pub fn push_decimal(out: &mut String, n: u128)
    ensures
        final(out)@ == old(out)@ + decimal(n as nat),
    decreases n,
{
    if n >= 10 {
        push_decimal(out, n / 10);
    }
    let d: u8 = (n % 10) as u8;
    out.append(digit_str(d));
}

/// Renders a duration given in whole seconds.
///
/// An hour and a bit more reads `1:1:1`, three quarters of a minute `0:45`:
/// the hours are left out when there are none, and no number is padded.
pub fn format_duration(seconds: u128) -> (text: String)
    ensures
        text@ == duration_text(seconds as nat),
{
    let hours: u128 = seconds / SECS_PER_HOUR;
    let minutes: u128 = (seconds % SECS_PER_HOUR) / SECS_PER_MINUTE;
    let secs: u128 = seconds % SECS_PER_MINUTE;
    let mut text = String::new();
    proof {
        reveal_strlit(":");
    }
    if hours > 0 {
        push_decimal(&mut text, hours);
        text.append(":");
    }
    push_decimal(&mut text, minutes);
    text.append(":");
    push_decimal(&mut text, secs);
    text
}

} // verus!
