//! Plain-text building blocks: decimal numbers and `MM:SS` clock readings.
use vstd::prelude::*;
use vstd::string::StringExecFns;

verus! {

/// The one-character text of a decimal digit.
pub open spec fn digit_text(d: nat) -> Seq<char> {
    if d == 0 {
        "0"@
    } else if d == 1 {
        "1"@
    } else if d == 2 {
        "2"@
    } else if d == 3 {
        "3"@
    } else if d == 4 {
        "4"@
    } else if d == 5 {
        "5"@
    } else if d == 6 {
        "6"@
    } else if d == 7 {
        "7"@
    } else if d == 8 {
        "8"@
    } else {
        "9"@
    }
}

/// The decimal text of `n`, without leading zeros.
pub open spec fn decimal_text(n: nat) -> Seq<char>
    decreases n,
{
    if n < 10 {
        digit_text(n)
    } else {
        decimal_text(n / 10) + digit_text(n % 10)
    }
}

/// `n` as exactly two digits, zero-padded on the left.
pub open spec fn two_digit_text(n: nat) -> Seq<char> {
    digit_text((n / 10) % 10) + digit_text(n % 10)
}

/// A number of seconds as `MM:SS`: whole minutes modulo an hour, then
/// the remaining seconds.
pub open spec fn clock_text(secs: nat) -> Seq<char> {
    two_digit_text((secs / 60) % 60) + ":"@ + two_digit_text(secs % 60)
}

fn digit_str(d: u64) -> (r: &'static str)
    requires
        d < 10,
    ensures
        r@ == digit_text(d as nat),
{
    match d {
        0 => "0",
        1 => "1",
        2 => "2",
        3 => "3",
        4 => "4",
        5 => "5",
        6 => "6",
        7 => "7",
        8 => "8",
        _ => "9",
    }
}

/// Decimal rendering of `n`.
pub fn decimal(n: u64) -> (r: String)
    ensures
        r@ == decimal_text(n as nat),
    decreases n,
{
    if n < 10 {
        String::from_str(digit_str(n))
    } else {
        let mut s = decimal(n / 10);
        s.append(digit_str(n % 10));
        s
    }
}

fn two_digits(n: u64) -> (r: String)
    requires
        n < 100,
    ensures
        r@ == two_digit_text(n as nat),
{
    let mut s = String::from_str(digit_str((n / 10) % 10));
    s.append(digit_str(n % 10));
    s
}

/// Renders a duration given in whole seconds as zero-padded `MM:SS`.
/// Minutes are taken modulo 60, so an hour-long track reads `00:00`.
pub fn format_clock(secs: u64) -> (r: String)
    ensures
        r@ == clock_text(secs as nat),
{
    let mut s = two_digits((secs / 60) % 60);
    s.append(":");
    let rest = two_digits(secs % 60);
    s.append(rest.as_str());
    s
}

} // verus!
