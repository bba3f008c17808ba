//! Numbers as text: decimal digits and the `MM:SS` form of a duration.

use vstd::prelude::*;
use vstd::string::*;

verus! {

/// The ten digits, in the order of their values.
pub open spec fn decimal_digits() -> Seq<char> {
    "0123456789"@
}

/// A number in decimal, without leading zeros.
pub open spec fn decimal(n: nat) -> Seq<char>
    decreases n,
{
    if n < 10 {
        seq![decimal_digits()[n as int]]
    } else {
        decimal(n / 10).push(decimal_digits()[(n % 10) as int])
    }
}

/// A number in decimal, at least two digits wide, filled with a zero.
pub open spec fn two_digits(n: nat) -> Seq<char> {
    if n < 10 {
        seq!['0'] + decimal(n)
    } else {
        decimal(n)
    }
}

/// A duration as minutes and seconds, each at least two digits wide, with a
/// colon between them. Minutes are not folded into hours.
pub open spec fn duration_text(seconds: nat) -> Seq<char> {
    two_digits(seconds / 60) + seq![':'] + two_digits(seconds % 60)
}

fn push_digit(text: &mut String, digit: u64)
    requires
        digit < 10,
    ensures
        final(text)@ == old(text)@.push(decimal_digits()[digit as int]),
{
    let digits = "0123456789";
    proof {
        reveal_strlit("0123456789");
    }
    let at: usize = digit as usize;
    let symbol = digits.substring_ascii(at, at + 1);
    assert(symbol@ =~= seq![decimal_digits()[digit as int]]);
    text.append(symbol);
    assert(text@ =~= old(text)@.push(decimal_digits()[digit as int]));
}

/// Appends `n` in decimal to `text`.
pub fn push_decimal(text: &mut String, n: u64)
    ensures
        final(text)@ == old(text)@ + decimal(n as nat),
    decreases n,
{
    if n >= 10 {
        push_decimal(text, n / 10);
    }
    push_digit(text, n % 10);
    assert(text@ =~= old(text)@ + decimal(n as nat));
}

fn push_two_digits(text: &mut String, n: u64)
    ensures
        final(text)@ == old(text)@ + two_digits(n as nat),
{
    if n < 10 {
        push_digit(text, 0);
        proof {
            reveal_strlit("0123456789");
        }
    }
    push_decimal(text, n);
    assert(text@ =~= old(text)@ + two_digits(n as nat));
}

/// Formats a number of seconds as `MM:SS`.
pub fn format_duration(seconds: u64) -> (text: String)
    ensures
        text@ == duration_text(seconds as nat),
{
    let minutes: u64 = seconds / 60;
    let secs: u64 = seconds % 60;
    let mut text = String::new();
    push_two_digits(&mut text, minutes);
    proof {
        reveal_strlit(":");
    }
    text.append(":");
    push_two_digits(&mut text, secs);
    assert(text@ =~= duration_text(seconds as nat));
    text
}

} // verus!
