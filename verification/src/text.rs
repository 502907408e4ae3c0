//! Building message text: decimal numbers and concatenation.

use vstd::prelude::*;
use vstd::string::StringExecFns;

verus! {

/// The decimal digit character for `d` (< 10).
pub open spec fn digit_char(d: nat) -> char {
    (48 + d) as char
}

/// The decimal representation of `n`, without leading zeros.
pub open spec fn decimal(n: nat) -> Seq<char>
    decreases n,
{
    if n < 10 {
        seq![digit_char(n)]
    } else {
        decimal(n / 10).push(digit_char(n % 10))
    }
}

fn digit_str(d: u64) -> (s: &'static str)
    requires
        d < 10,
    ensures
        s@ == seq![digit_char(d as nat)],
{
    if d == 0 {
        proof { reveal_strlit("0"); }
        "0"
    } else if d == 1 {
        proof { reveal_strlit("1"); }
        "1"
    } else if d == 2 {
        proof { reveal_strlit("2"); }
        "2"
    } else if d == 3 {
        proof { reveal_strlit("3"); }
        "3"
    } else if d == 4 {
        proof { reveal_strlit("4"); }
        "4"
    } else if d == 5 {
        proof { reveal_strlit("5"); }
        "5"
    } else if d == 6 {
        proof { reveal_strlit("6"); }
        "6"
    } else if d == 7 {
        proof { reveal_strlit("7"); }
        "7"
    } else if d == 8 {
        proof { reveal_strlit("8"); }
        "8"
    } else {
        proof { reveal_strlit("9"); }
        "9"
    }
}

/// Appends the decimal representation of `n`.
pub fn push_decimal(s: &mut String, n: u64)
    ensures
        final(s)@ == old(s)@ + decimal(n as nat),
    decreases n,
{
    if n >= 10 {
        push_decimal(s, n / 10);
    }
    s.append(digit_str(n % 10));
}

/// `prefix`, the decimal form of `n`, then `suffix`.
pub fn number_message(prefix: &str, n: u64, suffix: &str) -> (text: String)
    ensures
        text@ == prefix@ + decimal(n as nat) + suffix@,
{
    let mut text = String::from_str(prefix);
    push_decimal(&mut text, n);
    text.append(suffix);
    text
}

/// `prefix` followed by the decimal form of `n`.
pub fn prefixed_number(prefix: &str, n: u64) -> (text: String)
    ensures
        text@ == prefix@ + decimal(n as nat),
{
    let mut text = String::from_str(prefix);
    push_decimal(&mut text, n);
    text
}

/// `prefix`, the decimal form of `a`, `middle`, the decimal form of `b`.
pub fn two_number_message(prefix: &str, a: u64, middle: &str, b: u64) -> (text: String)
    ensures
        text@ == prefix@ + decimal(a as nat) + middle@ + decimal(b as nat),
{
    let mut text = String::from_str(prefix);
    push_decimal(&mut text, a);
    text.append(middle);
    push_decimal(&mut text, b);
    text
}

/// What Rust's `Debug` formatting (`{:?}`) writes for a string: the text in
/// double quotes, with the characters `char::escape_debug` escapes written
/// as escapes. Stated by std, not here.
pub uninterp spec fn std_debug_str(text: Seq<char>) -> Seq<char>;

/// Formats a string with `format!("{:?}", ..)`, as Rust's `Debug` writes it.
/// The text is named, not stated.
#[verifier::external_body]
pub(crate) fn debug_quoted(text: &str) -> (quoted: String)
    ensures
        quoted@ == std_debug_str(text@),
{
    format!("{:?}", text)
}

} // verus!
