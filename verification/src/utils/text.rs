//! Building text, and reading the clock.

use vstd::prelude::*;

verus! {

/// `String::push` of the standard library: appends one character.
#[verifier::external_body]
pub(crate) fn push_char(text: &mut String, c: char)
    ensures
        final(text)@ == old(text)@.push(c),
{
    text.push(c)
}

/// `std::time::SystemTime::now`, as milliseconds since the Unix epoch; 0 if
/// the clock stands before the epoch. Nothing is claimed of the number.
#[verifier::external_body]
pub(crate) fn now_millis() -> (millis: u128)
{
    std::time::SystemTime::now().duration_since(std::time::UNIX_EPOCH).map_or(0, |d| d.as_millis())
}

/// The character of a digit.
pub open spec fn digit(d: nat) -> char
    recommends
        d < 10,
{
    ((48 + d) as u8) as char
}

/// A number in decimal, without leading zeros.
pub open spec fn decimal_digits(n: nat) -> Seq<char>
    decreases n,
{
    if n < 10 {
        seq![digit(n)]
    } else {
        decimal_digits(n / 10).push(digit(n % 10))
    }
}

/// A number in binary, without leading zeros.
pub open spec fn binary_digits(n: nat) -> Seq<char>
    decreases n,
{
    if n < 2 {
        seq![digit(n)]
    } else {
        binary_digits(n / 2).push(digit(n % 2))
    }
}

/// Writes a number in decimal.
pub fn decimal(n: u64) -> (text: String)
    ensures
        text@ == decimal_digits(n as nat),
    decreases n,
{
    if n < 10 {
        let mut text = String::new();
        push_char(&mut text, (48u8 + (n as u8)) as char);
        assert(text@ =~= seq![digit(n as nat)]);
        text
    } else {
        let mut text = decimal(n / 10);
        push_char(&mut text, (48u8 + ((n % 10) as u8)) as char);
        text
    }
}

/// Writes a number in binary.
pub fn binary(n: u64) -> (text: String)
    ensures
        text@ == binary_digits(n as nat),
    decreases n,
{
    if n < 2 {
        let mut text = String::new();
        push_char(&mut text, (48u8 + (n as u8)) as char);
        assert(text@ =~= seq![digit(n as nat)]);
        text
    } else {
        let mut text = binary(n / 2);
        push_char(&mut text, (48u8 + ((n % 2) as u8)) as char);
        text
    }
}

/// Whether two texts are the same.
pub fn same_text(a: &str, b: &str) -> (same: bool)
    ensures
        same == (a@ == b@),
{
    let left = a.to_owned();
    let right = b.to_owned();
    left == right
}

} // verus!
