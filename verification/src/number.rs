//! Unsigned decimal literals: what they denote, how they are read and written.

use std::num::ParseIntError;
use vstd::prelude::*;

verus! {

/// `std::num::ParseIntError`, the error of `str::parse` on an integer type. Nothing
/// is claimed of what is inside.
#[verifier::external_type_specification]
#[verifier::external_body]
pub struct ExParseIntError(ParseIntError);

/// Whether `c` is one of the ten ASCII digits.
pub open spec fn is_digit(c: char) -> bool {
    '0' <= c <= '9'
}

/// The number that the digit `c` stands for.
pub open spec fn digit_value(c: char) -> nat
    recommends
        is_digit(c),
{
    (c as nat - '0' as nat) as nat
}

/// The number that a run of digits denotes in base ten; the empty run denotes zero.
pub open spec fn digits_value(digits: Seq<char>) -> nat
    decreases digits.len(),
{
    if digits.len() == 0 {
        0
    } else {
        digits_value(digits.drop_last()) * 10 + digit_value(digits.last())
    }
}

/// The text without the one `+` that may stand in front of a literal.
pub open spec fn unsigned_part(text: Seq<char>) -> Seq<char> {
    if text.len() > 0 && text[0] == '+' {
        text.drop_first()
    } else {
        text
    }
}

/// Whether `text` is an optional `+` followed by one or more digits and nothing else.
pub open spec fn is_decimal_literal(text: Seq<char>) -> bool {
    let digits = unsigned_part(text);
    &&& digits.len() > 0
    &&& forall|i: int| 0 <= i < digits.len() ==> is_digit(#[trigger] digits[i])
}

/// The number that `text` denotes, where it is a decimal literal that fits a `usize`.
pub open spec fn parse_usize_spec(text: Seq<char>) -> Option<nat> {
    if is_decimal_literal(text) && digits_value(unsigned_part(text)) <= usize::MAX {
        Some(digits_value(unsigned_part(text)))
    } else {
        None
    }
}

/// The error that `str::parse::<usize>` reports for a text that it does not accept.
pub uninterp spec fn parse_failure(text: Seq<char>) -> ParseIntError;

/// What reading `text` as a number gives: the number, or the error of the attempt.
pub open spec fn parse_result(text: Seq<char>) -> Result<nat, ParseIntError> {
    match parse_usize_spec(text) {
        Some(n) => Ok(n),
        None => Err(parse_failure(text)),
    }
}

/// Calls `str::parse::<usize>`. Trusted: the call succeeds exactly on an optional `+`
/// followed by one or more ASCII digits whose value fits a `usize`, and then returns
/// that value; the error of every other text is a function of the text alone.
#[verifier::external_body]
pub(crate) fn parse_usize(text: &str) -> (r: Result<usize, ParseIntError>)
    ensures
        match r {
            Ok(n) => parse_usize_spec(text@) == Some(n as nat),
            Err(e) => parse_usize_spec(text@) is None && e == parse_failure(text@),
        },
{
    text.parse::<usize>()
}

/// The digit that stands for `d`, where `d` is below ten.
pub open spec fn digit_char(d: nat) -> char
    recommends
        d < 10,
{
    (d + '0' as nat) as char
}

/// The decimal text of `n`: its digits, the most significant first, without a sign
/// and without leading zeros.
pub open spec fn decimal_text(n: nat) -> Seq<char>
    decreases n,
{
    if n < 10 {
        seq![digit_char(n)]
    } else {
        decimal_text(n / 10).push(digit_char(n % 10))
    }
}

/// Appends the decimal text of `n` to `text`.
pub fn push_decimal(text: &mut String, n: usize)
    ensures
        final(text)@ == old(text)@ + decimal_text(n as nat),
    decreases n,
{
    if n >= 10 {
        push_decimal(text, n / 10);
    }
    let digit: u8 = (n % 10) as u8;
    let c: char = (digit + '0' as u8) as char;
    assert(c == digit_char((n % 10) as nat));
    text.push(c);
    assert(text@ =~= old(text)@ + decimal_text(n as nat));
}

/// What `push_decimal` writes is a number as the scanners read it: the decimal text
/// of `n` is one or more digits, and the digits denote `n`.
pub proof fn lemma_decimal_text_digits(n: nat)
    ensures
        decimal_text(n).len() > 0,
        forall|i: int| 0 <= i < decimal_text(n).len() ==> is_digit(#[trigger] decimal_text(n)[i]),
        digits_value(decimal_text(n)) == n,
    decreases n,
{
    let text = decimal_text(n);
    if n < 10 {
        assert(text.drop_last() =~= Seq::<char>::empty());
        assert(digits_value(text.drop_last()) == 0);
    } else {
        lemma_decimal_text_digits(n / 10);
        assert(text.drop_last() =~= decimal_text(n / 10));
    }
}

} // verus!
