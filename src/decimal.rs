use vstd::prelude::*;

verus! {

pub open spec fn is_decimal_digit(c: char) -> bool {
    '0' <= c <= '9'
}

/// A non-empty run of ASCII decimal digits.
pub open spec fn is_digit_run(s: Seq<char>) -> bool {
    s.len() > 0 && forall|i: int| 0 <= i < s.len() ==> is_decimal_digit(#[trigger] s[i])
}

pub open spec fn digit_value(c: char) -> int {
    (c as u32) - ('0' as u32)
}

/// The value of a run of decimal digits, most significant first.
pub open spec fn digits_value(s: Seq<char>) -> int
    decreases s.len(),
{
    if s.len() == 0 {
        0
    } else {
        10 * digits_value(s.drop_last()) + digit_value(s.last())
    }
}

/// The integer that `s` writes in decimal: an optional `+` or `-` sign
/// followed by one or more ASCII digits, and nothing else.
pub open spec fn decimal_value(s: Seq<char>) -> Option<int> {
    if s.len() > 0 && s[0] == '-' && is_digit_run(s.skip(1)) {
        Some(-digits_value(s.skip(1)))
    } else if s.len() > 0 && s[0] == '+' && is_digit_run(s.skip(1)) {
        Some(digits_value(s.skip(1)))
    } else if is_digit_run(s) {
        Some(digits_value(s))
    } else {
        None
    }
}

pub open spec fn fits_i128(v: int) -> bool {
    i128::MIN <= v <= i128::MAX
}

/// The 128-bit signed integer that `s` writes, if it writes one that fits.
pub open spec fn i128_text_value(s: Seq<char>) -> Option<int> {
    match decimal_value(s) {
        Some(v) => if fits_i128(v) {
            Some(v)
        } else {
            None
        },
        None => None,
    }
}

pub open spec fn digit_char(d: int) -> char {
    ((d + '0' as u32) as u32) as char
}

/// The digits of `n` in decimal, most significant first, without leading zeros.
pub open spec fn digits_text(n: nat) -> Seq<char>
    decreases n,
{
    if n < 10 {
        seq![digit_char(n as int)]
    } else {
        digits_text(n / 10).push(digit_char((n % 10) as int))
    }
}

/// `n` written in decimal, with a leading `-` when it is negative.
pub open spec fn decimal_text(n: int) -> Seq<char> {
    if n < 0 {
        seq!['-'] + digits_text((-n) as nat)
    } else {
        digits_text(n as nat)
    }
}

/// The message that std's integer parser gives when it refuses `s`.
pub uninterp spec fn int_parse_failure_text(s: Seq<char>) -> Seq<char>;

/// Relies on `str::parse::<i128>` (i128's `FromStr`): it accepts exactly an
/// optional `+` or `-` followed by one or more ASCII digits whose value fits
/// in i128, and returns that value. A refusal is rendered to its message
/// with `to_string`, which depends on the text alone.
#[verifier::external_body]
pub(crate) fn parse_i128_text(s: &str) -> (r: Result<i128, String>)
    ensures
        r is Ok <==> i128_text_value(s@) is Some,
        r matches Ok(v) ==> i128_text_value(s@) == Some(v as int),
        r matches Err(m) ==> m@ == int_parse_failure_text(s@),
{
    match s.parse::<i128>() {
        Ok(v) => Ok(v),
        Err(e) => Err(e.to_string()),
    }
}

/// Relies on i128's `Display` (through `to_string`): the value in decimal,
/// with a leading `-` when it is negative and no leading zeros.
#[verifier::external_body]
pub(crate) fn i128_text(n: i128) -> (r: String)
    ensures
        r@ == decimal_text(n as int),
{
    n.to_string()
}

} // verus!
