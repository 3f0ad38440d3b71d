use vstd::prelude::*;

use crate::decimal::{
    decimal_text, i128_text, i128_text_value, int_parse_failure_text, parse_i128_text,
};
use crate::pattern::{regex_compiles, regex_is_match, regex_search};
use crate::string::{debug_form, regex_string_accepts, REGEX_SIZE_LIMIT};
use crate::traits::{ValidateSignedInteger, ValidateUnsignedInteger};
use crate::{Validated, ValidatedWrapper};

verus! {

/// Why a text or a number was refused as a customized number.
#[derive(Debug, PartialEq)]
pub enum ValidatedCustomizedNumberError {
    /// The pattern did not compile.
    RegexError(regex::Error),
    /// The text is no number; the message says why.
    ParseError(String),
    /// The number lies outside the allowed range.
    OutRange,
    /// The text does not match the pattern.
    NotMatch,
    /// The raw value could not be decoded into text.
    DecodeError,
}

/// Whether `e` is the error reported for a text `s` that is no number.
pub open spec fn is_parse_failure(s: Seq<char>, e: ValidatedCustomizedNumberError) -> bool {
    e matches ValidatedCustomizedNumberError::ParseError(m) && m@ == int_parse_failure_text(s)
}

/// The number read from a text, given what std's integer parser gave: its
/// value, or `ParseError` with the parser's message.
pub fn number_parse_verdict(parsed: Result<i128, String>) -> (r: Result<
    i128,
    ValidatedCustomizedNumberError,
>)
    ensures
        parsed matches Ok(v) ==> r == Ok::<i128, ValidatedCustomizedNumberError>(v),
        parsed matches Err(m) ==> r == Err::<i128, ValidatedCustomizedNumberError>(
            ValidatedCustomizedNumberError::ParseError(m),
        ),
{
    match parsed {
        Ok(v) => Ok(v),
        Err(m) => Err(ValidatedCustomizedNumberError::ParseError(m)),
    }
}

/// Reads a number from `s`, reporting a refusal as `ParseError`.
fn parse_number(s: &str) -> (r: Result<i128, ValidatedCustomizedNumberError>)
    ensures
        r is Ok <==> i128_text_value(s@) is Some,
        r matches Ok(v) ==> i128_text_value(s@) == Some(v as int),
        r matches Err(e) ==> is_parse_failure(s@, e),
{
    number_parse_verdict(parse_i128_text(s))
}

// ---------------------------------------------------------------------------
// Ranged numbers
// ---------------------------------------------------------------------------

/// Whether `s` writes a number within `[min, max]`.
pub open spec fn ranged_text_accepts(min: int, max: int, s: Seq<char>) -> bool {
    i128_text_value(s) matches Some(v) && min <= v <= max
}

/// Whether `e` is the error reported for a text `s` that `[min, max]`
/// refuses: a text that writes no number gives `ParseError`, else `OutRange`.
pub open spec fn ranged_number_rejects_with(
    s: Seq<char>,
    e: ValidatedCustomizedNumberError,
) -> bool {
    if i128_text_value(s) is None {
        is_parse_failure(s, e)
    } else {
        e is OutRange
    }
}

/// A number within the closed range it was built with.
#[derive(Debug, Clone, Copy)]
pub struct RangedNumber {
    n: i128,
    min: i128,
    max: i128,
}

impl View for RangedNumber {
    type V = int;

    closed spec fn view(&self) -> int {
        self.n as int
    }
}

impl RangedNumber {
    pub closed spec fn min_bound(&self) -> int {
        self.min as int
    }

    pub closed spec fn max_bound(&self) -> int {
        self.max as int
    }

    /// The number lies within the range.
    pub open spec fn wf(&self) -> bool {
        self.min_bound() <= self@ <= self.max_bound()
    }

    pub fn from_number(min: i128, max: i128, from_number_input: i128) -> (r: Result<
        RangedNumber,
        ValidatedCustomizedNumberError,
    >)
        ensures
            r is Ok <==> min <= from_number_input <= max,
            r matches Ok(v) ==> v@ == from_number_input && v.min_bound() == min && v.max_bound()
                == max && v.wf(),
            r matches Err(e) ==> e is OutRange,
    {
        if min <= from_number_input && from_number_input <= max {
            Ok(RangedNumber { n: from_number_input, min, max })
        } else {
            Err(ValidatedCustomizedNumberError::OutRange)
        }
    }

    pub fn from_str(min: i128, max: i128, from_str_input: &str) -> (r: Result<
        RangedNumber,
        ValidatedCustomizedNumberError,
    >)
        ensures
            r is Ok <==> ranged_text_accepts(min as int, max as int, from_str_input@),
            r matches Ok(v) ==> i128_text_value(from_str_input@) == Some(v@) && v.min_bound()
                == min && v.max_bound() == max && v.wf(),
            r matches Err(e) ==> ranged_number_rejects_with(from_str_input@, e),
    {
        match parse_number(from_str_input) {
            Ok(n) => RangedNumber::from_number(min, max, n),
            Err(e) => Err(e),
        }
    }

    pub fn from_string(min: i128, max: i128, from_string_input: String) -> (r: Result<
        RangedNumber,
        ValidatedCustomizedNumberError,
    >)
        ensures
            r is Ok <==> ranged_text_accepts(min as int, max as int, from_string_input@),
            r matches Ok(v) ==> i128_text_value(from_string_input@) == Some(v@) && v.min_bound()
                == min && v.max_bound() == max && v.wf(),
            r matches Err(e) ==> ranged_number_rejects_with(from_string_input@, e),
    {
        RangedNumber::from_str(min, max, from_string_input.as_str())
    }

    pub fn validate_str(min: i128, max: i128, s: &str) -> (r: Result<
        (),
        ValidatedCustomizedNumberError,
    >)
        ensures
            r is Ok <==> ranged_text_accepts(min as int, max as int, s@),
            r matches Err(e) ==> ranged_number_rejects_with(s@, e),
    {
        match RangedNumber::from_str(min, max, s) {
            Ok(_) => Ok(()),
            Err(e) => Err(e),
        }
    }

    pub fn get_number(&self) -> (r: i128)
        ensures
            r == self@,
    {
        self.n
    }

    /// The debug form `name(number)`.
    pub fn to_debug_string(&self, name: &str) -> (r: String)
        ensures
            r@ == name@ + seq!['('] + decimal_text(self@) + seq![')'],
    {
        let text = i128_text(self.n);
        debug_form(name, text.as_str())
    }
}

impl Validated for RangedNumber {
    closed spec fn display_view(&self) -> Seq<char> {
        decimal_text(self.n as int)
    }

    fn to_display_string(&self) -> (r: String)
        ensures
            r@ == decimal_text(self@),
    {
        i128_text(self.n)
    }
}

impl PartialEq for RangedNumber {
    fn eq(&self, other: &RangedNumber) -> (r: bool) {
        self.n == other.n
    }
}

impl vstd::std_specs::cmp::PartialEqSpecImpl for RangedNumber {
    open spec fn obeys_eq_spec() -> bool {
        true
    }

    open spec fn eq_spec(&self, other: &RangedNumber) -> bool {
        self@ == other@
    }
}

// ---------------------------------------------------------------------------
// Numbers whose text matches a pattern
// ---------------------------------------------------------------------------

/// Whether `s` matches `pattern` and writes a number.
pub open spec fn regex_number_accepts(pattern: Seq<char>, s: Seq<char>) -> bool {
    regex_string_accepts(pattern, s) && i128_text_value(s) is Some
}

/// Whether `e` is the error reported for a text `s` that `pattern` refuses:
/// `RegexError` for a pattern that does not compile, `NotMatch` for a text
/// that it does not match, else `ParseError`.
pub open spec fn regex_number_rejects_with(
    pattern: Seq<char>,
    s: Seq<char>,
    e: ValidatedCustomizedNumberError,
) -> bool {
    if !regex_compiles(pattern, REGEX_SIZE_LIMIT as nat) {
        e is RegexError
    } else if !regex_is_match(pattern, s) {
        e is NotMatch
    } else {
        is_parse_failure(s, e)
    }
}

/// The verdict on a number's text, given what searching it with the
/// compiled pattern gave: a match passes, no match gives `NotMatch`, and a
/// pattern that did not compile gives `RegexError` with the compiler's error.
pub fn regex_number_verdict(search: Result<bool, regex::Error>) -> (r: Result<
    (),
    ValidatedCustomizedNumberError,
>)
    ensures
        r is Ok <==> search == Ok::<bool, regex::Error>(true),
        search == Ok::<bool, regex::Error>(false) ==> r == Err::<
            (),
            ValidatedCustomizedNumberError,
        >(ValidatedCustomizedNumberError::NotMatch),
        search matches Err(e) ==> r == Err::<(), ValidatedCustomizedNumberError>(
            ValidatedCustomizedNumberError::RegexError(e),
        ),
{
    match search {
        Ok(true) => Ok(()),
        Ok(false) => Err(ValidatedCustomizedNumberError::NotMatch),
        Err(e) => Err(ValidatedCustomizedNumberError::RegexError(e)),
    }
}

/// Checks that `pattern` matches `s`.
fn check_pattern(pattern: &str, s: &str) -> (r: Result<(), ValidatedCustomizedNumberError>)
    ensures
        r is Ok <==> regex_string_accepts(pattern@, s@),
        r matches Err(e) ==> if !regex_compiles(pattern@, REGEX_SIZE_LIMIT as nat) {
            e is RegexError
        } else {
            e is NotMatch
        },
{
    regex_number_verdict(regex_search(pattern, REGEX_SIZE_LIMIT, s))
}

/// A number whose decimal text matches the pattern it was built with.
#[derive(Debug, Clone)]
pub struct RegexNumber {
    pattern: String,
    n: i128,
}

impl View for RegexNumber {
    type V = int;

    closed spec fn view(&self) -> int {
        self.n as int
    }
}

impl RegexNumber {
    /// The pattern that the number's text was checked against.
    pub closed spec fn pattern(&self) -> Seq<char> {
        self.pattern@
    }

    pub fn from_str(pattern: &str, from_str_input: &str) -> (r: Result<
        RegexNumber,
        ValidatedCustomizedNumberError,
    >)
        ensures
            r is Ok <==> regex_number_accepts(pattern@, from_str_input@),
            r matches Ok(v) ==> i128_text_value(from_str_input@) == Some(v@) && v.pattern()
                == pattern@,
            r matches Err(e) ==> regex_number_rejects_with(pattern@, from_str_input@, e),
    {
        match check_pattern(pattern, from_str_input) {
            Ok(()) => match parse_number(from_str_input) {
                Ok(n) => Ok(RegexNumber { pattern: String::from_str(pattern), n }),
                Err(e) => Err(e),
            },
            Err(e) => Err(e),
        }
    }

    pub fn from_string(pattern: &str, from_string_input: String) -> (r: Result<
        RegexNumber,
        ValidatedCustomizedNumberError,
    >)
        ensures
            r is Ok <==> regex_number_accepts(pattern@, from_string_input@),
            r matches Ok(v) ==> i128_text_value(from_string_input@) == Some(v@) && v.pattern()
                == pattern@,
            r matches Err(e) ==> regex_number_rejects_with(pattern@, from_string_input@, e),
    {
        RegexNumber::from_str(pattern, from_string_input.as_str())
    }

    /// Checks the number's decimal text against `pattern`.
    pub fn from_number(pattern: &str, from_number_input: i128) -> (r: Result<
        RegexNumber,
        ValidatedCustomizedNumberError,
    >)
        ensures
            r is Ok <==> regex_string_accepts(pattern@, decimal_text(from_number_input as int)),
            r matches Ok(v) ==> v@ == from_number_input && v.pattern() == pattern@,
            r matches Err(e) ==> regex_number_rejects_with(
                pattern@,
                decimal_text(from_number_input as int),
                e,
            ),
    {
        let text = i128_text(from_number_input);
        match check_pattern(pattern, text.as_str()) {
            Ok(()) => Ok(RegexNumber { pattern: String::from_str(pattern), n: from_number_input }),
            Err(e) => Err(e),
        }
    }

    pub fn validate_str(pattern: &str, s: &str) -> (r: Result<(), ValidatedCustomizedNumberError>)
        ensures
            r is Ok <==> regex_number_accepts(pattern@, s@),
            r matches Err(e) ==> regex_number_rejects_with(pattern@, s@, e),
    {
        match RegexNumber::from_str(pattern, s) {
            Ok(_) => Ok(()),
            Err(e) => Err(e),
        }
    }

    pub fn get_number(&self) -> (r: i128)
        ensures
            r == self@,
    {
        self.n
    }

    /// The debug form `name(number)`.
    pub fn to_debug_string(&self, name: &str) -> (r: String)
        ensures
            r@ == name@ + seq!['('] + decimal_text(self@) + seq![')'],
    {
        let text = i128_text(self.n);
        debug_form(name, text.as_str())
    }
}

impl Validated for RegexNumber {
    closed spec fn display_view(&self) -> Seq<char> {
        decimal_text(self.n as int)
    }

    fn to_display_string(&self) -> (r: String)
        ensures
            r@ == decimal_text(self@),
    {
        i128_text(self.n)
    }
}

impl PartialEq for RegexNumber {
    fn eq(&self, other: &RegexNumber) -> (r: bool) {
        self.n == other.n
    }
}

impl vstd::std_specs::cmp::PartialEqSpecImpl for RegexNumber {
    open spec fn obeys_eq_spec() -> bool {
        true
    }

    open spec fn eq_spec(&self, other: &RegexNumber) -> bool {
        self@ == other@
    }
}

// ---------------------------------------------------------------------------
// Numbers taken as they are
// ---------------------------------------------------------------------------

/// A signed number under the pass-through rule: every number is accepted,
/// and a text only has to write one.
#[derive(Debug, Clone, Copy, PartialEq, Eq, Structural)]
pub struct PrimitiveNumber {
    n: i128,
}

impl View for PrimitiveNumber {
    type V = int;

    closed spec fn view(&self) -> int {
        self.n as int
    }
}

impl PrimitiveNumber {
    pub fn from_number(from_number_input: i128) -> (r: PrimitiveNumber)
        ensures
            r@ == from_number_input,
    {
        PrimitiveNumber { n: from_number_input }
    }

    pub fn get_number(&self) -> (r: i128)
        ensures
            r == self@,
    {
        self.n
    }

    /// Parsing a 128-bit integer keeps its value.
    pub proof fn lemma_signed_parse_value(i: int)
        requires
            i128::MIN <= i <= i128::MAX,
        ensures
            <PrimitiveNumber as ValidateSignedInteger>::signed_parse(i) matches Ok(v) && v@ == i,
    {
    }
}

impl Validated for PrimitiveNumber {
    closed spec fn display_view(&self) -> Seq<char> {
        decimal_text(self.n as int)
    }

    fn to_display_string(&self) -> (r: String)
        ensures
            r@ == decimal_text(self@),
    {
        i128_text(self.n)
    }
}

impl ValidatedWrapper for PrimitiveNumber {
    type Error = ValidatedCustomizedNumberError;

    open spec fn accepts_text(s: Seq<char>) -> bool {
        i128_text_value(s) is Some
    }

    open spec fn built_display(s: Seq<char>) -> Seq<char> {
        decimal_text(i128_text_value(s)->Some_0)
    }

    open spec fn rejects_text_with(s: Seq<char>, e: ValidatedCustomizedNumberError) -> bool {
        is_parse_failure(s, e)
    }

    fn from_string(from_string_input: String) -> (r: Result<
        PrimitiveNumber,
        ValidatedCustomizedNumberError,
    >) {
        PrimitiveNumber::from_str(from_string_input.as_str())
    }

    fn from_str(from_str_input: &str) -> (r: Result<
        PrimitiveNumber,
        ValidatedCustomizedNumberError,
    >) {
        match parse_number(from_str_input) {
            Ok(n) => Ok(PrimitiveNumber { n }),
            Err(e) => Err(e),
        }
    }
}

impl ValidateSignedInteger for PrimitiveNumber {
    type Error = ValidatedCustomizedNumberError;

    type Output = PrimitiveNumber;

    open spec fn signed_validation(i: int) -> Result<(), ValidatedCustomizedNumberError> {
        Ok(())
    }

    closed spec fn signed_parse(i: int) -> Result<PrimitiveNumber, ValidatedCustomizedNumberError> {
        Ok(PrimitiveNumber { n: i as i128 })
    }

    fn parse_i128(i: i128) -> (r: Result<PrimitiveNumber, ValidatedCustomizedNumberError>) {
        Ok(PrimitiveNumber { n: i })
    }

    fn validate_i128(i: i128) -> (r: Result<(), ValidatedCustomizedNumberError>) {
        Ok(())
    }
}

/// An unsigned number under the pass-through rule: every number is accepted.
#[derive(Debug, Clone, Copy, PartialEq, Eq, Structural)]
pub struct PrimitiveUnsignedNumber {
    n: u128,
}

impl View for PrimitiveUnsignedNumber {
    type V = int;

    closed spec fn view(&self) -> int {
        self.n as int
    }
}

impl PrimitiveUnsignedNumber {
    pub fn from_number(from_number_input: u128) -> (r: PrimitiveUnsignedNumber)
        ensures
            r@ == from_number_input,
    {
        PrimitiveUnsignedNumber { n: from_number_input }
    }

    pub fn get_number(&self) -> (r: u128)
        ensures
            r == self@,
    {
        self.n
    }

    /// Parsing a 128-bit unsigned integer keeps its value.
    pub proof fn lemma_unsigned_parse_value(u: int)
        requires
            0 <= u <= u128::MAX,
        ensures
            <PrimitiveUnsignedNumber as ValidateUnsignedInteger>::unsigned_parse(u) matches Ok(v)
                && v@ == u,
    {
    }
}

impl ValidateUnsignedInteger for PrimitiveUnsignedNumber {
    type Error = ValidatedCustomizedNumberError;

    type Output = PrimitiveUnsignedNumber;

    open spec fn unsigned_validation(u: int) -> Result<(), ValidatedCustomizedNumberError> {
        Ok(())
    }

    closed spec fn unsigned_parse(u: int) -> Result<
        PrimitiveUnsignedNumber,
        ValidatedCustomizedNumberError,
    > {
        Ok(PrimitiveUnsignedNumber { n: u as u128 })
    }

    fn parse_u128(u: u128) -> (r: Result<PrimitiveUnsignedNumber, ValidatedCustomizedNumberError>) {
        Ok(PrimitiveUnsignedNumber { n: u })
    }

    fn validate_u128(u: u128) -> (r: Result<(), ValidatedCustomizedNumberError>) {
        Ok(())
    }
}

} // verus!
