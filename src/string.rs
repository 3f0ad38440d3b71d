use vstd::prelude::*;

use crate::pattern::{regex_compiles, regex_is_match, regex_search};
use crate::traits::ValidateString;
use crate::{Validated, ValidatedWrapper};

verus! {

/// The ceiling on a compiled pattern's size, which bounds the memory that a
/// complex pattern can take.
pub const REGEX_SIZE_LIMIT: usize = 26214400;

/// Why a text was refused as a customized string.
#[derive(Debug, PartialEq)]
pub enum ValidatedCustomizedStringError {
    /// The pattern did not compile.
    RegexError(regex::Error),
    /// The text does not match the pattern.
    NotMatch,
    /// The raw value could not be decoded into text.
    DecodeError,
}

/// Whether `text` is accepted under `pattern`: the pattern compiles within
/// the size ceiling and matches the text.
pub open spec fn regex_string_accepts(pattern: Seq<char>, text: Seq<char>) -> bool {
    regex_compiles(pattern, REGEX_SIZE_LIMIT as nat) && regex_is_match(pattern, text)
}

/// Whether `e` is the error reported for a text that `pattern` refuses: a
/// pattern that does not compile gives `RegexError`, else `NotMatch`.
pub open spec fn regex_string_rejects_with(
    pattern: Seq<char>,
    e: ValidatedCustomizedStringError,
) -> bool {
    if !regex_compiles(pattern, REGEX_SIZE_LIMIT as nat) {
        e is RegexError
    } else {
        e is NotMatch
    }
}

/// The verdict on a text, given what searching it with the compiled pattern
/// gave: a match accepts, no match gives `NotMatch`, and a pattern that did
/// not compile gives `RegexError` with the compiler's error.
pub fn regex_string_verdict(search: Result<bool, regex::Error>) -> (r: Result<
    (),
    ValidatedCustomizedStringError,
>)
    ensures
        r is Ok <==> search == Ok::<bool, regex::Error>(true),
        search == Ok::<bool, regex::Error>(false) ==> r == Err::<
            (),
            ValidatedCustomizedStringError,
        >(ValidatedCustomizedStringError::NotMatch),
        search matches Err(e) ==> r == Err::<(), ValidatedCustomizedStringError>(
            ValidatedCustomizedStringError::RegexError(e),
        ),
{
    match search {
        Ok(true) => Ok(()),
        Ok(false) => Err(ValidatedCustomizedStringError::NotMatch),
        Err(e) => Err(ValidatedCustomizedStringError::RegexError(e)),
    }
}

/// Checks `text` against `pattern`.
fn check_regex_string(pattern: &str, text: &str) -> (r: Result<(), ValidatedCustomizedStringError>)
    ensures
        r is Ok <==> regex_string_accepts(pattern@, text@),
        r matches Err(e) ==> regex_string_rejects_with(pattern@, e),
{
    regex_string_verdict(regex_search(pattern, REGEX_SIZE_LIMIT, text))
}

/// A text that matches the pattern it was built with.
#[derive(Debug, Clone)]
pub struct RegexString {
    pattern: String,
    s: String,
}

impl View for RegexString {
    type V = Seq<char>;

    closed spec fn view(&self) -> Seq<char> {
        self.s@
    }
}

impl RegexString {
    /// The pattern that the text was checked against.
    pub closed spec fn pattern(&self) -> Seq<char> {
        self.pattern@
    }

    /// The text matches the pattern.
    pub open spec fn wf(&self) -> bool {
        regex_string_accepts(self.pattern(), self@)
    }

    pub fn from_string(pattern: &str, from_string_input: String) -> (r: Result<
        RegexString,
        ValidatedCustomizedStringError,
    >)
        ensures
            r is Ok <==> regex_string_accepts(pattern@, from_string_input@),
            r matches Ok(v) ==> v@ == from_string_input@ && v.pattern() == pattern@ && v.wf(),
            r matches Err(e) ==> regex_string_rejects_with(pattern@, e),
    {
        match check_regex_string(pattern, from_string_input.as_str()) {
            Ok(()) => Ok(RegexString { pattern: String::from_str(pattern), s: from_string_input }),
            Err(e) => Err(e),
        }
    }

    pub fn from_str(pattern: &str, from_str_input: &str) -> (r: Result<
        RegexString,
        ValidatedCustomizedStringError,
    >)
        ensures
            r is Ok <==> regex_string_accepts(pattern@, from_str_input@),
            r matches Ok(v) ==> v@ == from_str_input@ && v.pattern() == pattern@ && v.wf(),
            r matches Err(e) ==> regex_string_rejects_with(pattern@, e),
    {
        match check_regex_string(pattern, from_str_input) {
            Ok(()) => Ok(
                RegexString { pattern: String::from_str(pattern), s: String::from_str(from_str_input) },
            ),
            Err(e) => Err(e),
        }
    }

    pub fn validate_str(pattern: &str, s: &str) -> (r: Result<(), ValidatedCustomizedStringError>)
        ensures
            r is Ok <==> regex_string_accepts(pattern@, s@),
            r matches Err(e) ==> regex_string_rejects_with(pattern@, e),
    {
        check_regex_string(pattern, s)
    }

    pub fn as_str(&self) -> (r: &str)
        ensures
            r@ == self@,
    {
        self.s.as_str()
    }

    pub fn into_string(self) -> (r: String)
        ensures
            r@ == self@,
    {
        self.s
    }

    /// The debug form `name(text)`.
    pub fn to_debug_string(&self, name: &str) -> (r: String)
        ensures
            r@ == name@ + seq!['('] + self@ + seq![')'],
    {
        debug_form(name, self.s.as_str())
    }
}

/// `name(text)`.
pub(crate) fn debug_form(name: &str, text: &str) -> (r: String)
    ensures
        r@ == name@ + seq!['('] + text@ + seq![')'],
{
    let mut out = String::from_str(name);
    out.append("(");
    out.append(text);
    out.append(")");
    proof {
        reveal_strlit("(");
        reveal_strlit(")");
    }
    out
}

impl Validated for RegexString {
    closed spec fn display_view(&self) -> Seq<char> {
        self.s@
    }

    fn to_display_string(&self) -> (r: String)
        ensures
            r@ == self@,
    {
        self.s.clone()
    }
}

/// A regex string displays exactly the text it was built from: building
/// from an accepted text `t` and rendering gives `t` back, unnormalized.
pub proof fn lemma_regex_string_round_trip(v: RegexString, t: Seq<char>)
    requires
        v@ == t,
    ensures
        v.display_view() == t,
{
}

/// A plain string displays exactly the text it was built from.
pub proof fn lemma_plain_string_round_trip(v: PlainString, t: Seq<char>)
    requires
        v@ == t,
    ensures
        v.display_view() == t,
{
}

impl PartialEq for RegexString {
    fn eq(&self, other: &RegexString) -> (r: bool) {
        self.s == other.s
    }
}

impl vstd::std_specs::cmp::PartialEqSpecImpl for RegexString {
    open spec fn obeys_eq_spec() -> bool {
        true
    }

    open spec fn eq_spec(&self, other: &RegexString) -> bool {
        self@ == other@
    }
}

/// A text taken as it is: the pass-through rule, which accepts every text.
#[derive(Debug, Clone)]
pub struct PlainString {
    s: String,
}

impl View for PlainString {
    type V = Seq<char>;

    closed spec fn view(&self) -> Seq<char> {
        self.s@
    }
}

impl PlainString {
    pub fn as_str(&self) -> (r: &str)
        ensures
            r@ == self@,
    {
        self.s.as_str()
    }

    pub fn into_string(self) -> (r: String)
        ensures
            r@ == self@,
    {
        self.s
    }

    /// The debug form `name(text)`.
    pub fn to_debug_string(&self, name: &str) -> (r: String)
        ensures
            r@ == name@ + seq!['('] + self@ + seq![')'],
    {
        debug_form(name, self.s.as_str())
    }
}

impl Validated for PlainString {
    closed spec fn display_view(&self) -> Seq<char> {
        self.s@
    }

    fn to_display_string(&self) -> (r: String)
        ensures
            r@ == self@,
    {
        self.s.clone()
    }
}

impl ValidatedWrapper for PlainString {
    type Error = ValidatedCustomizedStringError;

    open spec fn accepts_text(s: Seq<char>) -> bool {
        true
    }

    open spec fn built_display(s: Seq<char>) -> Seq<char> {
        s
    }

    open spec fn rejects_text_with(s: Seq<char>, e: ValidatedCustomizedStringError) -> bool {
        false
    }

    fn from_string(from_string_input: String) -> (r: Result<PlainString, ValidatedCustomizedStringError>) {
        Ok(PlainString { s: from_string_input })
    }

    fn from_str(from_str_input: &str) -> (r: Result<PlainString, ValidatedCustomizedStringError>) {
        Ok(PlainString { s: String::from_str(from_str_input) })
    }
}

impl ValidateString for PlainString {
    type Error = ValidatedCustomizedStringError;

    type Output = PlainString;

    open spec fn string_accepts(s: Seq<char>) -> bool {
        true
    }

    open spec fn string_output(s: Seq<char>, o: PlainString) -> bool {
        o@ == s
    }

    open spec fn string_rejects_with(s: Seq<char>, e: ValidatedCustomizedStringError) -> bool {
        false
    }

    fn parse_string(s: String) -> (r: Result<PlainString, ValidatedCustomizedStringError>) {
        Ok(PlainString { s })
    }

    fn parse_str(s: &str) -> (r: Result<PlainString, ValidatedCustomizedStringError>) {
        Ok(PlainString { s: String::from_str(s) })
    }

    fn validate_str(s: &str) -> (r: Result<(), ValidatedCustomizedStringError>) {
        Ok(())
    }
}

} // verus!
