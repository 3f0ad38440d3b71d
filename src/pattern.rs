use vstd::prelude::*;

use regex::RegexBuilder;

verus! {

/// The error that the regex crate reports when a pattern does not compile.
#[verifier::external_type_specification]
#[verifier::external_body]
pub struct ExRegexError(regex::Error);

/// Whether the regex crate compiles `pattern` within the compiled-size limit
/// `size_limit`.
pub uninterp spec fn regex_compiles(pattern: Seq<char>, size_limit: nat) -> bool;

/// Whether the compiled `pattern` finds a match anywhere in `text`.
pub uninterp spec fn regex_is_match(pattern: Seq<char>, text: Seq<char>) -> bool;

/// Relies on regex::RegexBuilder (`new`, `size_limit`, `build`) to compile
/// `pattern` under the given compiled-size limit, and on
/// regex::Regex::is_match to search `text` with the result. Compiling depends
/// on the pattern and the limit alone; matching on the pattern and the text
/// alone.
#[verifier::external_body]
pub(crate) fn regex_search(pattern: &str, size_limit: usize, text: &str) -> (r: Result<
    bool,
    regex::Error,
>)
    ensures
        r is Ok <==> regex_compiles(pattern@, size_limit as nat),
        r matches Ok(found) ==> found == regex_is_match(pattern@, text@),
{
    match RegexBuilder::new(pattern).size_limit(size_limit).build() {
        Ok(re) => Ok(re.is_match(text)),
        Err(e) => Err(e),
    }
}

} // verus!
