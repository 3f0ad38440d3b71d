//! Turns untrusted raw input (text, characters, integers, sequences of
//! already-validated values) into typed values that exist only in a state
//! that satisfies a declared rule.

use vstd::prelude::*;

mod decimal;
mod number;
mod option;
mod pattern;
mod phone;
mod string;
mod traits;
mod type_enum;
mod vec;

pub use decimal::{
    decimal_text, decimal_value, digits_text, digits_value, i128_text_value,
    int_parse_failure_text,
};
pub use number::{
    is_parse_failure, number_parse_verdict, ranged_number_rejects_with, ranged_text_accepts,
    regex_number_accepts, regex_number_rejects_with, regex_number_verdict, PrimitiveNumber,
    PrimitiveUnsignedNumber, RangedNumber, RegexNumber, ValidatedCustomizedNumberError,
};
pub use option::{lemma_option_tri_state, ValidatorOption};
pub use pattern::{regex_compiles, regex_is_match};
pub use phone::PhoneError;
pub use string::{
    lemma_plain_string_round_trip, lemma_regex_string_round_trip, regex_string_accepts,
    regex_string_rejects_with, regex_string_verdict, PlainString, RegexString,
    ValidatedCustomizedStringError, REGEX_SIZE_LIMIT,
};
pub use traits::{
    lemma_signed_widening, lemma_unsigned_widening, ValidateBytes, ValidateChar,
    ValidateSignedInteger, ValidateString, ValidateUnsignedInteger,
};
pub use type_enum::TypeEnum;
pub use vec::{
    bracketed_list, display_views, join_with_commas, length_rejects_with, RangedLengthVec,
    ValidatedCustomizedVecError,
};

verus! {

/// A value that exists only in a validated state, with a display form.
pub trait Validated: Sized {
    /// The text that the display form renders.
    spec fn display_view(&self) -> Seq<char>;

    fn to_display_string(&self) -> (r: String)
        ensures
            r@ == self.display_view(),
    ;
}

/// A validated value that can also be built from text, owned or borrowed.
/// Both entry points give the same outcome on equal content.
pub trait ValidatedWrapper: Validated {
    type Error;

    /// Whether a value can be built from the text `s`.
    spec fn accepts_text(s: Seq<char>) -> bool;

    /// The display form of the value built from an accepted text `s`.
    spec fn built_display(s: Seq<char>) -> Seq<char>;

    /// Whether `e` is the error reported for a refused text `s`.
    spec fn rejects_text_with(s: Seq<char>, e: Self::Error) -> bool;

    fn from_string(from_string_input: String) -> (r: Result<Self, Self::Error>)
        ensures
            r is Ok <==> Self::accepts_text(from_string_input@),
            r matches Ok(v) ==> v.display_view() == Self::built_display(from_string_input@),
            r matches Err(e) ==> Self::rejects_text_with(from_string_input@, e),
    ;

    fn from_str(from_str_input: &str) -> (r: Result<Self, Self::Error>)
        ensures
            r is Ok <==> Self::accepts_text(from_str_input@),
            r matches Ok(v) ==> v.display_view() == Self::built_display(from_str_input@),
            r matches Err(e) ==> Self::rejects_text_with(from_str_input@, e),
    ;
}

} // verus!
