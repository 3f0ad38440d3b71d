use vstd::prelude::*;

verus! {

/// Validate and deserialize strings.
///
/// `parse_string` and `parse_str` agree on equal content, and each succeeds
/// exactly when `validate_str` does, with the same error.
pub trait ValidateString: Sized {
    type Error;

    type Output;

    /// Whether the text `s` is valid.
    spec fn string_accepts(s: Seq<char>) -> bool;

    /// Whether `o` is what parsing the valid text `s` yields.
    spec fn string_output(s: Seq<char>, o: Self::Output) -> bool;

    /// Whether `e` is the error reported for the invalid text `s`.
    spec fn string_rejects_with(s: Seq<char>, e: Self::Error) -> bool;

    fn parse_string(s: String) -> (r: Result<Self::Output, Self::Error>)
        ensures
            r is Ok <==> Self::string_accepts(s@),
            r matches Ok(o) ==> Self::string_output(s@, o),
            r matches Err(e) ==> Self::string_rejects_with(s@, e),
    ;

    fn parse_str(s: &str) -> (r: Result<Self::Output, Self::Error>)
        ensures
            r is Ok <==> Self::string_accepts(s@),
            r matches Ok(o) ==> Self::string_output(s@, o),
            r matches Err(e) ==> Self::string_rejects_with(s@, e),
    ;

    fn validate_str(s: &str) -> (r: Result<(), Self::Error>)
        ensures
            r is Ok <==> Self::string_accepts(s@),
            r matches Err(e) ==> Self::string_rejects_with(s@, e),
    ;
}

/// Validate and deserialize bytes.
///
/// `parse_vec_u8` and `parse_u8_slice` agree on equal content, and each
/// succeeds exactly when `validate_u8_slice` does, with the same error.
pub trait ValidateBytes: Sized {
    type Error;

    type Output;

    /// Whether the bytes `v` are valid.
    spec fn bytes_accepts(v: Seq<u8>) -> bool;

    /// Whether `o` is what parsing the valid bytes `v` yields.
    spec fn bytes_output(v: Seq<u8>, o: Self::Output) -> bool;

    /// Whether `e` is the error reported for the invalid bytes `v`.
    spec fn bytes_rejects_with(v: Seq<u8>, e: Self::Error) -> bool;

    fn parse_vec_u8(v: Vec<u8>) -> (r: Result<Self::Output, Self::Error>)
        ensures
            r is Ok <==> Self::bytes_accepts(v@),
            r matches Ok(o) ==> Self::bytes_output(v@, o),
            r matches Err(e) ==> Self::bytes_rejects_with(v@, e),
    ;

    fn parse_u8_slice(v: &[u8]) -> (r: Result<Self::Output, Self::Error>)
        ensures
            r is Ok <==> Self::bytes_accepts(v@),
            r matches Ok(o) ==> Self::bytes_output(v@, o),
            r matches Err(e) ==> Self::bytes_rejects_with(v@, e),
    ;

    fn validate_u8_slice(v: &[u8]) -> (r: Result<(), Self::Error>)
        ensures
            r is Ok <==> Self::bytes_accepts(v@),
            r matches Err(e) ==> Self::bytes_rejects_with(v@, e),
    ;
}

/// Validate and deserialize characters.
pub trait ValidateChar: Sized {
    type Error;

    type Output;

    /// Whether the character `c` is valid.
    spec fn char_accepts(c: char) -> bool;

    /// Whether `o` is what parsing the valid character `c` yields.
    spec fn char_output(c: char, o: Self::Output) -> bool;

    /// Whether `e` is the error reported for the invalid character `c`.
    spec fn char_rejects_with(c: char, e: Self::Error) -> bool;

    fn parse_char(c: char) -> (r: Result<Self::Output, Self::Error>)
        ensures
            r is Ok <==> Self::char_accepts(c),
            r matches Ok(o) ==> Self::char_output(c, o),
            r matches Err(e) ==> Self::char_rejects_with(c, e),
    ;

    fn validate_char(c: char) -> (r: Result<(), Self::Error>)
        ensures
            r is Ok <==> Self::char_accepts(c),
            r matches Err(e) ==> Self::char_rejects_with(c, e),
    ;
}

/// Validate and deserialize signed integers.
///
/// An implementer states the outcome for every mathematical integer once, in
/// `signed_validation` and `signed_parse`, and writes the 128-bit entry points.
/// Every narrower entry point widens its argument losslessly (sign extension)
/// and hands it on to the next wider one, so each width inherits the outcome
/// of the same value at 128 bits. An implementer that overrides a narrower
/// entry point is held to the same contract, which makes the predicate
/// monotonic under widening by construction.
pub trait ValidateSignedInteger: Sized {
    type Error;

    type Output;

    /// What validating the integer `i` yields.
    spec fn signed_validation(i: int) -> Result<(), Self::Error>;

    /// What parsing the integer `i` yields.
    spec fn signed_parse(i: int) -> Result<Self::Output, Self::Error>;

    fn parse_i128(i: i128) -> (r: Result<Self::Output, Self::Error>)
        ensures
            r == Self::signed_parse(i as int),
            r is Ok <==> Self::signed_validation(i as int) is Ok,
    ;

    fn validate_i128(i: i128) -> (r: Result<(), Self::Error>)
        ensures
            r == Self::signed_validation(i as int),
    ;

    /// `isize` is 32 or 64 bits wide on every supported target, so it widens
    /// losslessly to `i64`.
    fn parse_isize(i: isize) -> (r: Result<Self::Output, Self::Error>)
        ensures
            r == Self::signed_parse(i as int),
            r is Ok <==> Self::signed_validation(i as int) is Ok,
    {
        Self::parse_i64(i as i64)
    }

    fn parse_i64(i: i64) -> (r: Result<Self::Output, Self::Error>)
        ensures
            r == Self::signed_parse(i as int),
            r is Ok <==> Self::signed_validation(i as int) is Ok,
    {
        Self::parse_i128(i as i128)
    }

    fn parse_i32(i: i32) -> (r: Result<Self::Output, Self::Error>)
        ensures
            r == Self::signed_parse(i as int),
            r is Ok <==> Self::signed_validation(i as int) is Ok,
    {
        Self::parse_i64(i as i64)
    }

    fn parse_i16(i: i16) -> (r: Result<Self::Output, Self::Error>)
        ensures
            r == Self::signed_parse(i as int),
            r is Ok <==> Self::signed_validation(i as int) is Ok,
    {
        Self::parse_i32(i as i32)
    }

    fn parse_i8(i: i8) -> (r: Result<Self::Output, Self::Error>)
        ensures
            r == Self::signed_parse(i as int),
            r is Ok <==> Self::signed_validation(i as int) is Ok,
    {
        Self::parse_i16(i as i16)
    }

    /// `isize` is 32 or 64 bits wide on every supported target, so it widens
    /// losslessly to `i64`.
    fn validate_isize(i: isize) -> (r: Result<(), Self::Error>)
        ensures
            r == Self::signed_validation(i as int),
    {
        Self::validate_i64(i as i64)
    }

    fn validate_i64(i: i64) -> (r: Result<(), Self::Error>)
        ensures
            r == Self::signed_validation(i as int),
    {
        Self::validate_i128(i as i128)
    }

    fn validate_i32(i: i32) -> (r: Result<(), Self::Error>)
        ensures
            r == Self::signed_validation(i as int),
    {
        Self::validate_i64(i as i64)
    }

    fn validate_i16(i: i16) -> (r: Result<(), Self::Error>)
        ensures
            r == Self::signed_validation(i as int),
    {
        Self::validate_i32(i as i32)
    }

    fn validate_i8(i: i8) -> (r: Result<(), Self::Error>)
        ensures
            r == Self::signed_validation(i as int),
    {
        Self::validate_i16(i as i16)
    }
}


/// Validate and deserialize unsigned integers.
///
/// An implementer states the outcome for every mathematical integer once, in
/// `unsigned_validation` and `unsigned_parse`, and writes the 128-bit entry points.
/// Every narrower entry point widens its argument losslessly (zero extension)
/// and hands it on to the next wider one, so each width inherits the outcome
/// of the same value at 128 bits. An implementer that overrides a narrower
/// entry point is held to the same contract, which makes the predicate
/// monotonic under widening by construction.
pub trait ValidateUnsignedInteger: Sized {
    type Error;

    type Output;

    /// What validating the integer `u` yields.
    spec fn unsigned_validation(u: int) -> Result<(), Self::Error>;

    /// What parsing the integer `u` yields.
    spec fn unsigned_parse(u: int) -> Result<Self::Output, Self::Error>;

    fn parse_u128(u: u128) -> (r: Result<Self::Output, Self::Error>)
        ensures
            r == Self::unsigned_parse(u as int),
            r is Ok <==> Self::unsigned_validation(u as int) is Ok,
    ;

    fn validate_u128(u: u128) -> (r: Result<(), Self::Error>)
        ensures
            r == Self::unsigned_validation(u as int),
    ;

    /// `usize` is 32 or 64 bits wide on every supported target, so it widens
    /// losslessly to `u64`.
    fn parse_usize(u: usize) -> (r: Result<Self::Output, Self::Error>)
        ensures
            r == Self::unsigned_parse(u as int),
            r is Ok <==> Self::unsigned_validation(u as int) is Ok,
    {
        Self::parse_u64(u as u64)
    }

    fn parse_u64(u: u64) -> (r: Result<Self::Output, Self::Error>)
        ensures
            r == Self::unsigned_parse(u as int),
            r is Ok <==> Self::unsigned_validation(u as int) is Ok,
    {
        Self::parse_u128(u as u128)
    }

    fn parse_u32(u: u32) -> (r: Result<Self::Output, Self::Error>)
        ensures
            r == Self::unsigned_parse(u as int),
            r is Ok <==> Self::unsigned_validation(u as int) is Ok,
    {
        Self::parse_u64(u as u64)
    }

    fn parse_u16(u: u16) -> (r: Result<Self::Output, Self::Error>)
        ensures
            r == Self::unsigned_parse(u as int),
            r is Ok <==> Self::unsigned_validation(u as int) is Ok,
    {
        Self::parse_u32(u as u32)
    }

    fn parse_u8(u: u8) -> (r: Result<Self::Output, Self::Error>)
        ensures
            r == Self::unsigned_parse(u as int),
            r is Ok <==> Self::unsigned_validation(u as int) is Ok,
    {
        Self::parse_u16(u as u16)
    }

    /// `usize` is 32 or 64 bits wide on every supported target, so it widens
    /// losslessly to `u64`.
    fn validate_usize(u: usize) -> (r: Result<(), Self::Error>)
        ensures
            r == Self::unsigned_validation(u as int),
    {
        Self::validate_u64(u as u64)
    }

    fn validate_u64(u: u64) -> (r: Result<(), Self::Error>)
        ensures
            r == Self::unsigned_validation(u as int),
    {
        Self::validate_u128(u as u128)
    }

    fn validate_u32(u: u32) -> (r: Result<(), Self::Error>)
        ensures
            r == Self::unsigned_validation(u as int),
    {
        Self::validate_u64(u as u64)
    }

    fn validate_u16(u: u16) -> (r: Result<(), Self::Error>)
        ensures
            r == Self::unsigned_validation(u as int),
    {
        Self::validate_u32(u as u32)
    }

    fn validate_u8(u: u8) -> (r: Result<(), Self::Error>)
        ensures
            r == Self::unsigned_validation(u as int),
    {
        Self::validate_u16(u as u16)
    }
}

/// Every narrower signed width agrees with the 128-bit entry point on the
/// sign-extended value: validating or parsing `v` at any width gives what
/// the widest width gives for the same value.
pub proof fn lemma_signed_widening<V: ValidateSignedInteger>(
    a: i8,
    b: i16,
    c: i32,
    d: i64,
    e: isize,
)
    ensures
        V::signed_validation(a as int) == V::signed_validation((a as i128) as int),
        V::signed_validation(b as int) == V::signed_validation((b as i128) as int),
        V::signed_validation(c as int) == V::signed_validation((c as i128) as int),
        V::signed_validation(d as int) == V::signed_validation((d as i128) as int),
        V::signed_validation(e as int) == V::signed_validation((e as i128) as int),
        V::signed_parse(a as int) == V::signed_parse((a as i128) as int),
        V::signed_parse(b as int) == V::signed_parse((b as i128) as int),
        V::signed_parse(c as int) == V::signed_parse((c as i128) as int),
        V::signed_parse(d as int) == V::signed_parse((d as i128) as int),
        V::signed_parse(e as int) == V::signed_parse((e as i128) as int),
{
}

/// Every narrower unsigned width agrees with the 128-bit entry point on the
/// zero-extended value: validating or parsing `v` at any width gives what
/// the widest width gives for the same value.
pub proof fn lemma_unsigned_widening<V: ValidateUnsignedInteger>(
    a: u8,
    b: u16,
    c: u32,
    d: u64,
    e: usize,
)
    ensures
        V::unsigned_validation(a as int) == V::unsigned_validation((a as u128) as int),
        V::unsigned_validation(b as int) == V::unsigned_validation((b as u128) as int),
        V::unsigned_validation(c as int) == V::unsigned_validation((c as u128) as int),
        V::unsigned_validation(d as int) == V::unsigned_validation((d as u128) as int),
        V::unsigned_validation(e as int) == V::unsigned_validation((e as u128) as int),
        V::unsigned_parse(a as int) == V::unsigned_parse((a as u128) as int),
        V::unsigned_parse(b as int) == V::unsigned_parse((b as u128) as int),
        V::unsigned_parse(c as int) == V::unsigned_parse((c as u128) as int),
        V::unsigned_parse(d as int) == V::unsigned_parse((d as u128) as int),
        V::unsigned_parse(e as int) == V::unsigned_parse((e as u128) as int),
{
}

} // verus!
