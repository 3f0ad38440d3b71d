use validators::{
    PhoneError, PlainString, PrimitiveNumber, PrimitiveUnsignedNumber, TypeEnum, ValidateSignedInteger,
    ValidateString, ValidateUnsignedInteger, ValidatorOption, REGEX_SIZE_LIMIT,
};

#[test]
fn option_tri_state() {
    assert!(ValidatorOption::Must.allow());
    assert!(!ValidatorOption::Must.not_allow());
    assert!(ValidatorOption::Must.must());
    assert!(ValidatorOption::Allow.allow());
    assert!(!ValidatorOption::Allow.not_allow());
    assert!(!ValidatorOption::Allow.must());
    assert!(!ValidatorOption::NotAllow.allow());
    assert!(ValidatorOption::NotAllow.not_allow());
    assert!(!ValidatorOption::NotAllow.must());
    for o in [ValidatorOption::Must, ValidatorOption::Allow, ValidatorOption::NotAllow] {
        let states = [o.allow() && !o.must(), o.must(), o.not_allow()];
        assert_eq!(states.iter().filter(|b| **b).count(), 1);
    }
}

#[test]
fn signed_widths_agree_with_widest() {
    assert_eq!(PrimitiveNumber::validate_i8(-5), PrimitiveNumber::validate_i128(-5));
    assert_eq!(PrimitiveNumber::parse_i8(-5).unwrap().get_number(), -5);
    assert_eq!(PrimitiveNumber::parse_i16(i16::MIN).unwrap().get_number(), i16::MIN as i128);
    assert_eq!(PrimitiveNumber::parse_i32(-70000).unwrap().get_number(), -70000);
    assert_eq!(PrimitiveNumber::parse_i64(i64::MAX).unwrap().get_number(), i64::MAX as i128);
    assert_eq!(PrimitiveNumber::parse_isize(-1).unwrap().get_number(), -1);
    assert_eq!(PrimitiveNumber::validate_isize(isize::MIN), Ok(()));
    assert_eq!(PrimitiveNumber::validate_i64(0), PrimitiveNumber::validate_i128(0));
    assert_eq!(PrimitiveNumber::validate_i32(1), Ok(()));
    assert_eq!(PrimitiveNumber::validate_i16(2), Ok(()));
}

#[test]
fn unsigned_widths_agree_with_widest() {
    assert_eq!(PrimitiveUnsignedNumber::validate_u8(200), PrimitiveUnsignedNumber::validate_u128(200));
    assert_eq!(PrimitiveUnsignedNumber::parse_u8(255).unwrap().get_number(), 255);
    assert_eq!(PrimitiveUnsignedNumber::parse_u16(u16::MAX).unwrap().get_number(), u16::MAX as u128);
    assert_eq!(PrimitiveUnsignedNumber::parse_u32(70000).unwrap().get_number(), 70000);
    assert_eq!(PrimitiveUnsignedNumber::parse_u64(u64::MAX).unwrap().get_number(), u64::MAX as u128);
    assert_eq!(PrimitiveUnsignedNumber::parse_usize(usize::MAX).unwrap().get_number(), usize::MAX as u128);
    assert_eq!(PrimitiveUnsignedNumber::validate_usize(3), Ok(()));
    assert_eq!(PrimitiveUnsignedNumber::validate_u64(4), Ok(()));
    assert_eq!(PrimitiveUnsignedNumber::validate_u32(5), Ok(()));
    assert_eq!(PrimitiveUnsignedNumber::validate_u16(6), Ok(()));
    assert_eq!(PrimitiveUnsignedNumber::from_number(9).get_number(), 9);
}

#[test]
fn string_trait_parse_agrees_with_validate() {
    assert!(PlainString::validate_str("x").is_ok());
    assert_eq!(PlainString::parse_str("x").unwrap().as_str(), "x");
    assert_eq!(PlainString::parse_string("y".to_string()).unwrap().as_str(), "y");
}

#[test]
fn regex_size_limit_value() {
    assert_eq!(REGEX_SIZE_LIMIT, 26214400);
}

#[test]
fn type_enum_texts() {
    assert_eq!(TypeEnum::String.as_str(), "String");
    assert_eq!(TypeEnum::VecU8.as_str(), "Vec<u8>");
    assert_eq!(TypeEnum::Boolean.as_str(), "bool");
    assert_eq!(TypeEnum::U16.as_str(), "u16");
    assert_eq!(TypeEnum::U64.as_str(), "u64");
    assert_eq!(TypeEnum::U128.as_str(), "u128");
    assert_eq!(TypeEnum::Number.as_str(), "f32 | f64");
    assert_eq!(TypeEnum::SignedInteger.as_str(), "isize | i8 | i16 | i32 | i64 | i128");
    assert_eq!(TypeEnum::UnsignedInteger.as_str(), "usize | u8 | u16 | u32 | u64 | u128");
    assert_eq!(TypeEnum::OptionU16.as_str(), "Option<u16>");
    assert_eq!(TypeEnum::OptionString.as_str(), "Option<String>");
    assert_eq!(TypeEnum::Url.as_str(), "url::Url");
    assert_eq!(TypeEnum::Version.as_str(), "crate::semver::Version");
    assert_eq!(TypeEnum::CollectionLength.as_str(), "T: crate::validators::traits::CollectionLength");
    assert!(TypeEnum::Host == TypeEnum::Host);
    assert!(TypeEnum::Host != TypeEnum::Protocol);
}

#[test]
fn phone_error_messages() {
    assert_eq!(PhoneError::Invalid.to_message(), "invalid phone number");
    let e = PhoneError::from("unknown country code".to_string());
    assert_eq!(e, PhoneError::Failure("unknown country code".to_string()));
    assert_eq!(e.to_message(), "unknown country code");
}
