use validators::{
    PlainString, PrimitiveNumber, RangedLengthVec, RangedNumber, RegexNumber, RegexString,
    Validated, ValidatedCustomizedNumberError, ValidatedCustomizedStringError,
    ValidatedCustomizedVecError, ValidatedWrapper,
};

const GREET: &str = "^(Hi|Hello)$";

#[test]
fn regex_string_accepts_and_displays_unchanged() {
    let hi = RegexString::from_str(GREET, "Hi").unwrap();
    assert_eq!(hi.to_display_string(), "Hi");
    assert_eq!(hi.as_str(), "Hi");
    let hello = RegexString::from_string(GREET, "Hello".to_string()).unwrap();
    assert_eq!(hello.to_display_string(), "Hello");
    assert_eq!(hello.into_string(), "Hello");
}

#[test]
fn regex_string_refuses_non_matching_text() {
    assert_eq!(RegexString::from_str(GREET, "Hey").unwrap_err(), ValidatedCustomizedStringError::NotMatch);
    assert_eq!(
        RegexString::from_string(GREET, "Hey".to_string()).unwrap_err(),
        ValidatedCustomizedStringError::NotMatch
    );
    assert_eq!(RegexString::validate_str(GREET, "Hey"), Err(ValidatedCustomizedStringError::NotMatch));
}

#[test]
fn regex_string_reports_pattern_that_does_not_compile() {
    let r = RegexString::from_str("(Hi", "Hi");
    assert!(matches!(r, Err(ValidatedCustomizedStringError::RegexError(_))));
    assert!(matches!(RegexString::validate_str("(Hi", "Hi"), Err(ValidatedCustomizedStringError::RegexError(_))));
}

#[test]
fn regex_string_validate_agrees_with_parse() {
    for text in ["Hi", "Hello", "Hey", "", "Hi!"] {
        assert_eq!(RegexString::from_str(GREET, text).is_ok(), RegexString::validate_str(GREET, text).is_ok());
        assert_eq!(
            RegexString::from_str(GREET, text).is_ok(),
            RegexString::from_string(GREET, text.to_string()).is_ok()
        );
    }
}

#[test]
fn regex_string_equality_and_debug_form() {
    let a = RegexString::from_str(GREET, "Hi").unwrap();
    let b = RegexString::from_str("^H", "Hi").unwrap();
    let c = RegexString::from_str(GREET, "Hello").unwrap();
    assert!(a == b);
    assert!(a != c);
    assert_eq!(a.to_debug_string("Greet"), "Greet(Hi)");
}

#[test]
fn regex_string_keeps_text_without_normalizing() {
    let v = RegexString::from_str("^[a-z ]+$", "  two  spaces ").unwrap();
    assert_eq!(v.to_display_string(), "  two  spaces ");
}

#[test]
fn plain_string_accepts_every_text() {
    let v = PlainString::from_str("anything at all").unwrap();
    assert_eq!(v.to_display_string(), "anything at all");
    let e = PlainString::from_string(String::new()).unwrap();
    assert_eq!(e.as_str(), "");
    assert_eq!(v.to_debug_string("Plain"), "Plain(anything at all)");
}

#[test]
fn ranged_number_boundaries() {
    assert_eq!(RangedNumber::from_str(0, 100, "0").unwrap().get_number(), 0);
    assert_eq!(RangedNumber::from_str(0, 100, "100").unwrap().get_number(), 100);
    assert_eq!(RangedNumber::from_str(0, 100, "-1").unwrap_err(), ValidatedCustomizedNumberError::OutRange);
    assert_eq!(RangedNumber::from_str(0, 100, "101").unwrap_err(), ValidatedCustomizedNumberError::OutRange);
    assert!(matches!(
        RangedNumber::from_str(0, 100, "abc"),
        Err(ValidatedCustomizedNumberError::ParseError(_))
    ));
}

#[test]
fn ranged_number_parse_error_carries_message() {
    match RangedNumber::from_str(0, 100, "abc") {
        Err(ValidatedCustomizedNumberError::ParseError(m)) => assert_eq!(m, "invalid digit found in string"),
        other => panic!("unexpected {:?}", other),
    }
    match RangedNumber::from_string(0, 100, String::new()) {
        Err(ValidatedCustomizedNumberError::ParseError(m)) => assert_eq!(m, "cannot parse integer from empty string"),
        other => panic!("unexpected {:?}", other),
    }
}

#[test]
fn ranged_number_entry_points_agree() {
    for text in ["0", "50", "100", "-1", "101", "abc", "+7", " 7"] {
        let a = RangedNumber::from_str(0, 100, text);
        let b = RangedNumber::from_string(0, 100, text.to_string());
        assert_eq!(a.is_ok(), b.is_ok());
        assert_eq!(a.is_ok(), RangedNumber::validate_str(0, 100, text).is_ok());
    }
    assert_eq!(RangedNumber::from_str(0, 100, "+7").unwrap().get_number(), 7);
    assert!(RangedNumber::from_str(0, 100, " 7").is_err());
}

#[test]
fn ranged_number_from_number() {
    assert_eq!(RangedNumber::from_number(0, 100, 80).unwrap().get_number(), 80);
    assert_eq!(RangedNumber::from_number(0, 100, 130).unwrap_err(), ValidatedCustomizedNumberError::OutRange);
    assert_eq!(RangedNumber::from_number(-10, -5, -11).unwrap_err(), ValidatedCustomizedNumberError::OutRange);
}

#[test]
fn ranged_number_display_and_debug() {
    let v = RangedNumber::from_str(-100, 100, "-042").unwrap();
    assert_eq!(v.get_number(), -42);
    assert_eq!(v.to_display_string(), "-42");
    assert_eq!(v.to_debug_string("Score"), "Score(-42)");
    let a = RangedNumber::from_number(0, 100, 5).unwrap();
    let b = RangedNumber::from_number(0, 10, 5).unwrap();
    assert!(a == b);
}

#[test]
fn ranged_number_extreme_values() {
    let lo = RangedNumber::from_str(i128::MIN, i128::MAX, "-170141183460469231731687303715884105728").unwrap();
    assert_eq!(lo.get_number(), i128::MIN);
    assert_eq!(lo.to_display_string(), "-170141183460469231731687303715884105728");
    assert!(matches!(
        RangedNumber::from_str(i128::MIN, i128::MAX, "170141183460469231731687303715884105728"),
        Err(ValidatedCustomizedNumberError::ParseError(_))
    ));
}

#[test]
fn regex_number_checks_pattern_then_parses() {
    let v = RegexNumber::from_str(r"^\d{1,3}$", "255").unwrap();
    assert_eq!(v.get_number(), 255);
    assert_eq!(v.to_display_string(), "255");
    assert_eq!(v.to_debug_string("Octet"), "Octet(255)");
    assert_eq!(RegexNumber::from_str(r"^\d{1,3}$", "1000").unwrap_err(), ValidatedCustomizedNumberError::NotMatch);
    assert!(matches!(
        RegexNumber::from_str(r"^[a-z0-9]+$", "12a"),
        Err(ValidatedCustomizedNumberError::ParseError(_))
    ));
    assert!(matches!(
        RegexNumber::from_string("[", "1".to_string()),
        Err(ValidatedCustomizedNumberError::RegexError(_))
    ));
    assert_eq!(RegexNumber::validate_str(r"^\d+$", "42"), Ok(()));
}

#[test]
fn regex_number_from_number_checks_its_text() {
    assert_eq!(RegexNumber::from_number(r"^-\d+$", -15).unwrap().get_number(), -15);
    assert_eq!(RegexNumber::from_number(r"^\d+$", -15).unwrap_err(), ValidatedCustomizedNumberError::NotMatch);
    assert_eq!(RegexNumber::from_number(r"^10$", 10).unwrap().to_display_string(), "10");
}

#[test]
fn primitive_number_from_text() {
    let v = PrimitiveNumber::from_str("+5").unwrap();
    assert_eq!(v.get_number(), 5);
    assert_eq!(v.to_display_string(), "5");
    assert_eq!(PrimitiveNumber::from_string("-9".to_string()).unwrap().get_number(), -9);
    assert!(matches!(PrimitiveNumber::from_str("5.0"), Err(ValidatedCustomizedNumberError::ParseError(_))));
    assert_eq!(PrimitiveNumber::from_number(3).get_number(), 3);
}

fn names(texts: &[&str]) -> Vec<PlainString> {
    texts.iter().map(|t| PlainString::from_str(t).unwrap()).collect()
}

#[test]
fn ranged_length_vec_boundaries() {
    assert_eq!(RangedLengthVec::from_vec(1, 5, names(&[])).unwrap_err(), ValidatedCustomizedVecError::Underflow);
    assert_eq!(
        RangedLengthVec::from_vec(1, 5, names(&["a", "b", "c", "d", "e", "f"])).unwrap_err(),
        ValidatedCustomizedVecError::Overflow
    );
    let five = RangedLengthVec::from_vec(1, 5, names(&["a", "b", "c", "d", "e"])).unwrap();
    assert_eq!(five.len(), 5);
    assert_eq!(RangedLengthVec::from_vec(1, 5, names(&["a"])).unwrap().len(), 1);
}

#[test]
fn ranged_length_vec_exact_length() {
    assert!(RangedLengthVec::from_vec(2, 2, names(&["a", "b"])).is_ok());
    assert_eq!(RangedLengthVec::from_vec(2, 2, names(&["a"])).unwrap_err(), ValidatedCustomizedVecError::Underflow);
    assert_eq!(
        RangedLengthVec::from_vec(2, 2, names(&["a", "b", "c"])).unwrap_err(),
        ValidatedCustomizedVecError::Overflow
    );
}

#[test]
fn ranged_length_vec_display_in_order() {
    let v = RangedLengthVec::from_vec(0, 5, names(&["Ron", "Magic Len", "x"])).unwrap();
    assert_eq!(v.to_display_string(), "[Ron, Magic Len, x]");
    let one = RangedLengthVec::from_vec(0, 5, names(&["solo"])).unwrap();
    assert_eq!(one.to_display_string(), "[solo]");
    let none = RangedLengthVec::from_vec(0, 5, names(&[])).unwrap();
    assert_eq!(none.to_display_string(), "[]");
}

#[test]
fn ranged_length_vec_keeps_elements() {
    let v = RangedLengthVec::from_vec(1, 5, names(&["Ron", "Len"])).unwrap();
    assert_eq!(v.as_vec()[1].as_str(), "Len");
    let inner = v.into_vec();
    assert_eq!(inner.len(), 2);
    assert_eq!(inner[0].as_str(), "Ron");
}

#[test]
fn ranged_length_vec_has_no_text_form() {
    let r: Result<RangedLengthVec<PlainString>, _> = RangedLengthVec::from_str("[a, b]");
    assert_eq!(r.unwrap_err(), ValidatedCustomizedVecError::NotSupport);
    let r: Result<RangedLengthVec<PlainString>, _> = RangedLengthVec::from_string("a".to_string());
    assert_eq!(r.unwrap_err(), ValidatedCustomizedVecError::NotSupport);
}

#[test]
fn number_display_of_regex_numbers_in_a_vec() {
    let items = vec![
        RegexNumber::from_str(r"^\d+$", "7").unwrap(),
        RegexNumber::from_number(r"^-?\d+$", -3).unwrap(),
    ];
    let v = RangedLengthVec::from_vec(1, 2, items).unwrap();
    assert_eq!(v.to_display_string(), "[7, -3]");
}

#[test]
fn verdicts_on_given_search_results() {
    assert_eq!(validators::regex_string_verdict(Ok(true)), Ok(()));
    assert_eq!(validators::regex_string_verdict(Ok(false)), Err(ValidatedCustomizedStringError::NotMatch));
    let bad = regex::Regex::new("(").unwrap_err();
    assert_eq!(
        validators::regex_string_verdict(Err(bad.clone())),
        Err(ValidatedCustomizedStringError::RegexError(bad.clone()))
    );
    assert_eq!(validators::regex_number_verdict(Ok(true)), Ok(()));
    assert_eq!(validators::regex_number_verdict(Ok(false)), Err(ValidatedCustomizedNumberError::NotMatch));
    assert_eq!(
        validators::regex_number_verdict(Err(bad.clone())),
        Err(ValidatedCustomizedNumberError::RegexError(bad))
    );
}

#[test]
fn verdicts_on_given_parse_results() {
    assert_eq!(validators::number_parse_verdict(Ok(-12)), Ok(-12));
    assert_eq!(
        validators::number_parse_verdict(Err("bad digit".to_string())),
        Err(ValidatedCustomizedNumberError::ParseError("bad digit".to_string()))
    );
}
