use shrink::validator::Alnum;
use shrink::validator::Code;
use shrink::validator::DefaultValidator;
use shrink::validator::Validate;
use shrink::validator::Validator;

fn alnum_is_valid(code: &str) -> bool {
    Alnum::default().validate(code)
}

fn default_is_valid(code: &str) -> bool {
    DefaultValidator::default().validate(code)
}

#[test]
fn alnum_valid_code() {
    assert!(alnum_is_valid("code"))
}

#[test]
fn slash_is_invalid() {
    assert!(!alnum_is_valid("/code"))
}

#[test]
fn dots_are_invalid() {
    assert!(!alnum_is_valid(".."))
}

#[test]
fn alnum_spaces_are_invalid() {
    assert!(!alnum_is_valid("this is not valid"))
}

#[test]
fn at_is_invalid() {
    assert!(!alnum_is_valid("blazing@fast"))
}

#[test]
fn default_valid_code() {
    assert!(default_is_valid("code"))
}

#[test]
fn invalid_code() {
    assert!(!default_is_valid("/code"))
}

#[test]
fn default_spaces_are_invalid() {
    assert!(!default_is_valid("this is not valid"))
}

#[test]
fn at_is_allowed() {
    assert!(default_is_valid("blazing@fast"))
}

#[test]
fn empty_string_is_accepted_by_both_grammars() {
    assert!(alnum_is_valid(""));
    assert!(default_is_valid(""));
}

#[test]
fn alnum_rejects_percent_encoding() {
    assert!(!alnum_is_valid("a%2Fb"))
}

#[test]
fn default_accepts_percent_encoded_triplets() {
    assert!(default_is_valid("a%2Fb"));
    assert!(default_is_valid("%41"));
    assert!(default_is_valid("%4a%4B"));
}

#[test]
fn default_rejects_truncated_percent_encoding() {
    assert!(!default_is_valid("%4"));
    assert!(!default_is_valid("abc%"));
}

#[test]
fn default_rejects_bad_hex_in_percent_encoding() {
    assert!(!default_is_valid("%zz"));
    assert!(!default_is_valid("%4g"));
}

#[test]
fn default_accepts_unreserved_and_sub_delims() {
    assert!(default_is_valid("a-b.c_d~e"));
    assert!(default_is_valid("x!$&'()*+,;=:@y"));
}

#[test]
fn validator_wrapper_returns_code_only_when_accepted() {
    let v: Validator<Alnum> = Validator::new(Alnum);
    let accepted: Code = v.validate("abc123".to_string()).expect("alnum code accepted");
    assert_eq!(accepted.as_str(), "abc123");
    assert!(v.validate("not valid".to_string()).is_none());
}

#[test]
fn slug_validator_follows_default_grammar() {
    let v = shrink::slug::Validator::default();
    let slug = v.validate("blazing@fast").expect("pchar text accepted");
    assert_eq!(slug.as_str(), "blazing@fast");
    assert!(v.validate("/code").is_none());
}
