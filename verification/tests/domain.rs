use zero2prod::domain::{SubscriberEmail, SubscriberName};

#[test]
fn a_256_grapheme_long_name_is_valid() {
    let name = "a̐".repeat(256);
    assert!(SubscriberName::parse(name).is_ok());
}

#[test]
fn a_name_longer_than_256_graphemes_is_rejected() {
    let name = "a".repeat(257);
    assert!(SubscriberName::parse(name).is_err());
}

#[test]
fn whitespace_only_names_are_rejected() {
    let name = " ".to_string();
    assert!(SubscriberName::parse(name).is_err());
}

#[test]
fn empty_string_is_rejected() {
    let name = "".to_string();
    assert!(SubscriberName::parse(name).is_err());
}

#[test]
fn names_containing_an_invalid_character_are_rejected() {
    for name in &['/', '(', ')', '<', '>', '\\', '{', '}'] {
        let name = name.to_string();
        assert!(SubscriberName::parse(name).is_err());
    }
}

#[test]
fn a_valid_name_is_parsed_successfully() {
    let name = "ursula Le Guin".to_string();
    assert!(SubscriberName::parse(name).is_ok());
}

#[test]
fn a_name_of_256_plain_characters_is_valid() {
    let name = "a".repeat(256);
    assert!(SubscriberName::parse(name).is_ok());
}

#[test]
fn rejected_names_are_named_in_the_error() {
    let e = SubscriberName::parse("{".to_string()).unwrap_err();
    assert_eq!(e, "{ is not a valid subscriber name.");
}

#[test]
fn the_inner_string_is_recoverable() {
    let name = SubscriberName::parse("ursula".to_string()).unwrap();
    assert_eq!(name.inner_ref(), "ursula");
    assert_eq!(name.as_ref(), "ursula");
    assert_eq!(name.inner(), "ursula");
}

#[test]
fn inner_mut_can_break_the_invariant() {
    let mut name = SubscriberName::parse("ursula".to_string()).unwrap();
    *name.inner_mut() = "{".to_string();
    assert_eq!(name.inner_ref(), "{");
}

#[test]
fn a_valid_email_is_parsed_successfully() {
    let email = SubscriberEmail::parse("ursula@example.com".to_string()).unwrap();
    assert_eq!(email.as_ref(), "ursula@example.com");
}

#[test]
fn invalid_emails_are_rejected() {
    assert!(SubscriberEmail::parse("not-an-email".to_string()).is_err());
    assert!(SubscriberEmail::parse("".to_string()).is_err());
    assert!(SubscriberEmail::parse("ursula.example.com".to_string()).is_err());
    assert!(SubscriberEmail::parse("@example.com".to_string()).is_err());
}

#[test]
fn rejected_emails_are_named_in_the_error() {
    let e = SubscriberEmail::parse("not-an-email".to_string()).unwrap_err();
    assert_eq!(e, "not-an-email is not a valid subscriber email.");
}
