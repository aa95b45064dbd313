use zero2prod::domain::NewSubscriber;
use zero2prod::subscriptions::{
    parse_subscriber, register, response_status, FormData, RegistrationOutcome,
};

fn form(name: &str, email: &str) -> FormData {
    FormData {
        email: email.to_string(),
        name: name.to_string(),
    }
}

#[test]
fn a_valid_submission_is_accepted_unchanged() {
    let ns = parse_subscriber(form("ursula Le Guin", "ursula@example.com")).unwrap();
    assert_eq!(ns.name.inner_ref(), "ursula Le Guin");
    assert_eq!(ns.email.as_ref(), "ursula@example.com");
}

#[test]
fn try_from_matches_parse_subscriber() {
    let ns = NewSubscriber::try_from(form("ursula", "ursula@example.com")).unwrap();
    assert_eq!(ns.name.inner_ref(), "ursula");
    let e = NewSubscriber::try_from(form("}", "ursula@example.com")).unwrap_err();
    assert_eq!(e, "} is not a valid subscriber name.");
}

#[test]
fn an_invalid_name_fails_before_the_email_is_looked_at() {
    let e = parse_subscriber(form("(ursula)", "also-not-an-email")).unwrap_err();
    assert_eq!(e, "(ursula) is not a valid subscriber name.");
}

#[test]
fn a_valid_name_with_an_invalid_email_reports_the_email() {
    let e = parse_subscriber(form("ursula", "not-an-email")).unwrap_err();
    assert_eq!(e, "not-an-email is not a valid subscriber email.");
}

#[test]
fn registering_a_valid_submission_yields_a_complete_record() {
    let before = chrono::Utc::now().timestamp_millis();
    let record = register(form("ursula Le Guin", "ursula@example.com")).unwrap();
    let after = chrono::Utc::now().timestamp_millis();
    assert_eq!(record.name.inner_ref(), "ursula Le Guin");
    assert_eq!(record.email.as_ref(), "ursula@example.com");
    assert_eq!((record.id >> 76) & 0xf, 4);
    assert!(before <= record.subscribed_at_millis);
    assert!(record.subscribed_at_millis <= after);
}

#[test]
fn each_registration_draws_a_fresh_identifier() {
    let first = register(form("ursula", "ursula@example.com")).unwrap();
    let second = register(form("ursula", "ursula@example.com")).unwrap();
    assert_ne!(first.id, second.id);
}

#[test]
fn registering_an_invalid_submission_yields_no_record() {
    assert!(register(form("", "ursula@example.com")).is_err());
    assert!(register(form("ursula", "not-an-email")).is_err());
}

#[test]
fn each_outcome_answers_its_status() {
    assert_eq!(response_status(&RegistrationOutcome::Accepted), 200);
    assert_eq!(response_status(&RegistrationOutcome::InvalidInput), 400);
    assert_eq!(response_status(&RegistrationOutcome::StorageFailed), 500);
}
