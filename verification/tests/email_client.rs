use zero2prod::domain::SubscriberEmail;
use zero2prod::email_client::{DeliveryError, EmailClient, SendOutcome};

fn client() -> EmailClient {
    let sender = SubscriberEmail::parse("sender@example.com".to_string()).unwrap();
    EmailClient::new(
        "http://localhost:8025".to_string(),
        sender,
        "token-123".to_string(),
        200,
    )
}

#[test]
fn the_request_goes_to_the_email_path() {
    assert_eq!(client().request_url(), "http://localhost:8025/email");
}

#[test]
fn the_authentication_header_is_the_token() {
    let c = client();
    assert_eq!(EmailClient::authorization_header_name(), "X-Postmark-Server-Token");
    assert_eq!(c.authorization_token(), "token-123");
    assert!(!c.authorization_token().is_empty());
}

#[test]
fn the_client_keeps_its_configuration() {
    let c = client();
    assert_eq!(c.sender().as_ref(), "sender@example.com");
    assert_eq!(c.timeout_millis(), 200);
}

#[test]
fn the_request_body_carries_all_five_fields() {
    let c = client();
    let recipient = SubscriberEmail::parse("ursula@example.com".to_string()).unwrap();
    let body = c.request_body(&recipient, "Hello!", "<p>news</p>", "news");
    let parsed: serde_json::Value = serde_json::from_str(&body).unwrap();
    assert_eq!(parsed.get("From").unwrap(), "sender@example.com");
    assert_eq!(parsed.get("To").unwrap(), "ursula@example.com");
    assert_eq!(parsed.get("Subject").unwrap(), "Hello!");
    assert_eq!(parsed.get("HtmlBody").unwrap(), "<p>news</p>");
    assert_eq!(parsed.get("TextBody").unwrap(), "news");
}

#[test]
fn the_request_body_escapes_what_json_requires() {
    let c = client();
    let recipient = SubscriberEmail::parse("ursula@example.com".to_string()).unwrap();
    let subject = "a \"quoted\" back\\slash\nand tab\tand nul\u{0}";
    let body = c.request_body(&recipient, subject, "h", "t");
    let parsed: serde_json::Value = serde_json::from_str(&body).unwrap();
    assert_eq!(parsed.get("Subject").unwrap(), subject);
}

#[test]
fn a_success_status_is_ok() {
    assert!(EmailClient::classify_outcome(&SendOutcome::Responded(200)).is_ok());
    assert!(EmailClient::classify_outcome(&SendOutcome::Responded(204)).is_ok());
    assert!(EmailClient::classify_outcome(&SendOutcome::Responded(299)).is_ok());
}

#[test]
fn a_failure_status_is_rejection_by_the_server() {
    assert_eq!(
        EmailClient::classify_outcome(&SendOutcome::Responded(500)),
        Err(DeliveryError::RejectedByServer(500))
    );
    assert_eq!(
        EmailClient::classify_outcome(&SendOutcome::Responded(404)),
        Err(DeliveryError::RejectedByServer(404))
    );
    assert_eq!(
        EmailClient::classify_outcome(&SendOutcome::Responded(199)),
        Err(DeliveryError::RejectedByServer(199))
    );
    assert_eq!(
        EmailClient::classify_outcome(&SendOutcome::Responded(300)),
        Err(DeliveryError::RejectedByServer(300))
    );
}

#[test]
fn a_timeout_keeps_its_identity() {
    assert_eq!(
        EmailClient::classify_outcome(&SendOutcome::TimedOut),
        Err(DeliveryError::Timeout)
    );
}

#[test]
fn a_transport_failure_keeps_its_identity() {
    assert_eq!(
        EmailClient::classify_outcome(&SendOutcome::TransportFailed),
        Err(DeliveryError::Transport)
    );
}
