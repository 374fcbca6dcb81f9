use email_interface::gmail::body::decode_gmail_body;
use email_interface::gmail::command::summarize_failure;
use email_interface::gmail::{compose_raw_message, parse_email_address};

#[test]
fn decodes_base64url_gmail_body() {
    let decoded = decode_gmail_body("SGVsbG8td29ybGQ").expect("body should decode");
    assert_eq!(decoded, "Hello-world");
}

#[test]
fn summarizes_missing_scopes() {
    let message = summarize_failure(
        "gws",
        &[],
        &["gmail", "users", "messages", "list"],
        r#"{"error":{"message":"ACCESS_TOKEN_SCOPE_INSUFFICIENT"}}"#,
        "",
    );
    assert!(message.contains("gws auth login"));
}

#[test]
fn builds_reply_message() {
    let raw = compose_raw_message(
        "alice@example.com",
        "Update request",
        "Thanks for contacting us.",
        Some("thread-123"),
        Some("agent@example.com"),
    );
    assert!(raw.contains("To: alice@example.com"));
    assert!(raw.contains("Subject: Re: Update request"));
    assert!(raw.contains("Thanks for contacting us."));
    assert!(raw.contains("References: thread-123"));
}

#[test]
fn parses_from_address_in_angle_brackets() {
    assert_eq!(parse_email_address(Some("Alice Example <alice@example.com>")), Some("alice@example.com".to_string()));
}

#[test]
fn parses_plain_from_address() {
    assert_eq!(parse_email_address(Some("alice@example.com")), Some("alice@example.com".to_string()));
}
