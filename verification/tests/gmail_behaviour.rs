use email_interface::gmail::body::{decode_gmail_body, MessageBody, MessageHeader, MessagePart, RawMessage};
use email_interface::gmail::command::{command_json, spawn_failure, summarize_failure, GMAIL_SCOPE_FIX};
use email_interface::gmail::{
    compose_raw_message_at, encode_raw_message, parse_email_address, safe_max_results,
    sanitize_ascii_body, GmailClient, GmailError, SentMessage,
};
use email_interface::types::GmailMessage;

fn header(name: &str, value: &str) -> MessageHeader {
    MessageHeader { name: name.to_string(), value: value.to_string() }
}

fn leaf(mime: &str, data: &str) -> MessagePart {
    MessagePart {
        mime_type: Some(mime.to_string()),
        headers: None,
        parts: None,
        body: Some(MessageBody { data: Some(data.to_string()) }),
    }
}

#[test]
fn decodes_unpadded_and_line_broken_bodies() {
    assert_eq!(decode_gmail_body("SGVs\nbG8").expect("decodes"), "Hello");
    assert_eq!(decode_gmail_body("  aGk  ").expect("decodes"), "hi");
    assert_eq!(decode_gmail_body("PGI-aGk8L2I-").expect("decodes"), "<b>hi</b>");
}

#[test]
fn rejects_bodies_that_are_not_base64() {
    assert!(matches!(decode_gmail_body("!!!!"), Err(GmailError::Base64(_))));
}

#[test]
fn summarizes_api_error_messages() {
    let message = summarize_failure("gws", &[], &["gmail", "users"], r#"{"error":{"message":"boom"}}"#, "ignored");
    assert_eq!(message, "gws gmail users failed: boom");
}

#[test]
fn summarizes_scope_hint_from_plain_text() {
    let message = summarize_failure("gws", &[], &["list"], "insufficient authentication scopes", "");
    assert_eq!(
        message,
        format!(
            "gws list failed because the active gws credentials do not include Gmail scopes. Re-run `{}`.",
            GMAIL_SCOPE_FIX
        )
    );
}

#[test]
fn summarizes_stderr_then_stdout_then_nothing() {
    assert_eq!(summarize_failure("gws", &[], &["a"], "out", "bad"), "gws a failed: bad");
    assert_eq!(summarize_failure("gws", &["--v".to_string()], &["a"], "out", ""), "gws --v a failed: out");
    assert_eq!(summarize_failure("gws", &[], &[], "", ""), "gws failed with no diagnostic output");
}

#[test]
fn explains_a_missing_cli() {
    match spawn_failure("gws", true, "os error".to_string()) {
        GmailError::Spawn(m) => assert_eq!(m, "`gws` command not found. Install Google Workspace CLI and retry."),
        other => panic!("unexpected {other:?}"),
    }
    match spawn_failure("gws", false, "os error".to_string()) {
        GmailError::Spawn(m) => assert_eq!(m, "os error"),
        other => panic!("unexpected {other:?}"),
    }
}

#[test]
fn reads_the_json_of_a_successful_run() {
    let value = command_json("gws", &[], &["x"], true, b"  {\"a\":1}\n".to_vec(), Vec::new()).expect("json");
    assert_eq!(value, "{\"a\":1}");
}

#[test]
fn reports_each_kind_of_failed_run() {
    match command_json("gws", &[], &["x"], false, b"  \n".to_vec(), b" denied \n".to_vec()) {
        Err(GmailError::CommandFailed(m)) => assert_eq!(m, "gws x failed: denied"),
        other => panic!("unexpected {other:?}"),
    }
    assert!(matches!(command_json("gws", &[], &[], true, b" \n ".to_vec(), Vec::new()), Err(GmailError::EmptyOutput)));
    assert!(matches!(command_json("gws", &[], &[], true, b"not json".to_vec(), Vec::new()), Err(GmailError::InvalidJson(_))));
    assert!(matches!(command_json("gws", &[], &[], true, vec![0xff, 0xfe], Vec::new()), Err(GmailError::StdoutUtf8(_))));
    assert!(matches!(command_json("gws", &[], &[], true, b"{}".to_vec(), vec![0xff]), Err(GmailError::StdoutUtf8(_))));
}

#[test]
fn composes_the_exact_raw_reply() {
    let raw = compose_raw_message_at("a@x.org", "Hi", "caf\u{e9}\u{a0}ok", Some("t-1"), Some("  "), "Mon, 1 Jan 2024 00:00:00 +0000");
    assert_eq!(
        raw,
        "MIME-Version: 1.0\r\nContent-Type: text/plain; charset=\"UTF-8\"\r\nContent-Transfer-Encoding: 7bit\r\nTo: a@x.org\r\nSubject: Re: Hi\r\nDate: Mon, 1 Jan 2024 00:00:00 +0000\r\nX-Mailer: email-interface\r\nReferences: t-1\r\n\r\ncaf? ok\n"
    );
    let with_from = compose_raw_message_at("a@x.org", "RE: Hi", "b", None, Some("me@x.org"), "D");
    assert!(with_from.contains("Subject: RE: Hi\r\n"));
    assert!(with_from.contains("From: me@x.org\r\n"));
    assert!(!with_from.contains("References:"));
}

#[test]
fn encodes_raw_messages_without_padding() {
    assert_eq!(encode_raw_message("hi"), "aGk");
    assert_eq!(encode_raw_message("<b>hi</b>"), "PGI-aGk8L2I-");
}

#[test]
fn keeps_reply_bodies_seven_bit() {
    let body = sanitize_ascii_body("\u{e9}\u{a0}x\t\r\n~");
    assert_eq!(body, "? x\t\r\n~");
    assert!(body.chars().all(|c| c.is_ascii()));
}

#[test]
fn clamps_the_number_of_requested_messages() {
    assert_eq!(safe_max_results(0), 1);
    assert_eq!(safe_max_results(7), 7);
    assert_eq!(safe_max_results(100), 25);
}

#[test]
fn rejects_unusable_sender_headers() {
    assert_eq!(parse_email_address(None), None);
    assert_eq!(parse_email_address(Some("   ")), None);
    assert_eq!(parse_email_address(Some("no address here")), None);
    assert_eq!(parse_email_address(Some("Bob <bob smith@x.org>")), None);
    assert_eq!(parse_email_address(Some("Bob < bob@x.org >")), Some("bob@x.org".to_string()));
}

#[test]
fn infers_the_reply_recipient_from_the_sender() {
    let message = GmailMessage {
        message_id: "m".to_string(),
        thread_id: "t".to_string(),
        from: Some("Carol <carol@x.org>".to_string()),
        to: None,
        subject: None,
        date: None,
        snippet: None,
        plain_text_body: None,
        html_body: None,
        label_ids: vec![],
    };
    assert_eq!(GmailClient.infer_reply_recipient(&message), Some("carol@x.org".to_string()));
}

#[test]
fn looks_up_headers_without_regard_to_case() {
    let part = MessagePart {
        mime_type: None,
        headers: Some(vec![header("x-other", "1"), header("FROM", "first"), header("From", "second")]),
        parts: None,
        body: None,
    };
    assert_eq!(part.header_value("from"), Some("first".to_string()));
    assert_eq!(part.header_value("Subject"), None);
}

#[test]
fn reads_the_first_plain_and_html_bodies_of_a_message_tree() {
    let payload = MessagePart {
        mime_type: Some("multipart/mixed".to_string()),
        headers: Some(vec![header("Subject", "Hello"), header("From", "a@x.org"), header("To", "b@x.org")]),
        parts: Some(vec![
            MessagePart {
                mime_type: Some("multipart/alternative".to_string()),
                headers: None,
                parts: Some(vec![leaf("text/plain", "UGxhaW4gYm9keQ"), leaf("text/html", "PGI-aGk8L2I-")]),
                body: None,
            },
            leaf("text/plain", "c2Vjb25k"),
        ]),
        body: None,
    };
    let raw = RawMessage {
        id: "id-1".to_string(),
        thread_id: "th-1".to_string(),
        snippet: Some("snip".to_string()),
        label_ids: None,
        payload: Some(payload),
    };
    let message = raw.into_message().expect("message");
    assert_eq!(message.message_id, "id-1");
    assert_eq!(message.thread_id, "th-1");
    assert_eq!(message.subject.as_deref(), Some("Hello"));
    assert_eq!(message.from.as_deref(), Some("a@x.org"));
    assert_eq!(message.to.as_deref(), Some("b@x.org"));
    assert_eq!(message.date, None);
    assert_eq!(message.plain_text_body.as_deref(), Some("Plain body"));
    assert_eq!(message.html_body.as_deref(), Some("<b>hi</b>"));
    assert!(message.label_ids.is_empty());
}

#[test]
fn fails_on_a_body_that_does_not_decode() {
    let raw = RawMessage {
        id: "id".to_string(),
        thread_id: "th".to_string(),
        snippet: None,
        label_ids: Some(vec!["INBOX".to_string()]),
        payload: Some(MessagePart {
            mime_type: Some("multipart/mixed".to_string()),
            headers: None,
            parts: Some(vec![leaf("image/png", "%%%%")]),
            body: None,
        }),
    };
    assert!(matches!(raw.into_message(), Err(GmailError::Base64(_))));
}

#[test]
fn reads_a_message_without_payload() {
    let raw = RawMessage {
        id: "id".to_string(),
        thread_id: "th".to_string(),
        snippet: None,
        label_ids: Some(vec!["INBOX".to_string()]),
        payload: None,
    };
    let message = raw.into_message().expect("message");
    assert_eq!(message.from, None);
    assert_eq!(message.plain_text_body, None);
    assert_eq!(message.label_ids, vec!["INBOX".to_string()]);
}

#[test]
fn words_gmail_errors_for_the_user() {
    assert_eq!(GmailError::EmptyOutput.message(), "gws returned no JSON output");
    assert_eq!(GmailError::StdoutUtf8("x".to_string()).message(), "gws returned invalid UTF-8 on stdout");
    assert_eq!(GmailError::CommandFailed("as is".to_string()).message(), "as is");
    assert_eq!(GmailError::Base64("bad".to_string()).message(), "failed to decode Gmail message body: bad");
    assert_eq!(GmailError::InvalidJson("eof".to_string()).message(), "gws did not return valid JSON: eof");
}

#[test]
fn maps_a_send_response() {
    let sent = SentMessage::from_response(Some("m".to_string()), None, None);
    assert_eq!(sent.message_id.as_deref(), Some("m"));
    assert!(sent.label_ids.is_empty());
}

#[test]
fn dates_the_reply_with_the_clock() {
    let raw = email_interface::gmail::compose_raw_message("a@x.org", "Hi", "x", None, None);
    let date = raw
        .split("\r\n")
        .find(|line| line.starts_with("Date: "))
        .map(|line| line.trim_start_matches("Date: "))
        .expect("date header");
    let stamped = chrono::DateTime::parse_from_rfc2822(date).expect("rfc 2822 date");
    assert!(stamped.timestamp() > 1_600_000_000);
}
