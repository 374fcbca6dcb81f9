use email_interface::agentic::errors::AgentError;
use email_interface::agentic::mcp::{
    answer_candidate, answer_from_reply, answer_request_body, check_initialize_reply, datagouv_tool_answer,
    mcp_initialize_request, mcp_initialized_notification, mcp_payload_text, mcp_tool_call_request,
    parse_mcp_response_payload, read_tool_reply, EndpointReply,
};
use email_interface::agentic::memory::{memory_file_addition, memory_hints, parse_memory_terms};
use email_interface::agentic::replies::{build_reply_subject, extract_json_object, structured_json_candidate};
use email_interface::agentic::search::sanitize_query_text;
use email_interface::json::Json;
use email_interface::agentic::supervisor::{Supervisor, TurnResult};
use email_interface::types::{EmailClassification, GlobalContext, GmailMessage, QueueBackendKind};

const ENDPOINT: &str = "https://mcp.example.com/mcp";

#[test]
fn reports_an_empty_mcp_body() {
    match parse_mcp_response_payload(ENDPOINT, "search_datasets", "  \n ") {
        Err((tool, message)) => {
            assert_eq!(tool, "search_datasets");
            assert_eq!(message, "Datagouv MCP returned empty body from https://mcp.example.com/mcp.");
        }
        Ok(_) => panic!("expected an error"),
    }
}

#[test]
fn reports_a_body_without_json() {
    match parse_mcp_response_payload(ENDPOINT, "search_datasets", "event: ping\nhello") {
        Err((_, message)) => assert_eq!(
            message,
            "Datagouv MCP returned non-JSON payload for search_datasets at https://mcp.example.com/mcp: event: ping\nhello"
        ),
        Ok(_) => panic!("expected an error"),
    }
    match parse_mcp_response_payload(ENDPOINT, "t", "data: {broken\ndata: [DONE]\n") {
        Err((_, message)) => assert_eq!(
            message,
            "Datagouv MCP payload parse failure for t at https://mcp.example.com/mcp: data: {broken\ndata: [DONE]\n"
        ),
        Ok(_) => panic!("expected an error"),
    }
}

#[test]
fn picks_the_first_json_event_of_a_stream() {
    let body = "data: [DONE]\r\ndata: \ndata:data: {\"n\":1}\ndata: {\"n\":2}\n";
    assert_eq!(mcp_payload_text(ENDPOINT, "t", body).expect("payload"), "{\"n\":1}");
    assert_eq!(mcp_payload_text(ENDPOINT, "t", "  [1, 2] ").expect("payload"), "[1, 2]");
}

#[test]
fn reads_the_answer_of_a_tool_call() {
    let ok = r#"{"jsonrpc":"2.0","result":{"content":[{"text":"datasets found"}]}}"#;
    assert_eq!(datagouv_tool_answer(ENDPOINT, "search_datasets", ok).expect("answer"), "datasets found");

    let failed = r#"{"jsonrpc":"2.0","error":{"message":"rate limited"}}"#;
    match datagouv_tool_answer(ENDPOINT, "search_datasets", failed) {
        Err(AgentError::DatagouvToolError { tool, message }) => {
            assert_eq!(tool, "search_datasets");
            assert_eq!(message, "rate limited");
        }
        other => panic!("unexpected {other:?}"),
    }

    match datagouv_tool_answer(ENDPOINT, "t", r#"{"error":{"code":1}}"#) {
        Err(AgentError::DatagouvToolError { message, .. }) => assert_eq!(message, "tool call failed"),
        other => panic!("unexpected {other:?}"),
    }

    assert_eq!(datagouv_tool_answer(ENDPOINT, "t", "{ \"result\" : 1 }").expect("answer"), "{\"result\":1}");
}

#[test]
fn checks_the_initialize_reply() {
    assert!(check_initialize_reply(ENDPOINT, r#"{"result":{}}"#).is_ok());
    match check_initialize_reply(ENDPOINT, r#"{"error":{"message":"nope"}}"#) {
        Err(AgentError::DatagouvToolError { tool, message }) => {
            assert_eq!(tool, "initialize");
            assert_eq!(message, "nope");
        }
        other => panic!("unexpected {other:?}"),
    }
    match check_initialize_reply(ENDPOINT, r#"{"error":null}"#) {
        Err(AgentError::DatagouvToolError { message, .. }) => assert_eq!(message, "initialize failed"),
        other => panic!("unexpected {other:?}"),
    }
    assert!(matches!(check_initialize_reply(ENDPOINT, ""), Err(AgentError::DatagouvToolError { .. })));
}

#[test]
fn reads_answers_from_the_answer_endpoint() {
    assert_eq!(answer_candidate("  Sure: {\"answer\":\"x\"} done "), "{\"answer\":\"x\"}");
    assert_eq!(answer_candidate("  plain text  "), "plain text");

    let structured = EndpointReply::Structured {
        answer: None,
        response: Some("from response".to_string()),
        message: Some("from message".to_string()),
        text: None,
        body: None,
    };
    assert_eq!(answer_from_reply("c".to_string(), Some(structured)).expect("answer"), "from response");
    assert_eq!(answer_from_reply("c".to_string(), Some(EndpointReply::Plain("ok".to_string()))).expect("answer"), "ok");
    assert_eq!(answer_from_reply("raw text".to_string(), None).expect("answer"), "raw text");
    assert!(matches!(
        answer_from_reply("c".to_string(), Some(EndpointReply::Plain("  ".to_string()))),
        Err(AgentError::AnswerEndpointEmpty)
    ));
    let empty = EndpointReply::Structured { answer: None, response: None, message: None, text: None, body: None };
    assert!(matches!(answer_from_reply("c".to_string(), Some(empty)), Err(AgentError::AnswerEndpointEmpty)));
    assert!(matches!(answer_from_reply(" ".to_string(), None), Err(AgentError::AnswerEndpointEmpty)));
}

#[test]
fn picks_the_json_part_of_a_model_reply() {
    assert_eq!(structured_json_candidate("Result:\n{\"a\": {\"b\": \"}\"}}\nbye"), "{\"a\": {\"b\": \"}\"}}");
    assert_eq!(structured_json_candidate("  [1]  "), "[1]");
    assert_eq!(extract_json_object("x {\"s\":\"\\\"{\"} y"), Some("{\"s\":\"\\\"{\"}"));
    assert_eq!(extract_json_object("{unclosed"), None);
}

#[test]
fn never_doubles_the_reply_marker() {
    assert_eq!(build_reply_subject(Some("Update")), "Re: Update");
    assert_eq!(build_reply_subject(Some("RE: Update")), "RE: Update");
    assert_eq!(build_reply_subject(None), "Re: (no subject)");
    let once = build_reply_subject(Some("Update"));
    assert_eq!(build_reply_subject(Some(&once)), once);
}

#[test]
fn drops_filler_words_from_queries() {
    assert_eq!(sanitize_query_text("Please, thank you for the data!"), "Please data");
    assert_eq!(sanitize_query_text("bonjour | merci"), "");
}

#[test]
fn reads_back_each_remembered_query() {
    let first = "- [2024-01-01T00:00:00Z] source=focus_query | subject=a | category=b | terms=housing data | query=q | intent=i | response=r";
    let second = "- [2024-01-02T00:00:00Z] source=focus_query | subject=a | category=b | terms=transport | query=q | intent=i | response=r";
    let file = memory_file_addition("", first);
    assert!(file.starts_with("# Datagouv Query Memory\n\n"));
    let file = format!("{}{}", file, memory_file_addition(&file, second));
    assert_eq!(memory_hints(&file), vec!["housing data".to_string(), "transport".to_string()]);
    assert_eq!(parse_memory_terms("- [t] terms=  x y  | rest"), Some("x y".to_string()));
    assert_eq!(parse_memory_terms("# title terms=x"), None);
}

#[test]
fn words_agent_errors_for_the_user() {
    assert_eq!(AgentError::MaxStepsReached(64).message(), "mission exceeded max steps (64)");
    assert_eq!(AgentError::UnknownAgent("x".to_string()).message(), "unknown agent `x`");
    assert_eq!(
        AgentError::DatagouvToolError { tool: "t".to_string(), message: "m".to_string() }.message(),
        "Datagouv MCP returned an error: t"
    );
    assert_eq!(AgentError::AnswerEndpointEmpty.message(), "answer endpoint returned no usable text");
}

fn mailbox_message(id: &str) -> GmailMessage {
    GmailMessage {
        message_id: id.to_string(),
        thread_id: format!("thread-{id}"),
        from: Some("user@example.com".to_string()),
        to: None,
        subject: Some("Hello".to_string()),
        date: None,
        snippet: None,
        plain_text_body: None,
        html_body: None,
        label_ids: vec![],
    }
}

#[test]
fn records_unrelated_emails_in_mailbox_order() {
    let mut ctx = GlobalContext::new("o".to_string(), "q".to_string(), 5, QueueBackendKind::Disabled);
    ctx.mailbox_loaded = true;
    ctx.emails = vec![mailbox_message("1"), mailbox_message("2")];
    for expected in ["1", "2"] {
        ctx.current_classification = Some(EmailClassification {
            related_to_project: false,
            category: "spam".to_string(),
            confidence_bits: 0,
            public_data_relevance: false,
            reasoning: "no".to_string(),
        });
        ctx = match Supervisor.run_turn(ctx) {
            TurnResult::Delegate { target_agent, instruction, new_context } => {
                assert_eq!(target_agent, "supervisor");
                assert_eq!(instruction, "The current email is not related to MarianneAI.");
                new_context
            }
            _ => panic!("expected a delegation"),
        };
        let last = ctx.reviewed_emails.last().expect("recorded");
        assert_eq!(last.message.message_id, expected);
        assert_eq!(last.disposition, "ignored");
        assert_eq!(ctx.reviewed_emails.len(), ctx.current_email_index);
    }
    match Supervisor.run_turn(ctx) {
        TurnResult::Delegate { target_agent, .. } => assert_eq!(target_agent, "auditor"),
        _ => panic!("expected a delegation"),
    }
}

#[test]
fn builds_the_mcp_requests() {
    assert_eq!(
        mcp_initialize_request(),
        r#"{"id":1,"jsonrpc":"2.0","method":"initialize","params":{"capabilities":{"roots":{"listChanged":false},"sampling":{}},"clientInfo":{"name":"email-interface","version":"0.1.0"},"protocolVersion":"2024-11-05"}}"#
    );
    assert_eq!(mcp_initialized_notification(), r#"{"jsonrpc":"2.0","method":"initialized","params":{}}"#);
    assert_eq!(
        mcp_tool_call_request("search_datasets", "budget \"2024\"\n\u{1}"),
        "{\"id\":2,\"jsonrpc\":\"2.0\",\"method\":\"tools/call\",\"params\":{\"arguments\":{\"query\":\"budget \\\"2024\\\"\\n\\u0001\"},\"name\":\"search_datasets\"}}"
    );
}

fn query_object(query: &str) -> String {
    let mut members = serde_json::Map::new();
    members.insert("query".to_string(), serde_json::Value::String(query.to_string()));
    serde_json::Value::Object(members).to_string()
}

#[test]
fn request_bodies_are_what_serde_json_writes() {
    let query = "tab\there\u{8}\u{c}\r\\ é \u{1f}";
    let expected = query_object(query);
    let request = mcp_tool_call_request("t", query);
    let parsed: serde_json::Value = serde_json::from_str(&request).expect("json");
    assert_eq!(parsed["params"]["arguments"]["query"], query);
    assert_eq!(parsed.to_string(), request);
    let message = GmailMessage {
        message_id: "m".to_string(),
        thread_id: "t".to_string(),
        from: None,
        to: None,
        subject: None,
        date: None,
        snippet: None,
        plain_text_body: Some(query.to_string()),
        html_body: None,
        label_ids: vec![],
    };
    let trimmed_query = query.trim();
    assert_eq!(answer_request_body(&message), query_object(trimmed_query));
    assert!(expected.starts_with("{\"query\":\"tab\\there\\b\\f\\r\\\\"));
}

#[test]
fn reads_a_tool_reply_from_its_tree() {
    let content = Json::Object(vec![(
        "result".to_string(),
        Json::Object(vec![(
            "content".to_string(),
            Json::Array(vec![Json::Object(vec![("text".to_string(), Json::Str("found".to_string()))])]),
        )]),
    )]);
    assert_eq!(read_tool_reply("t", &content, "{}").expect("answer"), "found");
    let error = Json::Object(vec![("error".to_string(), Json::Object(vec![("message".to_string(), Json::Number("1".to_string()))]))]);
    match read_tool_reply("t", &error, "{}") {
        Err(AgentError::DatagouvToolError { tool, message }) => {
            assert_eq!(tool, "t");
            assert_eq!(message, "tool call failed");
        }
        other => panic!("unexpected {other:?}"),
    }
    assert_eq!(read_tool_reply("t", &Json::Null, "null").expect("answer"), "null");
    assert_eq!(read_tool_reply("t", &Json::Null, "  ").expect("answer"), "No output returned by Datagouv MCP tool.");
}
