use email_interface::agentic::memory::{build_datagouv_memory_entry, memory_file_addition, memory_hints};
use email_interface::agentic::mcp::parse_mcp_response_payload;
use email_interface::json::Json;
use email_interface::agentic::replies::{extract_json_object, truncate_text};
use email_interface::agentic::responders::{DatagouvQueryCandidate, DatagouvResponder};
use email_interface::agentic::search::{build_datagouv_query, normalize_subject_query, sanitize_query_text};
use email_interface::types::{EmailClassification, EmailIntent, GmailMessage, ProjectProfile, TaskAssessment};

fn expected_result() -> Json {
    Json::Object(vec![(
        "content".to_string(),
        Json::Array(vec![Json::Object(vec![("text".to_string(), Json::Str("ok".to_string()))])]),
    )])
}

#[test]
fn extracts_first_json_object() {
    let response = "Here is the result:\n{\"ok\":true}\nThanks";
    assert_eq!(extract_json_object(response), Some("{\"ok\":true}"));
}

#[test]
fn parses_mcp_json_response_body() {
    let payload = r#"{"jsonrpc":"2.0","result":{"content":[{"text":"ok"}]}}"#;
    let value = parse_mcp_response_payload("https://mcp.example.com/mcp", "search_datasets", payload)
        .expect("expected valid json payload");
    assert_eq!(value.get("result"), Some(&expected_result()));
}

#[test]
fn parses_mcp_sse_response_body() {
    let payload = "event: message\ndata: {\"jsonrpc\":\"2.0\",\"result\":{\"content\":[{\"text\":\"ok\"}]}}\n";
    let value = parse_mcp_response_payload("https://mcp.example.com/mcp", "search_datasets", payload)
        .expect("expected valid sse payload");
    assert_eq!(value.get("result"), Some(&expected_result()));
}

#[test]
fn truncates_long_bodies() {
    let text = "abcdef";
    assert_eq!(truncate_text(text, 3), "abc\n[truncated]");
}

#[test]
fn normalizes_reply_subject_prefixes() {
    let normalized = normalize_subject_query("Re: FW: marianneai: Budget public dataset review");
    assert_eq!(normalized, "Budget public dataset review");
    assert!(!normalized.to_lowercase().starts_with("re:"));
    assert!(!normalized.to_lowercase().contains("fw:"));
}

#[test]
fn sanitizes_subject_like_text_for_query() {
    let sanitized =
        sanitize_query_text("Could you please provide, with data, the 2024 transport subsidies?? Merci, user.");
    assert!(sanitized.contains("provide"));
    assert!(sanitized.contains("transport"));
    assert!(sanitized.contains("subsidies"));
    assert!(!sanitized.contains("please"));
    assert!(!sanitized.contains("merci"));
}

#[test]
fn datagouv_query_is_structured_and_professional() {
    let profile = ProjectProfile::default();
    let message = GmailMessage {
        message_id: "mid-1".to_string(),
        thread_id: "tid-1".to_string(),
        from: Some("user@example.com".to_string()),
        to: Some("agent@example.com".to_string()),
        subject: Some("Re: FW: marianneai: Need public housing statistics by city".to_string()),
        date: None,
        snippet: Some("Please share".to_string()),
        plain_text_body: Some("Could you please provide exact numbers for each city from your dataset?".to_string()),
        html_body: None,
        label_ids: vec![],
    };
    let classification = EmailClassification {
        related_to_project: true,
        category: "dataset request".to_string(),
        confidence_bits: 0.98f32.to_bits(),
        public_data_relevance: true,
        reasoning: "clear".to_string(),
    };
    let intent = EmailIntent {
        task_title: "Public housing trend".to_string(),
        intent_summary: "find latest housing dataset for social aid".to_string(),
        requested_outcome: "Retrieve municipal housing allocation datasets".to_string(),
        task_description: "analyse municipal housing".to_string(),
        requester_identity: Some("user@example.com".to_string()),
        key_entities: vec!["housing".to_string(), "social aid".to_string()],
        actionable: true,
        missing_information: vec![],
    };
    let assessment = TaskAssessment {
        should_queue: true,
        needs_human_review: false,
        clarity_score: 89,
        priority: "high".to_string(),
        rationale: "Clear intent".to_string(),
        missing_information: vec![],
    };

    let query = build_datagouv_query(&profile, &message, &classification, &intent, &assessment);

    assert!(query.contains("Professional public-data search for MarianneAI"));
    assert!(query.contains("focus: Need public housing statistics by city"));
    assert!(query.contains("keywords:"));
    assert!(query.contains("housing"));
    assert!(query.contains("social"));
    assert!(query.contains("clarity=89"));
    assert!(!query.contains("please"));
    assert!(!query.contains("exact numbers"));
}

#[test]
fn datagouv_query_variants_include_primary_and_keyword_fallbacks() {
    let responder = DatagouvResponder::new();
    let profile = ProjectProfile::default();
    let message = GmailMessage {
        message_id: "mid-2".to_string(),
        thread_id: "tid-2".to_string(),
        from: Some("user@example.com".to_string()),
        to: Some("agent@example.com".to_string()),
        subject: Some("Re: marianneai: Need a stable list of companies in France by city".to_string()),
        date: None,
        snippet: Some("Need french company dataset".to_string()),
        plain_text_body: None,
        html_body: None,
        label_ids: vec![],
    };
    let classification = EmailClassification {
        related_to_project: true,
        category: "dataset request".to_string(),
        confidence_bits: 0.92f32.to_bits(),
        public_data_relevance: true,
        reasoning: "clear request".to_string(),
    };
    let intent = EmailIntent {
        task_title: "French company list".to_string(),
        intent_summary: "Collect company data by french location".to_string(),
        requested_outcome: "retrieve a clean dataset for French companies".to_string(),
        task_description: "find french company data".to_string(),
        requester_identity: Some("user@example.com".to_string()),
        key_entities: vec!["company".to_string(), "France".to_string()],
        actionable: true,
        missing_information: vec![],
    };
    let assessment = TaskAssessment {
        should_queue: true,
        needs_human_review: false,
        clarity_score: 91,
        priority: "high".to_string(),
        rationale: "Actionable".to_string(),
        missing_information: vec![],
    };
    let memory = vec!["companys list".to_string(), "siret".to_string()];

    let variants = responder.query_variants(&profile, &message, &classification, &intent, &assessment, &memory);

    let has_primary = variants.iter().any(|variant| variant.source == "primary_structured_query");
    let has_focus = variants.iter().any(|variant| variant.source == "focus_query");
    let has_short = variants.iter().any(|variant| variant.source == "shorter_keyword_query");
    let has_minimal = variants.iter().any(|variant| variant.source == "minimal_keywords_only");
    let has_memory = variants.iter().any(|variant| variant.source == "learned_memory");

    assert!(has_primary);
    assert!(has_focus);
    assert!(has_short);
    assert!(has_minimal);
    assert!(has_memory);
}

#[test]
fn datagouv_memory_parse_round_trip_works() {
    let _profile = ProjectProfile::default();
    let message = GmailMessage {
        message_id: "mid-3".to_string(),
        thread_id: "tid-3".to_string(),
        from: Some("user@example.com".to_string()),
        to: Some("agent@example.com".to_string()),
        subject: Some("marianneai: company data".to_string()),
        date: None,
        snippet: Some("Need company stats".to_string()),
        plain_text_body: None,
        html_body: None,
        label_ids: vec![],
    };
    let classification = EmailClassification {
        related_to_project: true,
        category: "dataset request".to_string(),
        confidence_bits: 0.9f32.to_bits(),
        public_data_relevance: true,
        reasoning: "clear request".to_string(),
    };
    let intent = EmailIntent {
        task_title: "Company data".to_string(),
        intent_summary: "Get public company reference data".to_string(),
        requested_outcome: "Find company information".to_string(),
        task_description: "Get company list".to_string(),
        requester_identity: Some("user@example.com".to_string()),
        key_entities: vec!["company".to_string(), "SIREN".to_string()],
        actionable: true,
        missing_information: vec![],
    };
    let response = "Useful output from datagouv";
    let chosen_variant = DatagouvQueryCandidate { source: "minimal_keywords_only", query: "French public data".to_string() };
    let entry = build_datagouv_memory_entry(&message, &classification, &intent, &chosen_variant, response);
    assert!(entry.contains("source=minimal_keywords_only"));
    assert!(entry.contains("company"));

    // The memory file is the empty file with the entry appended.
    let content = memory_file_addition("", &entry);
    let hints = memory_hints(&content);
    assert!(!hints.is_empty());
    assert!(hints[0].contains("french public data"));
}
