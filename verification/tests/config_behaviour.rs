use email_interface::clock::{clamp_micros, clamp_micros_before, now_micros, EARLIEST_MICROS, LATEST_MICROS};
use email_interface::agentic::errors::AgentError;
use email_interface::config::{
    check_gemini_key, check_runtime_access, force_remote_flag, is_local_datagouv_endpoint,
    local_mcp_endpoint, local_mcp_host, local_mcp_port, mcp_tool_setting, mission_objective, nonblank,
    nonblank_or, number_setting, parse_unsigned, pick_gemini_model, select_datagouv_mcp_endpoint,
    setting_value,
};
use email_interface::types::QueueBackendKind;

#[test]
fn parses_numbers_as_the_standard_library_does() {
    assert_eq!(parse_unsigned("42", 100), Some(42));
    assert_eq!(parse_unsigned("+42", 100), Some(42));
    assert_eq!(parse_unsigned("007", 100), Some(7));
    assert_eq!(parse_unsigned("", 100), None);
    assert_eq!(parse_unsigned("+", 100), None);
    assert_eq!(parse_unsigned("-1", 100), None);
    assert_eq!(parse_unsigned("12a", 100), None);
    assert_eq!(parse_unsigned(" 12", 100), None);
    assert_eq!(parse_unsigned("101", 100), None);
    assert_eq!(parse_unsigned("18446744073709551615", u64::MAX), Some(u64::MAX));
    assert_eq!(parse_unsigned("18446744073709551616", u64::MAX), None);
    assert_eq!(parse_unsigned("99999999999999999999999", u64::MAX), None);
}

#[test]
fn reads_number_and_port_settings() {
    assert_eq!(number_setting(Some("45".to_string()), 30), 45);
    assert_eq!(number_setting(Some(" 45".to_string()), 30), 30);
    assert_eq!(number_setting(None, 30), 30);
    assert_eq!(local_mcp_port(Some(" 8080 ".to_string())), 8080);
    assert_eq!(local_mcp_port(Some("70000".to_string())), 8000);
    assert_eq!(local_mcp_port(None), 8000);
}

#[test]
fn reads_text_settings() {
    assert_eq!(setting_value(Some("  v  ".to_string())), Some("v".to_string()));
    assert_eq!(setting_value(Some("   ".to_string())), None);
    assert_eq!(local_mcp_host(None), "127.0.0.1");
    assert_eq!(local_mcp_host(Some("  mcp.local ".to_string())), "mcp.local");
    assert_eq!(mcp_tool_setting(Some("  ".to_string())), "search_datasets");
    assert_eq!(mcp_tool_setting(Some(" find ".to_string())), "find");
    assert_eq!(nonblank_or(Some(" m ".to_string()), "d"), " m ");
    assert_eq!(nonblank_or(Some("  ".to_string()), "d"), "d");
}

#[test]
fn builds_the_local_endpoint_url() {
    assert_eq!(local_mcp_endpoint("127.0.0.1", 8000), "http://127.0.0.1:8000/mcp");
    assert_eq!(local_mcp_endpoint("mcp", 0), "http://mcp:0/mcp");
}

#[test]
fn reads_the_force_remote_flag() {
    assert!(force_remote_flag(Some("TRUE".to_string())));
    assert!(force_remote_flag(Some("1".to_string())));
    assert!(force_remote_flag(Some("Yes".to_string())));
    assert!(!force_remote_flag(Some("no".to_string())));
    assert!(!force_remote_flag(None));
}

#[test]
fn recognizes_local_endpoints() {
    assert!(is_local_datagouv_endpoint("http://localhost:8000/mcp"));
    assert!(is_local_datagouv_endpoint("http://[::1]:8000/mcp"));
    assert!(is_local_datagouv_endpoint("http://127.0.0.1/mcp"));
    assert!(!is_local_datagouv_endpoint("https://mcp.data.gouv.fr/mcp"));
}

#[test]
fn chooses_endpoints_among_those_offered() {
    let remote = Some("https://mcp.data.gouv.fr/mcp".to_string());
    let local = Some("http://127.0.0.1:8000/mcp".to_string());
    assert_eq!(select_datagouv_mcp_endpoint(None, local.clone(), false), local);
    assert_eq!(select_datagouv_mcp_endpoint(remote.clone(), None, false), remote);
    assert_eq!(select_datagouv_mcp_endpoint(None, local.clone(), true), None);
    assert_eq!(select_datagouv_mcp_endpoint(None, None, false), None);
}

#[test]
fn picks_the_gemini_model() {
    assert_eq!(pick_gemini_model("  ", "f", None), "gemini-2.5-flash");
    assert_eq!(pick_gemini_model("p", " f ", Some(" True ".to_string())), "f");
    assert_eq!(pick_gemini_model("p", "  ", Some("1".to_string())), "p");
    assert_eq!(pick_gemini_model(" p ", "f", Some("yes".to_string())), "p");
    assert_eq!(pick_gemini_model(" p ", "f", None), "p");
}

#[test]
fn checks_runtime_access() {
    match check_runtime_access("gws", false, true, true, true) {
        Err(AgentError::Context(m)) => assert_eq!(
            m,
            "Missing Google Workspace CLI command `gws`. Install `gws` or set GWS_BIN or GMAIL_CLI_COMMAND to a valid command."
        ),
        other => panic!("unexpected {other:?}"),
    }
    match check_runtime_access("gws", true, true, false, false) {
        Err(AgentError::Context(m)) => assert!(m.starts_with("OAuth client config not found.")),
        other => panic!("unexpected {other:?}"),
    }
    assert!(check_runtime_access("gws", true, false, false, true).is_ok());
    assert!(check_runtime_access("gws", true, true, true, false).is_ok());
}

#[test]
fn requires_the_gemini_key() {
    assert!(check_gemini_key(true).is_ok());
    assert!(matches!(check_gemini_key(false), Err(AgentError::Context(_))));
}

#[test]
fn names_the_queue_backend_in_the_objective() {
    assert_eq!(
        mission_objective(QueueBackendKind::Postgres),
        "Read recent Gmail messages, find the ones related to MarianneAI, extract sender intent, and queue valid tasks to Postgres."
    );
    assert!(mission_objective(QueueBackendKind::Disabled).ends_with("to None."));
}

#[test]
fn sends_an_api_key_only_when_it_is_not_blank() {
    assert_eq!(nonblank(Some(" key ")), Some(" key "));
    assert_eq!(nonblank(Some("  ")), None);
    assert_eq!(nonblank(None), None);
}

#[test]
fn clock_readings_stay_renderable() {
    assert_eq!(LATEST_MICROS, 253_402_300_799_999_999);
    assert_eq!(clamp_micros(0), 0);
    assert_eq!(clamp_micros(1_700_000_000_000_000), 1_700_000_000_000_000);
    assert_eq!(clamp_micros(u128::MAX), LATEST_MICROS);
    assert_eq!(EARLIEST_MICROS, -62_167_219_200_000_000);
    assert_eq!(clamp_micros_before(0), 0);
    assert_eq!(clamp_micros_before(86_400_000_000), -86_400_000_000);
    assert_eq!(clamp_micros_before(u128::MAX), EARLIEST_MICROS);
    let now = now_micros();
    assert!(now > 1_600_000_000_000_000 && now <= LATEST_MICROS);
}
