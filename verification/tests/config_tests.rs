use email_interface::config::select_datagouv_mcp_endpoint;

#[test]
fn keeps_configured_local_when_set_explicitly() {
    let configured = Some("http://127.0.0.1:8001/mcp".to_string());
    let local = Some("http://127.0.0.1:8000/mcp".to_string());
    let actual = select_datagouv_mcp_endpoint(configured.clone(), local, false);
    assert_eq!(actual, configured);
}

#[test]
fn prefers_local_over_remote_by_default() {
    let configured = Some("https://mcp.data.gouv.fr/mcp".to_string());
    let local = Some("http://127.0.0.1:8000/mcp".to_string());
    let actual = select_datagouv_mcp_endpoint(configured, local.clone(), false);
    assert_eq!(actual, local);
}

#[test]
fn force_remote_keeps_configured_value() {
    let configured = Some("https://mcp.data.gouv.fr/mcp".to_string());
    let local = Some("http://127.0.0.1:8000/mcp".to_string());
    let actual = select_datagouv_mcp_endpoint(configured.clone(), local, true);
    assert_eq!(actual, configured);
}
