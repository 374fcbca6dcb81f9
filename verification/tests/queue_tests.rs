use email_interface::queue::sanitize_identifier;

#[test]
fn accepts_safe_table_names() {
    assert_eq!(sanitize_identifier("job_queue_2026").expect("identifier should be valid"), "job_queue_2026");
}

#[test]
fn rejects_unsafe_table_names() {
    assert!(sanitize_identifier("job-queue").is_err());
}
