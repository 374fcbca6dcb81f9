use email_interface::queue::{insert_row, sanitize_identifier, PostgresQueueWriter, QueueError, TaskQueueWriter};
use email_interface::types::{EmailClassification, EmailIntent, GmailMessage, QueueBackendKind, TaskAssessment};

#[test]
fn explains_rejected_table_names() {
    match sanitize_identifier("") {
        Err(QueueError::InvalidConfig(m)) => assert_eq!(m, "queue table name cannot be empty"),
        other => panic!("unexpected {other:?}"),
    }
    match sanitize_identifier("jobs; drop") {
        Err(QueueError::InvalidConfig(m)) => assert_eq!(m, "queue table name `jobs; drop` contains unsupported characters"),
        other => panic!("unexpected {other:?}"),
    }
}

#[test]
fn configures_the_postgres_writer() {
    match PostgresQueueWriter::from_settings(None, None) {
        Err(QueueError::MissingEnv(name)) => assert_eq!(name, "POSTGRES_DSN"),
        _ => panic!("expected a missing setting"),
    }
    let writer = PostgresQueueWriter::from_settings(Some("postgres://db".to_string()), None).expect("writer");
    assert_eq!(writer.table_name(), "job_queue");
    assert_eq!(writer.connection_string(), "postgres://db");
    assert!(writer.ensure_table_sql().starts_with("CREATE TABLE IF NOT EXISTS job_queue (\n"));
    assert!(writer.insert_sql().starts_with("INSERT INTO job_queue (\n"));
    assert!(writer.insert_sql().ends_with("RETURNING id::text"));
    assert!(PostgresQueueWriter::from_settings(Some("d".to_string()), Some("bad-name".to_string())).is_err());
}

#[test]
fn records_a_stored_row() {
    let writer = PostgresQueueWriter::from_settings(Some("d".to_string()), Some("jobs".to_string())).expect("writer");
    let record = writer.queued_record("17".to_string());
    assert_eq!(record.backend, QueueBackendKind::Postgres);
    assert_eq!(record.status, "queued");
    assert_eq!(record.external_id.as_deref(), Some("17"));
    assert_eq!(record.location.as_deref(), Some("jobs#17"));
    assert_eq!(record.error, None);
}

#[test]
fn selects_the_writer_for_a_backend() {
    assert!(matches!(TaskQueueWriter::from_backend(QueueBackendKind::Disabled, None, None), Ok(TaskQueueWriter::Disabled)));
    assert!(TaskQueueWriter::from_backend(QueueBackendKind::Postgres, None, None).is_err());
    match TaskQueueWriter::from_backend(QueueBackendKind::Postgres, None, Some("jobs".to_string())) {
        Err(QueueError::MissingEnv(name)) => assert_eq!(name, "POSTGRES_DSN"),
        _ => panic!("expected a missing setting"),
    }
    assert!(matches!(
        TaskQueueWriter::from_backend(QueueBackendKind::Postgres, Some("postgres://x".to_string()), Some("bad name".to_string())),
        Err(QueueError::InvalidConfig(_))
    ));
    let record = TaskQueueWriter::disabled_record();
    assert_eq!(record.status, "not_persisted");
    assert_eq!(record.error.as_deref(), Some("QUEUE_BACKEND=none"));
}

#[test]
fn binds_the_row_values() {
    let message = GmailMessage {
        message_id: "m".to_string(),
        thread_id: "t".to_string(),
        from: None,
        to: None,
        subject: None,
        date: None,
        snippet: None,
        plain_text_body: None,
        html_body: None,
        label_ids: vec![],
    };
    let classification = EmailClassification {
        related_to_project: true,
        category: "demo_request".to_string(),
        confidence_bits: 0.5f32.to_bits(),
        public_data_relevance: false,
        reasoning: "r".to_string(),
    };
    let intent = EmailIntent {
        task_title: "T".to_string(),
        intent_summary: "S".to_string(),
        requested_outcome: "O".to_string(),
        task_description: "D".to_string(),
        requester_identity: Some("a@x.org".to_string()),
        key_entities: vec![],
        actionable: true,
        missing_information: vec![],
    };
    let assessment = TaskAssessment {
        should_queue: true,
        needs_human_review: true,
        clarity_score: 77,
        priority: "high".to_string(),
        rationale: "ok".to_string(),
        missing_information: vec![],
    };
    let row = insert_row(&message, &classification, &intent, &assessment);
    assert_eq!(row.source, "gmail");
    assert_eq!(row.subject, "(no subject)");
    assert_eq!(row.clarity_score, 77);
    assert_eq!(row.requester_email.as_deref(), Some("a@x.org"));
    assert_eq!(row.category, "demo_request");
    assert!(row.needs_human_review);
}

#[test]
fn words_queue_errors_for_the_user() {
    assert_eq!(QueueError::MissingEnv("POSTGRES_DSN".to_string()).message(), "missing required environment variable `POSTGRES_DSN`");
    assert_eq!(QueueError::Postgres("down".to_string()).message(), "Postgres operation failed: down");
}
