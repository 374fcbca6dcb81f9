use email_interface::agentic::errors::AgentError;
use email_interface::agentic::mission::{apply_turn, default_max_steps, may_continue, record_failure, MissionStep};
use email_interface::agentic::replies::build_funny_fallback_message;
use email_interface::agentic::report::{build_report, Auditor};
use email_interface::agentic::responders::{
    finish_reply, hold_for_review, judge_variant, release_for_sending, search_failure_reason, search_fallback,
    AnswerResponder, AnswerStep, DatagouvResponder, DatagouvStep, Delivery, ReviewedDraft, SendOutcome,
    VariantVerdict,
};
use email_interface::agentic::search::{compose_query_keywords, normalize_subject_query};
use email_interface::agentic::specialists::{classification_prompt, record_classification, record_validation, MailboxReader};
use email_interface::agentic::supervisor::TurnResult;
use email_interface::gmail::{GmailClient, GmailError, SentMessage};
use email_interface::types::{
    EmailClassification, EmailIntent, EmailResponseRecord, GlobalContext, GmailMessage, ProcessedEmail,
    ProjectProfile, QueueBackendKind, QueuedJobRecord, TaskAssessment,
};

fn message(from: Option<&str>) -> GmailMessage {
    GmailMessage {
        message_id: "m-1".to_string(),
        thread_id: "t-1".to_string(),
        from: from.map(|f| f.to_string()),
        to: None,
        subject: Some("Budget data".to_string()),
        date: None,
        snippet: None,
        plain_text_body: Some("Where is the budget dataset?".to_string()),
        html_body: None,
        label_ids: vec![],
    }
}

fn classification(related: bool) -> EmailClassification {
    EmailClassification {
        related_to_project: related,
        category: "dataset_request".to_string(),
        confidence_bits: 0.9f32.to_bits(),
        public_data_relevance: true,
        reasoning: "r".to_string(),
    }
}

fn intent() -> EmailIntent {
    EmailIntent {
        task_title: "Budget".to_string(),
        intent_summary: "find budget data".to_string(),
        requested_outcome: "dataset".to_string(),
        task_description: "budget dataset".to_string(),
        requester_identity: None,
        key_entities: vec!["budget".to_string()],
        actionable: true,
        missing_information: vec![],
    }
}

fn assessment(should_queue: bool, review: bool) -> TaskAssessment {
    TaskAssessment {
        should_queue,
        needs_human_review: review,
        clarity_score: 80,
        priority: "normal".to_string(),
        rationale: "ok".to_string(),
        missing_information: vec![],
    }
}

fn staged_context(from: Option<&str>) -> GlobalContext {
    let mut ctx = GlobalContext::new("o".to_string(), "q".to_string(), 5, QueueBackendKind::Disabled);
    ctx.mailbox_loaded = true;
    ctx.emails = vec![message(from)];
    ctx.current_classification = Some(classification(true));
    ctx.current_intent = Some(intent());
    ctx.current_validation = Some(assessment(true, false));
    ctx
}

fn delivery(endpoint: Option<&str>, body: &str) -> Delivery {
    Delivery {
        recipient: "a@x.org".to_string(),
        subject: "Re: Budget data".to_string(),
        thread_id: "t-1".to_string(),
        body: body.to_string(),
        endpoint: endpoint.map(|e| e.to_string()),
        fallback_reason: None,
    }
}

fn sent() -> SentMessage {
    SentMessage { message_id: Some("s-1".to_string()), thread_id: Some("t-1".to_string()), label_ids: vec![] }
}

#[test]
fn records_a_reply_that_went_out() {
    match delivery(Some("https://answers"), "Here is the data").after_send(Ok(sent())) {
        SendOutcome::Sent(record) => {
            assert_eq!(record.status, "sent");
            assert_eq!(record.sent_message_id.as_deref(), Some("s-1"));
            assert_eq!(record.response_preview.as_deref(), Some("Here is the data"));
            assert_eq!(record.error, None);
        }
        _ => panic!("expected a sent record"),
    }
    match delivery(None, "busy").after_send(Ok(sent())) {
        SendOutcome::Sent(record) => assert_eq!(record.status, "sent_without_endpoint"),
        _ => panic!("expected a sent record"),
    }
}

#[test]
fn retries_a_failed_service_reply_with_a_fallback() {
    let failed = Err(GmailError::CommandFailed("quota".to_string()));
    match delivery(Some("https://answers"), "Here is the data").after_send(failed) {
        SendOutcome::Retry { fallback_body, primary_error } => {
            assert_eq!(
                fallback_body,
                build_funny_fallback_message(Some("generated content could not be delivered"), "email sending layer")
            );
            assert!(matches!(primary_error, GmailError::CommandFailed(_)));
        }
        _ => panic!("expected a retry"),
    }
}

#[test]
fn gives_up_on_a_failed_holding_reply() {
    let busy = build_funny_fallback_message(None, "answering service");
    let failed = Err(GmailError::EmptyOutput);
    assert!(matches!(
        delivery(Some("https://answers"), &busy).after_send(failed),
        SendOutcome::Failed(AgentError::Gmail(GmailError::EmptyOutput))
    ));
    let failed = Err(GmailError::EmptyOutput);
    assert!(matches!(delivery(None, "text").after_send(failed), SendOutcome::Failed(AgentError::Gmail(_))));
}

#[test]
fn records_the_fallback_send() {
    let d = delivery(Some("https://answers"), "Here is the data");
    let record = d.after_fallback("sorry", "quota", Ok(sent())).expect("record");
    assert_eq!(record.status, "sent_fallback");
    assert_eq!(record.error.as_deref(), Some("primary send failed (quota), fallback sent instead"));
    assert_eq!(record.response_preview.as_deref(), Some("sorry"));
    assert!(matches!(d.after_fallback("sorry", "quota", Err(GmailError::EmptyOutput)), Err(AgentError::Gmail(_))));
}

#[test]
fn finishes_a_reply_and_moves_on() {
    let ctx = staged_context(Some("a@x.org"));
    let record = EmailResponseRecord::failed("send_failed", None, "a@x.org".to_string(), "s".to_string(), "e");
    match finish_reply(ctx, record, "Response attempt complete.") {
        TurnResult::Delegate { target_agent, new_context, .. } => {
            assert_eq!(target_agent, "supervisor");
            assert_eq!(new_context.current_email_index, 1);
            assert_eq!(new_context.reviewed_emails[0].disposition, "reviewed");
            assert!(new_context.current_response.is_none());
        }
        _ => panic!("expected a delegation"),
    }
}

#[test]
fn answers_without_endpoint_with_a_holding_reply() {
    match AnswerResponder::new().plan(staged_context(Some("Ann <a@x.org>"))) {
        Ok(AnswerStep::Draft { context, delivery }) => {
            assert_eq!(delivery.recipient, "a@x.org");
            assert_eq!(delivery.subject, "Re: Budget data");
            assert_eq!(delivery.endpoint, None);
            assert_eq!(delivery.fallback_reason.as_deref(), Some("No answer endpoint configured"));
            assert_eq!(
                context.conversation_history.last().map(String::as_str),
                Some("AnswerResponder: no endpoint configured, using temporary busy reply")
            );
        }
        _ => panic!("expected a draft step"),
    }
}

#[test]
fn skips_replies_without_a_sender_address() {
    match AnswerResponder::new().plan(staged_context(Some("no address"))) {
        Ok(AnswerStep::Done(TurnResult::Delegate { instruction, new_context, .. })) => {
            assert_eq!(instruction, "Response skipped due to missing sender address.");
            let record = new_context.reviewed_emails[0].response.as_ref().expect("record");
            assert_eq!(record.status, "failed_no_recipient");
            assert_eq!(new_context.reviewed_emails[0].disposition, "response_skipped");
        }
        _ => panic!("expected a finished turn"),
    }
    let mut ctx = staged_context(Some("a@x.org"));
    ctx.current_intent = None;
    match AnswerResponder::new().plan(ctx) {
        Err(AgentError::Context(m)) => assert_eq!(m, "response requires extracted intent"),
        _ => panic!("expected a context error"),
    }
}

#[test]
fn skips_datagouv_answers_without_endpoint() {
    match DatagouvResponder::new().plan(staged_context(Some("a@x.org"))) {
        Ok(DatagouvStep::Done(TurnResult::Delegate { instruction, new_context, .. })) => {
            assert_eq!(instruction, "Datagouv responder skipped because DATAGOUV_MCP_ENDPOINT is not configured.");
            let record = new_context.reviewed_emails[0].response.as_ref().expect("record");
            assert_eq!(record.status, "datagouv_skipped");
        }
        _ => panic!("expected a finished turn"),
    }
    let mut ctx = staged_context(Some("a@x.org"));
    ctx.datagouv_mcp_endpoint = Some("http://127.0.0.1:8000/mcp".to_string());
    assert!(matches!(DatagouvResponder::new().plan(ctx), Ok(DatagouvStep::Search { .. })));
}

#[test]
fn judges_datagouv_replies() {
    let mut ctx = staged_context(Some("a@x.org"));
    assert!(matches!(
        judge_variant(&mut ctx, "focus_query", Ok("Dataset: budget 2024".to_string())),
        VariantVerdict::Usable(_)
    ));
    match judge_variant(&mut ctx, "focus_query", Ok("No datasets found for query: x".to_string())) {
        VariantVerdict::Unusable(reason) => assert!(reason.starts_with("candidate response was empty/error-like for source focus_query")),
        _ => panic!("expected an unusable verdict"),
    }
    match judge_variant(&mut ctx, "focus_query", Err("timeout".to_string())) {
        VariantVerdict::Unusable(reason) => assert_eq!(reason, "query variant [focus_query] failed with timeout"),
        _ => panic!("expected an unusable verdict"),
    }
    assert_eq!(search_failure_reason(None), "no usable candidate was returned");
    let body = search_fallback(&mut ctx, "all failed");
    assert_eq!(body, build_funny_fallback_message(Some("Datagouv MCP did not return a useful result."), "Datagouv MCP"));
}

fn processed(related: bool, queued: Option<&str>, response: Option<&str>, review: bool) -> ProcessedEmail {
    ProcessedEmail {
        message: message(Some("a@x.org")),
        classification: classification(related),
        intent: None,
        assessment: Some(assessment(queued.is_some(), review)),
        queued_job: queued.map(|status| QueuedJobRecord {
            backend: QueueBackendKind::Postgres,
            status: status.to_string(),
            external_id: None,
            location: None,
            queued_at: 0,
            error: None,
        }),
        response: response.map(|status| {
            EmailResponseRecord::completed(status, None, "a@x.org".to_string(), "s".to_string(), None)
        }),
        disposition: "reviewed".to_string(),
    }
}

#[test]
fn reports_and_summarizes_the_mission() {
    let mut ctx = GlobalContext::new("o".to_string(), "q".to_string(), 5, QueueBackendKind::Postgres);
    ctx.reviewed_emails = vec![
        processed(true, Some("queued"), Some("sent"), false),
        processed(true, Some("persistence_failed"), Some("send_failed"), true),
        processed(false, None, None, false),
    ];
    match Auditor.run_turn(ctx.clone()) {
        TurnResult::FinalResult(summary) => assert_eq!(
            summary,
            "Processed 3 email(s): 2 related to MarianneAI, 1 persisted to the Postgres queue backend, 1 still need human review."
        ),
        _ => panic!("expected the final result"),
    }
    let report = build_report(ctx);
    assert_eq!(report.related_count, 2);
    assert_eq!(report.queueable_count, 2);
    assert_eq!(report.persisted_count, 1);
    assert_eq!(report.response_attempt_count, 2);
    assert_eq!(report.responded_count, 1);
}

#[test]
fn counts_each_mission_step() {
    let ctx = GlobalContext::new("o".to_string(), "q".to_string(), 5, QueueBackendKind::Disabled);
    assert!(may_continue(&ctx, default_max_steps()));
    let turn = TurnResult::Delegate {
        target_agent: "mailbox_reader".to_string(),
        instruction: "Load".to_string(),
        new_context: ctx.clone(),
    };
    match apply_turn(ctx.clone(), "supervisor", turn) {
        MissionStep::Continue { context, next_agent } => {
            assert_eq!(next_agent, "mailbox_reader");
            assert_eq!(context.step_count, 1);
            assert_eq!(
                context.conversation_history.last().map(String::as_str),
                Some("SYSTEM: supervisor delegated to mailbox_reader with instruction: Load")
            );
        }
        _ => panic!("expected to continue"),
    }
    match apply_turn(ctx.clone(), "auditor", TurnResult::FinalResult("done".to_string())) {
        MissionStep::Finished { summary, report } => {
            assert_eq!(summary, "done");
            assert_eq!(report.objective, "o");
        }
        _ => panic!("expected the end"),
    }
    let mut failing = ctx;
    record_failure(&mut failing, "queue_writer", "boom");
    assert_eq!(failing.conversation_history.last().map(String::as_str), Some("SYSTEM: queue_writer failed: boom"));
    failing.step_count = default_max_steps();
    assert!(!may_continue(&failing, default_max_steps()));
}

#[test]
fn loads_the_mailbox_and_records_verdicts() {
    let ctx = GlobalContext::new("o".to_string(), "budget".to_string(), 5, QueueBackendKind::Disabled);
    let reader = MailboxReader::new(GmailClient);
    let ctx = match reader.take_messages(ctx, vec![message(Some("a@x.org"))]) {
        TurnResult::Delegate { instruction, new_context, .. } => {
            assert_eq!(instruction, "Mailbox loaded.");
            assert!(new_context.mailbox_loaded);
            assert_eq!(
                new_context.conversation_history.last().map(String::as_str),
                Some("MailboxReader: loaded 1 email(s) for query `budget`")
            );
            new_context
        }
        _ => panic!("expected a delegation"),
    };
    match record_classification(ctx, classification(true), "0.90") {
        TurnResult::Delegate { new_context, .. } => {
            let history = &new_context.conversation_history;
            assert_eq!(
                history[history.len() - 2],
                "RelevanceClassifier: evaluating email from Some(\"a@x.org\") subject=Some(\"Budget data\")"
            );
            assert_eq!(
                history[history.len() - 1],
                "RelevanceClassifier: related=true category=dataset_request confidence=0.90"
            );
        }
        _ => panic!("expected a delegation"),
    }
}

#[test]
fn builds_the_classification_prompt() {
    let prompt = classification_prompt(&ProjectProfile::default(), &message(Some("a@x.org")));
    assert!(prompt.starts_with("PROJECT\nname: MarianneAI\n"));
    assert!(prompt.contains("\nfrom: Some(\"a@x.org\")\nsubject: Some(\"Budget data\")\ndate: None\nbody:\nWhere is the budget dataset?"));
}

#[test]
fn lowercases_query_keywords() {
    assert_eq!(compose_query_keywords(&["Budget DATA and Transport", "budget"]), "budget data transport");
}

#[test]
fn strips_every_reply_marker() {
    assert_eq!(normalize_subject_query("RE:Fwd: SV:  Tr: data  sets"), "data sets");
    assert_eq!(normalize_subject_query("Re:"), "");
    assert_eq!(normalize_subject_query("Rebate: data"), "Rebate: data");
}

#[test]
fn asks_the_answer_service_about_the_citizen_question() {
    let mut ctx = staged_context(Some("Ann <a@x.org>"));
    ctx.emails[0].plain_text_body = Some("  Where is the \"budget\" dataset?\n".to_string());
    ctx.answer_endpoint = Some("https://answers.example/query".to_string());
    match AnswerResponder::new().plan(ctx) {
        Ok(AnswerStep::Generate { pending, endpoint, request, .. }) => {
            assert_eq!(endpoint, "https://answers.example/query");
            assert_eq!(request, "{\"query\":\"Where is the \\\"budget\\\" dataset?\"}");
            assert_eq!(pending.recipient, "a@x.org");
        }
        _ => panic!("expected a generation step"),
    }
}

#[test]
fn holds_a_reply_for_review_without_sending() {
    let ctx = staged_context(Some("a@x.org"));
    let d = Delivery {
        fallback_reason: Some("answer endpoint failed: timeout".to_string()),
        ..delivery(Some("https://answers"), "Here is the data")
    };
    match hold_for_review(ctx, &d, "Response drafted for review.") {
        TurnResult::Delegate { target_agent, instruction, new_context } => {
            assert_eq!(target_agent, "supervisor");
            assert_eq!(instruction, "Response drafted for review.");
            let reviewed = &new_context.reviewed_emails[0];
            assert_eq!(reviewed.disposition, "reviewed");
            let record = reviewed.response.as_ref().expect("record");
            assert_eq!(record.status, "draft_pending_review");
            assert_eq!(record.sent_message_id, None);
            assert_eq!(record.sent_thread_id, None);
            assert_eq!(record.recipient, "a@x.org");
            assert_eq!(record.endpoint.as_deref(), Some("https://answers"));
            assert_eq!(record.response_preview.as_deref(), Some("Here is the data"));
            assert_eq!(record.error.as_deref(), Some("answer endpoint failed: timeout"));
            assert_eq!(new_context.current_email_index, 1);
        }
        _ => panic!("expected a delegation"),
    }
}

#[test]
fn releases_only_approved_drafts() {
    let held = ReviewedDraft { draft: delivery(None, "text"), approved: false };
    assert!(release_for_sending(held).is_none());
    let approved = ReviewedDraft { draft: delivery(None, "text"), approved: true };
    let released = release_for_sending(approved).expect("released");
    assert_eq!(released.body, "text");
    assert_eq!(released.recipient, "a@x.org");
}

#[test]
fn normalizing_a_subject_twice_changes_nothing() {
    for subject in ["Re: FW: marianneai: Budget\r\n  public   data", "  re:re:  Fwd: x ", "Tr: SV: Ref:", "plain"] {
        let once = normalize_subject_query(subject);
        assert_eq!(normalize_subject_query(&once), once);
        assert_eq!(once.split_whitespace().collect::<Vec<_>>().join(" "), once);
    }
}

#[test]
fn holds_the_clarity_score_within_its_range() {
    let mut ctx = staged_context(Some("a@x.org"));
    ctx.current_validation = None;
    let mut a = assessment(true, false);
    a.clarity_score = 150;
    match record_validation(ctx, a) {
        TurnResult::Delegate { instruction, new_context, .. } => {
            assert_eq!(instruction, "Task validation complete.");
            assert_eq!(new_context.current_validation.as_ref().expect("validation").clarity_score, 100);
            assert_eq!(
                new_context.conversation_history.last().map(String::as_str),
                Some("TaskValidator: should_queue=true clarity_score=100")
            );
        }
        _ => panic!("expected a delegation"),
    }
    let ctx = staged_context(Some("a@x.org"));
    match record_validation(ctx, assessment(true, false)) {
        TurnResult::Delegate { new_context, .. } => {
            assert_eq!(new_context.current_validation.as_ref().expect("validation").clarity_score, 80);
        }
        _ => panic!("expected a delegation"),
    }
}
