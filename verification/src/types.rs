//! Domain types of the triage pipeline: messages, the specialists' verdicts,
//! queue and reply records, and the shared blackboard passed between agents.

use crate::text::{
    ascii_lowercase, ascii_lowercase_chars, chars_of, eq_lit, trim, trim_chars,
};
use crate::clock::now_micros;
use vstd::prelude::*;
use vstd::string::StringExecFns;

verus! {

/// Supported queue persistence targets.
#[derive(Clone, Copy, Debug, PartialEq, Eq, Structural)]
pub enum QueueBackendKind {
    /// Do not persist queue entries. Useful for dry runs or local validation.
    Disabled,
    /// Persist queue entries to PostgreSQL on GCP.
    Postgres,
}

impl Default for QueueBackendKind {
    fn default() -> (r: Self)
        ensures
            r == QueueBackendKind::Disabled,
    {
        QueueBackendKind::Disabled
    }
}

/// The backend a `QUEUE_BACKEND` setting selects: `postgres` or `postgresql`
/// in any ASCII case, `none` for anything else or when unset.
pub open spec fn backend_for_setting(value: Option<Seq<char>>) -> QueueBackendKind {
    let v = ascii_lowercase(
        match value {
            Some(s) => s,
            None => "none"@,
        },
    );
    if v == "postgres"@ || v == "postgresql"@ {
        QueueBackendKind::Postgres
    } else {
        QueueBackendKind::Disabled
    }
}

/// The name under which a backend is reported.
pub open spec fn backend_label(kind: QueueBackendKind) -> Seq<char> {
    match kind {
        QueueBackendKind::Disabled => "None"@,
        QueueBackendKind::Postgres => "Postgres"@,
    }
}

impl QueueBackendKind {
    /// Interprets the value of the `QUEUE_BACKEND` setting.
    pub fn from_setting(value: Option<&str>) -> (r: Self)
        ensures
            r == backend_for_setting(
                match value {
                    Some(s) => Some(s@),
                    None => None,
                },
            ),
    {
        let raw = match value {
            Some(s) => chars_of(s),
            None => chars_of("none"),
        };
        let v = ascii_lowercase_chars(raw.as_slice());
        if eq_lit(v.as_slice(), "postgres") || eq_lit(v.as_slice(), "postgresql") {
            QueueBackendKind::Postgres
        } else {
            QueueBackendKind::Disabled
        }
    }

    /// The backend's name as reports print it.
    pub fn label(&self) -> (r: String)
        ensures
            r@ == backend_label(*self),
    {
        match self {
            QueueBackendKind::Disabled => String::from_str("None"),
            QueueBackendKind::Postgres => String::from_str("Postgres"),
        }
    }
}

/// Project-level relevance profile for MarianneAI.
#[derive(Clone, Debug)]
pub struct ProjectProfile {
    /// Product name.
    pub name: String,
    /// High-level description.
    pub about: String,
    /// Public website.
    pub website: String,
    /// Phrases that usually indicate a relevant inbound email.
    pub relevance_hints: Vec<String>,
    /// Conditions for a task to be clear enough for queue insertion.
    pub valid_task_criteria: Vec<String>,
}

/// The views of a list of strings.
pub open spec fn string_views(v: Seq<String>) -> Seq<Seq<char>> {
    v.map_values(|s: String| s@)
}

/// The built-in MarianneAI profile.
pub open spec fn is_default_profile(p: ProjectProfile) -> bool {
    &&& p.name@ == "MarianneAI"@
    &&& p.about@ == "L\u{2019}IA citoyenne pour comprendre les donn\u{e9}es publiques."@
    &&& p.website@ == "https://marianneai.org/"@
    &&& string_views(p.relevance_hints@) == seq![
        "questions about French public data"@,
        "feature requests for MarianneAI"@,
        "bug reports or operational problems"@,
        "partnership, pilot, or demo inquiries"@,
        "requests to analyze or explain public datasets"@,
    ]
    &&& string_views(p.valid_task_criteria@) == seq![
        "the sender intent is specific and actionable"@,
        "there is enough detail to route work without guessing core requirements"@,
        "the request relates to MarianneAI or its public-data mission"@,
        "the email includes enough context to create a job queue item"@,
    ]
}

impl Default for ProjectProfile {
    /// Keep profile defaults in code so the system can be moved to a new project
    /// by implementing a single profile provider.
    fn default() -> (p: Self)
        ensures
            is_default_profile(p),
    {
        let mut relevance_hints: Vec<String> = Vec::new();
        relevance_hints.push(String::from_str("questions about French public data"));
        relevance_hints.push(String::from_str("feature requests for MarianneAI"));
        relevance_hints.push(String::from_str("bug reports or operational problems"));
        relevance_hints.push(String::from_str("partnership, pilot, or demo inquiries"));
        relevance_hints.push(String::from_str("requests to analyze or explain public datasets"));
        let mut valid_task_criteria: Vec<String> = Vec::new();
        valid_task_criteria.push(String::from_str("the sender intent is specific and actionable"));
        valid_task_criteria.push(
            String::from_str("there is enough detail to route work without guessing core requirements"),
        );
        valid_task_criteria.push(
            String::from_str("the request relates to MarianneAI or its public-data mission"),
        );
        valid_task_criteria.push(
            String::from_str("the email includes enough context to create a job queue item"),
        );
        let p = ProjectProfile {
            name: String::from_str("MarianneAI"),
            about: String::from_str("L\u{2019}IA citoyenne pour comprendre les donn\u{e9}es publiques."),
            website: String::from_str("https://marianneai.org/"),
            relevance_hints,
            valid_task_criteria,
        };
        assert(string_views(p.relevance_hints@) =~= seq![
            "questions about French public data"@,
            "feature requests for MarianneAI"@,
            "bug reports or operational problems"@,
            "partnership, pilot, or demo inquiries"@,
            "requests to analyze or explain public datasets"@,
        ]);
        assert(string_views(p.valid_task_criteria@) =~= seq![
            "the sender intent is specific and actionable"@,
            "there is enough detail to route work without guessing core requirements"@,
            "the request relates to MarianneAI or its public-data mission"@,
            "the email includes enough context to create a job queue item"@,
        ]);
        p
    }
}

/// A copy of an optional string.
pub fn clone_opt_string(o: &Option<String>) -> (r: Option<String>)
    ensures
        r == *o,
{
    match o {
        Some(s) => Some(s.clone()),
        None => None,
    }
}

/// A copy of a list of strings.
pub fn clone_strings(v: &Vec<String>) -> (r: Vec<String>)
    ensures
        r@ == v@,
{
    let mut r: Vec<String> = Vec::new();
    let mut k: usize = 0;
    while k < v.len()
        invariant
            k <= v.len(),
            r@ == v@.take(k as int),
        decreases v.len() - k,
    {
        r.push(v[k].clone());
        k += 1;
        assert(r@ =~= v@.take(k as int));
    }
    assert(v@.take(v.len() as int) =~= v@);
    r
}

/// A Gmail message normalized for the triage pipeline.
#[derive(Debug)]
pub struct GmailMessage {
    /// Immutable Gmail message id.
    pub message_id: String,
    /// Gmail thread id.
    pub thread_id: String,
    /// Sender header.
    pub from: Option<String>,
    /// Recipient header.
    pub to: Option<String>,
    /// Subject line.
    pub subject: Option<String>,
    /// RFC 2822 date header.
    pub date: Option<String>,
    /// Gmail snippet.
    pub snippet: Option<String>,
    /// Plain text body, if available.
    pub plain_text_body: Option<String>,
    /// HTML body, if available.
    pub html_body: Option<String>,
    /// Gmail labels attached to the message.
    pub label_ids: Vec<String>,
}

/// Two messages with the same headers, bodies and labels.
pub open spec fn same_message(a: GmailMessage, b: GmailMessage) -> bool {
    &&& a.message_id == b.message_id
    &&& a.thread_id == b.thread_id
    &&& a.from == b.from
    &&& a.to == b.to
    &&& a.subject == b.subject
    &&& a.date == b.date
    &&& a.snippet == b.snippet
    &&& a.plain_text_body == b.plain_text_body
    &&& a.html_body == b.html_body
    &&& a.label_ids@ == b.label_ids@
}

impl Clone for GmailMessage {
    fn clone(&self) -> (r: Self)
        ensures
            same_message(r, *self),
    {
        GmailMessage {
            message_id: self.message_id.clone(),
            thread_id: self.thread_id.clone(),
            from: clone_opt_string(&self.from),
            to: clone_opt_string(&self.to),
            subject: clone_opt_string(&self.subject),
            date: clone_opt_string(&self.date),
            snippet: clone_opt_string(&self.snippet),
            plain_text_body: clone_opt_string(&self.plain_text_body),
            html_body: clone_opt_string(&self.html_body),
            label_ids: clone_strings(&self.label_ids),
        }
    }
}

/// The text a prompt sees for a message: the plain-text body when it holds
/// more than whitespace, else the HTML body, else the snippet, else a placeholder.
pub open spec fn prompt_body_of(m: GmailMessage) -> Seq<char> {
    match m.plain_text_body {
        Some(body) if trim(body@).len() > 0 => body@,
        _ => match m.html_body {
            Some(html) => html@,
            None => match m.snippet {
                Some(snippet) => snippet@,
                None => "No message body available."@,
            },
        },
    }
}

impl GmailMessage {
    /// Returns a prompt-safe textual representation of the message body by
    /// preferring plain text, then HTML, then snippet as fallback.
    pub fn prompt_body(&self) -> (r: String)
        ensures
            r@ == prompt_body_of(*self),
    {
        if let Some(body) = &self.plain_text_body {
            let t = trim_chars(chars_of(body.as_str()).as_slice());
            if t.len() > 0 {
                return body.clone();
            }
        }
        match &self.html_body {
            Some(html) => html.clone(),
            None => match &self.snippet {
                Some(snippet) => snippet.clone(),
                None => String::from_str("No message body available."),
            },
        }
    }
}

/// Relevance classification for one email.
#[derive(Debug)]
pub struct EmailClassification {
    /// Whether the email is about MarianneAI or its mission.
    pub related_to_project: bool,
    /// High-level category such as `feature_request` or `demo_request`.
    pub category: String,
    /// Confidence score in the classification, `0.0..=1.0`, held as the bit
    /// pattern of an IEEE-754 single-precision number.
    pub confidence_bits: u32,
    /// Whether the message touches public-data workflows directly.
    pub public_data_relevance: bool,
    /// Short rationale for the decision.
    pub reasoning: String,
}

impl Clone for EmailClassification {
    fn clone(&self) -> (r: Self)
        ensures
            r == *self,
    {
        EmailClassification {
            related_to_project: self.related_to_project,
            category: self.category.clone(),
            confidence_bits: self.confidence_bits,
            public_data_relevance: self.public_data_relevance,
            reasoning: self.reasoning.clone(),
        }
    }
}

/// Extracted user intent for a relevant email.
#[derive(Debug)]
pub struct EmailIntent {
    /// Short queue-friendly task title.
    pub task_title: String,
    /// One-paragraph summary of what the sender wants.
    pub intent_summary: String,
    /// Clear statement of the requested outcome.
    pub requested_outcome: String,
    /// Queue-ready task description.
    pub task_description: String,
    /// Sender email or name if it can be inferred.
    pub requester_identity: Option<String>,
    /// Entities, datasets, or systems mentioned by the sender.
    pub key_entities: Vec<String>,
    /// Whether the request is actionable in its current form.
    pub actionable: bool,
    /// Missing details that block execution.
    pub missing_information: Vec<String>,
}

/// Two intents with the same fields.
pub open spec fn same_intent(a: EmailIntent, b: EmailIntent) -> bool {
    &&& a.task_title == b.task_title
    &&& a.intent_summary == b.intent_summary
    &&& a.requested_outcome == b.requested_outcome
    &&& a.task_description == b.task_description
    &&& a.requester_identity == b.requester_identity
    &&& a.key_entities@ == b.key_entities@
    &&& a.actionable == b.actionable
    &&& a.missing_information@ == b.missing_information@
}

impl Clone for EmailIntent {
    fn clone(&self) -> (r: Self)
        ensures
            same_intent(r, *self),
    {
        EmailIntent {
            task_title: self.task_title.clone(),
            intent_summary: self.intent_summary.clone(),
            requested_outcome: self.requested_outcome.clone(),
            task_description: self.task_description.clone(),
            requester_identity: clone_opt_string(&self.requester_identity),
            key_entities: clone_strings(&self.key_entities),
            actionable: self.actionable,
            missing_information: clone_strings(&self.missing_information),
        }
    }
}

/// Final validity decision for queue insertion.
#[derive(Debug)]
pub struct TaskAssessment {
    /// Whether a task should be inserted into the queue.
    pub should_queue: bool,
    /// Whether a human should review before action.
    pub needs_human_review: bool,
    /// Clarity score `0..=100`.
    pub clarity_score: u8,
    /// Suggested priority for the queue item.
    pub priority: String,
    /// Validation rationale.
    pub rationale: String,
    /// Missing information that prevented a stronger decision.
    pub missing_information: Vec<String>,
}

/// Two assessments with the same fields.
pub open spec fn same_assessment(a: TaskAssessment, b: TaskAssessment) -> bool {
    &&& a.should_queue == b.should_queue
    &&& a.needs_human_review == b.needs_human_review
    &&& a.clarity_score == b.clarity_score
    &&& a.priority == b.priority
    &&& a.rationale == b.rationale
    &&& a.missing_information@ == b.missing_information@
}

impl Clone for TaskAssessment {
    fn clone(&self) -> (r: Self)
        ensures
            same_assessment(r, *self),
    {
        TaskAssessment {
            should_queue: self.should_queue,
            needs_human_review: self.needs_human_review,
            clarity_score: self.clarity_score,
            priority: self.priority.clone(),
            rationale: self.rationale.clone(),
            missing_information: clone_strings(&self.missing_information),
        }
    }
}

/// The priority given to an assessment that names none.
pub fn default_priority() -> (r: String)
    ensures
        r@ == "normal"@,
{
    String::from_str("normal")
}

/// The priority an assessment reads as: the one given, or the default when
/// the field is absent or null.
pub fn priority_or_default(value: Option<String>) -> (r: String)
    ensures
        r@ == match value {
            Some(p) => p@,
            None => "normal"@,
        },
{
    match value {
        Some(p) => p,
        None => default_priority(),
    }
}

/// Persistence result for a queue-worthy email.
#[derive(Clone, Debug)]
pub struct QueuedJobRecord {
    /// Target backend.
    pub backend: QueueBackendKind,
    /// Queue status such as `queued`, `not_persisted`, or `persistence_failed`.
    pub status: String,
    /// External identifier returned by the backing store.
    pub external_id: Option<String>,
    /// Human-readable location for the created record.
    pub location: Option<String>,
    /// Time when the queue write was attempted, in microseconds since the Unix epoch (UTC).
    pub queued_at: i64,
    /// Any persistence error to surface in the report.
    pub error: Option<String>,
}

/// End-to-end result for one processed email.
#[derive(Clone, Debug)]
pub struct EmailResponseRecord {
    /// Stage status such as `skipped_no_endpoint`, `generated`, `sent`,
    /// `send_failed`, or `generation_failed`.
    pub status: String,
    /// Endpoint used to generate the response, when configured.
    pub endpoint: Option<String>,
    /// Time when the response pipeline attempted generation or sending, in
    /// microseconds since the Unix epoch (UTC).
    pub attempted_at: i64,
    /// Gmail message id for the sent response, if available.
    pub sent_message_id: Option<String>,
    /// Gmail thread id for the sent response, if available.
    pub sent_thread_id: Option<String>,
    /// Recipient address used for the outbound response.
    pub recipient: String,
    /// Subject that was used for the outbound response.
    pub subject: String,
    /// Optional short preview of the generated answer for audit traces.
    pub response_preview: Option<String>,
    /// Error details if the generation or sending step failed.
    pub error: Option<String>,
}

impl EmailResponseRecord {
    /// Create a failure record with context for the same email review path.
    pub fn failed(
        status: &str,
        endpoint: Option<String>,
        recipient: String,
        subject: String,
        error: &str,
    ) -> (r: Self)
        ensures
            r.status@ == status@,
            r.endpoint == endpoint,
            r.sent_message_id is None,
            r.sent_thread_id is None,
            r.recipient == recipient,
            r.subject == subject,
            r.response_preview is None,
            r.error matches Some(e) && e@ == error@,
    {
        EmailResponseRecord {
            status: String::from_str(status),
            endpoint,
            attempted_at: now_micros(),
            sent_message_id: None,
            sent_thread_id: None,
            recipient,
            subject,
            response_preview: None,
            error: Some(String::from_str(error)),
        }
    }

    /// Create a success-like record for reply attempts that do not result in a sent
    /// message (for example explicit operator skip).
    pub fn completed(
        status: &str,
        endpoint: Option<String>,
        recipient: String,
        subject: String,
        response_preview: Option<String>,
    ) -> (r: Self)
        ensures
            r.status@ == status@,
            r.endpoint == endpoint,
            r.sent_message_id is None,
            r.sent_thread_id is None,
            r.recipient == recipient,
            r.subject == subject,
            r.response_preview == response_preview,
            r.error is None,
    {
        EmailResponseRecord {
            status: String::from_str(status),
            endpoint,
            attempted_at: now_micros(),
            sent_message_id: None,
            sent_thread_id: None,
            recipient,
            subject,
            response_preview,
            error: None,
        }
    }
}

/// End-to-end result for one processed email.
#[derive(Clone, Debug)]
pub struct ProcessedEmail {
    /// The Gmail message reviewed.
    pub message: GmailMessage,
    /// Relevance decision.
    pub classification: EmailClassification,
    /// Extracted intent, when relevant.
    pub intent: Option<EmailIntent>,
    /// Queue validation decision, when relevant.
    pub assessment: Option<TaskAssessment>,
    /// Persistence result for queue-worthy tasks.
    pub queued_job: Option<QueuedJobRecord>,
    /// Auto-responder result for queue-worthy emails.
    pub response: Option<EmailResponseRecord>,
    /// Final disposition such as `ignored`, `reviewed`, or `queued`.
    pub disposition: String,
}

/// Shared blackboard state passed between specialists.
#[derive(Clone, Debug)]
pub struct GlobalContext {
    /// High-level objective for the current mission.
    pub objective: String,
    /// Shared execution history.
    pub conversation_history: Vec<String>,
    /// Current step count.
    pub step_count: u32,
    /// MarianneAI relevance profile.
    pub project_profile: ProjectProfile,
    /// Gmail search query for mailbox loading.
    pub query: String,
    /// Maximum number of emails to process.
    pub max_emails: u32,
    /// Selected queue backend.
    pub queue_backend: QueueBackendKind,
    /// Whether Gmail messages have already been loaded into the context.
    pub mailbox_loaded: bool,
    /// Loaded Gmail messages.
    pub emails: Vec<GmailMessage>,
    /// Zero-based index of the active email.
    pub current_email_index: usize,
    /// Current classification result.
    pub current_classification: Option<EmailClassification>,
    /// Current intent extraction result.
    pub current_intent: Option<EmailIntent>,
    /// Current queue validation result.
    pub current_validation: Option<TaskAssessment>,
    /// Current queue persistence result.
    pub current_queue_record: Option<QueuedJobRecord>,
    /// Finalized email results.
    pub reviewed_emails: Vec<ProcessedEmail>,
    /// Response endpoint URL configured for this run.
    pub answer_endpoint: Option<String>,
    /// Optional API key for the configured response endpoint.
    pub answer_endpoint_api_key: Option<String>,
    /// Timeout in seconds for answer endpoint calls.
    pub answer_endpoint_timeout_seconds: u64,
    /// URL of the Datagouv MCP endpoint used for additional answer sourcing.
    pub datagouv_mcp_endpoint: Option<String>,
    /// MCP tool name to invoke for Datagouv lookup.
    pub datagouv_mcp_tool: String,
    /// Timeout in seconds for Datagouv MCP requests.
    pub datagouv_mcp_timeout_seconds: u64,
    /// Optional markdown path where Datagouv query successes are persisted.
    pub datagouv_query_memory_path: Option<String>,
    /// Cached learned query fragments from prior successful MCP queries.
    pub datagouv_query_memory_cache: Vec<String>,
    /// Current pending response generation result.
    pub current_response: Option<EmailResponseRecord>,
}

/// The message under review, if any is left.
pub open spec fn current_email_of(ctx: GlobalContext) -> Option<GmailMessage> {
    if ctx.current_email_index < ctx.emails@.len() {
        Some(ctx.emails@[ctx.current_email_index as int])
    } else {
        None
    }
}

/// `b` is `a` moved on to the next email: the index advanced and every staged
/// per-email result cleared, all else unchanged.
pub open spec fn advanced(a: GlobalContext, b: GlobalContext) -> bool {
    &&& moved_on(a, b)
    &&& b.reviewed_emails == a.reviewed_emails
}

/// As `advanced`, saying nothing of the list of reviewed emails.
pub open spec fn moved_on(a: GlobalContext, b: GlobalContext) -> bool {
    &&& b.current_email_index == a.current_email_index + 1
    &&& b.current_classification is None
    &&& b.current_intent is None
    &&& b.current_validation is None
    &&& b.current_queue_record is None
    &&& b.current_response is None
    &&& b.objective == a.objective
    &&& b.conversation_history == a.conversation_history
    &&& b.step_count == a.step_count
    &&& b.project_profile == a.project_profile
    &&& b.query == a.query
    &&& b.max_emails == a.max_emails
    &&& b.queue_backend == a.queue_backend
    &&& b.mailbox_loaded == a.mailbox_loaded
    &&& b.emails == a.emails
    &&& b.answer_endpoint == a.answer_endpoint
    &&& b.answer_endpoint_api_key == a.answer_endpoint_api_key
    &&& b.answer_endpoint_timeout_seconds == a.answer_endpoint_timeout_seconds
    &&& b.datagouv_mcp_endpoint == a.datagouv_mcp_endpoint
    &&& b.datagouv_mcp_tool == a.datagouv_mcp_tool
    &&& b.datagouv_mcp_timeout_seconds == a.datagouv_mcp_timeout_seconds
    &&& b.datagouv_query_memory_path == a.datagouv_query_memory_path
    &&& b.datagouv_query_memory_cache == a.datagouv_query_memory_cache
}

impl GlobalContext {
    /// Build a new mission context with an empty blackboard.
    pub fn new(objective: String, query: String, max_emails: u32, queue_backend: QueueBackendKind) -> (r: Self)
        ensures
            r.objective == objective,
            r.conversation_history@.len() == 0,
            r.step_count == 0,
            is_default_profile(r.project_profile),
            r.query == query,
            r.max_emails == max_emails,
            r.queue_backend == queue_backend,
            !r.mailbox_loaded,
            r.emails@.len() == 0,
            r.current_email_index == 0,
            r.current_classification is None,
            r.current_intent is None,
            r.current_validation is None,
            r.current_queue_record is None,
            r.reviewed_emails@.len() == 0,
            r.answer_endpoint is None,
            r.answer_endpoint_api_key is None,
            r.answer_endpoint_timeout_seconds == 30,
            r.datagouv_mcp_endpoint is None,
            r.datagouv_mcp_tool@ == "search_datasets"@,
            r.datagouv_mcp_timeout_seconds == 30,
            r.datagouv_query_memory_path is None,
            r.datagouv_query_memory_cache@.len() == 0,
            r.current_response is None,
    {
        GlobalContext {
            objective,
            conversation_history: Vec::new(),
            step_count: 0,
            project_profile: ProjectProfile::default(),
            query,
            max_emails,
            queue_backend,
            mailbox_loaded: false,
            emails: Vec::new(),
            current_email_index: 0,
            current_classification: None,
            current_intent: None,
            current_validation: None,
            current_queue_record: None,
            answer_endpoint: None,
            answer_endpoint_api_key: None,
            answer_endpoint_timeout_seconds: 30,
            datagouv_mcp_endpoint: None,
            datagouv_mcp_tool: String::from_str("search_datasets"),
            datagouv_mcp_timeout_seconds: 30,
            datagouv_query_memory_path: None,
            datagouv_query_memory_cache: Vec::new(),
            current_response: None,
            reviewed_emails: Vec::new(),
        }
    }

    /// Returns the current email, if there is one.
    pub fn current_email(&self) -> (r: Option<&GmailMessage>)
        ensures
            r matches Some(m) ==> current_email_of(*self) == Some(*m),
            r is None <==> current_email_of(*self) is None,
    {
        if self.current_email_index < self.emails.len() {
            Some(&self.emails[self.current_email_index])
        } else {
            None
        }
    }

    /// Advances to the next email and clears the current staged outputs.
    pub fn advance_email(&mut self)
        requires
            old(self).current_email_index < usize::MAX,
        ensures
            advanced(*old(self), *final(self)),
    {
        self.current_email_index = self.current_email_index + 1;
        self.current_classification = None;
        self.current_intent = None;
        self.current_validation = None;
        self.current_queue_record = None;
        self.current_response = None;
    }
}

/// Final mission report written to disk.
#[derive(Clone, Debug)]
pub struct MissionReport {
    /// Objective supplied to the orchestrator.
    pub objective: String,
    /// Query used to load Gmail messages.
    pub query: String,
    /// Queue backend used during the mission.
    pub queue_backend: QueueBackendKind,
    /// Number of emails loaded from Gmail.
    pub total_loaded: usize,
    /// Number of emails classified as MarianneAI-related.
    pub related_count: usize,
    /// Number of emails that were clear enough to be queued.
    pub queueable_count: usize,
    /// Number of emails that were actually persisted successfully.
    pub persisted_count: usize,
    /// Number of emails for which a response was successfully sent.
    pub responded_count: usize,
    /// Number of emails that attempted response generation.
    pub response_attempt_count: usize,
    /// Finalized results per email.
    pub reviewed_emails: Vec<ProcessedEmail>,
    /// Execution history for debugging and review.
    pub conversation_history: Vec<String>,
}

} // verus!
