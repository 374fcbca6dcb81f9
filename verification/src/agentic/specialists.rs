//! What each specialist writes on the blackboard once its outside work is
//! done: the prompts it sends, the staged results it records and the history
//! lines it leaves, before handing control back to the supervisor.

use crate::agentic::errors::AgentError;
use crate::agentic::replies::{truncate_text, truncated};
use crate::agentic::supervisor::TurnResult;
use crate::gmail::GmailClient;
use crate::queue::TaskQueueWriter;
use crate::text::{
    bool_string, bool_text, debug_list, debug_opt, debug_opt_string, debug_string_list, decimal,
    decimal_string,
};
use crate::types::{
    backend_label, current_email_of, prompt_body_of, string_views, EmailClassification,
    EmailIntent, GlobalContext, GmailMessage, ProjectProfile, QueuedJobRecord, TaskAssessment,
};
use vstd::prelude::*;
use vstd::string::StringExecFns;

verus! {

/// `b` is `a` with `lines` appended to the history and nothing else changed
/// but the fields `b` is said to set.
pub open spec fn appended(a: GlobalContext, b: GlobalContext, lines: Seq<Seq<char>>) -> bool {
    string_views(b.conversation_history@) == string_views(a.conversation_history@) + lines
}

/// A hand-back to the supervisor with the given instruction.
pub open spec fn back_to_supervisor(r: TurnResult, instruction: Seq<char>) -> bool {
    r matches TurnResult::Delegate { target_agent, instruction: i, .. } && target_agent@
        == "supervisor"@ && i@ == instruction
}

/// The context a turn hands over.
pub open spec fn handed_context(r: TurnResult) -> GlobalContext
    recommends
        r is Delegate,
{
    match r {
        TurnResult::Delegate { new_context, .. } => new_context,
        TurnResult::KeepWorking { new_context, .. } => new_context,
        TurnResult::FinalResult(_) => arbitrary(),
    }
}

fn push_line(ctx: &mut GlobalContext, line: String)
    ensures
        string_views(final(ctx).conversation_history@) == string_views(old(ctx).conversation_history@).push(line@),
        *final(ctx) == (GlobalContext { conversation_history: final(ctx).conversation_history, ..*old(ctx) }),
{
    let ghost before = string_views(ctx.conversation_history@);
    ctx.conversation_history.push(line);
    assert(string_views(ctx.conversation_history@) =~= before.push(line@));
}

fn to_supervisor(instruction: &str, ctx: GlobalContext) -> (r: TurnResult)
    ensures
        back_to_supervisor(r, instruction@),
        handed_context(r) == ctx,
{
    TurnResult::Delegate {
        target_agent: String::from_str("supervisor"),
        instruction: String::from_str(instruction),
        new_context: ctx,
    }
}

/// The email under review, or a context error with `missing` as its message.
pub fn staged_email<'a>(ctx: &'a GlobalContext, missing: &str) -> (r: Result<&'a GmailMessage, AgentError>)
    ensures
        r matches Ok(m) ==> current_email_of(*ctx) == Some(*m),
        r is Err <==> current_email_of(*ctx) is None,
        r matches Err(e) ==> e matches AgentError::Context(t) && t@ == missing@,
{
    match ctx.current_email() {
        Some(m) => Ok(m),
        None => Err(AgentError::Context(String::from_str(missing))),
    }
}

/// The staged classification, or a context error with `missing` as its message.
pub fn staged_classification<'a>(ctx: &'a GlobalContext, missing: &str) -> (r: Result<&'a EmailClassification, AgentError>)
    ensures
        r matches Ok(c) ==> ctx.current_classification == Some(*c),
        r is Err <==> ctx.current_classification is None,
        r matches Err(e) ==> e matches AgentError::Context(t) && t@ == missing@,
{
    match &ctx.current_classification {
        Some(c) => Ok(c),
        None => Err(AgentError::Context(String::from_str(missing))),
    }
}

/// The staged intent, or a context error with `missing` as its message.
pub fn staged_intent<'a>(ctx: &'a GlobalContext, missing: &str) -> (r: Result<&'a EmailIntent, AgentError>)
    ensures
        r matches Ok(i) ==> ctx.current_intent == Some(*i),
        r is Err <==> ctx.current_intent is None,
        r matches Err(e) ==> e matches AgentError::Context(t) && t@ == missing@,
{
    match &ctx.current_intent {
        Some(i) => Ok(i),
        None => Err(AgentError::Context(String::from_str(missing))),
    }
}

/// The staged assessment, or a context error with `missing` as its message.
pub fn staged_validation<'a>(ctx: &'a GlobalContext, missing: &str) -> (r: Result<&'a TaskAssessment, AgentError>)
    ensures
        r matches Ok(a) ==> ctx.current_validation == Some(*a),
        r is Err <==> ctx.current_validation is None,
        r matches Err(e) ==> e matches AgentError::Context(t) && t@ == missing@,
{
    match &ctx.current_validation {
        Some(a) => Ok(a),
        None => Err(AgentError::Context(String::from_str(missing))),
    }
}

/// Loads Gmail messages into the blackboard context.
pub struct MailboxReader {
    gmail: GmailClient,
}

impl MailboxReader {
    /// The client the reader fetches with.
    pub closed spec fn client(self) -> GmailClient {
        self.gmail
    }

    /// Create a new mailbox reader.
    pub fn new(gmail: GmailClient) -> (r: Self)
        ensures
            r.client() == gmail,
    {
        MailboxReader { gmail }
    }

    /// The client the reader fetches with.
    pub fn gmail(&self) -> (r: GmailClient)
        ensures
            r == self.client(),
    {
        self.gmail
    }

    /// Stable routing name for the agent.
    pub fn name(&self) -> (r: &'static str)
        ensures
            r@ == "mailbox_reader"@,
    {
        "mailbox_reader"
    }

    /// Puts the fetched `messages` on the blackboard.
    pub fn take_messages(&self, ctx: GlobalContext, messages: Vec<GmailMessage>) -> (r: TurnResult)
        ensures
            back_to_supervisor(r, "Mailbox loaded."@),
            handed_context(r) == (GlobalContext {
                conversation_history: handed_context(r).conversation_history,
                mailbox_loaded: true,
                emails: messages,
                ..ctx
            }),
            appended(
                ctx,
                handed_context(r),
                seq![
                    "MailboxReader: loaded "@ + decimal(messages@.len()) + " email(s) for query `"@
                        + ctx.query@ + "`"@,
                ],
            ),
    {
        let mut ctx = ctx;
        let n = messages.len();
        ctx.mailbox_loaded = true;
        ctx.emails = messages;
        let mut line = String::from_str("MailboxReader: loaded ");
        line.append(decimal_string(n as u64).as_str());
        line.append(" email(s) for query `");
        line.append(ctx.query.as_str());
        line.append("`");
        let ghost h0 = string_views(ctx.conversation_history@);
        push_line(&mut ctx, line);
        assert(string_views(ctx.conversation_history@) =~= h0 + seq![line@]);
        to_supervisor("Mailbox loaded.", ctx)
    }
}

/// The classifier's prompt for `m` under `p`.
pub open spec fn classification_prompt_text(p: ProjectProfile, m: GmailMessage) -> Seq<char> {
    "PROJECT\nname: "@ + p.name@ + "\nabout: "@ + p.about@ + "\nwebsite: "@ + p.website@
        + "\nrelevance_hints: "@ + debug_list(p.relevance_hints@) + "\n\nEMAIL\nfrom: "@ + debug_opt(
        m.from,
    ) + "\nsubject: "@ + debug_opt(m.subject) + "\ndate: "@ + debug_opt(m.date) + "\nbody:\n"@
        + truncated(prompt_body_of(m), 8000)
}

/// Builds the relevance classifier's prompt.
pub fn classification_prompt(profile: &ProjectProfile, message: &GmailMessage) -> (r: String)
    ensures
        r@ == classification_prompt_text(*profile, *message),
{
    let mut s = String::from_str("PROJECT\nname: ");
    s.append(profile.name.as_str());
    s.append("\nabout: ");
    s.append(profile.about.as_str());
    s.append("\nwebsite: ");
    s.append(profile.website.as_str());
    s.append("\nrelevance_hints: ");
    s.append(debug_string_list(&profile.relevance_hints).as_str());
    s.append("\n\nEMAIL\nfrom: ");
    s.append(debug_opt_string(&message.from).as_str());
    s.append("\nsubject: ");
    s.append(debug_opt_string(&message.subject).as_str());
    s.append("\ndate: ");
    s.append(debug_opt_string(&message.date).as_str());
    s.append("\nbody:\n");
    let body = message.prompt_body();
    s.append(truncate_text(body.as_str(), 8000).as_str());
    s
}

/// Records the classifier's verdict on the email under review;
/// `confidence_text` is the confidence printed with two decimals.
pub fn record_classification(ctx: GlobalContext, classification: EmailClassification, confidence_text: &str) -> (r: TurnResult)
    requires
        current_email_of(ctx) is Some,
    ensures
        back_to_supervisor(r, "Relevance classification complete."@),
        handed_context(r) == (GlobalContext {
            conversation_history: handed_context(r).conversation_history,
            current_classification: Some(classification),
            ..ctx
        }),
        appended(
            ctx,
            handed_context(r),
            seq![
                "RelevanceClassifier: evaluating email from "@ + debug_opt(current_email_of(ctx)->0.from)
                    + " subject="@ + debug_opt(current_email_of(ctx)->0.subject),
                "RelevanceClassifier: related="@ + bool_text(classification.related_to_project)
                    + " category="@ + classification.category@ + " confidence="@ + confidence_text@,
            ],
        ),
{
    let mut ctx = ctx;
    let mut first = String::from_str("RelevanceClassifier: evaluating email from ");
    let mut second = String::from_str("RelevanceClassifier: related=");
    {
        let m = &ctx.emails[ctx.current_email_index];
        first.append(debug_opt_string(&m.from).as_str());
        first.append(" subject=");
        first.append(debug_opt_string(&m.subject).as_str());
    }
    second.append(bool_string(classification.related_to_project).as_str());
    second.append(" category=");
    second.append(classification.category.as_str());
    second.append(" confidence=");
    second.append(confidence_text);
    let ghost h0 = string_views(ctx.conversation_history@);
    push_line(&mut ctx, first);
    push_line(&mut ctx, second);
    ctx.current_classification = Some(classification);
    assert(string_views(ctx.conversation_history@) =~= h0 + seq![first@, second@]);
    to_supervisor("Relevance classification complete.", ctx)
}

/// The intent extractor's prompt; `classification_json` is the staged
/// classification rendered as pretty-printed JSON.
pub open spec fn intent_prompt_text(about: Seq<char>, classification_json: Seq<char>, m: GmailMessage) -> Seq<char> {
    "PROJECT ABOUT\n"@ + about + "\n\nCLASSIFICATION\n"@ + classification_json + "\n\nEMAIL\nfrom: "@
        + debug_opt(m.from) + "\nsubject: "@ + debug_opt(m.subject) + "\nbody:\n"@ + truncated(
        prompt_body_of(m),
        10000,
    )
}

/// Builds the intent extractor's prompt.
pub fn intent_prompt(about: &str, classification_json: &str, message: &GmailMessage) -> (r: String)
    ensures
        r@ == intent_prompt_text(about@, classification_json@, *message),
{
    let mut s = String::from_str("PROJECT ABOUT\n");
    s.append(about);
    s.append("\n\nCLASSIFICATION\n");
    s.append(classification_json);
    s.append("\n\nEMAIL\nfrom: ");
    s.append(debug_opt_string(&message.from).as_str());
    s.append("\nsubject: ");
    s.append(debug_opt_string(&message.subject).as_str());
    s.append("\nbody:\n");
    let body = message.prompt_body();
    s.append(truncate_text(body.as_str(), 10000).as_str());
    s
}

/// Records the extracted intent for the email under review.
pub fn record_intent(ctx: GlobalContext, intent: EmailIntent) -> (r: TurnResult)
    requires
        current_email_of(ctx) is Some,
    ensures
        back_to_supervisor(r, "Intent extraction complete."@),
        handed_context(r) == (GlobalContext {
            conversation_history: handed_context(r).conversation_history,
            current_intent: Some(intent),
            ..ctx
        }),
        appended(
            ctx,
            handed_context(r),
            seq![
                "IntentExtractor: message="@ + debug_opt(current_email_of(ctx)->0.subject)
                    + " extraction_started"@,
                "IntentExtractor: title="@ + intent.task_title@ + " actionable="@ + bool_text(
                    intent.actionable,
                ),
            ],
        ),
{
    let mut ctx = ctx;
    let mut first = String::from_str("IntentExtractor: message=");
    first.append(debug_opt_string(&ctx.emails[ctx.current_email_index].subject).as_str());
    first.append(" extraction_started");
    let mut second = String::from_str("IntentExtractor: title=");
    second.append(intent.task_title.as_str());
    second.append(" actionable=");
    second.append(bool_string(intent.actionable).as_str());
    let ghost h0 = string_views(ctx.conversation_history@);
    push_line(&mut ctx, first);
    push_line(&mut ctx, second);
    ctx.current_intent = Some(intent);
    assert(string_views(ctx.conversation_history@) =~= h0 + seq![first@, second@]);
    to_supervisor("Intent extraction complete.", ctx)
}

/// The task validator's prompt; the JSON arguments are the staged
/// classification and intent rendered as pretty-printed JSON.
pub open spec fn validation_prompt_text(
    criteria: Seq<String>,
    m: GmailMessage,
    classification_json: Seq<char>,
    intent_json: Seq<char>,
) -> Seq<char> {
    "VALID TASK CRITERIA\n"@ + debug_list(criteria) + "\n\nEMAIL\nfrom: "@ + debug_opt(m.from)
        + "\nsubject: "@ + debug_opt(m.subject) + "\n\nCLASSIFICATION\n"@ + classification_json
        + "\n\nINTENT\n"@ + intent_json
}

/// Builds the task validator's prompt.
pub fn validation_prompt(
    criteria: &Vec<String>,
    message: &GmailMessage,
    classification_json: &str,
    intent_json: &str,
) -> (r: String)
    ensures
        r@ == validation_prompt_text(criteria@, *message, classification_json@, intent_json@),
{
    let mut s = String::from_str("VALID TASK CRITERIA\n");
    s.append(debug_string_list(criteria).as_str());
    s.append("\n\nEMAIL\nfrom: ");
    s.append(debug_opt_string(&message.from).as_str());
    s.append("\nsubject: ");
    s.append(debug_opt_string(&message.subject).as_str());
    s.append("\n\nCLASSIFICATION\n");
    s.append(classification_json);
    s.append("\n\nINTENT\n");
    s.append(intent_json);
    s
}

/// The assessment with its clarity score held to the documented range
/// `0..=100`: a score above 100 is recorded as 100.
pub open spec fn within_clarity_range(a: TaskAssessment) -> TaskAssessment {
    TaskAssessment { clarity_score: if a.clarity_score > 100 { 100 } else { a.clarity_score }, ..a }
}

/// Records the validator's assessment for the email under review, its
/// clarity score clamped to `0..=100`.
pub fn record_validation(ctx: GlobalContext, assessment: TaskAssessment) -> (r: TurnResult)
    requires
        current_email_of(ctx) is Some,
    ensures
        back_to_supervisor(r, "Task validation complete."@),
        handed_context(r) == (GlobalContext {
            conversation_history: handed_context(r).conversation_history,
            current_validation: Some(within_clarity_range(assessment)),
            ..ctx
        }),
        handed_context(r).current_validation->0.clarity_score <= 100,
        appended(
            ctx,
            handed_context(r),
            seq![
                "TaskValidator: evaluating message="@ + debug_opt(current_email_of(ctx)->0.subject)
                    + " for clarity and actionability"@,
                "TaskValidator: should_queue="@ + bool_text(assessment.should_queue)
                    + " clarity_score="@ + decimal(within_clarity_range(assessment).clarity_score as nat),
            ],
        ),
{
    let mut assessment = assessment;
    if assessment.clarity_score > 100 {
        assessment.clarity_score = 100;
    }
    let mut ctx = ctx;
    let mut first = String::from_str("TaskValidator: evaluating message=");
    first.append(debug_opt_string(&ctx.emails[ctx.current_email_index].subject).as_str());
    first.append(" for clarity and actionability");
    let mut second = String::from_str("TaskValidator: should_queue=");
    second.append(bool_string(assessment.should_queue).as_str());
    second.append(" clarity_score=");
    second.append(decimal_string(assessment.clarity_score as u64).as_str());
    let ghost h0 = string_views(ctx.conversation_history@);
    push_line(&mut ctx, first);
    push_line(&mut ctx, second);
    ctx.current_validation = Some(assessment);
    assert(string_views(ctx.conversation_history@) =~= h0 + seq![first@, second@]);
    to_supervisor("Task validation complete.", ctx)
}

/// Persists queue-worthy tasks to the configured backend.
pub struct QueueWriterAgent {
    writer: TaskQueueWriter,
}

impl QueueWriterAgent {
    /// The writer the agent persists with.
    pub closed spec fn queue(self) -> TaskQueueWriter {
        self.writer
    }

    /// Create the queue writer agent from the selected backend.
    pub fn new(writer: TaskQueueWriter) -> (r: Self)
        ensures
            r.queue() == writer,
    {
        QueueWriterAgent { writer }
    }

    /// The writer the agent persists with.
    pub fn writer(&self) -> (r: &TaskQueueWriter)
        ensures
            *r == self.queue(),
    {
        &self.writer
    }

    /// Stable routing name for the agent.
    pub fn name(&self) -> (r: &'static str)
        ensures
            r@ == "queue_writer"@,
    {
        "queue_writer"
    }

    /// Records the outcome of the queue write for the email under review.
    pub fn record(&self, ctx: GlobalContext, record: QueuedJobRecord) -> (r: TurnResult)
        ensures
            back_to_supervisor(r, "Queue persistence complete."@),
            handed_context(r) == (GlobalContext {
                conversation_history: handed_context(r).conversation_history,
                current_queue_record: Some(record),
                ..ctx
            }),
            appended(
                ctx,
                handed_context(r),
                seq!["QueueWriter: backend="@ + backend_label(record.backend) + " status="@ + record.status@],
            ),
    {
        let mut ctx = ctx;
        let mut line = String::from_str("QueueWriter: backend=");
        line.append(record.backend.label().as_str());
        line.append(" status=");
        line.append(record.status.as_str());
        let ghost h0 = string_views(ctx.conversation_history@);
        push_line(&mut ctx, line);
        assert(string_views(ctx.conversation_history@) =~= h0 + seq![line@]);
        ctx.current_queue_record = Some(record);
        to_supervisor("Queue persistence complete.", ctx)
    }
}

} // verus!
