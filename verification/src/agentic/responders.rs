//! The reply stage: what the answer and Datagouv responders decide between
//! their outside calls, the drafts held for approval, and the
//! send-then-fall-back protocol for drafts once approved.

use crate::agentic::errors::AgentError;
use crate::agentic::mcp::{answer_request_body, citizen_question, query_request};
use crate::agentic::replies::{
    build_funny_fallback_message, build_reply_subject, default_fallback_reason, fallback_message,
    is_error_like, is_error_like_reply, preview_text, reply_subject, truncate_text, truncated,
};
use crate::agentic::specialists::{
    appended, back_to_supervisor, handed_context, staged_classification, staged_email,
    staged_intent, staged_validation,
};
use crate::agentic::supervisor::{finalized, finalize_current_email, TurnResult};
use crate::agentic::report::{is_responded, is_sent, is_sent_status};
use crate::gmail::{email_address_in, GmailClient, GmailError, SentMessage};
use crate::types::{
    clone_opt_string, current_email_of, prompt_body_of, same_assessment, same_intent,
    string_views, EmailClassification, EmailIntent, EmailResponseRecord, GlobalContext,
    GmailMessage, ProcessedEmail, ProjectProfile, TaskAssessment,
};
use crate::agentic::search::{
    build_datagouv_fallback_query, build_datagouv_focus_query, build_datagouv_keyword_only_query,
    build_datagouv_query, fallback_query, first_n, focus_query, keyword_only_query,
    normalize_search_text, normalized_search, structured_query,
};
use crate::text::{
    ascii_lowercase, ascii_lowercase_chars, chars_of, contains_word, trim, trim_chars, views,
};
use vstd::prelude::*;
use vstd::string::StringExecFns;

verus! {

/// The request sent to the answer endpoint.
#[derive(Clone, Debug)]
pub struct AnswerInstruction {
    /// Subject that should be used for the outbound email.
    pub reply_subject: String,
    /// Project name from the active profile.
    pub project_name: String,
    /// Project mission statement.
    pub project_about: String,
    /// Project website.
    pub project_website: String,
    /// Normalized sender string used for context.
    pub sender: String,
    /// The subject line of the message answered, for context.
    pub original_subject: Option<String>,
    /// A short excerpt used by the endpoint for context grounding.
    pub original_message_excerpt: String,
    /// Classification summary from the prior stage.
    pub classification: EmailClassification,
    /// Parsed intent from the prior stage.
    pub intent: EmailIntent,
    /// Task validation record from the prior stage.
    pub validation: TaskAssessment,
    /// Hard constraints for the endpoint prompt.
    pub response_guidelines: Vec<String>,
}

/// The guidelines every answer request carries.
pub open spec fn answer_guidelines() -> Seq<Seq<char>> {
    seq![
        "Answer directly as MarianneAI support staff."@,
        "Keep tone concise and professional with a friendly touch."@,
        "If context is missing, request exactly what is needed next."@,
        "Preserve any project-relevant context and mention expected turnaround."@,
    ]
}

/// `i` is the answer request for message `m` with the given verdicts and subject.
pub open spec fn instructs(
    i: AnswerInstruction,
    p: ProjectProfile,
    m: GmailMessage,
    c: EmailClassification,
    n: EmailIntent,
    a: TaskAssessment,
    subject: Seq<char>,
) -> bool {
    &&& i.reply_subject@ == subject
    &&& i.project_name == p.name
    &&& i.project_about == p.about
    &&& i.project_website == p.website
    &&& i.sender@ == match m.from {
        Some(f) => f@,
        None => "<unknown>"@,
    }
    &&& i.original_subject == m.subject
    &&& i.original_message_excerpt@ == truncated(prompt_body_of(m), 6000)
    &&& i.classification == c
    &&& same_intent(i.intent, n)
    &&& same_assessment(i.validation, a)
    &&& string_views(i.response_guidelines@) == answer_guidelines()
}

/// Builds the request for the answer endpoint.
pub fn build_answer_instruction(
    profile: &ProjectProfile,
    message: &GmailMessage,
    classification: &EmailClassification,
    intent: &EmailIntent,
    assessment: &TaskAssessment,
    subject: &str,
) -> (r: AnswerInstruction)
    ensures
        instructs(r, *profile, *message, *classification, *intent, *assessment, subject@),
{
    let body = message.prompt_body();
    let mut response_guidelines: Vec<String> = Vec::new();
    response_guidelines.push(String::from_str("Answer directly as MarianneAI support staff."));
    response_guidelines.push(
        String::from_str("Keep tone concise and professional with a friendly touch."),
    );
    response_guidelines.push(
        String::from_str("If context is missing, request exactly what is needed next."),
    );
    response_guidelines.push(
        String::from_str("Preserve any project-relevant context and mention expected turnaround."),
    );
    let r = AnswerInstruction {
        reply_subject: String::from_str(subject),
        project_name: profile.name.clone(),
        project_about: profile.about.clone(),
        project_website: profile.website.clone(),
        sender: match &message.from {
            Some(f) => f.clone(),
            None => String::from_str("<unknown>"),
        },
        original_subject: clone_opt_string(&message.subject),
        original_message_excerpt: truncate_text(body.as_str(), 6000),
        classification: classification.clone(),
        intent: intent.clone(),
        validation: assessment.clone(),
        response_guidelines,
    };
    assert(string_views(r.response_guidelines@) =~= answer_guidelines());
    r
}

/// A reply ready to go out, and what to say if it cannot be delivered.
pub struct Delivery {
    /// Address the reply is sent to.
    pub recipient: String,
    /// Subject of the reply.
    pub subject: String,
    /// Gmail thread the reply belongs to.
    pub thread_id: String,
    /// Text of the reply.
    pub body: String,
    /// Service that produced the text, when one was used.
    pub endpoint: Option<String>,
    /// Why the text is already a fallback, if it is one.
    pub fallback_reason: Option<String>,
}

/// The holding reply that is never re-sent as a fallback of itself.
pub open spec fn busy_message() -> Seq<char> {
    fallback_message(default_fallback_reason(), "answering service"@)
}

/// What the first send attempt leads to.
pub enum SendOutcome {
    /// The reply went out.
    Sent(EmailResponseRecord),
    /// The reply failed; send `fallback_body` instead.
    Retry { fallback_body: String, primary_error: GmailError },
    /// The reply failed and no fallback is tried.
    Failed(AgentError),
}

/// `r` records a reply of `body` that went out as `sent`.
pub open spec fn records_sent(
    r: EmailResponseRecord,
    d: Delivery,
    body: Seq<char>,
    sent: SentMessage,
    status: Seq<char>,
) -> bool {
    &&& r.status@ == status
    &&& r.endpoint == d.endpoint
    &&& r.sent_message_id == sent.message_id
    &&& r.sent_thread_id == sent.thread_id
    &&& r.recipient == d.recipient
    &&& r.subject == d.subject
    &&& r.response_preview matches Some(p) && p@ == truncated(body, 400)
}

/// The reason given in the fallback after a failed send.
pub open spec fn undelivered_reason(d: Delivery) -> Seq<char> {
    match d.fallback_reason {
        Some(r) => r@,
        None => "generated content could not be delivered"@,
    }
}

impl Delivery {
    /// Takes in the result of sending the reply itself: a record when it went
    /// out; when it failed, a fallback to try if the reply came from a service
    /// and is not already the holding reply, else the failure.
    pub fn after_send(&self, outcome: Result<SentMessage, GmailError>) -> (r: SendOutcome)
        ensures
            outcome matches Ok(sent) ==> r matches SendOutcome::Sent(rec) && records_sent(
                rec,
                *self,
                self.body@,
                sent,
                if self.endpoint is Some { "sent"@ } else { "sent_without_endpoint"@ },
            ) && rec.error is None,
            (outcome is Err && self.endpoint is Some && self.body@ != busy_message()) ==> (r matches SendOutcome::Retry {
                fallback_body,
                primary_error,
            } && fallback_body@ == fallback_message(undelivered_reason(*self), "email sending layer"@)
                && outcome == Err::<SentMessage, GmailError>(primary_error)),
            (outcome is Err && !(self.endpoint is Some && self.body@ != busy_message())) ==> (r matches SendOutcome::Failed(
                AgentError::Gmail(e),
            ) && outcome == Err::<SentMessage, GmailError>(e)),
    {
        match outcome {
            Ok(sent) => {
                let status = if self.endpoint.is_some() {
                    String::from_str("sent")
                } else {
                    String::from_str("sent_without_endpoint")
                };
                SendOutcome::Sent(EmailResponseRecord {
                    status,
                    endpoint: clone_opt_string(&self.endpoint),
                    attempted_at: crate::clock::now_micros(),
                    sent_message_id: sent.message_id,
                    sent_thread_id: sent.thread_id,
                    recipient: self.recipient.clone(),
                    subject: self.subject.clone(),
                    response_preview: Some(preview_text(self.body.as_str(), 400)),
                    error: None,
                })
            },
            Err(primary_error) => {
                let busy = build_funny_fallback_message(None, "answering service");
                if self.endpoint.is_some() && !(self.body == busy) {
                    let reason = match &self.fallback_reason {
                        Some(r) => r.as_str(),
                        None => "generated content could not be delivered",
                    };
                    let fallback_body = build_funny_fallback_message(Some(reason), "email sending layer");
                    SendOutcome::Retry { fallback_body, primary_error }
                } else {
                    SendOutcome::Failed(AgentError::Gmail(primary_error))
                }
            },
        }
    }

    /// Takes in the result of sending `fallback_body` after the reply failed
    /// with the error described by `primary_error`.
    pub fn after_fallback(
        &self,
        fallback_body: &str,
        primary_error: &str,
        outcome: Result<SentMessage, GmailError>,
    ) -> (r: Result<EmailResponseRecord, AgentError>)
        ensures
            outcome matches Ok(sent) ==> (r matches Ok(rec) && records_sent(
                rec,
                *self,
                fallback_body@,
                sent,
                "sent_fallback"@,
            ) && (rec.error matches Some(e) && e@ == "primary send failed ("@ + primary_error@
                + "), fallback sent instead"@)),
            outcome matches Err(e) ==> r matches Err(AgentError::Gmail(g)) && g == e,
    {
        match outcome {
            Ok(sent) => {
                let mut error = String::from_str("primary send failed (");
                error.append(primary_error);
                error.append("), fallback sent instead");
                Ok(EmailResponseRecord {
                    status: String::from_str("sent_fallback"),
                    endpoint: clone_opt_string(&self.endpoint),
                    attempted_at: crate::clock::now_micros(),
                    sent_message_id: sent.message_id,
                    sent_thread_id: sent.thread_id,
                    recipient: self.recipient.clone(),
                    subject: self.subject.clone(),
                    response_preview: Some(preview_text(fallback_body, 400)),
                    error: Some(error),
                })
            },
            Err(e) => Err(AgentError::Gmail(e)),
        }
    }
}

/// `r` records `d` held as a draft for the staff member who approves replies: nothing went out,
/// and the reason for a fallback text is kept as the record's note.
pub open spec fn records_draft(r: EmailResponseRecord, d: Delivery) -> bool {
    &&& r.status@ == "draft_pending_review"@
    &&& r.endpoint == d.endpoint
    &&& r.sent_message_id is None
    &&& r.sent_thread_id is None
    &&& r.recipient == d.recipient
    &&& r.subject == d.subject
    &&& r.response_preview matches Some(p) && p@ == truncated(d.body@, 400)
    &&& r.error == d.fallback_reason
}

impl Delivery {
    /// The record of this reply held as a draft for review.
    pub fn draft_record(&self) -> (r: EmailResponseRecord)
        ensures
            records_draft(r, *self),
    {
        EmailResponseRecord {
            status: String::from_str("draft_pending_review"),
            endpoint: clone_opt_string(&self.endpoint),
            attempted_at: crate::clock::now_micros(),
            sent_message_id: None,
            sent_thread_id: None,
            recipient: self.recipient.clone(),
            subject: self.subject.clone(),
            response_preview: Some(preview_text(self.body.as_str(), 400)),
            error: clone_opt_string(&self.fallback_reason),
        }
    }
}

/// Leaves the reply as a draft for the staff member who approves replies and hands back to the
/// supervisor: the email is recorded as reviewed with the draft's record, and
/// nothing is sent.
pub fn hold_for_review(ctx: GlobalContext, delivery: &Delivery, instruction: &str) -> (r: TurnResult)
    requires
        ctx.current_email_index < usize::MAX,
    ensures
        back_to_supervisor(r, instruction@),
        exists|rec: EmailResponseRecord|
            records_draft(rec, *delivery) && #[trigger] finalized(
                GlobalContext { current_response: Some(rec), ..ctx },
                handed_context(r),
                "reviewed"@,
            ),
{
    let record = delivery.draft_record();
    let ghost rec = record;
    let r = finish_reply(ctx, record, instruction);
    proof {
        reveal_strlit("draft_pending_review");
        reveal_strlit("sent");
        reveal_strlit("sent_fallback");
        reveal_strlit("sent_without_endpoint");
        assert(rec.status@.len() == 20);
        assert("sent"@.len() == 4);
        assert("sent_fallback"@.len() == 13);
        assert("sent_without_endpoint"@.len() == 21);
        assert(!is_sent_status(rec.status@));
    }
    r
}

/// A draft once a person has read it: approved for sending or not.
pub struct ReviewedDraft {
    /// The reply as drafted.
    pub draft: Delivery,
    /// Whether it was approved for sending.
    pub approved: bool,
}

/// The reply that may go out for a reviewed draft: the draft itself once the
/// approver accepted it, and nothing otherwise.
pub fn release_for_sending(review: ReviewedDraft) -> (r: Option<Delivery>)
    ensures
        r is Some <==> review.approved,
        r matches Some(d) ==> d == review.draft,
{
    if review.approved {
        Some(review.draft)
    } else {
        None
    }
}

/// A reply that went out counts as a response in the report, whether it went
/// out at the first try, without an answering service, or as the fallback
/// after a failed send; a draft held for approval never does.
pub proof fn replies_that_went_out_count_as_responded(
    e: ProcessedEmail,
    d: Delivery,
    body: Seq<char>,
    sent: SentMessage,
)
    ensures
        (e.response matches Some(rec) && (records_sent(rec, d, body, sent, "sent"@) || records_sent(
            rec,
            d,
            body,
            sent,
            "sent_fallback"@,
        ) || records_sent(rec, d, body, sent, "sent_without_endpoint"@))) ==> is_responded(e),
        (e.response matches Some(rec) && records_draft(rec, d)) ==> !is_responded(e),
{
    reveal_strlit("draft_pending_review");
    reveal_strlit("sent");
    reveal_strlit("sent_fallback");
    reveal_strlit("sent_without_endpoint");
    assert("draft_pending_review"@.len() == 20);
    assert("sent"@.len() == 4);
    assert("sent_fallback"@.len() == 13);
    assert("sent_without_endpoint"@.len() == 21);
}

/// The disposition of an email whose reply ended with `record`.
pub open spec fn reply_disposition(record: EmailResponseRecord) -> Seq<char> {
    if is_sent_status(record.status@) {
        "responded"@
    } else {
        "reviewed"@
    }
}

/// Stores the reply record, records the email and hands back to the supervisor.
pub fn finish_reply(ctx: GlobalContext, record: EmailResponseRecord, instruction: &str) -> (r: TurnResult)
    requires
        ctx.current_email_index < usize::MAX,
    ensures
        back_to_supervisor(r, instruction@),
        finalized(
            GlobalContext { current_response: Some(record), ..ctx },
            handed_context(r),
            reply_disposition(record),
        ),
{
    let sent = is_sent(record.status.as_str());
    let mut ctx = ctx;
    ctx.current_response = Some(record);
    let disposition = if sent {
        "responded"
    } else {
        "reviewed"
    };
    finalize_current_email(&mut ctx, disposition);
    TurnResult::Delegate {
        target_agent: String::from_str("supervisor"),
        instruction: String::from_str(instruction),
        new_context: ctx,
    }
}

/// Where a reply goes once its text is known.
pub struct PendingReply {
    /// Address the reply is sent to.
    pub recipient: String,
    /// Subject of the reply.
    pub subject: String,
    /// Gmail thread the reply belongs to.
    pub thread_id: String,
}

/// The subject of the reply to `m`.
pub open spec fn reply_subject_for(m: GmailMessage) -> Seq<char> {
    reply_subject(
        match m.subject {
            Some(s) => s@,
            None => "(no subject)"@,
        },
    )
}

/// The address a reply to `m` goes to, if one can be read from its sender.
pub open spec fn reply_address(m: GmailMessage) -> Option<Seq<char>> {
    match m.from {
        Some(h) => email_address_in(h@),
        None => None,
    }
}

/// `t` hands back after recording that the email under review in `ctx` could
/// not be answered for want of a sender address; `endpoint` is the service
/// the record names.
pub open spec fn skipped_for_recipient(ctx: GlobalContext, endpoint: Option<String>, t: TurnResult) -> bool {
    let h = handed_context(t);
    let m = current_email_of(ctx)->0;
    let rec = h.reviewed_emails@.last().response->0;
    &&& back_to_supervisor(t, "Response skipped due to missing sender address."@)
    &&& h.reviewed_emails@.last().response is Some
    &&& finalized(GlobalContext { current_response: Some(rec), ..ctx }, h, "response_skipped"@)
    &&& rec.status@ == "failed_no_recipient"@
    &&& rec.endpoint == endpoint
    &&& rec.recipient@ == match m.from {
        Some(f) => f@,
        None => "<unknown sender>"@,
    }
    &&& rec.subject@ == reply_subject_for(m)
    &&& rec.error matches Some(e) && e@ == "unable to infer reply recipient from the From header"@
    &&& rec.sent_message_id is None
    &&& rec.sent_thread_id is None
    &&& rec.response_preview is None
}

fn skip_without_recipient(ctx: GlobalContext, endpoint: Option<String>) -> (t: TurnResult)
    requires
        current_email_of(ctx) is Some,
    ensures
        skipped_for_recipient(ctx, endpoint, t),
{
    let mut ctx = ctx;
    let idx = ctx.current_email_index;
    let count = ctx.emails.len();
    assert(idx < count);
    let recipient = match &ctx.emails[idx].from {
        Some(f) => f.clone(),
        None => String::from_str("<unknown sender>"),
    };
    let subject = match &ctx.emails[idx].subject {
        Some(s) => build_reply_subject(Some(s.as_str())),
        None => build_reply_subject(None),
    };
    let record = EmailResponseRecord::failed(
        "failed_no_recipient",
        endpoint,
        recipient,
        subject,
        "unable to infer reply recipient from the From header",
    );
    let ghost before = ctx;
    ctx.current_response = Some(record);
    assert(ctx == GlobalContext { current_response: Some(record), ..before });
    finalize_current_email(&mut ctx, "response_skipped");
    TurnResult::Delegate {
        target_agent: String::from_str("supervisor"),
        instruction: String::from_str("Response skipped due to missing sender address."),
        new_context: ctx,
    }
}

/// The first missing input of a reply, in the order the responders check them.
pub open spec fn reply_inputs_missing(ctx: GlobalContext) -> Option<Seq<char>> {
    if current_email_of(ctx) is None {
        Some("no active email to respond to"@)
    } else if ctx.current_classification is None {
        Some("response requires classification"@)
    } else if ctx.current_intent is None {
        Some("response requires extracted intent"@)
    } else if ctx.current_validation is None {
        Some("response requires validation"@)
    } else {
        None
    }
}

fn check_reply_inputs(ctx: &GlobalContext) -> (r: Result<(), AgentError>)
    ensures
        r is Ok <==> reply_inputs_missing(*ctx) is None,
        r matches Err(e) ==> (e matches AgentError::Context(t) && t@ == reply_inputs_missing(*ctx)->0),
{
    staged_email(ctx, "no active email to respond to")?;
    staged_classification(ctx, "response requires classification")?;
    staged_intent(ctx, "response requires extracted intent")?;
    staged_validation(ctx, "response requires validation")?;
    Ok(())
}

/// What the answer responder does next.
pub enum AnswerStep {
    /// The turn is over.
    Done(TurnResult),
    /// Ask the answer service at `endpoint` with the JSON body `request`.
    Generate { context: GlobalContext, pending: PendingReply, endpoint: String, request: String },
    /// Hold `delivery` as a draft for the staff member who approves replies.
    Draft { context: GlobalContext, delivery: Delivery },
}

/// `p` addresses the reply to `m` at `address`.
pub open spec fn pending_for(p: PendingReply, m: GmailMessage, address: Seq<char>) -> bool {
    &&& p.recipient@ == address
    &&& p.subject@ == reply_subject_for(m)
    &&& p.thread_id == m.thread_id
}

/// `d` carries `body` as the reply for `p`.
pub open spec fn delivers(
    d: Delivery,
    p: PendingReply,
    body: Seq<char>,
    endpoint: Option<String>,
    reason: Option<Seq<char>>,
) -> bool {
    &&& d.recipient == p.recipient
    &&& d.subject == p.subject
    &&& d.thread_id == p.thread_id
    &&& d.body@ == body
    &&& d.endpoint == endpoint
    &&& match (d.fallback_reason, reason) {
        (Some(a), Some(b)) => a@ == b,
        (None, None) => true,
        _ => false,
    }
}

/// `b` is `a` with `line` appended to its history.
pub open spec fn noted(a: GlobalContext, b: GlobalContext, line: Seq<char>) -> bool {
    &&& appended(a, b, seq![line])
    &&& b == GlobalContext { conversation_history: b.conversation_history, ..a }
}

fn note(ctx: &mut GlobalContext, line: String)
    ensures
        noted(*old(ctx), *final(ctx), line@),
{
    let ghost before = string_views(ctx.conversation_history@);
    ctx.conversation_history.push(line);
    assert(string_views(ctx.conversation_history@) =~= before + seq![line@]);
}

/// Drafts replies from the answer service, each held for approval before it
/// may be sent.
pub struct AnswerResponder {
    gmail: GmailClient,
}

impl AnswerResponder {
    /// Create the responder stage.
    pub fn new() -> (r: Self) {
        AnswerResponder { gmail: GmailClient }
    }

    /// Stable routing name for the agent.
    pub fn name(&self) -> (r: &'static str)
        ensures
            r@ == "answer_responder"@,
    {
        "answer_responder"
    }

    /// Decides how to answer the email under review: give up when no sender
    /// address can be read, ask the answer service about the citizen question
    /// when one is configured, and otherwise draft the temporary busy reply.
    pub fn plan(&self, ctx: GlobalContext) -> (r: Result<AnswerStep, AgentError>)
        ensures
            reply_inputs_missing(ctx) matches Some(missing) ==> (r matches Err(e) && e matches AgentError::Context(t)
                && t@ == missing),
            reply_inputs_missing(ctx) is None ==> ({
                let m = current_email_of(ctx)->0;
                match reply_address(m) {
                    None => r matches Ok(AnswerStep::Done(t)) && skipped_for_recipient(ctx, ctx.answer_endpoint, t),
                    Some(address) => match ctx.answer_endpoint {
                        Some(e) => r matches Ok(AnswerStep::Generate { context, pending, endpoint, request })
                            && context == ctx && pending_for(pending, m, address) && endpoint == e
                            && request@ == query_request(citizen_question(m)),
                        None => r matches Ok(AnswerStep::Draft { context, delivery }) && noted(
                            ctx,
                            context,
                            "AnswerResponder: no endpoint configured, using temporary busy reply"@,
                        ) && (exists|p: PendingReply| pending_for(p, m, address) && #[trigger] delivers(
                            delivery,
                            p,
                            fallback_message(
                                "No ANSWER_ENDPOINT_URL configured. Sending temporary busy response."@,
                                "answer endpoint"@,
                            ),
                            None,
                            Some("No answer endpoint configured"@),
                        )),
                    },
                }
            }),
    {
        check_reply_inputs(&ctx)?;
        let idx = ctx.current_email_index;
        let recipient = self.gmail.infer_reply_recipient(&ctx.emails[idx]);
        let recipient = match recipient {
            Some(a) => a,
            None => {
                let endpoint = clone_opt_string(&ctx.answer_endpoint);
                return Ok(AnswerStep::Done(skip_without_recipient(ctx, endpoint)));
            },
        };
        let subject = match &ctx.emails[idx].subject {
            Some(s) => build_reply_subject(Some(s.as_str())),
            None => build_reply_subject(None),
        };
        let pending = PendingReply {
            recipient,
            subject,
            thread_id: ctx.emails[idx].thread_id.clone(),
        };
        match &ctx.answer_endpoint {
            Some(e) => {
                let endpoint = e.clone();
                let request = answer_request_body(&ctx.emails[idx]);
                Ok(AnswerStep::Generate { context: ctx, pending, endpoint, request })
            },
            None => {
                let body = build_funny_fallback_message(
                    Some("No ANSWER_ENDPOINT_URL configured. Sending temporary busy response."),
                    "answer endpoint",
                );
                let mut ctx = ctx;
                note(
                    &mut ctx,
                    String::from_str("AnswerResponder: no endpoint configured, using temporary busy reply"),
                );
                let delivery = Delivery {
                    recipient: pending.recipient.clone(),
                    subject: pending.subject.clone(),
                    thread_id: pending.thread_id.clone(),
                    body,
                    endpoint: None,
                    fallback_reason: Some(String::from_str("No answer endpoint configured")),
                };
                assert(delivers(
                    delivery,
                    pending,
                    fallback_message(
                        "No ANSWER_ENDPOINT_URL configured. Sending temporary busy response."@,
                        "answer endpoint"@,
                    ),
                    None,
                    Some("No answer endpoint configured"@),
                ));
                Ok(AnswerStep::Draft { context: ctx, delivery })
            },
        }
    }
}

/// The reason given when the endpoint's answer reads as an error.
pub open spec fn error_like_reason() -> Seq<char> {
    "answer endpoint returned an error-like payload instead of an answer"@
}

/// What is sent, and noted, once the answer endpoint has replied with `outcome`
/// (its answer, or the text of its error).
pub open spec fn generation_handled(
    ctx: GlobalContext,
    pending: PendingReply,
    endpoint: String,
    outcome: Result<String, String>,
    context: GlobalContext,
    delivery: Delivery,
) -> bool {
    match outcome {
        Ok(g) => if is_error_like(g@) {
            &&& noted(ctx, context, "AnswerResponder: generated payload rejected as error-like"@)
            &&& delivers(
                delivery,
                pending,
                fallback_message(error_like_reason(), "answer endpoint"@),
                Some(endpoint),
                Some(error_like_reason()),
            )
        } else {
            &&& noted(ctx, context, "AnswerResponder: generated draft preview="@ + truncated(g@, 400))
            &&& delivers(delivery, pending, g@, Some(endpoint), None)
        },
        Err(e) => {
            let reason = "answer endpoint failed: "@ + e@;
            &&& noted(ctx, context, "AnswerResponder: using fallback because generation failed: "@ + reason)
            &&& delivers(
                delivery,
                pending,
                fallback_message(reason, "answer endpoint"@),
                Some(endpoint),
                Some(reason),
            )
        },
    }
}

/// Turns the answer service's reply into the draft: the answer
/// itself, or a fallback when it reads as an error or the call failed.
pub fn handle_generation(
    ctx: GlobalContext,
    pending: PendingReply,
    endpoint: String,
    outcome: Result<String, String>,
) -> (r: (GlobalContext, Delivery))
    ensures
        generation_handled(ctx, pending, endpoint, outcome, r.0, r.1),
{
    let mut ctx = ctx;
    match outcome {
        Ok(generated) => {
            if is_error_like_reply(generated.as_str()) {
                let reason = "answer endpoint returned an error-like payload instead of an answer";
                note(&mut ctx, String::from_str("AnswerResponder: generated payload rejected as error-like"));
                let body = build_funny_fallback_message(Some(reason), "answer endpoint");
                let d = Delivery {
                    recipient: pending.recipient,
                    subject: pending.subject,
                    thread_id: pending.thread_id,
                    body,
                    endpoint: Some(endpoint),
                    fallback_reason: Some(String::from_str(reason)),
                };
                (ctx, d)
            } else {
                let mut line = String::from_str("AnswerResponder: generated draft preview=");
                line.append(preview_text(generated.as_str(), 400).as_str());
                note(&mut ctx, line);
                let d = Delivery {
                    recipient: pending.recipient,
                    subject: pending.subject,
                    thread_id: pending.thread_id,
                    body: generated,
                    endpoint: Some(endpoint),
                    fallback_reason: None,
                };
                (ctx, d)
            }
        },
        Err(error) => {
            let mut reason = String::from_str("answer endpoint failed: ");
            reason.append(error.as_str());
            let mut line = String::from_str("AnswerResponder: using fallback because generation failed: ");
            line.append(reason.as_str());
            note(&mut ctx, line);
            let body = build_funny_fallback_message(Some(reason.as_str()), "answer endpoint");
            let d = Delivery {
                recipient: pending.recipient,
                subject: pending.subject,
                thread_id: pending.thread_id,
                body,
                endpoint: Some(endpoint),
                fallback_reason: Some(reason),
            };
            (ctx, d)
        },
    }
}

/// One search query tried against the Datagouv MCP tool.
#[derive(Clone, Debug)]
pub struct DatagouvQueryCandidate {
    /// Human-readable label used in logs.
    pub source: &'static str,
    /// Query string sent to Datagouv MCP.
    pub query: String,
}

/// A candidate as a pair of texts: its label and its query.
pub open spec fn candidate_view(c: DatagouvQueryCandidate) -> (Seq<char>, Seq<char>) {
    (c.source@, c.query@)
}

pub open spec fn candidate_views(cs: Seq<DatagouvQueryCandidate>) -> Seq<(Seq<char>, Seq<char>)> {
    cs.map_values(|c: DatagouvQueryCandidate| candidate_view(c))
}

/// The query built from a remembered set of terms.
pub open spec fn learned_query(p: ProjectProfile, terms: Seq<char>) -> Seq<char> {
    "French public data datasets | learned_terms: "@ + terms + " | project: "@ + normalized_search(p.name@)
}

/// Every query worth trying, in order: the four built queries, then one per
/// remembered set of terms, at most three of them.
pub open spec fn candidate_queries(
    p: ProjectProfile,
    m: GmailMessage,
    c: EmailClassification,
    i: EmailIntent,
    a: TaskAssessment,
    memory: Seq<Seq<char>>,
) -> Seq<(Seq<char>, Seq<char>)> {
    seq![
        ("primary_structured_query"@, structured_query(p, m, c, i, a)),
        ("focus_query"@, focus_query(p, m, c, i, a)),
        ("shorter_keyword_query"@, fallback_query(p, m, i)),
        ("minimal_keywords_only"@, keyword_only_query(m, i)),
    ] + first_n(memory, 3).map_values(|t: Seq<char>| ("learned_memory"@, learned_query(p, t)))
}

/// The candidates with blank queries and case-insensitive repeats left out.
pub open spec fn distinct_queries(cs: Seq<(Seq<char>, Seq<char>)>) -> Seq<(Seq<char>, Seq<char>)>
    decreases cs.len(),
{
    if cs.len() == 0 {
        cs
    } else {
        let prev = distinct_queries(cs.drop_last());
        let q = cs.last().1;
        if trim(q).len() == 0 || prev.map_values(|x: (Seq<char>, Seq<char>)| ascii_lowercase(x.1)).contains(
            ascii_lowercase(q),
        ) {
            prev
        } else {
            prev.push(cs.last())
        }
    }
}

/// The queries the Datagouv responder tries: distinct, non-blank, at most eight.
pub open spec fn query_plan(
    p: ProjectProfile,
    m: GmailMessage,
    c: EmailClassification,
    i: EmailIntent,
    a: TaskAssessment,
    memory: Seq<Seq<char>>,
) -> Seq<(Seq<char>, Seq<char>)> {
    first_n(distinct_queries(candidate_queries(p, m, c, i, a, memory)), 8)
}

/// Drafts replies from the Datagouv MCP tools, each held for approval before
/// it may be sent.
pub struct DatagouvResponder {
    gmail: GmailClient,
}

impl DatagouvResponder {
    /// Create the Datagouv MCP responder.
    pub fn new() -> (r: Self) {
        DatagouvResponder { gmail: GmailClient }
    }

    /// Stable routing name for the agent.
    pub fn name(&self) -> (r: &'static str)
        ensures
            r@ == "datagouv_responder"@,
    {
        "datagouv_responder"
    }

    /// Whether an MCP endpoint is configured.
    pub fn is_tool_call_enabled(&self, endpoint: &Option<String>) -> (b: bool)
        ensures
            b == (endpoint matches Some(e) && e@.len() > 0),
    {
        match endpoint {
            Some(e) => e.as_str().unicode_len() > 0,
            None => false,
        }
    }

    /// Subject of the reply.
    pub fn response_subject(&self, subject: Option<&str>) -> (r: String)
        ensures
            r@ == reply_subject(
                match subject {
                    Some(s) => s@,
                    None => "(no subject)"@,
                },
            ),
    {
        build_reply_subject(subject)
    }

    /// The search queries to try for the email, most specific first.
    #[verifier::spinoff_prover]
    #[verifier::rlimit(40)]
    pub fn query_variants(
        &self,
        profile: &ProjectProfile,
        message: &GmailMessage,
        classification: &EmailClassification,
        intent: &EmailIntent,
        assessment: &TaskAssessment,
        memory: &[String],
    ) -> (r: Vec<DatagouvQueryCandidate>)
        ensures
            candidate_views(r@) == query_plan(
                *profile,
                *message,
                *classification,
                *intent,
                *assessment,
                string_views(memory@),
            ),
    {
        let mut candidates: Vec<DatagouvQueryCandidate> = Vec::new();
        candidates.push(
            DatagouvQueryCandidate {
                source: "primary_structured_query",
                query: build_datagouv_query(profile, message, classification, intent, assessment),
            },
        );
        candidates.push(
            DatagouvQueryCandidate {
                source: "focus_query",
                query: build_datagouv_focus_query(profile, message, classification, intent, assessment),
            },
        );
        candidates.push(
            DatagouvQueryCandidate {
                source: "shorter_keyword_query",
                query: build_datagouv_fallback_query(profile, message, intent),
            },
        );
        candidates.push(
            DatagouvQueryCandidate {
                source: "minimal_keywords_only",
                query: build_datagouv_keyword_only_query(message, intent),
            },
        );
        let ghost head = candidate_views(candidates@);
        let project = normalize_search_text(profile.name.as_str());
        let mut k: usize = 0;
        while k < memory.len() && k < 3
            invariant
                k <= memory.len(),
                k <= 3,
                project@ == normalized_search(profile.name@),
                candidate_views(candidates@) == head + string_views(memory@).take(k as int).map_values(
                    |t: Seq<char>| ("learned_memory"@, learned_query(*profile, t)),
                ),
            decreases 3 - k,
        {
            let mut q = String::from_str("French public data datasets | learned_terms: ");
            q.append(memory[k].as_str());
            q.append(" | project: ");
            q.append(project.as_str());
            let ghost before = candidate_views(candidates@);
            candidates.push(DatagouvQueryCandidate { source: "learned_memory", query: q });
            assert(candidate_views(candidates@) =~= before.push(("learned_memory"@, learned_query(*profile, memory@[k as int]@))));
            k += 1;
            assert(string_views(memory@).take(k as int).map_values(
                |t: Seq<char>| ("learned_memory"@, learned_query(*profile, t)),
            ) =~= string_views(memory@).take(k - 1).map_values(
                |t: Seq<char>| ("learned_memory"@, learned_query(*profile, t)),
            ).push(("learned_memory"@, learned_query(*profile, memory@[k - 1]@))));
        }
        assert(string_views(memory@).take(k as int) =~= first_n(string_views(memory@), 3));
        assert(head =~= seq![
            ("primary_structured_query"@, structured_query(*profile, *message, *classification, *intent, *assessment)),
            ("focus_query"@, focus_query(*profile, *message, *classification, *intent, *assessment)),
            ("shorter_keyword_query"@, fallback_query(*profile, *message, *intent)),
            ("minimal_keywords_only"@, keyword_only_query(*message, *intent)),
        ]);
        let ghost all = candidate_views(candidates@);
        let mut kept: Vec<DatagouvQueryCandidate> = Vec::new();
        let mut keys: Vec<Vec<char>> = Vec::new();
        let mut j: usize = 0;
        while j < candidates.len()
            invariant
                j <= candidates.len(),
                all == candidate_views(candidates@),
                candidate_views(kept@) == distinct_queries(all.take(j as int)),
                views(keys@) == candidate_views(kept@).map_values(
                    |x: (Seq<char>, Seq<char>)| ascii_lowercase(x.1),
                ),
            decreases candidates.len() - j,
        {
            let ghost prev = all.take(j as int);
            assert(all.take(j + 1).drop_last() =~= prev);
            assert(all.take(j + 1).last() == candidate_view(candidates@[j as int]));
            let qc = chars_of(candidates[j].query.as_str());
            let blank = trim_chars(qc.as_slice()).len() == 0;
            let key = ascii_lowercase_chars(qc.as_slice());
            if !blank && !contains_word(keys.as_slice(), key.as_slice()) {
                let ghost kv = candidate_views(kept@);
                let ghost keyv = views(keys@);
                kept.push(DatagouvQueryCandidate { source: candidates[j].source, query: candidates[j].query.clone() });
                keys.push(key);
                assert(candidate_views(kept@) =~= kv.push(candidate_view(candidates@[j as int])));
                assert(views(keys@) =~= keyv.push(ascii_lowercase(candidates@[j as int].query@)));
                assert(views(keys@) =~= candidate_views(kept@).map_values(
                    |x: (Seq<char>, Seq<char>)| ascii_lowercase(x.1),
                ));
            }
            j += 1;
        }
        assert(all.take(candidates.len() as int) =~= all);
        let ghost d = candidate_views(kept@);
        kept.truncate(8);
        assert(candidate_views(kept@) =~= first_n(d, 8));
        kept
    }
}

impl PendingReply {
    /// The delivery of `body` to this reply's recipient.
    pub fn deliver(self, body: String, endpoint: Option<String>, fallback_reason: Option<String>) -> (d: Delivery)
        ensures
            d.recipient == self.recipient,
            d.subject == self.subject,
            d.thread_id == self.thread_id,
            d.body == body,
            d.endpoint == endpoint,
            d.fallback_reason == fallback_reason,
    {
        Delivery {
            recipient: self.recipient,
            subject: self.subject,
            thread_id: self.thread_id,
            body,
            endpoint,
            fallback_reason,
        }
    }
}

/// What the Datagouv responder does next.
pub enum DatagouvStep {
    /// The turn is over.
    Done(TurnResult),
    /// Search `endpoint` for data to answer with.
    Search { context: GlobalContext, pending: PendingReply, endpoint: String },
}

/// The configured MCP endpoint, when it is not blank.
pub open spec fn mcp_endpoint(ctx: GlobalContext) -> Option<String> {
    match ctx.datagouv_mcp_endpoint {
        Some(e) => if e@.len() > 0 {
            Some(e)
        } else {
            None
        },
        None => None,
    }
}

/// `t` hands back after recording that no MCP endpoint is configured.
pub open spec fn skipped_for_endpoint(ctx: GlobalContext, address: Seq<char>, t: TurnResult) -> bool {
    let h = handed_context(t);
    let m = current_email_of(ctx)->0;
    let rec = h.reviewed_emails@.last().response->0;
    &&& back_to_supervisor(
        t,
        "Datagouv responder skipped because DATAGOUV_MCP_ENDPOINT is not configured."@,
    )
    &&& h.reviewed_emails@.last().response is Some
    &&& finalized(GlobalContext { current_response: Some(rec), ..ctx }, h, "reviewed"@)
    &&& rec.status@ == "datagouv_skipped"@
    &&& rec.endpoint is None
    &&& rec.recipient@ == address
    &&& rec.subject@ == reply_subject_for(m)
    &&& rec.error matches Some(e) && e@ == "datagouv_mcp endpoint is not configured"@
    &&& rec.sent_message_id is None
    &&& rec.sent_thread_id is None
    &&& rec.response_preview is None
}

impl DatagouvResponder {
    /// Decides how to answer the email under review: give up when no sender
    /// address can be read or no MCP endpoint is configured, else search.
    pub fn plan(&self, ctx: GlobalContext) -> (r: Result<DatagouvStep, AgentError>)
        ensures
            reply_inputs_missing(ctx) matches Some(missing) ==> (r matches Err(e) && e matches AgentError::Context(t)
                && t@ == missing),
            reply_inputs_missing(ctx) is None ==> ({
                let m = current_email_of(ctx)->0;
                match reply_address(m) {
                    None => r matches Ok(DatagouvStep::Done(t)) && skipped_for_recipient(
                        ctx,
                        ctx.datagouv_mcp_endpoint,
                        t,
                    ),
                    Some(address) => match mcp_endpoint(ctx) {
                        None => r matches Ok(DatagouvStep::Done(t)) && skipped_for_endpoint(ctx, address, t),
                        Some(e) => r matches Ok(DatagouvStep::Search { context, pending, endpoint })
                            && context == ctx && pending_for(pending, m, address) && endpoint == e,
                    },
                }
            }),
    {
        check_reply_inputs(&ctx)?;
        let idx = ctx.current_email_index;
        let count = ctx.emails.len();
        assert(idx < count);
        let recipient = match self.gmail.infer_reply_recipient(&ctx.emails[idx]) {
            Some(a) => a,
            None => {
                let endpoint = clone_opt_string(&ctx.datagouv_mcp_endpoint);
                return Ok(DatagouvStep::Done(skip_without_recipient(ctx, endpoint)));
            },
        };
        let subject = match &ctx.emails[idx].subject {
            Some(s) => self.response_subject(Some(s.as_str())),
            None => self.response_subject(None),
        };
        let endpoint = match &ctx.datagouv_mcp_endpoint {
            Some(e) => if e.as_str().unicode_len() > 0 {
                Some(e.clone())
            } else {
                None
            },
            None => None,
        };
        match endpoint {
            None => {
                let record = EmailResponseRecord::failed(
                    "datagouv_skipped",
                    None,
                    recipient,
                    subject,
                    "datagouv_mcp endpoint is not configured",
                );
                let mut ctx = ctx;
                let ghost before = ctx;
                ctx.current_response = Some(record);
                assert(ctx == GlobalContext { current_response: Some(record), ..before });
                finalize_current_email(&mut ctx, "reviewed");
                Ok(
                    DatagouvStep::Done(
                        TurnResult::Delegate {
                            target_agent: String::from_str("supervisor"),
                            instruction: String::from_str(
                                "Datagouv responder skipped because DATAGOUV_MCP_ENDPOINT is not configured.",
                            ),
                            new_context: ctx,
                        },
                    ),
                )
            },
            Some(endpoint) => {
                let pending = PendingReply {
                    recipient,
                    subject,
                    thread_id: ctx.emails[idx].thread_id.clone(),
                };
                Ok(DatagouvStep::Search { context: ctx, pending, endpoint })
            },
        }
    }

    /// Keeps the learned `memory` on the blackboard and lists the queries to
    /// try, with the MCP tool to call.
    pub fn prepare_search(&self, ctx: GlobalContext, memory: Vec<String>) -> (r: Result<
        (GlobalContext, Vec<DatagouvQueryCandidate>, String),
        AgentError,
    >)
        ensures
            reply_inputs_missing(ctx) matches Some(missing) ==> (r matches Err(e) && e matches AgentError::Context(t)
                && t@ == missing),
            reply_inputs_missing(ctx) is None ==> (r matches Ok((c, variants, tool)) && c == (GlobalContext {
                datagouv_query_memory_cache: c.datagouv_query_memory_cache,
                ..ctx
            }) && c.datagouv_query_memory_cache@ == memory@ && candidate_views(variants@) == query_plan(
                ctx.project_profile,
                current_email_of(ctx)->0,
                ctx.current_classification->0,
                ctx.current_intent->0,
                ctx.current_validation->0,
                string_views(memory@),
            ) && tool@ == if trim(ctx.datagouv_mcp_tool@).len() == 0 {
                "search_datasets"@
            } else {
                ctx.datagouv_mcp_tool@
            }),
    {
        check_reply_inputs(&ctx)?;
        let idx = ctx.current_email_index;
        let variants = match (&ctx.current_classification, &ctx.current_intent, &ctx.current_validation) {
            (Some(c), Some(i), Some(a)) => self.query_variants(
                &ctx.project_profile,
                &ctx.emails[idx],
                c,
                i,
                a,
                memory.as_slice(),
            ),
            _ => {
                // Unreachable: the staged results were checked above.
                assert(false);
                Vec::new()
            },
        };
        let tool = if trim_chars(chars_of(ctx.datagouv_mcp_tool.as_str()).as_slice()).len() == 0 {
            String::from_str("search_datasets")
        } else {
            ctx.datagouv_mcp_tool.clone()
        };
        let mut ctx = ctx;
        ctx.datagouv_query_memory_cache = memory;
        Ok((ctx, variants, tool))
    }
}

/// Notes that a query variant was launched.
pub fn note_launch(ctx: &mut GlobalContext, candidate: &DatagouvQueryCandidate)
    ensures
        noted(
            *old(ctx),
            *final(ctx),
            "DatagouvResponder: launching query variant ["@ + candidate.source@ + "] "@
                + candidate.query@,
        ),
{
    let mut line = String::from_str("DatagouvResponder: launching query variant [");
    line.append(candidate.source);
    line.append("] ");
    line.append(candidate.query.as_str());
    note(ctx, line);
}

/// How one variant's reply was judged.
pub enum VariantVerdict {
    /// The reply can be sent as the answer.
    Usable(String),
    /// The reply cannot be used, for the reason given.
    Unusable(String),
}

/// A reply from the MCP tool that says something: neither an empty result nor
/// an error report.
pub open spec fn is_usable_reply(reply: Seq<char>) -> bool {
    !crate::agentic::replies::is_empty_result(reply) && !is_error_like(reply)
}

/// What one variant's reply leads to, and the history line it leaves.
pub open spec fn variant_judged(
    ctx: GlobalContext,
    source: Seq<char>,
    outcome: Result<String, String>,
    after: GlobalContext,
    v: VariantVerdict,
) -> bool {
    match outcome {
        Ok(c) => if is_usable_reply(c@) {
            &&& v == VariantVerdict::Usable(c)
            &&& noted(
                ctx,
                after,
                "DatagouvResponder: source "@ + source + " returned usable result ("@ + truncated(c@, 160)
                    + ")"@,
            )
        } else {
            &&& v matches VariantVerdict::Unusable(reason) && reason@
                == "candidate response was empty/error-like for source "@ + source + ": "@ + truncated(
                c@,
                160,
            )
            &&& noted(ctx, after, "DatagouvResponder: query variant ["@ + source + "] returned unusable answer"@)
        },
        Err(e) => {
            let reason = "query variant ["@ + source + "] failed with "@ + e@;
            &&& v matches VariantVerdict::Unusable(r) && r@ == reason
            &&& noted(ctx, after, "DatagouvResponder: "@ + reason)
        },
    }
}

/// Judges the reply to the variant labelled `source`: the tool's answer, or
/// the text of the error the call ended with.
pub fn judge_variant(ctx: &mut GlobalContext, source: &str, outcome: Result<String, String>) -> (v: VariantVerdict)
    ensures
        variant_judged(*old(ctx), source@, outcome, *final(ctx), v),
{
    match outcome {
        Ok(candidate) => {
            let summary = truncate_text(candidate.as_str(), 160);
            if !crate::agentic::replies::is_empty_datagouv_result(candidate.as_str())
                && !is_error_like_reply(candidate.as_str()) {
                let mut line = String::from_str("DatagouvResponder: source ");
                line.append(source);
                line.append(" returned usable result (");
                line.append(summary.as_str());
                line.append(")");
                note(ctx, line);
                VariantVerdict::Usable(candidate)
            } else {
                let mut reason = String::from_str("candidate response was empty/error-like for source ");
                reason.append(source);
                reason.append(": ");
                reason.append(summary.as_str());
                let mut line = String::from_str("DatagouvResponder: query variant [");
                line.append(source);
                line.append("] returned unusable answer");
                note(ctx, line);
                VariantVerdict::Unusable(reason)
            }
        },
        Err(error) => {
            let mut reason = String::from_str("query variant [");
            reason.append(source);
            reason.append("] failed with ");
            reason.append(error.as_str());
            let mut line = String::from_str("DatagouvResponder: ");
            line.append(reason.as_str());
            note(ctx, line);
            VariantVerdict::Unusable(reason)
        },
    }
}

/// Notes that a variant's task could not run; returns the reason.
pub fn note_variant_task_failure(ctx: &mut GlobalContext, error: &str) -> (reason: String)
    ensures
        reason@ == "Datagouv variant task failed to run: "@ + error@,
        noted(*old(ctx), *final(ctx), "DatagouvResponder: "@ + reason@),
{
    let mut reason = String::from_str("Datagouv variant task failed to run: ");
    reason.append(error);
    let mut line = String::from_str("DatagouvResponder: ");
    line.append(reason.as_str());
    note(ctx, line);
    reason
}

/// Why the search found nothing: the last failure, or a generic reason.
pub fn search_failure_reason(last_error: Option<String>) -> (r: String)
    ensures
        r@ == match last_error {
            Some(e) => e@,
            None => "no usable candidate was returned"@,
        },
{
    match last_error {
        Some(e) => e,
        None => String::from_str("no usable candidate was returned"),
    }
}

/// Notes how writing the memory line went.
pub fn note_memory_write(ctx: &mut GlobalContext, chosen_source: &str, outcome: Result<(), String>)
    ensures
        noted(
            *old(ctx),
            *final(ctx),
            match outcome {
                Ok(()) => "DatagouvResponder: persisted successful query pattern from "@ + chosen_source@
                    + " variant"@,
                Err(e) => "DatagouvResponder: failed to write memory entry: "@ + e@,
            },
        ),
{
    match outcome {
        Ok(()) => {
            let mut line = String::from_str("DatagouvResponder: persisted successful query pattern from ");
            line.append(chosen_source);
            line.append(" variant");
            note(ctx, line);
        },
        Err(e) => {
            let mut line = String::from_str("DatagouvResponder: failed to write memory entry: ");
            line.append(e.as_str());
            note(ctx, line);
        },
    }
}

/// The reply sent when no variant found data; notes why.
pub fn search_fallback(ctx: &mut GlobalContext, error: &str) -> (body: String)
    ensures
        body@ == fallback_message("Datagouv MCP did not return a useful result."@, "Datagouv MCP"@),
        noted(
            *old(ctx),
            *final(ctx),
            "DatagouvResponder: all-query variants failed or returned unusable answers ("@ + error@ + ")"@,
        ),
{
    let mut line = String::from_str(
        "DatagouvResponder: all-query variants failed or returned unusable answers (",
    );
    line.append(error);
    line.append(")");
    note(ctx, line);
    build_funny_fallback_message(Some("Datagouv MCP did not return a useful result."), "Datagouv MCP")
}

} // verus!
