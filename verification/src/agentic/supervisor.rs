//! The deterministic supervisor that routes each email through the specialists,
//! and the bookkeeping that records an email once its review is over.

use crate::text::decimal_string;
use crate::types::{
    backend_label, moved_on, same_message, EmailClassification, GlobalContext, ProcessedEmail,
};
use crate::text::decimal;
use vstd::prelude::*;
use vstd::string::StringExecFns;

verus! {

/// The result of one specialist turn in the coordinator loop.
pub enum TurnResult {
    /// Continue the current agent on another turn.
    KeepWorking {
        /// Human-readable reasoning for logs.
        thought: String,
        /// Updated context.
        new_context: GlobalContext,
    },
    /// Delegate control to another specialist.
    Delegate {
        /// Registered target agent name.
        target_agent: String,
        /// Instruction for the next specialist.
        instruction: String,
        /// Updated context.
        new_context: GlobalContext,
    },
    /// End the mission.
    FinalResult(String),
}

/// The classification recorded for an email that never got one.
pub open spec fn is_unclassified(c: EmailClassification) -> bool {
    &&& !c.related_to_project
    &&& c.category@ == "unclassified"@
    &&& c.confidence_bits == 0
    &&& !c.public_data_relevance
    &&& c.reasoning@ == "No classification was produced."@
}

/// `p` records the email under review in `a`, with its staged results and `disposition`.
pub open spec fn records_current(p: ProcessedEmail, a: GlobalContext, disposition: Seq<char>) -> bool {
    &&& same_message(p.message, a.emails@[a.current_email_index as int])
    &&& match a.current_classification {
        Some(c) => p.classification == c,
        None => is_unclassified(p.classification),
    }
    &&& p.intent == a.current_intent
    &&& p.assessment == a.current_validation
    &&& p.queued_job == a.current_queue_record
    &&& p.response == a.current_response
    &&& p.disposition@ == disposition
}

/// `b` is `a` after the email under review, if any, was recorded with
/// `disposition` and the review moved on to the next one.
pub open spec fn finalized(a: GlobalContext, b: GlobalContext, disposition: Seq<char>) -> bool {
    &&& moved_on(a, b)
    &&& if a.current_email_index < a.emails@.len() {
        &&& b.reviewed_emails@.len() == a.reviewed_emails@.len() + 1
        &&& b.reviewed_emails@.drop_last() == a.reviewed_emails@
        &&& records_current(b.reviewed_emails@.last(), a, disposition)
    } else {
        b.reviewed_emails@ == a.reviewed_emails@
    }
}

/// Records the email under review with `disposition` and moves on to the next one.
pub fn finalize_current_email(ctx: &mut GlobalContext, disposition: &str)
    requires
        old(ctx).current_email_index < usize::MAX,
    ensures
        finalized(*old(ctx), *final(ctx), disposition@),
{
    let ghost before = *ctx;
    if ctx.current_email_index < ctx.emails.len() {
        let message = ctx.emails[ctx.current_email_index].clone();
        let classification = match ctx.current_classification.take() {
            Some(c) => c,
            None => EmailClassification {
                related_to_project: false,
                category: String::from_str("unclassified"),
                confidence_bits: 0,
                public_data_relevance: false,
                reasoning: String::from_str("No classification was produced."),
            },
        };
        let record = ProcessedEmail {
            message,
            classification,
            intent: ctx.current_intent.take(),
            assessment: ctx.current_validation.take(),
            queued_job: ctx.current_queue_record.take(),
            response: ctx.current_response.take(),
            disposition: String::from_str(disposition),
        };
        ctx.reviewed_emails.push(record);
        assert(ctx.reviewed_emails@.drop_last() =~= before.reviewed_emails@);
    }
    ctx.advance_email();
}

/// Deterministic supervisor mirroring the industrial pipeline.
pub struct Supervisor;

/// Where the supervisor sends the mission next.
pub enum Route {
    LoadMailbox,
    Audit,
    Classify,
    SkipUnrelated,
    ExtractIntent,
    Validate,
    Persist,
    AnswerWithDatagouv,
    Answer,
    Conclude,
}

/// The supervisor's routing rule, checked in order: load the mailbox, audit
/// once every email is done, classify, drop unrelated emails, extract intent,
/// validate, persist queue-worthy tasks, answer, and finally record the email.
pub open spec fn supervisor_route(ctx: GlobalContext) -> Route {
    if !ctx.mailbox_loaded {
        Route::LoadMailbox
    } else if ctx.current_email_index >= ctx.emails@.len() {
        Route::Audit
    } else if ctx.current_classification is None {
        Route::Classify
    } else if !ctx.current_classification->0.related_to_project {
        Route::SkipUnrelated
    } else if ctx.current_intent is None {
        Route::ExtractIntent
    } else if ctx.current_validation is None {
        Route::Validate
    } else if ctx.current_validation->0.should_queue && ctx.current_queue_record is None {
        Route::Persist
    } else if ctx.current_response is None {
        if ctx.answer_endpoint is None && ctx.datagouv_mcp_endpoint is Some {
            Route::AnswerWithDatagouv
        } else {
            Route::Answer
        }
    } else {
        Route::Conclude
    }
}

/// The agent each route hands control to.
pub open spec fn route_target(r: Route) -> Seq<char> {
    match r {
        Route::LoadMailbox => "mailbox_reader"@,
        Route::Audit => "auditor"@,
        Route::Classify => "relevance_classifier"@,
        Route::SkipUnrelated => "supervisor"@,
        Route::ExtractIntent => "intent_extractor"@,
        Route::Validate => "task_validator"@,
        Route::Persist => "queue_writer"@,
        Route::AnswerWithDatagouv => "datagouv_responder"@,
        Route::Answer => "answer_responder"@,
        Route::Conclude => "supervisor"@,
    }
}

/// The instruction handed over with each route.
pub open spec fn route_instruction(r: Route, ctx: GlobalContext) -> Seq<char> {
    match r {
        Route::LoadMailbox => "Load up to "@ + decimal(ctx.max_emails as nat) + " Gmail messages matching `"@
            + ctx.query@ + "`."@,
        Route::Audit => "All available emails have been processed."@,
        Route::Classify => "Classify whether the current email is relevant to MarianneAI."@,
        Route::SkipUnrelated => "The current email is not related to MarianneAI."@,
        Route::ExtractIntent => "Extract the sender intent from the current MarianneAI email."@,
        Route::Validate => "Decide whether the extracted intent is clear enough to become a queued task."@,
        Route::Persist => "Persist the validated task to the "@ + backend_label(ctx.queue_backend)
            + " queue backend."@,
        Route::AnswerWithDatagouv => "Prepare an answer for this related email using Datagouv MCP data tools."@,
        Route::Answer => "Prepare an answer for this related email."@,
        Route::Conclude => "Continue with the next email."@,
    }
}

/// The disposition recorded when the supervisor concludes an email itself.
pub open spec fn conclusion(ctx: GlobalContext) -> Seq<char> {
    if ctx.current_validation matches Some(a) && a.should_queue {
        "queued"@
    } else {
        "reviewed"@
    }
}

/// What one supervisor turn does to the blackboard.
pub open spec fn supervisor_turn(ctx: GlobalContext, r: TurnResult) -> bool {
    let route = supervisor_route(ctx);
    match r {
        TurnResult::Delegate { target_agent, instruction, new_context } => {
            &&& target_agent@ == route_target(route)
            &&& instruction@ == route_instruction(route, ctx)
            &&& match route {
                Route::SkipUnrelated => finalized(ctx, new_context, "ignored"@),
                Route::Conclude => finalized(ctx, new_context, conclusion(ctx)),
                _ => new_context == ctx,
            }
        },
        _ => false,
    }
}

fn delegate(target: &str, instruction: String, ctx: GlobalContext) -> (r: TurnResult)
    ensures
        r matches TurnResult::Delegate { target_agent, instruction: i, new_context } && target_agent@
            == target@ && i == instruction && new_context == ctx,
{
    TurnResult::Delegate { target_agent: String::from_str(target), instruction, new_context: ctx }
}

impl Supervisor {
    /// Stable routing name for the agent.
    pub fn name(&self) -> (r: &'static str)
        ensures
            r@ == "supervisor"@,
    {
        "supervisor"
    }

    /// Decides the next specialist for the email under review.
    pub fn run_turn(&self, ctx: GlobalContext) -> (r: TurnResult)
        ensures
            supervisor_turn(ctx, r),
    {
        if !ctx.mailbox_loaded {
            let mut instruction = String::from_str("Load up to ");
            let n = decimal_string(ctx.max_emails as u64);
            instruction.append(n.as_str());
            instruction.append(" Gmail messages matching `");
            instruction.append(ctx.query.as_str());
            instruction.append("`.");
            return delegate("mailbox_reader", instruction, ctx);
        }
        if ctx.current_email_index >= ctx.emails.len() {
            return delegate(
                "auditor",
                String::from_str("All available emails have been processed."),
                ctx,
            );
        }
        if ctx.current_classification.is_none() {
            return delegate(
                "relevance_classifier",
                String::from_str("Classify whether the current email is relevant to MarianneAI."),
                ctx,
            );
        }
        let related = match &ctx.current_classification {
            Some(c) => c.related_to_project,
            None => true,
        };
        if !related {
            let ghost before = ctx;
            let mut ctx = ctx;
            finalize_current_email(&mut ctx, "ignored");
            return delegate(
                "supervisor",
                String::from_str("The current email is not related to MarianneAI."),
                ctx,
            );
        }
        if ctx.current_intent.is_none() {
            return delegate(
                "intent_extractor",
                String::from_str("Extract the sender intent from the current MarianneAI email."),
                ctx,
            );
        }
        if ctx.current_validation.is_none() {
            return delegate(
                "task_validator",
                String::from_str(
                    "Decide whether the extracted intent is clear enough to become a queued task.",
                ),
                ctx,
            );
        }
        let should_queue = match &ctx.current_validation {
            Some(a) => a.should_queue,
            None => false,
        };
        if should_queue && ctx.current_queue_record.is_none() {
            let mut instruction = String::from_str("Persist the validated task to the ");
            let label = ctx.queue_backend.label();
            instruction.append(label.as_str());
            instruction.append(" queue backend.");
            return delegate("queue_writer", instruction, ctx);
        }
        if ctx.current_response.is_none() {
            if ctx.answer_endpoint.is_none() && ctx.datagouv_mcp_endpoint.is_some() {
                return delegate(
                    "datagouv_responder",
                    String::from_str(
                        "Prepare an answer for this related email using Datagouv MCP data tools.",
                    ),
                    ctx,
                );
            }
            return delegate(
                "answer_responder",
                String::from_str("Prepare an answer for this related email."),
                ctx,
            );
        }
        let disposition = if should_queue {
            "queued"
        } else {
            "reviewed"
        };
        let mut ctx = ctx;
        finalize_current_email(&mut ctx, disposition);
        delegate("supervisor", String::from_str("Continue with the next email."), ctx)
    }
}

/// The emails reviewed so far are the first ones of the mailbox, one record
/// each, in mailbox order.
pub open spec fn reviewed_in_order(ctx: GlobalContext) -> bool {
    &&& ctx.reviewed_emails@.len() == ctx.current_email_index
    &&& ctx.current_email_index <= ctx.emails@.len()
    &&& forall|k: int|
        0 <= k < ctx.reviewed_emails@.len() ==> same_message(
            #[trigger] ctx.reviewed_emails@[k].message,
            ctx.emails@[k],
        )
}

/// Recording the email under review keeps the review in mailbox order: one
/// more record, for the next email of the mailbox.
pub proof fn finalizing_keeps_review_order(a: GlobalContext, b: GlobalContext, disposition: Seq<char>)
    requires
        reviewed_in_order(a),
        a.current_email_index < a.emails@.len(),
        finalized(a, b, disposition),
    ensures
        reviewed_in_order(b),
{
    assert forall|k: int| 0 <= k < b.reviewed_emails@.len() implies same_message(
        #[trigger] b.reviewed_emails@[k].message,
        b.emails@[k],
    ) by {
        if k < a.reviewed_emails@.len() {
            assert(b.reviewed_emails@[k] == b.reviewed_emails@.drop_last()[k]);
        }
    }
}

/// Every supervisor turn keeps the review in mailbox order: it records an
/// email only when it moves on from it, and only the one under review.
pub proof fn supervisor_turn_keeps_review_order(ctx: GlobalContext, r: TurnResult)
    requires
        reviewed_in_order(ctx),
        supervisor_turn(ctx, r),
    ensures
        r matches TurnResult::Delegate { new_context, .. } && reviewed_in_order(new_context),
{
    if let TurnResult::Delegate { new_context, .. } = r {
        match supervisor_route(ctx) {
            Route::SkipUnrelated => finalizing_keeps_review_order(ctx, new_context, "ignored"@),
            Route::Conclude => finalizing_keeps_review_order(ctx, new_context, conclusion(ctx)),
            _ => {},
        }
    }
}

/// A validated task worth queueing is stored before anything else happens to
/// its email: whenever the email under review is related, has its intent and
/// a validation that says to queue it, and has no queue record yet, the
/// supervisor hands it to the queue writer. An email whose validation says
/// not to queue it is never handed to the queue writer.
pub proof fn queue_worthy_tasks_go_to_the_queue_writer(ctx: GlobalContext, r: TurnResult)
    requires
        supervisor_turn(ctx, r),
    ensures
        ({
            &&& ctx.mailbox_loaded
            &&& ctx.current_email_index < ctx.emails@.len()
            &&& ctx.current_classification matches Some(c) && c.related_to_project
            &&& ctx.current_intent is Some
            &&& ctx.current_validation matches Some(v) && v.should_queue
            &&& ctx.current_queue_record is None
        }) ==> (r matches TurnResult::Delegate { target_agent, new_context, .. } && target_agent@
            == "queue_writer"@ && new_context == ctx),
        (ctx.current_validation matches Some(v) && !v.should_queue) ==> !(r matches TurnResult::Delegate {
            target_agent,
            ..
        } && target_agent@ == "queue_writer"@),
{
    reveal_strlit("queue_writer");
    reveal_strlit("mailbox_reader");
    reveal_strlit("auditor");
    reveal_strlit("relevance_classifier");
    reveal_strlit("supervisor");
    reveal_strlit("intent_extractor");
    reveal_strlit("task_validator");
    reveal_strlit("datagouv_responder");
    reveal_strlit("answer_responder");
    assert("queue_writer"@.len() == 12);
    assert("mailbox_reader"@.len() == 14);
    assert("auditor"@.len() == 7);
    assert("relevance_classifier"@.len() == 20);
    assert("supervisor"@.len() == 10);
    assert("intent_extractor"@.len() == 16);
    assert("task_validator"@.len() == 14);
    assert("datagouv_responder"@.len() == 18);
    assert("answer_responder"@.len() == 16);
}

/// The supervisor walks each email through the pipeline in order: it loads
/// the mailbox first, hands over to the auditor once every email is done, and
/// for the email under review asks for a classification, drops it (recorded
/// as ignored) when unrelated, asks for its intent, then its validation, and
/// once any queue-worthy task is stored asks for an answer, from the Datagouv
/// tools exactly when no answer service but a Datagouv endpoint is set.
pub proof fn emails_go_through_the_pipeline_in_order(ctx: GlobalContext, r: TurnResult)
    requires
        supervisor_turn(ctx, r),
    ensures
        r matches TurnResult::Delegate { target_agent, new_context, .. } && {
            let loaded = ctx.mailbox_loaded;
            let pending = ctx.current_email_index < ctx.emails@.len();
            let related = (ctx.current_classification matches Some(c) && c.related_to_project);
            let unrelated = (ctx.current_classification matches Some(c) && !c.related_to_project);
            let stored = (ctx.current_validation matches Some(v) && (!v.should_queue
                || ctx.current_queue_record is Some));
            &&& !loaded ==> target_agent@ == "mailbox_reader"@ && new_context == ctx
            &&& loaded && !pending ==> target_agent@ == "auditor"@ && new_context == ctx
            &&& loaded && pending && ctx.current_classification is None ==> target_agent@
                == "relevance_classifier"@ && new_context == ctx
            &&& loaded && pending && unrelated ==> target_agent@ == "supervisor"@ && finalized(
                ctx,
                new_context,
                "ignored"@,
            )
            &&& loaded && pending && related && ctx.current_intent is None ==> target_agent@
                == "intent_extractor"@ && new_context == ctx
            &&& loaded && pending && related && ctx.current_intent is Some && ctx.current_validation is None
                ==> target_agent@ == "task_validator"@ && new_context == ctx
            &&& loaded && pending && related && ctx.current_intent is Some && stored
                && ctx.current_response is None ==> new_context == ctx && if ctx.answer_endpoint is None
                && ctx.datagouv_mcp_endpoint is Some {
                target_agent@ == "datagouv_responder"@
            } else {
                target_agent@ == "answer_responder"@
            }
        },
{
}

} // verus!
