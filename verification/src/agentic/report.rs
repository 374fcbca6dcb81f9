//! The mission report and the auditor's closing summary.

use crate::agentic::supervisor::TurnResult;
use crate::text::{decimal, decimal_string, eq_lit, chars_of};
use crate::types::{backend_label, GlobalContext, MissionReport, ProcessedEmail};
use vstd::prelude::*;
use vstd::string::StringExecFns;

verus! {

/// How many elements of `s` satisfy `p`.
pub open spec fn count_where<A>(s: Seq<A>, p: spec_fn(A) -> bool) -> nat
    decreases s.len(),
{
    if s.len() == 0 {
        0
    } else {
        count_where(s.drop_last(), p) + if p(s.last()) {
            1nat
        } else {
            0nat
        }
    }
}

pub proof fn lemma_count_at_most_len<A>(s: Seq<A>, p: spec_fn(A) -> bool)
    ensures
        count_where(s, p) <= s.len(),
    decreases s.len(),
{
    if s.len() > 0 {
        lemma_count_at_most_len(s.drop_last(), p);
    }
}

pub proof fn lemma_count_monotone<A>(s: Seq<A>, p: spec_fn(A) -> bool, q: spec_fn(A) -> bool)
    requires
        forall|x: A| #[trigger] p(x) ==> q(x),
    ensures
        count_where(s, p) <= count_where(s, q),
    decreases s.len(),
{
    if s.len() > 0 {
        lemma_count_monotone(s.drop_last(), p, q);
    }
}

/// The email was classified as related to the project.
pub open spec fn is_related(e: ProcessedEmail) -> bool {
    e.classification.related_to_project
}

/// The email was judged worth queueing.
pub open spec fn is_queueable(e: ProcessedEmail) -> bool {
    e.assessment matches Some(a) && a.should_queue
}

/// The email's task was written to the queue.
pub open spec fn is_persisted(e: ProcessedEmail) -> bool {
    e.queued_job matches Some(j) && j.status@ == "queued"@
}

/// A reply was attempted for the email.
pub open spec fn is_response_attempted(e: ProcessedEmail) -> bool {
    e.response is Some
}

/// A status meaning that a reply went out.
pub open spec fn is_sent_status(s: Seq<char>) -> bool {
    s == "sent"@ || s == "sent_fallback"@ || s == "sent_without_endpoint"@
}

/// A reply went out for the email.
pub open spec fn is_responded(e: ProcessedEmail) -> bool {
    e.response matches Some(r) && is_sent_status(r.status@)
}

/// The email's assessment asks for a human review.
pub open spec fn needs_review(e: ProcessedEmail) -> bool {
    e.assessment matches Some(a) && a.needs_human_review
}

/// Whether a reply status means the reply went out.
pub fn is_sent(status: &str) -> (b: bool)
    ensures
        b == is_sent_status(status@),
{
    let v = chars_of(status);
    eq_lit(v.as_slice(), "sent") || eq_lit(v.as_slice(), "sent_fallback") || eq_lit(
        v.as_slice(),
        "sent_without_endpoint",
    )
}

/// Counts of the reviewed emails by outcome.
pub struct OutcomeCounts {
    pub related: usize,
    pub queueable: usize,
    pub persisted: usize,
    pub responded: usize,
    pub attempted: usize,
    pub review_needed: usize,
}

/// Tallies the reviewed emails by outcome.
pub fn count_outcomes(emails: &Vec<ProcessedEmail>) -> (r: OutcomeCounts)
    ensures
        r.related == count_where(emails@, |e: ProcessedEmail| is_related(e)),
        r.queueable == count_where(emails@, |e: ProcessedEmail| is_queueable(e)),
        r.persisted == count_where(emails@, |e: ProcessedEmail| is_persisted(e)),
        r.responded == count_where(emails@, |e: ProcessedEmail| is_responded(e)),
        r.attempted == count_where(emails@, |e: ProcessedEmail| is_response_attempted(e)),
        r.review_needed == count_where(emails@, |e: ProcessedEmail| needs_review(e)),
{
    let mut c = OutcomeCounts {
        related: 0,
        queueable: 0,
        persisted: 0,
        responded: 0,
        attempted: 0,
        review_needed: 0,
    };
    let mut k: usize = 0;
    while k < emails.len()
        invariant
            k <= emails.len(),
            c.related == count_where(emails@.take(k as int), |e: ProcessedEmail| is_related(e)),
            c.queueable == count_where(emails@.take(k as int), |e: ProcessedEmail| is_queueable(e)),
            c.persisted == count_where(emails@.take(k as int), |e: ProcessedEmail| is_persisted(e)),
            c.responded == count_where(emails@.take(k as int), |e: ProcessedEmail| is_responded(e)),
            c.attempted == count_where(
                emails@.take(k as int),
                |e: ProcessedEmail| is_response_attempted(e),
            ),
            c.review_needed == count_where(emails@.take(k as int), |e: ProcessedEmail| needs_review(e)),
            c.related <= k,
            c.queueable <= k,
            c.persisted <= k,
            c.responded <= k,
            c.attempted <= k,
            c.review_needed <= k,
        decreases emails.len() - k,
    {
        let e = &emails[k];
        assert(emails@.take(k + 1).drop_last() =~= emails@.take(k as int));
        assert(emails@.take(k + 1).last() == emails@[k as int]);
        if e.classification.related_to_project {
            c.related = c.related + 1;
        }
        if let Some(a) = &e.assessment {
            if a.should_queue {
                c.queueable = c.queueable + 1;
            }
            if a.needs_human_review {
                c.review_needed = c.review_needed + 1;
            }
        }
        if let Some(j) = &e.queued_job {
            if eq_lit(chars_of(j.status.as_str()).as_slice(), "queued") {
                c.persisted = c.persisted + 1;
            }
        }
        if let Some(resp) = &e.response {
            c.attempted = c.attempted + 1;
            if is_sent(resp.status.as_str()) {
                c.responded = c.responded + 1;
            }
        }
        k += 1;
    }
    assert(emails@.take(emails.len() as int) =~= emails@);
    c
}

/// Whether `r` reports on the finished mission `ctx`.
pub open spec fn reports_on(r: MissionReport, ctx: GlobalContext) -> bool {
    let e = ctx.reviewed_emails@;
    &&& r.objective == ctx.objective
    &&& r.query == ctx.query
    &&& r.queue_backend == ctx.queue_backend
    &&& r.total_loaded == ctx.emails@.len()
    &&& r.related_count == count_where(e, |x: ProcessedEmail| is_related(x))
    &&& r.queueable_count == count_where(e, |x: ProcessedEmail| is_queueable(x))
    &&& r.persisted_count == count_where(e, |x: ProcessedEmail| is_persisted(x))
    &&& r.responded_count == count_where(e, |x: ProcessedEmail| is_responded(x))
    &&& r.response_attempt_count == count_where(e, |x: ProcessedEmail| is_response_attempted(x))
    &&& r.reviewed_emails == ctx.reviewed_emails
    &&& r.conversation_history == ctx.conversation_history
}

/// Builds the final report from the finished mission's blackboard.
pub fn build_report(context: GlobalContext) -> (r: MissionReport)
    ensures
        reports_on(r, context),
        r.related_count <= r.reviewed_emails@.len(),
        r.queueable_count <= r.reviewed_emails@.len(),
        r.persisted_count <= r.reviewed_emails@.len(),
        r.responded_count <= r.response_attempt_count,
        r.response_attempt_count <= r.reviewed_emails@.len(),
{
    let c = count_outcomes(&context.reviewed_emails);
    proof {
        let e = context.reviewed_emails@;
        lemma_count_at_most_len(e, |x: ProcessedEmail| is_related(x));
        lemma_count_at_most_len(e, |x: ProcessedEmail| is_queueable(x));
        lemma_count_at_most_len(e, |x: ProcessedEmail| is_persisted(x));
        lemma_count_at_most_len(e, |x: ProcessedEmail| is_response_attempted(x));
        lemma_count_monotone(
            e,
            |x: ProcessedEmail| is_responded(x),
            |x: ProcessedEmail| is_response_attempted(x),
        );
    }
    MissionReport {
        objective: context.objective,
        query: context.query,
        queue_backend: context.queue_backend,
        total_loaded: context.emails.len(),
        related_count: c.related,
        queueable_count: c.queueable,
        persisted_count: c.persisted,
        responded_count: c.responded,
        response_attempt_count: c.attempted,
        reviewed_emails: context.reviewed_emails,
        conversation_history: context.conversation_history,
    }
}

/// The auditor's one-line summary of the mission.
pub open spec fn audit_summary(ctx: GlobalContext) -> Seq<char> {
    let e = ctx.reviewed_emails@;
    "Processed "@ + decimal(e.len()) + " email(s): "@ + decimal(
        count_where(e, |x: ProcessedEmail| is_related(x)),
    ) + " related to MarianneAI, "@ + decimal(count_where(e, |x: ProcessedEmail| is_persisted(x)))
        + " persisted to the "@ + backend_label(ctx.queue_backend) + " queue backend, "@ + decimal(
        count_where(e, |x: ProcessedEmail| needs_review(x)),
    ) + " still need human review."@
}

/// Final report generator and mission terminator.
pub struct Auditor;

impl Auditor {
    /// Stable routing name for the agent.
    pub fn name(&self) -> (r: &'static str)
        ensures
            r@ == "auditor"@,
    {
        "auditor"
    }

    /// Ends the mission with a summary of what happened to the emails.
    pub fn run_turn(&self, ctx: GlobalContext) -> (r: TurnResult)
        ensures
            r matches TurnResult::FinalResult(summary) && summary@ == audit_summary(ctx),
    {
        let c = count_outcomes(&ctx.reviewed_emails);
        let mut s = String::from_str("Processed ");
        s.append(decimal_string(ctx.reviewed_emails.len() as u64).as_str());
        s.append(" email(s): ");
        s.append(decimal_string(c.related as u64).as_str());
        s.append(" related to MarianneAI, ");
        s.append(decimal_string(c.persisted as u64).as_str());
        s.append(" persisted to the ");
        s.append(ctx.queue_backend.label().as_str());
        s.append(" queue backend, ");
        s.append(decimal_string(c.review_needed as u64).as_str());
        s.append(" still need human review.");
        TurnResult::FinalResult(s)
    }
}

} // verus!
