//! The coordinator's bookkeeping between specialist turns: the step budget, the
//! history lines it writes, where control goes next, and when the mission ends.

use crate::agentic::report::{build_report, reports_on};
use crate::agentic::supervisor::TurnResult;
use crate::types::{GlobalContext, MissionReport};
use vstd::prelude::*;
use vstd::string::StringExecFns;

verus! {

/// Hard stop for pathological loops; prevents infinite specialist handoffs.
pub fn default_max_steps() -> (r: u32)
    ensures
        r == 64,
{
    64
}

/// Whether the coordinator may run another turn.
pub fn may_continue(context: &GlobalContext, max_steps: u32) -> (b: bool)
    ensures
        b == (context.step_count < max_steps),
{
    context.step_count < max_steps
}

/// The name of the agent the mission starts with.
pub fn first_agent() -> (r: String)
    ensures
        r@ == "supervisor"@,
{
    String::from_str("supervisor")
}

/// What happens after one specialist turn.
pub enum MissionStep {
    /// Run another turn with `next_agent` on `context`.
    Continue {
        context: GlobalContext,
        next_agent: String,
    },
    /// The mission is over.
    Finished {
        summary: String,
        report: MissionReport,
    },
}

/// `b` is `a` with `line` appended to its history and one more step counted.
pub open spec fn stepped_with(a: GlobalContext, b: GlobalContext, line: Seq<char>) -> bool {
    &&& b.step_count == a.step_count + 1
    &&& b.conversation_history@ == a.conversation_history@.push(b.conversation_history@.last())
    &&& b.conversation_history@.last()@ == line
    &&& b == GlobalContext { conversation_history: b.conversation_history, step_count: b.step_count, ..a }
}

/// The turn's result can be taken in without overflowing the step counter.
pub open spec fn turn_fits(result: TurnResult) -> bool {
    match result {
        TurnResult::KeepWorking { new_context, .. } => new_context.step_count < u32::MAX,
        TurnResult::Delegate { new_context, .. } => new_context.step_count < u32::MAX,
        TurnResult::FinalResult(_) => true,
    }
}

/// The coordinator's reaction to a turn of `agent` on `context`.
pub open spec fn mission_step(context: GlobalContext, agent: Seq<char>, result: TurnResult, step: MissionStep) -> bool {
    match result {
        TurnResult::KeepWorking { thought, new_context } => step matches MissionStep::Continue {
            context: c,
            next_agent,
        } && next_agent@ == agent && stepped_with(
            new_context,
            c,
            "SYSTEM: "@ + agent + " is still working: "@ + thought@,
        ),
        TurnResult::Delegate { target_agent, instruction, new_context } => step matches MissionStep::Continue {
            context: c,
            next_agent,
        } && next_agent == target_agent && stepped_with(
            new_context,
            c,
            "SYSTEM: "@ + agent + " delegated to "@ + target_agent@ + " with instruction: "@
                + instruction@,
        ),
        TurnResult::FinalResult(summary) => step matches MissionStep::Finished { summary: s, report } && s
            == summary && reports_on(report, context),
    }
}

fn push_history(ctx: &mut GlobalContext, line: String)
    ensures
        final(ctx).conversation_history@ == old(ctx).conversation_history@.push(line),
        *final(ctx) == (GlobalContext { conversation_history: final(ctx).conversation_history, ..*old(ctx) }),
{
    ctx.conversation_history.push(line);
}

/// Takes in the result of one turn of `agent_name`, run on `context`.
pub fn apply_turn(context: GlobalContext, agent_name: &str, result: TurnResult) -> (step: MissionStep)
    requires
        turn_fits(result),
    ensures
        mission_step(context, agent_name@, result, step),
{
    match result {
        TurnResult::KeepWorking { thought, new_context } => {
            let mut c = new_context;
            let mut line = String::from_str("SYSTEM: ");
            line.append(agent_name);
            line.append(" is still working: ");
            line.append(thought.as_str());
            push_history(&mut c, line);
            c.step_count = c.step_count + 1;
            MissionStep::Continue { context: c, next_agent: String::from_str(agent_name) }
        },
        TurnResult::Delegate { target_agent, instruction, new_context } => {
            let mut c = new_context;
            let mut line = String::from_str("SYSTEM: ");
            line.append(agent_name);
            line.append(" delegated to ");
            line.append(target_agent.as_str());
            line.append(" with instruction: ");
            line.append(instruction.as_str());
            push_history(&mut c, line);
            c.step_count = c.step_count + 1;
            MissionStep::Continue { context: c, next_agent: target_agent }
        },
        TurnResult::FinalResult(summary) => {
            MissionStep::Finished { summary, report: build_report(context) }
        },
    }
}

/// Notes in the history that `agent_name` failed with `error`.
pub fn record_failure(context: &mut GlobalContext, agent_name: &str, error: &str)
    ensures
        final(context).conversation_history@.len() == old(context).conversation_history@.len() + 1,
        final(context).conversation_history@.drop_last() == old(context).conversation_history@,
        final(context).conversation_history@.last()@ == "SYSTEM: "@ + agent_name@ + " failed: "@
            + error@,
        *final(context) == (GlobalContext {
            conversation_history: final(context).conversation_history,
            ..*old(context)
        }),
{
    let mut line = String::from_str("SYSTEM: ");
    line.append(agent_name);
    line.append(" failed: ");
    line.append(error);
    push_history(context, line);
    assert(context.conversation_history@.drop_last() =~= old(context).conversation_history@);
}

} // verus!
