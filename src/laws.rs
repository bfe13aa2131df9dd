//! Properties of whole chats, proved over the agent's transitions.

use vstd::prelude::*;
use crate::agent::{
    agent_wf, found_count, lemma_tool_replies, outcomes_step, reply_step, reset_step, start_step,
    tool_replies, ActionModel, AgentModel, OutcomeModel, Phase, ResponseModel, CAP_REACHED_REPLY,
    MAX_ITERATIONS,
};
use crate::message::{plain_message, Role};
use crate::registry::resolve_tool;

verus! {

/// One tool round-trip: a provider reply and the outcomes of the runs it asked for.
pub struct RoundModel {
    pub response: ResponseModel,
    pub outcomes: Seq<OutcomeModel>,
}

/// Drives an agent that awaits the provider through `rounds`, one after the
/// other, for as long as it keeps asking for the provider.
pub open spec fn run_rounds(s: AgentModel, rounds: Seq<RoundModel>) -> (AgentModel, ActionModel)
    decreases rounds.len(),
{
    if rounds.len() == 0 {
        (s, ActionModel::CallProvider)
    } else {
        let s1 = reply_step(s, Ok(rounds[0].response)).0;
        let step = outcomes_step(s1, rounds[0].outcomes);
        if step.1 is CallProvider {
            run_rounds(step.0, rounds.drop_first())
        } else {
            step
        }
    }
}

/// Every response of `rounds` asks for at least one tool.
pub open spec fn all_request_tools(rounds: Seq<RoundModel>) -> bool {
    forall|i: int| 0 <= i < rounds.len() ==> #[trigger] rounds[i].response.tool_calls.len() > 0
}

/// Rounds that all ask for tools add one provider call each, until the cap
/// ends the chat with the fixed completion reply.
pub proof fn lemma_run_rounds(s: AgentModel, rounds: Seq<RoundModel>)
    requires
        1 <= s.provider_calls <= MAX_ITERATIONS,
        all_request_tools(rounds),
    ensures
        s.provider_calls + rounds.len() <= MAX_ITERATIONS ==> {
            &&& run_rounds(s, rounds).0.provider_calls == s.provider_calls + rounds.len()
            &&& run_rounds(s, rounds).1 == ActionModel::CallProvider
            &&& run_rounds(s, rounds).0.phase == Phase::AwaitingModel || rounds.len() == 0
        },
        s.provider_calls + rounds.len() > MAX_ITERATIONS ==> {
            &&& run_rounds(s, rounds).0.provider_calls == MAX_ITERATIONS
            &&& run_rounds(s, rounds).1 == ActionModel::Finish(CAP_REACHED_REPLY@)
            &&& run_rounds(s, rounds).0.phase == Phase::Idle
        },
    decreases rounds.len(),
{
    if rounds.len() > 0 {
        assert(rounds[0].response.tool_calls.len() > 0);
        let s1 = reply_step(s, Ok(rounds[0].response)).0;
        let step = outcomes_step(s1, rounds[0].outcomes);
        if s.provider_calls < MAX_ITERATIONS {
            let rest = rounds.drop_first();
            assert forall|i: int| 0 <= i < rest.len() implies #[trigger] rest[i].response.tool_calls.len()
                > 0 by {
                assert(rest[i] == rounds[i + 1]);
            }
            lemma_run_rounds(step.0, rest);
        }
    }
}

/// A chat whose first provider reply asks for no tool ends with exactly that
/// reply's content after one provider call, and the history grows by exactly
/// the user's message and the assistant's answer.
pub proof fn law_plain_reply_ends_chat(s: AgentModel, user: Seq<char>, resp: ResponseModel)
    requires
        agent_wf(s),
        s.phase == Phase::Idle,
        resp.tool_calls.len() == 0,
    ensures
        ({
            let (s1, a1) = start_step(s, user);
            let (s2, a2) = reply_step(s1, Ok(resp));
            &&& a1 == ActionModel::CallProvider
            &&& a2 == ActionModel::Finish(resp.content)
            &&& s2.provider_calls == 1
            &&& s2.phase == Phase::Idle
            &&& s2.history == s.history + seq![
                plain_message(Role::User, user),
                plain_message(Role::Assistant, resp.content),
            ]
        }),
{
    let s2 = reply_step(start_step(s, user).0, Ok(resp)).0;
    assert(s2.history =~= s.history + seq![
        plain_message(Role::User, user),
        plain_message(Role::Assistant, resp.content),
    ]);
}

/// Below the cap, N rounds that ask for tools followed by a reply that asks
/// for none take exactly N + 1 provider calls, and the chat ends with that
/// last reply's content.
pub proof fn law_tool_rounds_then_answer(
    s: AgentModel,
    user: Seq<char>,
    rounds: Seq<RoundModel>,
    last: ResponseModel,
)
    requires
        agent_wf(s),
        s.phase == Phase::Idle,
        rounds.len() < MAX_ITERATIONS,
        all_request_tools(rounds),
        last.tool_calls.len() == 0,
    ensures
        ({
            let s1 = start_step(s, user).0;
            let (s2, a2) = run_rounds(s1, rounds);
            let (s3, a3) = reply_step(s2, Ok(last));
            &&& a2 == ActionModel::CallProvider
            &&& a3 == ActionModel::Finish(last.content)
            &&& s3.provider_calls == rounds.len() + 1
            &&& s3.phase == Phase::Idle
        }),
{
    lemma_run_rounds(start_step(s, user).0, rounds);
}

/// A provider that never stops asking for tools gets exactly the capped
/// number of calls, and the chat ends with the fixed completion reply.
pub proof fn law_endless_tool_requests(s: AgentModel, user: Seq<char>, rounds: Seq<RoundModel>)
    requires
        agent_wf(s),
        s.phase == Phase::Idle,
        rounds.len() >= MAX_ITERATIONS,
        all_request_tools(rounds),
    ensures
        ({
            let (t, a) = run_rounds(start_step(s, user).0, rounds);
            &&& a == ActionModel::Finish(CAP_REACHED_REPLY@)
            &&& t.provider_calls == MAX_ITERATIONS
            &&& t.phase == Phase::Idle
        }),
{
    lemma_run_rounds(start_step(s, user).0, rounds);
}

/// No transition during a chat goes past the cap, and a provider call is
/// asked for exactly when the count of provider calls goes up by one.
pub proof fn law_provider_calls_capped(
    s: AgentModel,
    reply: Result<ResponseModel, Seq<char>>,
    outs: Seq<OutcomeModel>,
)
    requires
        agent_wf(s),
    ensures
        s.phase == Phase::AwaitingModel ==> ({
            let (t, a) = reply_step(s, reply);
            &&& t.provider_calls == s.provider_calls <= MAX_ITERATIONS
            &&& !(a is CallProvider)
        }),
        s.phase == Phase::RunningTools ==> ({
            let (t, a) = outcomes_step(s, outs);
            &&& t.provider_calls <= MAX_ITERATIONS
            &&& (a is CallProvider <==> t.provider_calls == s.provider_calls + 1)
            &&& (!(a is CallProvider) ==> t.provider_calls == s.provider_calls)
        }),
{
}

/// After a round's outcomes come back, the history grows by exactly one tool
/// message per call of that round, in the calls' order, each answering the id
/// of the matching call in the assistant message just before them.
pub proof fn law_tool_messages_answer_calls(s: AgentModel, outs: Seq<OutcomeModel>)
    requires
        agent_wf(s),
        s.phase == Phase::RunningTools,
    ensures
        ({
            let t = outcomes_step(s, outs).0;
            let asked = s.history.last();
            let n = s.history.len();
            &&& asked.role == Role::Assistant
            &&& t.history.len() == n + asked.tool_calls.len()
            &&& t.history.subrange(0, n as int) == s.history
            &&& forall|i: int|
                0 <= i < asked.tool_calls.len() ==> {
                    &&& (#[trigger] t.history[n + i]).role == Role::Tool
                    &&& t.history[n + i].tool_call_id == Some(asked.tool_calls[i].id)
                }
        }),
{
    lemma_tool_replies(s.pending, s.tools, outs);
    let t = outcomes_step(s, outs).0;
    assert(t.history.subrange(0, s.history.len() as int) =~= s.history);
    assert forall|i: int| 0 <= i < s.pending.len() implies (#[trigger] t.history[s.history.len()
        + i]).role == Role::Tool by {
        assert(t.history[s.history.len() + i] == tool_replies(s.pending, s.tools, outs)[i]);
    }
    assert forall|i: int| 0 <= i < s.pending.len() implies (#[trigger] t.history[s.history.len()
        + i]).tool_call_id == Some(s.pending[i].id) by {
        assert(t.history[s.history.len() + i] == tool_replies(s.pending, s.tools, outs)[i]);
    }
}

/// Tool problems never fail a chat: a call of an unregistered tool is
/// answered with a text naming that tool, a run that failed with a text
/// tagged as a tool error, and the chat goes on to the next provider call
/// (or, at the cap, ends with the completion reply).
pub proof fn law_tool_problems_are_contained(s: AgentModel, outs: Seq<OutcomeModel>)
    requires
        agent_wf(s),
        s.phase == Phase::RunningTools,
    ensures
        ({
            let (t, a) = outcomes_step(s, outs);
            let n = s.history.len();
            &&& a == ActionModel::CallProvider || a == ActionModel::Finish(CAP_REACHED_REPLY@)
            &&& forall|i: int|
                0 <= i < s.pending.len() && resolve_tool(s.tools, s.pending[i].name) is None
                    ==> (#[trigger] t.history[n + i]).content == "Unknown tool: "@
                    + s.pending[i].name
            &&& forall|i: int|
                0 <= i < s.pending.len() && resolve_tool(s.tools, s.pending[i].name) is Some
                    && outs[found_count(s.pending.take(i), s.tools) as int] is Failed
                    ==> (#[trigger] t.history[n + i]).content == "Tool error: "@
                    + outs[found_count(s.pending.take(i), s.tools) as int]->Failed_0
        }),
{
    lemma_tool_replies(s.pending, s.tools, outs);
    let t = outcomes_step(s, outs).0;
    let n = s.history.len();
    assert forall|i: int| 0 <= i < s.pending.len() implies #[trigger] t.history[n + i]
        == tool_replies(s.pending, s.tools, outs)[i] by {}
}

/// After a reset, a chat answered without tools leaves exactly the system
/// preamble, the user's message and the answer.
pub proof fn law_reset_then_chat(s: AgentModel, user: Seq<char>, resp: ResponseModel)
    requires
        resp.tool_calls.len() == 0,
    ensures
        ({
            let r = reset_step(s);
            let (t, a) = reply_step(start_step(r, user).0, Ok(resp));
            &&& agent_wf(r)
            &&& a == ActionModel::Finish(resp.content)
            &&& t.history == seq![
                plain_message(Role::System, s.system),
                plain_message(Role::User, user),
                plain_message(Role::Assistant, resp.content),
            ]
        }),
{
    let r = reset_step(s);
    let t = reply_step(start_step(r, user).0, Ok(resp)).0;
    assert(t.history =~= seq![
        plain_message(Role::System, s.system),
        plain_message(Role::User, user),
        plain_message(Role::Assistant, resp.content),
    ]);
}

} // verus!
