//! The agent loop as a state machine.
//!
//! One `chat` is driven by the caller: `start_chat` appends the user's
//! message and asks for a provider call; each provider reply is handed to
//! `receive_reply`, which either finishes the chat or asks for tool runs;
//! the tool results go to `receive_tool_outcomes`, which appends one tool
//! message per call and asks for the next provider call, or finishes once
//! the round-trip cap is reached. The conversation history persists across
//! chats until `reset`.

use vstd::prelude::*;
use crate::message::{
    assistant_with_tools_message, calls_model, duplicate_calls, messages_model, plain_message,
    tool_message, CallModel, Message, MessageModel, Role, ToolCall,
};
use crate::registry::{
    definitions_model, resolve_tool, DefinitionModel, ToolDefinition, ToolRegistry,
};

verus! {

/// The most provider round-trips one chat may make.
pub const MAX_ITERATIONS: usize = 10;

/// The answer given when the cap is reached while tools are still requested.
pub const CAP_REACHED_REPLY: &'static str = "I've completed the requested actions.";

/// The preamble every conversation starts with.
pub const SYSTEM_PROMPT: &'static str = "You are ZeptoBot, a helpful AI assistant that can control the user's Mac computer. You have tools to move the mouse, click, type text, press keyboard keys, and get screen information. When the user asks you to perform an action on their computer, use the appropriate tools. Be concise in your responses. Describe what you did after performing actions.";

/// One turn returned by the provider.
#[derive(Debug)]
pub struct ProviderResponse {
    pub content: String,
    pub tool_calls: Vec<ToolCall>,
}

pub struct ResponseModel {
    pub content: Seq<char>,
    pub tool_calls: Seq<CallModel>,
}

impl View for ProviderResponse {
    type V = ResponseModel;

    open spec fn view(&self) -> ResponseModel {
        ResponseModel { content: self.content@, tool_calls: calls_model(self.tool_calls@) }
    }
}

/// The model of a provider reply, or of its failure.
pub open spec fn reply_model(reply: Result<ProviderResponse, String>) -> Result<ResponseModel, Seq<char>> {
    match reply {
        Ok(resp) => Ok(resp@),
        Err(e) => Err(e@),
    }
}

/// What a tool handed back when it ran to the end.
#[derive(Debug)]
pub struct ToolOutput {
    /// The text fed back to the provider, whether or not the action succeeded.
    pub for_llm: String,
    pub success: bool,
}

impl ToolOutput {
    /// A successful result.
    pub fn llm_only(text: &str) -> (r: ToolOutput)
        ensures
            r.for_llm@ == text@,
            r.success,
    {
        ToolOutput { for_llm: String::from_str(text), success: true }
    }

    /// A result reporting that the action could not be done.
    pub fn error(text: &str) -> (r: ToolOutput)
        ensures
            r.for_llm@ == text@,
            !r.success,
    {
        ToolOutput { for_llm: String::from_str(text), success: false }
    }
}

/// How one tool run ended.
#[derive(Debug)]
pub enum ToolOutcome {
    /// The handler returned an output.
    Completed(ToolOutput),
    /// The handler failed or crashed; the details say how.
    Failed(String),
}

pub enum OutcomeModel {
    Completed { for_llm: Seq<char>, success: bool },
    Failed(Seq<char>),
}

impl View for ToolOutcome {
    type V = OutcomeModel;

    open spec fn view(&self) -> OutcomeModel {
        match self {
            ToolOutcome::Completed(o) => OutcomeModel::Completed {
                for_llm: o.for_llm@,
                success: o.success,
            },
            ToolOutcome::Failed(d) => OutcomeModel::Failed(d@),
        }
    }
}

pub open spec fn outcomes_model(outs: Seq<ToolOutcome>) -> Seq<OutcomeModel> {
    outs.map_values(|o: ToolOutcome| o@)
}

/// The text that a tool run feeds back into the conversation.
pub open spec fn outcome_text(o: OutcomeModel) -> Seq<char> {
    match o {
        OutcomeModel::Completed { for_llm, .. } => for_llm,
        OutcomeModel::Failed(details) => "Tool error: "@ + details,
    }
}

/// The tool result for a call of a tool that is not registered.
pub open spec fn unknown_tool_text(name: Seq<char>) -> Seq<char> {
    "Unknown tool: "@ + name
}

/// The error a chat fails with when the provider fails.
pub open spec fn provider_error_text(e: Seq<char>) -> Seq<char> {
    "LLM error: "@ + e
}

/// A registered tool to run for one call.
#[derive(Debug)]
pub struct ToolRun {
    /// Position of the tool in the registry.
    pub tool: usize,
    pub call: ToolCall,
}

pub struct RunModel {
    pub tool: int,
    pub call: CallModel,
}

pub open spec fn runs_model(runs: Seq<ToolRun>) -> Seq<RunModel> {
    runs.map_values(|r: ToolRun| RunModel { tool: r.tool as int, call: r.call@ })
}

/// What the caller is to do next.
#[derive(Debug)]
pub enum Action {
    /// Send the history and the tool definitions to the provider.
    CallProvider,
    /// Run these tools, in this order, and hand back one outcome for each.
    RunTools(Vec<ToolRun>),
    /// The chat is over; this is its answer.
    Finish(String),
    /// The chat failed with this error.
    Fail(String),
}

pub enum ActionModel {
    CallProvider,
    RunTools(Seq<RunModel>),
    Finish(Seq<char>),
    Fail(Seq<char>),
}

impl View for Action {
    type V = ActionModel;

    open spec fn view(&self) -> ActionModel {
        match self {
            Action::CallProvider => ActionModel::CallProvider,
            Action::RunTools(runs) => ActionModel::RunTools(runs_model(runs@)),
            Action::Finish(text) => ActionModel::Finish(text@),
            Action::Fail(e) => ActionModel::Fail(e@),
        }
    }
}

/// Where a chat stands.
#[derive(Clone, Copy, Debug, PartialEq, Eq, Structural)]
pub enum Phase {
    /// No chat is in progress.
    Idle,
    /// A provider reply is awaited.
    AwaitingModel,
    /// The outcomes of the requested tool runs are awaited.
    RunningTools,
}

/// How many of `calls` name a registered tool.
pub open spec fn found_count(calls: Seq<CallModel>, tools: Seq<DefinitionModel>) -> nat
    decreases calls.len(),
{
    if calls.len() == 0 {
        0
    } else {
        found_count(calls.drop_last(), tools) + if resolve_tool(tools, calls.last().name) is Some {
            1nat
        } else {
            0nat
        }
    }
}

/// The runs asked for by `calls`: one for each call of a registered tool, in order.
pub open spec fn tool_runs(calls: Seq<CallModel>, tools: Seq<DefinitionModel>) -> Seq<RunModel>
    decreases calls.len(),
{
    if calls.len() == 0 {
        Seq::empty()
    } else {
        let before = tool_runs(calls.drop_last(), tools);
        match resolve_tool(tools, calls.last().name) {
            Some(i) => before.push(RunModel { tool: i, call: calls.last() }),
            None => before,
        }
    }
}

/// The tool message answering `call`, where `outs[k]` is the outcome of its run.
pub open spec fn tool_reply(
    call: CallModel,
    tools: Seq<DefinitionModel>,
    outs: Seq<OutcomeModel>,
    k: nat,
) -> MessageModel {
    if resolve_tool(tools, call.name) is Some {
        tool_message(call.id, outcome_text(outs[k as int]))
    } else {
        tool_message(call.id, unknown_tool_text(call.name))
    }
}

/// The tool messages answering `calls`, in order; the runs of registered
/// tools take their outcomes from `outs`, in order.
pub open spec fn tool_replies(
    calls: Seq<CallModel>,
    tools: Seq<DefinitionModel>,
    outs: Seq<OutcomeModel>,
) -> Seq<MessageModel>
    decreases calls.len(),
{
    if calls.len() == 0 {
        Seq::empty()
    } else {
        let prev = calls.drop_last();
        tool_replies(prev, tools, outs).push(
            tool_reply(calls.last(), tools, outs, found_count(prev, tools)),
        )
    }
}

/// Mathematical model of an agent: its conversation and where its chat stands.
pub struct AgentModel {
    pub system: Seq<char>,
    pub history: Seq<MessageModel>,
    pub tools: Seq<DefinitionModel>,
    pub phase: Phase,
    /// Provider calls asked for in the current (or last) chat.
    pub provider_calls: nat,
    /// The calls of the round whose tool outcomes are awaited.
    pub pending: Seq<CallModel>,
}

/// The history of a fresh conversation.
pub open spec fn fresh_history(system: Seq<char>) -> Seq<MessageModel> {
    seq![plain_message(Role::System, system)]
}

/// The message at `p` is a tool message answering the call at the matching
/// position of the assistant turn at `q`, with only tool messages between.
pub open spec fn answers_call(h: Seq<MessageModel>, p: int, q: int) -> bool {
    &&& 0 <= q < p < h.len()
    &&& h[q].role == Role::Assistant
    &&& p - q - 1 < h[q].tool_calls.len()
    &&& forall|r: int| q < r < p ==> #[trigger] h[r].role == Role::Tool
    &&& h[p].tool_call_id == Some(h[q].tool_calls[p - q - 1].id)
}

/// Every tool message of `h` answers a call of the assistant turn just
/// before its run of tool messages.
pub open spec fn tool_messages_answered(h: Seq<MessageModel>) -> bool {
    forall|p: int|
        0 <= p < h.len() && #[trigger] h[p].role == Role::Tool ==> exists|q: int|
            answers_call(h, p, q)
}

/// The invariant of an agent.
pub open spec fn agent_wf(s: AgentModel) -> bool {
    &&& tool_messages_answered(s.history)
    &&& s.history.len() >= 1
    &&& s.history[0] == plain_message(Role::System, s.system)
    &&& s.provider_calls <= MAX_ITERATIONS
    &&& s.phase != Phase::Idle ==> s.provider_calls >= 1
    &&& s.phase == Phase::RunningTools ==> {
        &&& s.pending.len() > 0
        &&& s.history.last().role == Role::Assistant
        &&& s.history.last().tool_calls == s.pending
    }
    &&& s.phase != Phase::RunningTools ==> s.pending.len() == 0
}

/// The agent after `reset`.
pub open spec fn reset_step(s: AgentModel) -> AgentModel {
    AgentModel {
        history: fresh_history(s.system),
        phase: Phase::Idle,
        provider_calls: 0,
        pending: Seq::empty(),
        ..s
    }
}

/// The agent and the action after `start_chat`.
pub open spec fn start_step(s: AgentModel, user: Seq<char>) -> (AgentModel, ActionModel) {
    (
        AgentModel {
            history: s.history.push(plain_message(Role::User, user)),
            phase: Phase::AwaitingModel,
            provider_calls: 1,
            pending: Seq::empty(),
            ..s
        },
        ActionModel::CallProvider,
    )
}

/// The agent and the action after `receive_reply`.
pub open spec fn reply_step(s: AgentModel, reply: Result<ResponseModel, Seq<char>>) -> (
    AgentModel,
    ActionModel,
) {
    match reply {
        Err(e) => (AgentModel { phase: Phase::Idle, ..s }, ActionModel::Fail(provider_error_text(e))),
        Ok(resp) => if resp.tool_calls.len() == 0 {
            (
                AgentModel {
                    history: s.history.push(plain_message(Role::Assistant, resp.content)),
                    phase: Phase::Idle,
                    ..s
                },
                ActionModel::Finish(resp.content),
            )
        } else {
            (
                AgentModel {
                    history: s.history.push(
                        assistant_with_tools_message(resp.content, resp.tool_calls),
                    ),
                    phase: Phase::RunningTools,
                    pending: resp.tool_calls,
                    ..s
                },
                ActionModel::RunTools(tool_runs(resp.tool_calls, s.tools)),
            )
        },
    }
}

/// The agent and the action after `receive_tool_outcomes`.
pub open spec fn outcomes_step(s: AgentModel, outs: Seq<OutcomeModel>) -> (AgentModel, ActionModel) {
    let history = s.history + tool_replies(s.pending, s.tools, outs);
    if s.provider_calls < MAX_ITERATIONS {
        (
            AgentModel {
                history,
                phase: Phase::AwaitingModel,
                provider_calls: s.provider_calls + 1,
                pending: Seq::empty(),
                ..s
            },
            ActionModel::CallProvider,
        )
    } else {
        (
            AgentModel { history, phase: Phase::Idle, pending: Seq::empty(), ..s },
            ActionModel::Finish(CAP_REACHED_REPLY@),
        )
    }
}

/// The shape of the tool messages of a round: one per call, in order, each
/// answering its call's id; an unregistered tool gets the unknown-tool text,
/// a registered one the text of its own outcome.
pub proof fn lemma_tool_replies(
    calls: Seq<CallModel>,
    tools: Seq<DefinitionModel>,
    outs: Seq<OutcomeModel>,
)
    ensures
        tool_replies(calls, tools, outs).len() == calls.len(),
        forall|i: int|
            0 <= i < calls.len() ==> {
                let m = #[trigger] tool_replies(calls, tools, outs)[i];
                &&& m.role == Role::Tool
                &&& m.tool_call_id == Some(calls[i].id)
                &&& m.tool_calls.len() == 0
                &&& resolve_tool(tools, calls[i].name) is None ==> m.content == unknown_tool_text(
                    calls[i].name,
                )
                &&& resolve_tool(tools, calls[i].name) is Some ==> m.content == outcome_text(
                    outs[found_count(calls.take(i), tools) as int],
                )
            },
    decreases calls.len(),
{
    if calls.len() > 0 {
        let prev = calls.drop_last();
        lemma_tool_replies(prev, tools, outs);
        assert forall|i: int| 0 <= i < prev.len() implies #[trigger] prev.take(i) == calls.take(i) by {
            assert(prev.take(i) =~= calls.take(i));
        }
        assert(calls.take(prev.len() as int) =~= prev);
    }
}

/// Extending a history keeps its tool messages answered, given that the
/// new tool messages are answered.
proof fn lemma_answered_extend(h: Seq<MessageModel>, h2: Seq<MessageModel>)
    requires
        h.len() <= h2.len(),
        forall|i: int| 0 <= i < h.len() ==> h2[i] == h[i],
        tool_messages_answered(h),
        forall|p: int|
            h.len() <= p < h2.len() && #[trigger] h2[p].role == Role::Tool ==> exists|q: int|
                answers_call(h2, p, q),
    ensures
        tool_messages_answered(h2),
{
    assert forall|p: int| 0 <= p < h2.len() && #[trigger] h2[p].role == Role::Tool implies exists|
        q: int,
    | answers_call(h2, p, q) by {
        if p < h.len() {
            assert(h[p].role == Role::Tool);
            let q = choose|q: int| answers_call(h, p, q);
            assert(answers_call(h2, p, q));
        }
    }
}

/// Appending a message that is not a tool message keeps the invariant.
proof fn lemma_push_keeps_answered(h: Seq<MessageModel>, m: MessageModel)
    requires
        tool_messages_answered(h),
        m.role != Role::Tool,
    ensures
        tool_messages_answered(h.push(m)),
{
    lemma_answered_extend(h, h.push(m));
}

/// Every transition keeps the invariant.
pub proof fn lemma_steps_keep_wf(
    s: AgentModel,
    user: Seq<char>,
    reply: Result<ResponseModel, Seq<char>>,
    outs: Seq<OutcomeModel>,
)
    requires
        agent_wf(s),
    ensures
        agent_wf(reset_step(s)),
        s.phase == Phase::Idle ==> agent_wf(start_step(s, user).0),
        s.phase == Phase::AwaitingModel ==> agent_wf(reply_step(s, reply).0),
        s.phase == Phase::RunningTools ==> agent_wf(outcomes_step(s, outs).0),
{
    let f = fresh_history(s.system);
    assert forall|p: int| 0 <= p < f.len() && #[trigger] f[p].role == Role::Tool implies exists|
        q: int,
    | answers_call(f, p, q) by {}
    lemma_push_keeps_answered(s.history, plain_message(Role::User, user));
    match reply {
        Ok(resp) => {
            lemma_push_keeps_answered(s.history, plain_message(Role::Assistant, resp.content));
            lemma_push_keeps_answered(
                s.history,
                assistant_with_tools_message(resp.content, resp.tool_calls),
            );
        },
        Err(_) => {},
    }
    if s.phase == Phase::RunningTools {
        let h = s.history;
        let replies = tool_replies(s.pending, s.tools, outs);
        let h2 = h + replies;
        lemma_tool_replies(s.pending, s.tools, outs);
        let q = h.len() - 1;
        assert forall|p: int| h.len() <= p < h2.len() && #[trigger] h2[p].role == Role::Tool implies exists|
            q: int,
        | answers_call(h2, p, q) by {
            assert(h2[p] == replies[p - h.len()]);
            assert forall|r: int| q < r < p implies #[trigger] h2[r].role == Role::Tool by {
                assert(h2[r] == replies[r - h.len()]);
            }
            assert(answers_call(h2, p, q));
        }
        lemma_answered_extend(h, h2);
    }
}

/// `found_count` only grows along the prefixes of `calls`.
proof fn lemma_found_count_prefix(calls: Seq<CallModel>, tools: Seq<DefinitionModel>, i: int)
    requires
        0 <= i <= calls.len(),
    ensures
        found_count(calls.take(i), tools) <= found_count(calls, tools),
    decreases calls.len() - i,
{
    if i < calls.len() {
        assert(calls.take(i + 1).drop_last() =~= calls.take(i));
        lemma_found_count_prefix(calls, tools, i + 1);
    } else {
        assert(calls.take(i) =~= calls);
    }
}

/// The text a tool outcome contributes to its tool message.
fn outcome_message_text(o: &ToolOutcome) -> (r: String)
    ensures
        r@ == outcome_text(o@),
{
    match o {
        ToolOutcome::Completed(out) => out.for_llm.clone(),
        ToolOutcome::Failed(details) => String::from_str("Tool error: ").concat(details.as_str()),
    }
}

/// The runs that `calls` ask for, in order.
fn runs_for(calls: &Vec<ToolCall>, registry: &ToolRegistry) -> (r: Vec<ToolRun>)
    ensures
        runs_model(r@) == tool_runs(calls_model(calls@), registry@),
{
    let ghost cm = calls_model(calls@);
    let mut r: Vec<ToolRun> = Vec::new();
    let mut i: usize = 0;
    while i < calls.len()
        invariant
            i <= calls.len(),
            cm == calls_model(calls@),
            runs_model(r@) == tool_runs(cm.take(i as int), registry@),
        decreases calls.len() - i,
    {
        let ghost before = r@;
        proof {
            assert(cm.take(i + 1).drop_last() =~= cm.take(i as int));
        }
        match registry.resolve(&calls[i].name) {
            Some(t) => {
                r.push(ToolRun { tool: t, call: calls[i].duplicate() });
                assert(runs_model(r@) =~= runs_model(before).push(
                    RunModel { tool: t as int, call: cm[i as int] },
                ));
            },
            None => {},
        }
        i = i + 1;
    }
    assert(cm.take(calls@.len() as int) =~= cm);
    r
}

/// Appends one tool message per pending call, in order.
fn append_tool_replies(
    history: &mut Vec<Message>,
    pending: &Vec<ToolCall>,
    registry: &ToolRegistry,
    outcomes: &Vec<ToolOutcome>,
)
    requires
        outcomes@.len() == found_count(calls_model(pending@), registry@),
    ensures
        messages_model(final(history)@) == messages_model(old(history)@) + tool_replies(
            calls_model(pending@),
            registry@,
            outcomes_model(outcomes@),
        ),
{
    let ghost cm = calls_model(pending@);
    let ghost om = outcomes_model(outcomes@);
    let ghost h0 = messages_model(history@);
    let mut i: usize = 0;
    let mut j: usize = 0;
    while i < pending.len()
        invariant
            i <= pending.len(),
            cm == calls_model(pending@),
            om == outcomes_model(outcomes@),
            outcomes@.len() == found_count(cm, registry@),
            j == found_count(cm.take(i as int), registry@),
            messages_model(history@) == h0 + tool_replies(cm.take(i as int), registry@, om),
        decreases pending.len() - i,
    {
        let ghost before = messages_model(history@);
        proof {
            assert(cm.take(i + 1).drop_last() =~= cm.take(i as int));
            lemma_found_count_prefix(cm, registry@, i + 1);
        }
        let call = &pending[i];
        let text = match registry.resolve(&call.name) {
            Some(_) => {
                assert(j < outcomes.len());
                let t = outcome_message_text(&outcomes[j]);
                j = j + 1;
                t
            },
            None => String::from_str("Unknown tool: ").concat(call.name.as_str()),
        };
        history.push(Message::tool_result(call.id.as_str(), text.as_str()));
        proof {
            assert(messages_model(history@) =~= before.push(
                tool_reply(cm[i as int], registry@, om, found_count(cm.take(i as int), registry@)),
            ));
        }
        i = i + 1;
    }
    assert(cm.take(pending@.len() as int) =~= cm);
}

/// The error given when no provider credential is configured.
pub const NO_API_KEY: &'static str = "No API key found. Set ANTHROPIC_API_KEY or OPENAI_API_KEY";

/// The provider backing an agent, with its credential.
#[derive(Debug)]
pub enum ProviderChoice {
    Anthropic(String),
    OpenAI(String),
}

/// Picks the provider: Anthropic's API when an Anthropic key is given, else an
/// OpenAI-compatible endpoint when an OpenAI key is given, else an error.
pub fn select_provider(anthropic_key: Option<String>, openai_key: Option<String>) -> (r: Result<
    ProviderChoice,
    String,
>)
    ensures
        match anthropic_key {
            Some(k) => r == Ok::<ProviderChoice, String>(ProviderChoice::Anthropic(k)),
            None => match openai_key {
                Some(k) => r == Ok::<ProviderChoice, String>(ProviderChoice::OpenAI(k)),
                None => r is Err && r->Err_0@ == NO_API_KEY@,
            },
        },
{
    match anthropic_key {
        Some(k) => Ok(ProviderChoice::Anthropic(k)),
        None => match openai_key {
            Some(k) => Ok(ProviderChoice::OpenAI(k)),
            None => Err(String::from_str(NO_API_KEY)),
        },
    }
}

/// One agent: its conversation, its tools, and the chat in progress.
pub struct AgentService {
    system_prompt: String,
    history: Vec<Message>,
    registry: ToolRegistry,
    phase: Phase,
    provider_calls: usize,
    pending: Vec<ToolCall>,
}

impl View for AgentService {
    type V = AgentModel;

    closed spec fn view(&self) -> AgentModel {
        AgentModel {
            system: self.system_prompt@,
            history: messages_model(self.history@),
            tools: self.registry@,
            phase: self.phase,
            provider_calls: self.provider_calls as nat,
            pending: calls_model(self.pending@),
        }
    }
}

impl AgentService {
    /// A fresh agent whose conversation holds only the system preamble.
    pub fn new(system_prompt: &str, tools: Vec<ToolDefinition>) -> (r: AgentService)
        ensures
            r@ == (AgentModel {
                system: system_prompt@,
                history: fresh_history(system_prompt@),
                tools: definitions_model(tools@),
                phase: Phase::Idle,
                provider_calls: 0,
                pending: Seq::empty(),
            }),
            agent_wf(r@),
    {
        let mut history: Vec<Message> = Vec::new();
        history.push(Message::system(system_prompt));
        let r = AgentService {
            system_prompt: String::from_str(system_prompt),
            history,
            registry: ToolRegistry::new(tools),
            phase: Phase::Idle,
            provider_calls: 0,
            pending: Vec::new(),
        };
        assert(r@.history =~= fresh_history(system_prompt@));
        assert(r@.pending =~= Seq::<CallModel>::empty());
        r
    }

    /// Whether a provider credential is at hand.
    pub fn has_api_key(anthropic_key: &Option<String>, openai_key: &Option<String>) -> (r: bool)
        ensures
            r == (anthropic_key is Some || openai_key is Some),
    {
        anthropic_key.is_some() || openai_key.is_some()
    }

    pub fn phase(&self) -> (r: Phase)
        ensures
            r == self@.phase,
    {
        self.phase
    }

    /// The conversation so far.
    pub fn history(&self) -> (r: &Vec<Message>)
        ensures
            messages_model(r@) == self@.history,
    {
        &self.history
    }

    /// The tools offered to the provider.
    pub fn registry(&self) -> (r: &ToolRegistry)
        ensures
            r@ == self@.tools,
    {
        &self.registry
    }

    /// Provider calls asked for in the current (or last) chat.
    pub fn provider_calls(&self) -> (r: usize)
        ensures
            r == self@.provider_calls,
    {
        self.provider_calls
    }

    /// Clears the conversation back to the system preamble and drops any
    /// chat in progress.
    pub fn reset(&mut self)
        ensures
            final(self)@ == reset_step(old(self)@),
            agent_wf(final(self)@),
    {
        let mut history: Vec<Message> = Vec::new();
        history.push(Message::system(self.system_prompt.as_str()));
        self.history = history;
        self.phase = Phase::Idle;
        self.provider_calls = 0;
        self.pending = Vec::new();
        assert(self@.history =~= fresh_history(self@.system));
        assert(self@.pending =~= Seq::<CallModel>::empty());
    }

    /// Abandons the chat in progress, if any; the history stays as it is.
    pub fn cancel_chat(&mut self)
        requires
            agent_wf(old(self)@),
        ensures
            final(self)@ == (AgentModel { phase: Phase::Idle, pending: Seq::empty(), ..old(self)@ }),
            agent_wf(final(self)@),
    {
        self.phase = Phase::Idle;
        self.pending = Vec::new();
        assert(self@.pending =~= Seq::<CallModel>::empty());
    }

    /// Begins a chat: appends the user's message and asks for the first
    /// provider call.
    pub fn start_chat(&mut self, user_message: &str) -> (r: Action)
        requires
            agent_wf(old(self)@),
            old(self)@.phase == Phase::Idle,
        ensures
            (final(self)@, r@) == start_step(old(self)@, user_message@),
            agent_wf(final(self)@),
    {
        proof {
            lemma_steps_keep_wf(self@, user_message@, Err(Seq::empty()), Seq::empty());
        }
        let ghost h0 = self@.history;
        let m = Message::user(user_message);
        self.history.push(m);
        self.phase = Phase::AwaitingModel;
        self.provider_calls = 1;
        assert(self@.history =~= h0.push(plain_message(Role::User, user_message@)));
        assert(self@.pending =~= Seq::<CallModel>::empty());
        Action::CallProvider
    }

    /// Takes the provider's reply (or its failure) and says what comes next.
    pub fn receive_reply(&mut self, reply: Result<ProviderResponse, String>) -> (r: Action)
        requires
            agent_wf(old(self)@),
            old(self)@.phase == Phase::AwaitingModel,
        ensures
            (final(self)@, r@) == reply_step(old(self)@, reply_model(reply)),
            agent_wf(final(self)@),
    {
        proof {
            lemma_steps_keep_wf(self@, Seq::empty(), reply_model(reply), Seq::empty());
        }
        let ghost h0 = self@.history;
        match reply {
            Err(e) => {
                self.phase = Phase::Idle;
                Action::Fail(String::from_str("LLM error: ").concat(e.as_str()))
            },
            Ok(resp) => {
                if resp.tool_calls.len() == 0 {
                    let m = Message::assistant(resp.content.as_str());
                    self.history.push(m);
                    self.phase = Phase::Idle;
                    assert(self@.history =~= h0.push(plain_message(Role::Assistant, resp.content@)));
                    Action::Finish(resp.content)
                } else {
                    let ghost calls = calls_model(resp.tool_calls@);
                    self.pending = duplicate_calls(&resp.tool_calls);
                    let runs = runs_for(&self.pending, &self.registry);
                    let m = Message::assistant_with_tools(resp.content.as_str(), resp.tool_calls);
                    self.history.push(m);
                    self.phase = Phase::RunningTools;
                    assert(self@.history =~= h0.push(
                        assistant_with_tools_message(resp.content@, calls),
                    ));
                    Action::RunTools(runs)
                }
            },
        }
    }

    /// Takes the outcomes of the requested runs, one per run and in order,
    /// appends one tool message per call of the round, and says what comes next.
    pub fn receive_tool_outcomes(&mut self, outcomes: Vec<ToolOutcome>) -> (r: Action)
        requires
            agent_wf(old(self)@),
            old(self)@.phase == Phase::RunningTools,
            outcomes@.len() == found_count(old(self)@.pending, old(self)@.tools),
        ensures
            (final(self)@, r@) == outcomes_step(old(self)@, outcomes_model(outcomes@)),
            agent_wf(final(self)@),
    {
        proof {
            lemma_steps_keep_wf(self@, Seq::empty(), Err(Seq::empty()), outcomes_model(outcomes@));
        }
        append_tool_replies(&mut self.history, &self.pending, &self.registry, &outcomes);
        self.pending = Vec::new();
        assert(self@.pending =~= Seq::<CallModel>::empty());
        if self.provider_calls < MAX_ITERATIONS {
            self.provider_calls = self.provider_calls + 1;
            self.phase = Phase::AwaitingModel;
            Action::CallProvider
        } else {
            self.phase = Phase::Idle;
            Action::Finish(String::from_str(CAP_REACHED_REPLY))
        }
    }
}

} // verus!
