use zeptobot::agent::{
    select_provider, Action, AgentService, Phase, ProviderChoice, ProviderResponse, ToolOutcome,
    ToolOutput, CAP_REACHED_REPLY, MAX_ITERATIONS, NO_API_KEY,
};
use zeptobot::message::{Message, Role, ToolCall};
use zeptobot::registry::{ToolDefinition, ToolRegistry};
use zeptobot::tools::all_automation_tools;

fn text_reply(content: &str) -> ProviderResponse {
    ProviderResponse { content: content.to_string(), tool_calls: vec![] }
}

fn tool_reply(calls: Vec<ToolCall>) -> ProviderResponse {
    ProviderResponse { content: String::new(), tool_calls: calls }
}

fn agent() -> AgentService {
    AgentService::new("S", all_automation_tools())
}

/// Drives one chat: replies are handed out in order, each tool run gets
/// its outcome from `run`. Returns the result and the provider calls made.
fn drive(
    agent: &mut AgentService,
    user: &str,
    mut replies: Vec<Result<ProviderResponse, String>>,
    run: &dyn Fn(usize, &ToolCall) -> ToolOutcome,
) -> (Result<String, String>, usize) {
    replies.reverse();
    let mut calls = 0;
    let mut action = agent.start_chat(user);
    loop {
        action = match action {
            Action::CallProvider => {
                calls += 1;
                let reply = replies.pop().expect("the provider was called too often");
                agent.receive_reply(reply)
            }
            Action::RunTools(runs) => {
                let outcomes = runs.iter().map(|r| run(r.tool, &r.call)).collect();
                agent.receive_tool_outcomes(outcomes)
            }
            Action::Finish(text) => return (Ok(text), calls),
            Action::Fail(e) => return (Err(e), calls),
        };
    }
}

fn echo_tool(_tool: usize, call: &ToolCall) -> ToolOutcome {
    ToolOutcome::Completed(ToolOutput::llm_only(&format!("ran {}", call.name)))
}

fn roles(agent: &AgentService) -> Vec<Role> {
    agent.history().iter().map(|m| m.role).collect()
}

#[test]
fn plain_reply_ends_chat_after_one_call() {
    let mut a = agent();
    let before = a.history().len();
    let (r, calls) = drive(&mut a, "hello", vec![Ok(text_reply("Hi there"))], &echo_tool);
    assert_eq!(r, Ok("Hi there".to_string()));
    assert_eq!(calls, 1);
    assert_eq!(a.history().len(), before + 2);
    assert_eq!(roles(&a), vec![Role::System, Role::User, Role::Assistant]);
    assert_eq!(a.phase(), Phase::Idle);
}

#[test]
fn tool_rounds_then_answer_take_n_plus_one_calls() {
    for n in 0..MAX_ITERATIONS {
        let mut a = agent();
        let mut replies = Vec::new();
        for i in 0..n {
            replies.push(Ok(tool_reply(vec![ToolCall::new(&i.to_string(), "click", "{}")])));
        }
        replies.push(Ok(text_reply("all done")));
        let (r, calls) = drive(&mut a, "go", replies, &echo_tool);
        assert_eq!(r, Ok("all done".to_string()));
        assert_eq!(calls, n + 1);
        assert_eq!(a.provider_calls(), n + 1);
    }
}

#[test]
fn endless_tool_requests_stop_at_the_cap() {
    let mut a = agent();
    let replies: Vec<_> = (0..MAX_ITERATIONS + 5)
        .map(|i| Ok(tool_reply(vec![ToolCall::new(&i.to_string(), "click", "{}")])))
        .collect();
    let (r, calls) = drive(&mut a, "loop", replies, &echo_tool);
    assert_eq!(r, Ok(CAP_REACHED_REPLY.to_string()));
    assert_eq!(calls, 10);
    assert_eq!(a.provider_calls(), 10);
    assert_eq!(a.phase(), Phase::Idle);
    // system, user, then per round an assistant turn and one tool message
    assert_eq!(a.history().len(), 2 + 2 * 10);
}

#[test]
fn tool_messages_answer_calls_in_order() {
    let mut a = agent();
    let calls = vec![
        ToolCall::new("c1", "click", "{}"),
        ToolCall::new("c2", "nope", "{}"),
        ToolCall::new("c3", "type_text", "{\"text\":\"x\"}"),
    ];
    let (r, _) = drive(
        &mut a,
        "do three things",
        vec![Ok(tool_reply(calls)), Ok(text_reply("ok"))],
        &echo_tool,
    );
    assert_eq!(r, Ok("ok".to_string()));
    let h = a.history();
    assert_eq!(h.len(), 7);
    assert_eq!(h[2].role, Role::Assistant);
    assert_eq!(h[2].tool_calls.len(), 3);
    for (i, id) in ["c1", "c2", "c3"].iter().enumerate() {
        assert_eq!(h[3 + i].role, Role::Tool);
        assert_eq!(h[3 + i].tool_call_id.as_deref(), Some(*id));
        assert_eq!(h[2].tool_calls[i].id, *id);
    }
    assert_eq!(h[3].content, "ran click");
    assert_eq!(h[4].content, "Unknown tool: nope");
    assert_eq!(h[5].content, "ran type_text");
}

#[test]
fn runs_name_registered_tools_only() {
    let mut a = agent();
    a.start_chat("x");
    let action = a.receive_reply(Ok(tool_reply(vec![
        ToolCall::new("1", "key_press", "{}"),
        ToolCall::new("2", "ghost", "{}"),
        ToolCall::new("3", "move_mouse", "{\"x\":1,\"y\":2}"),
    ])));
    match action {
        Action::RunTools(runs) => {
            assert_eq!(runs.len(), 2);
            assert_eq!(runs[0].tool, 4);
            assert_eq!(runs[0].call.id, "1");
            assert_eq!(runs[1].tool, 0);
            assert_eq!(runs[1].call.arguments, "{\"x\":1,\"y\":2}");
        }
        other => panic!("unexpected action {:?}", other),
    }
    assert_eq!(a.phase(), Phase::RunningTools);
}

#[test]
fn unknown_tool_is_reported_back_not_raised() {
    let mut a = agent();
    let (r, calls) = drive(
        &mut a,
        "use a missing tool",
        vec![
            Ok(tool_reply(vec![ToolCall::new("9", "does_not_exist", "{}")])),
            Ok(text_reply("sorry")),
        ],
        &|_, _| panic!("no registered tool was asked for"),
    );
    assert_eq!(r, Ok("sorry".to_string()));
    assert_eq!(calls, 2);
    let h = a.history();
    assert_eq!(h[3].role, Role::Tool);
    assert!(h[3].content.contains("does_not_exist"));
    assert_eq!(h[3].content, "Unknown tool: does_not_exist");
}

#[test]
fn failing_tool_becomes_error_text_and_loop_goes_on() {
    let mut a = agent();
    a.start_chat("click");
    let action = a.receive_reply(Ok(tool_reply(vec![ToolCall::new("1", "click", "{}")])));
    assert!(matches!(action, Action::RunTools(_)));
    let next = a.receive_tool_outcomes(vec![ToolOutcome::Failed("task panicked".to_string())]);
    assert!(matches!(next, Action::CallProvider));
    assert_eq!(a.history()[3].content, "Tool error: task panicked");
    assert_eq!(a.history()[3].tool_call_id.as_deref(), Some("1"));
    let done = a.receive_reply(Ok(text_reply("it failed")));
    assert!(matches!(done, Action::Finish(ref t) if t == "it failed"));
}

#[test]
fn unsuccessful_output_is_fed_back_as_is() {
    let mut a = agent();
    a.start_chat("click");
    a.receive_reply(Ok(tool_reply(vec![ToolCall::new("1", "click", "{}")])));
    a.receive_tool_outcomes(vec![ToolOutcome::Completed(ToolOutput::error("Unknown button 'x'"))]);
    assert_eq!(a.history()[3].content, "Unknown button 'x'");
}

#[test]
fn reset_then_hi_leaves_three_messages() {
    let mut a = agent();
    drive(&mut a, "first", vec![Ok(text_reply("one"))], &echo_tool);
    drive(&mut a, "second", vec![Ok(text_reply("two"))], &echo_tool);
    assert_eq!(a.history().len(), 5);
    a.reset();
    assert_eq!(a.history().len(), 1);
    let (r, _) = drive(&mut a, "hi", vec![Ok(text_reply("hello"))], &echo_tool);
    assert_eq!(r, Ok("hello".to_string()));
    let h = a.history();
    assert_eq!(roles(&a), vec![Role::System, Role::User, Role::Assistant]);
    assert_eq!(h[0].content, "S");
    assert_eq!(h[1].content, "hi");
    assert_eq!(h[2].content, "hello");
}

#[test]
fn move_mouse_scenario() {
    let mut a = agent();
    let (r, calls) = drive(
        &mut a,
        "move the mouse to 100,200",
        vec![
            Ok(tool_reply(vec![ToolCall::new("1", "move_mouse", "{\"x\":100,\"y\":200}")])),
            Ok(text_reply("Done, I moved the mouse.")),
        ],
        &|tool, call| {
            assert_eq!(tool, 0);
            assert_eq!(call.arguments, "{\"x\":100,\"y\":200}");
            ToolOutcome::Completed(ToolOutput::llm_only("Moved mouse to (100, 200)"))
        },
    );
    assert_eq!(r, Ok("Done, I moved the mouse.".to_string()));
    assert_eq!(calls, 2);
    let h = a.history();
    assert_eq!(h.len(), 5);
    assert_eq!(roles(&a), vec![Role::System, Role::User, Role::Assistant, Role::Tool, Role::Assistant]);
    assert_eq!(h[2].tool_calls[0].name, "move_mouse");
    assert_eq!(h[3].tool_call_id.as_deref(), Some("1"));
    assert_eq!(h[3].content, "Moved mouse to (100, 200)");
    assert_eq!(h[4].content, "Done, I moved the mouse.");
}

#[test]
fn provider_failure_fails_the_chat() {
    let mut a = agent();
    let (r, calls) = drive(&mut a, "hello", vec![Err("rate limited".to_string())], &echo_tool);
    assert_eq!(r, Err("LLM error: rate limited".to_string()));
    assert_eq!(calls, 1);
    assert_eq!(roles(&a), vec![Role::System, Role::User]);
    assert_eq!(a.phase(), Phase::Idle);
}

#[test]
fn provider_failure_mid_chat_keeps_what_was_appended() {
    let mut a = agent();
    let (r, calls) = drive(
        &mut a,
        "hello",
        vec![Ok(tool_reply(vec![ToolCall::new("1", "click", "{}")])), Err("down".to_string())],
        &echo_tool,
    );
    assert_eq!(r, Err("LLM error: down".to_string()));
    assert_eq!(calls, 2);
    assert_eq!(a.history().len(), 4);
}

#[test]
fn history_persists_across_chats() {
    let mut a = agent();
    drive(&mut a, "one", vec![Ok(text_reply("a"))], &echo_tool);
    drive(&mut a, "two", vec![Ok(text_reply("b"))], &echo_tool);
    let contents: Vec<&str> = a.history().iter().map(|m| m.content.as_str()).collect();
    assert_eq!(contents, vec!["S", "one", "a", "two", "b"]);
}

#[test]
fn provider_selection_prefers_anthropic() {
    match select_provider(Some("ka".to_string()), Some("ko".to_string())) {
        Ok(ProviderChoice::Anthropic(k)) => assert_eq!(k, "ka"),
        other => panic!("unexpected {:?}", other),
    }
    match select_provider(None, Some("ko".to_string())) {
        Ok(ProviderChoice::OpenAI(k)) => assert_eq!(k, "ko"),
        other => panic!("unexpected {:?}", other),
    }
    match select_provider(None, None) {
        Err(e) => assert_eq!(e, NO_API_KEY),
        other => panic!("unexpected {:?}", other),
    }
    assert!(AgentService::has_api_key(&None, &Some("k".to_string())));
    assert!(!AgentService::has_api_key(&None, &None));
}

#[test]
fn registry_resolves_first_exact_name() {
    let reg = ToolRegistry::new(vec![
        ToolDefinition::new("a", "first", "{}"),
        ToolDefinition::new("b", "second", "{}"),
        ToolDefinition::new("a", "third", "{}"),
    ]);
    assert_eq!(reg.len(), 3);
    assert_eq!(reg.resolve(&"a".to_string()), Some(0));
    assert_eq!(reg.resolve(&"b".to_string()), Some(1));
    assert_eq!(reg.resolve(&"A".to_string()), None);
    assert_eq!(reg.resolve(&"".to_string()), None);
    assert_eq!(reg.definitions()[2].description, "third");
}

#[test]
fn message_constructors() {
    let m = Message::tool_result("id7", "out");
    assert_eq!(m.role, Role::Tool);
    assert_eq!(m.tool_call_id.as_deref(), Some("id7"));
    let m = Message::assistant_with_tools("", vec![ToolCall::new("1", "click", "{}")]);
    assert_eq!(m.role, Role::Assistant);
    assert_eq!(m.tool_calls.len(), 1);
    assert!(m.tool_call_id.is_none());
    let m = Message::system("sys");
    assert_eq!((m.role, m.content.as_str()), (Role::System, "sys"));
}

#[test]
fn cancel_chat_keeps_history_and_allows_a_new_chat() {
    let mut a = agent();
    a.start_chat("click twice");
    a.receive_reply(Ok(tool_reply(vec![ToolCall::new("1", "click", "{}")])));
    assert_eq!(a.phase(), Phase::RunningTools);
    a.cancel_chat();
    assert_eq!(a.phase(), Phase::Idle);
    assert_eq!(a.history().len(), 3);
    let (r, _) = drive(&mut a, "again", vec![Ok(text_reply("fine"))], &echo_tool);
    assert_eq!(r, Ok("fine".to_string()));
    assert_eq!(a.history().len(), 5);
}
