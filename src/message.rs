//! The records exchanged in a conversation.

use vstd::prelude::*;

verus! {

/// Who wrote a message.
#[derive(Clone, Copy, Debug, PartialEq, Eq, Structural)]
pub enum Role {
    System,
    User,
    Assistant,
    Tool,
}

/// A provider's request to run one tool.
#[derive(Debug)]
pub struct ToolCall {
    pub id: String,
    pub name: String,
    /// Raw argument text as the provider sent it; not necessarily valid JSON.
    pub arguments: String,
}

/// Mathematical model of a `ToolCall`.
pub struct CallModel {
    pub id: Seq<char>,
    pub name: Seq<char>,
    pub arguments: Seq<char>,
}

impl View for ToolCall {
    type V = CallModel;

    open spec fn view(&self) -> CallModel {
        CallModel { id: self.id@, name: self.name@, arguments: self.arguments@ }
    }
}

/// The models of a list of calls, in order.
pub open spec fn calls_model(calls: Seq<ToolCall>) -> Seq<CallModel> {
    calls.map_values(|c: ToolCall| c@)
}

impl ToolCall {
    pub fn new(id: &str, name: &str, arguments: &str) -> (r: ToolCall)
        ensures
            r.id@ == id@,
            r.name@ == name@,
            r.arguments@ == arguments@,
    {
        ToolCall {
            id: String::from_str(id),
            name: String::from_str(name),
            arguments: String::from_str(arguments),
        }
    }

    /// A field-by-field copy.
    pub fn duplicate(&self) -> (r: ToolCall)
        ensures
            r@ == self@,
    {
        ToolCall { id: self.id.clone(), name: self.name.clone(), arguments: self.arguments.clone() }
    }
}

/// Copies a list of calls, keeping their order.
pub fn duplicate_calls(calls: &Vec<ToolCall>) -> (r: Vec<ToolCall>)
    ensures
        calls_model(r@) == calls_model(calls@),
{
    let mut r: Vec<ToolCall> = Vec::new();
    let mut i: usize = 0;
    while i < calls.len()
        invariant
            i <= calls.len(),
            calls_model(r@) =~= calls_model(calls@.take(i as int)),
        decreases calls.len() - i,
    {
        let ghost before = r@;
        r.push(calls[i].duplicate());
        proof {
            assert(calls@.take(i + 1) =~= calls@.take(i as int).push(calls@[i as int]));
            assert(calls_model(r@) =~= calls_model(before).push(calls@[i as int]@));
            assert(calls_model(calls@.take(i + 1)) =~= calls_model(calls@.take(i as int)).push(
                calls@[i as int]@,
            ));
        }
        i = i + 1;
    }
    proof {
        assert(calls@.take(calls@.len() as int) =~= calls@);
    }
    r
}

/// One turn of a conversation.
#[derive(Debug)]
pub struct Message {
    pub role: Role,
    pub content: String,
    /// Non-empty only on an assistant turn that asks for tools.
    pub tool_calls: Vec<ToolCall>,
    /// Set only on a tool turn: the id of the call it answers.
    pub tool_call_id: Option<String>,
}

/// Mathematical model of a `Message`.
pub struct MessageModel {
    pub role: Role,
    pub content: Seq<char>,
    pub tool_calls: Seq<CallModel>,
    pub tool_call_id: Option<Seq<char>>,
}

impl View for Message {
    type V = MessageModel;

    open spec fn view(&self) -> MessageModel {
        MessageModel {
            role: self.role,
            content: self.content@,
            tool_calls: calls_model(self.tool_calls@),
            tool_call_id: match self.tool_call_id {
                Some(id) => Some(id@),
                None => None,
            },
        }
    }
}

/// The models of a list of messages, in order.
pub open spec fn messages_model(msgs: Seq<Message>) -> Seq<MessageModel> {
    msgs.map_values(|m: Message| m@)
}

/// A plain message of the given role.
pub open spec fn plain_message(role: Role, content: Seq<char>) -> MessageModel {
    MessageModel { role, content, tool_calls: Seq::empty(), tool_call_id: None }
}

/// An assistant turn that carries tool calls.
pub open spec fn assistant_with_tools_message(
    content: Seq<char>,
    calls: Seq<CallModel>,
) -> MessageModel {
    MessageModel { role: Role::Assistant, content, tool_calls: calls, tool_call_id: None }
}

/// A tool turn answering the call `id`.
pub open spec fn tool_message(id: Seq<char>, content: Seq<char>) -> MessageModel {
    MessageModel { role: Role::Tool, content, tool_calls: Seq::empty(), tool_call_id: Some(id) }
}

impl Message {
    fn plain(role: Role, content: &str) -> (r: Message)
        ensures
            r@ == plain_message(role, content@),
    {
        let r = Message {
            role,
            content: String::from_str(content),
            tool_calls: Vec::new(),
            tool_call_id: None,
        };
        assert(r@.tool_calls =~= Seq::<CallModel>::empty());
        r
    }

    pub fn system(content: &str) -> (r: Message)
        ensures
            r@ == plain_message(Role::System, content@),
    {
        Message::plain(Role::System, content)
    }

    pub fn user(content: &str) -> (r: Message)
        ensures
            r@ == plain_message(Role::User, content@),
    {
        Message::plain(Role::User, content)
    }

    pub fn assistant(content: &str) -> (r: Message)
        ensures
            r@ == plain_message(Role::Assistant, content@),
    {
        Message::plain(Role::Assistant, content)
    }

    pub fn assistant_with_tools(content: &str, tool_calls: Vec<ToolCall>) -> (r: Message)
        ensures
            r@ == assistant_with_tools_message(content@, calls_model(tool_calls@)),
    {
        Message {
            role: Role::Assistant,
            content: String::from_str(content),
            tool_calls,
            tool_call_id: None,
        }
    }

    pub fn tool_result(tool_call_id: &str, content: &str) -> (r: Message)
        ensures
            r@ == tool_message(tool_call_id@, content@),
    {
        let r = Message {
            role: Role::Tool,
            content: String::from_str(content),
            tool_calls: Vec::new(),
            tool_call_id: Some(String::from_str(tool_call_id)),
        };
        assert(r@.tool_calls =~= Seq::<CallModel>::empty());
        r
    }
}

/// A chat line as shown to the user: a role name and a text.
#[derive(Debug)]
pub struct ChatMessage {
    pub role: String,
    pub content: String,
}

} // verus!
