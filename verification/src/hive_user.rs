//! Users of the hive bot: the platform they talk from and their id on it.

use vstd::prelude::*;
use crate::chat_format::{bare_view, ChatMessage, ChatMessageView, ChatRole};
use crate::numeric::{parse_unsigned, IntErrorKind};
use crate::text::{chars_of, concat2, concat3, owned, push_str};

verus! {

/// The platform a user talks from.
#[derive(PartialEq, Eq, Structural, Clone, Copy, Debug)]
pub enum UserChannel {
    Telegram,
    Discord,
}

/// The platform's name.
pub open spec fn channel_name(c: UserChannel) -> Seq<char> {
    match c {
        UserChannel::Telegram => "Telegram"@,
        UserChannel::Discord => "Discord"@,
    }
}

impl UserChannel {
    /// The platform's name.
    pub fn to_string(&self) -> (r: &'static str)
        ensures
            r@ == channel_name(*self),
    {
        match self {
            UserChannel::Telegram => "Telegram",
            UserChannel::Discord => "Discord",
        }
    }
}

/// A user: their platform and their id on it.
pub struct UserId(pub UserChannel, pub String);

/// A tool the hive bot's model may call.
pub enum ToolCall {
    GetWeather { location: String },
}

/// What the model is given: a user's message or a tool's result.
pub enum LLMInput {
    UserMessage(String),
    ToolResult(String),
}

/// What the model decided: call a tool (maybe saying something first), or
/// give its final answer.
pub enum LLMDecisionType {
    IntermediateToolCall { maybe_intermediate_response: Option<String>, tool_call: ToolCall },
    Final { response: String },
}

/// One entry of the history: an input or the model's decision.
pub enum HistoryEntry {
    Input(LLMInput),
    Output(LLMDecisionType),
}

/// A tool call written out for the history.
pub open spec fn tool_call_text(c: ToolCall) -> Seq<char> {
    match c {
        ToolCall::GetWeather { location } => "GetWeather: location=\""@ + location@ + "\""@,
    }
}

/// A tool call written out for the history (see [`tool_call_text`]).
pub fn format_tool_call(tool_call: &ToolCall) -> (r: String)
    ensures
        r@ == tool_call_text(*tool_call),
{
    match tool_call {
        ToolCall::GetWeather { location } => concat3("GetWeather: location=\"", location.as_str(), "\""),
    }
}

/// An input in the chat-template markup.
pub open spec fn input_markup(i: LLMInput) -> Seq<char> {
    match i {
        LLMInput::UserMessage(m) => "<|im_start|>user\n"@ + m@ + "<|im_end|>"@,
        LLMInput::ToolResult(r) => "<|im_start|>user\nTool Result: "@ + r@ + "<|im_end|>"@,
    }
}

/// An input in the chat-template markup (see [`input_markup`]).
pub fn serialize_input(input: &LLMInput) -> (r: String)
    ensures
        r@ == input_markup(*input),
{
    match input {
        LLMInput::UserMessage(m) => concat3("<|im_start|>user\n", m.as_str(), "<|im_end|>"),
        LLMInput::ToolResult(t) => concat3("<|im_start|>user\nTool Result: ", t.as_str(), "<|im_end|>"),
    }
}

/// The prompt that follows the system prompt: the history (already written
/// as JSON) and the current input, then the assistant's turn.
pub open spec fn dynamic_prompt_view(history_json: Seq<char>, input: LLMInput) -> Seq<char> {
    "\nConversation History (JSON):\n"@ + history_json + "\n\n"@ + input_markup(input) + "\n<|im_start|>assistant\n"@
}

/// The prompt after the system prompt (see [`dynamic_prompt_view`]).
pub fn build_dynamic_prompt(input: &LLMInput, history_json: &str) -> (r: String)
    ensures
        r@ == dynamic_prompt_view(history_json@, *input),
{
    let mut r = concat2("\nConversation History (JSON):\n", history_json);
    push_str(&mut r, "\n\n");
    push_str(&mut r, serialize_input(input).as_str());
    push_str(&mut r, "\n<|im_start|>assistant\n");
    r
}

/// One history entry as a line-based chat message: the user's words or a
/// tool's response as a user message, the model's decision as an assistant
/// message.
pub open spec fn entry_message(e: HistoryEntry) -> ChatMessageView {
    match e {
        HistoryEntry::Input(LLMInput::UserMessage(m)) => bare_view(ChatRole::User, "USER: "@ + m@),
        HistoryEntry::Input(LLMInput::ToolResult(r)) => bare_view(ChatRole::User, "TOOL RESPONSE: "@ + r@),
        HistoryEntry::Output(LLMDecisionType::Final { response }) =>
            bare_view(ChatRole::Assistant, "ASSISTANT FINAL: \""@ + response@ + "\""@),
        HistoryEntry::Output(LLMDecisionType::IntermediateToolCall { maybe_intermediate_response, tool_call }) => {
            let said = match maybe_intermediate_response {
                Some(r) => if r@.len() > 0 { "\""@ + r@ + "\""@ } else { "null"@ },
                None => "null"@,
            };
            bare_view(ChatRole::Assistant, "ASSISTANT TOOL CALL: Response: "@ + said + " Tool: "@ + tool_call_text(tool_call))
        },
    }
}

/// The history as chat messages, one per entry (see [`entry_message`]).
pub fn history_to_messages(history: &Vec<HistoryEntry>) -> (r: Vec<ChatMessage>)
    ensures
        r@.len() == history@.len(),
        forall|i: int| 0 <= i < r@.len() ==> (#[trigger] r@[i]).deep_view() == entry_message(history@[i]),
{
    let mut r: Vec<ChatMessage> = Vec::new();
    let mut i: usize = 0;
    while i < history.len()
        invariant
            i <= history@.len(),
            r@.len() == i,
            forall|j: int| 0 <= j < i ==> (#[trigger] r@[j]).deep_view() == entry_message(history@[j]),
        decreases history@.len() - i,
    {
        let m = match &history[i] {
            HistoryEntry::Input(LLMInput::UserMessage(m)) => ChatMessage::user(concat2("USER: ", m.as_str())),
            HistoryEntry::Input(LLMInput::ToolResult(t)) => ChatMessage::user(concat2("TOOL RESPONSE: ", t.as_str())),
            HistoryEntry::Output(LLMDecisionType::Final { response }) =>
                ChatMessage::assistant(concat3("ASSISTANT FINAL: \"", response.as_str(), "\"")),
            HistoryEntry::Output(LLMDecisionType::IntermediateToolCall { maybe_intermediate_response, tool_call }) => {
                let said = match maybe_intermediate_response {
                    Some(x) => if !x.as_str().is_empty() { concat3("\"", x.as_str(), "\"") } else { owned("null") },
                    None => owned("null"),
                };
                let mut c = concat2("ASSISTANT TOOL CALL: Response: ", said.as_str());
                push_str(&mut c, " Tool: ");
                push_str(&mut c, format_tool_call(tool_call).as_str());
                ChatMessage::assistant(c)
            },
        };
        r.push(m);
        i += 1;
    }
    r
}

/// What is said to the user for a decision: the final answer, or the
/// model's note while a tool runs, if it wrote one.
pub open spec fn decision_message(d: LLMDecisionType) -> Option<Seq<char>> {
    match d {
        LLMDecisionType::Final { response } => Some(response@),
        LLMDecisionType::IntermediateToolCall { maybe_intermediate_response, .. } => match maybe_intermediate_response {
            Some(m) => Some(m@),
            None => None,
        },
    }
}

/// What is said to the user for a decision (see [`decision_message`]).
pub fn message_to_send(d: &LLMDecisionType) -> (r: Option<String>)
    ensures
        r.deep_view() == decision_message(*d),
{
    match d {
        LLMDecisionType::Final { response } => Some(response.clone()),
        LLMDecisionType::IntermediateToolCall { maybe_intermediate_response, .. } => match maybe_intermediate_response {
            Some(m) => Some(m.clone()),
            None => None,
        },
    }
}

/// A Discord user's numeric id, read from its text as `u64` reads it.
pub fn discord_user_id(id: &str) -> (r: Result<u64, IntErrorKind>)
    ensures
        match parse_unsigned(id@, u64::MAX as nat) {
            Ok(n) => r == Ok::<u64, IntErrorKind>(n as u64),
            Err(e) => r == Err::<u64, IntErrorKind>(e),
        },
{
    crate::numeric::parse_u64(id)
}

} // verus!
