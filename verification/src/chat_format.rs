//! The chat "wire" shapes a chat template renders from: messages, tool calls
//! and tool definitions. Plain data; app/ serializes them.

use vstd::prelude::*;

verus! {

/// Who a chat message is from.
#[derive(PartialEq, Eq, Structural, Clone, Copy, Debug)]
pub enum ChatRole {
    System,
    User,
    Assistant,
    Tool,
}

/// A scalar argument value of a tool call, as the template splices it.
pub enum ArgValue {
    Str(String),
    Int(i128),
}

/// Model of an [`ArgValue`].
pub enum ArgValueView {
    Str(Seq<char>),
    Int(int),
}

impl DeepView for ArgValue {
    type V = ArgValueView;

    open spec fn deep_view(&self) -> ArgValueView {
        match self {
            ArgValue::Str(s) => ArgValueView::Str(s@),
            ArgValue::Int(n) => ArgValueView::Int(*n as int),
        }
    }
}

impl Clone for ArgValue {
    fn clone(&self) -> (r: Self)
        ensures
            r.deep_view() == self.deep_view(),
    {
        match self {
            ArgValue::Str(s) => ArgValue::Str(s.clone()),
            ArgValue::Int(n) => ArgValue::Int(*n),
        }
    }
}

/// The function part of a tool call carried by an assistant message.
pub struct MessageToolCallFunction {
    pub name: &'static str,
    /// Argument values, in the order the call states them.
    pub arguments: Vec<(String, ArgValue)>,
}

/// A tool call carried by an assistant message.
pub struct MessageToolCall {
    pub id: String,
    pub kind: &'static str,
    pub function: MessageToolCallFunction,
}

/// Model of a [`MessageToolCall`].
pub struct MessageToolCallView {
    pub id: Seq<char>,
    pub kind: Seq<char>,
    pub name: Seq<char>,
    pub arguments: Seq<(Seq<char>, ArgValueView)>,
}

impl DeepView for MessageToolCall {
    type V = MessageToolCallView;

    open spec fn deep_view(&self) -> MessageToolCallView {
        MessageToolCallView {
            id: self.id@,
            kind: self.kind@,
            name: self.function.name@,
            arguments: self.function.arguments.deep_view(),
        }
    }
}

/// A chat message in the shape the chat template consumes.
pub struct ChatMessage {
    pub role: ChatRole,
    pub content: String,
    pub tool_calls: Vec<MessageToolCall>,
    pub tool_call_id: Option<String>,
}

/// Model of a [`ChatMessage`].
pub struct ChatMessageView {
    pub role: ChatRole,
    pub content: Seq<char>,
    pub tool_calls: Seq<MessageToolCallView>,
    pub tool_call_id: Option<Seq<char>>,
}

impl DeepView for ChatMessage {
    type V = ChatMessageView;

    open spec fn deep_view(&self) -> ChatMessageView {
        ChatMessageView {
            role: self.role,
            content: self.content@,
            tool_calls: self.tool_calls.deep_view(),
            tool_call_id: self.tool_call_id.deep_view(),
        }
    }
}

/// A message of `role` with `content` and nothing else.
pub open spec fn bare_view(role: ChatRole, content: Seq<char>) -> ChatMessageView {
    ChatMessageView { role, content, tool_calls: Seq::empty(), tool_call_id: None }
}

impl ChatMessage {
    fn bare(role: ChatRole, content: String) -> (r: Self)
        ensures
            r.deep_view() == bare_view(role, content@),
    {
        let r = ChatMessage { role, content, tool_calls: Vec::new(), tool_call_id: None };
        assert(r.deep_view().tool_calls =~= Seq::<MessageToolCallView>::empty());
        r
    }

    /// A system message.
    pub fn system(content: String) -> (r: Self)
        ensures
            r.deep_view() == bare_view(ChatRole::System, content@),
    {
        Self::bare(ChatRole::System, content)
    }

    /// A user message.
    pub fn user(content: String) -> (r: Self)
        ensures
            r.deep_view() == bare_view(ChatRole::User, content@),
    {
        Self::bare(ChatRole::User, content)
    }

    /// An assistant message without tool calls.
    pub fn assistant(content: String) -> (r: Self)
        ensures
            r.deep_view() == bare_view(ChatRole::Assistant, content@),
    {
        Self::bare(ChatRole::Assistant, content)
    }

    /// An assistant message carrying tool calls.
    pub fn assistant_with_tools(content: String, tool_calls: Vec<MessageToolCall>) -> (r: Self)
        ensures
            r.deep_view() == (ChatMessageView {
                role: ChatRole::Assistant,
                content: content@,
                tool_calls: tool_calls.deep_view(),
                tool_call_id: None,
            }),
    {
        ChatMessage { role: ChatRole::Assistant, content, tool_calls, tool_call_id: None }
    }

    /// A tool-result message answering the call `tool_call_id`.
    pub fn tool(tool_call_id: String, content: String) -> (r: Self)
        ensures
            r.deep_view() == (ChatMessageView {
                role: ChatRole::Tool,
                content: content@,
                tool_calls: Seq::empty(),
                tool_call_id: Some(tool_call_id@),
            }),
    {
        let r = ChatMessage {
            role: ChatRole::Tool,
            content,
            tool_calls: Vec::new(),
            tool_call_id: Some(tool_call_id),
        };
        assert(r.deep_view().tool_calls =~= Seq::<MessageToolCallView>::empty());
        r
    }
}

/// One parameter of a tool's JSON schema.
pub struct ParamSpec {
    pub name: &'static str,
    /// JSON schema type: `"string"` or `"integer"`.
    pub ty: &'static str,
    pub description: &'static str,
}

/// A tool's parameter schema: an object with these properties, of which
/// `required` must be given.
pub struct ParamSchema {
    pub properties: Vec<ParamSpec>,
    pub required: Vec<&'static str>,
}

/// The function part of a tool definition.
pub struct ToolDefFunction {
    pub name: &'static str,
    pub description: &'static str,
    pub parameters: ParamSchema,
}

/// A tool definition in the shape the chat template serializes into its tools block.
pub struct ToolDefinition {
    pub kind: &'static str,
    pub function: ToolDefFunction,
}

} // verus!
