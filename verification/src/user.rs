//! The per-user conversation model of the chat bot: users, their turns with
//! the model, and the state machine that drives them.

use vstd::prelude::*;
use crate::chat_format::{ChatMessage, ChatMessageView, ChatRole, bare_view};
use crate::conversation::{clone_calls, kind_of, ToolCall, ToolCallView, ToolType, ToolTypeView};
use crate::text::id_le;
use crate::tools::wire_name_of;
use crate::text::{concat2, concat3, join, owned, push_str, seq_join, views};

verus! {

/// The platform a user talks from.
#[derive(PartialEq, Eq, Structural, Clone, Copy, Debug)]
pub enum UserChannel {
    Telegram,
    Discord,
}

/// The platform's name.
pub open spec fn channel_name(c: UserChannel) -> Seq<char> {
    match c {
        UserChannel::Telegram => "Telegram"@,
        UserChannel::Discord => "Discord"@,
    }
}

impl UserChannel {
    /// The platform's name.
    pub fn to_string(&self) -> (r: &'static str)
        ensures
            r@ == channel_name(*self),
    {
        match self {
            UserChannel::Telegram => "Telegram",
            UserChannel::Discord => "Discord",
        }
    }
}

/// A user: their platform and their id on it.
pub struct UserId(pub UserChannel, pub String);

impl UserId {
    /// `{platform}_{id}`, the key a user's state is stored under.
    pub fn to_string(&self) -> (r: String)
        ensures
            r@ == channel_name(self.0) + "_"@ + self.1@,
    {
        concat3(self.0.to_string(), "_", self.1.as_str())
    }
}

/// Most tool calls the model may make in one user turn.
pub const MAX_TOOL_ROUNDS: usize = 10;

/// Characters of a search result's description that are kept.
pub const MAX_SEARCH_DESCRIPTION_LENGTH: usize = 20;

/// How long an idle conversation is remembered, in milliseconds.
pub const IDLE_TIMEOUT_MS: i64 = 300_000;

/// How long a busy user may wait before being reset, in milliseconds.
pub const BUSY_TIMEOUT_MS: i64 = 600_000;

/// A tool's output: in full for the model, simplified for the record.
pub struct ToolResultData {
    pub actual: String,
    pub simplified: String,
}

impl DeepView for ToolResultData {
    type V = (Seq<char>, Seq<char>);

    open spec fn deep_view(&self) -> (Seq<char>, Seq<char>) {
        (self.actual@, self.simplified@)
    }
}

impl Clone for ToolResultData {
    fn clone(&self) -> (r: Self)
        ensures
            r.deep_view() == self.deep_view(),
    {
        ToolResultData { actual: self.actual.clone(), simplified: self.simplified.clone() }
    }
}

/// A tool's output tagged with the id of the call it answers.
pub struct ToolResult {
    pub id: String,
    pub data: ToolResultData,
}

impl DeepView for ToolResult {
    type V = (Seq<char>, (Seq<char>, Seq<char>));

    open spec fn deep_view(&self) -> (Seq<char>, (Seq<char>, Seq<char>)) {
        (self.id@, self.data.deep_view())
    }
}

impl Clone for ToolResult {
    fn clone(&self) -> (r: Self)
        ensures
            r.deep_view() == self.deep_view(),
    {
        ToolResult { id: self.id.clone(), data: self.data.clone() }
    }
}

/// What the model is given for a turn: a user message, or one batch of tool
/// results (in id order) with the messages the user sent meanwhile.
pub enum LLMInput {
    UserMessage(String),
    ToolResults(Vec<ToolResult>, Option<String>),
}

/// Model of an [`LLMInput`].
pub enum LLMInputView {
    UserMessage(Seq<char>),
    ToolResults(Seq<(Seq<char>, (Seq<char>, Seq<char>))>, Option<Seq<char>>),
}

impl DeepView for LLMInput {
    type V = LLMInputView;

    open spec fn deep_view(&self) -> LLMInputView {
        match self {
            LLMInput::UserMessage(m) => LLMInputView::UserMessage(m@),
            LLMInput::ToolResults(r, f) => LLMInputView::ToolResults(r.deep_view(), f.deep_view()),
        }
    }
}

impl Clone for LLMInput {
    fn clone(&self) -> (r: Self)
        ensures
            r.deep_view() == self.deep_view(),
    {
        match self {
            LLMInput::UserMessage(m) => LLMInput::UserMessage(m.clone()),
            LLMInput::ToolResults(r, f) => {
                let c = r.clone();
                assert(c.deep_view() =~= r.deep_view());
                LLMInput::ToolResults(c, f.clone())
            },
        }
    }
}

/// What the model decided: call tools, or answer the user.
pub enum LLMDecisionType {
    IntermediateToolCall { tool_calls: Vec<ToolCall> },
    MessageUser { response: String },
}

/// Model of an [`LLMDecisionType`].
pub enum LLMDecisionTypeView {
    IntermediateToolCall { tool_calls: Seq<ToolCallView> },
    MessageUser { response: Seq<char> },
}

/// The model's turn: its reasoning (kept for logs, never replayed) and its
/// decision.
pub struct LLMResponse {
    pub thoughts: String,
    pub output: LLMDecisionType,
}

/// Model of an [`LLMResponse`].
pub struct LLMResponseView {
    pub thoughts: Seq<char>,
    pub output: LLMDecisionTypeView,
}

impl DeepView for LLMResponse {
    type V = LLMResponseView;

    open spec fn deep_view(&self) -> LLMResponseView {
        LLMResponseView {
            thoughts: self.thoughts@,
            output: match &self.output {
                LLMDecisionType::IntermediateToolCall { tool_calls } =>
                    LLMDecisionTypeView::IntermediateToolCall { tool_calls: tool_calls.deep_view() },
                LLMDecisionType::MessageUser { response } => LLMDecisionTypeView::MessageUser { response: response@ },
            },
        }
    }
}

impl Clone for LLMResponse {
    fn clone(&self) -> (r: Self)
        ensures
            r.deep_view() == self.deep_view(),
    {
        let output = match &self.output {
            LLMDecisionType::IntermediateToolCall { tool_calls } =>
                LLMDecisionType::IntermediateToolCall { tool_calls: clone_calls(tool_calls) },
            LLMDecisionType::MessageUser { response } => LLMDecisionType::MessageUser { response: response.clone() },
        };
        LLMResponse { thoughts: self.thoughts.clone(), output }
    }
}

/// One entry of a user's history: what the model was given, or what it did.
pub enum HistoryEntry {
    Input(LLMInput),
    Output(LLMResponse),
}

/// Model of a [`HistoryEntry`].
pub enum HistoryEntryView {
    Input(LLMInputView),
    Output(LLMResponseView),
}

impl DeepView for HistoryEntry {
    type V = HistoryEntryView;

    open spec fn deep_view(&self) -> HistoryEntryView {
        match self {
            HistoryEntry::Input(i) => HistoryEntryView::Input(i.deep_view()),
            HistoryEntry::Output(o) => HistoryEntryView::Output(o.deep_view()),
        }
    }
}

impl Clone for HistoryEntry {
    fn clone(&self) -> (r: Self)
        ensures
            r.deep_view() == self.deep_view(),
    {
        match self {
            HistoryEntry::Input(i) => HistoryEntry::Input(i.clone()),
            HistoryEntry::Output(o) => HistoryEntry::Output(o.clone()),
        }
    }
}

/// A copy of a history.
pub fn clone_entries(v: &Vec<HistoryEntry>) -> (r: Vec<HistoryEntry>)
    ensures
        r.deep_view() == v.deep_view(),
{
    let r = v.clone();
    assert(r.deep_view() =~= v.deep_view());
    r
}

/// The conversation so far: the model's last reasoning and the history.
pub struct RecentConversation {
    pub thoughts: String,
    pub history: Vec<HistoryEntry>,
}

/// Model of a [`RecentConversation`].
pub struct RecentConversationView {
    pub thoughts: Seq<char>,
    pub history: Seq<HistoryEntryView>,
}

impl DeepView for RecentConversation {
    type V = RecentConversationView;

    open spec fn deep_view(&self) -> RecentConversationView {
        RecentConversationView { thoughts: self.thoughts@, history: self.history.deep_view() }
    }
}

impl Clone for RecentConversation {
    fn clone(&self) -> (r: Self)
        ensures
            r.deep_view() == self.deep_view(),
    {
        RecentConversation { thoughts: self.thoughts.clone(), history: clone_entries(&self.history) }
    }
}

impl RecentConversation {
    /// A copy of the history.
    pub fn history(&self) -> (r: Vec<HistoryEntry>)
        ensures
            r.deep_view() == self.history.deep_view(),
    {
        clone_entries(&self.history)
    }
}

/// Where a user's conversation stands.
pub enum UserState {
    /// Nothing in progress; the last conversation and when it ended, if it
    /// is still remembered.
    Idle { recent_conversation: Option<(RecentConversation, i64)> },
    /// The conversation is being committed to long-term memory.
    CommitingToMemory { recent_conversation: RecentConversation },
    /// Waiting for the model's turn.
    AwaitingLLMDecision { is_timeout: bool, history: Vec<HistoryEntry>, current_input: LLMInput, tool_rounds: usize },
    /// Sending the model's message before acting on its decision.
    SendingMessage { is_timeout: bool, outcome: LLMResponse, recent_conversation: RecentConversation, tool_rounds: usize },
    /// Running a batch of tool calls: those in flight (by id) and those done.
    RunningTools {
        is_timeout: bool,
        recent_conversation: RecentConversation,
        tool_rounds: usize,
        pending_tools: Vec<(String, ToolCall)>,
        completed_tools: Vec<(ToolCall, ToolResultData)>,
    },
}

/// Model of a [`UserState`].
pub enum UserStateView {
    Idle { recent_conversation: Option<(RecentConversationView, i64)> },
    CommitingToMemory { recent_conversation: RecentConversationView },
    AwaitingLLMDecision { is_timeout: bool, history: Seq<HistoryEntryView>, current_input: LLMInputView, tool_rounds: usize },
    SendingMessage { is_timeout: bool, outcome: LLMResponseView, recent_conversation: RecentConversationView, tool_rounds: usize },
    RunningTools {
        is_timeout: bool,
        recent_conversation: RecentConversationView,
        tool_rounds: usize,
        pending_tools: Seq<(Seq<char>, ToolCallView)>,
        completed_tools: Seq<(ToolCallView, (Seq<char>, Seq<char>))>,
    },
}

impl DeepView for UserState {
    type V = UserStateView;

    open spec fn deep_view(&self) -> UserStateView {
        match self {
            UserState::Idle { recent_conversation } => UserStateView::Idle {
                recent_conversation: match recent_conversation {
                    Some((rc, at)) => Some((rc.deep_view(), *at)),
                    None => None,
                },
            },
            UserState::CommitingToMemory { recent_conversation } =>
                UserStateView::CommitingToMemory { recent_conversation: recent_conversation.deep_view() },
            UserState::AwaitingLLMDecision { is_timeout, history, current_input, tool_rounds } =>
                UserStateView::AwaitingLLMDecision {
                    is_timeout: *is_timeout,
                    history: history.deep_view(),
                    current_input: current_input.deep_view(),
                    tool_rounds: *tool_rounds,
                },
            UserState::SendingMessage { is_timeout, outcome, recent_conversation, tool_rounds } =>
                UserStateView::SendingMessage {
                    is_timeout: *is_timeout,
                    outcome: outcome.deep_view(),
                    recent_conversation: recent_conversation.deep_view(),
                    tool_rounds: *tool_rounds,
                },
            UserState::RunningTools { is_timeout, recent_conversation, tool_rounds, pending_tools, completed_tools } =>
                UserStateView::RunningTools {
                    is_timeout: *is_timeout,
                    recent_conversation: recent_conversation.deep_view(),
                    tool_rounds: *tool_rounds,
                    pending_tools: pending_tools.deep_view(),
                    completed_tools: completed_tools.deep_view(),
                },
        }
    }
}

/// A user: messages waiting for the model, where the conversation stands,
/// and when it last moved (milliseconds since the epoch).
pub struct User {
    pub pending: Vec<String>,
    pub state: UserState,
    pub last_transition: i64,
}

/// Model of a [`User`].
pub struct UserView {
    pub pending: Seq<Seq<char>>,
    pub state: UserStateView,
    pub last_transition: i64,
}

impl DeepView for User {
    type V = UserView;

    open spec fn deep_view(&self) -> UserView {
        UserView { pending: self.pending.deep_view(), state: self.state.deep_view(), last_transition: self.last_transition }
    }
}

/// What a user's state machine is told.
pub enum UserAction {
    ForceReset,
    NewMessage { msg: String, start_conversation: bool },
    Timeout,
    CommitResult(Result<(), String>),
    LLMDecisionResult(Result<LLMResponse, String>),
    MessageSent(Result<(), String>),
    ToolResult { id: String, result: Result<ToolResultData, String> },
}

/// Model of a [`UserAction`].
pub enum UserActionView {
    ForceReset,
    NewMessage { msg: Seq<char>, start_conversation: bool },
    Timeout,
    CommitResult(Result<(), Seq<char>>),
    LLMDecisionResult(Result<LLMResponseView, Seq<char>>),
    MessageSent(Result<(), Seq<char>>),
    ToolResult { id: Seq<char>, result: Result<(Seq<char>, Seq<char>), Seq<char>> },
}

impl DeepView for UserAction {
    type V = UserActionView;

    open spec fn deep_view(&self) -> UserActionView {
        match self {
            UserAction::ForceReset => UserActionView::ForceReset,
            UserAction::NewMessage { msg, start_conversation } =>
                UserActionView::NewMessage { msg: msg@, start_conversation: *start_conversation },
            UserAction::Timeout => UserActionView::Timeout,
            UserAction::CommitResult(r) => UserActionView::CommitResult(match r {
                Ok(()) => Ok(()),
                Err(e) => Err(e@),
            }),
            UserAction::LLMDecisionResult(r) => UserActionView::LLMDecisionResult(match r {
                Ok(x) => Ok(x.deep_view()),
                Err(e) => Err(e@),
            }),
            UserAction::MessageSent(r) => UserActionView::MessageSent(match r {
                Ok(()) => Ok(()),
                Err(e) => Err(e@),
            }),
            UserAction::ToolResult { id, result } => UserActionView::ToolResult {
                id: id@,
                result: match result {
                    Ok(d) => Ok(d.deep_view()),
                    Err(e) => Err(e@),
                },
            },
        }
    }
}

impl UserAction {
    /// How the action is named in logs.
    pub fn label(&self) -> (r: &'static str)
        ensures
            r@ == match self.deep_view() {
                UserActionView::ForceReset => "ForceReset"@,
                UserActionView::NewMessage { .. } => "NewMessage"@,
                UserActionView::Timeout => "Timeout"@,
                UserActionView::CommitResult(_) => "CommitResult"@,
                UserActionView::LLMDecisionResult(_) => "LLMDecisionResult"@,
                UserActionView::MessageSent(_) => "MessageSent"@,
                UserActionView::ToolResult { .. } => "ToolResult"@,
            },
    {
        match self {
            UserAction::ForceReset => "ForceReset",
            UserAction::NewMessage { .. } => "NewMessage",
            UserAction::Timeout => "Timeout",
            UserAction::CommitResult(_) => "CommitResult",
            UserAction::LLMDecisionResult(_) => "LLMDecisionResult",
            UserAction::MessageSent(_) => "MessageSent",
            UserAction::ToolResult { .. } => "ToolResult",
        }
    }
}

// ---------------------------------------------------------------------------
// The state machine

/// What the user's state machine has done on its behalf.
pub enum UserEffect {
    /// Ask the model for its next turn.
    RequestDecision { input: LLMInput, recent: Option<RecentConversation>, tool_rounds: usize, max_tool_rounds: usize },
    /// Send `message` to the user.
    SendMessage { message: String },
    /// Run a tool call for the user (keyed `user_key`) with the history so far.
    ExecuteTool { tool_call: ToolCall, user_key: String, history: Vec<HistoryEntry> },
    /// Commit the conversation to the user's long-term memory.
    CommitToMemory { user_key: String, history: Vec<HistoryEntry> },
}

/// Model of a [`UserEffect`].
pub enum UserEffectView {
    RequestDecision { input: LLMInputView, recent: Option<RecentConversationView>, tool_rounds: usize, max_tool_rounds: usize },
    SendMessage { message: Seq<char> },
    ExecuteTool { tool_call: ToolCallView, user_key: Seq<char>, history: Seq<HistoryEntryView> },
    CommitToMemory { user_key: Seq<char>, history: Seq<HistoryEntryView> },
}

impl DeepView for UserEffect {
    type V = UserEffectView;

    open spec fn deep_view(&self) -> UserEffectView {
        match self {
            UserEffect::RequestDecision { input, recent, tool_rounds, max_tool_rounds } => UserEffectView::RequestDecision {
                input: input.deep_view(),
                recent: recent.deep_view(),
                tool_rounds: *tool_rounds,
                max_tool_rounds: *max_tool_rounds,
            },
            UserEffect::SendMessage { message } => UserEffectView::SendMessage { message: message@ },
            UserEffect::ExecuteTool { tool_call, user_key, history } => UserEffectView::ExecuteTool {
                tool_call: tool_call.deep_view(),
                user_key: user_key@,
                history: history.deep_view(),
            },
            UserEffect::CommitToMemory { user_key, history } =>
                UserEffectView::CommitToMemory { user_key: user_key@, history: history.deep_view() },
        }
    }
}

/// The message the model is told when the user has gone quiet.
pub open spec fn goodbye_prompt() -> Seq<char> {
    "User said goodbye, RESPOND WITH GOODBYE BUT MENTION RELEVANT THINGS ABOUT THE CONVERSATION"@
}

/// The pending messages as one message: joined by newlines, `None` when there
/// are none.
pub open spec fn take_pending_view(pending: Seq<Seq<char>>) -> Option<Seq<char>> {
    if pending.len() == 0 { None } else { Some(seq_join(pending, "\n"@)) }
}

/// The notice sent while tools run: one `Using tool: NAME` line per call.
pub open spec fn announce_text(calls: Seq<ToolCallView>) -> Seq<char> {
    seq_join(calls.map_values(|c: ToolCallView| "Using tool: "@ + wire_name_of(kind_of(c.tool_type))), "\n"@)
}

/// What is sent to the user for a turn: the reply, or (when announcing is on)
/// the tool notice; nothing for a silent tool turn.
pub open spec fn message_to_send(announce: bool, output: LLMDecisionTypeView) -> Option<Seq<char>> {
    match output {
        LLMDecisionTypeView::MessageUser { response } => Some(response),
        LLMDecisionTypeView::IntermediateToolCall { tool_calls } => if announce { Some(announce_text(tool_calls)) } else { None },
    }
}

/// Where `id` is among the calls in flight.
pub open spec fn key_index(m: Seq<(Seq<char>, ToolCallView)>, id: Seq<char>) -> Option<int>
    decreases m.len(),
{
    if m.len() == 0 {
        None
    } else if m.last().0 == id {
        Some(m.len() - 1)
    } else {
        key_index(m.drop_last(), id)
    }
}

pub proof fn lemma_key_index(m: Seq<(Seq<char>, ToolCallView)>, id: Seq<char>)
    ensures
        key_index(m, id) matches Some(k) ==> 0 <= k < m.len() && m[k].0 == id,
        key_index(m, id) is None ==> forall|k: int| 0 <= k < m.len() ==> m[k].0 != id,
    decreases m.len(),
{
    if m.len() > 0 && m.last().0 != id {
        lemma_key_index(m.drop_last(), id);
        assert forall|k: int| 0 <= k < m.len() - 1 implies m[k] == m.drop_last()[k] by {}
    }
}

/// The calls in flight after adding `c` under its id (replacing one already
/// there, as a map keyed by id does).
pub open spec fn put_call(m: Seq<(Seq<char>, ToolCallView)>, c: ToolCallView) -> Seq<(Seq<char>, ToolCallView)> {
    match key_index(m, c.id) {
        Some(k) => m.update(k, (c.id, c)),
        None => m.push((c.id, c)),
    }
}

/// The calls of a batch as they are put in flight.
pub open spec fn in_flight(calls: Seq<ToolCallView>) -> Seq<(Seq<char>, ToolCallView)>
    decreases calls.len(),
{
    if calls.len() == 0 { Seq::empty() } else { put_call(in_flight(calls.drop_last()), calls.last()) }
}

/// A finished call and its result.
pub type Done = (ToolCallView, (Seq<char>, Seq<char>));

/// `s` (sorted by id) with `x` inserted after every entry whose id is not greater.
pub open spec fn insert_done(s: Seq<Done>, x: Done) -> Seq<Done>
    decreases s.len(),
{
    if s.len() == 0 {
        seq![x]
    } else if id_le(s.last().0.id, x.0.id) {
        s.push(x)
    } else {
        insert_done(s.drop_last(), x).push(s.last())
    }
}

/// `s` stably sorted by call id, in the order of [`id_le`].
pub open spec fn sort_done(s: Seq<Done>) -> Seq<Done>
    decreases s.len(),
{
    if s.len() == 0 { Seq::empty() } else { insert_done(sort_done(s.drop_last()), s.last()) }
}

/// A result folded into data: an error becomes its report.
pub open spec fn folded_data(result: Result<(Seq<char>, Seq<char>), Seq<char>>) -> (Seq<char>, Seq<char>) {
    match result {
        Ok(d) => d,
        Err(m) => ("Tool execution failed: "@ + m, "Tool execution failed: "@ + m),
    }
}

/// What the machine does with the model's decision: answer and rest (the
/// conversation is remembered unless it was the goodbye), or dispatch every
/// call and wait for the batch.
pub open spec fn outcome_view(
    user_key: Seq<char>,
    is_timeout: bool,
    response: LLMResponseView,
    recent: RecentConversationView,
    pending: Seq<Seq<char>>,
    tool_rounds: usize,
    now: i64,
) -> (UserView, Seq<UserEffectView>) {
    match response.output {
        LLMDecisionTypeView::MessageUser { .. } => (
            UserView {
                pending,
                state: UserStateView::Idle { recent_conversation: if is_timeout { None } else { Some((recent, now)) } },
                last_transition: now,
            },
            Seq::empty(),
        ),
        LLMDecisionTypeView::IntermediateToolCall { tool_calls } => (
            UserView {
                pending,
                state: UserStateView::RunningTools {
                    is_timeout,
                    recent_conversation: recent,
                    tool_rounds: (tool_rounds + 1) as usize,
                    pending_tools: in_flight(tool_calls),
                    completed_tools: Seq::empty(),
                },
                last_transition: now,
            },
            tool_calls.map_values(|c: ToolCallView| UserEffectView::ExecuteTool { tool_call: c, user_key, history: recent.history }),
        ),
    }
}

/// One step before the rest rule (see [`user_transition_view`]).
pub open spec fn user_step_view(
    announce: bool,
    user_key: Seq<char>,
    user: UserView,
    action: UserActionView,
    now: i64,
) -> Result<(UserView, Seq<UserEffectView>), Seq<char>> {
    match (user.state, action) {
        (_, UserActionView::ForceReset) => Ok((
            UserView { pending: Seq::empty(), state: UserStateView::Idle { recent_conversation: None }, last_transition: now },
            Seq::empty(),
        )),
        (state, UserActionView::NewMessage { msg, start_conversation }) => {
            let accept = !(state matches UserStateView::Idle { recent_conversation: None } && !start_conversation);
            Ok((
                UserView { pending: if accept { user.pending.push(msg) } else { user.pending }, ..user },
                Seq::empty(),
            ))
        },
        (UserStateView::AwaitingLLMDecision { is_timeout, history, current_input, tool_rounds }, UserActionView::LLMDecisionResult(res)) =>
            match res {
                Ok(response) => {
                    let recent = RecentConversationView {
                        thoughts: response.thoughts,
                        history: history.push(HistoryEntryView::Input(current_input)).push(HistoryEntryView::Output(response)),
                    };
                    match message_to_send(announce, response.output) {
                        Some(m) => Ok((
                            UserView {
                                pending: user.pending,
                                state: UserStateView::SendingMessage { is_timeout, outcome: response, recent_conversation: recent, tool_rounds },
                                last_transition: now,
                            },
                            seq![UserEffectView::SendMessage { message: m }],
                        )),
                        None => Ok(outcome_view(user_key, is_timeout, response, recent, user.pending, tool_rounds, now)),
                    }
                },
                Err(_) => Ok((
                    UserView { pending: user.pending, state: UserStateView::Idle { recent_conversation: None }, last_transition: now },
                    Seq::empty(),
                )),
            },
        (UserStateView::SendingMessage { is_timeout, outcome, recent_conversation, tool_rounds }, UserActionView::MessageSent(_)) =>
            Ok(outcome_view(user_key, is_timeout, outcome, recent_conversation, user.pending, tool_rounds, now)),
        (
            UserStateView::RunningTools { is_timeout, recent_conversation, tool_rounds, pending_tools, completed_tools },
            UserActionView::ToolResult { id, result },
        ) => {
            let (still, done) = match key_index(pending_tools, id) {
                Some(k) => (pending_tools.remove(k), completed_tools.push((pending_tools[k].1, folded_data(result)))),
                None => (pending_tools, completed_tools),
            };
            if still.len() == 0 {
                let results = sort_done(done).map_values(|d: Done| (d.0.id, d.1));
                let input = LLMInputView::ToolResults(results, take_pending_view(user.pending));
                Ok((
                    UserView {
                        pending: Seq::empty(),
                        state: UserStateView::AwaitingLLMDecision {
                            is_timeout,
                            history: recent_conversation.history,
                            current_input: input,
                            tool_rounds,
                        },
                        last_transition: now,
                    },
                    seq![UserEffectView::RequestDecision {
                        input,
                        recent: Some(recent_conversation),
                        tool_rounds,
                        max_tool_rounds: MAX_TOOL_ROUNDS,
                    }],
                ))
            } else {
                Ok((
                    UserView {
                        pending: user.pending,
                        state: UserStateView::RunningTools {
                            is_timeout,
                            recent_conversation,
                            tool_rounds,
                            pending_tools: still,
                            completed_tools: done,
                        },
                        last_transition: now,
                    },
                    Seq::empty(),
                ))
            }
        },
        (UserStateView::Idle { recent_conversation: Some((rc, _)) }, UserActionView::Timeout) => Ok((
            UserView { pending: user.pending, state: UserStateView::CommitingToMemory { recent_conversation: rc }, last_transition: now },
            seq![UserEffectView::CommitToMemory { user_key, history: rc.history }],
        )),
        (UserStateView::CommitingToMemory { recent_conversation }, UserActionView::CommitResult(_)) => Ok((
            UserView {
                pending: user.pending,
                state: UserStateView::AwaitingLLMDecision {
                    is_timeout: true,
                    history: recent_conversation.history,
                    current_input: LLMInputView::UserMessage(goodbye_prompt()),
                    tool_rounds: 0,
                },
                last_transition: now,
            },
            seq![UserEffectView::RequestDecision {
                input: LLMInputView::UserMessage(goodbye_prompt()),
                recent: Some(recent_conversation),
                tool_rounds: 0,
                max_tool_rounds: MAX_TOOL_ROUNDS,
            }],
        )),
        _ => Err("Invalid state or action"@),
    }
}

/// The rest rule: a user never rests idle with messages waiting; they become
/// one new turn, given the remembered conversation.
pub open spec fn rest_view(step: (UserView, Seq<UserEffectView>), now: i64) -> (UserView, Seq<UserEffectView>) {
    let (u, e) = step;
    match u.state {
        UserStateView::Idle { recent_conversation } => if u.pending.len() == 0 {
            (u, e)
        } else {
            let input = LLMInputView::UserMessage(seq_join(u.pending, "\n"@));
            let history = match recent_conversation {
                Some((rc, _)) => rc.history,
                None => Seq::empty(),
            };
            let recent = match recent_conversation {
                Some((rc, _)) => Some(rc),
                None => None,
            };
            (
                UserView {
                    pending: Seq::empty(),
                    state: UserStateView::AwaitingLLMDecision { is_timeout: false, history, current_input: input, tool_rounds: 0 },
                    last_transition: now,
                },
                e.push(UserEffectView::RequestDecision { input, recent, tool_rounds: 0, max_tool_rounds: MAX_TOOL_ROUNDS }),
            )
        },
        _ => (u, e),
    }
}

/// One step of a user's machine at time `now`, the rest rule applied.
pub open spec fn user_transition_view(
    announce: bool,
    user_key: Seq<char>,
    user: UserView,
    action: UserActionView,
    now: i64,
) -> Result<(UserView, Seq<UserEffectView>), Seq<char>> {
    match user_step_view(announce, user_key, user, action, now) {
        Ok(step) => Ok(rest_view(step, now)),
        Err(e) => Err(e),
    }
}

/// Whether the round counter can still be advanced.
pub open spec fn user_rounds_ok(s: UserStateView) -> bool {
    match s {
        UserStateView::AwaitingLLMDecision { tool_rounds, .. } => tool_rounds < usize::MAX,
        UserStateView::SendingMessage { tool_rounds, .. } => tool_rounds < usize::MAX,
        _ => true,
    }
}

/// Drains the waiting messages into one (see [`take_pending_view`]).
pub fn take_pending(pending: &mut Vec<String>) -> (r: Option<String>)
    ensures
        r.deep_view() == take_pending_view(old(pending).deep_view()),
        final(pending)@.len() == 0,
{
    if pending.len() == 0 {
        return None;
    }
    let msg = join(pending, "\n");
    proof {
        assert(views(pending@) =~= pending.deep_view());
    }
    pending.clear();
    Some(msg)
}

fn announce(calls: &Vec<ToolCall>) -> (r: String)
    ensures
        r@ == announce_text(calls.deep_view()),
{
    let mut lines: Vec<String> = Vec::new();
    let mut i: usize = 0;
    while i < calls.len()
        invariant
            i <= calls@.len(),
            lines@.len() == i,
            forall|j: int| 0 <= j < i ==> (#[trigger] lines@[j])@ == "Using tool: "@ + wire_name_of(kind_of(calls@[j].tool_type.deep_view())),
        decreases calls@.len() - i,
    {
        lines.push(concat2("Using tool: ", calls[i].tool_type.wire_name()));
        i += 1;
    }
    assert(views(lines@) =~= calls.deep_view().map_values(|c: ToolCallView| "Using tool: "@ + wire_name_of(kind_of(c.tool_type))));
    join(&lines, "\n")
}

fn key_index_of(m: &Vec<(String, ToolCall)>, id: &str) -> (r: Option<usize>)
    ensures
        match key_index(m.deep_view(), id@) {
            Some(k) => r == Some(k as usize),
            None => r is None,
        },
{
    let ghost d = m.deep_view();
    let mut n = m.len();
    assert(d.take(n as int) =~= d);
    while n > 0
        invariant
            n <= m@.len(),
            d == m.deep_view(),
            key_index(d, id@) == key_index(d.take(n as int), id@),
        decreases n,
    {
        assert(d.take(n as int).last() == m@[n - 1].deep_view());
        if crate::text::str_eq(m[n - 1].0.as_str(), id) {
            return Some(n - 1);
        }
        assert(d.take(n as int).drop_last() =~= d.take(n - 1));
        n -= 1;
    }
    None
}

fn put(m: &mut Vec<(String, ToolCall)>, c: ToolCall)
    ensures
        final(m).deep_view() == put_call(old(m).deep_view(), c.deep_view()),
{
    let ghost before = m.deep_view();
    proof {
        lemma_key_index(before, c.id@);
    }
    match key_index_of(m, c.id.as_str()) {
        Some(k) => {
            let id = c.id.clone();
            m.set(k, (id, c));
            assert(m.deep_view() =~= before.update(k as int, (c.deep_view().id, c.deep_view())));
        },
        None => {
            let id = c.id.clone();
            m.push((id, c));
            assert(m.deep_view() =~= before.push((c.deep_view().id, c.deep_view())));
        },
    }
}

fn put_all(calls: &Vec<ToolCall>) -> (r: Vec<(String, ToolCall)>)
    ensures
        r.deep_view() == in_flight(calls.deep_view()),
{
    let mut m: Vec<(String, ToolCall)> = Vec::new();
    let mut i: usize = 0;
    assert(calls.deep_view().take(0) =~= Seq::<ToolCallView>::empty());
    assert(m.deep_view() =~= Seq::<(Seq<char>, ToolCallView)>::empty());
    while i < calls.len()
        invariant
            i <= calls@.len(),
            m.deep_view() == in_flight(calls.deep_view().take(i as int)),
        decreases calls@.len() - i,
    {
        assert(calls.deep_view().take(i + 1).drop_last() =~= calls.deep_view().take(i as int));
        assert(calls.deep_view().take(i + 1).last() == calls@[i as int].deep_view());
        put(&mut m, calls[i].clone());
        i += 1;
    }
    assert(calls.deep_view().take(calls@.len() as int) =~= calls.deep_view());
    m
}

fn outcome(
    user_key: &str,
    is_timeout: bool,
    response: LLMResponse,
    recent: RecentConversation,
    pending: Vec<String>,
    tool_rounds: usize,
    now: i64,
) -> (r: (User, Vec<UserEffect>))
    requires
        tool_rounds < usize::MAX,
    ensures
        (r.0.deep_view(), r.1.deep_view()) == outcome_view(user_key@, is_timeout, response.deep_view(), recent.deep_view(),
            pending.deep_view(), tool_rounds, now),
{
    match response.output {
        LLMDecisionType::MessageUser { .. } => {
            let state = UserState::Idle { recent_conversation: if is_timeout { None } else { Some((recent, now)) } };
            let effects: Vec<UserEffect> = Vec::new();
            assert(effects.deep_view() =~= Seq::<UserEffectView>::empty());
            (User { pending, state, last_transition: now }, effects)
        },
        LLMDecisionType::IntermediateToolCall { tool_calls } => {
            let mut effects: Vec<UserEffect> = Vec::new();
            let mut i: usize = 0;
            while i < tool_calls.len()
                invariant
                    i <= tool_calls@.len(),
                    effects@.len() == i,
                    forall|j: int| 0 <= j < i ==> (#[trigger] effects@[j]).deep_view() == (UserEffectView::ExecuteTool {
                        tool_call: tool_calls@[j].deep_view(),
                        user_key: user_key@,
                        history: recent.history.deep_view(),
                    }),
                decreases tool_calls@.len() - i,
            {
                effects.push(UserEffect::ExecuteTool {
                    tool_call: tool_calls[i].clone(),
                    user_key: owned(user_key),
                    history: recent.history(),
                });
                i += 1;
            }
            assert(effects.deep_view() =~= tool_calls.deep_view().map_values(|c: ToolCallView|
                UserEffectView::ExecuteTool { tool_call: c, user_key: user_key@, history: recent.history.deep_view() }));
            let pending_tools = put_all(&tool_calls);
            let completed_tools: Vec<(ToolCall, ToolResultData)> = Vec::new();
            assert(completed_tools.deep_view() =~= Seq::<Done>::empty());
            let state = UserState::RunningTools {
                is_timeout,
                recent_conversation: recent,
                tool_rounds: tool_rounds + 1,
                pending_tools,
                completed_tools,
            };
            (User { pending, state, last_transition: now }, effects)
        },
    }
}

proof fn lemma_insert_done(s: Seq<Done>, x: Done, j: int)
    requires
        0 <= j <= s.len(),
        forall|k: int| j <= k < s.len() ==> !id_le(#[trigger] s[k].0.id, x.0.id),
        j > 0 ==> id_le(s[j - 1].0.id, x.0.id),
    ensures
        insert_done(s, x) == s.take(j).push(x) + s.skip(j),
    decreases s.len(),
{
    if s.len() == 0 {
        assert(s.take(j).push(x) + s.skip(j) =~= seq![x]);
    } else if j == s.len() {
        assert(s.take(j).push(x) + s.skip(j) =~= s.push(x));
    } else {
        assert(!id_le(s[s.len() - 1].0.id, x.0.id));
        lemma_insert_done(s.drop_last(), x, j);
        assert(s.drop_last().take(j).push(x) + s.drop_last().skip(j) + seq![s.last()] =~= s.take(j).push(x) + s.skip(j));
    }
}

fn insert_by_id(v: &mut Vec<(ToolCall, ToolResultData)>, x: (ToolCall, ToolResultData))
    ensures
        final(v).deep_view() == insert_done(old(v).deep_view(), x.deep_view()),
{
    let ghost s = v.deep_view();
    let mut j = v.len();
    while j > 0 && !crate::text::id_str_le(v[j - 1].0.id.as_str(), x.0.id.as_str())
        invariant
            j <= v.len(),
            s == v.deep_view(),
            forall|k: int| j <= k < s.len() ==> !id_le(#[trigger] s[k].0.id, x.0.id@),
        decreases j,
    {
        j -= 1;
    }
    proof {
        lemma_insert_done(s, x.deep_view(), j as int);
    }
    v.insert(j, x);
    assert(v.deep_view() =~= s.take(j as int).push(x.deep_view()) + s.skip(j as int));
}

fn sort_by_id(v: Vec<(ToolCall, ToolResultData)>) -> (r: Vec<(ToolCall, ToolResultData)>)
    ensures
        r.deep_view() == sort_done(v.deep_view()),
{
    let ghost s = v.deep_view();
    let mut r: Vec<(ToolCall, ToolResultData)> = Vec::new();
    let mut v = v;
    let mut n: usize = 0;
    assert(s.skip(0) =~= s);
    let total = v.len();
    while v.len() > 0
        invariant
            n + v.len() == s.len(),
            s.len() == total,
            v.deep_view() == s.skip(n as int),
            r.deep_view() == sort_done(s.take(n as int)),
        decreases v.len(),
    {
        let ghost vv = v@;
        let ghost vd = v.deep_view();
        assert(vd[0] == vv[0].deep_view());
        assert(s.skip(n as int)[0] == s[n as int]);
        let x = v.remove(0);
        assert(s.take(n + 1).drop_last() =~= s.take(n as int));
        insert_by_id(&mut r, x);
        n += 1;
        assert forall|k: int| 0 <= k < v@.len() implies #[trigger] v.deep_view()[k] == s.skip(n as int)[k] by {
            assert(v@[k] == vv[k + 1]);
            assert(vd[k + 1] == s.skip(n - 1)[k + 1]);
        }
        assert(v.deep_view() =~= s.skip(n as int));
    }
    assert(s.take(n as int) =~= s);
    r
}

fn fold_result(result: &Result<ToolResultData, String>) -> (r: ToolResultData)
    ensures
        r.deep_view() == folded_data(match result {
            Ok(d) => Ok(d.deep_view()),
            Err(e) => Err(e@),
        }),
{
    match result {
        Ok(d) => d.clone(),
        Err(m) => {
            let msg = concat2("Tool execution failed: ", m.as_str());
            ToolResultData { actual: msg.clone(), simplified: msg }
        },
    }
}

fn results_of(done: Vec<(ToolCall, ToolResultData)>) -> (r: Vec<ToolResult>)
    ensures
        r.deep_view() == done.deep_view().map_values(|d: Done| (d.0.id, d.1)),
{
    let mut r: Vec<ToolResult> = Vec::new();
    let mut i: usize = 0;
    while i < done.len()
        invariant
            i <= done@.len(),
            r@.len() == i,
            forall|j: int| 0 <= j < i ==> (#[trigger] r@[j]).deep_view() == (done@[j].0.id@, done@[j].1.deep_view()),
        decreases done@.len() - i,
    {
        r.push(ToolResult { id: done[i].0.id.clone(), data: done[i].1.clone() });
        i += 1;
    }
    assert(r.deep_view() =~= done.deep_view().map_values(|d: Done| (d.0.id, d.1)));
    r
}

fn no_effects() -> (r: Vec<UserEffect>)
    ensures
        r.deep_view() == Seq::<UserEffectView>::empty(),
{
    let r: Vec<UserEffect> = Vec::new();
    assert(r.deep_view() =~= Seq::<UserEffectView>::empty());
    r
}

/// One step before the rest rule (see [`user_step_view`]).
fn user_step(
    announce_tools: bool,
    user_key: &str,
    user: User,
    action: &UserAction,
    now: i64,
) -> (r: Result<(User, Vec<UserEffect>), String>)
    requires
        user_rounds_ok(user.state.deep_view()),
    ensures
        match user_step_view(announce_tools, user_key@, user.deep_view(), action.deep_view(), now) {
            Ok((u, e)) => r matches Ok(p) && p.0.deep_view() == u && p.1.deep_view() == e,
            Err(m) => r matches Err(x) && x@ == m,
        },
{
    let ghost uv = user.deep_view();
    let User { pending, state, last_transition } = user;
    match (state, action) {
        (_, UserAction::ForceReset) => {
            let p: Vec<String> = Vec::new();
            assert(p.deep_view() =~= Seq::<Seq<char>>::empty());
            Ok((User { pending: p, state: UserState::Idle { recent_conversation: None }, last_transition: now }, no_effects()))
        },
        (state, UserAction::NewMessage { msg, start_conversation }) => {
            let accept = !(matches!(state, UserState::Idle { recent_conversation: None }) && !*start_conversation);
            let mut pending = pending;
            if accept {
                let ghost before = pending.deep_view();
                pending.push(msg.clone());
                assert(pending.deep_view() =~= before.push(msg@));
            }
            Ok((User { pending, state, last_transition }, no_effects()))
        },
        (UserState::AwaitingLLMDecision { is_timeout, history, current_input, tool_rounds }, UserAction::LLMDecisionResult(res)) => {
            match res {
                Ok(response) => {
                    let mut updated = history;
                    let ghost h0 = updated.deep_view();
                    updated.push(HistoryEntry::Input(current_input));
                    updated.push(HistoryEntry::Output(response.clone()));
                    assert(updated.deep_view() =~= h0.push(HistoryEntryView::Input(current_input.deep_view())).push(HistoryEntryView::Output(response.deep_view())));
                    let recent = RecentConversation { thoughts: response.thoughts.clone(), history: updated };
                    let message = match &response.output {
                        LLMDecisionType::MessageUser { response: text } => Some(text.clone()),
                        LLMDecisionType::IntermediateToolCall { tool_calls } => if announce_tools { Some(announce(tool_calls)) } else { None },
                    };
                    match message {
                        Some(m) => {
                            let effects = vec![UserEffect::SendMessage { message: m }];
                            let ghost want = seq![UserEffectView::SendMessage { message: message_to_send(announce_tools, response.deep_view().output)->0 }];
                            assert(effects.deep_view() =~= want);
                            Ok((
                                User {
                                    pending,
                                    state: UserState::SendingMessage { is_timeout, outcome: response.clone(), recent_conversation: recent, tool_rounds },
                                    last_transition: now,
                                },
                                effects,
                            ))
                        },
                        None => Ok(outcome(user_key, is_timeout, response.clone(), recent, pending, tool_rounds, now)),
                    }
                },
                Err(_) => Ok((User { pending, state: UserState::Idle { recent_conversation: None }, last_transition: now }, no_effects())),
            }
        },
        (UserState::SendingMessage { is_timeout, outcome: response, recent_conversation, tool_rounds }, UserAction::MessageSent(_)) =>
            Ok(outcome(user_key, is_timeout, response, recent_conversation, pending, tool_rounds, now)),
        (
            UserState::RunningTools { is_timeout, recent_conversation, tool_rounds, pending_tools, completed_tools },
            UserAction::ToolResult { id, result },
        ) => {
            let ghost pt = pending_tools.deep_view();
            let ghost ct = completed_tools.deep_view();
            let mut still = pending_tools;
            let mut done = completed_tools;
            proof {
                lemma_key_index(pt, id@);
            }
            match key_index_of(&still, id.as_str()) {
                Some(k) => {
                    let (_, call) = still.remove(k);
                    assert(still.deep_view() =~= pt.remove(k as int));
                    let data = fold_result(result);
                    done.push((call, data));
                    assert(done.deep_view() =~= ct.push((pt[k as int].1, folded_data(match result {
                        Ok(d) => Ok(d.deep_view()),
                        Err(e) => Err(e@),
                    }))));
                },
                None => {},
            }
            if still.len() == 0 {
                let sorted = sort_by_id(done);
                let results = results_of(sorted);
                let mut pending = pending;
                let follow = take_pending(&mut pending);
                let input = LLMInput::ToolResults(results, follow);
                let history = recent_conversation.history();
                let effects = vec![UserEffect::RequestDecision {
                    input: input.clone(),
                    recent: Some(recent_conversation),
                    tool_rounds,
                    max_tool_rounds: MAX_TOOL_ROUNDS,
                }];
                assert(pending.deep_view() =~= Seq::<Seq<char>>::empty());
                assert(effects.deep_view() =~= seq![effects@[0].deep_view()]);
                Ok((
                    User {
                        pending,
                        state: UserState::AwaitingLLMDecision { is_timeout, history, current_input: input, tool_rounds },
                        last_transition: now,
                    },
                    effects,
                ))
            } else {
                Ok((
                    User {
                        pending,
                        state: UserState::RunningTools {
                            is_timeout,
                            recent_conversation,
                            tool_rounds,
                            pending_tools: still,
                            completed_tools: done,
                        },
                        last_transition: now,
                    },
                    no_effects(),
                ))
            }
        },
        (UserState::Idle { recent_conversation: Some((rc, _)) }, UserAction::Timeout) => {
            let effects = vec![UserEffect::CommitToMemory { user_key: owned(user_key), history: rc.history() }];
            assert(effects.deep_view() =~= seq![UserEffectView::CommitToMemory { user_key: user_key@, history: rc.deep_view().history }]);
            Ok((User { pending, state: UserState::CommitingToMemory { recent_conversation: rc }, last_transition: now }, effects))
        },
        (UserState::CommitingToMemory { recent_conversation }, UserAction::CommitResult(_)) => {
            let input = LLMInput::UserMessage(owned("User said goodbye, RESPOND WITH GOODBYE BUT MENTION RELEVANT THINGS ABOUT THE CONVERSATION"));
            let history = recent_conversation.history();
            let effects = vec![UserEffect::RequestDecision {
                input: input.clone(),
                recent: Some(recent_conversation),
                tool_rounds: 0,
                max_tool_rounds: MAX_TOOL_ROUNDS,
            }];
            assert(effects.deep_view() =~= seq![effects@[0].deep_view()]);
            Ok((
                User {
                    pending,
                    state: UserState::AwaitingLLMDecision { is_timeout: true, history, current_input: input, tool_rounds: 0 },
                    last_transition: now,
                },
                effects,
            ))
        },
        _ => Err(owned("Invalid state or action")),
    }
}

/// The rest rule (see [`rest_view`]).
fn rest(step: (User, Vec<UserEffect>), now: i64) -> (r: (User, Vec<UserEffect>))
    ensures
        (r.0.deep_view(), r.1.deep_view()) == rest_view((step.0.deep_view(), step.1.deep_view()), now),
{
    let (user, effects) = step;
    let User { pending, state, last_transition } = user;
    match state {
        UserState::Idle { recent_conversation } => {
            if pending.len() == 0 {
                return (User { pending, state: UserState::Idle { recent_conversation }, last_transition }, effects);
            }
            let msg = join(&pending, "\n");
            assert(views(pending@) =~= pending.deep_view());
            let input = LLMInput::UserMessage(msg);
            let (history, recent) = match recent_conversation {
                Some((rc, _)) => (rc.history(), Some(rc)),
                None => (Vec::new(), None),
            };
            assert(history.deep_view() =~= match recent.deep_view() {
                Some(rc) => rc.history,
                None => Seq::<HistoryEntryView>::empty(),
            });
            let mut effects = effects;
            let ghost e0 = effects.deep_view();
            effects.push(UserEffect::RequestDecision { input: input.clone(), recent, tool_rounds: 0, max_tool_rounds: MAX_TOOL_ROUNDS });
            assert(effects.deep_view() =~= e0.push(effects@[effects@.len() - 1].deep_view()));
            let p: Vec<String> = Vec::new();
            assert(p.deep_view() =~= Seq::<Seq<char>>::empty());
            (
                User {
                    pending: p,
                    state: UserState::AwaitingLLMDecision { is_timeout: false, history, current_input: input, tool_rounds: 0 },
                    last_transition: now,
                },
                effects,
            )
        },
        state => (User { pending, state, last_transition }, effects),
    }
}

/// One step of a user's machine at time `now` (see [`user_transition_view`]).
pub fn user_transition(
    announce_tools: bool,
    user_id: &UserId,
    user: User,
    action: &UserAction,
    now: i64,
) -> (r: Result<(User, Vec<UserEffect>), String>)
    requires
        user_rounds_ok(user.state.deep_view()),
    ensures
        match user_transition_view(announce_tools, channel_name(user_id.0) + "_"@ + user_id.1@, user.deep_view(), action.deep_view(), now) {
            Ok((u, e)) => r matches Ok(p) && p.0.deep_view() == u && p.1.deep_view() == e,
            Err(m) => r matches Err(x) && x@ == m,
        },
{
    let key = user_id.to_string();
    match user_step(announce_tools, key.as_str(), user, action, now) {
        Ok(step) => Ok(rest(step, now)),
        Err(e) => Err(e),
    }
}

/// When the machine next wakes a user on its own: a remembered conversation
/// is let go after five idle minutes; a user stuck mid-turn for ten minutes
/// is reset.
pub open spec fn user_schedule_view(u: UserView) -> Option<(int, UserActionView)> {
    match u.state {
        UserStateView::Idle { recent_conversation: Some((_, at)) } => Some((at + IDLE_TIMEOUT_MS, UserActionView::Timeout)),
        UserStateView::Idle { recent_conversation: None } => None,
        _ => Some((u.last_transition + BUSY_TIMEOUT_MS, UserActionView::ForceReset)),
    }
}

/// The user's scheduled wakeups (see [`user_schedule_view`]).
pub fn schedule(user: &User) -> (r: Vec<crate::framework::Scheduled<UserAction>>)
    requires
        user.last_transition <= i64::MAX - BUSY_TIMEOUT_MS,
        user.state.deep_view() matches UserStateView::Idle { recent_conversation: Some((_, at)) } ==> at <= i64::MAX - IDLE_TIMEOUT_MS,
    ensures
        match user_schedule_view(user.deep_view()) {
            Some((at, a)) => r@.len() == 1 && r@[0].at == at && r@[0].action.deep_view() == a,
            None => r@.len() == 0,
        },
{
    let mut r: Vec<crate::framework::Scheduled<UserAction>> = Vec::new();
    match &user.state {
        UserState::Idle { recent_conversation: Some((_, at)) } =>
            r.push(crate::framework::Scheduled { at: *at + IDLE_TIMEOUT_MS, action: UserAction::Timeout }),
        UserState::Idle { recent_conversation: None } => {},
        _ => r.push(crate::framework::Scheduled { at: user.last_transition + BUSY_TIMEOUT_MS, action: UserAction::ForceReset }),
    }
    r
}

impl LLMInput {
    /// The input as chat messages: a user message, or one `tool` message per
    /// result carrying its full output.
    pub fn to_openai_messages(&self) -> (r: Vec<ChatMessage>)
        ensures
            r.deep_view() == match self.deep_view() {
                LLMInputView::UserMessage(m) => seq![bare_view(ChatRole::User, m)],
                LLMInputView::ToolResults(results, _) => results.map_values(|t: (Seq<char>, (Seq<char>, Seq<char>))|
                    ChatMessageView { role: ChatRole::Tool, content: t.1.0, tool_calls: Seq::empty(), tool_call_id: Some(t.0) }),
            },
    {
        match self {
            LLMInput::UserMessage(m) => {
                let r = vec![ChatMessage::user(m.clone())];
                assert(r.deep_view() =~= seq![bare_view(ChatRole::User, m@)]);
                r
            },
            LLMInput::ToolResults(results, _) => {
                let mut r: Vec<ChatMessage> = Vec::new();
                let mut i: usize = 0;
                while i < results.len()
                    invariant
                        i <= results@.len(),
                        r@.len() == i,
                        forall|j: int| 0 <= j < i ==> (#[trigger] r@[j]).deep_view() == (ChatMessageView {
                            role: ChatRole::Tool,
                            content: results@[j].data.actual@,
                            tool_calls: Seq::empty(),
                            tool_call_id: Some(results@[j].id@),
                        }),
                    decreases results@.len() - i,
                {
                    r.push(ChatMessage::tool(results[i].id.clone(), results[i].data.actual.clone()));
                    i += 1;
                }
                assert(r.deep_view() =~= results.deep_view().map_values(|t: (Seq<char>, (Seq<char>, Seq<char>))|
                    ChatMessageView { role: ChatRole::Tool, content: t.1.0, tool_calls: Seq::empty(), tool_call_id: Some(t.0) }));
                r
            },
        }
    }
}

impl LLMResponse {
    /// The turn as an assistant message: the reply, or (for a tool turn) empty
    /// content carrying each call by name and arguments.
    pub fn to_openai_message(&self) -> (r: ChatMessage)
        ensures
            r.deep_view() == match self.deep_view().output {
                LLMDecisionTypeView::MessageUser { response } => bare_view(ChatRole::Assistant, response),
                LLMDecisionTypeView::IntermediateToolCall { tool_calls } => ChatMessageView {
                    role: ChatRole::Assistant,
                    content: Seq::empty(),
                    tool_calls: tool_calls.map_values(|c: ToolCallView| crate::prompting::call_view(c)),
                    tool_call_id: None,
                },
            },
    {
        match &self.output {
            LLMDecisionType::MessageUser { response } => ChatMessage::assistant(response.clone()),
            LLMDecisionType::IntermediateToolCall { tool_calls } => {
                let mut calls: Vec<crate::chat_format::MessageToolCall> = Vec::new();
                let mut i: usize = 0;
                while i < tool_calls.len()
                    invariant
                        i <= tool_calls@.len(),
                        calls@.len() == i,
                        forall|j: int| 0 <= j < i ==> (#[trigger] calls@[j]).deep_view() == crate::prompting::call_view(tool_calls@[j].deep_view()),
                    decreases tool_calls@.len() - i,
                {
                    let tc = &tool_calls[i];
                    calls.push(crate::chat_format::MessageToolCall {
                        id: tc.id.clone(),
                        kind: "function",
                        function: crate::chat_format::MessageToolCallFunction {
                            name: tc.tool_type.wire_name(),
                            arguments: tc.tool_type.arguments_map(),
                        },
                    });
                    i += 1;
                }
                assert(calls.deep_view() =~= tool_calls.deep_view().map_values(|c: ToolCallView| crate::prompting::call_view(c)));
                ChatMessage::assistant_with_tools(String::new(), calls)
            },
        }
    }
}

/// How std's `Debug` writes a string: between double quotes, with its
/// special characters escaped.
pub uninterp spec fn debug_quoted(s: Seq<char>) -> Seq<char>;

/// `format!("{:?}", s)` on a `str`. Trusted: the text is std's `Debug`
/// rendering of `s`, named [`debug_quoted`]; which characters it escapes, and
/// how, is left unsaid.
#[verifier::external_body]
fn quote_debug(s: &str) -> (r: String)
    ensures
        r@ == debug_quoted(s@),
{
    format!("{s:?}")
}

/// How `Debug` writes an optional count.
pub open spec fn debug_opt_usize(o: Option<usize>) -> Seq<char> {
    match o {
        Some(n) => "Some("@ + crate::text::decimal(n as nat) + ")"@,
        None => "None"@,
    }
}

/// How `Debug` writes an optional string.
pub open spec fn debug_opt_text(o: Option<Seq<char>>) -> Seq<char> {
    match o {
        Some(t) => "Some("@ + debug_quoted(t) + ")"@,
        None => "None"@,
    }
}

/// How the derived `Debug` writes a tool: the variant's name, then its fields
/// by name between braces.
pub open spec fn debug_tool_type(t: ToolTypeView) -> Seq<char> {
    match t {
        ToolTypeView::WebSearch { query } => "WebSearch { query: "@ + debug_quoted(query) + " }"@,
        ToolTypeView::VisitUrl { url } => "VisitUrl { url: "@ + debug_quoted(url) + " }"@,
        ToolTypeView::RunBashCommand { command } => "RunBashCommand { command: "@ + debug_quoted(command) + " }"@,
        ToolTypeView::ResetBashContainer => "ResetBashContainer"@,
        ToolTypeView::ViewImage { path } => "ViewImage { path: "@ + debug_quoted(path) + " }"@,
        ToolTypeView::ReadFile { path, offset, limit } => "ReadFile { path: "@ + debug_quoted(path)
            + ", offset: "@ + debug_opt_usize(offset) + ", limit: "@ + debug_opt_usize(limit) + " }"@,
        ToolTypeView::EditFile { path, old_string, new_string } => "EditFile { path: "@ + debug_quoted(path)
            + ", old_string: "@ + debug_quoted(old_string) + ", new_string: "@ + debug_quoted(new_string) + " }"@,
        ToolTypeView::UseSkill { skill } => "UseSkill { skill: "@ + debug_opt_text(skill) + " }"@,
        ToolTypeView::SetReminder { delay_seconds, note, addressee } => "SetReminder { delay_seconds: "@
            + crate::text::signed_decimal(delay_seconds as int) + ", note: "@ + debug_quoted(note)
            + ", addressee: "@ + debug_quoted(addressee) + " }"@,
        ToolTypeView::MetaNoOpExtraTurn => "MetaNoOpExtraTurn"@,
        ToolTypeView::MetaMalformed { report } => "MetaMalformed { report: "@ + debug_quoted(report) + " }"@,
    }
}

/// How the derived `Debug` writes a tool call.
pub open spec fn debug_call(c: ToolCallView) -> Seq<char> {
    "ToolCall { id: "@ + debug_quoted(c.id) + ", tool_type: "@ + debug_tool_type(c.tool_type) + " }"@
}

/// How `Debug` (`{:?}`) writes a list of tool calls: between brackets,
/// separated by a comma and a space.
pub open spec fn calls_debug_text(calls: Seq<ToolCallView>) -> Seq<char> {
    "["@ + seq_join(calls.map_values(|c: ToolCallView| debug_call(c)), ", "@) + "]"@
}

fn push_quoted(r: &mut String, s: &str)
    ensures
        final(r)@ == old(r)@ + debug_quoted(s@),
{
    let q = quote_debug(s);
    push_str(r, q.as_str());
}

fn push_opt_usize(r: &mut String, o: Option<usize>)
    ensures
        final(r)@ == old(r)@ + debug_opt_usize(o),
{
    match o {
        Some(n) => {
            push_str(r, "Some(");
            push_str(r, crate::text::usize_to_string(n).as_str());
            push_str(r, ")");
        },
        None => push_str(r, "None"),
    }
}

/// Writes a field `name: "value"` followed by `tail`.
fn push_field(r: &mut String, name: &str, value: &str, tail: &str)
    ensures
        final(r)@ == old(r)@ + name@ + debug_quoted(value@) + tail@,
{
    push_str(r, name);
    push_quoted(r, value);
    push_str(r, tail);
}

/// The derived `Debug` of a tool (see [`debug_tool_type`]).
fn tool_type_debug(t: &ToolType) -> (r: String)
    ensures
        r@ == debug_tool_type(t.deep_view()),
{
    let mut r = String::new();
    match t {
        ToolType::WebSearch { query } => push_field(&mut r, "WebSearch { query: ", query.as_str(), " }"),
        ToolType::VisitUrl { url } => push_field(&mut r, "VisitUrl { url: ", url.as_str(), " }"),
        ToolType::RunBashCommand { command } => push_field(&mut r, "RunBashCommand { command: ", command.as_str(), " }"),
        ToolType::ResetBashContainer => push_str(&mut r, "ResetBashContainer"),
        ToolType::ViewImage { path } => push_field(&mut r, "ViewImage { path: ", path.as_str(), " }"),
        ToolType::ReadFile { path, offset, limit } => {
            push_field(&mut r, "ReadFile { path: ", path.as_str(), ", offset: ");
            push_opt_usize(&mut r, *offset);
            push_str(&mut r, ", limit: ");
            push_opt_usize(&mut r, *limit);
            push_str(&mut r, " }");
        },
        ToolType::EditFile { path, old_string, new_string } => {
            push_field(&mut r, "EditFile { path: ", path.as_str(), ", old_string: ");
            push_quoted(&mut r, old_string.as_str());
            push_field(&mut r, ", new_string: ", new_string.as_str(), " }");
        },
        ToolType::UseSkill { skill } => {
            push_str(&mut r, "UseSkill { skill: ");
            match skill {
                Some(k) => push_field(&mut r, "Some(", k.as_str(), ")"),
                None => push_str(&mut r, "None"),
            }
            push_str(&mut r, " }");
        },
        ToolType::SetReminder { delay_seconds, note, addressee } => {
            push_str(&mut r, "SetReminder { delay_seconds: ");
            push_str(&mut r, crate::text::i64_to_string(*delay_seconds).as_str());
            push_field(&mut r, ", note: ", note.as_str(), ", addressee: ");
            push_quoted(&mut r, addressee.as_str());
            push_str(&mut r, " }");
        },
        ToolType::MetaNoOpExtraTurn => push_str(&mut r, "MetaNoOpExtraTurn"),
        ToolType::MetaMalformed { report } => push_field(&mut r, "MetaMalformed { report: ", report.as_str(), " }"),
    }
    assert(r@ =~= debug_tool_type(t.deep_view()));
    r
}

/// The derived `Debug` of a tool call (see [`debug_call`]).
fn call_debug(c: &ToolCall) -> (r: String)
    ensures
        r@ == debug_call(c.deep_view()),
{
    let mut r = String::new();
    push_field(&mut r, "ToolCall { id: ", c.id.as_str(), ", tool_type: ");
    push_str(&mut r, tool_type_debug(&c.tool_type).as_str());
    push_str(&mut r, " }");
    assert(r@ =~= debug_call(c.deep_view()));
    r
}

/// The calls as `{:?}` writes them (see [`calls_debug_text`]).
pub fn debug_calls(calls: &Vec<ToolCall>) -> (r: String)
    ensures
        r@ == calls_debug_text(calls.deep_view()),
{
    let ghost cs = calls.deep_view();
    let mut parts: Vec<String> = Vec::new();
    let mut i: usize = 0;
    while i < calls.len()
        invariant
            i <= calls.len(),
            cs == calls.deep_view(),
            views(parts@) == cs.take(i as int).map_values(|c: ToolCallView| debug_call(c)),
        decreases calls.len() - i,
    {
        let ghost before = views(parts@);
        parts.push(call_debug(&calls[i]));
        assert(views(parts@) =~= before.push(debug_call(cs[i as int])));
        assert(cs.take(i + 1).map_values(|c: ToolCallView| debug_call(c))
            =~= cs.take(i as int).map_values(|c: ToolCallView| debug_call(c)).push(debug_call(cs[i as int])));
        i += 1;
    }
    assert(cs.take(calls.len() as int) =~= cs);
    let inner = join(&parts, ", ");
    concat3("[", inner.as_str(), "]")
}

/// An entry as the simplified record shows it.
pub open spec fn simplified_view(e: HistoryEntryView) -> Seq<char> {
    match e {
        HistoryEntryView::Input(LLMInputView::UserMessage(m)) => "User:\n"@ + m,
        HistoryEntryView::Input(LLMInputView::ToolResults(results, _)) =>
            "Assistant:\n"@ + seq_join(results.map_values(|t: (Seq<char>, (Seq<char>, Seq<char>))| t.1.1), "\n"@),
        HistoryEntryView::Output(r) => "Assistant:\n"@ + match r.output {
            LLMDecisionTypeView::MessageUser { response } => response,
            LLMDecisionTypeView::IntermediateToolCall { tool_calls } => calls_debug_text(tool_calls),
        },
    }
}

impl HistoryEntry {
    /// The entry as the simplified record shows it (see [`simplified_view`]).
    pub fn format_simplified(&self) -> (r: String)
        ensures
            r@ == simplified_view(self.deep_view()),
    {
        match self {
            HistoryEntry::Input(LLMInput::UserMessage(m)) => concat2("User:\n", m.as_str()),
            HistoryEntry::Input(LLMInput::ToolResults(results, _)) => {
                let mut parts: Vec<String> = Vec::new();
                let mut i: usize = 0;
                while i < results.len()
                    invariant
                        i <= results@.len(),
                        parts@.len() == i,
                        forall|j: int| 0 <= j < i ==> (#[trigger] parts@[j])@ == results@[j].data.simplified@,
                    decreases results@.len() - i,
                {
                    parts.push(results[i].data.simplified.clone());
                    i += 1;
                }
                assert(views(parts@) =~= results.deep_view().map_values(|t: (Seq<char>, (Seq<char>, Seq<char>))| t.1.1));
                concat2("Assistant:\n", join(&parts, "\n").as_str())
            },
            HistoryEntry::Output(r) => match &r.output {
                LLMDecisionType::MessageUser { response } => concat2("Assistant:\n", response.as_str()),
                LLMDecisionType::IntermediateToolCall { tool_calls } => concat2("Assistant:\n", debug_calls(tool_calls).as_str()),
            },
        }
    }
}

/// A user's machine never rests idle with messages pending: every move that
/// leaves it idle leaves nothing pending.
pub proof fn law_user_idle_never_holds_pending(
    announce: bool,
    user_key: Seq<char>,
    user: UserView,
    action: UserActionView,
    now: i64,
)
    ensures
        user_transition_view(announce, user_key, user, action, now) matches Ok((u, _))
            ==> (u.state is Idle ==> u.pending.len() == 0),
{
}

/// A user whose machine is busy always has a forced reset scheduled, so no
/// busy state lasts past [`BUSY_TIMEOUT_MS`] without a move.
pub proof fn law_busy_user_is_reset_in_time(u: UserView)
    requires
        !(u.state is Idle),
    ensures
        user_schedule_view(u) == Some((u.last_transition + BUSY_TIMEOUT_MS, UserActionView::ForceReset)),
{
}

/// A forced reset always succeeds and leaves the user idle, with nothing
/// pending and no conversation kept, whatever state it finds.
pub proof fn law_reset_always_rests(announce: bool, user_key: Seq<char>, u: UserView, now: i64)
    ensures
        user_transition_view(announce, user_key, u, UserActionView::ForceReset, now) matches Ok((v, e))
            && v.state == (UserStateView::Idle { recent_conversation: None })
            && v.pending.len() == 0
            && e.len() == 0,
{
}

} // verus!
