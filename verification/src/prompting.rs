//! Assembling what the primary model is shown for a turn (the replayed
//! history, the live input and the metadata footer) and reading its
//! generation back into an [`LLMResponse`].

use vstd::prelude::*;
use crate::binding::arguments_of;
use crate::chat_format::{bare_view, ChatMessage, ChatMessageView, ChatRole, MessageToolCall, MessageToolCallFunction, MessageToolCallView};
use crate::conversation::{
    attachment_bytes, byte_views, interruption_note, HistoryEntryKind, HistoryEntryKindView, HistoryEntryView,
    InterruptionReason, RecentConversation, RecentConversationView, ToolCall, ToolType, ConversationAction, content_parts, formatting_note_view, kind_of, system_content, LLMInput, LLMInputView,
    LLMResponse, LLMResponseView, Platform, ReplyView, Reply, ToolCallView, ToolResultDataView, ToolResultView, ToolTypeView,
};
use crate::media::MessageImageView;
use crate::text::{decimal, join, owned, push_decimal, push_str, seq_join, views};
use crate::tools::wire_name_of;

verus! {

/// The tool-budget line for the footer: none while under half the budget is
/// used, a nudge from half, a warning from four fifths, and a stop when it is
/// spent (no line at all when the budget is zero).
pub open spec fn budget_note_view(tool_rounds: nat, max_tool_rounds: nat) -> Option<Seq<char>> {
    if max_tool_rounds == 0 {
        None
    } else if tool_rounds >= max_tool_rounds {
        Some("[Tool budget exhausted — you've used all your tool-call turns and no more are available. Answer the user now using the information already gathered above, and clearly state anything you could not determine.]"@)
    } else if tool_rounds * 5 >= max_tool_rounds * 4 {
        Some("[Tool budget: "@ + decimal(tool_rounds) + "/"@ + decimal(max_tool_rounds)
            + " used — you're running low. Either wrap up and answer with what you have, or make your remaining calls count: use them only if they'll meaningfully improve your answer.]"@)
    } else if tool_rounds * 2 >= max_tool_rounds {
        Some("[Tool budget: "@ + decimal(tool_rounds) + "/"@ + decimal(max_tool_rounds)
            + " used — if your current approach isn't working, try a different angle rather than repeating similar calls. You still have room to keep investigating.]"@)
    } else {
        None
    }
}

/// The footer's tool-budget line (see [`budget_note_view`]).
pub fn budget_note(tool_rounds: usize, max_tool_rounds: usize) -> (r: Option<String>)
    ensures
        r.deep_view() == budget_note_view(tool_rounds as nat, max_tool_rounds as nat),
{
    let used = tool_rounds as u128;
    let max = max_tool_rounds as u128;
    if max_tool_rounds == 0 {
        None
    } else if tool_rounds >= max_tool_rounds {
        Some(owned("[Tool budget exhausted — you've used all your tool-call turns and no more are available. Answer the user now using the information already gathered above, and clearly state anything you could not determine.]"))
    } else if used * 5 >= max * 4 {
        let mut s = owned("[Tool budget: ");
        push_decimal(&mut s, tool_rounds as u64);
        push_str(&mut s, "/");
        push_decimal(&mut s, max_tool_rounds as u64);
        push_str(&mut s, " used — you're running low. Either wrap up and answer with what you have, or make your remaining calls count: use them only if they'll meaningfully improve your answer.]");
        Some(s)
    } else if used * 2 >= max {
        let mut s = owned("[Tool budget: ");
        push_decimal(&mut s, tool_rounds as u64);
        push_str(&mut s, "/");
        push_decimal(&mut s, max_tool_rounds as u64);
        push_str(&mut s, " used — if your current approach isn't working, try a different angle rather than repeating similar calls. You still have room to keep investigating.]");
        Some(s)
    } else {
        None
    }
}

/// The footer's line on who is in the conversation.
pub open spec fn setting_view(is_group: bool) -> Seq<char> {
    if is_group {
        "GROUP CHAT (multiple participants)"@
    } else {
        "DIRECT MESSAGE (one-to-one with the user), not a group chat- every message is meant for you, there is no one else."@
    }
}

/// The footer line on contradicted memory.
pub open spec fn memory_line() -> Seq<char> {
    "If a tool or the user contradicts your memory, your memory is likely wrong — verify with a tool when you can, then carry on with the corrected info; don't just agree or defend a wrong prior."@
}

/// The footer line on speaking before calling tools.
pub open spec fn preamble_line() -> Seq<char> {
    "If you already have something worth sharing — a partial answer, or what you're about to do — say it right after your thinking and before the tool call, instead of calling silently."@
}

/// The footer line on tool results being private.
pub open spec fn private_results_line() -> Seq<char> {
    "The user cannot see tool results — you must send the information as a message."@
}

/// The footer line on staying quiet in groups.
pub open spec fn group_line() -> Seq<char> {
    "Reminders: in a group you default to silence — chime in when your id is @mentioned, or occasionally on your own if you genuinely add something; otherwise your whole reply must be the literal token [EMPTY] (exactly those seven characters with square brackets, nothing else — never (empty), empty, or any variant). Match the @mention id, not the name. You are Terminal Alpha Beta."@
}

/// The lines of the metadata footer, at the time `now` (already written out).
pub open spec fn footer_lines(
    is_group: bool,
    bot_identity: Seq<char>,
    platform: Platform,
    tool_rounds: nat,
    max_tool_rounds: nat,
    now: Seq<char>,
) -> Seq<Seq<char>> {
    let head = seq![
        "=== SYSTEM GENERATED CONVERSATION METADATA FOOTER ==="@,
        "Your username in this conversation: "@ + bot_identity + ". Respond to both this name and Terminal Alpha Beta"@,
        "Setting: "@ + setting_view(is_group),
        "Current time: "@ + now,
        formatting_note_view(platform),
    ];
    let budget: Seq<Seq<char>> = match budget_note_view(tool_rounds, max_tool_rounds) {
        Some(n) => seq![n],
        None => Seq::empty(),
    };
    let tail = seq![memory_line(), preamble_line(), private_results_line()];
    let group: Seq<Seq<char>> = if is_group { seq![group_line()] } else { Seq::empty() };
    head + budget + tail + group
}

/// The metadata footer shown after the conversation, at the time `now`.
pub open spec fn footer_view(
    is_group: bool,
    bot_identity: Seq<char>,
    platform: Platform,
    tool_rounds: nat,
    max_tool_rounds: nat,
    now: Seq<char>,
) -> Seq<char> {
    seq_join(footer_lines(is_group, bot_identity, platform, tool_rounds, max_tool_rounds, now), "\n"@)
}

/// The metadata footer at the time written `now` (see [`footer_view`]).
pub fn session_footer_at(
    is_group: bool,
    bot_identity: &str,
    platform: &Platform,
    tool_rounds: usize,
    max_tool_rounds: usize,
    now: &str,
) -> (r: String)
    ensures
        r@ == footer_view(is_group, bot_identity@, *platform, tool_rounds as nat, max_tool_rounds as nat, now@),
{
    let setting = if is_group {
        "GROUP CHAT (multiple participants)"
    } else {
        "DIRECT MESSAGE (one-to-one with the user), not a group chat- every message is meant for you, there is no one else."
    };
    let mut lines: Vec<String> = Vec::new();
    lines.push(owned("=== SYSTEM GENERATED CONVERSATION METADATA FOOTER ==="));
    let mut who = owned("Your username in this conversation: ");
    push_str(&mut who, bot_identity);
    push_str(&mut who, ". Respond to both this name and Terminal Alpha Beta");
    lines.push(who);
    let mut set = owned("Setting: ");
    push_str(&mut set, setting);
    lines.push(set);
    let mut time = owned("Current time: ");
    push_str(&mut time, now);
    lines.push(time);
    lines.push(owned(platform.formatting_note()));
    let ghost head = views(lines@);
    assert(head =~= seq![
        "=== SYSTEM GENERATED CONVERSATION METADATA FOOTER ==="@,
        "Your username in this conversation: "@ + bot_identity@ + ". Respond to both this name and Terminal Alpha Beta"@,
        "Setting: "@ + setting_view(is_group),
        "Current time: "@ + now@,
        formatting_note_view(*platform),
    ]);
    let note = budget_note(tool_rounds, max_tool_rounds);
    if let Some(n) = note {
        lines.push(n);
    }
    let ghost with_budget = views(lines@);
    let ghost budget: Seq<Seq<char>> = match budget_note_view(tool_rounds as nat, max_tool_rounds as nat) {
        Some(n) => seq![n],
        None => Seq::empty(),
    };
    assert(with_budget =~= head + budget);
    lines.push(owned("If a tool or the user contradicts your memory, your memory is likely wrong — verify with a tool when you can, then carry on with the corrected info; don't just agree or defend a wrong prior."));
    lines.push(owned("If you already have something worth sharing — a partial answer, or what you're about to do — say it right after your thinking and before the tool call, instead of calling silently."));
    lines.push(owned("The user cannot see tool results — you must send the information as a message."));
    let ghost with_tail = views(lines@);
    assert(with_tail =~= head + budget + seq![memory_line(), preamble_line(), private_results_line()]);
    if is_group {
        lines.push(owned("Reminders: in a group you default to silence — chime in when your id is @mentioned, or occasionally on your own if you genuinely add something; otherwise your whole reply must be the literal token [EMPTY] (exactly those seven characters with square brackets, nothing else — never (empty), empty, or any variant). Match the @mention id, not the name. You are Terminal Alpha Beta."));
    }
    assert(views(lines@) =~= footer_lines(is_group, bot_identity@, *platform, tool_rounds as nat, max_tool_rounds as nat, now@));
    join(&lines, "\n")
}

/// The current UTC time written `%Y-%m-%d %H:%M:%S UTC` (chrono's
/// `Utc::now().format(..)`). Nothing is stated of the text: it is the clock's.
#[verifier::external_body]
fn utc_now_text() -> (r: String) {
    chrono::Utc::now().format("%Y-%m-%d %H:%M:%S UTC").to_string()
}

/// The metadata footer, at the current time.
pub fn session_footer(
    is_group: bool,
    bot_identity: &str,
    platform: &Platform,
    tool_rounds: usize,
    max_tool_rounds: usize,
) -> (r: String)
    ensures
        exists|now: Seq<char>| r@ == #[trigger] footer_view(is_group, bot_identity@, *platform, tool_rounds as nat, max_tool_rounds as nat, now),
{
    let now = utc_now_text();
    session_footer_at(is_group, bot_identity, platform, tool_rounds, max_tool_rounds, now.as_str())
}

// ---------------------------------------------------------------------------
// Inputs and outputs as chat messages

/// What stands for a tool-result image that no longer carries its bytes.
pub open spec fn earlier_image_line() -> Seq<char> {
    "[A tool-result image from earlier in the conversation — you saw it at the time, not re-attached here.]"@
}

/// The lines of one tool result's message: its full or simplified text (when
/// not empty), then the image marker, or a note when the image was dropped.
pub open spec fn result_parts(d: ToolResultDataView, full: bool, marker: Seq<char>) -> Seq<Seq<char>> {
    let text = if full { d.actual } else { d.simplified };
    let first: Seq<Seq<char>> = if text.len() > 0 { seq![text] } else { Seq::empty() };
    first + match d.image_for_assistant {
        Some(MessageImageView::Hydrated(_)) => seq![marker],
        Some(MessageImageView::Dehydrated { .. }) => seq![earlier_image_line()],
        None => Seq::<Seq<char>>::empty(),
    }
}

/// One tool result as a `tool` message.
pub open spec fn result_message(r: ToolResultView, full: bool, marker: Seq<char>) -> ChatMessageView {
    ChatMessageView {
        role: ChatRole::Tool,
        content: seq_join(result_parts(r.data, full, marker), "\n"@),
        tool_calls: Seq::empty(),
        tool_call_id: Some(r.call.id),
    }
}

/// The image bytes the tool results feed, in order.
pub open spec fn results_media(results: Seq<ToolResultView>) -> Seq<Seq<u8>>
    decreases results.len(),
{
    if results.len() == 0 {
        Seq::empty()
    } else {
        results_media(results.drop_last()) + match results.last().data.image_for_assistant {
            Some(MessageImageView::Hydrated(i)) => seq![i.bytes],
            _ => Seq::<Seq<u8>>::empty(),
        }
    }
}

/// An input as the messages the model is shown (tool results in full when
/// `full`, simplified otherwise), with one `marker` per fed image.
pub open spec fn input_messages(input: LLMInputView, marker: Seq<char>, full: bool) -> Seq<ChatMessageView> {
    match input {
        LLMInputView::ConversationMessage(m) => seq![bare_view(ChatRole::User, seq_join(content_parts(m, marker), "\n"@))],
        LLMInputView::SystemMessage(batch) => seq![bare_view(ChatRole::User, seq_join(batch.map_values(|b: (Seq<char>, Seq<char>)| system_content(b)), "\n"@))],
        LLMInputView::ToolResults(results, user) => results.map_values(|r: ToolResultView| result_message(r, full, marker))
            + match user {
                Some(m) => seq![bare_view(ChatRole::User, seq_join(content_parts(m, marker), "\n"@))],
                None => Seq::<ChatMessageView>::empty(),
            },
    }
}

/// The image bytes an input feeds, in the order of its markers.
pub open spec fn input_media(input: LLMInputView) -> Seq<Seq<u8>> {
    match input {
        LLMInputView::ConversationMessage(m) => attachment_bytes(m.attachments),
        LLMInputView::SystemMessage(_) => Seq::empty(),
        LLMInputView::ToolResults(results, user) => results_media(results) + match user {
            Some(m) => attachment_bytes(m.attachments),
            None => Seq::<Seq<u8>>::empty(),
        },
    }
}

/// What an assistant turn replays as content: the reply, `[EMPTY]` for a
/// deliberately empty reply without calls, nothing for one with calls, and a
/// marker for a malformed turn.
pub open spec fn replay_content(r: LLMResponseView) -> Seq<char> {
    match r.reply {
        ReplyView::Said(t) => t,
        ReplyView::Empty => if r.tool_calls.len() == 0 { "[EMPTY]"@ } else { Seq::empty() },
        ReplyView::Malformed => "[MALFORMED — assistant generated no usable output: no message and no tool call]"@,
    }
}

/// A call as the assistant message carries it.
pub open spec fn call_view(tc: ToolCallView) -> MessageToolCallView {
    MessageToolCallView {
        id: tc.id,
        kind: "function"@,
        name: wire_name_of(kind_of(tc.tool_type)),
        arguments: arguments_of(tc.tool_type),
    }
}

/// A model turn as the assistant message it replays as.
pub open spec fn response_message_view(r: LLMResponseView) -> ChatMessageView {
    if r.tool_calls.len() == 0 {
        bare_view(ChatRole::Assistant, replay_content(r))
    } else {
        ChatMessageView {
            role: ChatRole::Assistant,
            content: replay_content(r),
            tool_calls: r.tool_calls.map_values(|tc: ToolCallView| call_view(tc)),
            tool_call_id: None,
        }
    }
}

impl LLMResponse {
    /// The turn as the assistant message it replays as (see [`response_message_view`]).
    pub fn to_chat_message(&self) -> (r: ChatMessage)
        ensures
            r.deep_view() == response_message_view(self.deep_view()),
    {
        let content = match &self.reply {
            Reply::Said(text) => text.clone(),
            Reply::Empty => if self.tool_calls.len() == 0 { owned("[EMPTY]") } else { String::new() },
            Reply::Malformed => owned("[MALFORMED — assistant generated no usable output: no message and no tool call]"),
        };
        if self.tool_calls.len() == 0 {
            ChatMessage::assistant(content)
        } else {
            let mut calls: Vec<MessageToolCall> = Vec::new();
            let mut i: usize = 0;
            while i < self.tool_calls.len()
                invariant
                    i <= self.tool_calls@.len(),
                    calls@.len() == i,
                    forall|j: int| 0 <= j < i ==> (#[trigger] calls@[j]).deep_view() == call_view(self.tool_calls@[j].deep_view()),
                decreases self.tool_calls@.len() - i,
            {
                let tc = &self.tool_calls[i];
                calls.push(MessageToolCall {
                    id: tc.id.clone(),
                    kind: "function",
                    function: MessageToolCallFunction {
                        name: tc.tool_type.wire_name(),
                        arguments: tc.tool_type.arguments_map(),
                    },
                });
                i += 1;
            }
            assert(calls.deep_view() =~= self.deep_view().tool_calls.map_values(|tc: ToolCallView| call_view(tc)));
            ChatMessage::assistant_with_tools(content, calls)
        }
    }
}

impl LLMInput {
    /// The input as the messages the model is shown and the image bytes fed
    /// with them (see [`input_messages`], [`input_media`]).
    pub fn messages_and_media(&self, marker: &str, full: bool) -> (r: (Vec<ChatMessage>, Vec<Vec<u8>>))
        ensures
            r.0.deep_view() == input_messages(self.deep_view(), marker@, full),
            crate::conversation::byte_views(r.1@) == input_media(self.deep_view()),
    {
        match self {
            LLMInput::ConversationMessage(msg) => {
                let (content, bytes) = msg.content_and_media(marker);
                let msgs = vec![ChatMessage::user(content)];
                assert(msgs.deep_view() =~= input_messages(self.deep_view(), marker@, full));
                (msgs, bytes)
            },
            LLMInput::SystemMessage(batch) => {
                let mut lines: Vec<String> = Vec::new();
                let mut i: usize = 0;
                while i < batch.len()
                    invariant
                        i <= batch@.len(),
                        lines@.len() == i,
                        forall|j: int| 0 <= j < i ==> (#[trigger] lines@[j])@ == system_content(batch@[j].deep_view()),
                    decreases batch@.len() - i,
                {
                    lines.push(batch[i].to_content());
                    i += 1;
                }
                assert(views(lines@) =~= batch.deep_view().map_values(|b: (Seq<char>, Seq<char>)| system_content(b)));
                let msgs = vec![ChatMessage::user(join(&lines, "\n"))];
                assert(msgs.deep_view() =~= input_messages(self.deep_view(), marker@, full));
                let bytes: Vec<Vec<u8>> = Vec::new();
                assert(crate::conversation::byte_views(bytes@) =~= Seq::<Seq<u8>>::empty());
                (msgs, bytes)
            },
            LLMInput::ToolResults(results, user_msg) => {
                let mut messages: Vec<ChatMessage> = Vec::new();
                let mut bytes: Vec<Vec<u8>> = Vec::new();
                let ghost rs = results.deep_view();
                let mut i: usize = 0;
                assert(rs.take(0) =~= Seq::<ToolResultView>::empty());
                assert(crate::conversation::byte_views(bytes@) =~= Seq::<Seq<u8>>::empty());
                while i < results.len()
                    invariant
                        i <= results@.len(),
                        rs == results.deep_view(),
                        messages@.len() == i,
                        forall|j: int| 0 <= j < i ==> (#[trigger] messages@[j]).deep_view() == result_message(rs[j], full, marker@),
                        crate::conversation::byte_views(bytes@) == results_media(rs.take(i as int)),
                    decreases results@.len() - i,
                {
                    let r = &results[i];
                    let mut parts: Vec<String> = Vec::new();
                    let text = if full { &r.data.actual } else { &r.data.simplified };
                    if !text.as_str().is_empty() {
                        parts.push(text.clone());
                    }
                    let ghost before = views(parts@);
                    assert(rs.take(i + 1).drop_last() =~= rs.take(i as int));
                    assert(rs.take(i + 1).last() == rs[i as int]);
                    let ghost old_bytes = bytes@;
                    match &r.data.image_for_assistant {
                        Some(image) => match image.hydrated_bytes() {
                            Some(b) => {
                                parts.push(owned(marker));
                                bytes.push(b);
                                assert(crate::conversation::byte_views(bytes@) =~= crate::conversation::byte_views(old_bytes).push(b@));
                            },
                            None => {
                                parts.push(owned("[A tool-result image from earlier in the conversation — you saw it at the time, not re-attached here.]"));
                                assert(crate::conversation::byte_views(bytes@) =~= crate::conversation::byte_views(old_bytes) + Seq::<Seq<u8>>::empty());
                            },
                        },
                        None => {
                            assert(crate::conversation::byte_views(bytes@) =~= crate::conversation::byte_views(old_bytes) + Seq::<Seq<u8>>::empty());
                        },
                    }
                    assert(views(parts@) =~= result_parts(rs[i as int].data, full, marker@));
                    messages.push(ChatMessage::tool(r.call.id.clone(), join(&parts, "\n")));
                    i += 1;
                }
                assert(rs.take(results@.len() as int) =~= rs);
                let ghost tool_msgs = messages.deep_view();
                assert(tool_msgs =~= rs.map_values(|r: ToolResultView| result_message(r, full, marker@)));
                let ghost tool_bytes = crate::conversation::byte_views(bytes@);
                match user_msg {
                    Some(msg) => {
                        let (content, b) = msg.content_and_media(marker);
                        messages.push(ChatMessage::user(content));
                        let mut b = b;
                        bytes.append(&mut b);
                        assert(messages.deep_view() =~= input_messages(self.deep_view(), marker@, full));
                        assert(crate::conversation::byte_views(bytes@) =~= input_media(self.deep_view()));
                    },
                    None => {
                        assert(messages.deep_view() =~= input_messages(self.deep_view(), marker@, full));
                        assert(crate::conversation::byte_views(bytes@) =~= input_media(self.deep_view()));
                    },
                }
                (messages, bytes)
            },
        }
    }
}

// ---------------------------------------------------------------------------
// The conversation shown to the model

/// How a compacted summary is shown when history is replayed.
pub open spec fn summary_message(s: Seq<char>) -> ChatMessageView {
    bare_view(ChatRole::User, "Summary of earlier conversation:\n"@ + s)
}

/// One history entry replayed: inputs with simplified tool results, outputs as
/// assistant messages, an interrupted turn as the assistant saying why, and a
/// summary as a user message.
pub open spec fn entry_messages(k: HistoryEntryKindView, marker: Seq<char>) -> Seq<ChatMessageView> {
    match k {
        HistoryEntryKindView::Input(i) => input_messages(i, marker, false),
        HistoryEntryKindView::Output(r) => seq![response_message_view(r)],
        HistoryEntryKindView::OutputInterrupted(reason) => seq![bare_view(ChatRole::Assistant, interruption_note(reason))],
        HistoryEntryKindView::Summary(s) => seq![summary_message(s)],
    }
}

/// The image bytes one replayed entry feeds.
pub open spec fn entry_media(k: HistoryEntryKindView) -> Seq<Seq<u8>> {
    match k {
        HistoryEntryKindView::Input(i) => input_media(i),
        _ => Seq::empty(),
    }
}

/// A history replayed, entry by entry.
pub open spec fn history_messages(h: Seq<HistoryEntryView>, marker: Seq<char>) -> Seq<ChatMessageView>
    decreases h.len(),
{
    if h.len() == 0 { Seq::empty() } else { history_messages(h.drop_last(), marker) + entry_messages(h.last().kind, marker) }
}

/// The image bytes a replayed history feeds.
pub open spec fn history_media(h: Seq<HistoryEntryView>) -> Seq<Seq<u8>>
    decreases h.len(),
{
    if h.len() == 0 { Seq::empty() } else { history_media(h.drop_last()) + entry_media(h.last().kind) }
}

/// The messages and image bytes of a turn: the recent history replayed, then
/// the live input with tool results in full.
pub open spec fn conversation_view(new_input: LLMInputView, recent: Option<RecentConversationView>, marker: Seq<char>) -> (Seq<ChatMessageView>, Seq<Seq<u8>>) {
    let h = match recent {
        Some(rc) => rc.history,
        None => Seq::empty(),
    };
    (history_messages(h, marker) + input_messages(new_input, marker, true), history_media(h) + input_media(new_input))
}

/// The messages, footer and image bytes of a turn (see [`conversation_view`],
/// [`footer_view`]); `marker` stands where each image is fed.
pub fn build_conversation(
    new_input: &LLMInput,
    recent: Option<RecentConversation>,
    tool_rounds: usize,
    max_tool_rounds: usize,
    is_group: bool,
    bot_identity: &str,
    platform: &Platform,
    marker: &str,
) -> (r: (Vec<ChatMessage>, String, Vec<Vec<u8>>))
    ensures
        r.0.deep_view() == conversation_view(new_input.deep_view(), recent.deep_view(), marker@).0,
        byte_views(r.2@) == conversation_view(new_input.deep_view(), recent.deep_view(), marker@).1,
        exists|now: Seq<char>| r.1@ == #[trigger] footer_view(is_group, bot_identity@, *platform, tool_rounds as nat, max_tool_rounds as nat, now),
{
    let history = match recent {
        Some(rc) => rc.history,
        None => Vec::new(),
    };
    let ghost h = history.deep_view();
    let mut messages: Vec<ChatMessage> = Vec::new();
    let mut images: Vec<Vec<u8>> = Vec::new();
    let mut i: usize = 0;
    assert(h.take(0) =~= Seq::<HistoryEntryView>::empty());
    assert(byte_views(images@) =~= Seq::<Seq<u8>>::empty());
    while i < history.len()
        invariant
            i <= history@.len(),
            h == history.deep_view(),
            messages.deep_view() == history_messages(h.take(i as int), marker@),
            byte_views(images@) == history_media(h.take(i as int)),
        decreases history@.len() - i,
    {
        assert(h.take(i + 1).drop_last() =~= h.take(i as int));
        assert(h.take(i + 1).last() == history@[i as int].deep_view());
        let ghost before_m = messages.deep_view();
        let ghost before_b = byte_views(images@);
        match &history[i].kind {
            HistoryEntryKind::Input(input) => {
                let (mut msgs, mut bytes) = input.messages_and_media(marker, false);
                let ghost mv = msgs.deep_view();
                let ghost bv = byte_views(bytes@);
                messages.append(&mut msgs);
                images.append(&mut bytes);
                assert(messages.deep_view() =~= before_m + mv);
                assert(byte_views(images@) =~= before_b + bv);
            },
            HistoryEntryKind::Output(response) => {
                messages.push(response.to_chat_message());
                assert(messages.deep_view() =~= before_m + seq![response_message_view(response.deep_view())]);
                assert(byte_views(images@) =~= before_b + Seq::<Seq<u8>>::empty());
            },
            HistoryEntryKind::OutputInterrupted(reason) => {
                messages.push(ChatMessage::assistant(owned(reason.note())));
                assert(messages.deep_view() =~= before_m + seq![bare_view(ChatRole::Assistant, interruption_note(*reason))]);
                assert(byte_views(images@) =~= before_b + Seq::<Seq<u8>>::empty());
            },
            HistoryEntryKind::Summary(summary) => {
                let mut text = owned("Summary of earlier conversation:\n");
                push_str(&mut text, summary.as_str());
                messages.push(ChatMessage::user(text));
                assert(messages.deep_view() =~= before_m + seq![summary_message(summary@)]);
                assert(byte_views(images@) =~= before_b + Seq::<Seq<u8>>::empty());
            },
        }
        i += 1;
    }
    assert(h.take(history@.len() as int) =~= h);
    let ghost past_m = messages.deep_view();
    let ghost past_b = byte_views(images@);
    let (mut live_msgs, mut live_bytes) = new_input.messages_and_media(marker, true);
    let ghost lm = live_msgs.deep_view();
    let ghost lb = byte_views(live_bytes@);
    messages.append(&mut live_msgs);
    images.append(&mut live_bytes);
    assert(messages.deep_view() =~= past_m + lm);
    assert(byte_views(images@) =~= past_b + lb);
    let footer = session_footer(is_group, bot_identity, platform, tool_rounds, max_tool_rounds);
    (messages, footer, images)
}

// ---------------------------------------------------------------------------
// Reading the generation back

/// ASCII lowercase of a character; others are unchanged.
pub open spec fn ascii_lower(c: char) -> char {
    if 'A' <= c && c <= 'Z' { ((c as u32) + 32) as char } else { c }
}

/// Whether `content` is the token `[EMPTY]`, in any ASCII case.
pub open spec fn is_empty_token(content: Seq<char>) -> bool {
    content.len() == 7 && forall|i: int| 0 <= i < 7 ==> ascii_lower(#[trigger] content[i]) == ascii_lower("[EMPTY]"@[i])
}

/// The reply a turn makes: its content when there is some (and it is not the
/// `[EMPTY]` token), empty when the model said `[EMPTY]` or made calls, and
/// malformed when it produced nothing usable.
pub open spec fn reply_of(content: Seq<char>, has_calls: bool) -> ReplyView {
    if content.len() > 0 && !is_empty_token(content) {
        ReplyView::Said(content)
    } else if is_empty_token(content) || has_calls {
        ReplyView::Empty
    } else {
        ReplyView::Malformed
    }
}

/// The id the `i`-th call of a turn gets.
pub open spec fn call_id(i: nat) -> Seq<char> {
    "call_"@ + decimal(i)
}

/// What binding a written call gives (see [`crate::binding::bind_view`]).
pub open spec fn written_call(c: (Seq<char>, Seq<char>)) -> Result<ToolTypeView, Seq<char>> {
    crate::binding::bind_view(c.0, c.1, crate::json::json_document(crate::binding::parse_input(c.0, c.1)))
}

/// The bound calls of a turn, ids in order, or the first binding error.
pub open spec fn bound_calls(calls: Seq<(Seq<char>, Seq<char>)>) -> Result<Seq<ToolCallView>, Seq<char>>
    decreases calls.len(),
{
    if calls.len() == 0 {
        Ok(Seq::empty())
    } else {
        match bound_calls(calls.drop_last()) {
            Err(e) => Err(e),
            Ok(done) => match written_call(calls.last()) {
                Err(e) => Err(e),
                Ok(t) => Ok(done.push(ToolCallView { id: call_id((calls.len() - 1) as nat), tool_type: t })),
            },
        }
    }
}

/// A binding error among the first `k` calls is the error of them all.
pub proof fn lemma_bound_calls_err(s: Seq<(Seq<char>, Seq<char>)>, k: int)
    requires
        0 <= k <= s.len(),
        bound_calls(s.take(k)) is Err,
    ensures
        bound_calls(s) == bound_calls(s.take(k)),
    decreases s.len(),
{
    if s.len() > k {
        assert(s.drop_last().take(k) =~= s.take(k));
        lemma_bound_calls_err(s.drop_last(), k);
    } else {
        assert(s.take(k) =~= s);
    }
}

/// The turn a parsed generation makes, or the first binding error.
pub open spec fn response_view(parsed: (Seq<char>, Seq<char>, Seq<(Seq<char>, Seq<char>)>)) -> Result<LLMResponseView, Seq<char>> {
    match bound_calls(parsed.2) {
        Err(e) => Err(e),
        Ok(calls) => Ok(LLMResponseView { thoughts: parsed.0, reply: reply_of(parsed.1, calls.len() > 0), tool_calls: calls }),
    }
}

fn empty_token(content: &str) -> (r: bool)
    ensures
        r == is_empty_token(content@),
{
    proof {
        reveal_strlit("[EMPTY]");
    }
    let v = crate::text::chars_of(content);
    let p = crate::text::chars_of("[EMPTY]");
    if v.len() != 7 {
        return false;
    }
    let mut i: usize = 0;
    while i < 7
        invariant
            i <= 7,
            v@.len() == 7,
            p@.len() == 7,
            v@ == content@,
            p@ == "[EMPTY]"@,
            forall|j: int| 0 <= j < i ==> ascii_lower(#[trigger] v@[j]) == ascii_lower(p@[j]),
        decreases 7 - i,
    {
        let a = v[i];
        let b = p[i];
        let la = if 'A' <= a && a <= 'Z' { ((a as u32) + 32) as u8 as char } else { a };
        let lb = if 'A' <= b && b <= 'Z' { ((b as u32) + 32) as u8 as char } else { b };
        assert(la == ascii_lower(a) && lb == ascii_lower(b));
        if la != lb {
            assert(!is_empty_token(content@)) by {
                assert(v@ == content@ && p@ == "[EMPTY]"@);
                assert(ascii_lower(content@[i as int]) != ascii_lower("[EMPTY]"@[i as int]));
            }
            return false;
        }
        i += 1;
    }
    assert(v@ == content@ && p@ == "[EMPTY]"@);
    true
}

impl LLMResponse {
    /// The turn a parsed generation makes (see [`response_view`]): each
    /// written call is bound and numbered `call_0`, `call_1`, …; a call that
    /// does not bind fails the whole turn with its binding error.
    #[verifier::loop_isolation(false)]
    pub fn from_parsed(parsed: crate::roles::ParsedResponse) -> (r: Result<LLMResponse, String>)
        ensures
            match response_view(crate::roles::parsed_response_view(parsed)) {
                Ok(v) => r matches Ok(x) && x.deep_view() == v,
                Err(e) => r matches Err(m) && m@ == e,
            },
    {
        let ghost pv = crate::roles::parsed_response_view(parsed);
        let crate::roles::ParsedResponse { reasoning, content, tool_calls: written } = parsed;
        let mut calls: Vec<ToolCall> = Vec::new();
        let mut i: usize = 0;
        assert(pv.2.take(0) =~= Seq::<(Seq<char>, Seq<char>)>::empty());
        assert(calls.deep_view() =~= Seq::<ToolCallView>::empty());
        while i < written.len()
            invariant
                i <= written@.len(),
                pv.2 == written@.map_values(|c: crate::roles::ParsedToolCall| (c.name@, c.arguments@)),
                bound_calls(pv.2.take(i as int)) == Ok::<Seq<ToolCallView>, Seq<char>>(calls.deep_view()),
                calls@.len() == i,
            decreases written@.len() - i,
        {
            assert(pv.2.take(i + 1).drop_last() =~= pv.2.take(i as int));
            assert(pv.2.take(i + 1).last() == (written@[i as int].name@, written@[i as int].arguments@));
            let c = &written[i];
            match ToolType::bind(c.name.as_str(), c.arguments.as_str()) {
                Ok(t) => {
                    let mut id = owned("call_");
                    push_decimal(&mut id, i as u64);
                    let ghost before = calls.deep_view();
                    calls.push(ToolCall { id, tool_type: t });
                    assert(calls.deep_view() =~= before.push(ToolCallView { id: call_id(i as nat), tool_type: calls@[i as int].tool_type.deep_view() }));
                },
                Err(e) => {
                    proof {
                        assert(written_call(pv.2.take(i + 1).last()) == Err::<ToolTypeView, Seq<char>>(e@));
                        assert(bound_calls(pv.2.take(i + 1)) == Err::<Seq<ToolCallView>, Seq<char>>(e@));
                        lemma_bound_calls_err(pv.2, i + 1);
                    }
                    return Err(e);
                },
            }
            i += 1;
        }
        assert(pv.2.take(written@.len() as int) =~= pv.2);
        let explicit = empty_token(content.as_str());
        let has_calls = calls.len() > 0;
        let reply = if !content.as_str().is_empty() && !explicit {
            Reply::Said(content)
        } else if explicit || has_calls {
            Reply::Empty
        } else {
            Reply::Malformed
        };
        Ok(LLMResponse { thoughts: reasoning, reply, tool_calls: calls })
    }
}

/// The model's decision for a turn, given its generation (or the error that
/// stopped it): a turn whose calls do not bind is dropped as a malformed tool
/// call, a failed generation as a failure.
pub open spec fn decision_view(generated: Result<(Seq<char>, Seq<char>, Seq<(Seq<char>, Seq<char>)>), Seq<char>>) -> Result<LLMResponseView, InterruptionReason> {
    match generated {
        Ok(p) => match response_view(p) {
            Ok(r) => Ok(r),
            Err(_) => Err(InterruptionReason::MalformedToolCall),
        },
        Err(_) => Err(InterruptionReason::Failed),
    }
}

/// The decision action a generation leads to (see [`decision_view`]).
pub fn decision_of(generated: Result<crate::roles::ParsedResponse, String>) -> (r: ConversationAction)
    ensures
        r.deep_view() == crate::conversation::ConversationActionView::LLMDecisionResult(decision_view(match generated {
            Ok(p) => Ok(crate::roles::parsed_response_view(p)),
            Err(e) => Err(e@),
        })),
{
    match generated {
        Ok(p) => match LLMResponse::from_parsed(p) {
            Ok(r) => ConversationAction::LLMDecisionResult(Ok(r)),
            Err(_) => ConversationAction::LLMDecisionResult(Err(InterruptionReason::MalformedToolCall)),
        },
        Err(_) => ConversationAction::LLMDecisionResult(Err(InterruptionReason::Failed)),
    }
}

/// The tools offered for a turn: all of them while the budget lasts, none
/// after.
pub fn offered_tools(tool_rounds: usize, max_tool_rounds: usize) -> (r: Option<Vec<crate::chat_format::ToolDefinition>>)
    ensures
        r is Some <==> tool_rounds < max_tool_rounds,
        r matches Some(d) ==> d@.len() == crate::tools::advertised_kinds().len()
            && forall|i: int| 0 <= i < d@.len() ==> {
                let k = crate::tools::advertised_kinds()[i];
                &&& (#[trigger] d@[i]).function.name@ == crate::tools::wire_name_of(k)
                &&& Some(d@[i].function.description@) == crate::tools::tool_description(k)
                &&& d@[i].kind@ == "function"@
                &&& crate::tools::schema_view(d@[i].function.parameters) == crate::tools::tool_parameters(k)
            },
{
    if tool_rounds < max_tool_rounds { Some(ToolType::tool_definitions()) } else { None }
}

/// A model's reasoning is never replayed: the assistant message a turn
/// replays as is the same whatever the turn's reasoning was.
pub proof fn law_reasoning_is_not_replayed(r: LLMResponseView, other_thoughts: Seq<char>)
    ensures
        response_message_view(r) == response_message_view(LLMResponseView { thoughts: other_thoughts, ..r }),
{
}

/// Each tool call a replayed turn carries binds back to the call the model
/// made, from its name and the JSON object of its arguments (under the
/// conditions of [`crate::binding::law_bind_undoes_arguments`]).
pub proof fn law_replayed_calls_bind_back(r: LLMResponseView, i: int, text: Seq<char>)
    requires
        0 <= i < r.tool_calls.len(),
        r.tool_calls[i].tool_type matches ToolTypeView::UseSkill { skill: Some(s) }
            ==> crate::binding::normalize_skill(s) == Some(s) && crate::text::trim(text).len() > 0,
        r.tool_calls[i].tool_type matches ToolTypeView::MetaMalformed { report }
            ==> report == crate::binding::internal_tool_report(),
    ensures
        ({
            let call = response_message_view(r).tool_calls[i];
            crate::binding::bind_view(call.name, text, Ok(crate::binding::arguments_document(call.arguments)))
                == Ok::<ToolTypeView, Seq<char>>(r.tool_calls[i].tool_type)
        }),
{
    crate::binding::law_bind_undoes_arguments(r.tool_calls[i].tool_type, text);
}

} // verus!
