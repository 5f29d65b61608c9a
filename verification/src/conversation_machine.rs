//! The conversation state machine: how a conversation moves on each action,
//! which outside work each move asks for, and when it wakes up on its own.

use vstd::prelude::*;
use crate::conversation::{
    action_label, history_file_hash, id_string, interruption_note, kind_of, recent_view,
    response_message, rescue_timeout_ms, text_result, window, CompactionOutput, Conversation,
    ConversationAction, ConversationActionView, ConversationConstructor, ConversationId,
    ConversationMessage, ConversationMessageView, ConversationState, ConversationStateView,
    ConversationView, HistoryEntry, HistoryEntryKind, HistoryEntryKindView, HistoryEntryView,
    HistoryId, InterruptionReason, LLMInput, LLMInputView, LLMResponse, LLMResponseView, Platform,
    PostSend, PostSendView, RecentConversation, RecentConversationView, SystemMessage, ToolCall, ToolCallView,
    ToolResult, ToolResultData, ToolResultDataView, ToolResultView, ToolType, ToolTypeView,
    MAX_TOOL_ROUNDS,
};
use crate::media::{attachment_downscaled, downscale_all, AttachmentView, Attachment};
use crate::messaging::{outbound_empty, OutboundMessage, OutboundMessageView};
use crate::framework::{earliest_index, now_millis, Scheduled};
use crate::text::{concat2, id_le, id_str_le, join, owned, push_str, seq_join, views};
use crate::tools::announcement_of;

verus! {

/// How long the model may take to decide, in milliseconds.
pub const LLM_TIMEOUT_MS: i64 = 300_000;

/// How long sending a message may take, in milliseconds.
pub const SEND_TIMEOUT_MS: i64 = 60_000;

/// Entries (summaries aside) a recent history reaches before it is compacted.
pub const COMPACT_WATERMARK: usize = 24;

/// Entries a compaction leaves untouched at the end of the history.
pub const KEEP_RECENT: usize = 12;

/// What the conversation machine needs to know about its environment.
#[derive(Clone, Copy)]
pub struct ConversationEnv {
    /// Tell the user which tools are being used.
    pub announce_tool_use: bool,
    /// A utility model is loaded, so history can be compacted.
    pub utility_available: bool,
}

/// Outside work a transition asks for; each one reports back with an action.
pub enum ConversationEffect {
    /// Send `outbound` to the conversation's channel.
    SendMessage { conversation_id: ConversationId, outbound: OutboundMessage },
    /// Run a tool in the conversation's sandbox.
    ExecuteTool { conversation_key: String, tool_call: ToolCall, expected_file_hash: Option<String> },
    /// Ask the model for its next turn.
    RequestDecision {
        input: LLMInput,
        recent: Option<RecentConversation>,
        tool_rounds: usize,
        max_tool_rounds: usize,
        is_group: bool,
        bot_identity: String,
        platform: Platform,
    },
    /// Ask the memory manager to summarize `history`.
    Compact { conversation_id: ConversationId, history: Vec<HistoryEntry> },
}

/// Model of a [`ConversationEffect`].
pub enum ConversationEffectView {
    SendMessage { conversation_id: (Platform, Seq<char>), outbound: OutboundMessageView },
    ExecuteTool { conversation_key: Seq<char>, tool_call: ToolCallView, expected_file_hash: Option<Seq<char>> },
    RequestDecision {
        input: LLMInputView,
        recent: Option<RecentConversationView>,
        tool_rounds: usize,
        max_tool_rounds: usize,
        is_group: bool,
        bot_identity: Seq<char>,
        platform: Platform,
    },
    Compact { conversation_id: (Platform, Seq<char>), history: Seq<HistoryEntryView> },
}

impl DeepView for ConversationEffect {
    type V = ConversationEffectView;

    open spec fn deep_view(&self) -> ConversationEffectView {
        match self {
            ConversationEffect::SendMessage { conversation_id, outbound } => ConversationEffectView::SendMessage {
                conversation_id: conversation_id.deep_view(),
                outbound: outbound.deep_view(),
            },
            ConversationEffect::ExecuteTool { conversation_key, tool_call, expected_file_hash } =>
                ConversationEffectView::ExecuteTool {
                    conversation_key: conversation_key@,
                    tool_call: tool_call.deep_view(),
                    expected_file_hash: expected_file_hash.deep_view(),
                },
            ConversationEffect::RequestDecision {
                input, recent, tool_rounds, max_tool_rounds, is_group, bot_identity, platform,
            } => ConversationEffectView::RequestDecision {
                input: input.deep_view(),
                recent: recent.deep_view(),
                tool_rounds: *tool_rounds,
                max_tool_rounds: *max_tool_rounds,
                is_group: *is_group,
                bot_identity: bot_identity@,
                platform: *platform,
            },
            ConversationEffect::Compact { conversation_id, history } => ConversationEffectView::Compact {
                conversation_id: conversation_id.deep_view(),
                history: history.deep_view(),
            },
        }
    }
}

// ---------------------------------------------------------------------------
// Draining pending messages

/// The texts of `p`.
pub open spec fn texts(p: Seq<ConversationMessageView>) -> Seq<Seq<char>> {
    p.map_values(|m: ConversationMessageView| m.text)
}

/// The attachments of `p`, message after message.
pub open spec fn all_attachments(p: Seq<ConversationMessageView>) -> Seq<AttachmentView>
    decreases p.len(),
{
    if p.len() == 0 {
        Seq::empty()
    } else {
        all_attachments(p.drop_last()) + p.last().attachments
    }
}

/// Whether any message of `p` was queued.
pub open spec fn any_queued(p: Seq<ConversationMessageView>) -> bool {
    exists|i: int| 0 <= i < p.len() && #[trigger] p[i].queued
}

/// The single message that stands for the pending messages `p`: their texts
/// joined by newlines, queued when any was, from the sender of the last one,
/// carrying all their attachments.
pub open spec fn merged_message(p: Seq<ConversationMessageView>) -> ConversationMessageView {
    ConversationMessageView {
        text: seq_join(texts(p), "\n"@),
        queued: any_queued(p),
        user_id: p.last().user_id,
        name: p.last().name,
        attachments: all_attachments(p),
    }
}

/// What draining the pending messages `p` yields.
pub open spec fn take_pending_view(p: Seq<ConversationMessageView>) -> Option<ConversationMessageView> {
    if p.len() == 0 {
        None
    } else {
        Some(merged_message(p))
    }
}

/// Drains the pending messages into one message (see [`merged_message`]),
/// leaving `pending` empty; `None` when nothing was pending.
pub fn take_pending(pending: &mut Vec<ConversationMessage>) -> (r: Option<ConversationMessage>)
    ensures
        final(pending)@.len() == 0,
        r.deep_view() == take_pending_view(old(pending).deep_view()),
{
    if pending.len() == 0 {
        return None;
    }
    let mut drained: Vec<ConversationMessage> = Vec::new();
    std::mem::swap(&mut drained, pending);
    let ghost p = drained.deep_view();
    let mut text_parts: Vec<String> = Vec::new();
    let mut queued = false;
    let mut attachments: Vec<Attachment> = Vec::new();
    let mut i: usize = 0;
    while i < drained.len()
        invariant
            i <= drained.len(),
            p == drained.deep_view(),
            views(text_parts@) == texts(p.take(i as int)),
            queued == any_queued(p.take(i as int)),
            attachments.deep_view() == all_attachments(p.take(i as int)),
        decreases drained.len() - i,
    {
        let m = &drained[i];
        assert(p.take(i + 1).drop_last() =~= p.take(i as int));
        assert(p.take(i + 1).last() == m.deep_view());
        let ghost before_atts = attachments.deep_view();
        let ghost old_parts = text_parts@;
        text_parts.push(m.text.clone());
        assert(views(text_parts@) =~= views(old_parts).push(m.text@));
        assert(texts(p.take(i + 1)) =~= texts(p.take(i as int)).push(m.text@));
        if m.queued {
            assert(p.take(i + 1)[i as int].queued);
        }
        if !m.queued {
            assert forall|k: int| 0 <= k < i + 1 && #[trigger] p.take(i + 1)[k].queued implies p.take(i as int)[k].queued by {
                if k < i {
                    assert(p.take(i + 1)[k] == p.take(i as int)[k]);
                }
            }
        }
        queued = queued || m.queued;
        let mut j: usize = 0;
        while j < m.attachments.len()
            invariant
                j <= m.attachments.len(),
                attachments.deep_view() == before_atts + m.attachments.deep_view().take(j as int),
            decreases m.attachments.len() - j,
        {
            let ghost old_atts = attachments.deep_view();
            let a = m.attachments[j].clone();
            attachments.push(a);
            assert(attachments.deep_view() =~= old_atts.push(m.attachments@[j as int].deep_view()));
            assert(m.attachments.deep_view().take(j + 1) =~= m.attachments.deep_view().take(j as int).push(m.attachments@[j as int].deep_view()));
            assert(attachments.deep_view() =~= before_atts + m.attachments.deep_view().take(j + 1));
            j += 1;
        }
        assert(m.attachments.deep_view().take(m.attachments.len() as int) =~= m.attachments.deep_view());
        i += 1;
    }
    assert(p.take(drained.len() as int) =~= p);
    let last = drained.len() - 1;
    Some(ConversationMessage {
        text: join(&text_parts, "\n"),
        queued,
        user_id: drained[last].user_id.clone(),
        name: drained[last].name.clone(),
        attachments,
    })
}


// ---------------------------------------------------------------------------
// Compaction

/// Index of the first entry of `h` with id `id`, or -1 when there is none.
pub open spec fn boundary_index(h: Seq<HistoryEntryView>, id: HistoryId) -> int
    decreases h.len(),
{
    if h.len() == 0 {
        -1
    } else if h[0].id == id {
        0
    } else {
        let b = boundary_index(h.drop_first(), id);
        if b < 0 { -1 } else { b + 1 }
    }
}

proof fn lemma_boundary_index(h: Seq<HistoryEntryView>, id: HistoryId)
    ensures
        -1 <= boundary_index(h, id) < h.len(),
        boundary_index(h, id) >= 0 ==> h[boundary_index(h, id)].id == id,
        forall|k: int| 0 <= k < h.len() && (boundary_index(h, id) < 0 || k < boundary_index(h, id)) ==> #[trigger] h[k].id != id,
    decreases h.len(),
{
    if h.len() > 0 && h[0].id != id {
        lemma_boundary_index(h.drop_first(), id);
        assert forall|k: int| 0 <= k < h.len() && (boundary_index(h, id) < 0 || k < boundary_index(h, id)) implies #[trigger] h[k].id != id by {
            if k > 0 {
                assert(h[k] == h.drop_first()[k - 1]);
            }
        }
    }
}

/// The first entry with the boundary id is the boundary, and no entry before it has that id.
pub proof fn lemma_boundary_index_pub(h: Seq<HistoryEntryView>, id: HistoryId)
    ensures
        -1 <= boundary_index(h, id) < h.len(),
        boundary_index(h, id) >= 0 ==> h[boundary_index(h, id)].id == id,
{
    lemma_boundary_index(h, id);
}

/// `h` with every entry up to and including the one with id `output.1`
/// replaced by one summary entry (id `fresh`) holding `output.0`; unchanged
/// when no entry has that id (it was compacted away already).
pub open spec fn compact_history_view(h: Seq<HistoryEntryView>, output: (Seq<char>, HistoryId), fresh: HistoryId) -> Seq<HistoryEntryView> {
    let b = boundary_index(h, output.1);
    if b < 0 {
        h
    } else {
        seq![HistoryEntryView { id: fresh, kind: HistoryEntryKindView::Summary(output.0) }] + h.subrange(b + 1, h.len() as int)
    }
}

/// A recent conversation with its history compacted (and windowed again).
pub open spec fn compact_recent_view(rc: RecentConversationView, output: (Seq<char>, HistoryId), fresh: HistoryId) -> RecentConversationView {
    recent_view(rc.thoughts, compact_history_view(rc.history, output, fresh))
}

/// A state with whatever history it holds compacted.
pub open spec fn compact_state_view(state: ConversationStateView, output: (Seq<char>, HistoryId), fresh: HistoryId) -> ConversationStateView {
    match state {
        ConversationStateView::Idle { recent_conversation } => ConversationStateView::Idle {
            recent_conversation: compact_recent_view(recent_conversation, output, fresh),
        },
        ConversationStateView::SendingMessage { recent_conversation, post_send } => ConversationStateView::SendingMessage {
            recent_conversation: compact_recent_view(recent_conversation, output, fresh),
            post_send,
        },
        ConversationStateView::RunningTools { recent_conversation, tool_rounds, pending_tools, completed_tools } =>
            ConversationStateView::RunningTools {
                recent_conversation: compact_recent_view(recent_conversation, output, fresh),
                tool_rounds,
                pending_tools,
                completed_tools,
            },
        ConversationStateView::AwaitingLLMDecision { history, current_input, tool_rounds } =>
            ConversationStateView::AwaitingLLMDecision {
                history: compact_history_view(history, output, fresh),
                current_input,
                tool_rounds,
            },
    }
}

/// Replaces the history up to `output.through` by a summary entry with id `fresh`.
pub fn compact_history(history: Vec<HistoryEntry>, output: &CompactionOutput, fresh: HistoryId) -> (r: Vec<HistoryEntry>)
    ensures
        r.deep_view() == compact_history_view(history.deep_view(), output.deep_view(), fresh),
{
    let ghost h = history.deep_view();
    proof { lemma_boundary_index(h, output.through); }
    let mut i: usize = 0;
    while i < history.len() && history[i].id != output.through
        invariant
            i <= history.len(),
            h == history.deep_view(),
            forall|k: int| 0 <= k < i ==> #[trigger] h[k].id != output.through,
        decreases history.len() - i,
    {
        i += 1;
    }
    if i == history.len() {
        assert(boundary_index(h, output.through) < 0);
        return history;
    }
    assert(h[i as int].id == output.through);
    assert(boundary_index(h, output.through) == i) by {
        let b = boundary_index(h, output.through);
        if b < 0 {
            assert(h[i as int].id != output.through);
        } else if b > i {
            assert(h[i as int].id != output.through);
        } else if b < i {
            assert(h[b].id != output.through);
        }
    }
    let mut history = history;
    let tail = history.split_off(i + 1);
    let mut compacted: Vec<HistoryEntry> = Vec::new();
    compacted.push(HistoryEntry { id: fresh, kind: HistoryEntryKind::Summary(output.summary.clone()) });
    let mut tail = tail;
    let ghost t = tail.deep_view();
    compacted.append(&mut tail);
    assert(t =~= h.subrange(i + 1, h.len() as int));
    assert(compacted.deep_view() =~= compact_history_view(h, output.deep_view(), fresh));
    compacted
}

/// A recent conversation with its history compacted.
pub fn compact_recent(rc: RecentConversation, output: &CompactionOutput, fresh: HistoryId) -> (r: RecentConversation)
    ensures
        r.deep_view() == compact_recent_view(rc.deep_view(), output.deep_view(), fresh),
{
    let RecentConversation { thoughts, history } = rc;
    RecentConversation::new(thoughts, compact_history(history, output, fresh))
}

/// A state with whatever history it holds compacted.
pub fn compact_state(state: ConversationState, output: &CompactionOutput, fresh: HistoryId) -> (r: ConversationState)
    ensures
        r.deep_view() == compact_state_view(state.deep_view(), output.deep_view(), fresh),
{
    match state {
        ConversationState::Idle { recent_conversation } => ConversationState::Idle {
            recent_conversation: compact_recent(recent_conversation, output, fresh),
        },
        ConversationState::SendingMessage { recent_conversation, post_send } => ConversationState::SendingMessage {
            recent_conversation: compact_recent(recent_conversation, output, fresh),
            post_send,
        },
        ConversationState::RunningTools { recent_conversation, tool_rounds, pending_tools, completed_tools } =>
            ConversationState::RunningTools {
                recent_conversation: compact_recent(recent_conversation, output, fresh),
                tool_rounds,
                pending_tools,
                completed_tools,
            },
        ConversationState::AwaitingLLMDecision { history, current_input, tool_rounds } =>
            ConversationState::AwaitingLLMDecision {
                history: compact_history(history, output, fresh),
                current_input,
                tool_rounds,
            },
    }
}

/// Entries of `h` that are not summaries.
pub open spec fn compactable_count(h: Seq<HistoryEntryView>) -> nat
    decreases h.len(),
{
    if h.len() == 0 {
        0
    } else {
        compactable_count(h.drop_last()) + (if h.last().kind is Summary { 0nat } else { 1nat })
    }
}

proof fn lemma_compactable_count_le(h: Seq<HistoryEntryView>)
    ensures
        compactable_count(h) <= h.len(),
    decreases h.len(),
{
    if h.len() > 0 {
        lemma_compactable_count_le(h.drop_last());
    }
}

/// Once idle with nothing pending: when a utility model is there, no
/// compaction is in flight and the history holds at least
/// [`COMPACT_WATERMARK`] non-summary entries, ask for everything but the last
/// [`KEEP_RECENT`] entries to be summarized, and mark a compaction in flight.
pub open spec fn fire_compaction_view(
    env: ConversationEnv,
    id: (Platform, Seq<char>),
    conv: ConversationView,
    rc: RecentConversationView,
) -> (ConversationView, Seq<ConversationEffectView>) {
    let h = rc.history;
    if !env.utility_available || conv.compaction_in_flight || compactable_count(h) < COMPACT_WATERMARK {
        (conv, Seq::empty())
    } else if h.len() <= KEEP_RECENT {
        (conv, Seq::empty())
    } else {
        (
            ConversationView { compaction_in_flight: true, ..conv },
            seq![ConversationEffectView::Compact { conversation_id: id, history: h.take(h.len() - KEEP_RECENT) }],
        )
    }
}

/// Counts the entries of `history` that are not summaries.
fn count_compactable(history: &Vec<HistoryEntry>) -> (n: usize)
    ensures
        n == compactable_count(history.deep_view()),
{
    let ghost h = history.deep_view();
    let mut n: usize = 0;
    let mut i: usize = 0;
    while i < history.len()
        invariant
            i <= history.len(),
            h == history.deep_view(),
            n == compactable_count(h.take(i as int)),
            n <= i,
        decreases history.len() - i,
    {
        assert(h.take(i + 1).drop_last() =~= h.take(i as int));
        assert(h.take(i + 1).last() == history@[i as int].deep_view());
        if !matches!(history[i].kind, HistoryEntryKind::Summary(_)) {
            n += 1;
        }
        i += 1;
    }
    assert(h.take(history.len() as int) =~= h);
    n
}

/// See [`fire_compaction_view`].
pub fn maybe_fire_compaction(
    env: &ConversationEnv,
    id: &ConversationId,
    conversation: &mut Conversation,
    rc: &RecentConversation,
    effects: &mut Vec<ConversationEffect>,
)
    ensures
        ({
            let (c, e) = fire_compaction_view(*env, id.deep_view(), old(conversation).deep_view(), rc.deep_view());
            &&& final(conversation).deep_view() == c
            &&& final(effects).deep_view() == old(effects).deep_view() + e
        }),
{
    if !env.utility_available || conversation.compaction_in_flight {
        assert(effects.deep_view() =~= old(effects).deep_view() + Seq::<ConversationEffectView>::empty());
        return;
    }
    let history = rc.history();
    let compactable = count_compactable(&history);
    if compactable < COMPACT_WATERMARK {
        assert(effects.deep_view() =~= old(effects).deep_view() + Seq::<ConversationEffectView>::empty());
        return;
    }
    if history.len() <= KEEP_RECENT {
        assert(effects.deep_view() =~= old(effects).deep_view() + Seq::<ConversationEffectView>::empty());
        return;
    }
    let prefix_len = history.len() - KEEP_RECENT;
    let mut prefix = history;
    prefix.truncate(prefix_len);
    assert(prefix.deep_view() =~= rc.deep_view().history.take(prefix_len as int));
    effects.push(ConversationEffect::Compact { conversation_id: id.clone(), history: prefix });
    conversation.compaction_in_flight = true;
    assert(effects.deep_view() =~= old(effects).deep_view() + fire_compaction_view(*env, id.deep_view(), old(conversation).deep_view(), rc.deep_view()).1);
}


// ---------------------------------------------------------------------------
// After a message is sent

/// The file hash an edit is checked against: the latest one recorded for its path.
pub open spec fn expected_hash(history: Seq<HistoryEntryView>, c: ToolCallView) -> Option<Seq<char>> {
    match c.tool_type {
        ToolTypeView::EditFile { path, .. } => history_file_hash(history, path),
        _ => None,
    }
}

/// Index of the first call in `pending` with id `id`, or -1.
pub open spec fn id_position(pending: Seq<ToolCallView>, id: Seq<char>) -> int
    decreases pending.len(),
{
    if pending.len() == 0 {
        -1
    } else if pending[0].id == id {
        0
    } else {
        let k = id_position(pending.drop_first(), id);
        if k < 0 { -1 } else { k + 1 }
    }
}

pub proof fn lemma_id_position(p: Seq<ToolCallView>, id: Seq<char>)
    ensures
        -1 <= id_position(p, id) < p.len(),
        id_position(p, id) >= 0 ==> p[id_position(p, id)].id == id,
        forall|k: int| 0 <= k < p.len() && (id_position(p, id) < 0 || k < id_position(p, id)) ==> #[trigger] p[k].id != id,
    decreases p.len(),
{
    if p.len() > 0 && p[0].id != id {
        lemma_id_position(p.drop_first(), id);
        assert forall|k: int| 0 <= k < p.len() && (id_position(p, id) < 0 || k < id_position(p, id)) implies #[trigger] p[k].id != id by {
            if k > 0 {
                assert(p[k] == p.drop_first()[k - 1]);
            }
        }
    }
}

/// `pending` with `c` keyed by its id: it replaces a call with the same id,
/// or is added at the end.
pub open spec fn insert_call(pending: Seq<ToolCallView>, c: ToolCallView) -> Seq<ToolCallView> {
    let k = id_position(pending, c.id);
    if k < 0 {
        pending.push(c)
    } else {
        pending.update(k, c)
    }
}

/// The calls in flight once `calls` are dispatched.
pub open spec fn pending_after(calls: Seq<ToolCallView>) -> Seq<ToolCallView>
    decreases calls.len(),
{
    if calls.len() == 0 {
        Seq::empty()
    } else {
        insert_call(pending_after(calls.drop_last()), calls.last())
    }
}

/// One tool execution per call, in order.
pub open spec fn tool_effects(key: Seq<char>, history: Seq<HistoryEntryView>, calls: Seq<ToolCallView>) -> Seq<ConversationEffectView> {
    Seq::new(
        calls.len(),
        |i: int| ConversationEffectView::ExecuteTool {
            conversation_key: key,
            tool_call: calls[i],
            expected_file_hash: expected_hash(history, calls[i]),
        },
    )
}

/// A conversation in `state` that moved at `now`.
pub open spec fn moved(
    state: ConversationStateView,
    pending: Seq<ConversationMessageView>,
    is_group: bool,
    bot_identity: Seq<char>,
    compaction_in_flight: bool,
    now: i64,
) -> ConversationView {
    ConversationView { pending, pending_system: Seq::empty(), state, last_transition: now, is_group, bot_identity, compaction_in_flight }
}

/// `r` with `pending_system` as the system notes still waiting for the model.
pub open spec fn with_system(
    r: (ConversationView, Seq<ConversationEffectView>),
    pending_system: Seq<(Seq<char>, Seq<char>)>,
) -> (ConversationView, Seq<ConversationEffectView>) {
    (ConversationView { pending_system, ..r.0 }, r.1)
}

/// What follows a sent message: rest idle, dispatch the tool calls (one round
/// more), or hand the tool results to the model.
pub open spec fn apply_post_send_view(
    id: (Platform, Seq<char>),
    post_send: PostSendView,
    rc: RecentConversationView,
    pending: Seq<ConversationMessageView>,
    is_group: bool,
    bot_identity: Seq<char>,
    compaction_in_flight: bool,
    now: i64,
) -> (ConversationView, Seq<ConversationEffectView>) {
    match post_send {
        PostSendView::Nothing => (
            moved(ConversationStateView::Idle { recent_conversation: rc }, pending, is_group, bot_identity, compaction_in_flight, now),
            Seq::empty(),
        ),
        PostSendView::CallTools { tool_rounds, tool_calls } => (
            moved(
                ConversationStateView::RunningTools {
                    recent_conversation: rc,
                    tool_rounds: (tool_rounds + 1) as usize,
                    pending_tools: pending_after(tool_calls),
                    completed_tools: Seq::empty(),
                },
                pending, is_group, bot_identity, compaction_in_flight, now,
            ),
            tool_effects(id_string(id), rc.history, tool_calls),
        ),
        PostSendView::SendToolResponse { tool_rounds, results, followup } => {
            let input = LLMInputView::ToolResults(results, followup);
            (
                moved(
                    ConversationStateView::AwaitingLLMDecision { history: rc.history, current_input: input, tool_rounds },
                    pending, is_group, bot_identity, compaction_in_flight, now,
                ),
                seq![ConversationEffectView::RequestDecision {
                    input,
                    recent: Some(rc),
                    tool_rounds,
                    max_tool_rounds: MAX_TOOL_ROUNDS,
                    is_group,
                    bot_identity,
                    platform: id.0,
                }],
            )
        },
    }
}

/// Sends `outbound` and waits for it, or, when there is nothing to send, goes
/// straight on to what follows the send.
pub open spec fn send_then_view(
    id: (Platform, Seq<char>),
    outbound: OutboundMessageView,
    post_send: PostSendView,
    rc: RecentConversationView,
    pending: Seq<ConversationMessageView>,
    is_group: bool,
    bot_identity: Seq<char>,
    compaction_in_flight: bool,
    now: i64,
) -> (ConversationView, Seq<ConversationEffectView>) {
    if outbound_empty(outbound) {
        apply_post_send_view(id, post_send, rc, pending, is_group, bot_identity, compaction_in_flight, now)
    } else {
        (
            moved(
                ConversationStateView::SendingMessage { recent_conversation: rc, post_send },
                pending, is_group, bot_identity, compaction_in_flight, now,
            ),
            seq![ConversationEffectView::SendMessage { conversation_id: id, outbound }],
        )
    }
}

/// Adds `c` to `pending`, keyed by its id.
fn insert_pending(pending: &mut Vec<ToolCall>, c: ToolCall)
    ensures
        final(pending).deep_view() == insert_call(old(pending).deep_view(), c.deep_view()),
{
    let ghost p = pending.deep_view();
    proof { lemma_id_position(p, c.id@); }
    let mut i: usize = 0;
    while i < pending.len() && !(pending[i].id == c.id)
        invariant
            i <= pending.len(),
            p == pending.deep_view(),
            forall|k: int| 0 <= k < i ==> #[trigger] p[k].id != c.id@,
        decreases pending.len() - i,
    {
        i += 1;
    }
    if i == pending.len() {
        assert(id_position(p, c.id@) < 0);
        pending.push(c);
        assert(pending.deep_view() =~= p.push(c.deep_view()));
    } else {
        assert(id_position(p, c.id@) == i) by {
            let k = id_position(p, c.id@);
            if k < 0 || k > i {
                assert(p[i as int].id != c.id@);
            } else if k < i {
                assert(p[k].id != c.id@);
            }
        }
        pending.set(i, c);
        assert(pending.deep_view() =~= p.update(i as int, c.deep_view()));
    }
}

/// Whether an `apply_post_send` on `post_send` stays within `usize` when it counts a round.
pub open spec fn rounds_fit(post_send: PostSendView) -> bool {
    post_send matches PostSendView::CallTools { tool_rounds, .. } ==> tool_rounds < usize::MAX
}

/// See [`apply_post_send_view`].
pub fn apply_post_send(
    id: &ConversationId,
    post_send: PostSend,
    rc: RecentConversation,
    pending: Vec<ConversationMessage>,
    is_group: bool,
    bot_identity: String,
    compaction_in_flight: bool,
    now: i64,
    effects: &mut Vec<ConversationEffect>,
) -> (r: Conversation)
    requires
        rounds_fit(post_send.deep_view()),
    ensures
        ({
            let (c, e) = apply_post_send_view(
                id.deep_view(), post_send.deep_view(), rc.deep_view(), pending.deep_view(),
                is_group, bot_identity@, compaction_in_flight, now,
            );
            &&& r.deep_view() == c
            &&& final(effects).deep_view() == old(effects).deep_view() + e
        }),
{
    match post_send {
        PostSend::Nothing => {
            assert(effects.deep_view() =~= old(effects).deep_view() + Seq::<ConversationEffectView>::empty());
            let r = Conversation {
                state: ConversationState::Idle { recent_conversation: rc },
                last_transition: now,
                pending,
                pending_system: Vec::new(),
                is_group,
                bot_identity,
                compaction_in_flight,
            };
            assert(r.deep_view().pending_system =~= Seq::<(Seq<char>, Seq<char>)>::empty());
            r
        },
        PostSend::CallTools { tool_rounds, tool_calls } => {
            let history = rc.history();
            let key = id.get_id_string();
            let ghost calls = tool_calls.deep_view();
            let ghost e0 = effects.deep_view();
            let mut pending_tools: Vec<ToolCall> = Vec::new();
            let mut i: usize = 0;
            while i < tool_calls.len()
                invariant
                    i <= tool_calls.len(),
                    calls == tool_calls.deep_view(),
                    history.deep_view() == rc.deep_view().history,
                    key@ == id_string(id.deep_view()),
                    pending_tools.deep_view() == pending_after(calls.take(i as int)),
                    effects.deep_view() == e0 + tool_effects(key@, history.deep_view(), calls.take(i as int)),
                decreases tool_calls.len() - i,
            {
                let tool_call = &tool_calls[i];
                let expected_file_hash = match &tool_call.tool_type {
                    ToolType::EditFile { path, .. } => crate::conversation::latest_file_hash(&history, path.as_str()),
                    _ => None,
                };
                let ghost before = effects.deep_view();
                let ghost eh = expected_file_hash.deep_view();
                assert(eh == expected_hash(history.deep_view(), tool_call.deep_view()));
                let ghost new_effect = ConversationEffectView::ExecuteTool {
                    conversation_key: key@,
                    tool_call: tool_call.deep_view(),
                    expected_file_hash: eh,
                };
                effects.push(ConversationEffect::ExecuteTool {
                    conversation_key: key.clone(),
                    tool_call: tool_call.clone(),
                    expected_file_hash,
                });
                assert(calls.take(i + 1).drop_last() =~= calls.take(i as int));
                assert(calls.take(i + 1).last() == tool_call.deep_view());
                assert(effects.deep_view() =~= before.push(new_effect));
                assert(tool_effects(key@, history.deep_view(), calls.take(i + 1)) =~= tool_effects(key@, history.deep_view(), calls.take(i as int)).push(new_effect));
                insert_pending(&mut pending_tools, tool_call.clone());
                assert(effects.deep_view() =~= e0 + tool_effects(key@, history.deep_view(), calls.take(i + 1)));
                i += 1;
            }
            assert(calls.take(tool_calls.len() as int) =~= calls);
            let r = Conversation {
                state: ConversationState::RunningTools {
                    recent_conversation: rc,
                    tool_rounds: tool_rounds + 1,
                    pending_tools,
                    completed_tools: Vec::new(),
                },
                last_transition: now,
                pending,
                pending_system: Vec::new(),
                is_group,
                bot_identity,
                compaction_in_flight,
            };
            assert(r.deep_view().state->RunningTools_completed_tools =~= Seq::<(ToolCallView, ToolResultDataView)>::empty());
            assert(r.deep_view().pending_system =~= Seq::<(Seq<char>, Seq<char>)>::empty());
            r
        },
        PostSend::SendToolResponse { tool_rounds, results, followup } => {
            let current_input = LLMInput::ToolResults(results, followup);
            let history = rc.history();
            effects.push(ConversationEffect::RequestDecision {
                input: current_input.clone(),
                recent: Some(rc),
                tool_rounds,
                max_tool_rounds: MAX_TOOL_ROUNDS,
                is_group,
                bot_identity: bot_identity.clone(),
                platform: id.0,
            });
            let r = Conversation {
                state: ConversationState::AwaitingLLMDecision { history, current_input, tool_rounds },
                last_transition: now,
                pending,
                pending_system: Vec::new(),
                is_group,
                bot_identity,
                compaction_in_flight,
            };
            assert(r.deep_view().pending_system =~= Seq::<(Seq<char>, Seq<char>)>::empty());
            assert(effects.deep_view() =~= old(effects).deep_view() + apply_post_send_view(
                id.deep_view(), post_send.deep_view(), rc.deep_view(), pending.deep_view(),
                is_group, bot_identity@, compaction_in_flight, now).1);
            r
        },
    }
}

/// See [`send_then_view`].
pub fn send_then(
    id: &ConversationId,
    outbound: OutboundMessage,
    post_send: PostSend,
    rc: RecentConversation,
    pending: Vec<ConversationMessage>,
    is_group: bool,
    bot_identity: String,
    compaction_in_flight: bool,
    now: i64,
    effects: &mut Vec<ConversationEffect>,
) -> (r: Conversation)
    requires
        rounds_fit(post_send.deep_view()),
    ensures
        ({
            let (c, e) = send_then_view(
                id.deep_view(), outbound.deep_view(), post_send.deep_view(), rc.deep_view(),
                pending.deep_view(), is_group, bot_identity@, compaction_in_flight, now,
            );
            &&& r.deep_view() == c
            &&& final(effects).deep_view() == old(effects).deep_view() + e
        }),
{
    if outbound.is_empty() {
        return apply_post_send(id, post_send, rc, pending, is_group, bot_identity, compaction_in_flight, now, effects);
    }
    effects.push(ConversationEffect::SendMessage { conversation_id: id.clone(), outbound });
    let r = Conversation {
        state: ConversationState::SendingMessage { recent_conversation: rc, post_send },
        last_transition: now,
        pending,
        pending_system: Vec::new(),
        is_group,
        bot_identity,
        compaction_in_flight,
    };
    assert(r.deep_view().pending_system =~= Seq::<(Seq<char>, Seq<char>)>::empty());
    r
}


// ---------------------------------------------------------------------------
// Completed tools, in id order

/// A completed tool call with its result.
pub type Completed = (ToolCallView, ToolResultDataView);

/// `s` (sorted by id) with `x` inserted after every entry whose id is not greater.
pub open spec fn insert_sorted(s: Seq<Completed>, x: Completed) -> Seq<Completed>
    decreases s.len(),
{
    if s.len() == 0 {
        seq![x]
    } else if id_le(s.last().0.id, x.0.id) {
        s.push(x)
    } else {
        insert_sorted(s.drop_last(), x).push(s.last())
    }
}

/// `s` stably sorted by call id, in the order of [`id_le`].
pub open spec fn sort_by_id(s: Seq<Completed>) -> Seq<Completed>
    decreases s.len(),
{
    if s.len() == 0 {
        Seq::empty()
    } else {
        insert_sorted(sort_by_id(s.drop_last()), s.last())
    }
}

proof fn lemma_insert_sorted(s: Seq<Completed>, x: Completed, j: int)
    requires
        0 <= j <= s.len(),
        forall|k: int| j <= k < s.len() ==> !id_le(#[trigger] s[k].0.id, x.0.id),
        j > 0 ==> id_le(s[j - 1].0.id, x.0.id),
    ensures
        insert_sorted(s, x) == s.take(j).push(x) + s.skip(j),
    decreases s.len(),
{
    if s.len() == 0 {
        assert(s.take(j).push(x) + s.skip(j) =~= seq![x]);
    } else if j == s.len() {
        assert(s.take(j).push(x) + s.skip(j) =~= s.push(x));
    } else {
        assert(!id_le(s[s.len() - 1].0.id, x.0.id));
        lemma_insert_sorted(s.drop_last(), x, j);
        assert(s.drop_last().take(j).push(x) + s.drop_last().skip(j) + seq![s.last()] =~= s.take(j).push(x) + s.skip(j));
    }
}

/// Inserts `x` into `v` (sorted by id) after every entry whose id is not greater.
fn insert_by_id(v: &mut Vec<(ToolCall, ToolResultData)>, x: (ToolCall, ToolResultData))
    ensures
        final(v).deep_view() == insert_sorted(old(v).deep_view(), x.deep_view()),
{
    let ghost s = v.deep_view();
    let mut j = v.len();
    while j > 0 && !id_str_le(v[j - 1].0.id.as_str(), x.0.id.as_str())
        invariant
            j <= v.len(),
            s == v.deep_view(),
            forall|k: int| j <= k < s.len() ==> !id_le(#[trigger] s[k].0.id, x.0.id@),
        decreases j,
    {
        j -= 1;
    }
    proof { lemma_insert_sorted(s, x.deep_view(), j as int); }
    v.insert(j, x);
    assert(v.deep_view() =~= s.take(j as int).push(x.deep_view()) + s.skip(j as int));
}

/// The completed calls stably sorted by id, in the order of [`id_le`].
pub fn sort_completed(v: Vec<(ToolCall, ToolResultData)>) -> (r: Vec<(ToolCall, ToolResultData)>)
    ensures
        r.deep_view() == sort_by_id(v.deep_view()),
{
    let ghost s = v.deep_view();
    let mut r: Vec<(ToolCall, ToolResultData)> = Vec::new();
    let mut v = v;
    let mut n: usize = 0;
    assert(s.skip(0) =~= s);
    let total = v.len();
    while v.len() > 0
        invariant
            n + v.len() == s.len(),
            s.len() == total,
            v.deep_view() == s.skip(n as int),
            r.deep_view() == sort_by_id(s.take(n as int)),
        decreases v.len(),
    {
        let ghost vv = v@;
        let ghost vd = v.deep_view();
        assert(vd[0] == vv[0].deep_view());
        assert(s.skip(n as int)[0] == s[n as int]);
        assert(vv[0].deep_view() == s[n as int]);
        let x = v.remove(0);
        assert(x == vv[0]);
        assert(s.take(n + 1).drop_last() =~= s.take(n as int));
        insert_by_id(&mut r, x);
        n += 1;
        assert forall|k: int| 0 <= k < v@.len() implies #[trigger] v.deep_view()[k] == s.skip(n as int)[k] by {
            assert(v@[k] == vv[k + 1]);
            assert(vd[k + 1] == vv[k + 1].deep_view());
            assert(s.skip(n - 1)[k + 1] == s.skip(n as int)[k]);
        }
        assert(v.deep_view() =~= s.skip(n as int));
    }
    assert(s.take(n as int) =~= s);
    r
}


// ---------------------------------------------------------------------------
// The transition

/// The announcements of `calls`, in order (meta tools are not announced).
pub open spec fn announcements(calls: Seq<ToolCallView>) -> Seq<Seq<char>>
    decreases calls.len(),
{
    if calls.len() == 0 {
        Seq::empty()
    } else {
        let before = announcements(calls.drop_last());
        match announcement_of(kind_of(calls.last().tool_type)) {
            Some(a) => before.push(a),
            None => before,
        }
    }
}

/// The name of a state, as it is logged.
pub open spec fn state_label_view(s: ConversationStateView) -> Seq<char> {
    match s {
        ConversationStateView::Idle { .. } => "Idle"@,
        ConversationStateView::AwaitingLLMDecision { .. } => "AwaitingLLMDecision"@,
        ConversationStateView::SendingMessage { .. } => "SendingMessage"@,
        ConversationStateView::RunningTools { .. } => "RunningTools"@,
    }
}

/// The name of a state, as it is logged.
pub fn state_label(s: &ConversationState) -> (r: &'static str)
    ensures
        r@ == state_label_view(s.deep_view()),
{
    match s {
        ConversationState::Idle { .. } => "Idle",
        ConversationState::AwaitingLLMDecision { .. } => "AwaitingLLMDecision",
        ConversationState::SendingMessage { .. } => "SendingMessage",
        ConversationState::RunningTools { .. } => "RunningTools",
    }
}

/// The error an action that does not fit the state is refused with.
pub open spec fn no_transition(a: ConversationActionView, s: ConversationStateView) -> Seq<char> {
    "no transition for "@ + action_label(a) + " in state "@ + state_label_view(s)
}

/// A tool's outcome as the model sees it: its data, or the failure as text.
pub open spec fn folded(result: Result<ToolResultDataView, Seq<char>>) -> ToolResultDataView {
    match result {
        Ok(d) => d,
        Err(e) => text_result("Tool execution failed: "@ + e, "Tool execution failed: "@ + e),
    }
}

/// Completed calls as tool results.
pub open spec fn as_results(c: Seq<Completed>) -> Seq<ToolResultView> {
    c.map_values(|p: Completed| ToolResultView { call: p.0, data: p.1 })
}

/// Whether a transition out of `s` keeps its round counts within `usize`.
pub open spec fn rounds_ok(s: ConversationStateView) -> bool {
    match s {
        ConversationStateView::AwaitingLLMDecision { tool_rounds, .. } => tool_rounds < usize::MAX,
        ConversationStateView::SendingMessage { post_send, .. } => rounds_fit(post_send),
        _ => true,
    }
}

/// Whether a transition out of `s` keeps its round counts within `usize`
/// (see [`rounds_ok`]): the test to make before [`ConversationMachine::transition`].
pub fn rounds_within(s: &ConversationState) -> (r: bool)
    ensures
        r == rounds_ok(s.deep_view()),
{
    match s {
        ConversationState::AwaitingLLMDecision { tool_rounds, .. } => *tool_rounds < usize::MAX,
        ConversationState::SendingMessage { post_send: PostSend::CallTools { tool_rounds, .. }, .. } => *tool_rounds < usize::MAX,
        _ => true,
    }
}

/// A tool result arriving while tools run: the call moves from pending to
/// completed (an unknown id is ignored); once none is pending, the results,
/// sorted by call id, go to the model together with whatever the user sent
/// meanwhile.
pub open spec fn tool_result_view(
    id: (Platform, Seq<char>),
    conv: ConversationView,
    rc: RecentConversationView,
    tool_rounds: usize,
    pending_tools: Seq<ToolCallView>,
    completed: Seq<Completed>,
    tool_id: Seq<char>,
    result: Result<ToolResultDataView, Seq<char>>,
    now: i64,
) -> (ConversationView, Seq<ConversationEffectView>) {
    let k = id_position(pending_tools, tool_id);
    let still = if k < 0 { pending_tools } else { pending_tools.remove(k) };
    let done = if k < 0 { completed } else { completed.push((pending_tools[k], folded(result))) };
    if still.len() == 0 {
        apply_post_send_view(
            id,
            PostSendView::SendToolResponse {
                tool_rounds,
                results: as_results(sort_by_id(done)),
                followup: take_pending_view(conv.pending),
            },
            rc,
            Seq::empty(),
            conv.is_group,
            conv.bot_identity,
            conv.compaction_in_flight,
            now,
        )
    } else {
        (
            ConversationView {
                state: ConversationStateView::RunningTools {
                    recent_conversation: rc,
                    tool_rounds,
                    pending_tools: still,
                    completed_tools: done,
                },
                ..conv
            },
            Seq::empty(),
        )
    }
}

/// The move an action makes, before pending messages are looked at.
pub open spec fn branch_view(
    env: ConversationEnv,
    id: (Platform, Seq<char>),
    conv: ConversationView,
    action: ConversationActionView,
    now: i64,
    fresh: (HistoryId, HistoryId),
) -> Result<(ConversationView, Seq<ConversationEffectView>), Seq<char>> {
    match action {
        ConversationActionView::NewMessage { msg, user_id, name, attachments } => Ok((
            ConversationView {
                pending: conv.pending.push(ConversationMessageView {
                    text: msg,
                    queued: !(conv.state is Idle),
                    user_id,
                    name,
                    attachments: attachments.map_values(|a: AttachmentView| attachment_downscaled(a)),
                }),
                ..conv
            },
            Seq::empty(),
        )),
        ConversationActionView::LLMDecisionResult(res) => match conv.state {
            ConversationStateView::AwaitingLLMDecision { history, current_input, tool_rounds } => match res {
                Ok(response) => {
                    let h = history.push(HistoryEntryView { id: fresh.0, kind: HistoryEntryKindView::Input(current_input) }).push(
                        HistoryEntryView { id: fresh.1, kind: HistoryEntryKindView::Output(response) },
                    );
                    let rc = recent_view(response.thoughts, h);
                    let announce = if env.announce_tool_use { announcements(response.tool_calls) } else { Seq::empty() };
                    let post_send = if response.tool_calls.len() == 0 {
                        PostSendView::Nothing
                    } else {
                        PostSendView::CallTools { tool_rounds, tool_calls: response.tool_calls }
                    };
                    Ok(with_system(
                        send_then_view(
                            id,
                            OutboundMessageView { message: response_message(response), tool_names: announce },
                            post_send,
                            rc,
                            conv.pending,
                            conv.is_group,
                            conv.bot_identity,
                            conv.compaction_in_flight,
                            now,
                        ),
                        conv.pending_system,
                    ))
                },
                Err(reason) => Ok((
                    ConversationView {
                        state: ConversationStateView::Idle {
                            recent_conversation: recent_view(
                                Seq::empty(),
                                history.push(HistoryEntryView { id: fresh.0, kind: HistoryEntryKindView::OutputInterrupted(reason) }),
                            ),
                        },
                        last_transition: now,
                        ..conv
                    },
                    Seq::empty(),
                )),
            },
            _ => Err(no_transition(action, conv.state)),
        },
        ConversationActionView::MessageSent(_) => match conv.state {
            ConversationStateView::SendingMessage { recent_conversation, post_send } => Ok(with_system(
                apply_post_send_view(
                    id, post_send, recent_conversation, conv.pending, conv.is_group, conv.bot_identity,
                    conv.compaction_in_flight, now,
                ),
                conv.pending_system,
            )),
            _ => Err(no_transition(action, conv.state)),
        },
        ConversationActionView::ToolResult { id: tool_id, result } => match conv.state {
            ConversationStateView::RunningTools { recent_conversation, tool_rounds, pending_tools, completed_tools } =>
                Ok(with_system(
                    tool_result_view(id, conv, recent_conversation, tool_rounds, pending_tools, completed_tools, tool_id, result, now),
                    conv.pending_system,
                )),
            _ => Err(no_transition(action, conv.state)),
        },
        ConversationActionView::CompactionResult(res) => Ok((
            ConversationView {
                state: match res {
                    Ok(output) => compact_state_view(conv.state, output, fresh.0),
                    Err(_) => conv.state,
                },
                compaction_in_flight: false,
                ..conv
            },
            Seq::empty(),
        )),
        ConversationActionView::ReminderFired { note, addressee } => Ok((
            ConversationView { pending_system: conv.pending_system.push((note, addressee)), ..conv },
            Seq::empty(),
        )),
    }
}

/// After every move: an idle conversation never rests with messages or system
/// notes pending — the user's messages are drained into the model's next turn,
/// or, when none wait, the system notes are; with nothing pending it may fire
/// a compaction.
pub open spec fn post_view(
    env: ConversationEnv,
    id: (Platform, Seq<char>),
    conv: ConversationView,
    effects: Seq<ConversationEffectView>,
    now: i64,
) -> (ConversationView, Seq<ConversationEffectView>) {
    match conv.state {
        ConversationStateView::Idle { recent_conversation } => match take_pending_view(conv.pending) {
            None => if conv.pending_system.len() == 0 {
                let (c, e) = fire_compaction_view(env, id, conv, recent_conversation);
                (c, effects + e)
            } else {
                let input = LLMInputView::SystemMessage(conv.pending_system);
                (
                    ConversationView {
                        pending_system: Seq::empty(),
                        state: ConversationStateView::AwaitingLLMDecision {
                            history: recent_conversation.history,
                            current_input: input,
                            tool_rounds: 0,
                        },
                        last_transition: now,
                        ..conv
                    },
                    effects.push(ConversationEffectView::RequestDecision {
                        input,
                        recent: Some(recent_conversation),
                        tool_rounds: 0,
                        max_tool_rounds: MAX_TOOL_ROUNDS,
                        is_group: conv.is_group,
                        bot_identity: conv.bot_identity,
                        platform: id.0,
                    }),
                )
            },
            Some(msg) => {
                let input = LLMInputView::ConversationMessage(msg);
                (
                    ConversationView {
                        pending: Seq::empty(),
                        state: ConversationStateView::AwaitingLLMDecision {
                            history: recent_conversation.history,
                            current_input: input,
                            tool_rounds: 0,
                        },
                        last_transition: now,
                        ..conv
                    },
                    effects.push(ConversationEffectView::RequestDecision {
                        input,
                        recent: Some(recent_conversation),
                        tool_rounds: 0,
                        max_tool_rounds: MAX_TOOL_ROUNDS,
                        is_group: conv.is_group,
                        bot_identity: conv.bot_identity,
                        platform: id.0,
                    }),
                )
            },
        },
        _ => (conv, effects),
    }
}

/// The full transition: the move, then the drain of pending messages.
pub open spec fn transition_view(
    env: ConversationEnv,
    id: (Platform, Seq<char>),
    conv: ConversationView,
    action: ConversationActionView,
    now: i64,
    fresh: (HistoryId, HistoryId),
) -> Result<(ConversationView, Seq<ConversationEffectView>), Seq<char>> {
    match branch_view(env, id, conv, action, now, fresh) {
        Ok((c, e)) => Ok(post_view(env, id, c, e, now)),
        Err(msg) => Err(msg),
    }
}


/// The announcements of `calls`, in order.
fn collect_announcements(calls: &Vec<ToolCall>) -> (r: Vec<String>)
    ensures
        r.deep_view() == announcements(calls.deep_view()),
{
    let ghost c = calls.deep_view();
    let mut r: Vec<String> = Vec::new();
    let mut i: usize = 0;
    while i < calls.len()
        invariant
            i <= calls.len(),
            c == calls.deep_view(),
            r.deep_view() == announcements(c.take(i as int)),
        decreases calls.len() - i,
    {
        assert(c.take(i + 1).drop_last() =~= c.take(i as int));
        assert(c.take(i + 1).last() == calls@[i as int].deep_view());
        let ghost before = r.deep_view();
        match calls[i].tool_type.announcement() {
            Some(a) => {
                r.push(owned(a));
                assert(r.deep_view() =~= before.push(a@));
            },
            None => {},
        }
        i += 1;
    }
    assert(c.take(calls.len() as int) =~= c);
    r
}

/// Drains pending messages into the model's next turn once the conversation
/// is idle, or fires a compaction when nothing is pending (see [`post_view`]).
pub fn post_transition(
    env: &ConversationEnv,
    id: &ConversationId,
    conversation: Conversation,
    effects: &mut Vec<ConversationEffect>,
    now: i64,
) -> (r: Conversation)
    ensures
        ({
            let (c, e) = post_view(*env, id.deep_view(), conversation.deep_view(), old(effects).deep_view(), now);
            &&& r.deep_view() == c
            &&& final(effects).deep_view() == e
        }),
{
    let mut conversation = conversation;
    let recent_conversation = match &conversation.state {
        ConversationState::Idle { recent_conversation } => recent_conversation.clone(),
        _ => return conversation,
    };
    let ghost before = conversation.deep_view();
    let taken = take_pending(&mut conversation.pending);
    match taken {
        None => {
            assert(conversation.pending.deep_view() =~= before.pending);
            assert(conversation.deep_view() == before);
            if conversation.pending_system.len() == 0 {
                maybe_fire_compaction(env, id, &mut conversation, &recent_conversation, effects);
                return conversation;
            }
            let history = recent_conversation.history();
            let current_input = LLMInput::SystemMessage(conversation.pending_system);
            effects.push(ConversationEffect::RequestDecision {
                input: current_input.clone(),
                recent: Some(recent_conversation),
                tool_rounds: 0,
                max_tool_rounds: MAX_TOOL_ROUNDS,
                is_group: conversation.is_group,
                bot_identity: conversation.bot_identity.clone(),
                platform: id.0,
            });
            let r = Conversation {
                state: ConversationState::AwaitingLLMDecision { history, current_input, tool_rounds: 0 },
                last_transition: now,
                pending: conversation.pending,
                pending_system: Vec::new(),
                is_group: conversation.is_group,
                bot_identity: conversation.bot_identity,
                compaction_in_flight: conversation.compaction_in_flight,
            };
            assert(r.deep_view().pending_system =~= Seq::<(Seq<char>, Seq<char>)>::empty());
            r
        },
        Some(msg) => {
            let history = recent_conversation.history();
            let current_input = LLMInput::ConversationMessage(msg);
            effects.push(ConversationEffect::RequestDecision {
                input: current_input.clone(),
                recent: Some(recent_conversation),
                tool_rounds: 0,
                max_tool_rounds: MAX_TOOL_ROUNDS,
                is_group: conversation.is_group,
                bot_identity: conversation.bot_identity.clone(),
                platform: id.0,
            });
            let r = Conversation {
                state: ConversationState::AwaitingLLMDecision { history, current_input, tool_rounds: 0 },
                last_transition: now,
                pending: Vec::new(),
                pending_system: conversation.pending_system,
                is_group: conversation.is_group,
                bot_identity: conversation.bot_identity,
                compaction_in_flight: conversation.compaction_in_flight,
            };
            assert(r.deep_view().pending =~= Seq::<ConversationMessageView>::empty());
            r
        },
    }
}

/// A tool's outcome: its data, or the failure folded into text.
fn fold_result(result: &Result<ToolResultData, String>) -> (r: ToolResultData)
    ensures
        r.deep_view() == folded(match result {
            Ok(d) => Ok(d.deep_view()),
            Err(e) => Err(e@),
        }),
{
    match result {
        Ok(data) => data.clone(),
        Err(error_msg) => {
            let msg = concat2("Tool execution failed: ", error_msg.as_str());
            ToolResultData::text(msg.clone(), msg)
        },
    }
}

/// Removes the call with id `tool_id` from `pending`, if there is one.
fn remove_pending(pending: &mut Vec<ToolCall>, tool_id: &String) -> (r: Option<ToolCall>)
    ensures
        ({
            let k = id_position(old(pending).deep_view(), tool_id@);
            &&& k < 0 ==> r is None && final(pending).deep_view() == old(pending).deep_view()
            &&& k >= 0 ==> (r matches Some(c) && c.deep_view() == old(pending).deep_view()[k]
                && final(pending).deep_view() == old(pending).deep_view().remove(k))
        }),
{
    let ghost p = pending.deep_view();
    proof { lemma_id_position(p, tool_id@); }
    let mut i: usize = 0;
    while i < pending.len() && !(pending[i].id == *tool_id)
        invariant
            i <= pending.len(),
            p == pending.deep_view(),
            forall|k: int| 0 <= k < i ==> #[trigger] p[k].id != tool_id@,
        decreases pending.len() - i,
    {
        i += 1;
    }
    if i == pending.len() {
        assert(id_position(p, tool_id@) < 0);
        None
    } else {
        assert(id_position(p, tool_id@) == i) by {
            let k = id_position(p, tool_id@);
            if k < 0 || k > i {
                assert(p[i as int].id != tool_id@);
            } else if k < i {
                assert(p[k].id != tool_id@);
            }
        }
        let ghost pv = pending@;
        let c = pending.remove(i);
        assert(pending.deep_view() =~= p.remove(i as int));
        Some(c)
    }
}

/// Completed calls as tool results.
fn into_results(v: Vec<(ToolCall, ToolResultData)>) -> (r: Vec<ToolResult>)
    ensures
        r.deep_view() == as_results(v.deep_view()),
{
    let ghost s = v.deep_view();
    let mut r: Vec<ToolResult> = Vec::new();
    let mut v = v;
    let total = v.len();
    let mut n: usize = 0;
    assert(s.skip(0) =~= s);
    while v.len() > 0
        invariant
            n + v.len() == s.len(),
            s.len() == total,
            v.deep_view() == s.skip(n as int),
            r.deep_view() == as_results(s.take(n as int)),
        decreases v.len(),
    {
        let ghost vv = v@;
        let ghost vd = v.deep_view();
        assert(vd[0] == vv[0].deep_view());
        assert(s.skip(n as int)[0] == s[n as int]);
        let (call, data) = v.remove(0);
        r.push(ToolResult { call, data });
        assert(as_results(s.take(n + 1)) =~= as_results(s.take(n as int)).push(ToolResultView { call: s[n as int].0, data: s[n as int].1 }));
        assert(r.deep_view() =~= as_results(s.take(n + 1)));
        n += 1;
        assert forall|k: int| 0 <= k < v@.len() implies #[trigger] v.deep_view()[k] == s.skip(n as int)[k] by {
            assert(v@[k] == vv[k + 1]);
            assert(vd[k + 1] == vv[k + 1].deep_view());
            assert(s.skip(n - 1)[k + 1] == s.skip(n as int)[k]);
        }
        assert(v.deep_view() =~= s.skip(n as int));
    }
    assert(s.take(n as int) =~= s);
    r
}


/// The error message for an action that does not fit the state.
fn no_transition_message(action: &ConversationAction, state: &ConversationState) -> (r: String)
    ensures
        r@ == no_transition(action.deep_view(), state.deep_view()),
{
    let mut m = concat2("no transition for ", action.label());
    push_str(&mut m, " in state ");
    push_str(&mut m, state_label(state));
    m
}

/// The move an action makes, before pending messages are looked at (see [`branch_view`]).
fn branch(
    env: &ConversationEnv,
    id: &ConversationId,
    conversation: Conversation,
    action: &ConversationAction,
    now: i64,
    fresh: (HistoryId, HistoryId),
    effects: &mut Vec<ConversationEffect>,
) -> (r: Result<Conversation, String>)
    requires
        old(effects)@.len() == 0,
        rounds_ok(conversation.state.deep_view()),
    ensures
        match branch_view(*env, id.deep_view(), conversation.deep_view(), action.deep_view(), now, fresh) {
            Ok((c, e)) => r matches Ok(rc) && rc.deep_view() == c && final(effects).deep_view() == e,
            Err(m) => r matches Err(rm) && rm@ == m,
        },
{
    let ghost empty_effects = effects.deep_view();
    assert(empty_effects =~= Seq::<ConversationEffectView>::empty());
    let Conversation { pending, pending_system, state, last_transition, is_group, bot_identity, compaction_in_flight } = conversation;
    match action {
        ConversationAction::NewMessage { msg, user_id, name, attachments } => {
            let queued = !matches!(&state, ConversationState::Idle { .. });
            let mut pending = pending;
            let ghost p0 = pending.deep_view();
            let m = ConversationMessage {
                text: msg.clone(),
                queued,
                user_id: user_id.clone(),
                name: name.clone(),
                attachments: downscale_all(attachments),
            };
            let ghost mv = m.deep_view();
            pending.push(m);
            assert(pending.deep_view() =~= p0.push(mv));
            Ok(Conversation { pending, pending_system, state, last_transition, is_group, bot_identity, compaction_in_flight })
        },
        ConversationAction::LLMDecisionResult(res) => match state {
            ConversationState::AwaitingLLMDecision { history, current_input, tool_rounds } => match res {
                Ok(response) => {
                    let mut updated_history = history;
                    let ghost h0 = updated_history.deep_view();
                    let e1 = HistoryEntry { id: fresh.0, kind: HistoryEntryKind::Input(current_input) };
                    let e2 = HistoryEntry { id: fresh.1, kind: HistoryEntryKind::Output(response.clone()) };
                    let ghost (v1, v2) = (e1.deep_view(), e2.deep_view());
                    updated_history.push(e1);
                    updated_history.push(e2);
                    assert(updated_history.deep_view() =~= h0.push(v1).push(v2));
                    let updated = RecentConversation::new(response.thoughts.clone(), updated_history);
                    let announce_tools = if env.announce_tool_use {
                        collect_announcements(&response.tool_calls)
                    } else {
                        Vec::new()
                    };
                    assert(!env.announce_tool_use ==> announce_tools.deep_view() =~= Seq::<Seq<char>>::empty());
                    let post_send = if response.tool_calls.len() == 0 {
                        PostSend::Nothing
                    } else {
                        PostSend::CallTools { tool_rounds, tool_calls: crate::conversation::clone_calls(&response.tool_calls) }
                    };
                    let outbound = OutboundMessage { message: response.message(), tool_names: announce_tools };
                    let mut c = send_then(
                        id, outbound, post_send, updated, pending, is_group, bot_identity,
                        compaction_in_flight, now, effects,
                    );
                    c.pending_system = pending_system;
                    Ok(c)
                },
                Err(reason) => {
                    let mut h = history;
                    let ghost h0 = h.deep_view();
                    let e1 = HistoryEntry { id: fresh.0, kind: HistoryEntryKind::OutputInterrupted(*reason) };
                    let ghost v1 = e1.deep_view();
                    h.push(e1);
                    assert(h.deep_view() =~= h0.push(v1));
                    let rc = RecentConversation::new(String::new(), h);
                    Ok(Conversation {
                        pending,
                        pending_system,
                        state: ConversationState::Idle { recent_conversation: rc },
                        last_transition: now,
                        is_group,
                        bot_identity,
                        compaction_in_flight,
                    })
                },
            },
            _ => Err(no_transition_message(action, &state)),
        },
        ConversationAction::MessageSent(_) => match state {
            ConversationState::SendingMessage { recent_conversation, post_send } => {
                let mut c = apply_post_send(
                    id, post_send, recent_conversation, pending, is_group, bot_identity,
                    compaction_in_flight, now, effects,
                );
                c.pending_system = pending_system;
                Ok(c)
            },
            _ => Err(no_transition_message(action, &state)),
        },
        ConversationAction::ToolResult { id: tool_id, result } => match state {
            ConversationState::RunningTools { recent_conversation, tool_rounds, pending_tools, completed_tools } => {
                let mut pending_tools = pending_tools;
                let mut completed_tools = completed_tools;
                let ghost c0 = completed_tools.deep_view();
                match remove_pending(&mut pending_tools, tool_id) {
                    Some(tool_call) => {
                        let data = fold_result(result);
                        let ghost pv = (tool_call.deep_view(), data.deep_view());
                        completed_tools.push((tool_call, data));
                        assert(completed_tools.deep_view() =~= c0.push(pv));
                    },
                    None => {},
                }
                if pending_tools.len() == 0 {
                    let results = into_results(sort_completed(completed_tools));
                    let mut pending = pending;
                    let followup = take_pending(&mut pending);
                    assert(pending.deep_view() =~= Seq::<ConversationMessageView>::empty());
                    let mut c = apply_post_send(
                        id,
                        PostSend::SendToolResponse { tool_rounds, results, followup },
                        recent_conversation,
                        pending,
                        is_group,
                        bot_identity,
                        compaction_in_flight,
                        now,
                        effects,
                    );
                    c.pending_system = pending_system;
                    Ok(c)
                } else {
                    Ok(Conversation {
                        pending,
                        pending_system,
                        state: ConversationState::RunningTools {
                            recent_conversation,
                            tool_rounds,
                            pending_tools,
                            completed_tools,
                        },
                        last_transition,
                        is_group,
                        bot_identity,
                        compaction_in_flight,
                    })
                }
            },
            _ => Err(no_transition_message(action, &state)),
        },
        ConversationAction::CompactionResult(res) => {
            let state = match res {
                Ok(output) => compact_state(state, output, fresh.0),
                Err(_) => state,
            };
            Ok(Conversation { pending, pending_system, state, last_transition, is_group, bot_identity, compaction_in_flight: false })
        },
        ConversationAction::ReminderFired { note, addressee } => {
            let mut pending_system = pending_system;
            let ghost p0 = pending_system.deep_view();
            pending_system.push(SystemMessage { note: note.clone(), addressee: addressee.clone() });
            assert(pending_system.deep_view() =~= p0.push((note@, addressee@)));
            Ok(Conversation { pending, pending_system, state, last_transition, is_group, bot_identity, compaction_in_flight })
        },
    }
}

/// One step of the conversation machine at time `now`, with `fresh` as the ids
/// of the history entries it records: the next conversation and the outside
/// work it asks for, or why the action does not fit the state.
pub fn transition_at(
    env: &ConversationEnv,
    id: &ConversationId,
    conversation: Conversation,
    action: &ConversationAction,
    now: i64,
    fresh: (HistoryId, HistoryId),
) -> (r: Result<(Conversation, Vec<ConversationEffect>), String>)
    requires
        rounds_ok(conversation.state.deep_view()),
    ensures
        match transition_view(*env, id.deep_view(), conversation.deep_view(), action.deep_view(), now, fresh) {
            Ok((c, e)) => r matches Ok(p) && p.0.deep_view() == c && p.1.deep_view() == e,
            Err(m) => r matches Err(rm) && rm@ == m,
        },
{
    let mut effects: Vec<ConversationEffect> = Vec::new();
    match branch(env, id, conversation, action, now, fresh, &mut effects) {
        Ok(c) => {
            let next = post_transition(env, id, c, &mut effects, now);
            Ok((next, effects))
        },
        Err(m) => Err(m),
    }
}


// ---------------------------------------------------------------------------
// Construction and scheduled wakeups

/// A new conversation: idle, nothing pending, moved at `now`.
pub open spec fn construct_view(is_group: bool, bot_identity: Seq<char>, now: i64) -> ConversationView {
    ConversationView {
        pending: Seq::empty(),
        pending_system: Seq::empty(),
        state: ConversationStateView::Idle { recent_conversation: recent_view(Seq::empty(), Seq::empty()) },
        last_transition: now,
        is_group,
        bot_identity,
        compaction_in_flight: false,
    }
}

/// A new conversation built from its constructor at time `now`.
pub fn construct_conversation(constructor: ConversationConstructor, now: i64) -> (r: Conversation)
    ensures
        r.deep_view() == construct_view(constructor.is_group, constructor.bot_identity@, now),
{
    let r = Conversation {
        pending: Vec::new(),
        pending_system: Vec::new(),
        state: ConversationState::default(),
        last_transition: now,
        is_group: constructor.is_group,
        bot_identity: constructor.bot_identity,
        compaction_in_flight: false,
    };
    assert(r.deep_view().pending =~= Seq::<ConversationMessageView>::empty());
    assert(r.deep_view().pending_system =~= Seq::<(Seq<char>, Seq<char>)>::empty());
    r
}

/// When each pending tool call is rescued as timed out.
pub open spec fn tool_deadlines(last_transition: i64, pending: Seq<ToolCallView>) -> Seq<i64> {
    Seq::new(pending.len(), |i: int| (last_transition + rescue_timeout_ms(kind_of(pending[i].tool_type))) as i64)
}

/// The wakeup a conversation schedules: a timeout for whatever it waits on —
/// the model, the send, or the earliest-due pending tool; none when idle.
pub open spec fn schedule_view(c: ConversationView) -> Option<(i64, ConversationActionView)> {
    match c.state {
        ConversationStateView::Idle { .. } => None,
        ConversationStateView::AwaitingLLMDecision { .. } => Some((
            (c.last_transition + LLM_TIMEOUT_MS) as i64,
            ConversationActionView::LLMDecisionResult(Err(InterruptionReason::TimedOut)),
        )),
        ConversationStateView::SendingMessage { .. } => Some((
            (c.last_transition + SEND_TIMEOUT_MS) as i64,
            ConversationActionView::MessageSent(Err("timed out"@)),
        )),
        ConversationStateView::RunningTools { pending_tools, .. } => {
            let d = tool_deadlines(c.last_transition, pending_tools);
            if pending_tools.len() == 0 {
                None
            } else {
                let k = earliest_index(d);
                Some((d[k], ConversationActionView::ToolResult { id: pending_tools[k].id, result: Err("timed out"@) }))
            }
        },
    }
}

/// The wakeup the conversation schedules (see [`schedule_view`]).
pub fn conversation_schedule(c: &Conversation) -> (r: Option<Scheduled<ConversationAction>>)
    requires
        c.last_transition <= i64::MAX - LLM_TIMEOUT_MS,
    ensures
        match schedule_view(c.deep_view()) {
            Some((at, action)) => r matches Some(s) && s.at == at && s.action.deep_view() == action,
            None => r is None,
        },
{
    match &c.state {
        ConversationState::Idle { .. } => None,
        ConversationState::AwaitingLLMDecision { .. } => Some(Scheduled {
            at: c.last_transition + LLM_TIMEOUT_MS,
            action: ConversationAction::LLMDecisionResult(Err(InterruptionReason::TimedOut)),
        }),
        ConversationState::SendingMessage { .. } => Some(Scheduled {
            at: c.last_transition + SEND_TIMEOUT_MS,
            action: ConversationAction::MessageSent(Err(owned("timed out"))),
        }),
        ConversationState::RunningTools { pending_tools, .. } => {
            let ghost d = tool_deadlines(c.last_transition, pending_tools.deep_view());
            let mut candidates: Vec<Scheduled<usize>> = Vec::new();
            let mut i: usize = 0;
            while i < pending_tools.len()
                invariant
                    i <= pending_tools.len(),
                    c.last_transition <= i64::MAX - LLM_TIMEOUT_MS,
                    d == tool_deadlines(c.last_transition, pending_tools.deep_view()),
                    candidates@.len() == i,
                    forall|j: int| 0 <= j < i ==> #[trigger] candidates@[j].at == d[j] && candidates@[j].action == j,
                decreases pending_tools.len() - i,
            {
                candidates.push(Scheduled { at: c.last_transition + pending_tools[i].tool_type.rescue_timeout(), action: i });
                i += 1;
            }
            assert(crate::framework::times(candidates@) =~= d);
            let ghost cs = candidates@;
            proof { crate::framework::lemma_earliest_index(d); }
            match crate::framework::earliest(candidates) {
                Some(s) => {
                    let k = s.action;
                    assert(k == earliest_index(d));
                    Some(Scheduled {
                        at: s.at,
                        action: ConversationAction::ToolResult { id: pending_tools[k].id.clone(), result: Err(owned("timed out")) },
                    })
                },
                None => None,
            }
        },
    }
}

/// The conversation state machine.
pub struct ConversationMachine;

impl ConversationMachine {
    /// The machine's name, as it is registered.
    pub fn name() -> (r: &'static str)
        ensures
            r@ == "ConversationMachine"@,
    {
        "ConversationMachine"
    }

    /// A new conversation, moved now.
    pub fn construct(constructor: ConversationConstructor) -> (r: Conversation)
        ensures
            exists|now: i64| crate::framework::clock_reading(now) && r.deep_view() == construct_view(constructor.is_group, constructor.bot_identity@, now),
    {
        construct_conversation(constructor, now_millis())
    }

    /// One step of the machine, now, with fresh history ids (see [`transition_at`]);
    /// `state` itself is left as it was.
    pub fn transition(
        state: &Conversation,
        id: &ConversationId,
        env: &ConversationEnv,
        action: &ConversationAction,
    ) -> (r: Result<(Conversation, Vec<ConversationEffect>), String>)
        requires
            rounds_ok(state.state.deep_view()),
        ensures
            exists|now: i64, fresh: (HistoryId, HistoryId)| crate::framework::clock_reading(now) &&
                match #[trigger] transition_view(*env, id.deep_view(), state.deep_view(), action.deep_view(), now, fresh) {
                    Ok((c, e)) => r matches Ok(p) && p.0.deep_view() == c && p.1.deep_view() == e,
                    Err(m) => r matches Err(rm) && rm@ == m,
                },
    {
        let now = now_millis();
        let fresh = (HistoryId::new(), HistoryId::new());
        let r = transition_at(env, id, state.clone(), action, now, fresh);
        assert(match transition_view(*env, id.deep_view(), state.deep_view(), action.deep_view(), now, fresh) {
            Ok((c, e)) => r matches Ok(p) && p.0.deep_view() == c && p.1.deep_view() == e,
            Err(m) => r matches Err(rm) && rm@ == m,
        });
        r
    }

    /// The machine's scheduled wakeup for `state` (see [`schedule_view`]).
    pub fn schedule(state: &Conversation) -> (r: Option<Scheduled<ConversationAction>>)
        requires
            state.last_transition <= i64::MAX - LLM_TIMEOUT_MS,
        ensures
            match schedule_view(state.deep_view()) {
                Some((at, action)) => r matches Some(s) && s.at == at && s.action.deep_view() == action,
                None => r is None,
            },
    {
        conversation_schedule(state)
    }
}

} // verus!
