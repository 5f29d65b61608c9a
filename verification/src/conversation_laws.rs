//! Properties of the conversation machine that hold across all of its moves.

use vstd::prelude::*;
use crate::conversation::{
    recent_view, window, ConversationActionView, ConversationMessageView, ConversationStateView,
    ConversationView, HistoryEntryKindView, HistoryEntryView, HistoryId, LLMInputView, Platform,
    RecentConversationView, ToolCallView, RECENT_WINDOW,
};
use crate::conversation_machine::{
    any_queued, all_attachments, apply_post_send_view, as_results, boundary_index, branch_view,
    compact_history_view, fire_compaction_view, insert_sorted, merged_message, post_view,
    sort_by_id, take_pending_view, texts, transition_view, Completed, ConversationEffectView,
    ConversationEnv,
};
use crate::conversation::PostSendView;
use crate::conversation_machine::{construct_view, pending_after, schedule_view};
use crate::text::{id_le, seq_join, seq_le};

verus! {

/// Every history a conversation holds (recent or awaiting the model) keeps
/// at most [`RECENT_WINDOW`] entries.
pub open spec fn histories_bounded(c: ConversationView) -> bool {
    match c.state {
        ConversationStateView::Idle { recent_conversation } => recent_conversation.history.len() <= RECENT_WINDOW,
        ConversationStateView::AwaitingLLMDecision { history, .. } => history.len() <= RECENT_WINDOW,
        ConversationStateView::SendingMessage { recent_conversation, .. } => recent_conversation.history.len() <= RECENT_WINDOW,
        ConversationStateView::RunningTools { recent_conversation, .. } => recent_conversation.history.len() <= RECENT_WINDOW,
    }
}

proof fn lemma_window_len(h: Seq<HistoryEntryView>)
    ensures
        window(h).len() <= RECENT_WINDOW,
        window(h).len() <= h.len(),
{
}

proof fn lemma_compact_len(h: Seq<HistoryEntryView>, output: (Seq<char>, HistoryId), fresh: HistoryId)
    ensures
        compact_history_view(h, output, fresh).len() <= h.len(),
{
    crate::conversation_machine::lemma_boundary_index_pub(h, output.1);
}

/// An idle conversation never rests with messages or system notes pending:
/// whenever a move leaves the conversation idle, nothing is pending.
pub proof fn law_idle_never_holds_pending(
    env: ConversationEnv,
    id: (Platform, Seq<char>),
    conv: ConversationView,
    action: ConversationActionView,
    now: i64,
    fresh: (HistoryId, HistoryId),
)
    ensures
        match transition_view(env, id, conv, action, now, fresh) {
            Ok((c, _)) => c.state is Idle ==> c.pending.len() == 0 && c.pending_system.len() == 0,
            Err(_) => true,
        },
{
}

/// A fired reminder reaches an idle conversation with nothing pending at
/// once: the model is asked, with no tool round used, about exactly that
/// note as a system message.
pub proof fn law_idle_reminder_starts_turn(
    env: ConversationEnv,
    id: (Platform, Seq<char>),
    conv: ConversationView,
    note: Seq<char>,
    addressee: Seq<char>,
    now: i64,
    fresh: (HistoryId, HistoryId),
)
    requires
        conv.state is Idle,
        conv.pending.len() == 0,
        conv.pending_system.len() == 0,
    ensures
        ({
            let action = ConversationActionView::ReminderFired { note, addressee };
            let input = LLMInputView::SystemMessage(seq![(note, addressee)]);
            match transition_view(env, id, conv, action, now, fresh) {
                Ok((c, e)) => {
                    &&& c.pending.len() == 0
                    &&& c.pending_system.len() == 0
                    &&& c.last_transition == now
                    &&& match c.state {
                        ConversationStateView::AwaitingLLMDecision { current_input, tool_rounds, .. } =>
                            current_input == input && tool_rounds == 0,
                        _ => false,
                    }
                    &&& e.len() == 1
                    &&& match e[0] {
                        ConversationEffectView::RequestDecision { input: i, tool_rounds: r, .. } => i == input && r == 0,
                        _ => false,
                    }
                },
                Err(_) => false,
            }
        }),
{
    let action = ConversationActionView::ReminderFired { note, addressee };
    let (c, e) = branch_view(env, id, conv, action, now, fresh)->Ok_0;
    assert(c.pending_system =~= seq![(note, addressee)]);
    assert(take_pending_view(c.pending) is None);
}

/// A reminder firing while the conversation is busy is kept, after the notes
/// already waiting, and nothing else changes; it reaches the model once the
/// turn is over (see [`law_idle_never_holds_pending`] and
/// [`law_held_notes_delivered_when_idle`]).
pub proof fn law_busy_reminder_is_kept(
    env: ConversationEnv,
    id: (Platform, Seq<char>),
    conv: ConversationView,
    note: Seq<char>,
    addressee: Seq<char>,
    now: i64,
    fresh: (HistoryId, HistoryId),
)
    requires
        !(conv.state is Idle),
    ensures
        match transition_view(env, id, conv, ConversationActionView::ReminderFired { note, addressee }, now, fresh) {
            Ok((c, e)) => {
                &&& e.len() == 0
                &&& c.state == conv.state
                &&& c.pending == conv.pending
                &&& c.last_transition == conv.last_transition
                &&& c.pending_system == conv.pending_system.push((note, addressee))
            },
            Err(_) => false,
        },
{
}

/// When a move leaves a conversation idle with no message but with system
/// notes waiting, those notes, all of them and in order, become the model's
/// next input, with no tool round used.
pub proof fn law_held_notes_delivered_when_idle(
    env: ConversationEnv,
    id: (Platform, Seq<char>),
    conv: ConversationView,
    action: ConversationActionView,
    now: i64,
    fresh: (HistoryId, HistoryId),
)
    ensures
        match branch_view(env, id, conv, action, now, fresh) {
            Ok((b, _)) => b.state is Idle && b.pending.len() == 0 && b.pending_system.len() > 0 ==> {
                let (c, e) = transition_view(env, id, conv, action, now, fresh)->Ok_0;
                &&& c.state matches ConversationStateView::AwaitingLLMDecision { current_input, tool_rounds, .. }
                    && current_input == LLMInputView::SystemMessage(b.pending_system) && tool_rounds == 0
                &&& c.pending_system.len() == 0
                &&& e.last() matches ConversationEffectView::RequestDecision { input, .. }
                    && input == LLMInputView::SystemMessage(b.pending_system)
            },
            Err(_) => true,
        },
{
}

/// Every move keeps every history within the recent window.
pub proof fn law_histories_stay_bounded(
    env: ConversationEnv,
    id: (Platform, Seq<char>),
    conv: ConversationView,
    action: ConversationActionView,
    now: i64,
    fresh: (HistoryId, HistoryId),
)
    requires
        histories_bounded(conv),
    ensures
        match transition_view(env, id, conv, action, now, fresh) {
            Ok((c, _)) => histories_bounded(c),
            Err(_) => true,
        },
{
    match action {
        ConversationActionView::CompactionResult(Ok(output)) => {
            match conv.state {
                ConversationStateView::Idle { recent_conversation } => {
                    lemma_window_len(crate::conversation_machine::compact_history_view(recent_conversation.history, output, fresh.0));
                },
                ConversationStateView::SendingMessage { recent_conversation, .. } => {
                    lemma_window_len(crate::conversation_machine::compact_history_view(recent_conversation.history, output, fresh.0));
                },
                ConversationStateView::RunningTools { recent_conversation, .. } => {
                    lemma_window_len(crate::conversation_machine::compact_history_view(recent_conversation.history, output, fresh.0));
                },
                ConversationStateView::AwaitingLLMDecision { history, .. } => {
                    lemma_compact_len(history, output, fresh.0);
                },
            }
        },
        ConversationActionView::LLMDecisionResult(res) => {
            if let ConversationStateView::AwaitingLLMDecision { history, current_input, tool_rounds } = conv.state {
                match res {
                    Ok(response) => {
                        let h = history.push(HistoryEntryView { id: fresh.0, kind: HistoryEntryKindView::Input(current_input) }).push(
                            HistoryEntryView { id: fresh.1, kind: HistoryEntryKindView::Output(response) },
                        );
                        lemma_window_len(h);
                    },
                    Err(reason) => {
                        lemma_window_len(history.push(HistoryEntryView { id: fresh.0, kind: HistoryEntryKindView::OutputInterrupted(reason) }));
                    },
                }
            }
        },
        _ => {},
    }
}

/// A message arriving while the conversation is busy is queued, marked as a
/// follow-up, and nothing else changes.
pub proof fn law_busy_message_is_queued(
    env: ConversationEnv,
    id: (Platform, Seq<char>),
    conv: ConversationView,
    msg: Seq<char>,
    user_id: Seq<char>,
    name: Seq<char>,
    now: i64,
    fresh: (HistoryId, HistoryId),
)
    requires
        !(conv.state is Idle),
    ensures
        ({
            let action = ConversationActionView::NewMessage { msg, user_id, name, attachments: Seq::empty() };
            match transition_view(env, id, conv, action, now, fresh) {
                Ok((c, e)) => {
                    &&& e.len() == 0
                    &&& c.state == conv.state
                    &&& c.last_transition == conv.last_transition
                    &&& c.pending.len() == conv.pending.len() + 1
                    &&& c.pending.last().text == msg
                    &&& c.pending.last().queued
                    &&& c.pending.drop_last() == conv.pending
                },
                Err(_) => false,
            }
        }),
{
    let action = ConversationActionView::NewMessage { msg, user_id, name, attachments: Seq::empty() };
    let (c, e) = branch_view(env, id, conv, action, now, fresh)->Ok_0;
    assert(c.pending.drop_last() =~= conv.pending);
}

/// A message arriving while the conversation is idle with nothing pending
/// starts a model turn at once: the model is asked, with no tool round used,
/// for exactly that message (not marked as a follow-up).
pub proof fn law_idle_message_starts_turn(
    env: ConversationEnv,
    id: (Platform, Seq<char>),
    conv: ConversationView,
    msg: Seq<char>,
    user_id: Seq<char>,
    name: Seq<char>,
    now: i64,
    fresh: (HistoryId, HistoryId),
)
    requires
        conv.state is Idle,
        conv.pending.len() == 0,
    ensures
        ({
            let action = ConversationActionView::NewMessage { msg, user_id, name, attachments: Seq::empty() };
            let m = ConversationMessageView { text: msg, queued: false, user_id, name, attachments: Seq::empty() };
            match transition_view(env, id, conv, action, now, fresh) {
                Ok((c, e)) => {
                    &&& c.pending.len() == 0
                    &&& c.last_transition == now
                    &&& match c.state {
                        ConversationStateView::AwaitingLLMDecision { current_input, tool_rounds, .. } =>
                            current_input == LLMInputView::ConversationMessage(m) && tool_rounds == 0,
                        _ => false,
                    }
                    &&& e.len() == 1
                    &&& match e[0] {
                        ConversationEffectView::RequestDecision { input, tool_rounds: r, .. } =>
                            input == LLMInputView::ConversationMessage(m) && r == 0,
                        _ => false,
                    }
                },
                Err(_) => false,
            }
        }),
{
    let action = ConversationActionView::NewMessage { msg, user_id, name, attachments: Seq::empty() };
    let m = ConversationMessageView { text: msg, queued: false, user_id, name, attachments: Seq::empty() };
    let (c, e) = branch_view(env, id, conv, action, now, fresh)->Ok_0;
    let p = c.pending;
    assert(Seq::<crate::media::AttachmentView>::empty().map_values(|a: crate::media::AttachmentView| crate::media::attachment_downscaled(a)) =~= Seq::empty());
    assert(p =~= seq![m]);
    assert(texts(p) =~= seq![msg]);
    assert(seq_join(texts(p), "\n"@) == msg);
    assert(!any_queued(p));
    assert(p.drop_last() =~= Seq::<ConversationMessageView>::empty());
    assert(all_attachments(p.drop_last()) =~= Seq::empty());
    assert(p.last().attachments =~= Seq::empty());
    assert(all_attachments(p) =~= Seq::empty());
    assert(merged_message(p) == m);
}

/// Compaction replaces exactly the entries up to and including its boundary
/// by one summary and keeps every later entry, in order; when the boundary is
/// gone already, the history is left as it was.
pub proof fn law_compaction_keeps_later_entries(h: Seq<HistoryEntryView>, output: (Seq<char>, HistoryId), fresh: HistoryId)
    ensures
        ({
            let b = boundary_index(h, output.1);
            let r = compact_history_view(h, output, fresh);
            &&& b < 0 ==> r == h
            &&& b >= 0 ==> r.len() == h.len() - b
                && r[0] == (HistoryEntryView { id: fresh, kind: HistoryEntryKindView::Summary(output.0) })
                && r.drop_first() == h.subrange(b + 1, h.len() as int)
                && h[b].id == output.1
        }),
{
    crate::conversation_machine::lemma_boundary_index_pub(h, output.1);
    let b = boundary_index(h, output.1);
    if b >= 0 {
        let r = compact_history_view(h, output, fresh);
        assert(r.drop_first() =~= h.subrange(b + 1, h.len() as int));
    }
}

/// Dispatching tool calls runs each call exactly once, in order, and counts
/// one more tool round.
pub proof fn law_every_call_dispatched_once(
    id: (Platform, Seq<char>),
    tool_rounds: usize,
    calls: Seq<ToolCallView>,
    rc: RecentConversationView,
    pending: Seq<ConversationMessageView>,
    is_group: bool,
    bot_identity: Seq<char>,
    compaction_in_flight: bool,
    now: i64,
)
    requires
        tool_rounds < usize::MAX,
    ensures
        ({
            let (c, e) = apply_post_send_view(
                id, PostSendView::CallTools { tool_rounds, tool_calls: calls }, rc, pending,
                is_group, bot_identity, compaction_in_flight, now,
            );
            &&& e.len() == calls.len()
            &&& forall|i: int| 0 <= i < calls.len() ==> match #[trigger] e[i] {
                ConversationEffectView::ExecuteTool { tool_call, .. } => tool_call == calls[i],
                _ => false,
            }
            &&& match c.state {
                ConversationStateView::RunningTools { tool_rounds: r, completed_tools, .. } =>
                    r == tool_rounds + 1 && completed_tools.len() == 0,
                _ => false,
            }
        }),
{
}

/// `a <= b` or `b <= a` for every pair of strings.
pub proof fn lemma_seq_le_total(a: Seq<char>, b: Seq<char>)
    ensures
        seq_le(a, b) || seq_le(b, a),
    decreases a.len(),
{
    if a.len() > 0 && b.len() > 0 {
        if a[0] == b[0] {
            lemma_seq_le_total(a.drop_first(), b.drop_first());
        } else {
            vstd::utf8::char_u32_cast(a[0], a[0] as u32);
            vstd::utf8::char_u32_cast(b[0], b[0] as u32);
        }
    }
}

/// Any two ids are ordered one way or the other.
pub proof fn lemma_id_le_total(a: Seq<char>, b: Seq<char>)
    ensures
        id_le(a, b) || id_le(b, a),
{
    lemma_seq_le_total(a, b);
}

/// The ids a turn gives its calls are kept in the order of the calls: the
/// `i`-th call's id comes strictly before the `j`-th's whenever `i < j`, so
/// results kept in id order line up with the calls that asked for them.
pub proof fn law_call_ids_follow_call_order(i: nat, j: nat)
    requires
        i < j,
    ensures
        id_le(crate::prompting::call_id(i), crate::prompting::call_id(j)),
        !id_le(crate::prompting::call_id(j), crate::prompting::call_id(i)),
{
    crate::text::lemma_decimal_len_mono(i, j);
    if crate::text::decimal(i).len() == crate::text::decimal(j).len() {
        crate::text::lemma_decimal_order(i, j);
        crate::text::lemma_seq_le_prefix("call_"@, crate::text::decimal(i), crate::text::decimal(j));
        crate::text::lemma_seq_le_prefix("call_"@, crate::text::decimal(j), crate::text::decimal(i));
    }
}

/// Whether `s` is in id order.
pub open spec fn sorted_by_id(s: Seq<Completed>) -> bool {
    forall|i: int| 0 <= i < s.len() - 1 ==> id_le(#[trigger] s[i].0.id, s[i + 1].0.id)
}

proof fn lemma_insert_sorted_sorted(s: Seq<Completed>, x: Completed)
    requires
        sorted_by_id(s),
    ensures
        sorted_by_id(insert_sorted(s, x)),
        insert_sorted(s, x).len() == s.len() + 1,
        insert_sorted(s, x).last() == x || (s.len() > 0 && insert_sorted(s, x).last() == s.last()),
    decreases s.len(),
{
    if s.len() == 0 {
    } else if id_le(s.last().0.id, x.0.id) {
        let r = s.push(x);
        assert forall|i: int| 0 <= i < r.len() - 1 implies id_le(#[trigger] r[i].0.id, r[i + 1].0.id) by {
            if i < s.len() - 1 {
                assert(r[i] == s[i] && r[i + 1] == s[i + 1]);
            }
        }
    } else {
        let d = s.drop_last();
        assert(sorted_by_id(d)) by {
            assert forall|i: int| 0 <= i < d.len() - 1 implies id_le(#[trigger] d[i].0.id, d[i + 1].0.id) by {
                assert(d[i] == s[i] && d[i + 1] == s[i + 1]);
            }
        }
        lemma_insert_sorted_sorted(d, x);
        let t = insert_sorted(d, x);
        let r = t.push(s.last());
        lemma_id_le_total(s.last().0.id, x.0.id);
        if d.len() > 0 {
            assert(id_le(s[s.len() - 2].0.id, s[s.len() - 1].0.id));
        }
        assert forall|i: int| 0 <= i < r.len() - 1 implies id_le(#[trigger] r[i].0.id, r[i + 1].0.id) by {
            if i < t.len() - 1 {
                assert(r[i] == t[i] && r[i + 1] == t[i + 1]);
            } else {
                assert(r[i] == t.last());
            }
        }
    }
}

/// Tool results go to the model in call-id order, all of them: sorting by id
/// yields an id-ordered list of the same length.
pub proof fn law_results_in_id_order(s: Seq<Completed>)
    ensures
        sorted_by_id(sort_by_id(s)),
        sort_by_id(s).len() == s.len(),
        as_results(sort_by_id(s)).len() == s.len(),
    decreases s.len(),
{
    if s.len() > 0 {
        law_results_in_id_order(s.drop_last());
        lemma_insert_sorted_sorted(sort_by_id(s.drop_last()), s.last());
    }
}

/// A conversation that waits on outside work waits on something: while tools
/// run at least one call is still out, and a message that will be followed by
/// tool calls carries at least one.
pub open spec fn waits_on_something(c: ConversationView) -> bool {
    match c.state {
        ConversationStateView::RunningTools { pending_tools, .. } => pending_tools.len() > 0,
        ConversationStateView::SendingMessage { post_send, .. } => match post_send {
            PostSendView::CallTools { tool_calls, .. } => tool_calls.len() > 0,
            _ => true,
        },
        _ => true,
    }
}

proof fn lemma_pending_after_nonempty(calls: Seq<ToolCallView>)
    requires
        calls.len() > 0,
    ensures
        pending_after(calls).len() > 0,
{
    let before = pending_after(calls.drop_last());
    crate::conversation_machine::lemma_id_position(before, calls.last().id);
}

/// A new conversation waits on nothing.
pub proof fn law_new_conversation_waits_on_something(is_group: bool, bot_identity: Seq<char>, now: i64)
    ensures
        waits_on_something(construct_view(is_group, bot_identity, now)),
{
}

/// Every move keeps a conversation waiting on something: no move leaves it
/// running tools with none out, or about to call tools with none to call.
pub proof fn law_never_waits_on_nothing(
    env: ConversationEnv,
    id: (Platform, Seq<char>),
    conv: ConversationView,
    action: ConversationActionView,
    now: i64,
    fresh: (HistoryId, HistoryId),
)
    requires
        waits_on_something(conv),
    ensures
        match transition_view(env, id, conv, action, now, fresh) {
            Ok((c, _)) => waits_on_something(c),
            Err(_) => true,
        },
{
    match action {
        ConversationActionView::LLMDecisionResult(Ok(response)) => {
            if response.tool_calls.len() > 0 {
                lemma_pending_after_nonempty(response.tool_calls);
            }
        },
        ConversationActionView::MessageSent(_) => {
            if let ConversationStateView::SendingMessage { post_send: PostSendView::CallTools { tool_calls, .. }, .. } = conv.state {
                lemma_pending_after_nonempty(tool_calls);
            }
        },
        _ => {},
    }
}

/// A conversation that waits on outside work always has a wakeup scheduled
/// that rescues it if the work never reports back: only an idle conversation
/// schedules nothing.
pub proof fn law_waiting_is_always_rescued(c: ConversationView)
    requires
        waits_on_something(c),
    ensures
        schedule_view(c) is None <==> c.state is Idle,
{
}


// ---------------------------------------------------------------------------
// Draining, file hashes and announcements

/// Joining two non-empty lists of lines gives the two joins with one
/// separator between them.
pub proof fn lemma_seq_join_concat(a: Seq<Seq<char>>, b: Seq<Seq<char>>, sep: Seq<char>)
    requires
        a.len() > 0,
        b.len() > 0,
    ensures
        seq_join(a + b, sep) == seq_join(a, sep) + sep + seq_join(b, sep),
    decreases b.len(),
{
    if b.len() == 1 {
        assert((a + b).drop_last() =~= a);
        assert((a + b).last() == b[0]);
    } else {
        lemma_seq_join_concat(a, b.drop_last(), sep);
        assert((a + b).drop_last() =~= a + b.drop_last());
        assert((a + b).last() == b.last());
        assert(seq_join(a, sep) + sep + seq_join(b.drop_last(), sep) + sep + b.last()
            =~= seq_join(a, sep) + sep + (seq_join(b.drop_last(), sep) + sep + b.last()));
    }
}

proof fn lemma_attachments_concat(p: Seq<ConversationMessageView>, q: Seq<ConversationMessageView>)
    ensures
        all_attachments(p + q) == all_attachments(p) + all_attachments(q),
    decreases q.len(),
{
    if q.len() == 0 {
        assert(p + q =~= p);
        assert(all_attachments(p) + Seq::<crate::media::AttachmentView>::empty() =~= all_attachments(p));
    } else {
        lemma_attachments_concat(p, q.drop_last());
        assert((p + q).drop_last() =~= p + q.drop_last());
        assert((p + q).last() == q.last());
        assert(all_attachments(p) + all_attachments(q.drop_last()) + q.last().attachments
            =~= all_attachments(p) + (all_attachments(q.drop_last()) + q.last().attachments));
    }
}

/// Draining keeps every pending message's text, in order: the messages
/// queued before and after any point drain into their two texts joined by a
/// line break, and a single message drains into its own text; their
/// attachments likewise follow one another; the drained message is queued
/// when any was, and comes from the sender of the last. Nothing a user sent
/// while the conversation was busy is dropped.
pub proof fn law_draining_keeps_every_text(p: Seq<ConversationMessageView>, q: Seq<ConversationMessageView>, m: ConversationMessageView)
    requires
        p.len() > 0,
        q.len() > 0,
    ensures
        merged_message(p + q).text == merged_message(p).text + "\n"@ + merged_message(q).text,
        merged_message(seq![m]).text == m.text,
        merged_message(p + q).attachments == merged_message(p).attachments + merged_message(q).attachments,
        merged_message(seq![m]).attachments == m.attachments,
        merged_message(p + q).queued == (merged_message(p).queued || merged_message(q).queued),
        merged_message(seq![m]).queued == m.queued,
        merged_message(p + q).user_id == q.last().user_id && merged_message(p + q).name == q.last().name,
{
    lemma_attachments_concat(p, q);
    assert(seq![m].drop_last() =~= Seq::<ConversationMessageView>::empty());
    assert(seq![m].last() == m);
    assert(all_attachments(Seq::<ConversationMessageView>::empty()) + m.attachments =~= m.attachments);
    assert((p + q).last() == q.last());
    if any_queued(p + q) {
        let i = choose|i: int| 0 <= i < (p + q).len() && #[trigger] (p + q)[i].queued;
        if i < p.len() {
            assert(p[i].queued);
        } else {
            assert(q[i - p.len()].queued);
        }
    }
    if any_queued(p) {
        let i = choose|i: int| 0 <= i < p.len() && #[trigger] p[i].queued;
        assert((p + q)[i].queued);
    }
    if any_queued(q) {
        let i = choose|i: int| 0 <= i < q.len() && #[trigger] q[i].queued;
        assert((p + q)[p.len() + i].queued);
    }
    if m.queued {
        assert(seq![m][0].queued);
    }
    assert(texts(p + q) =~= texts(p) + texts(q));
    lemma_seq_join_concat(texts(p), texts(q), "\n"@);
    assert(texts(seq![m]) =~= seq![m.text]);
}

/// Whether the result `r` read or edited the file at `path`.
pub open spec fn touches_file(r: crate::conversation::ToolResultView, path: Seq<char>) -> bool {
    ||| r.call.tool_type matches crate::conversation::ToolTypeView::ReadFile { path: p, .. } && p == path
    ||| r.call.tool_type matches crate::conversation::ToolTypeView::EditFile { path: p, .. } && p == path
}

/// The hash an edit of `path` is checked against is the one recorded by the
/// most recent read or edit of that path: when the newest history entry's
/// last tool result read or edited `path` and recorded hash `h`, the lookup
/// gives `h`, whatever came before.
pub proof fn law_latest_read_or_edit_gives_the_hash(
    history: Seq<HistoryEntryView>,
    id: HistoryId,
    results: Seq<crate::conversation::ToolResultView>,
    followup: Option<ConversationMessageView>,
    r: crate::conversation::ToolResultView,
    path: Seq<char>,
    h: Seq<char>,
)
    requires
        touches_file(r, path),
        crate::conversation::assoc_get(r.data.metadata, "file_hash"@) == Some(h),
    ensures
        crate::conversation::history_file_hash(
            history.push(HistoryEntryView { id, kind: HistoryEntryKindView::Input(LLMInputView::ToolResults(results.push(r), followup)) }),
            path,
        ) == Some(h),
{
    let rs = results.push(r);
    assert(rs.last() == r);
}

/// A tool result that neither read nor edited `path` leaves the hash recorded
/// for `path` as it was.
pub proof fn law_other_results_keep_the_hash(
    results: Seq<crate::conversation::ToolResultView>,
    r: crate::conversation::ToolResultView,
    path: Seq<char>,
)
    requires
        !touches_file(r, path),
    ensures
        crate::conversation::results_file_hash(results.push(r), path) == crate::conversation::results_file_hash(results, path),
{
    assert(results.push(r).drop_last() =~= results);
}

/// Whether a call is one of the internal meta tools, which are never
/// announced.
pub open spec fn is_meta_call(c: ToolCallView) -> bool {
    crate::conversation::kind_of(c.tool_type) is MetaNoOpExtraTurn || crate::conversation::kind_of(c.tool_type) is MetaMalformed
}

/// A turn announces every tool it calls, in order: the announcements of two
/// runs of calls are those of the first followed by those of the second; one
/// call announces its wire name unless it is a meta tool, which announces
/// nothing; so there are as many announcements as non-meta calls.
pub proof fn law_every_tool_is_announced(a: Seq<ToolCallView>, b: Seq<ToolCallView>, c: ToolCallView)
    ensures
        crate::conversation_machine::announcements(a + b)
            == crate::conversation_machine::announcements(a) + crate::conversation_machine::announcements(b),
        crate::conversation_machine::announcements(seq![c]) == if is_meta_call(c) {
            Seq::<Seq<char>>::empty()
        } else {
            seq![crate::tools::wire_name_of(crate::conversation::kind_of(c.tool_type))]
        },
        crate::conversation_machine::announcements(a).len() == a.filter(|x: ToolCallView| !is_meta_call(x)).len(),
    decreases b.len(),
{
    if b.len() > 0 {
        law_every_tool_is_announced(a, b.drop_last(), c);
        assert((a + b).drop_last() =~= a + b.drop_last());
        assert((a + b).last() == b.last());
    } else {
        assert(a + b =~= a);
    }
    assert(seq![c].drop_last() =~= Seq::<ToolCallView>::empty());
    assert(seq![c].last() == c);
    let none = crate::conversation_machine::announcements(Seq::<ToolCallView>::empty());
    assert(none =~= Seq::<Seq<char>>::empty());
    assert(none.push(crate::tools::wire_name_of(crate::conversation::kind_of(c.tool_type)))
        =~= seq![crate::tools::wire_name_of(crate::conversation::kind_of(c.tool_type))]);
    lemma_announcement_count(a);
}

proof fn lemma_announcement_count(a: Seq<ToolCallView>)
    ensures
        crate::conversation_machine::announcements(a).len() == a.filter(|x: ToolCallView| !is_meta_call(x)).len(),
    decreases a.len(),
{
    reveal(Seq::filter);
    if a.len() > 0 {
        lemma_announcement_count(a.drop_last());
    }
}

} // verus!
