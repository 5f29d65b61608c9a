//! Compaction's side of the utility model: the transcript a history is
//! summarized from, and the summary read out of the model's generation.

use vstd::prelude::*;
use crate::conversation::{
    interruption_note, message_content, response_message, system_content, CompactionOutput, HistoryEntry,
    HistoryEntryKind, HistoryEntryKindView, HistoryEntryView, HistoryId, LLMInput, LLMInputView, ToolCallView,
    ToolResultView, kind_of,
};
use crate::roles::{find_from, find_in, lemma_find_from_bounds};
use crate::text::{chars_of, join, owned, push_str, seq_join, string_of, trim, trim_bounds, views};
use crate::tools::wire_name_of;

verus! {

/// The transcript lines of one history entry: who said what, which tools ran
/// and what they returned (simplified), and earlier summaries.
pub open spec fn entry_lines(k: HistoryEntryKindView) -> Seq<Seq<char>> {
    match k {
        HistoryEntryKindView::Summary(s) => seq!["Summary of earlier conversation:\n"@ + s],
        HistoryEntryKindView::Input(LLMInputView::ConversationMessage(m)) => seq![m.name + ": "@ + message_content(m)],
        HistoryEntryKindView::Input(LLMInputView::SystemMessage(batch)) =>
            batch.map_values(|b: (Seq<char>, Seq<char>)| system_content(b)),
        HistoryEntryKindView::Input(LLMInputView::ToolResults(results, followup)) =>
            results.map_values(|r: ToolResultView| "Tool result ["@ + wire_name_of(kind_of(r.call.tool_type)) + "]: "@ + r.data.simplified)
                + match followup {
                    Some(m) => seq![m.name + ": "@ + message_content(m)],
                    None => Seq::<Seq<char>>::empty(),
                },
        HistoryEntryKindView::Output(r) =>
            (match response_message(r) {
                Some(t) => seq!["Assistant: "@ + t],
                None => Seq::<Seq<char>>::empty(),
            }) + r.tool_calls.map_values(|c: ToolCallView| "Assistant called tool: "@ + wire_name_of(kind_of(c.tool_type))),
        HistoryEntryKindView::OutputInterrupted(reason) => seq!["Assistant: "@ + interruption_note(reason)],
    }
}

/// The transcript lines of a history, entry by entry.
pub open spec fn transcript_lines(h: Seq<HistoryEntryView>) -> Seq<Seq<char>>
    decreases h.len(),
{
    if h.len() == 0 { Seq::empty() } else { transcript_lines(h.drop_last()) + entry_lines(h.last().kind) }
}

/// The transcript a history is summarized from: its lines joined by newlines.
pub open spec fn transcript_view(h: Seq<HistoryEntryView>) -> Seq<char> {
    seq_join(transcript_lines(h), "\n"@)
}

/// The transcript of two runs of history is the first's followed by the
/// second's, and one entry gives its own lines.
pub proof fn law_transcript_follows_the_history(a: Seq<HistoryEntryView>, b: Seq<HistoryEntryView>, e: HistoryEntryView)
    ensures
        transcript_lines(a + b) == transcript_lines(a) + transcript_lines(b),
        transcript_lines(seq![e]) == entry_lines(e.kind),
    decreases b.len(),
{
    if b.len() > 0 {
        law_transcript_follows_the_history(a, b.drop_last(), e);
        assert((a + b).drop_last() =~= a + b.drop_last());
        assert((a + b).last() == b.last());
    } else {
        assert(a + b =~= a);
    }
    assert(seq![e].drop_last() =~= Seq::<HistoryEntryView>::empty());
    assert(seq![e].last() == e);
    assert(transcript_lines(Seq::<HistoryEntryView>::empty()) =~= Seq::<Seq<char>>::empty());
    assert(Seq::<Seq<char>>::empty() + entry_lines(e.kind) =~= entry_lines(e.kind));
}

proof fn lemma_entry_in_transcript(h: Seq<HistoryEntryView>, i: int)
    requires
        0 <= i < h.len(),
    ensures
        forall|k: int| 0 <= k < entry_lines(h[i].kind).len()
            ==> transcript_lines(h).contains(#[trigger] entry_lines(h[i].kind)[k]),
{
    let a = h.take(i);
    let b = h.skip(i);
    assert(h =~= a + b);
    law_transcript_follows_the_history(a, b, h[i]);
    assert(b =~= seq![h[i]] + b.skip(1));
    law_transcript_follows_the_history(seq![h[i]], b.skip(1), h[i]);
    let t = transcript_lines(h);
    assert forall|k: int| 0 <= k < entry_lines(h[i].kind).len() implies t.contains(#[trigger] entry_lines(h[i].kind)[k]) by {
        assert(t[transcript_lines(a).len() + k] == entry_lines(h[i].kind)[k]);
    }
}

/// Nothing summarized before is forgotten: every earlier summary in a history
/// reaches the transcript as a line of its own, and so does every message a
/// user sent (under the sender's name), every system note, every tool's
/// result (under the tool's name) and every tool the assistant called.
pub proof fn law_summaries_and_messages_reach_the_transcript(h: Seq<HistoryEntryView>, i: int)
    requires
        0 <= i < h.len(),
    ensures
        h[i].kind matches HistoryEntryKindView::Summary(s)
            ==> transcript_lines(h).contains("Summary of earlier conversation:\n"@ + s),
        h[i].kind matches HistoryEntryKindView::Input(LLMInputView::ConversationMessage(m))
            ==> transcript_lines(h).contains(m.name + ": "@ + message_content(m)),
        h[i].kind matches HistoryEntryKindView::Input(LLMInputView::SystemMessage(batch))
            ==> forall|j: int| 0 <= j < batch.len() ==> transcript_lines(h).contains(#[trigger] system_content(batch[j])),
        h[i].kind matches HistoryEntryKindView::Input(LLMInputView::ToolResults(results, _))
            ==> forall|j: int| 0 <= j < results.len() ==> transcript_lines(h).contains(
                "Tool result ["@ + wire_name_of(kind_of(#[trigger] results[j].call.tool_type)) + "]: "@ + results[j].data.simplified),
        h[i].kind matches HistoryEntryKindView::Output(r) ==> forall|j: int| 0 <= j < r.tool_calls.len()
            ==> transcript_lines(h).contains("Assistant called tool: "@ + wire_name_of(kind_of(#[trigger] r.tool_calls[j].tool_type))),
{
    lemma_entry_in_transcript(h, i);
    let lines = entry_lines(h[i].kind);
    if lines.len() > 0 {
        assert(transcript_lines(h).contains(lines[0]));
    }
    match h[i].kind {
        HistoryEntryKindView::Input(LLMInputView::SystemMessage(batch)) => {
            assert forall|j: int| 0 <= j < batch.len() implies transcript_lines(h).contains(#[trigger] system_content(batch[j])) by {
                assert(lines[j] == system_content(batch[j]));
            }
        },
        HistoryEntryKindView::Input(LLMInputView::ToolResults(results, _)) => {
            assert forall|j: int| 0 <= j < results.len() implies transcript_lines(h).contains(
                "Tool result ["@ + wire_name_of(kind_of(#[trigger] results[j].call.tool_type)) + "]: "@ + results[j].data.simplified) by {
                assert(lines[j] == "Tool result ["@ + wire_name_of(kind_of(results[j].call.tool_type)) + "]: "@ + results[j].data.simplified);
            }
        },
        HistoryEntryKindView::Output(r) => {
            let said = match response_message(r) { Some(t) => seq!["Assistant: "@ + t], None => Seq::<Seq<char>>::empty() };
            assert forall|j: int| 0 <= j < r.tool_calls.len() implies transcript_lines(h).contains(
                "Assistant called tool: "@ + wire_name_of(kind_of(#[trigger] r.tool_calls[j].tool_type))) by {
                assert(lines[said.len() + j] == "Assistant called tool: "@ + wire_name_of(kind_of(r.tool_calls[j].tool_type)));
            }
        },
        _ => {},
    }
}

fn push_lines_of(lines: &mut Vec<String>, e: &HistoryEntry)
    ensures
        views(final(lines)@) == views(old(lines)@) + entry_lines(e.kind.deep_view()),
{
    let ghost before = views(lines@);
    match &e.kind {
        HistoryEntryKind::Summary(s) => {
            let mut t = owned("Summary of earlier conversation:\n");
            push_str(&mut t, s.as_str());
            lines.push(t);
        },
        HistoryEntryKind::Input(LLMInput::ConversationMessage(m)) => {
            let mut t = m.name.clone();
            push_str(&mut t, ": ");
            push_str(&mut t, m.to_content().as_str());
            lines.push(t);
        },
        HistoryEntryKind::Input(LLMInput::SystemMessage(batch)) => {
            let mut i: usize = 0;
            while i < batch.len()
                invariant
                    i <= batch@.len(),
                    views(lines@) == before + batch.deep_view().take(i as int).map_values(|b: (Seq<char>, Seq<char>)| system_content(b)),
                decreases batch@.len() - i,
            {
                let ghost prev = views(lines@);
                lines.push(batch[i].to_content());
                assert(batch.deep_view().take(i + 1).map_values(|b: (Seq<char>, Seq<char>)| system_content(b))
                    =~= batch.deep_view().take(i as int).map_values(|b: (Seq<char>, Seq<char>)| system_content(b)).push(system_content(batch@[i as int].deep_view())));
                assert(views(lines@) =~= prev.push(system_content(batch@[i as int].deep_view())));
                i += 1;
            }
            assert(batch.deep_view().take(batch@.len() as int) =~= batch.deep_view());
        },
        HistoryEntryKind::Input(LLMInput::ToolResults(results, followup)) => {
            let mut i: usize = 0;
            while i < results.len()
                invariant
                    i <= results@.len(),
                    views(lines@) == before + results.deep_view().take(i as int).map_values(|r: ToolResultView|
                        "Tool result ["@ + wire_name_of(kind_of(r.call.tool_type)) + "]: "@ + r.data.simplified),
                decreases results@.len() - i,
            {
                let ghost prev = views(lines@);
                let r = &results[i];
                let mut t = owned("Tool result [");
                push_str(&mut t, r.call.tool_type.wire_name());
                push_str(&mut t, "]: ");
                push_str(&mut t, r.data.simplified.as_str());
                lines.push(t);
                assert(results.deep_view().take(i + 1).map_values(|r: ToolResultView| "Tool result ["@ + wire_name_of(kind_of(r.call.tool_type)) + "]: "@ + r.data.simplified)
                    =~= results.deep_view().take(i as int).map_values(|r: ToolResultView| "Tool result ["@ + wire_name_of(kind_of(r.call.tool_type)) + "]: "@ + r.data.simplified)
                        .push("Tool result ["@ + wire_name_of(kind_of(results@[i as int].deep_view().call.tool_type)) + "]: "@ + results@[i as int].deep_view().data.simplified));
                assert(views(lines@) =~= prev.push("Tool result ["@ + wire_name_of(kind_of(results@[i as int].deep_view().call.tool_type)) + "]: "@ + results@[i as int].deep_view().data.simplified));
                i += 1;
            }
            assert(results.deep_view().take(results@.len() as int) =~= results.deep_view());
            let ghost mid = views(lines@);
            if let Some(m) = followup {
                let mut t = m.name.clone();
                push_str(&mut t, ": ");
                push_str(&mut t, m.to_content().as_str());
                lines.push(t);
                assert(views(lines@) =~= mid.push(m.deep_view().name + ": "@ + message_content(m.deep_view())));
            }
        },
        HistoryEntryKind::Output(r) => {
            if let Some(m) = r.message() {
                let mut t = owned("Assistant: ");
                push_str(&mut t, m.as_str());
                lines.push(t);
            }
            let ghost mid = views(lines@);
            let mut i: usize = 0;
            while i < r.tool_calls.len()
                invariant
                    i <= r.tool_calls@.len(),
                    views(lines@) == mid + r.tool_calls.deep_view().take(i as int).map_values(|c: ToolCallView|
                        "Assistant called tool: "@ + wire_name_of(kind_of(c.tool_type))),
                decreases r.tool_calls@.len() - i,
            {
                let ghost prev = views(lines@);
                let mut t = owned("Assistant called tool: ");
                push_str(&mut t, r.tool_calls[i].tool_type.wire_name());
                lines.push(t);
                assert(r.tool_calls.deep_view().take(i + 1).map_values(|c: ToolCallView| "Assistant called tool: "@ + wire_name_of(kind_of(c.tool_type)))
                    =~= r.tool_calls.deep_view().take(i as int).map_values(|c: ToolCallView| "Assistant called tool: "@ + wire_name_of(kind_of(c.tool_type)))
                        .push("Assistant called tool: "@ + wire_name_of(kind_of(r.tool_calls@[i as int].deep_view().tool_type))));
                assert(views(lines@) =~= prev.push("Assistant called tool: "@ + wire_name_of(kind_of(r.tool_calls@[i as int].deep_view().tool_type))));
                i += 1;
            }
            assert(r.tool_calls.deep_view().take(r.tool_calls@.len() as int) =~= r.tool_calls.deep_view());
        },
        HistoryEntryKind::OutputInterrupted(reason) => {
            let mut t = owned("Assistant: ");
            push_str(&mut t, reason.note());
            lines.push(t);
        },
    }
    assert(views(lines@) =~= before + entry_lines(e.kind.deep_view()));
}

/// The transcript a history is summarized from (see [`transcript_view`]).
pub fn history_to_transcript(history: &Vec<HistoryEntry>) -> (r: String)
    ensures
        r@ == transcript_view(history.deep_view()),
{
    let mut lines: Vec<String> = Vec::new();
    let ghost h = history.deep_view();
    let mut i: usize = 0;
    assert(views(lines@) =~= transcript_lines(h.take(0)));
    while i < history.len()
        invariant
            i <= history@.len(),
            h == history.deep_view(),
            views(lines@) == transcript_lines(h.take(i as int)),
        decreases history@.len() - i,
    {
        assert(h.take(i + 1).drop_last() =~= h.take(i as int));
        assert(h.take(i + 1).last() == history@[i as int].deep_view());
        push_lines_of(&mut lines, &history[i]);
        i += 1;
    }
    assert(h.take(history@.len() as int) =~= h);
    join(&lines, "\n")
}

/// The summary in a generation: what follows the first close marker (the
/// whole generation when there is none), trimmed.
pub open spec fn summary_view(raw: Seq<char>, close_marker: Seq<char>) -> Seq<char> {
    match find_from(raw, close_marker, 0) {
        Some(i) => trim(raw.subrange(i + close_marker.len(), raw.len() as int)),
        None => trim(raw),
    }
}

/// The summary read out of a generation (see [`summary_view`]).
pub fn summary_text(raw: &str, close_marker: &str) -> (r: String)
    ensures
        r@ == summary_view(raw@, close_marker@),
{
    let v = chars_of(raw);
    let m = chars_of(close_marker);
    let len = v.len();
    proof {
        lemma_find_from_bounds(v@, m@, 0);
    }
    let from = match find_in(&v, &m, 0) {
        Some(i) => i + m.len(),
        None => 0,
    };
    let (a, b) = trim_bounds(&v, from, v.len());
    assert(v@.subrange(0, v@.len() as int) =~= v@);
    string_of(&v, a, b)
}

/// The outcome of compacting `history` into `summary`: the summary stands for
/// every entry up to the history's last one; an empty history has nothing to
/// stand for.
pub fn compaction_output(history: &Vec<HistoryEntry>, summary: String) -> (r: Option<CompactionOutput>)
    ensures
        history@.len() == 0 ==> r is None,
        history@.len() > 0 ==> (r matches Some(o) && o.summary@ == summary@ && o.through == history@.last().id),
{
    if history.len() == 0 {
        None
    } else {
        Some(CompactionOutput { summary, through: history[history.len() - 1].id })
    }
}

} // verus!
