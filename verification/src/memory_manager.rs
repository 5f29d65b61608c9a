//! The memory manager: one per conversation, it runs one history compaction at
//! a time and hands the outcome back to the conversation.

use vstd::prelude::*;
use crate::conversation::{
    clone_history, CompactionOutput, ConversationAction, ConversationActionView, ConversationId,
    HistoryEntry, HistoryEntryView, HistoryId, InterruptionReason,
};
use crate::framework::{now_millis, Scheduled};
use crate::text::owned;

verus! {

/// How long a compaction may run before it counts as timed out.
pub const COMPACT_TIMEOUT_MS: i64 = 300_000;

/// Whether a compaction is running.
#[derive(PartialEq, Eq, Structural, Clone, Copy, Debug)]
pub enum MemoryManagerState {
    Idle,
    Compacting,
}

/// The manager's state and when it last moved (milliseconds since the epoch).
#[derive(PartialEq, Eq, Structural, Clone, Copy, Debug)]
pub struct MemoryManager {
    pub state: MemoryManagerState,
    pub last_transition: i64,
}

/// What the manager is asked to do.
pub enum MemoryManagerAction {
    /// Summarize this history.
    Compact { history: Vec<HistoryEntry> },
    /// The summary came back, or the compaction was interrupted.
    CompactionDone(Result<CompactionOutput, InterruptionReason>),
}

/// Model of a [`MemoryManagerAction`].
pub enum MemoryManagerActionView {
    Compact { history: Seq<HistoryEntryView> },
    CompactionDone(Result<(Seq<char>, HistoryId), InterruptionReason>),
}

impl DeepView for MemoryManagerAction {
    type V = MemoryManagerActionView;

    open spec fn deep_view(&self) -> MemoryManagerActionView {
        match self {
            MemoryManagerAction::Compact { history } => MemoryManagerActionView::Compact { history: history.deep_view() },
            MemoryManagerAction::CompactionDone(r) => MemoryManagerActionView::CompactionDone(match r {
                Ok(o) => Ok(o.deep_view()),
                Err(e) => Err(*e),
            }),
        }
    }
}

/// What makes a memory manager: the conversation it serves.
pub struct MemoryManagerConstructor {
    pub id: ConversationId,
}

impl MemoryManagerConstructor {
    /// The conversation the manager serves.
    pub fn get_id(&self) -> (r: &ConversationId)
        ensures
            r.deep_view() == self.id.deep_view(),
    {
        &self.id
    }
}

/// What the manager has done on its behalf.
pub enum MemoryEffect {
    /// Summarize `history` with the utility model.
    Summarize { history: Vec<HistoryEntry> },
    /// Hand `action` to the conversation `conversation_id`.
    Deliver { conversation_id: ConversationId, action: ConversationAction },
}

/// Model of a [`MemoryEffect`].
pub enum MemoryEffectView {
    Summarize { history: Seq<HistoryEntryView> },
    Deliver { conversation_id: (crate::conversation::Platform, Seq<char>), action: ConversationActionView },
}

impl DeepView for MemoryEffect {
    type V = MemoryEffectView;

    open spec fn deep_view(&self) -> MemoryEffectView {
        match self {
            MemoryEffect::Summarize { history } => MemoryEffectView::Summarize { history: history.deep_view() },
            MemoryEffect::Deliver { conversation_id, action } => MemoryEffectView::Deliver {
                conversation_id: conversation_id.deep_view(),
                action: action.deep_view(),
            },
        }
    }
}

/// How an action is named in the manager's refusals.
pub open spec fn memory_action_label(a: MemoryManagerActionView) -> Seq<char> {
    match a {
        MemoryManagerActionView::Compact { .. } => "Compact"@,
        MemoryManagerActionView::CompactionDone(Ok(_)) => "CompactionDone(ok)"@,
        MemoryManagerActionView::CompactionDone(Err(_)) => "CompactionDone(err)"@,
    }
}

/// One step of the manager at time `now`: an idle manager starts a compaction
/// of the history it is given; a compacting one hands the outcome to the
/// conversation and goes idle; anything else is refused.
pub open spec fn memory_transition_view(
    state: MemoryManager,
    id: (crate::conversation::Platform, Seq<char>),
    action: MemoryManagerActionView,
    now: i64,
) -> Result<(MemoryManager, Seq<MemoryEffectView>), Seq<char>> {
    match (state.state, action) {
        (MemoryManagerState::Idle, MemoryManagerActionView::Compact { history }) => Ok((
            MemoryManager { state: MemoryManagerState::Compacting, last_transition: now },
            seq![MemoryEffectView::Summarize { history }],
        )),
        (MemoryManagerState::Compacting, MemoryManagerActionView::CompactionDone(result)) => Ok((
            MemoryManager { state: MemoryManagerState::Idle, last_transition: now },
            seq![MemoryEffectView::Deliver {
                conversation_id: id,
                action: ConversationActionView::CompactionResult(result),
            }],
        )),
        _ => Err("no transition for "@ + memory_action_label(action) + " in memory manager"@),
    }
}

/// When a compaction that has not come back is given up on.
pub open spec fn memory_schedule_view(state: MemoryManager) -> Option<(i64, MemoryManagerActionView)> {
    match state.state {
        MemoryManagerState::Idle => None,
        MemoryManagerState::Compacting => Some((
            (state.last_transition + COMPACT_TIMEOUT_MS) as i64,
            MemoryManagerActionView::CompactionDone(Err(InterruptionReason::TimedOut)),
        )),
    }
}

/// The memory manager's state machine.
pub struct MemoryManagerMachine;

impl MemoryManagerMachine {
    /// The machine's name, as it is registered.
    pub fn name() -> (r: &'static str)
        ensures
            r@ == "MemoryManagerMachine"@,
    {
        "MemoryManagerMachine"
    }

    /// A new, idle manager, moved at `now`.
    pub fn construct_at(constructor: &MemoryManagerConstructor, now: i64) -> (r: MemoryManager)
        ensures
            r == (MemoryManager { state: MemoryManagerState::Idle, last_transition: now }),
    {
        MemoryManager { state: MemoryManagerState::Idle, last_transition: now }
    }

    /// A new, idle manager, moved now.
    pub fn construct(constructor: MemoryManagerConstructor) -> (r: MemoryManager)
        ensures
            r.state == MemoryManagerState::Idle,
            crate::framework::clock_reading(r.last_transition),
    {
        MemoryManagerMachine::construct_at(&constructor, now_millis())
    }

    /// One step of the manager at time `now` (see [`memory_transition_view`]).
    pub fn transition_at(
        state: &MemoryManager,
        id: &ConversationId,
        action: &MemoryManagerAction,
        now: i64,
    ) -> (r: Result<(MemoryManager, Vec<MemoryEffect>), String>)
        ensures
            match memory_transition_view(*state, id.deep_view(), action.deep_view(), now) {
                Ok((m, e)) => r matches Ok(p) && p.0 == m && p.1.deep_view() == e,
                Err(msg) => r matches Err(rm) && rm@ == msg,
            },
    {
        match (state.state, action) {
            (MemoryManagerState::Idle, MemoryManagerAction::Compact { history }) => {
                let effects = vec![MemoryEffect::Summarize { history: clone_history(history) }];
                assert(effects.deep_view() =~= seq![MemoryEffectView::Summarize { history: history.deep_view() }]);
                Ok((MemoryManager { state: MemoryManagerState::Compacting, last_transition: now }, effects))
            },
            (MemoryManagerState::Compacting, MemoryManagerAction::CompactionDone(result)) => {
                let forwarded = match result {
                    Ok(o) => Ok(o.clone()),
                    Err(e) => Err(*e),
                };
                let effects = vec![MemoryEffect::Deliver {
                    conversation_id: id.clone(),
                    action: ConversationAction::CompactionResult(forwarded),
                }];
                assert(effects.deep_view() =~= seq![MemoryEffectView::Deliver {
                    conversation_id: id.deep_view(),
                    action: ConversationActionView::CompactionResult(match action.deep_view() {
                        MemoryManagerActionView::CompactionDone(r) => r,
                        _ => Err(InterruptionReason::TimedOut),
                    }),
                }]);
                Ok((MemoryManager { state: MemoryManagerState::Idle, last_transition: now }, effects))
            },
            _ => {
                let label = match action {
                    MemoryManagerAction::Compact { .. } => "Compact",
                    MemoryManagerAction::CompactionDone(Ok(_)) => "CompactionDone(ok)",
                    MemoryManagerAction::CompactionDone(Err(_)) => "CompactionDone(err)",
                };
                let mut m = owned("no transition for ");
                crate::text::push_str(&mut m, label);
                crate::text::push_str(&mut m, " in memory manager");
                Err(m)
            },
        }
    }

    /// One step of the manager, now.
    pub fn transition(
        state: &MemoryManager,
        id: &ConversationId,
        action: &MemoryManagerAction,
    ) -> (r: Result<(MemoryManager, Vec<MemoryEffect>), String>)
        ensures
            exists|now: i64| crate::framework::clock_reading(now) && match #[trigger] memory_transition_view(*state, id.deep_view(), action.deep_view(), now) {
                Ok((m, e)) => r matches Ok(p) && p.0 == m && p.1.deep_view() == e,
                Err(msg) => r matches Err(rm) && rm@ == msg,
            },
    {
        let now = now_millis();
        MemoryManagerMachine::transition_at(state, id, action, now)
    }

    /// The manager's scheduled wakeup (see [`memory_schedule_view`]).
    pub fn schedule(state: &MemoryManager) -> (r: Option<Scheduled<MemoryManagerAction>>)
        requires
            state.last_transition <= i64::MAX - COMPACT_TIMEOUT_MS,
        ensures
            match memory_schedule_view(*state) {
                Some((at, a)) => r matches Some(s) && s.at == at && s.action.deep_view() == a,
                None => r is None,
            },
    {
        match state.state {
            MemoryManagerState::Idle => None,
            MemoryManagerState::Compacting => Some(Scheduled {
                at: state.last_transition + COMPACT_TIMEOUT_MS,
                action: MemoryManagerAction::CompactionDone(Err(InterruptionReason::TimedOut)),
            }),
        }
    }
}

/// At most one compaction runs at a time: a manager that has just started one
/// refuses to start another until the first has come back, and it has a
/// timeout scheduled that brings it back.
pub proof fn law_one_compaction_at_a_time(
    state: MemoryManager,
    id: (crate::conversation::Platform, Seq<char>),
    first: Seq<HistoryEntryView>,
    second: Seq<HistoryEntryView>,
    now: i64,
    later: i64,
)
    ensures
        memory_transition_view(state, id, MemoryManagerActionView::Compact { history: first }, now) matches Ok((m, _))
            ==> memory_transition_view(m, id, MemoryManagerActionView::Compact { history: second }, later) is Err
            && memory_schedule_view(m) == Some(((now + COMPACT_TIMEOUT_MS) as i64,
                MemoryManagerActionView::CompactionDone(Err(InterruptionReason::TimedOut)))),
{
}

/// Every compaction that comes back is handed to the conversation it was made
/// for, and the manager is idle again, ready for the next.
pub proof fn law_compaction_result_delivered(
    state: MemoryManager,
    id: (crate::conversation::Platform, Seq<char>),
    result: Result<(Seq<char>, crate::conversation::HistoryId), InterruptionReason>,
    now: i64,
)
    requires
        state.state == MemoryManagerState::Compacting,
    ensures
        memory_transition_view(state, id, MemoryManagerActionView::CompactionDone(result), now) matches Ok((m, e))
            && m.state == MemoryManagerState::Idle
            && e == seq![MemoryEffectView::Deliver { conversation_id: id, action: ConversationActionView::CompactionResult(result) }],
{
}

} // verus!
