//! Reminders: one-shot durable timers scoped to a conversation. A reminder is
//! set by the `set_reminder` tool, fires once at its time, delivers a message
//! back into its conversation and then rests in `Fired`.

use vstd::prelude::*;
use crate::conversation::{
    id_string, random_uuid, ConversationAction, ConversationActionView, ConversationId, Platform,
};
use crate::framework::{now_millis, Scheduled};
use crate::text::{owned, push_str, uuid_string, uuid_text};

verus! {

/// Upper bound on how far out a reminder may be scheduled (~1 year), in seconds.
pub const MAX_REMINDER_SECS: i64 = 31_622_400;

/// A reminder's own id: a random UUID, as its 128 bits.
#[derive(PartialEq, Eq, Structural, Clone, Copy, Debug)]
pub struct ReminderId(pub u128);

impl ReminderId {
    /// A fresh random id: a version-4 UUID.
    pub fn new() -> (r: ReminderId)
        ensures
            crate::conversation::is_v4_uuid(r.0),
    {
        ReminderId(random_uuid())
    }

    /// The id in UUID form.
    pub fn to_string(&self) -> (r: String)
        ensures
            r@ == uuid_text(self.0 as nat),
    {
        uuid_string(self.0)
    }
}

/// A reminder's full id: its conversation and its own id, so a conversation
/// can hold several at once.
pub struct ReminderForConversationId {
    pub conversation_id: ConversationId,
    pub reminder_id: ReminderId,
}

impl ReminderForConversationId {
    /// The key the reminder is stored under: `<conversation>__<uuid>`.
    pub fn get_id_string(&self) -> (r: String)
        ensures
            r@ == id_string(self.conversation_id.deep_view()) + "__"@ + uuid_text(self.reminder_id.0 as nat),
    {
        let mut r = self.conversation_id.get_id_string();
        push_str(&mut r, "__");
        push_str(&mut r, self.reminder_id.to_string().as_str());
        r
    }
}

/// Whether the reminder has fired.
#[derive(PartialEq, Eq, Structural, Clone, Copy, Debug)]
pub enum ReminderState {
    Pending,
    Fired,
}

/// What a reminder is told to do.
#[derive(PartialEq, Eq, Structural, Clone, Copy, Debug)]
pub enum ReminderAction {
    Fire,
}

/// A reminder: where it is delivered, who set it and for whom, what it says,
/// and when (milliseconds since the epoch) it was set and fires.
pub struct ReminderForConversation {
    pub state: ReminderState,
    pub conversation_id: ConversationId,
    pub user_id: String,
    pub name: String,
    pub note: String,
    pub created_on: i64,
    pub fire_at: i64,
}

/// Model of a [`ReminderForConversation`].
pub struct ReminderView {
    pub state: ReminderState,
    pub conversation_id: (Platform, Seq<char>),
    pub user_id: Seq<char>,
    pub name: Seq<char>,
    pub note: Seq<char>,
    pub created_on: i64,
    pub fire_at: i64,
}

impl DeepView for ReminderForConversation {
    type V = ReminderView;

    open spec fn deep_view(&self) -> ReminderView {
        ReminderView {
            state: self.state,
            conversation_id: self.conversation_id.deep_view(),
            user_id: self.user_id@,
            name: self.name@,
            note: self.note@,
            created_on: self.created_on,
            fire_at: self.fire_at,
        }
    }
}

/// What a reminder is made from: its id, who set it, for whom, the note, and
/// the delay in seconds.
pub struct ReminderConstructor {
    pub id: ReminderForConversationId,
    pub user_id: String,
    pub name: String,
    pub note: String,
    pub delay_seconds: i64,
}

impl ReminderConstructor {
    /// The reminder's id.
    pub fn get_id(&self) -> (r: &ReminderForConversationId)
        ensures
            r == &self.id,
    {
        &self.id
    }
}

/// What a reminder has done on its behalf: hand `action` to its conversation.
pub struct ReminderEffect {
    pub conversation_id: ConversationId,
    pub action: ConversationAction,
}

/// Whether `delay_seconds` from `now` can be represented.
pub open spec fn delay_fits(now: i64, delay_seconds: i64) -> bool {
    i64::MIN <= now + delay_seconds * 1000 <= i64::MAX
}

/// A reminder set at `now`: pending, firing `delay_seconds` later.
pub open spec fn construct_reminder_view(
    id: (Platform, Seq<char>),
    user_id: Seq<char>,
    name: Seq<char>,
    note: Seq<char>,
    delay_seconds: i64,
    now: i64,
) -> ReminderView {
    ReminderView {
        state: ReminderState::Pending,
        conversation_id: id,
        user_id,
        name,
        note,
        created_on: now,
        fire_at: (now + delay_seconds * 1000) as i64,
    }
}

/// One step of a reminder: a pending one fires, delivering its note to its
/// conversation for the person it names, and is spent; a spent one refuses.
pub open spec fn reminder_transition_view(r: ReminderView) -> Result<(ReminderView, (Platform, Seq<char>), ConversationActionView), Seq<char>> {
    match r.state {
        ReminderState::Pending => Ok((
            ReminderView { state: ReminderState::Fired, ..r },
            r.conversation_id,
            ConversationActionView::ReminderFired { note: r.note, addressee: r.name },
        )),
        ReminderState::Fired => Err("no transition for Fire in reminder"@),
    }
}

/// The reminder machine.
pub struct ReminderForConversationMachine;

impl ReminderForConversationMachine {
    /// The machine's name, as it is registered.
    pub fn name() -> (r: &'static str)
        ensures
            r@ == "ReminderForConversationMachine"@,
    {
        "ReminderForConversationMachine"
    }

    /// A reminder set at `now` (see [`construct_reminder_view`]).
    pub fn construct_at(constructor: ReminderConstructor, now: i64) -> (r: ReminderForConversation)
        requires
            delay_fits(now, constructor.delay_seconds),
        ensures
            r.deep_view() == construct_reminder_view(
                constructor.id.conversation_id.deep_view(),
                constructor.user_id@,
                constructor.name@,
                constructor.note@,
                constructor.delay_seconds,
                now,
            ),
    {
        let fire_at = (now as i128 + constructor.delay_seconds as i128 * 1000) as i64;
        ReminderForConversation {
            state: ReminderState::Pending,
            conversation_id: constructor.id.conversation_id,
            user_id: constructor.user_id,
            name: constructor.name,
            note: constructor.note,
            created_on: now,
            fire_at,
        }
    }

    /// A reminder set now; `None` exactly when its time, read from the
    /// clock, cannot be represented.
    pub fn construct(constructor: ReminderConstructor) -> (r: Option<ReminderForConversation>)
        ensures
            exists|now: i64|
                crate::framework::clock_reading(now)
                && (r is None <==> !#[trigger] delay_fits(now, constructor.delay_seconds))
                && (r matches Some(x) ==> x.deep_view() == construct_reminder_view(
                    constructor.id.conversation_id.deep_view(),
                    constructor.user_id@,
                    constructor.name@,
                    constructor.note@,
                    constructor.delay_seconds,
                    now,
                )),
    {
        let now = now_millis();
        let fire_at = now as i128 + constructor.delay_seconds as i128 * 1000;
        if fire_at < i64::MIN as i128 || fire_at > i64::MAX as i128 {
            assert(!delay_fits(now, constructor.delay_seconds));
            return None;
        }
        Some(ReminderForConversationMachine::construct_at(constructor, now))
    }

    /// One step of a reminder (see [`reminder_transition_view`]).
    pub fn transition(state: &ReminderForConversation, action: &ReminderAction) -> (r: Result<(ReminderForConversation, Vec<ReminderEffect>), String>)
        ensures
            match reminder_transition_view(state.deep_view()) {
                Ok((next, to, a)) => r matches Ok(p) && p.0.deep_view() == next && p.1@.len() == 1
                    && p.1@[0].conversation_id.deep_view() == to && p.1@[0].action.deep_view() == a,
                Err(m) => r matches Err(e) && e@ == m,
            },
    {
        match state.state {
            ReminderState::Pending => {
                let effect = ReminderEffect {
                    conversation_id: state.conversation_id.clone(),
                    action: ConversationAction::ReminderFired { note: state.note.clone(), addressee: state.name.clone() },
                };
                let next = ReminderForConversation {
                    state: ReminderState::Fired,
                    conversation_id: state.conversation_id.clone(),
                    user_id: state.user_id.clone(),
                    name: state.name.clone(),
                    note: state.note.clone(),
                    created_on: state.created_on,
                    fire_at: state.fire_at,
                };
                Ok((next, vec![effect]))
            },
            ReminderState::Fired => Err(owned("no transition for Fire in reminder")),
        }
    }

    /// A pending reminder wakes at its time; a spent one never.
    pub fn schedule(state: &ReminderForConversation) -> (r: Option<Scheduled<ReminderAction>>)
        ensures
            match state.state {
                ReminderState::Pending => r matches Some(s) && s.at == state.fire_at && s.action == ReminderAction::Fire,
                ReminderState::Fired => r is None,
            },
    {
        match state.state {
            ReminderState::Pending => Some(Scheduled { at: state.fire_at, action: ReminderAction::Fire }),
            ReminderState::Fired => None,
        }
    }
}

/// A reminder fires at most once: once it has fired it refuses to fire again
/// and schedules no further wakeup.
pub proof fn law_reminder_fires_once(r: ReminderView)
    ensures
        reminder_transition_view(r) matches Ok((next, _, _)) ==> next.state == ReminderState::Fired
            && reminder_transition_view(next) is Err,
{
}

/// Firing delivers the reminder's own note to its own conversation, and
/// changes nothing else about it.
pub proof fn law_reminder_delivers_its_note(r: ReminderView)
    requires
        r.state == ReminderState::Pending,
    ensures
        reminder_transition_view(r) == Ok::<(ReminderView, (Platform, Seq<char>), ConversationActionView), Seq<char>>((
            ReminderView { state: ReminderState::Fired, ..r },
            r.conversation_id,
            ConversationActionView::ReminderFired { note: r.note, addressee: r.name },
        )),
{
}

} // verus!
