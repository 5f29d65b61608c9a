//! The state-machine runtime's decisions: which scheduled wakeup comes first,
//! whether a wakeup is due, and how an entity registry answers an input.
//! app/ runs the loop (channels, timers, spawned work); these functions decide.

use vstd::prelude::*;

verus! {

/// Anything a state machine holds or passes around.
pub trait StateMachineItem: Clone {}

impl<T: Clone> StateMachineItem for T {}

/// An action to deliver to a state machine at time `at` (milliseconds since the Unix epoch).
pub struct Scheduled<Action> {
    pub at: i64,
    pub action: Action,
}

/// What an entity's mailbox receives.
pub enum Activity<Action> {
    StateMachineAction(Action),
    ScheduledWakeup,
    DeleteSelf,
}

/// What the registry of entities receives, for an id.
pub enum Input<Constructor, Action> {
    Construct(Constructor),
    Act(Action),
}

/// A bound, in milliseconds either side of the Unix epoch, on every time a
/// `chrono::DateTime<Utc>` can hold (chrono keeps its years within ±262143).
pub const CLOCK_LIMIT_MS: i64 = 9_000_000_000_000_000;

/// Whether `now` is a time the clock can read.
pub open spec fn clock_reading(now: i64) -> bool {
    -CLOCK_LIMIT_MS <= now <= CLOCK_LIMIT_MS
}

/// The current time, in milliseconds since the Unix epoch
/// (`chrono::Utc::now().timestamp_millis()`). Trusted: the reading lies within
/// the range of chrono's `DateTime<Utc>`; which time it is, is the clock's.
#[verifier::external_body]
pub(crate) fn now_millis() -> (r: i64)
    ensures
        clock_reading(r),
{
    chrono::Utc::now().timestamp_millis()
}

/// Index of the earliest entry of `ats` (the first one among equals), or -1.
pub open spec fn earliest_index(ats: Seq<i64>) -> int
    decreases ats.len(),
{
    if ats.len() == 0 {
        -1
    } else {
        let k = earliest_index(ats.drop_last());
        if k >= 0 && ats[k] <= ats.last() { k } else { ats.len() - 1 }
    }
}

/// The earliest index is in range, no later than any entry, and earlier than
/// every entry before it.
pub proof fn lemma_earliest_index(ats: Seq<i64>)
    ensures
        ats.len() == 0 <==> earliest_index(ats) == -1,
        ats.len() > 0 ==> 0 <= earliest_index(ats) < ats.len(),
        ats.len() > 0 ==> forall|i: int| 0 <= i < ats.len() ==> ats[earliest_index(ats)] <= #[trigger] ats[i],
        ats.len() > 0 ==> forall|i: int| 0 <= i < earliest_index(ats) ==> ats[earliest_index(ats)] < #[trigger] ats[i],
    decreases ats.len(),
{
    if ats.len() > 0 {
        let d = ats.drop_last();
        lemma_earliest_index(d);
        assert forall|i: int| 0 <= i < d.len() implies d[i] == #[trigger] ats[i] by {}
        let k = earliest_index(d);
        if d.len() > 0 {
            assert(d[k] == ats[k]);
        }
    }
}

/// The times of a list of scheduled actions.
pub open spec fn times<A>(s: Seq<Scheduled<A>>) -> Seq<i64> {
    s.map_values(|x: Scheduled<A>| x.at)
}

/// The earliest scheduled action — the first among equally early ones, as a
/// stable sort by time and taking the head gives it — or `None` for an empty list.
pub fn earliest<A>(scheduled: Vec<Scheduled<A>>) -> (r: Option<Scheduled<A>>)
    ensures
        scheduled@.len() == 0 ==> r is None,
        scheduled@.len() > 0 ==> r == Some(scheduled@[earliest_index(times(scheduled@))]),
{
    let ghost s = scheduled@;
    proof { lemma_earliest_index(times(s)); }
    if scheduled.len() == 0 {
        return None;
    }
    let mut best: usize = 0;
    let mut i: usize = 1;
    assert(times(s.take(1)).drop_last() =~= Seq::<i64>::empty());
    assert(earliest_index(Seq::<i64>::empty()) == -1);
    assert(times(s.take(1)).len() == 1);
    assert(earliest_index(times(s.take(1))) == 0);
    while i < scheduled.len()
        invariant
            1 <= i <= scheduled.len(),
            s == scheduled@,
            best < i,
            best == earliest_index(times(s.take(i as int))),
        decreases scheduled.len() - i,
    {
        assert(times(s.take(i + 1)).drop_last() =~= times(s.take(i as int)));
        if !(scheduled[best].at <= scheduled[i].at) {
            best = i;
        }
        i += 1;
    }
    assert(s.take(scheduled.len() as int) =~= s);
    let mut scheduled = scheduled;
    Some(scheduled.swap_remove(best))
}

/// Whether a wakeup for `at` fires at `now`: only once `at` is strictly in the past
/// (a wakeup exactly on time reports "not ready").
pub open spec fn is_due(at: i64, now: i64) -> bool {
    at < now
}

/// On a scheduled wakeup at `now`: the action to deliver, if the earliest
/// scheduled one is due.
pub fn on_wakeup<A>(earliest: Option<Scheduled<A>>, now: i64) -> (r: Option<A>)
    ensures
        match earliest {
            Some(s) => if is_due(s.at, now) { r == Some(s.action) } else { r is None },
            None => r is None,
        },
{
    match earliest {
        Some(s) => if s.at < now { Some(s.action) } else { None },
        None => None,
    }
}

/// What the registry does with an input for an id.
#[derive(PartialEq, Eq, Structural, Clone, Copy, Debug)]
pub enum RegistryDecision {
    /// Create the entity from the constructor.
    Construct,
    /// The entity exists already: constructing again changes nothing.
    IgnoreConstruct,
    /// Hand the action to the entity.
    Forward,
    /// No such entity: the action is dropped (a construct must come first).
    Drop,
}

/// How the registry answers an input for an id it does (`known`) or does not hold.
pub open spec fn registry_decision_view<C, A>(known: bool, input: Input<C, A>) -> RegistryDecision {
    match input {
        Input::Construct(_) => if known { RegistryDecision::IgnoreConstruct } else { RegistryDecision::Construct },
        Input::Act(_) => if known { RegistryDecision::Forward } else { RegistryDecision::Drop },
    }
}

/// How the registry answers an input for an id it does (`known`) or does not hold.
pub fn registry_decision<C, A>(known: bool, input: &Input<C, A>) -> (r: RegistryDecision)
    ensures
        r == registry_decision_view(known, *input),
{
    match input {
        Input::Construct(_) => if known { RegistryDecision::IgnoreConstruct } else { RegistryDecision::Construct },
        Input::Act(_) => if known { RegistryDecision::Forward } else { RegistryDecision::Drop },
    }
}

/// What an entity does with its machine's answer to an action.
pub struct EntityStep<S, E> {
    /// The state it holds from now on.
    pub state: S,
    /// Whether its wakeup timer is armed again for that state.
    pub rearm: bool,
    /// The outside work to perform.
    pub effects: Vec<E>,
    /// Why the action was refused, when it was.
    pub refusal: Option<String>,
}

/// An entity's step: an accepted action replaces the state, re-arms the timer
/// and hands over the effects; a refused one keeps the state as it was, with
/// nothing to re-arm or perform, and reports why.
pub fn entity_step<S, E>(state: S, answer: Result<(S, Vec<E>), String>) -> (r: EntityStep<S, E>)
    ensures
        match answer {
            Ok((next, effects)) => r.state == next && r.rearm && r.effects@ == effects@ && r.refusal is None,
            Err(why) => r.state == state && !r.rearm && r.effects@.len() == 0 && r.refusal == Some(why),
        },
{
    match answer {
        Ok((next, effects)) => EntityStep { state: next, rearm: true, effects, refusal: None },
        Err(why) => EntityStep { state, rearm: false, effects: Vec::new(), refusal: Some(why) },
    }
}

} // verus!
