//! The hive bot's user life cycle: a user is idle (remembering a summary of
//! the last conversation and when it ended), waits for the model's decision,
//! or waits for a tool. The decisions are here; the runner performs the
//! model calls and tool runs they ask for and hands back what came of them.

use vstd::prelude::*;
use crate::hive_user::ToolCall;
use crate::text::owned;

verus! {

/// How long an idle user's conversation is remembered before the bot says
/// goodbye (milliseconds).
pub const HIVE_IDLE_TIMEOUT_MS: i64 = 300_000;

/// How long a user may wait on the model or a tool before being reset
/// (milliseconds).
pub const HIVE_BUSY_TIMEOUT_MS: i64 = 120_000;

/// The message the model is given when a conversation times out.
pub const GOODBYE_PROMPT: &'static str = "User said goodbye, RESPOND WITH GOODBYE BUT MENTION RELEVANT THINGS ABOUT THE CONVERSATION";

/// The message the model is given to go on after a tool's result.
pub const CONTINUE_PROMPT: &'static str = "Continue conversation";

/// What the model decided, with the updated conversation summary beside it.
pub enum MessageOutcome {
    Final { response: String },
    IntermediateToolCall { maybe_intermediate_response: Option<String>, tool_call: ToolCall },
}

/// Where a hive user stands.
pub enum HiveUserState {
    /// Resting; the last conversation's summary and when it ended, if any is
    /// remembered.
    Idle(Option<(String, i64)>),
    AwaitingLLMDecision { is_timeout: bool, previous_tool_calls: Vec<String> },
    RunningTool { is_timeout: bool, summary: String, previous_tool_calls: Vec<String> },
}

/// A hive user and when it last moved (milliseconds since the Unix epoch).
pub struct HiveUser {
    pub state: HiveUserState,
    pub last_transition: i64,
}

/// What happens to a hive user.
pub enum HiveUserAction {
    ForceReset,
    NewMessage { msg: String, start_conversation: bool },
    Timeout,
    LLMDecisionResult(Result<(String, MessageOutcome), String>),
    ToolResult(Result<String, String>),
}

/// The outside work a move asks for.
pub enum HiveEffect {
    /// Ask the model about `msg`, given the summary and the tool results so far.
    GetDecision { msg: String, summary: String, previous_tool_calls: Vec<String> },
    /// Run the tool.
    ExecuteTool(ToolCall),
}

/// Model of a hive tool call: the place whose weather is asked for.
pub open spec fn tool_view(c: ToolCall) -> Seq<char> {
    match c {
        ToolCall::GetWeather { location } => location@,
    }
}

/// Model of a [`HiveUserState`].
pub enum HiveUserStateView {
    Idle(Option<(Seq<char>, i64)>),
    AwaitingLLMDecision { is_timeout: bool, previous_tool_calls: Seq<Seq<char>> },
    RunningTool { is_timeout: bool, summary: Seq<char>, previous_tool_calls: Seq<Seq<char>> },
}

/// Model of a [`HiveUser`].
pub struct HiveUserView {
    pub state: HiveUserStateView,
    pub last_transition: i64,
}

/// Model of a [`HiveEffect`].
pub enum HiveEffectView {
    GetDecision { msg: Seq<char>, summary: Seq<char>, previous_tool_calls: Seq<Seq<char>> },
    ExecuteTool(Seq<char>),
}

impl DeepView for HiveUserState {
    type V = HiveUserStateView;

    open spec fn deep_view(&self) -> HiveUserStateView {
        match self {
            HiveUserState::Idle(None) => HiveUserStateView::Idle(None),
            HiveUserState::Idle(Some((s, at))) => HiveUserStateView::Idle(Some((s@, *at))),
            HiveUserState::AwaitingLLMDecision { is_timeout, previous_tool_calls } =>
                HiveUserStateView::AwaitingLLMDecision { is_timeout: *is_timeout, previous_tool_calls: previous_tool_calls.deep_view() },
            HiveUserState::RunningTool { is_timeout, summary, previous_tool_calls } => HiveUserStateView::RunningTool {
                is_timeout: *is_timeout,
                summary: summary@,
                previous_tool_calls: previous_tool_calls.deep_view(),
            },
        }
    }
}

impl DeepView for HiveUser {
    type V = HiveUserView;

    open spec fn deep_view(&self) -> HiveUserView {
        HiveUserView { state: self.state.deep_view(), last_transition: self.last_transition }
    }
}

impl DeepView for HiveEffect {
    type V = HiveEffectView;

    open spec fn deep_view(&self) -> HiveEffectView {
        match self {
            HiveEffect::GetDecision { msg, summary, previous_tool_calls } =>
                HiveEffectView::GetDecision { msg: msg@, summary: summary@, previous_tool_calls: previous_tool_calls.deep_view() },
            HiveEffect::ExecuteTool(c) => HiveEffectView::ExecuteTool(tool_view(*c)),
        }
    }
}

/// A user in `state`, moved at `now`.
pub open spec fn hive_moved(state: HiveUserStateView, now: i64) -> HiveUserView {
    HiveUserView { state, last_transition: now }
}

/// One step of a hive user at time `now`:
/// - a forced reset always rests the user, forgetting the conversation;
/// - an idle user's message that starts a conversation asks the model, with
///   the remembered summary (or none);
/// - a final answer rests the user, remembering the summary unless the turn
///   was the goodbye; a tool call runs the tool, keeping the summary; a failed
///   decision rests the user, forgetting;
/// - a tool's result asks the model to go on, with that result added to the
///   ones so far; a failed tool rests the user, forgetting;
/// - an idle user with a remembered conversation that times out is said
///   goodbye to;
/// - anything else is refused.
pub open spec fn hive_transition_view(u: HiveUserView, a: HiveUserAction, now: i64) -> Result<(HiveUserView, Seq<HiveEffectView>), Seq<char>> {
    match (u.state, a) {
        (_, HiveUserAction::ForceReset) => Ok((hive_moved(HiveUserStateView::Idle(None), now), Seq::empty())),
        (HiveUserStateView::Idle(last), HiveUserAction::NewMessage { msg, start_conversation: true }) => Ok((
            hive_moved(HiveUserStateView::AwaitingLLMDecision { is_timeout: false, previous_tool_calls: Seq::empty() }, now),
            seq![HiveEffectView::GetDecision {
                msg: msg@,
                summary: match last { Some((s, _)) => s, None => Seq::empty() },
                previous_tool_calls: Seq::empty(),
            }],
        )),
        (HiveUserStateView::AwaitingLLMDecision { is_timeout, previous_tool_calls }, HiveUserAction::LLMDecisionResult(res)) => match res {
            Ok((summary, MessageOutcome::Final { .. })) => Ok((
                hive_moved(HiveUserStateView::Idle(if is_timeout { None } else { Some((summary@, now)) }), now),
                Seq::empty(),
            )),
            Ok((summary, MessageOutcome::IntermediateToolCall { tool_call, .. })) => Ok((
                hive_moved(HiveUserStateView::RunningTool { is_timeout, summary: summary@, previous_tool_calls }, now),
                seq![HiveEffectView::ExecuteTool(tool_view(tool_call))],
            )),
            Err(_) => Ok((hive_moved(HiveUserStateView::Idle(None), now), Seq::empty())),
        },
        (HiveUserStateView::RunningTool { is_timeout, summary, previous_tool_calls }, HiveUserAction::ToolResult(res)) => match res {
            Ok(result) => Ok((
                hive_moved(HiveUserStateView::AwaitingLLMDecision { is_timeout, previous_tool_calls: previous_tool_calls.push(result@) }, now),
                seq![HiveEffectView::GetDecision {
                    msg: CONTINUE_PROMPT@,
                    summary,
                    previous_tool_calls: previous_tool_calls.push(result@),
                }],
            )),
            Err(_) => Ok((hive_moved(HiveUserStateView::Idle(None), now), Seq::empty())),
        },
        (HiveUserStateView::Idle(Some((summary, _))), HiveUserAction::Timeout) => Ok((
            hive_moved(HiveUserStateView::AwaitingLLMDecision { is_timeout: true, previous_tool_calls: Seq::empty() }, now),
            seq![HiveEffectView::GetDecision { msg: GOODBYE_PROMPT@, summary, previous_tool_calls: Seq::empty() }],
        )),
        _ => Err("Invalid state or action"@),
    }
}

fn clone_tool(c: &ToolCall) -> (r: ToolCall)
    ensures
        tool_view(r) == tool_view(*c),
{
    match c {
        ToolCall::GetWeather { location } => ToolCall::GetWeather { location: location.clone() },
    }
}

fn clone_strings(v: &Vec<String>) -> (r: Vec<String>)
    ensures
        r.deep_view() == v.deep_view(),
{
    let r = v.clone();
    assert(r.deep_view() =~= v.deep_view());
    r
}

fn awaiting(is_timeout: bool, previous_tool_calls: Vec<String>, now: i64) -> (r: HiveUser)
    ensures
        r.deep_view() == hive_moved(
            HiveUserStateView::AwaitingLLMDecision { is_timeout, previous_tool_calls: previous_tool_calls.deep_view() },
            now,
        ),
{
    HiveUser { state: HiveUserState::AwaitingLLMDecision { is_timeout, previous_tool_calls }, last_transition: now }
}

fn resting(now: i64) -> (r: HiveUser)
    ensures
        r.deep_view() == hive_moved(HiveUserStateView::Idle(None), now),
{
    HiveUser { state: HiveUserState::Idle(None), last_transition: now }
}

/// One step of a hive user at time `now` (see [`hive_transition_view`]).
pub fn hive_user_transition(user: &HiveUser, action: &HiveUserAction, now: i64) -> (r: Result<(HiveUser, Vec<HiveEffect>), String>)
    ensures
        match hive_transition_view(user.deep_view(), *action, now) {
            Ok((u, e)) => r matches Ok(p) && p.0.deep_view() == u && p.1.deep_view() == e,
            Err(m) => r matches Err(rm) && rm@ == m,
        },
{
    if let HiveUserAction::ForceReset = action {
        let e: Vec<HiveEffect> = Vec::new();
        assert(e.deep_view() =~= Seq::<HiveEffectView>::empty());
        return Ok((resting(now), e));
    }
    match (&user.state, action) {
        (HiveUserState::Idle(last), HiveUserAction::NewMessage { msg, start_conversation: true }) => {
            let summary = match last {
                Some((s, _)) => s.clone(),
                None => String::new(),
            };
            assert(summary@ == match user.deep_view().state {
                HiveUserStateView::Idle(Some((s, _))) => s,
                _ => Seq::<char>::empty(),
            });
            let none: Vec<String> = Vec::new();
            assert(none.deep_view() =~= Seq::<Seq<char>>::empty());
            let e = vec![HiveEffect::GetDecision { msg: msg.clone(), summary, previous_tool_calls: none }];
            let none2: Vec<String> = Vec::new();
            assert(none2.deep_view() =~= Seq::<Seq<char>>::empty());
            let u = awaiting(false, none2, now);
            assert(e.deep_view() =~= hive_transition_view(user.deep_view(), *action, now)->Ok_0.1);
            assert(u.deep_view() =~= hive_transition_view(user.deep_view(), *action, now)->Ok_0.0);
            Ok((u, e))
        },
        (HiveUserState::AwaitingLLMDecision { is_timeout, previous_tool_calls }, HiveUserAction::LLMDecisionResult(res)) => match res {
            Ok((summary, MessageOutcome::Final { .. })) => {
                let state = if *is_timeout { HiveUserState::Idle(None) } else { HiveUserState::Idle(Some((summary.clone(), now))) };
                let e: Vec<HiveEffect> = Vec::new();
                assert(e.deep_view() =~= Seq::<HiveEffectView>::empty());
                Ok((HiveUser { state, last_transition: now }, e))
            },
            Ok((summary, MessageOutcome::IntermediateToolCall { tool_call, .. })) => {
                let u = HiveUser {
                    state: HiveUserState::RunningTool {
                        is_timeout: *is_timeout,
                        summary: summary.clone(),
                        previous_tool_calls: clone_strings(previous_tool_calls),
                    },
                    last_transition: now,
                };
                let e = vec![HiveEffect::ExecuteTool(clone_tool(tool_call))];
                assert(e.deep_view() =~= seq![HiveEffectView::ExecuteTool(tool_view(*tool_call))]);
                Ok((u, e))
            },
            Err(_) => {
                let e: Vec<HiveEffect> = Vec::new();
                assert(e.deep_view() =~= Seq::<HiveEffectView>::empty());
                Ok((resting(now), e))
            },
        },
        (HiveUserState::RunningTool { is_timeout, summary, previous_tool_calls }, HiveUserAction::ToolResult(res)) => match res {
            Ok(result) => {
                let mut calls = clone_strings(previous_tool_calls);
                let ghost before = calls.deep_view();
                calls.push(result.clone());
                assert(calls.deep_view() =~= before.push(result@));
                let e = vec![HiveEffect::GetDecision {
                    msg: owned(CONTINUE_PROMPT),
                    summary: summary.clone(),
                    previous_tool_calls: clone_strings(&calls),
                }];
                let u = awaiting(*is_timeout, calls, now);
                assert(e.deep_view() =~= hive_transition_view(user.deep_view(), *action, now)->Ok_0.1);
                Ok((u, e))
            },
            Err(_) => {
                let e: Vec<HiveEffect> = Vec::new();
                assert(e.deep_view() =~= Seq::<HiveEffectView>::empty());
                Ok((resting(now), e))
            },
        },
        (HiveUserState::Idle(Some((summary, _))), HiveUserAction::Timeout) => {
            let none: Vec<String> = Vec::new();
            assert(none.deep_view() =~= Seq::<Seq<char>>::empty());
            let e = vec![HiveEffect::GetDecision { msg: owned(GOODBYE_PROMPT), summary: summary.clone(), previous_tool_calls: none }];
            let none2: Vec<String> = Vec::new();
            assert(none2.deep_view() =~= Seq::<Seq<char>>::empty());
            let u = awaiting(true, none2, now);
            assert(e.deep_view() =~= hive_transition_view(user.deep_view(), *action, now)->Ok_0.1);
            assert(u.deep_view() =~= hive_transition_view(user.deep_view(), *action, now)->Ok_0.0);
            Ok((u, e))
        },
        _ => Err(owned("Invalid state or action")),
    }
}

/// The wakeup a hive user schedules: a timeout when its remembered
/// conversation has rested [`HIVE_IDLE_TIMEOUT_MS`]; a reset when it has
/// waited [`HIVE_BUSY_TIMEOUT_MS`] on the model or a tool; none when it rests
/// with nothing remembered.
pub open spec fn hive_schedule_view(u: HiveUserView) -> Option<(int, bool)> {
    match u.state {
        HiveUserStateView::Idle(Some((_, at))) => Some((at + HIVE_IDLE_TIMEOUT_MS, true)),
        HiveUserStateView::Idle(None) => None,
        _ => Some((u.last_transition + HIVE_BUSY_TIMEOUT_MS, false)),
    }
}

/// The wakeup a hive user schedules (see [`hive_schedule_view`]): when, and
/// whether it is the timeout (else the forced reset); `None` when the time
/// does not fit.
pub fn hive_schedule(user: &HiveUser) -> (r: Option<crate::framework::Scheduled<HiveUserAction>>)
    ensures
        match hive_schedule_view(user.deep_view()) {
            Some((at, timeout)) => if i64::MIN <= at <= i64::MAX {
                r matches Some(s) && s.at == at && (if timeout { s.action is Timeout } else { s.action is ForceReset })
            } else {
                r is None
            },
            None => r is None,
        },
{
    match &user.state {
        HiveUserState::Idle(Some((_, at))) => match at.checked_add(HIVE_IDLE_TIMEOUT_MS) {
            Some(t) => Some(crate::framework::Scheduled { at: t, action: HiveUserAction::Timeout }),
            None => None,
        },
        HiveUserState::Idle(None) => None,
        _ => match user.last_transition.checked_add(HIVE_BUSY_TIMEOUT_MS) {
            Some(t) => Some(crate::framework::Scheduled { at: t, action: HiveUserAction::ForceReset }),
            None => None,
        },
    }
}

/// A user who waits on the model or a tool always has a reset scheduled, and
/// one who rests with nothing remembered has nothing scheduled.
pub proof fn law_busy_hive_user_is_reset(u: HiveUserView)
    ensures
        (u.state is AwaitingLLMDecision || u.state is RunningTool) ==> hive_schedule_view(u) == Some((u.last_transition + HIVE_BUSY_TIMEOUT_MS, false)),
        u.state == HiveUserStateView::Idle(None) ==> hive_schedule_view(u) is None,
{
}

/// A forced reset always rests the user with nothing remembered, whatever
/// state it was in.
pub proof fn law_hive_reset_forgets(u: HiveUserView, now: i64)
    ensures
        hive_transition_view(u, HiveUserAction::ForceReset, now)
            == Ok::<(HiveUserView, Seq<HiveEffectView>), Seq<char>>((hive_moved(HiveUserStateView::Idle(None), now), Seq::empty())),
{
}

} // verus!
