use chatbot::conversation::{
    CompactionOutput, ConversationAction, ConversationId, HistoryId, InterruptionReason, Platform, ToolCall, ToolType,
};
use chatbot::memory_manager::{
    MemoryEffect, MemoryManager, MemoryManagerAction, MemoryManagerConstructor, MemoryManagerMachine, MemoryManagerState,
};
use chatbot::reminder::{
    ReminderAction, ReminderConstructor, ReminderForConversationId, ReminderForConversationMachine, ReminderId,
    ReminderState,
};
use chatbot::hive_life_cycle::{hive_schedule, hive_user_transition, HiveEffect, HiveUser, HiveUserAction, HiveUserState, MessageOutcome};
use chatbot::hive_user::ToolCall as HiveToolCall;
use chatbot::user::{
    schedule, take_pending, user_transition, HistoryEntry, LLMDecisionType, LLMInput, LLMResponse, RecentConversation,
    ToolResultData, User, UserAction, UserChannel, UserEffect, UserId, UserState,
};

fn conv() -> ConversationId {
    ConversationId(Platform::Discord, "42".to_string())
}

#[test]
fn memory_manager_compacts_one_at_a_time() {
    let idle = MemoryManagerMachine::construct_at(&MemoryManagerConstructor { id: conv() }, 5);
    assert_eq!(idle, MemoryManager { state: MemoryManagerState::Idle, last_transition: 5 });
    let (busy, effects) = MemoryManagerMachine::transition_at(&idle, &conv(), &MemoryManagerAction::Compact { history: vec![] }, 7).ok().unwrap();
    assert_eq!(busy.state, MemoryManagerState::Compacting);
    assert!(matches!(effects[0], MemoryEffect::Summarize { .. }));
    let again = MemoryManagerMachine::transition_at(&busy, &conv(), &MemoryManagerAction::Compact { history: vec![] }, 8);
    assert_eq!(again.err().unwrap(), "no transition for Compact in memory manager");
    let timeout = MemoryManagerMachine::schedule(&busy).unwrap();
    assert_eq!(timeout.at, 7 + 300_000);
    let out = CompactionOutput { summary: "s".to_string(), through: HistoryId(3) };
    let (back, effects) = MemoryManagerMachine::transition_at(&busy, &conv(), &MemoryManagerAction::CompactionDone(Ok(out)), 9).ok().unwrap();
    assert_eq!(back.state, MemoryManagerState::Idle);
    match &effects[0] {
        MemoryEffect::Deliver { action: ConversationAction::CompactionResult(Ok(o)), .. } => assert_eq!(o.summary, "s"),
        _ => panic!("expected delivery"),
    }
    assert!(MemoryManagerMachine::schedule(&back).is_none());
    let err = MemoryManagerMachine::transition_at(&back, &conv(), &MemoryManagerAction::CompactionDone(Err(InterruptionReason::Failed)), 10);
    assert_eq!(err.err().unwrap(), "no transition for CompactionDone(err) in memory manager");
}

#[test]
fn reminders_fire_once() {
    let id = ReminderForConversationId { conversation_id: conv(), reminder_id: ReminderId(1) };
    assert_eq!(id.get_id_string(), "Discord_42__00000000-0000-0000-0000-000000000001");
    let c = ReminderConstructor { id, user_id: "7".to_string(), name: "Ann".to_string(), note: "meds".to_string(), delay_seconds: 60 };
    let r = ReminderForConversationMachine::construct_at(c, 1_000);
    assert_eq!(r.fire_at, 61_000);
    let s = ReminderForConversationMachine::schedule(&r).unwrap();
    assert_eq!(s.at, 61_000);
    assert_eq!(s.action, ReminderAction::Fire);
    let (fired, effects) = ReminderForConversationMachine::transition(&r, &ReminderAction::Fire).ok().unwrap();
    assert_eq!(fired.state, ReminderState::Fired);
    match &effects[0].action {
        ConversationAction::ReminderFired { note, addressee } => {
            assert_eq!(note, "meds");
            assert_eq!(addressee, "Ann");
        }
        _ => panic!("expected reminder"),
    }
    assert!(ReminderForConversationMachine::schedule(&fired).is_none());
    assert_eq!(
        ReminderForConversationMachine::transition(&fired, &ReminderAction::Fire).err().unwrap(),
        "no transition for Fire in reminder"
    );
}

fn uid() -> UserId {
    UserId(UserChannel::Discord, "9".to_string())
}

fn idle(pending: Vec<String>) -> User {
    User { pending, state: UserState::Idle { recent_conversation: None }, last_transition: 0 }
}

#[test]
fn user_ids_render_with_their_channel() {
    assert_eq!(uid().to_string(), "Discord_9");
    assert_eq!(UserChannel::Telegram.to_string(), "Telegram");
}

#[test]
fn idle_users_turn_messages_into_a_turn() {
    let (u, e) = user_transition(false, &uid(), idle(vec![]), &UserAction::NewMessage { msg: "hi".to_string(), start_conversation: true }, 3).ok().unwrap();
    match &u.state {
        UserState::AwaitingLLMDecision { current_input: LLMInput::UserMessage(m), tool_rounds: 0, .. } => assert_eq!(m, "hi"),
        _ => panic!("expected a turn"),
    }
    assert!(u.pending.is_empty());
    assert_eq!(e.len(), 1);
    let (quiet, none) = user_transition(false, &uid(), idle(vec![]), &UserAction::NewMessage { msg: "x".to_string(), start_conversation: false }, 3).ok().unwrap();
    assert!(matches!(quiet.state, UserState::Idle { recent_conversation: None }));
    assert!(quiet.pending.is_empty() && none.is_empty());
}

#[test]
fn tool_batches_wait_for_every_result() {
    let call = |id: &str| ToolCall { id: id.to_string(), tool_type: ToolType::WebSearch { query: id.to_string() } };
    let awaiting = User {
        pending: vec![],
        state: UserState::AwaitingLLMDecision {
            is_timeout: false,
            history: vec![],
            current_input: LLMInput::UserMessage("go".to_string()),
            tool_rounds: 0,
        },
        last_transition: 0,
    };
    let response = LLMResponse {
        thoughts: "t".to_string(),
        output: LLMDecisionType::IntermediateToolCall { tool_calls: vec![call("b"), call("a")] },
    };
    let (running, effects) = user_transition(true, &uid(), awaiting, &UserAction::LLMDecisionResult(Ok(response)), 1).ok().unwrap();
    match &effects[0] {
        UserEffect::SendMessage { message } => assert_eq!(message, "Using tool: web_search\nUsing tool: web_search"),
        _ => panic!("expected the notice"),
    }
    let (running, effects) = user_transition(true, &uid(), running, &UserAction::MessageSent(Ok(())), 2).ok().unwrap();
    assert_eq!(effects.len(), 2);
    let data = |s: &str| ToolResultData { actual: s.to_string(), simplified: s.to_string() };
    let (running, none) = user_transition(true, &uid(), running, &UserAction::ToolResult { id: "b".to_string(), result: Ok(data("B")) }, 3).ok().unwrap();
    assert!(none.is_empty());
    let (next, effects) = user_transition(true, &uid(), running, &UserAction::ToolResult { id: "a".to_string(), result: Err("down".to_string()) }, 4).ok().unwrap();
    match &next.state {
        UserState::AwaitingLLMDecision { current_input: LLMInput::ToolResults(results, None), tool_rounds: 1, .. } => {
            assert_eq!(results[0].id, "a");
            assert_eq!(results[0].data.actual, "Tool execution failed: down");
            assert_eq!(results[1].id, "b");
        }
        _ => panic!("expected the results turn"),
    }
    assert_eq!(effects.len(), 1);
}

#[test]
fn idle_conversations_are_committed_and_said_goodbye_to() {
    let recent = RecentConversation { thoughts: String::new(), history: vec![HistoryEntry::Input(LLMInput::UserMessage("x".to_string()))] };
    let user = User { pending: vec![], state: UserState::Idle { recent_conversation: Some((recent, 100)) }, last_transition: 100 };
    let s = schedule(&user);
    assert_eq!(s[0].at, 300_100);
    assert!(matches!(s[0].action, UserAction::Timeout));
    let (committing, effects) = user_transition(false, &uid(), user, &UserAction::Timeout, 300_100).ok().unwrap();
    assert!(matches!(committing.state, UserState::CommitingToMemory { .. }));
    match &effects[0] {
        UserEffect::CommitToMemory { user_key, history } => {
            assert_eq!(user_key, "Discord_9");
            assert_eq!(history.len(), 1);
        }
        _ => panic!("expected commit"),
    }
    let (bye, _) = user_transition(false, &uid(), committing, &UserAction::CommitResult(Ok(())), 300_200).ok().unwrap();
    match bye.state {
        UserState::AwaitingLLMDecision { is_timeout: true, current_input: LLMInput::UserMessage(m), .. } => {
            assert!(m.starts_with("User said goodbye"))
        }
        _ => panic!("expected goodbye turn"),
    }
    assert_eq!(
        user_transition(false, &uid(), idle(vec![]), &UserAction::Timeout, 1).err().unwrap(),
        "Invalid state or action"
    );
}

#[test]
fn pending_messages_drain_joined() {
    let mut p = vec!["a".to_string(), "b".to_string()];
    assert_eq!(take_pending(&mut p), Some("a\nb".to_string()));
    assert!(p.is_empty());
    assert_eq!(take_pending(&mut p), None);
}

#[test]
fn busy_users_are_reset_in_time() {
    let (busy, _) = user_transition(false, &uid(), idle(vec![]), &UserAction::NewMessage { msg: "hi".to_string(), start_conversation: true }, 3).ok().unwrap();
    let wake = schedule(&busy);
    assert_eq!(wake.len(), 1);
    assert_eq!(wake[0].at, 3 + 600_000);
    assert!(matches!(wake[0].action, UserAction::ForceReset));
    let (reset, effects) = user_transition(false, &uid(), busy, &UserAction::ForceReset, 9).ok().unwrap();
    assert!(matches!(reset.state, UserState::Idle { recent_conversation: None }));
    assert!(reset.pending.is_empty() && effects.is_empty());
    assert_eq!(reset.last_transition, 9);
    assert!(schedule(&reset).is_empty());
}

#[test]
fn results_follow_the_calls_past_ten() {
    let call = |i: usize| ToolCall { id: format!("call_{i}"), tool_type: ToolType::WebSearch { query: format!("q{i}") } };
    let awaiting = User {
        pending: vec![],
        state: UserState::AwaitingLLMDecision {
            is_timeout: false,
            history: vec![],
            current_input: LLMInput::UserMessage("go".to_string()),
            tool_rounds: 0,
        },
        last_transition: 0,
    };
    let response = LLMResponse {
        thoughts: "t".to_string(),
        output: LLMDecisionType::IntermediateToolCall { tool_calls: (0..12).map(call).collect() },
    };
    let (running, _) = user_transition(true, &uid(), awaiting, &UserAction::LLMDecisionResult(Ok(response)), 1).ok().unwrap();
    let (mut running, effects) = user_transition(true, &uid(), running, &UserAction::MessageSent(Ok(())), 2).ok().unwrap();
    assert_eq!(effects.len(), 12);
    let data = |s: String| ToolResultData { actual: s.clone(), simplified: s };
    for i in [11usize, 2, 10, 0, 1, 9, 3, 8, 4, 7, 5, 6] {
        let action = UserAction::ToolResult { id: format!("call_{i}"), result: Ok(data(format!("r{i}"))) };
        running = user_transition(true, &uid(), running, &action, 3).ok().unwrap().0;
    }
    match &running.state {
        UserState::AwaitingLLMDecision { current_input: LLMInput::ToolResults(results, None), .. } => {
            assert_eq!(results.len(), 12);
            for (i, r) in results.iter().enumerate() {
                assert_eq!(r.id, format!("call_{i}"));
                assert_eq!(r.data.actual, format!("r{i}"));
            }
        }
        _ => panic!("expected the results turn"),
    }
}

#[test]
fn reminders_are_set_from_the_clock() {
    let id = ReminderForConversationId { conversation_id: conv(), reminder_id: ReminderId(2) };
    let c = ReminderConstructor { id, user_id: "7".to_string(), name: "Ann".to_string(), note: "call".to_string(), delay_seconds: 90 };
    let r = ReminderForConversationMachine::construct(c).unwrap();
    assert_eq!(r.fire_at - r.created_on, 90_000);
    assert_eq!(r.state, ReminderState::Pending);
    let id = ReminderForConversationId { conversation_id: conv(), reminder_id: ReminderId(3) };
    let far = ReminderConstructor { id, user_id: "7".to_string(), name: "Ann".to_string(), note: "x".to_string(), delay_seconds: i64::MAX / 1000 };
    assert!(ReminderForConversationMachine::construct(far).is_none());
}

#[test]
fn hive_users_ask_run_tools_and_rest() {
    let idle = HiveUser { state: HiveUserState::Idle(None), last_transition: 0 };
    assert!(hive_schedule(&idle).is_none());
    let quiet = hive_user_transition(&idle, &HiveUserAction::NewMessage { msg: "hi".to_string(), start_conversation: false }, 1);
    assert_eq!(quiet.err().unwrap(), "Invalid state or action");
    let (asking, e) = hive_user_transition(&idle, &HiveUserAction::NewMessage { msg: "hi".to_string(), start_conversation: true }, 1).ok().unwrap();
    match &e[0] {
        HiveEffect::GetDecision { msg, summary, previous_tool_calls } => {
            assert_eq!(msg, "hi");
            assert_eq!(summary, "");
            assert!(previous_tool_calls.is_empty());
        }
        _ => panic!("expected a decision"),
    }
    assert_eq!(hive_schedule(&asking).unwrap().at, 1 + 120_000);
    let tool = MessageOutcome::IntermediateToolCall {
        maybe_intermediate_response: None,
        tool_call: HiveToolCall::GetWeather { location: "Oslo".to_string() },
    };
    let (running, e) = hive_user_transition(&asking, &HiveUserAction::LLMDecisionResult(Ok(("s1".to_string(), tool))), 2).ok().unwrap();
    assert!(matches!(&e[0], HiveEffect::ExecuteTool(HiveToolCall::GetWeather { location }) if location == "Oslo"));
    let (asking, e) = hive_user_transition(&running, &HiveUserAction::ToolResult(Ok("sunny".to_string())), 3).ok().unwrap();
    match &e[0] {
        HiveEffect::GetDecision { msg, summary, previous_tool_calls } => {
            assert_eq!(msg, "Continue conversation");
            assert_eq!(summary, "s1");
            assert_eq!(previous_tool_calls, &vec!["sunny".to_string()]);
        }
        _ => panic!("expected a decision"),
    }
    let fin = MessageOutcome::Final { response: "It is sunny".to_string() };
    let (rest, e) = hive_user_transition(&asking, &HiveUserAction::LLMDecisionResult(Ok(("s2".to_string(), fin))), 4).ok().unwrap();
    assert!(e.is_empty());
    assert!(matches!(&rest.state, HiveUserState::Idle(Some((s, 4))) if s == "s2"));
    let wake = hive_schedule(&rest).unwrap();
    assert_eq!(wake.at, 4 + 300_000);
    assert!(matches!(wake.action, HiveUserAction::Timeout));
    let (bye, e) = hive_user_transition(&rest, &HiveUserAction::Timeout, 5).ok().unwrap();
    assert!(matches!(&e[0], HiveEffect::GetDecision { msg, .. } if msg.starts_with("User said goodbye")));
    let fin = MessageOutcome::Final { response: "Bye".to_string() };
    let (done, _) = hive_user_transition(&bye, &HiveUserAction::LLMDecisionResult(Ok(("s3".to_string(), fin))), 6).ok().unwrap();
    assert!(matches!(done.state, HiveUserState::Idle(None)));
    let (reset, e) = hive_user_transition(&running, &HiveUserAction::ForceReset, 7).ok().unwrap();
    assert!(matches!(reset.state, HiveUserState::Idle(None)) && e.is_empty());
}
