use chatbot::conversation::{
    ConversationAction, ConversationConstructor, ConversationId, ConversationState, HistoryEntryKind, HistoryId,
    InterruptionReason, LLMInput, LLMResponse, Platform, PostSend, Reply, ToolCall, ToolResultData, ToolType,
};
use chatbot::conversation_machine::{
    construct_conversation, conversation_schedule, transition_at, ConversationEffect, ConversationEnv, LLM_TIMEOUT_MS,
    SEND_TIMEOUT_MS,
};

fn env() -> ConversationEnv {
    ConversationEnv { announce_tool_use: true, utility_available: false }
}

fn id() -> ConversationId {
    ConversationId(Platform::Discord, "9".to_string())
}

fn fresh(n: u128) -> (HistoryId, HistoryId) {
    (HistoryId(n), HistoryId(n + 1))
}

fn message(text: &str) -> ConversationAction {
    ConversationAction::NewMessage {
        msg: text.to_string(),
        user_id: "7".to_string(),
        name: "Ann".to_string(),
        attachments: vec![],
    }
}

fn said(text: &str, tool_calls: Vec<ToolCall>) -> ConversationAction {
    ConversationAction::LLMDecisionResult(Ok(LLMResponse {
        thoughts: "thinking".to_string(),
        reply: Reply::Said(text.to_string()),
        tool_calls,
    }))
}

#[test]
fn a_turn_with_a_tool_call_runs_back_to_idle() {
    let c = construct_conversation(
        ConversationConstructor { id: id(), is_group: false, bot_identity: "Bot (id:1)".to_string() },
        1_000,
    );
    assert!(matches!(c.state, ConversationState::Idle { .. }));
    assert!(conversation_schedule(&c).is_none());

    // An idle conversation starts the model's turn at once.
    let (c, e) = transition_at(&env(), &id(), c, &message("Ann (id:7): hi"), 2_000, fresh(1)).ok().unwrap();
    assert!(matches!(c.state, ConversationState::AwaitingLLMDecision { tool_rounds: 0, .. }));
    assert!(c.pending.is_empty());
    assert_eq!(e.len(), 1);
    assert!(matches!(e[0], ConversationEffect::RequestDecision { tool_rounds: 0, max_tool_rounds: 10, .. }));
    assert_eq!(conversation_schedule(&c).unwrap().at, 2_000 + LLM_TIMEOUT_MS);

    // The model says something and calls a tool: the message goes out first.
    let call = ToolCall { id: "call_0".to_string(), tool_type: ToolType::WebSearch { query: "rust".to_string() } };
    let (c, e) = transition_at(&env(), &id(), c, &said("Looking it up", vec![call]), 3_000, fresh(3)).ok().unwrap();
    assert!(matches!(
        c.state,
        ConversationState::SendingMessage { post_send: PostSend::CallTools { tool_rounds: 0, .. }, .. }
    ));
    match &e[0] {
        ConversationEffect::SendMessage { outbound, .. } => {
            assert_eq!(outbound.message.as_deref(), Some("Looking it up"));
            assert_eq!(outbound.tool_names.len(), 1);
        }
        _ => panic!("expected a message to send"),
    }
    assert_eq!(conversation_schedule(&c).unwrap().at, 3_000 + SEND_TIMEOUT_MS);

    // Once it is sent the call is dispatched, with a rescue scheduled.
    let (c, e) = transition_at(&env(), &id(), c, &ConversationAction::MessageSent(Ok(())), 4_000, fresh(5)).ok().unwrap();
    match &c.state {
        ConversationState::RunningTools { tool_rounds, pending_tools, completed_tools, .. } => {
            assert_eq!(*tool_rounds, 1);
            assert_eq!(pending_tools.len(), 1);
            assert!(completed_tools.is_empty());
        }
        _ => panic!("expected tools to run"),
    }
    match &e[0] {
        ConversationEffect::ExecuteTool { conversation_key, tool_call, expected_file_hash } => {
            assert_eq!(conversation_key, "Discord_9");
            assert_eq!(tool_call.id, "call_0");
            assert!(expected_file_hash.is_none());
        }
        _ => panic!("expected a tool run"),
    }
    let rescue = conversation_schedule(&c).unwrap();
    assert_eq!(rescue.at, 4_000 + 60_000);
    assert!(matches!(rescue.action, ConversationAction::ToolResult { ref id, result: Err(_) } if id == "call_0"));

    // A message arriving meanwhile waits as a follow-up.
    let (c, e) = transition_at(&env(), &id(), c, &message("Ann (id:7): also this"), 4_500, fresh(7)).ok().unwrap();
    assert!(e.is_empty());
    assert_eq!(c.pending.len(), 1);
    assert!(c.pending[0].queued);

    // The result comes back: the model gets it with the follow-up.
    let data = ToolResultData::text("full results".to_string(), "results".to_string());
    let (c, e) = transition_at(
        &env(),
        &id(),
        c,
        &ConversationAction::ToolResult { id: "call_0".to_string(), result: Ok(data) },
        5_000,
        fresh(9),
    )
    .ok()
    .unwrap();
    assert!(c.pending.is_empty());
    match &c.state {
        ConversationState::AwaitingLLMDecision { tool_rounds, current_input, .. } => {
            assert_eq!(*tool_rounds, 1);
            match current_input {
                LLMInput::ToolResults(results, Some(followup)) => {
                    assert_eq!(results.len(), 1);
                    assert_eq!(results[0].data.actual, "full results");
                    assert_eq!(followup.text, "Ann (id:7): also this");
                }
                _ => panic!("expected tool results with the follow-up"),
            }
        }
        _ => panic!("expected the model's turn"),
    }
    assert!(matches!(e[0], ConversationEffect::RequestDecision { tool_rounds: 1, .. }));

    // The final answer is sent and the conversation rests.
    let (c, _) = transition_at(&env(), &id(), c, &said("Here it is", vec![]), 6_000, fresh(11)).ok().unwrap();
    let (c, e) = transition_at(&env(), &id(), c, &ConversationAction::MessageSent(Ok(())), 7_000, fresh(13)).ok().unwrap();
    assert!(e.is_empty());
    match &c.state {
        ConversationState::Idle { recent_conversation } => {
            assert_eq!(recent_conversation.history.len(), 4);
            assert!(matches!(recent_conversation.history[3].kind, HistoryEntryKind::Output(_)));
        }
        _ => panic!("expected to rest"),
    }
    assert!(conversation_schedule(&c).is_none());
}

#[test]
fn a_timed_out_decision_is_recorded_and_refusals_change_nothing() {
    let c = construct_conversation(
        ConversationConstructor { id: id(), is_group: true, bot_identity: "Bot (id:1)".to_string() },
        0,
    );
    let refused = transition_at(&env(), &id(), c.clone(), &ConversationAction::MessageSent(Ok(())), 1, fresh(1));
    assert!(refused.is_err());
    let (c, _) = transition_at(&env(), &id(), c, &message("x"), 1, fresh(1)).ok().unwrap();
    let (c, e) = transition_at(
        &env(),
        &id(),
        c,
        &ConversationAction::LLMDecisionResult(Err(InterruptionReason::TimedOut)),
        2,
        fresh(3),
    )
    .ok()
    .unwrap();
    assert!(e.is_empty());
    match &c.state {
        ConversationState::Idle { recent_conversation } => {
            assert_eq!(recent_conversation.history.len(), 1);
            assert!(matches!(
                recent_conversation.history[0].kind,
                HistoryEntryKind::OutputInterrupted(InterruptionReason::TimedOut)
            ));
        }
        _ => panic!("expected to rest"),
    }
}

fn reminder(note: &str) -> ConversationAction {
    ConversationAction::ReminderFired { note: note.to_string(), addressee: "Ann".to_string() }
}

#[test]
fn a_reminder_reaches_an_idle_conversation_at_once() {
    let c = construct_conversation(
        ConversationConstructor { id: id(), is_group: false, bot_identity: "Bot (id:1)".to_string() },
        0,
    );
    let (c, e) = transition_at(&env(), &id(), c, &reminder("take the meds"), 10, fresh(1)).ok().unwrap();
    assert!(c.pending_system.is_empty());
    match &c.state {
        ConversationState::AwaitingLLMDecision { current_input: LLMInput::SystemMessage(notes), tool_rounds: 0, .. } => {
            assert_eq!(notes.len(), 1);
            assert_eq!(notes[0].note, "take the meds");
            assert_eq!(notes[0].addressee, "Ann");
            assert_eq!(notes[0].to_content(), "[Reminder — IMPORTANT] For Ann: take the meds");
        }
        _ => panic!("expected the model's turn on the reminder"),
    }
    assert_eq!(e.len(), 1);
    assert!(matches!(&e[0], ConversationEffect::RequestDecision { input: LLMInput::SystemMessage(_), tool_rounds: 0, .. }));
    assert_eq!(c.last_transition, 10);
}

#[test]
fn a_reminder_waits_for_the_turn_to_end() {
    let c = construct_conversation(
        ConversationConstructor { id: id(), is_group: false, bot_identity: "Bot (id:1)".to_string() },
        0,
    );
    let (c, _) = transition_at(&env(), &id(), c, &message("Ann (id:7): hi"), 1, fresh(1)).ok().unwrap();
    // Busy: the note is kept, nothing else moves.
    let (c, e) = transition_at(&env(), &id(), c, &reminder("first"), 2, fresh(3)).ok().unwrap();
    assert!(e.is_empty());
    assert_eq!(c.last_transition, 1);
    assert!(matches!(c.state, ConversationState::AwaitingLLMDecision { .. }));
    let (c, _) = transition_at(&env(), &id(), c, &reminder("second"), 3, fresh(3)).ok().unwrap();
    assert_eq!(c.pending_system.len(), 2);
    // The turn ends: the notes, in order, become the next input.
    let (c, _) = transition_at(&env(), &id(), c, &said("Hello", vec![]), 4, fresh(5)).ok().unwrap();
    assert_eq!(c.pending_system.len(), 2);
    let (c, e) = transition_at(&env(), &id(), c, &ConversationAction::MessageSent(Ok(())), 5, fresh(7)).ok().unwrap();
    assert!(c.pending_system.is_empty());
    match &c.state {
        ConversationState::AwaitingLLMDecision { current_input: LLMInput::SystemMessage(notes), tool_rounds: 0, history } => {
            assert_eq!(notes.len(), 2);
            assert_eq!(notes[0].note, "first");
            assert_eq!(notes[1].note, "second");
            assert_eq!(history.len(), 2);
        }
        _ => panic!("expected the model's turn on the reminders"),
    }
    assert_eq!(e.len(), 1);
}

#[test]
fn tool_results_follow_the_calls_past_ten() {
    let c = construct_conversation(
        ConversationConstructor { id: id(), is_group: false, bot_identity: "Bot (id:1)".to_string() },
        0,
    );
    let (c, _) = transition_at(&env(), &id(), c, &message("Ann (id:7): look up a lot"), 1, fresh(1)).ok().unwrap();
    let calls: Vec<ToolCall> = (0..12)
        .map(|i| ToolCall { id: format!("call_{i}"), tool_type: ToolType::WebSearch { query: format!("q{i}") } })
        .collect();
    let (c, _) = transition_at(&env(), &id(), c, &said("", calls), 2, fresh(3)).ok().unwrap();
    let (mut c, e) = transition_at(&env(), &id(), c, &ConversationAction::MessageSent(Ok(())), 3, fresh(5)).ok().unwrap();
    assert_eq!(e.len(), 12);
    // Results come back in the opposite order.
    let mut last = Vec::new();
    for i in (0..12).rev() {
        let data = ToolResultData::text(format!("r{i}"), format!("r{i}"));
        let action = ConversationAction::ToolResult { id: format!("call_{i}"), result: Ok(data) };
        let (next, e) = transition_at(&env(), &id(), c, &action, 4, fresh(7)).ok().unwrap();
        c = next;
        last = e;
    }
    assert_eq!(last.len(), 1);
    match &c.state {
        ConversationState::AwaitingLLMDecision { current_input: LLMInput::ToolResults(results, None), .. } => {
            assert_eq!(results.len(), 12);
            for (i, r) in results.iter().enumerate() {
                assert_eq!(r.call.id, format!("call_{i}"));
                assert_eq!(r.data.actual, format!("r{i}"));
            }
        }
        _ => panic!("expected the results turn"),
    }
}
