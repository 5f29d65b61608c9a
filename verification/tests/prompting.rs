use chatbot::chat_format::ChatRole;
use chatbot::conversation::{
    ConversationMessage, HistoryEntry, HistoryEntryKind, HistoryId, InterruptionReason, LLMInput, LLMResponse,
    Platform, RecentConversation, Reply, SystemMessage, ToolCall, ToolResult, ToolResultData, ToolType,
    ConversationAction,
};
use chatbot::media::{Image, MessageImage};
use chatbot::prompting::{budget_note, build_conversation, decision_of, offered_tools, session_footer_at};
use chatbot::roles::{ParsedResponse, ParsedToolCall};

fn message(text: &str) -> ConversationMessage {
    ConversationMessage {
        text: text.to_string(),
        queued: false,
        user_id: "1".to_string(),
        name: "Ann".to_string(),
        attachments: vec![],
    }
}

#[test]
fn budget_notes_escalate() {
    assert_eq!(budget_note(0, 10), None);
    assert_eq!(budget_note(4, 10), None);
    assert!(budget_note(5, 10).unwrap().starts_with("[Tool budget: 5/10 used — if your current approach"));
    assert!(budget_note(8, 10).unwrap().starts_with("[Tool budget: 8/10 used — you're running low."));
    assert!(budget_note(10, 10).unwrap().starts_with("[Tool budget exhausted"));
    assert_eq!(budget_note(3, 0), None);
}

#[test]
fn footer_lists_its_lines() {
    let f = session_footer_at(true, "bot#1", &Platform::Discord, 10, 10, "2024-01-01 00:00:00 UTC");
    let lines: Vec<&str> = f.split('\n').collect();
    assert_eq!(lines[0], "=== SYSTEM GENERATED CONVERSATION METADATA FOOTER ===");
    assert_eq!(lines[1], "Your username in this conversation: bot#1. Respond to both this name and Terminal Alpha Beta");
    assert_eq!(lines[2], "Setting: GROUP CHAT (multiple participants)");
    assert_eq!(lines[3], "Current time: 2024-01-01 00:00:00 UTC");
    assert!(lines[4].starts_with("Platform: Discord"));
    assert!(lines[5].starts_with("[Tool budget exhausted"));
    assert!(lines.last().unwrap().starts_with("Reminders: in a group you default to silence"));
    assert_eq!(lines.len(), 10);
    let dm = session_footer_at(false, "b", &Platform::Telegram, 0, 10, "t");
    assert_eq!(dm.split('\n').count(), 8);
}

#[test]
fn replies_are_classified() {
    let parsed = |content: &str, calls: Vec<ParsedToolCall>| ParsedResponse {
        reasoning: "r".to_string(),
        content: content.to_string(),
        tool_calls: calls,
    };
    let r = LLMResponse::from_parsed(parsed("hi", vec![])).ok().unwrap();
    assert!(matches!(r.reply, Reply::Said(ref t) if t == "hi"));
    let r = LLMResponse::from_parsed(parsed("[empty]", vec![])).ok().unwrap();
    assert!(matches!(r.reply, Reply::Empty));
    let r = LLMResponse::from_parsed(parsed("", vec![])).ok().unwrap();
    assert!(matches!(r.reply, Reply::Malformed));
    let call = ParsedToolCall { name: "web_search".to_string(), arguments: "{\"query\":\"x\"}".to_string() };
    let r = LLMResponse::from_parsed(parsed("", vec![call])).ok().unwrap();
    assert!(matches!(r.reply, Reply::Empty));
    assert_eq!(r.tool_calls[0].id, "call_0");
    let bad = ParsedToolCall { name: "nope".to_string(), arguments: "{}".to_string() };
    assert_eq!(
        LLMResponse::from_parsed(parsed("x", vec![bad])).err().unwrap(),
        "model called an unknown tool: nope"
    );
}

#[test]
fn decisions_map_failures_to_reasons() {
    let bad = ParsedResponse {
        reasoning: String::new(),
        content: String::new(),
        tool_calls: vec![ParsedToolCall { name: "nope".to_string(), arguments: String::new() }],
    };
    assert!(matches!(
        decision_of(Ok(bad)),
        ConversationAction::LLMDecisionResult(Err(InterruptionReason::MalformedToolCall))
    ));
    assert!(matches!(
        decision_of(Err("boom".to_string())),
        ConversationAction::LLMDecisionResult(Err(InterruptionReason::Failed))
    ));
}

#[test]
fn replayed_turns_show_calls_and_markers() {
    let call = ToolCall { id: "call_0".to_string(), tool_type: ToolType::VisitUrl { url: "https://x".to_string() } };
    let response = LLMResponse { thoughts: String::new(), reply: Reply::Empty, tool_calls: vec![call] };
    let m = response.to_chat_message();
    assert!(matches!(m.role, ChatRole::Assistant));
    assert_eq!(m.content, "");
    assert_eq!(m.tool_calls[0].function.name, "visit_url");
    let silent = LLMResponse { thoughts: String::new(), reply: Reply::Empty, tool_calls: vec![] };
    assert_eq!(silent.to_chat_message().content, "[EMPTY]");
}

#[test]
fn tool_results_feed_images_with_markers() {
    let image = MessageImage::Hydrated(Image { bytes: vec![1, 2, 3], mime: "image/png".to_string() });
    let result = ToolResult {
        call: ToolCall { id: "c1".to_string(), tool_type: ToolType::ViewImage { path: "/p".to_string() } },
        data: ToolResultData {
            actual: "full".to_string(),
            simplified: "short".to_string(),
            image_for_assistant: Some(image),
            metadata: vec![],
        },
    };
    let input = LLMInput::ToolResults(vec![result], Some(message("thanks")));
    let (msgs, media) = input.messages_and_media("<__media__>", true);
    assert_eq!(msgs.len(), 2);
    assert_eq!(msgs[0].content, "full\n<__media__>");
    assert_eq!(msgs[0].tool_call_id, Some("c1".to_string()));
    assert_eq!(msgs[1].content, "thanks");
    assert_eq!(media, vec![vec![1, 2, 3]]);
    let (short, _) = input.messages_and_media("<m>", false);
    assert_eq!(short[0].content, "short\n<m>");
    let batch = LLMInput::SystemMessage(vec![SystemMessage { note: "meds".to_string(), addressee: "Ann".to_string() }]);
    let (sys, none) = batch.messages_and_media("<m>", true);
    assert_eq!(sys[0].content, "[Reminder — IMPORTANT] For Ann: meds");
    assert!(none.is_empty());
}

#[test]
fn conversation_replays_history_then_live_input() {
    let history = vec![
        HistoryEntry { id: HistoryId(1), kind: HistoryEntryKind::Summary("earlier".to_string()) },
        HistoryEntry { id: HistoryId(2), kind: HistoryEntryKind::Input(LLMInput::ConversationMessage(message("hello"))) },
        HistoryEntry { id: HistoryId(3), kind: HistoryEntryKind::OutputInterrupted(InterruptionReason::TimedOut) },
    ];
    let recent = RecentConversation { thoughts: String::new(), history };
    let live = LLMInput::ConversationMessage(message("again"));
    let (msgs, footer, media) = build_conversation(&live, Some(recent), 0, 10, false, "bot", &Platform::Discord, "<m>");
    let contents: Vec<&str> = msgs.iter().map(|m| m.content.as_str()).collect();
    assert_eq!(
        contents,
        vec![
            "Summary of earlier conversation:\nearlier",
            "hello",
            "[Your previous turn timed out before it completed.]",
            "again",
        ]
    );
    assert!(footer.starts_with("=== SYSTEM GENERATED CONVERSATION METADATA FOOTER ==="));
    assert!(media.is_empty());
}

#[test]
fn tools_are_offered_while_the_budget_lasts() {
    assert_eq!(offered_tools(0, 10).unwrap().len(), 10);
    assert!(offered_tools(10, 10).is_none());
}

#[test]
fn the_offered_tools_are_the_tool_definitions() {
    let offered = offered_tools(3, 10).unwrap();
    let defs = chatbot::conversation::ToolType::tool_definitions();
    assert_eq!(offered.len(), defs.len());
    for (o, d) in offered.iter().zip(defs.iter()) {
        assert_eq!(o.function.name, d.function.name);
        assert_eq!(o.function.description, d.function.description);
        assert_eq!(o.kind, "function");
    }
    assert_eq!(offered[0].function.name, "web_search");
}
