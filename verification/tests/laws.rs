use chatbot::chat_format::ArgValue;
use chatbot::conversation::{LLMResponse, Reply, ToolCall, ToolType};
use chatbot::messaging::{extract_attach_paths, split_for_discord};
use chatbot::numeric::{parse_i64, parse_u64};
use chatbot::roles::parse;
use chatbot::tool_exec::{plan_edit, read_file_result};

fn arguments_json(t: &ToolType) -> String {
    let mut map = serde_json::Map::new();
    for (k, v) in t.arguments_map() {
        let value = match v {
            ArgValue::Str(s) => serde_json::Value::String(s),
            ArgValue::Int(n) if n >= 0 => serde_json::Value::Number(serde_json::Number::from(u64::try_from(n).unwrap())),
            ArgValue::Int(n) => serde_json::Value::Number(serde_json::Number::from(i64::try_from(n).unwrap())),
        };
        map.insert(k, value);
    }
    serde_json::Value::Object(map).to_string()
}

fn round_trip(t: ToolType) {
    let text = arguments_json(&t);
    let back = ToolType::bind(t.wire_name(), &text).expect("shown arguments bind again");
    assert_eq!(format!("{back:?}"), format!("{t:?}"));
}

#[test]
fn binding_undoes_the_argument_map() {
    round_trip(ToolType::WebSearch { query: "rust \"async\"\n".to_string() });
    round_trip(ToolType::VisitUrl { url: "https://example.org/a?b=c".to_string() });
    round_trip(ToolType::RunBashCommand { command: "ls -la /tmp".to_string() });
    round_trip(ToolType::ResetBashContainer);
    round_trip(ToolType::ViewImage { path: "/data/cat.png".to_string() });
    round_trip(ToolType::ReadFile { path: "/x".to_string(), offset: Some(60), limit: None });
    round_trip(ToolType::ReadFile { path: "/x".to_string(), offset: None, limit: Some(0) });
    round_trip(ToolType::ReadFile { path: "/x".to_string(), offset: Some(3), limit: Some(usize::MAX) });
    round_trip(ToolType::EditFile { path: "/f".to_string(), old_string: "a\nb".to_string(), new_string: String::new() });
    round_trip(ToolType::UseSkill { skill: Some("cooking".to_string()) });
    round_trip(ToolType::UseSkill { skill: None });
    round_trip(ToolType::SetReminder { delay_seconds: -5, note: "call mum".to_string(), addressee: "Ann".to_string() });
    round_trip(ToolType::SetReminder { delay_seconds: i64::MIN, note: "n".to_string(), addressee: "b".to_string() });
    round_trip(ToolType::MetaNoOpExtraTurn);
}

#[test]
fn parsing_gives_back_rendered_numbers() {
    for n in [0u64, 7, 10, 99, 1_000_000, u64::MAX] {
        assert_eq!(parse_u64(&n.to_string()), Ok(n));
    }
    for n in [0i64, -1, 42, i64::MIN, i64::MAX] {
        assert_eq!(parse_i64(&n.to_string()), Ok(n));
    }
}

#[test]
fn content_never_holds_a_tool_call_opening() {
    for raw in [
        "r</think>a <tool_call>x</tool_call> b <tool_call><function=f>",
        "</think><tool_call><tool_call></tool_call>",
        "</think>text <tool_call",
        "</think> <tool_call>\n<function=web_search>\n</tool_call> tail",
    ] {
        let p = parse(raw);
        assert!(!p.content.contains("<tool_call>"), "content of {raw:?} was {:?}", p.content);
    }
    assert_eq!(parse("</think>a <tool_call>x</tool_call> b <tool_call><function=f>").content, "a  b");
}

#[test]
fn attachment_paths_come_out_once_each() {
    let (text, paths) = extract_attach_paths("see [[attach_file: /a.png ]] and [[attach_image:/a.png]] [[attach_file:   ]] [[attach_image: /b.txt]]");
    assert_eq!(paths, vec!["/a.png".to_string(), "/b.txt".to_string()]);
    assert_eq!(text, "see and");
}

#[test]
fn a_read_then_two_edits_go_through() {
    let content = "one\ntwo\nthree\n";
    let read = read_file_result("/f", content, None, None);
    let first = plan_edit("/f", content, "two", "2", Some(read.metadata[0].1.clone())).ok().unwrap();
    assert_eq!(first.updated, "one\n2\nthree\n");
    let second = plan_edit("/f", &first.updated, "three", "3", Some(first.result.metadata[0].1.clone())).ok().unwrap();
    assert_eq!(second.updated, "one\n2\n3\n");
    assert!(plan_edit("/f", &second.updated, "one", "1", Some(read.metadata[0].1.clone())).is_err());
}

#[test]
fn long_replies_are_sent_in_full() {
    let line = "x".repeat(99);
    let text: String = (0..50).map(|i| format!("{line}{}\n", i % 10)).collect();
    let chunks = split_for_discord(&text);
    assert!(chunks.len() >= 3);
    assert!(chunks.iter().all(|c| c.chars().count() <= 2000));
    assert_eq!(chunks.concat(), text);
    let blank_middle = format!("{}{}{}", "a".repeat(1999), " ".repeat(2100), "b");
    let chunks = split_for_discord(&blank_middle);
    assert_eq!(chunks.concat().replace(' ', ""), blank_middle.replace(' ', ""));
}

#[test]
fn replayed_turns_drop_reasoning_and_bind_back() {
    let turn = |thoughts: &str| LLMResponse {
        thoughts: thoughts.to_string(),
        reply: Reply::Said("ok".to_string()),
        tool_calls: vec![ToolCall {
            id: "call_0".to_string(),
            tool_type: ToolType::ReadFile { path: "/f".to_string(), offset: Some(2), limit: None },
        }],
    };
    let a = turn("secret plan").to_chat_message();
    let b = turn("other").to_chat_message();
    assert_eq!(a.content, "ok");
    assert_eq!(a.content, b.content);
    assert!(!a.content.contains("secret"));
    assert_eq!(a.tool_calls.len(), 1);
    let call = &a.tool_calls[0];
    let mut map = serde_json::Map::new();
    for (k, v) in &call.function.arguments {
        let value = match v {
            ArgValue::Str(s) => serde_json::Value::String(s.clone()),
            ArgValue::Int(n) => serde_json::Value::from(i64::try_from(*n).unwrap()),
        };
        map.insert(k.clone(), value);
    }
    let back = ToolType::bind(call.function.name, &serde_json::Value::Object(map).to_string()).unwrap();
    assert_eq!(format!("{back:?}"), format!("{:?}", ToolType::ReadFile { path: "/f".to_string(), offset: Some(2), limit: None }));
}

#[test]
fn call_ids_keep_the_order_of_the_calls() {
    let ids: Vec<String> = (0..120).map(|i| format!("call_{i}")).collect();
    for i in 0..ids.len() {
        for j in (i + 1)..ids.len() {
            assert!(chatbot::text::id_str_le(&ids[i], &ids[j]));
            assert!(!chatbot::text::id_str_le(&ids[j], &ids[i]));
        }
    }
    assert!(chatbot::text::id_str_le("b", "b"));
}
