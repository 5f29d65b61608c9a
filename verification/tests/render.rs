use chatbot::chat_format::{ArgValue, ChatMessage, MessageToolCall, MessageToolCallFunction, ToolDefinition};
use chatbot::conversation::{ToolCall, ToolType};
use chatbot::render::{render_prompt, role_str, template_fields, tool_text, TemplateField};
use chatbot::chat_format::{ParamSchema, ToolDefFunction};
use chatbot::framework::entity_step;
use chatbot::roles::ThinkingPolicy;
use chatbot::thinking::ThinkingState;
use chatbot::user::debug_calls;
use chatbot::chat_format::ChatRole;
use serde::Serialize;
use serde_json::Value;
use std::io;

/// serde_json with a space after every `,` and `:`.
struct Spaced;

impl serde_json::ser::Formatter for Spaced {
    fn begin_array_value<W: ?Sized + io::Write>(&mut self, w: &mut W, first: bool) -> io::Result<()> {
        if first { Ok(()) } else { w.write_all(b", ") }
    }
    fn begin_object_key<W: ?Sized + io::Write>(&mut self, w: &mut W, first: bool) -> io::Result<()> {
        if first { Ok(()) } else { w.write_all(b", ") }
    }
    fn begin_object_value<W: ?Sized + io::Write>(&mut self, w: &mut W) -> io::Result<()> {
        w.write_all(b": ")
    }
}

fn spaced<T: Serialize>(v: &T) -> String {
    let mut buf = Vec::new();
    v.serialize(&mut serde_json::Serializer::with_formatter(&mut buf, Spaced)).unwrap();
    String::from_utf8(buf).unwrap()
}

fn serde_text(d: &ToolDefinition) -> String {
    let mut properties = serde_json::Map::new();
    for p in &d.function.parameters.properties {
        let mut prop = serde_json::Map::new();
        prop.insert("type".to_string(), Value::String(p.ty.to_string()));
        prop.insert("description".to_string(), Value::String(p.description.to_string()));
        properties.insert(p.name.to_string(), Value::Object(prop));
    }
    let mut root = serde_json::Map::new();
    root.insert("type".to_string(), Value::String("object".to_string()));
    root.insert("properties".to_string(), Value::Object(properties));
    root.insert(
        "required".to_string(),
        Value::Array(d.function.parameters.required.iter().map(|r| Value::String(r.to_string())).collect()),
    );
    format!(
        "{{\"type\": {}, \"function\": {{\"name\": {}, \"description\": {}, \"parameters\": {}}}}}",
        spaced(&d.kind),
        spaced(&d.function.name),
        spaced(&d.function.description),
        spaced(&Value::Object(root)),
    )
}

#[test]
fn tools_print_as_spaced_json() {
    let defs = ToolType::tool_definitions();
    assert_eq!(defs.len(), 10);
    for d in &defs {
        assert_eq!(tool_text(d), serde_text(d));
    }
    let search = tool_text(&defs[0]);
    assert!(search.starts_with("{\"type\": \"function\", \"function\": {\"name\": \"web_search\", \"description\": "));
    assert!(search.ends_with(", \"required\": [\"query\"], \"type\": \"object\"}}}"));
}

#[test]
fn properties_print_in_name_order() {
    let defs = ToolType::tool_definitions();
    let read = defs.iter().find(|d| d.function.name == "read_file").unwrap();
    let t = tool_text(read);
    let (l, o, p) = (t.find("\"limit\": {").unwrap(), t.find("\"offset\": {").unwrap(), t.find("\"path\": {").unwrap());
    assert!(l < o && o < p);
}

fn call(id: &str, query: &str) -> MessageToolCall {
    MessageToolCall {
        id: id.to_string(),
        kind: "function",
        function: MessageToolCallFunction {
            name: "web_search",
            arguments: vec![("query".to_string(), ArgValue::Str(query.to_string())), ("n".to_string(), ArgValue::Int(3))],
        },
    }
}

const TEMPLATE: &str = "{% for m in messages %}<{{ m.role }}>{{ m.content }}\
{% for c in m.tool_calls %}[{{ c.id }} {{ c.type }} {{ c.function.name }} {{ c.function.arguments.query }} {{ c.function.arguments.n }}]{% endfor %}\
{% if m.tool_call_id %}({{ m.tool_call_id }}){% endif %}\n{% endfor %}\
{% if tools %}{% for t in tools %}{{ t }}\n{% endfor %}{% endif %}\
{% if footer %}{{ footer }}{% endif %}{% if add_generation_prompt %}<assistant>{% endif %}{% if enable_thinking %}<think>{% endif %}";

#[test]
fn prompts_render_behind_the_system_message() {
    let messages = vec![
        ChatMessage::user("hi".to_string()),
        ChatMessage::assistant_with_tools(String::new(), vec![call("call_0", "rust")]),
        ChatMessage::tool("call_0".to_string(), "found".to_string()),
    ];
    let r = render_prompt(TEMPLATE, "Be kind.", &messages, None, Some("F"), true, false).unwrap();
    assert_eq!(
        r,
        "<system>Be kind.\n<user>hi\n<assistant>[call_0 function web_search rust 3]\n<tool>found(call_0)\nF<assistant>"
    );
    let none = render_prompt(TEMPLATE, "S", &vec![], None, None, false, true).unwrap();
    assert_eq!(none, "<system>S\n<think>");
}

#[test]
fn prompts_list_the_offered_tools() {
    let defs = ToolType::tool_definitions();
    let r = render_prompt("{% for t in tools %}{{ t }}|{% endfor %}", "S", &vec![], Some(&defs), None, false, false).unwrap();
    let expected: String = defs.iter().map(|d| format!("{}|", serde_text(d))).collect();
    assert_eq!(r, expected);
    let absent = render_prompt("{% if tools is defined %}yes{% else %}no{% endif %}", "S", &vec![], None, None, false, false).unwrap();
    assert_eq!(absent, "no");
}

#[test]
fn templates_can_refuse_and_use_python_methods() {
    let refused = render_prompt("{{ raise_exception('no system role') }}", "S", &vec![], None, None, false, false);
    assert!(refused.unwrap_err().contains("no system role"));
    let upper = render_prompt("{{ messages[0].content.upper() }}", "quiet", &vec![], None, None, false, false).unwrap();
    assert_eq!(upper, "QUIET");
    assert!(render_prompt("{% for %}", "S", &vec![], None, None, false, false).is_err());
}

#[test]
fn roles_are_named_as_templates_read_them() {
    assert_eq!(role_str(ChatRole::System), "system");
    assert_eq!(role_str(ChatRole::User), "user");
    assert_eq!(role_str(ChatRole::Assistant), "assistant");
    assert_eq!(role_str(ChatRole::Tool), "tool");
}

#[test]
fn reasoning_is_forced_closed_only_with_a_nudge() {
    let p = ThinkingPolicy::bounded(Some("Stop now."), "</think>", 5);
    assert_eq!(p.force_close, "\n\nStop now.\n</think>\n\n");
    assert_eq!(p.close_marker, "</think>");
    assert_eq!(p.max_tokens, 5);
    let u = ThinkingPolicy::bounded(None, "</think>", 5);
    assert_eq!(u.force_close, "");
    assert_eq!(u.max_tokens, usize::MAX);
}

#[test]
fn reasoning_closes_once_forced_or_marked() {
    let p = ThinkingPolicy::bounded(Some("n"), "</think>", 3);
    let mut s = ThinkingState::new();
    assert!(!s.before_token(0, &p));
    assert!(!s.before_token(2, &p));
    assert!(s.before_token(3, &p));
    assert!(s.closed);
    assert!(!s.before_token(4, &p));

    let marker = b"</think>".to_vec();
    let mut t = ThinkingState::new();
    t.after_token(&b"I wonder </thi".to_vec(), &marker);
    assert!(!t.closed);
    t.after_token(&b"I wonder </think> yes".to_vec(), &marker);
    assert!(t.closed);
    assert!(!t.before_token(10, &p));

    let mut e = ThinkingState::new();
    e.after_token(&b"anything".to_vec(), &Vec::new());
    assert!(!e.closed);
    e.after_token(&b"ab".to_vec(), &b"abc".to_vec());
    assert!(!e.closed);
}

#[test]
fn tool_calls_render_as_their_debug_text() {
    let calls = vec![
        ToolCall { id: "call_0".to_string(), tool_type: ToolType::WebSearch { query: "a \"quoted\"\nline".to_string() } },
        ToolCall { id: "call_1".to_string(), tool_type: ToolType::ResetBashContainer },
        ToolCall {
            id: "call_2".to_string(),
            tool_type: ToolType::ReadFile { path: "/x".to_string(), offset: Some(3), limit: None },
        },
        ToolCall {
            id: "call_3".to_string(),
            tool_type: ToolType::EditFile { path: "p".to_string(), old_string: "o".to_string(), new_string: "n\t".to_string() },
        },
        ToolCall { id: "call_4".to_string(), tool_type: ToolType::UseSkill { skill: Some("s".to_string()) } },
        ToolCall { id: "call_5".to_string(), tool_type: ToolType::UseSkill { skill: None } },
        ToolCall {
            id: "call_6".to_string(),
            tool_type: ToolType::SetReminder { delay_seconds: -5, note: "n".to_string(), addressee: "é".to_string() },
        },
        ToolCall { id: "call_7".to_string(), tool_type: ToolType::MetaNoOpExtraTurn },
        ToolCall { id: "call_8".to_string(), tool_type: ToolType::MetaMalformed { report: "r".to_string() } },
        ToolCall { id: "call_9".to_string(), tool_type: ToolType::VisitUrl { url: "u".to_string() } },
        ToolCall { id: "call_10".to_string(), tool_type: ToolType::RunBashCommand { command: "ls".to_string() } },
        ToolCall { id: "call_11".to_string(), tool_type: ToolType::ViewImage { path: "i".to_string() } },
    ];
    assert_eq!(debug_calls(&calls), format!("{:?}", calls));
    assert_eq!(debug_calls(&vec![]), "[]");
    assert_eq!(
        debug_calls(&calls[1..2].iter().map(|c| ToolCall { id: c.id.clone(), tool_type: ToolType::ResetBashContainer }).collect()),
        "[ToolCall { id: \"call_1\", tool_type: ResetBashContainer }]"
    );
}

#[test]
fn message_fields_follow_what_the_message_holds() {
    let keys = |m: &ChatMessage| template_fields(m).iter().map(|(k, _)| *k).collect::<Vec<_>>();
    assert_eq!(keys(&ChatMessage::user("hi".to_string())), vec!["role", "content"]);
    let with_calls = ChatMessage::assistant_with_tools(String::new(), vec![call("call_0", "x")]);
    assert_eq!(keys(&with_calls), vec!["role", "content", "tool_calls"]);
    let empty_calls = ChatMessage::assistant_with_tools("a".to_string(), vec![]);
    assert_eq!(keys(&empty_calls), vec!["role", "content"]);
    let answer = ChatMessage::tool("call_0".to_string(), "found".to_string());
    let fields = template_fields(&answer);
    assert_eq!(keys(&answer), vec!["role", "content", "tool_call_id"]);
    assert!(matches!(fields[0].1, TemplateField::Text("tool")));
    assert!(matches!(fields[2].1, TemplateField::Text("call_0")));
    assert!(matches!(template_fields(&with_calls)[2].1, TemplateField::Calls(c) if c.len() == 1));
}

#[test]
fn strings_are_quoted_as_serde_json_quotes_them() {
    let d = ToolDefinition {
        kind: "function",
        function: ToolDefFunction {
            name: "odd\"name\\",
            description: "tab\there\nnew \u{1} \u{8}\u{c}\r é \u{7f}",
            parameters: ParamSchema { properties: vec![], required: vec!["x", "a"] },
        },
    };
    assert_eq!(tool_text(&d), serde_text(&d));
    assert!(tool_text(&d).contains("\\u0001"));
}

#[test]
fn refused_actions_keep_the_state() {
    let kept = entity_step::<u8, u8>(3, Err("no".to_string()));
    assert_eq!(kept.state, 3);
    assert!(!kept.rearm && kept.effects.is_empty());
    assert_eq!(kept.refusal.as_deref(), Some("no"));
    let moved = entity_step::<u8, u8>(3, Ok((4, vec![9, 8])));
    assert_eq!(moved.state, 4);
    assert!(moved.rearm && moved.refusal.is_none());
    assert_eq!(moved.effects, vec![9, 8]);
}
