use chatbot::roles::{from_name, parse, QwenParser};

#[test]
fn reasoning_content_and_calls_are_read_apart() {
    let raw = "thinking hard</think>Sure.\n<tool_call>\n<function=web_search>\n<parameter=query>\nrust async\n</parameter>\n</function>\n</tool_call>";
    let p = parse(raw);
    assert_eq!(p.reasoning, "thinking hard");
    assert_eq!(p.content, "Sure.");
    assert_eq!(p.tool_calls.len(), 1);
    assert_eq!(p.tool_calls[0].name, "web_search");
    assert_eq!(p.tool_calls[0].arguments, "{\"query\":\"rust async\"}");
}

#[test]
fn parameters_keep_inner_lines_and_sort_by_key() {
    let raw = "x</think><tool_call><function=edit_file>\n<parameter=path>\n/a\n</parameter>\n<parameter=new_string>\nl1\nl2\n</parameter>\n</tool_call>";
    let p = parse(raw);
    assert_eq!(p.tool_calls.len(), 1);
    assert_eq!(p.tool_calls[0].arguments, "{\"new_string\":\"l1\\nl2\",\"path\":\"/a\"}");
    assert_eq!(p.content, "");
}

#[test]
fn dangling_tool_call_is_dropped_from_content() {
    let p = parse("r</think>Hello there <tool_call>\n<function=web");
    assert_eq!(p.content, "Hello there");
    assert!(p.tool_calls.is_empty());
}

#[test]
fn without_close_marker_everything_is_reasoning() {
    let p = parse("  still thinking  ");
    assert_eq!(p.reasoning, "still thinking");
    assert_eq!(p.content, "");
    assert!(p.tool_calls.is_empty());
}

#[test]
fn block_without_function_tag_is_skipped() {
    let p = parse("</think>a<tool_call>nothing here</tool_call>b");
    assert!(p.tool_calls.is_empty());
    assert_eq!(p.content, "ab");
}

#[test]
fn custom_close_marker() {
    let p = QwenParser::Qwen.parse("plan[/R] answer", "[/R]");
    assert_eq!(p.reasoning, "plan");
    assert_eq!(p.content, "answer");
}

#[test]
fn parser_names() {
    assert!(matches!(from_name("qwen"), Ok(QwenParser::Qwen)));
    assert_eq!(
        from_name("llama").unwrap_err(),
        "unknown parser 'llama' in manifest [format]; known parsers: qwen"
    );
}
