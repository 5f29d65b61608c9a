use chatbot::conversation::Platform;
use chatbot::messaging::{compose, extract_attach_paths, split_for_discord, OutboundMessage};

#[test]
fn strips_marker_and_captures_path() {
    let (text, paths) =
        extract_attach_paths("Here's the report [[attach_file:/tmp/report.pdf]] enjoy");
    assert_eq!(text, "Here's the report enjoy");
    assert_eq!(paths, vec!["/tmp/report.pdf"]);
}

#[test]
fn marker_only_message_becomes_empty_text() {
    let (text, paths) = extract_attach_paths("[[attach_image:chart.png]]");
    assert_eq!(text, "");
    assert_eq!(paths, vec!["chart.png"]);
}

#[test]
fn file_and_image_markers_both_match_dedup_and_preserve_order() {
    let (text, paths) =
        extract_attach_paths("a [[attach_file:/x]] b [[attach_image:/y]] c [[attach_file:/x]]");
    assert_eq!(text, "a b c");
    assert_eq!(paths, vec!["/x", "/y"]);
}

#[test]
fn tolerates_internal_whitespace_and_no_markers() {
    let (text, paths) = extract_attach_paths("[[attach_file:  /a b/c.txt  ]]");
    assert_eq!(paths, vec!["/a b/c.txt"]);
    assert!(text.is_empty());

    let (plain, none) = extract_attach_paths("just a normal message");
    assert_eq!(plain, "just a normal message");
    assert!(none.is_empty());
}

#[test]
fn marker_path_may_not_cross_a_line_break() {
    let (text, paths) = extract_attach_paths("x [[attach_file:/a\n/b]] y");
    assert!(paths.is_empty());
    assert_eq!(text, "x [[attach_file:/a\n/b]] y");
}

#[test]
fn unclosed_marker_is_left_alone_and_later_ones_still_match() {
    let (text, paths) = extract_attach_paths("[[attach_file:/a [[attach_image: /b ]]");
    assert_eq!(paths, vec!["/a [[attach_image: /b"]);
    assert_eq!(text, "");
    let (text, paths) = extract_attach_paths("see [[attach_file:]] and\t\t[[attach_file: /c]]");
    assert_eq!(paths, vec!["/c"]);
    assert_eq!(text, "see and");
}

#[test]
fn split_keeps_short_messages_whole_and_drops_blank_ones() {
    assert_eq!(split_for_discord("hello"), vec!["hello"]);
    assert!(split_for_discord("  \n ").is_empty());
    assert!(split_for_discord("").is_empty());
}

#[test]
fn split_cuts_after_the_last_line_break_within_the_limit() {
    let first = "a".repeat(1500);
    let second = "b".repeat(1000);
    let text = format!("{first}\n{second}");
    let chunks = split_for_discord(&text);
    assert_eq!(chunks, vec![format!("{first}\n"), second]);
}

#[test]
fn split_cuts_at_the_limit_without_line_breaks() {
    let text = "é".repeat(4500);
    let chunks = split_for_discord(&text);
    assert_eq!(chunks.len(), 3);
    assert_eq!(chunks[0].chars().count(), 2000);
    assert_eq!(chunks[1].chars().count(), 2000);
    assert_eq!(chunks[2].chars().count(), 500);
    assert_eq!(chunks.concat(), text);
}

#[test]
fn compose_joins_message_and_tool_line() {
    let names = vec!["web_search".to_string()];
    assert_eq!(
        compose(&Platform::Discord, Some("hi".to_string()), &names),
        "hi\n-# *using tool: web_search*"
    );
    let many = vec!["a".to_string(), "b".to_string()];
    assert_eq!(compose(&Platform::Telegram, None, &many), "_using multiple tools: a, b_");
    assert_eq!(compose(&Platform::Discord, Some("only".to_string()), &vec![]), "only");
    assert_eq!(compose(&Platform::Discord, None, &vec![]), "");
}

#[test]
fn outbound_is_empty_only_without_message_and_tools() {
    assert!(OutboundMessage { message: None, tool_names: vec![] }.is_empty());
    assert!(!OutboundMessage { message: Some(String::new()), tool_names: vec![] }.is_empty());
    assert!(!OutboundMessage { message: None, tool_names: vec!["x".to_string()] }.is_empty());
}
