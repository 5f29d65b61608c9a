use chatbot::conversation::ToolType;
use chatbot::skills::{list_skills_text, missing_skill, skill_name_error, skill_stem, sort_names, tool_step, ToolStep};
use chatbot::tool_exec::{
    bash_result, clip_to, content_hash, number_lines, page_result, plan_edit, pulled_file, read_file_result,
    render_diff, replace_once, worker_name, SearchHit, SearchInfobox, SearchResponse,
};

#[test]
fn clip_cuts_by_characters_with_a_note() {
    assert_eq!(clip_to("abc", 5), "abc");
    assert_eq!(clip_to("ééééé", 2), "éé\n…[output truncated]");
}

#[test]
fn worker_names_are_docker_safe() {
    assert_eq!(worker_name("Discord_123/x y"), "botwork-Discord_123_x_y");
    assert_eq!(worker_name("a.b-c_d"), "botwork-a.b-c_d");
}

#[test]
fn bash_result_reports_code_and_streams() {
    let r = bash_result(Some(2), b"out", b"err");
    assert_eq!(r.actual, "exit code: 2\n--- stdout ---\nout\n--- stderr ---\nerr");
    assert_eq!(r.simplified, r.actual);
    let killed = bash_result(None, b"", &[0xff]);
    assert_eq!(killed.actual, "exit code: -1\n--- stdout ---\n\n--- stderr ---\n\u{fffd}");
}

#[test]
fn number_lines_follows_str_lines() {
    let text = "a\r\nb\nc\n";
    assert_eq!(number_lines(text, 1, usize::MAX), "1\ta\n2\tb\n3\tc");
    assert_eq!(number_lines(text, 2, 1), "2\tb");
    assert_eq!(number_lines(text, 0, 2), "1\ta\n2\tb");
    assert_eq!(number_lines(text, 9, 2), "");
    assert_eq!(number_lines("", 1, 5), "");
}

#[test]
fn diff_shows_context_and_changed_lines() {
    let content = "l1\nl2\nl3\nl4\nold line\nl6\nl7\nl8\nl9\n";
    let d = render_diff(content, "old", "new");
    assert_eq!(d, "  l2\n  l3\n  l4\n- old line\n+ new line\n  l6\n  l7\n  l8");
    let missing = render_diff("abc", "x\ny", "z");
    assert_eq!(missing, "- x\n- y\n+ z");
}

#[test]
fn replace_once_replaces_the_first() {
    assert_eq!(replace_once("a-b-a", "a", "X"), "X-b-a");
    assert_eq!(replace_once("abc", "", "X"), "Xabc");
    assert_eq!(replace_once("abc", "z", "X"), "abc");
}

#[test]
fn read_file_numbers_and_fingerprints() {
    let r = read_file_result("/f", "x\ny\n", Some(2), None);
    assert_eq!(r.actual, "2\ty");
    assert_eq!(r.metadata, vec![("file_hash".to_string(), content_hash("x\ny\n"))]);
    let empty = read_file_result("/f", "", None, None);
    assert_eq!(empty.actual, "(file '/f' is empty, or the requested line range has no lines)");
    assert_eq!(content_hash("x").len(), 16);
    assert_ne!(content_hash("x"), content_hash("y"));
}

#[test]
fn edits_need_a_fresh_read_and_a_unique_match() {
    let content = "alpha\nbeta\nalpha beta\n";
    let h = content_hash(content);
    assert_eq!(
        plan_edit("/f", content, "beta", "B", None).err().unwrap(),
        "'/f' hasn't been read yet — call read_file on it before editing."
    );
    assert_eq!(
        plan_edit("/f", content, "beta", "B", Some("0000".to_string())).err().unwrap(),
        "'/f' has changed since you last read it — call read_file on it again before editing."
    );
    assert_eq!(
        plan_edit("/f", content, "gamma", "B", Some(h.clone())).err().unwrap(),
        "old_string was not found in '/f'. Copy it exactly from read_file output (without the line-number prefixes)."
    );
    assert_eq!(
        plan_edit("/f", content, "beta", "B", Some(h.clone())).err().unwrap(),
        "old_string appears 2 times in '/f' — include more surrounding context so it matches exactly once."
    );
    let plan = plan_edit("/f", content, "alpha beta", "gamma", Some(h)).ok().unwrap();
    assert_eq!(plan.updated, "alpha\nbeta\ngamma\n");
    assert_eq!(plan.result.actual, "Edited '/f':\n  alpha\n  beta\n- alpha beta\n+ gamma");
    assert_eq!(plan.result.metadata, vec![("file_hash".to_string(), content_hash("alpha\nbeta\ngamma\n"))]);
}

#[test]
fn pulled_files_are_named_and_bounded() {
    let f = pulled_file("/tmp/out/report.pdf/", vec![1, 2]).ok().unwrap();
    assert_eq!(f.filename, "report.pdf");
    assert_eq!(pulled_file("///", vec![1]).ok().unwrap().filename, "attachment");
    assert_eq!(pulled_file("/e", vec![]).err().unwrap(), "'/e' is empty — nothing to attach");
    let big = vec![0u8; 8 * 1024 * 1024 + 1];
    assert_eq!(
        pulled_file("/b", big).err().unwrap(),
        "'/b' is 8388609 bytes, over the 8388608-byte attachment limit"
    );
}

#[test]
fn search_results_are_formatted() {
    let hit = |t: &str| SearchHit {
        title: Some(t.to_string()),
        url: Some(format!("https://{t}")),
        content: Some("desc".to_string()),
        published_date: None,
    };
    let resp = SearchResponse {
        query: "q".to_string(),
        answers: vec![Some("42".to_string()), Some(String::new()), None],
        infoboxes: vec![SearchInfobox { infobox: None, content: Some("box".to_string()) }],
        results: vec![hit("a"), hit("b"), hit("c"), hit("d")],
    };
    let r = resp.to_result();
    let one = |t: &str| format!("Title: {t}\nURL to visit: https://{t}\nDescription: desc\n\n");
    let simplified = format!(
        "Instant answer: 42\n\nInfo: box\n\nSearch results for \"q\":\n{}\n{}\n{}",
        one("a"), one("b"), one("c")
    );
    assert_eq!(r.simplified, simplified);
    assert_eq!(r.actual, format!("{simplified}\n{}", one("d")));
    let dated = SearchResponse {
        query: "z".to_string(),
        answers: vec![],
        infoboxes: vec![],
        results: vec![SearchHit { title: None, url: None, content: None, published_date: Some("2024".to_string()) }],
    }
    .to_result();
    assert_eq!(dated.simplified, "Search results for \"z\":\nTitle: null\nURL to visit: null\nPublished: 2024\nDescription: null\n\n");
}

#[test]
fn pages_are_cut_at_byte_budgets() {
    let text = "é".repeat(1500);
    let r = page_result("u", &text);
    assert_eq!(r.simplified, format!("Content of u:\n{}", "é".repeat(1000)));
    assert_eq!(r.actual, format!("Content of u:\n{text}"));
}

#[test]
fn skills_are_found_listed_and_guarded() {
    assert_eq!(skill_stem("document_conversion.md"), Some("document_conversion".to_string()));
    assert_eq!(skill_stem("a.b.md"), Some("a.b".to_string()));
    assert_eq!(skill_stem(".md"), None);
    assert_eq!(skill_stem("notes.txt"), None);
    let names = sort_names(vec!["b".to_string(), "a".to_string(), "c".to_string()]);
    assert_eq!(names, vec!["a", "b", "c"]);
    assert_eq!(
        list_skills_text(&names),
        "Available skills (3). Call use_skill again with a name to read one in full:\n- a\n- b\n- c"
    );
    assert_eq!(list_skills_text(&vec![]), "No skills are available.");
    assert_eq!(skill_name_error("../etc"), Some("'../etc' is not a valid skill name.".to_string()));
    assert_eq!(skill_name_error("fine_name"), None);
    assert_eq!(missing_skill("x", &names), "no skill named 'x' (available skills: a, b, c)");
    assert_eq!(missing_skill("x", &vec![]), "no skill named 'x' (no skills are available)");
}

#[test]
fn tool_steps_route_calls() {
    assert!(matches!(tool_step(ToolType::MetaNoOpExtraTurn), ToolStep::Done(Ok(_))));
    match tool_step(ToolType::SetReminder { delay_seconds: 1, note: String::new(), addressee: String::new() }) {
        ToolStep::Done(Err(e)) => assert_eq!(e, "set_reminder is handled by the conversation runtime, not the tool executor"),
        _ => panic!("expected refusal"),
    }
    assert!(matches!(tool_step(ToolType::UseSkill { skill: None }), ToolStep::ListSkills));
    assert!(matches!(tool_step(ToolType::UseSkill { skill: Some("a/b".to_string()) }), ToolStep::Done(Err(_))));
    assert!(matches!(tool_step(ToolType::ResetBashContainer), ToolStep::ResetSandbox));
}
