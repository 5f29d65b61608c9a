use chatbot::conversation::ToolType;
use chatbot::json::{JsonDoc, JsonScalar};
use chatbot::chat_format::ArgValue;

#[test]
fn meta_malformed_is_internal_not_advertised() {
    let names: Vec<&str> = ToolType::tool_definitions()
        .iter()
        .map(|d| d.function.name)
        .collect();
    assert!(
        !names.contains(&"meta_malformed_tool_call"),
        "internal tool must not be advertised to the model"
    );
    assert!(names.contains(&"set_reminder"));
    assert_eq!(ToolType::MetaMalformed { report: String::new() }.announcement(), None);
    assert!(
        ToolType::bind("attach_file", r#"{"path":"/x"}"#).is_err(),
        "unknown tool must error at bind (the llm layer turns this into MetaMalformed)"
    );
}

#[test]
fn read_file_accepts_stringified_numbers() {
    let bound = ToolType::bind(
        "read_file",
        r#"{"path":"/tmp/x.json","offset":"60","limit":"20"}"#,
    )
    .expect("stringified numbers should bind");
    assert!(matches!(
        bound,
        ToolType::ReadFile { offset: Some(60), limit: Some(20), .. }
    ));
}

#[test]
fn read_file_accepts_numeric_and_absent() {
    let numeric = ToolType::bind("read_file", r#"{"path":"/x","offset":5}"#).unwrap();
    assert!(matches!(
        numeric,
        ToolType::ReadFile { offset: Some(5), limit: None, .. }
    ));

    let absent = ToolType::bind("read_file", r#"{"path":"/x"}"#).unwrap();
    assert!(matches!(
        absent,
        ToolType::ReadFile { offset: None, limit: None, .. }
    ));
}

#[test]
fn use_skill_lists_when_no_argument() {
    for args in ["", "{}", r#"{"skill":""}"#, r#"{"skill":"   "}"#, r#"{"skill":null}"#] {
        assert!(
            matches!(ToolType::bind("use_skill", args), Ok(ToolType::UseSkill { skill: None })),
            "args {args:?} should list (skill: None)"
        );
    }
}

#[test]
fn use_skill_parses_leniently() {
    let expected = "document_conversion";
    for raw in [
        "document_conversion",
        "document_conversion.md",
        "  document_conversion  ",
        "\"document_conversion\"",
        "'document_conversion.md'",
        "  \"document_conversion.md\" ",
    ] {
        let args = format!("{{\"skill\":{}}}", serde_json::Value::String(raw.to_string()));
        match ToolType::bind("use_skill", &args) {
            Ok(ToolType::UseSkill { skill: Some(name) }) => {
                assert_eq!(name, expected, "raw {raw:?} should normalize to {expected}")
            }
            other => panic!("raw {raw:?} did not parse: {other:?}"),
        }
    }
}

#[test]
fn set_reminder_accepts_numeric_and_stringified_delay() {
    let numeric = ToolType::bind(
        "set_reminder",
        r#"{"delay_seconds":7200,"note":"take meds","addressee":"Alice"}"#,
    )
    .unwrap();
    assert!(matches!(
        numeric,
        ToolType::SetReminder { delay_seconds: 7200, .. }
    ));

    let stringified = ToolType::bind(
        "set_reminder",
        r#"{"delay_seconds":"7200","note":"take meds","addressee":"Alice"}"#,
    )
    .unwrap();
    assert!(matches!(
        stringified,
        ToolType::SetReminder { delay_seconds: 7200, .. }
    ));
}

#[test]
fn bind_reports_json_syntax_errors_with_the_raw_text() {
    match ToolType::bind("web_search", "{not json") {
        Err(e) => {
            assert!(e.starts_with("web_search arguments failed to bind: "), "{e}");
            assert!(e.ends_with(" — raw: {not json"), "{e}");
        }
        Ok(t) => panic!("bound {t:?}"),
    }
}

#[test]
fn bind_reports_missing_field() {
    let e = ToolType::bind("visit_url", r#"{"link":"https://x"}"#).unwrap_err();
    assert_eq!(
        e,
        "visit_url arguments failed to bind: missing field `url` — raw: {\"link\":\"https://x\"}"
    );
}

#[test]
fn bind_reports_wrong_type() {
    let e = ToolType::bind("run_bash_command", r#"{"command":5}"#).unwrap_err();
    assert_eq!(
        e,
        "run_bash_command arguments failed to bind: invalid type: number, expected a string — raw: {\"command\":5}"
    );
}

#[test]
fn bind_unknown_tool_message() {
    assert_eq!(
        ToolType::bind("attach_file", "{}").unwrap_err(),
        "model called an unknown tool: attach_file"
    );
}

#[test]
fn bind_reads_arrays_by_position() {
    let t = ToolType::bind("edit_file", r#"["/a", "old", "new"]"#).unwrap();
    match t {
        ToolType::EditFile { path, old_string, new_string } => {
            assert_eq!(path, "/a");
            assert_eq!(old_string, "old");
            assert_eq!(new_string, "new");
        }
        other => panic!("{other:?}"),
    }
    let short = ToolType::bind("edit_file", r#"["/a"]"#).unwrap_err();
    assert!(short.contains("invalid length 1, expected struct EditFileArgs with 3 elements"), "{short}");
    let long = ToolType::bind("web_search", r#"["a", "b"]"#).unwrap_err();
    assert!(long.contains("trailing characters"), "{long}");
}

#[test]
fn bind_rejects_bad_counts() {
    let e = ToolType::bind("read_file", r#"{"path":"/x","offset":"ten"}"#).unwrap_err();
    assert!(e.contains("invalid digit found in string"), "{e}");
    let e = ToolType::bind("read_file", r#"{"path":"/x","limit":-1}"#).unwrap_err();
    assert!(e.contains("data did not match any variant of untagged enum NumOrStr"), "{e}");
    let e = ToolType::bind("read_file", r#"{"path":"/x","limit":2.5}"#).unwrap_err();
    assert!(e.contains("data did not match any variant of untagged enum NumOrStr"), "{e}");
    let blank = ToolType::bind("read_file", r#"{"path":"/x","offset":"  "}"#).unwrap();
    assert!(matches!(blank, ToolType::ReadFile { offset: None, .. }));
}

#[test]
fn bind_delay_accepts_signs_and_rejects_overflow() {
    let t = ToolType::bind(
        "set_reminder",
        r#"{"delay_seconds":" -30 ","note":"n","addressee":"a"}"#,
    )
    .unwrap();
    assert!(matches!(t, ToolType::SetReminder { delay_seconds: -30, .. }));
    let e = ToolType::bind(
        "set_reminder",
        r#"{"delay_seconds":"99999999999999999999","note":"n","addressee":"a"}"#,
    )
    .unwrap_err();
    assert!(e.contains("number too large to fit in target type"), "{e}");
}

#[test]
fn bind_argument_free_tools_ignore_arguments() {
    assert!(matches!(ToolType::bind("reset_bash_container", "garbage"), Ok(ToolType::ResetBashContainer)));
    assert!(matches!(ToolType::bind("meta_no_op_extra_turn", ""), Ok(ToolType::MetaNoOpExtraTurn)));
    match ToolType::bind("meta_malformed_tool_call", "{}") {
        Ok(ToolType::MetaMalformed { report }) => assert_eq!(
            report,
            "meta_malformed_tool_call is internal and cannot be called directly."
        ),
        other => panic!("{other:?}"),
    }
}

#[test]
fn use_skill_falls_back_to_raw_text() {
    match ToolType::bind("use_skill", "  'document_conversion.md'  ") {
        Ok(ToolType::UseSkill { skill: Some(s) }) => assert_eq!(s, "document_conversion"),
        other => panic!("{other:?}"),
    }
}

#[test]
fn bind_parsed_uses_the_given_document() {
    let doc = JsonDoc::Object(vec![
        ("query".to_string(), JsonScalar::Str("rust".to_string())),
        ("extra".to_string(), JsonScalar::Bool(true)),
    ]);
    match ToolType::bind_parsed("web_search", "ignored", Ok(doc)) {
        Ok(ToolType::WebSearch { query }) => assert_eq!(query, "rust"),
        other => panic!("{other:?}"),
    }
    let e = ToolType::bind_parsed("web_search", "x", Err("oops".to_string())).unwrap_err();
    assert_eq!(e, "web_search arguments failed to bind: oops — raw: x");
}

#[test]
fn arguments_map_lists_set_fields_in_order() {
    let t = ToolType::ReadFile { path: "/p".to_string(), offset: None, limit: Some(4) };
    let args = t.arguments_map();
    assert_eq!(args.len(), 2);
    assert_eq!(args[0].0, "path");
    assert!(matches!(&args[0].1, ArgValue::Str(s) if s == "/p"));
    assert_eq!(args[1].0, "limit");
    assert!(matches!(args[1].1, ArgValue::Int(4)));
    let r = ToolType::SetReminder { delay_seconds: -5, note: "n".to_string(), addressee: "a".to_string() };
    let args = r.arguments_map();
    assert_eq!(args.len(), 3);
    assert!(matches!(args[0].1, ArgValue::Int(-5)));
    assert!(ToolType::ResetBashContainer.arguments_map().is_empty());
}

#[test]
fn definitions_carry_wire_names_and_schemas() {
    let defs = ToolType::tool_definitions();
    assert_eq!(defs.len(), 10);
    assert_eq!(defs[0].function.name, "web_search");
    assert_eq!(defs[0].kind, "function");
    assert_eq!(defs[5].function.name, "read_file");
    assert_eq!(defs[5].function.parameters.required, vec!["path"]);
    assert_eq!(defs[5].function.parameters.properties.len(), 3);
    assert_eq!(defs[5].function.parameters.properties[1].ty, "integer");
}
