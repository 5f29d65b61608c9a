use chatbot::conversation::HistoryId;
use chatbot::reminder::ReminderId;
use chatbot::media::{Attachment, Image, MessageImage};
use chatbot::searxng::is_self_hosted;
use chatbot::base_prompt::BasePrompt;
use chatbot::bot::{bot_transition, BotAction};
use chatbot::extractor::{model_dir_name, quant_name, report_line, slug, value_type_name};
use chatbot::hive_user::{build_dynamic_prompt, discord_user_id, history_to_messages, message_to_send, serialize_input,
    HistoryEntry, LLMDecisionType, LLMInput, ToolCall};
use chatbot::numeric::IntErrorKind;

#[test]
fn extractor_names() {
    assert_eq!(value_type_name(8), "str");
    assert_eq!(value_type_name(99), "?");
    assert_eq!(quant_name(15), "q4_k_m");
    assert_eq!(quant_name(4), "ft4");
    assert_eq!(slug("  Qwen2.5 14B Instruct!! "), "qwen2-5-14b-instruct");
    assert_eq!(
        model_dir_name(None, Some("Qwen".to_string()), Some("4B".to_string()), Some(15), "/m/x.gguf"),
        "qwen-4b-q4_k_m"
    );
    assert_eq!(model_dir_name(None, None, None, None, "/models/My Model.gguf"), "my-model");
    assert_eq!(report_line("general.name", 8, "Qwen"), "general.name\tstr\tQwen\n");
    assert_eq!(report_line("tokenizer.chat_template", 8, "{{x}}"), "tokenizer.chat_template\tstr\t<chat_template.jinja>\n");
    let long = "x".repeat(200);
    assert_eq!(report_line("k", 4, &long), format!("k\tu32\t{}…\n", "x".repeat(160)));
}

#[test]
fn prompts_keep_their_parts() {
    let p = BasePrompt::new("sys", "/s.session", "root ::= x");
    assert_eq!(p.as_str(), "sys");
    assert_eq!(p.session_path(), "/s.session");
    assert_eq!(p.associated_grammar(), "root ::= x");
    let s = chatbot::hive_service_prompt::BasePrompt::new();
    assert!(s.as_str().starts_with("<|im_start|>system\nYou are Terminal Alpha and Terminal Beta."));
    assert_eq!(s.session_path(), "./resources/base_prompt.session");
    let c = chatbot::hive_connection_prompt::BasePrompt::new();
    assert!(c.as_str().ends_with("<|im_end|>"));
    assert_eq!(c.session_path(), "./resources/base_prompt.session");
}

#[test]
fn bot_pongs() {
    assert_eq!(bot_transition(&BotAction::Ping { message: "x".to_string() }), "Pong: x");
}

#[test]
fn hive_prompt_pieces() {
    assert_eq!(serialize_input(&LLMInput::ToolResult("r".to_string())), "<|im_start|>user\nTool Result: r<|im_end|>");
    assert_eq!(
        build_dynamic_prompt(&LLMInput::UserMessage("hi".to_string()), "[]"),
        "\nConversation History (JSON):\n[]\n\n<|im_start|>user\nhi<|im_end|>\n<|im_start|>assistant\n"
    );
    let h = vec![
        HistoryEntry::Input(LLMInput::UserMessage("u".to_string())),
        HistoryEntry::Output(LLMDecisionType::IntermediateToolCall {
            maybe_intermediate_response: None,
            tool_call: ToolCall::GetWeather { location: "Oslo".to_string() },
        }),
        HistoryEntry::Output(LLMDecisionType::Final { response: "done".to_string() }),
    ];
    let m = history_to_messages(&h);
    assert_eq!(m[0].content, "USER: u");
    assert_eq!(m[1].content, "ASSISTANT TOOL CALL: Response: null Tool: GetWeather: location=\"Oslo\"");
    assert_eq!(m[2].content, "ASSISTANT FINAL: \"done\"");
    assert_eq!(message_to_send(&LLMDecisionType::Final { response: "ok".to_string() }), Some("ok".to_string()));
    assert_eq!(discord_user_id("1234"), Ok(1234));
    assert_eq!(discord_user_id("12a"), Err(IntErrorKind::InvalidDigit));
}

#[test]
fn searxng_on_this_machine_is_self_hosted() {
    assert!(is_self_hosted(" http://localhost:8080 "));
    assert!(is_self_hosted("http://127.0.0.1:8080/search"));
    assert!(is_self_hosted("http://[::1]:8080"));
    assert!(!is_self_hosted("https://searx.example.org"));
    assert!(!is_self_hosted("not a url"));
}

#[test]
fn images_persist_dehydrated() {
    let hydrated = MessageImage::Hydrated(Image { bytes: vec![1, 2, 3, 4, 5], mime: "image/png".to_string() });
    assert_eq!(hydrated.persisted_byte_size(), 5);
    assert!(matches!(hydrated.dehydrated(), MessageImage::Dehydrated { byte_size: 5 }));
    assert!(matches!(hydrated.dehydrated().dehydrated(), MessageImage::Dehydrated { byte_size: 5 }));
    assert_eq!(hydrated.hydrated_bytes(), Some(vec![1, 2, 3, 4, 5]));
    assert_eq!(hydrated.dehydrated().hydrated_bytes(), None);
}

#[test]
fn attachments_keep_their_source_when_dehydrated() {
    let image = Attachment::Image {
        image: MessageImage::Hydrated(Image { bytes: vec![1, 2, 3], mime: "image/png".to_string() }),
        filename: "photo.png".to_string(),
        url: "https://cdn/photo.png".to_string(),
    };
    match image.dehydrated() {
        Attachment::Image { image, filename, url } => {
            assert!(matches!(image, MessageImage::Dehydrated { byte_size: 3 }));
            assert_eq!(filename, "photo.png");
            assert_eq!(url, "https://cdn/photo.png");
        }
        Attachment::File { .. } => panic!("expected image attachment"),
    }
    let file = Attachment::File {
        filename: "report.pdf".to_string(),
        content_type: Some("application/pdf".to_string()),
        url: "https://cdn/report.pdf".to_string(),
    };
    match file.dehydrated() {
        Attachment::File { filename, content_type, url } => {
            assert_eq!(filename, "report.pdf");
            assert_eq!(content_type.as_deref(), Some("application/pdf"));
            assert_eq!(url, "https://cdn/report.pdf");
        }
        Attachment::Image { .. } => panic!("expected file attachment"),
    }
}

#[test]
fn fresh_ids_are_version_4_uuids() {
    for _ in 0..20 {
        let h = HistoryId::new().0;
        assert_eq!((h >> 76) & 0xf, 4);
        assert_eq!((h >> 62) & 0x3, 2);
        let r = ReminderId::new();
        assert_eq!((r.0 >> 76) & 0xf, 4);
        assert_eq!(r.to_string().chars().nth(14), Some('4'));
    }
    assert_ne!(HistoryId::new().0, HistoryId::new().0);
}

#[test]
fn hive_pages_are_cleaned_and_cut() {
    let report = chatbot::hive_pages::page_report("https://x.org", "  a  \r\n\n   \n b\n");
    assert_eq!(report, "URL: https://x.org\n\nContent:\na\nb");
    let long = "é".repeat(8005);
    let cut = chatbot::hive_pages::page_report("u", &long);
    assert_eq!(cut, format!("URL: u\n\nContent:\n{}...\n\n[Content truncated - original length: 8005 characters]", "é".repeat(8000)));
    let short = "tiny".to_string();
    let body = format!("  {}  \n\n{}", "w".repeat(60), "v".repeat(50));
    let chosen = chatbot::hive_pages::choose_page_text(&vec![short.clone(), body], "fallback");
    assert_eq!(chosen, format!("{}\n{}", "w".repeat(60), "v".repeat(50)));
    assert_eq!(chatbot::hive_pages::choose_page_text(&vec![short], "  whole page "), "  whole page ");
    assert_eq!(chatbot::hive_pages::clean_text("x\n\n  y  "), "x\ny");
}
