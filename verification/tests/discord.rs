use chatbot::conversation::{ConversationAction, Platform};
use chatbot::discord::{filter, identity, replace_every, Handler, InboundMessage, Mention};

fn message(author_id: u64, content: &str, mentions: Vec<Mention>) -> InboundMessage {
    InboundMessage {
        author_id,
        author_global_name: Some("Ann".to_string()),
        author_name: "ann_99".to_string(),
        channel_id: 555,
        in_guild: true,
        content: content.to_string(),
        mentions,
    }
}

#[test]
fn identity_names_with_id() {
    assert_eq!(identity("Ann", 7), "Ann (id:7)");
}

#[test]
fn replace_every_is_str_replace() {
    for (t, p, r) in [("aaa", "aa", "b"), ("<@1> hi <@1>", "<@1>", "X"), ("none", "zz", "y"), ("", "a", "b")] {
        assert_eq!(replace_every(t, p, r), t.replace(p, r));
    }
}

#[test]
fn mentions_are_written_out_and_text_cleaned() {
    let mentions = vec![
        Mention { id: 1, global_name: None, name: "botacct".to_string() },
        Mention { id: 2, global_name: Some("Bob".to_string()), name: "bob_1".to_string() },
        Mention { id: 3, global_name: None, name: "carl".to_string() },
    ];
    let m = message(9, "  //<@1>   hey\n\t<@!2> and <@3> ", mentions);
    assert_eq!(filter(&m, 1, "Helper").unwrap(), "Helper (id:1) hey Bob (id:2) and carl (id:3)");
    assert_eq!(filter(&message(9, " / \n ", vec![]), 1, "Helper"), None);
}

#[test]
fn messages_are_routed_to_their_channel() {
    let h = Handler { bot_user_id: 1, bot_name: "Helper".to_string() };
    let (c, action) = h.message(&message(9, "hello   there", vec![]), vec![]).unwrap();
    assert_eq!(c.id.0, Platform::Discord);
    assert_eq!(c.id.1, "555");
    assert!(c.is_group);
    assert_eq!(c.bot_identity, "Helper (id:1)");
    match action {
        ConversationAction::NewMessage { msg, user_id, name, attachments } => {
            assert_eq!(msg, "Ann (id:9): hello there");
            assert_eq!(user_id, "9");
            assert_eq!(name, "Ann");
            assert!(attachments.is_empty());
        }
        _ => panic!("expected a new message"),
    }
    assert!(h.message(&message(1, "from myself", vec![]), vec![]).is_none());
    assert!(h.message(&message(9, "   ", vec![]), vec![]).is_none());
}
