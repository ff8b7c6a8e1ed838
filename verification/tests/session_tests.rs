use aichat::message::{Input, Message, MessageContent, MessageRole};
use aichat::model::Model;
use aichat::role::Role;
use aichat::session::{Session, SessionError};

fn model() -> Model {
    Model::new("gpt", Some(10000))
}

fn text_of(m: &Message) -> &str {
    match &m.content {
        MessageContent::Text(t) => t.as_str(),
        MessageContent::Mixed(_) => panic!("expected plain text content"),
    }
}

fn session_with_history() -> Session {
    let mut s = Session::new("demo", model(), None);
    s.add_message(&Input::from_text("first question"), "first answer")
        .unwrap();
    s.add_message(&Input::from_text("second question"), "second answer")
        .unwrap();
    s
}

#[test]
fn new_session_is_clean_and_empty() {
    let s = Session::new("demo", model(), None);
    assert!(s.is_empty());
    assert!(!s.dirty);
    assert_eq!(s.name(), "demo");
    assert_eq!(s.model(), "gpt");
    assert_eq!(s.temperature(), None);
    assert_eq!(s.tokens(), 0);
}

#[test]
fn new_session_takes_temperature_from_role() {
    let role = Role { name: "r".to_string(), prompt: "p".to_string(), temperature: Some(700) };
    let s = Session::new("demo", model(), Some(role));
    assert_eq!(s.temperature(), Some(700));
}

#[test]
fn compress_moves_history_into_ledger() {
    let mut s = session_with_history();
    let before: Vec<String> = s.messages().iter().map(|m| text_of(m).to_string()).collect();
    assert_eq!(before.len(), 4);

    s.compress("summary so far".to_string());

    assert_eq!(s.messages().len(), 1);
    let summary = &s.messages()[0];
    assert!(matches!(summary.role, MessageRole::System));
    assert_eq!(text_of(summary), "summary so far");
    let ledger: Vec<String> = s
        .compressed_messages()
        .iter()
        .map(|m| text_of(m).to_string())
        .collect();
    assert_eq!(ledger, before);
    assert!(s.role.is_none());
    assert!(s.dirty);
}

#[test]
fn repeated_compress_appends_to_ledger() {
    let mut s = session_with_history();
    s.compress("first summary".to_string());
    s.add_message(&Input::from_text("third question"), "third answer")
        .unwrap();
    let ledger_before = s.compressed_messages().len();
    s.compress("second summary".to_string());
    assert_eq!(s.compressed_messages().len(), ledger_before + 3);
    assert_eq!(text_of(&s.compressed_messages()[0]), "first question");
    assert_eq!(text_of(&s.messages()[0]), "second summary");
}

#[test]
fn need_compress_respects_floor() {
    let mut s = Session::new("demo", model(), None);
    s.add_message(&Input::from_text(&"a".repeat(3000)), "").unwrap();
    assert!(s.tokens() >= 3000);
    s.set_compress_threshold(500);
    assert!(!s.need_compress(2000));
}

#[test]
fn need_compress_above_threshold() {
    let mut s = Session::new("demo", model(), None);
    s.add_message(&Input::from_text(&"a".repeat(2500)), "").unwrap();
    assert_eq!(s.tokens(), 2500);
    assert!(s.need_compress(2000));
    assert!(!s.need_compress(3000));
}

#[test]
fn compress_scenario_drops_tokens_to_summary() {
    let mut s = Session::new("demo", model(), None);
    s.add_message(&Input::from_text(&"a".repeat(2500)), "").unwrap();
    assert_eq!(s.compress_threshold(), None);
    assert!(s.need_compress(2000));
    s.compress("Summary: …".to_string());
    assert_eq!(s.tokens(), "Summary: …".chars().count());
    assert!(!s.need_compress(2000));
}

#[test]
fn add_message_with_embedded_role_gives_two_messages() {
    let role = Role {
        name: "r".to_string(),
        prompt: "ask(__INPUT__)".to_string(),
        temperature: None,
    };
    let mut s = Session::new("demo", model(), Some(role));
    s.add_message(&Input::from_text("why"), "because").unwrap();
    assert_eq!(s.messages().len(), 2);
    assert!(matches!(s.messages()[0].role, MessageRole::User));
    assert_eq!(text_of(&s.messages()[0]), "ask(why)");
    assert!(matches!(s.messages()[1].role, MessageRole::Assistant));
    assert_eq!(text_of(&s.messages()[1]), "because");
    assert!(s.role.is_none());
    assert!(s.dirty);
}

#[test]
fn add_message_with_plain_role_gives_three_messages() {
    let role = Role { name: "r".to_string(), prompt: "be terse".to_string(), temperature: None };
    let mut s = Session::new("demo", model(), Some(role));
    s.add_message(&Input::from_text("why"), "because").unwrap();
    assert_eq!(s.messages().len(), 3);
    assert!(matches!(s.messages()[0].role, MessageRole::System));
    assert!(matches!(s.messages()[1].role, MessageRole::User));
    assert!(matches!(s.messages()[2].role, MessageRole::Assistant));
}

#[test]
fn add_message_merges_data_urls() {
    let mut s = Session::new("demo", model(), None);
    let input = Input {
        text: "look".to_string(),
        medias: vec!["img://1".to_string()],
        data_urls: vec![("id1".to_string(), "https://example.com/a.png".to_string())],
    };
    s.add_message(&input, "seen").unwrap();
    assert_eq!(s.data_urls().len(), 1);
    assert_eq!(s.data_urls()[0].0, "id1");
    assert_eq!(s.data_urls()[0].1, "https://example.com/a.png");
}

#[test]
fn build_emssages_reinjects_two_compressed_messages() {
    let messages = vec![Message {
        role: MessageRole::System,
        content: MessageContent::Text("summary".to_string()),
    }];
    let compressed: Vec<Message> = (0..5)
        .map(|i| Message {
            role: MessageRole::User,
            content: MessageContent::Text(format!("old {i}")),
        })
        .collect();
    let s = Session::restore(
        "demo",
        "/tmp/demo.yaml",
        model(),
        "gpt".to_string(),
        None,
        messages,
        vec![],
        compressed,
        None,
    );
    let request = s.build_emssages(&Input::from_text("next"));
    assert_eq!(request.len(), 4);
    assert_eq!(text_of(&request[0]), "summary");
    assert_eq!(text_of(&request[1]), "old 3");
    assert_eq!(text_of(&request[2]), "old 4");
    assert_eq!(text_of(&request[3]), "next");
}

#[test]
fn build_emssages_without_enough_compressed() {
    let mut s = Session::new("demo", model(), None);
    s.add_message(&Input::from_text("q"), "a").unwrap();
    let request = s.build_emssages(&Input::from_text("next"));
    assert_eq!(request.len(), 3);
    assert_eq!(text_of(&request[2]), "next");
}

#[test]
fn build_emssages_is_read_only() {
    let s = session_with_history();
    let before = s.messages().len();
    let _ = s.build_emssages(&Input::from_text("next"));
    assert_eq!(s.messages().len(), before);
}

#[test]
fn update_role_refused_on_nonempty_session() {
    let mut s = session_with_history();
    let role = Role { name: "r".to_string(), prompt: "p".to_string(), temperature: Some(500) };
    let err = s.update_role(Some(role)).unwrap_err();
    assert_eq!(err, SessionError::NotEmpty);
    assert_eq!(s.temperature(), None);
}

#[test]
fn update_role_rebinds_on_empty_session() {
    let mut s = Session::new("demo", model(), None);
    let role = Role { name: "r".to_string(), prompt: "p".to_string(), temperature: Some(500) };
    s.update_role(Some(role)).unwrap();
    assert_eq!(s.temperature(), Some(500));
    assert!(s.role.is_some());
}

#[test]
fn guards_report_expected_errors() {
    let s = Session::new("demo", model(), None);
    assert_eq!(s.guard_save().unwrap_err(), SessionError::NotSaved);
    assert!(s.guard_empty().is_ok());
    let with_history = session_with_history();
    assert_eq!(with_history.guard_empty().unwrap_err(), SessionError::NotEmpty);
    assert_eq!(
        SessionError::NotSaved.describe(),
        "Not found session"
    );
    assert_eq!(
        SessionError::NotEmpty.describe(),
        "Cannot perform this action in a session with messages"
    );
}

#[test]
fn clear_messages_empties_all_three_units() {
    let mut s = session_with_history();
    s.add_message(
        &Input {
            text: "look".to_string(),
            medias: vec![],
            data_urls: vec![("id".to_string(), "url".to_string())],
        },
        "ok",
    )
    .unwrap();
    s.compress("sum".to_string());
    s.clear_messages();
    assert!(s.is_empty());
    assert_eq!(s.compressed_messages().len(), 0);
    assert_eq!(s.data_urls().len(), 0);
    assert!(s.dirty);
}

#[test]
fn tokens_and_percent_rounds_to_hundredths() {
    let mut s = Session::new("demo", model(), None);
    s.add_message(&Input::from_text(&"a".repeat(2500)), "").unwrap();
    let (tokens, percent) = s.tokens_and_percent();
    assert_eq!(tokens, 2500);
    assert_eq!(percent, 2500);
}

#[test]
fn tokens_and_percent_zero_without_ceiling() {
    let mut s = Session::new("demo", Model::new("gpt", None), None);
    s.add_message(&Input::from_text("hello"), "").unwrap();
    let (tokens, percent) = s.tokens_and_percent();
    assert!(tokens > 0);
    assert_eq!(percent, 0);
}

#[test]
fn user_messages_len_counts_only_user_turns() {
    let s = session_with_history();
    assert_eq!(s.user_messages_len(), 2);
}

#[test]
fn is_temp_matches_reserved_name() {
    assert!(Session::new("temp", model(), None).is_temp());
    assert!(!Session::new("demo", model(), None).is_temp());
}

#[test]
fn info_lists_settings_and_history() {
    let mut s = Session::new("demo", model(), None);
    s.set_temperature(Some(700));
    s.set_compress_threshold(1500);
    s.add_message(&Input::from_text("why"), "because").unwrap();
    let info = s.info();
    let lines: Vec<&str> = info.lines().collect();
    assert_eq!(lines[0], format!("{:<20}{}", "model", "gpt"));
    assert_eq!(lines[1], format!("{:<20}{}", "temperature", "0.7"));
    assert_eq!(lines[2], format!("{:<20}{}", "compress_threshold", "1500"));
    assert_eq!(lines[3], format!("{:<20}{}", "max_input_tokens", "10000"));
    assert_eq!(lines[4], "");
    assert_eq!(lines[5], "demo）why");
    assert_eq!(lines[6], "because");
}

#[test]
fn info_resolves_attachment_urls() {
    let mut s = Session::new("demo", model(), None);
    let input = Input {
        text: "look".to_string(),
        medias: vec!["img://1".to_string()],
        data_urls: vec![("img://1".to_string(), "https://example.com/a.png".to_string())],
    };
    s.add_message(&input, "seen").unwrap();
    let info = s.info();
    assert!(info.contains("demo）look\nhttps://example.com/a.png"));
}

#[test]
fn input_render_appends_attachment_urls() {
    let input = Input {
        text: "caption".to_string(),
        medias: vec!["u1".to_string(), "u2".to_string()],
        data_urls: vec![],
    };
    assert_eq!(input.render(), "caption\nu1\nu2");
    assert_eq!(Input::from_text("plain").render(), "plain");
}

#[test]
fn set_model_rebinds_identifier() {
    let mut s = Session::new("demo", model(), None);
    s.set_model(Model::new("other", None)).unwrap();
    assert_eq!(s.model(), "other");
}
