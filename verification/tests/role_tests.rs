use aichat::message::{ContentPart, Input, Message, MessageContent, MessageRole};
use aichat::role::{complete_prompt_args, Role};

fn role(name: &str, prompt: &str) -> Role {
    Role { name: name.to_string(), prompt: prompt.to_string(), temperature: None }
}

#[test]
fn test_merge_prompt_name() {
    assert_eq!(
        complete_prompt_args("convert __ARG1__", "convert:foo"),
        "convert foo"
    );
    assert_eq!(
        complete_prompt_args("convert __ARG1__ to __ARG2__", "convert:foo:bar"),
        "convert foo to bar"
    );
}

#[test]
fn complete_prompt_args_trims_and_keeps_unmatched() {
    assert_eq!(
        complete_prompt_args("  convert __ARG1__ to __ARG2__  ", "convert:foo"),
        "convert foo to __ARG2__"
    );
    assert_eq!(complete_prompt_args("plain", "plain:a:b"), "plain");
}

#[test]
fn complete_prompt_args_method_rewrites_name() {
    let mut r = role("convert", "convert __ARG1__");
    r.complete_prompt_args("convert:yaml");
    assert_eq!(r.name, "convert:yaml");
    assert_eq!(r.prompt, "convert yaml");
}

#[test]
fn embedded_is_recomputed_from_prompt() {
    let mut r = role("x", "say __INPUT__ now");
    assert!(r.embedded());
    r.prompt = "say it now".to_string();
    assert!(!r.embedded());
}

#[test]
fn match_name_parameterized_arity() {
    let r = role("convert:foo", "p");
    assert!(r.match_name("convert:bar"));
    assert!(!r.match_name("convert"));
    assert!(!r.match_name("other:foo"));
    assert!(!r.match_name("convert:a:b"));
}

#[test]
fn match_name_exact_when_unparameterized() {
    let r = role("code", "p");
    assert!(r.match_name("code"));
    assert!(!r.match_name("code:x"));
    assert!(!r.match_name("codes"));
}

#[test]
fn build_messages_embedded_single_user_message() {
    let r = role("x", "Translate: __INPUT__!");
    let input = Input::from_text("hello");
    let msgs = r.build_messages(&input);
    assert_eq!(msgs.len(), 1);
    match &msgs[0] {
        Message { role: MessageRole::User, content: MessageContent::Text(t) } => {
            assert_eq!(t, "Translate: hello!");
        }
        _ => panic!("expected a single merged user message"),
    }
}

#[test]
fn build_messages_plain_system_then_user() {
    let r = role("x", "You are terse.");
    let input = Input::from_text("hi");
    let msgs = r.build_messages(&input);
    assert_eq!(msgs.len(), 2);
    match &msgs[0] {
        Message { role: MessageRole::System, content: MessageContent::Text(t) } => {
            assert_eq!(t, "You are terse.");
        }
        _ => panic!("expected a system message first"),
    }
    match &msgs[1] {
        Message { role: MessageRole::User, content: MessageContent::Text(t) } => {
            assert_eq!(t, "hi");
        }
        _ => panic!("expected a user message second"),
    }
}

#[test]
fn build_messages_embedded_mixed_payload() {
    let r = role("x", "Look: __INPUT__");
    let input = Input {
        text: "caption".to_string(),
        medias: vec!["img://1".to_string()],
        data_urls: vec![],
    };
    let msgs = r.build_messages(&input);
    assert_eq!(msgs.len(), 1);
    match &msgs[0].content {
        MessageContent::Mixed(parts) => {
            assert_eq!(parts.len(), 2);
            match &parts[0] {
                ContentPart::Text(t) => assert_eq!(t, "Look: caption"),
                _ => panic!("expected a text block first"),
            }
            match &parts[1] {
                ContentPart::Attachment(u) => assert_eq!(u, "img://1"),
                _ => panic!("expected the attachment second"),
            }
        }
        _ => panic!("expected a mixed payload"),
    }
}

#[test]
fn echo_messages_both_modes() {
    let embedded = role("x", "wrap(__INPUT__)");
    let plain = role("x", "be brief");
    let input = Input::from_text("q");
    assert_eq!(embedded.echo_messages(&input), "wrap(q)");
    assert_eq!(plain.echo_messages(&input), "be brief\n\nq");
}

#[test]
fn presets_have_expected_names() {
    let exec_role = Role::for_execute("linux", "bash");
    assert_eq!(exec_role.name, "__execute__");
    assert!(exec_role.prompt.contains("bash commands for linux"));
    assert!(exec_role.prompt.contains("using &&"));
    assert!(!exec_role.embedded());

    let nush = Role::for_execute("linux", "nushell");
    assert!(nush.prompt.contains("using ;"));

    let describe = Role::for_describe_command();
    assert_eq!(describe.name, "__describe_command__");
    assert!(!describe.embedded());

    let code = Role::for_code();
    assert_eq!(code.name, "__code__");
    assert!(code.prompt.starts_with("Provide only code"));
}
