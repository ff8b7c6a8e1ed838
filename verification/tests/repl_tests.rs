use aichat::message::Input;
use aichat::model::Model;
use aichat::repl::{
    apply_exchange, dump_repl_help, dump_unknown_command, parse_line, repl_step, AbortSignal,
    AbortState, ExchangeOutcome, LineSignal, ReplAction, ReplCmd,
};
use aichat::session::Session;

#[test]
fn parse_line_submits_plain_text() {
    match parse_line("hello there") {
        ReplAction::Dispatch(ReplCmd::Submit(text)) => assert_eq!(text, "hello there"),
        _ => panic!("expected a submission"),
    }
}

#[test]
fn parse_line_simple_commands() {
    assert!(matches!(parse_line(".exit"), ReplAction::Quit));
    assert!(matches!(parse_line(".help"), ReplAction::Help));
    assert!(matches!(parse_line(".history"), ReplAction::PrintHistory));
    assert!(matches!(parse_line(".copy"), ReplAction::CopyReply));
    assert!(matches!(
        parse_line(".info"),
        ReplAction::Dispatch(ReplCmd::Info)
    ));
}

#[test]
fn parse_line_clear_variants() {
    assert!(matches!(parse_line(".clear screen"), ReplAction::ClearScreen));
    assert!(matches!(parse_line(".clear history"), ReplAction::ClearHistory));
    assert!(matches!(
        parse_line(".clear role"),
        ReplAction::Dispatch(ReplCmd::ClearRole)
    ));
    assert!(matches!(parse_line(".clear"), ReplAction::Unknown));
    assert!(matches!(parse_line(".clear everything"), ReplAction::Unknown));
}

#[test]
fn parse_line_role() {
    match parse_line(".role shell") {
        ReplAction::Dispatch(ReplCmd::SetRole(name)) => assert_eq!(name, "shell"),
        _ => panic!("expected a role selection"),
    }
    assert!(matches!(parse_line(".role"), ReplAction::RoleUsage));
}

#[test]
fn parse_line_multiline_strips_braces() {
    match parse_line(".multiline {two\nlines}") {
        ReplAction::Dispatch(ReplCmd::Submit(text)) => assert_eq!(text, "two\nlines"),
        _ => panic!("expected a submission"),
    }
    assert!(matches!(parse_line(".multiline"), ReplAction::MultilineUsage));
    match parse_line(".multiline plain") {
        ReplAction::Dispatch(ReplCmd::Submit(text)) => assert_eq!(text, "plain"),
        _ => panic!("expected a submission"),
    }
}

#[test]
fn parse_line_prompt_and_set() {
    match parse_line(".prompt {act brief}") {
        ReplAction::Dispatch(ReplCmd::Prompt(text)) => assert_eq!(text, "act brief"),
        _ => panic!("expected a prompt creation"),
    }
    assert!(matches!(parse_line(".prompt"), ReplAction::PromptUsage));
    match parse_line(".set dry_run true") {
        ReplAction::Dispatch(ReplCmd::UpdateConfig(text)) => assert_eq!(text, "dry_run true"),
        _ => panic!("expected a config update"),
    }
}

#[test]
fn parse_line_trims_arguments() {
    match parse_line(".role   shell  ") {
        ReplAction::Dispatch(ReplCmd::SetRole(name)) => assert_eq!(name, "shell"),
        _ => panic!("expected a role selection"),
    }
}

#[test]
fn parse_line_unknown_command() {
    assert!(matches!(parse_line(".bogus"), ReplAction::Unknown));
    assert!(matches!(parse_line(".bogus args"), ReplAction::Unknown));
    assert!(matches!(parse_line(".exit now"), ReplAction::Quit));
}

#[test]
fn repl_step_line_resets_flags() {
    let step = repl_step(true, &LineSignal::Line(".exit".to_string()));
    assert!(!step.quit);
    assert!(!step.already_ctrlc);
    assert!(!step.warn);
    assert_eq!(step.abort, AbortState::Clear);
    assert!(matches!(step.action, Some(ReplAction::Quit)));
}

#[test]
fn repl_step_double_ctrlc_quits() {
    let first = repl_step(false, &LineSignal::CtrlC);
    assert!(!first.quit);
    assert!(first.warn);
    assert!(first.already_ctrlc);
    assert_eq!(first.abort, AbortState::CtrlC);

    let second = repl_step(first.already_ctrlc, &LineSignal::CtrlC);
    assert!(second.quit);
    assert!(!second.warn);
}

#[test]
fn repl_step_ctrld_quits_unconditionally() {
    let step = repl_step(false, &LineSignal::CtrlD);
    assert!(step.quit);
    assert_eq!(step.abort, AbortState::CtrlD);
    assert!(step.action.is_none());
}

#[test]
fn abort_signal_transitions() {
    let mut signal = AbortSignal::new();
    assert!(!signal.aborted());
    signal.set_ctrlc();
    assert!(signal.aborted_ctrlc());
    assert!(!signal.aborted_ctrld());
    signal.set_ctrld();
    assert!(signal.aborted_ctrld());
    signal.reset();
    assert!(!signal.aborted());
}

#[test]
fn cancelled_exchange_leaves_session_untouched() {
    let mut s = Session::new("demo", Model::new("gpt", None), None);
    s.add_message(&Input::from_text("q"), "a").unwrap();
    let before_len = s.messages().len();
    let before_tokens = s.tokens();
    let before_dirty = s.dirty;

    let mutated = apply_exchange(&mut s, &Input::from_text("next"), &ExchangeOutcome::Cancelled);

    assert!(!mutated);
    assert_eq!(s.messages().len(), before_len);
    assert_eq!(s.tokens(), before_tokens);
    assert_eq!(s.dirty, before_dirty);
}

#[test]
fn failed_exchange_leaves_session_untouched() {
    let mut s = Session::new("demo", Model::new("gpt", None), None);
    let mutated = apply_exchange(
        &mut s,
        &Input::from_text("next"),
        &ExchangeOutcome::Failed("boom".to_string()),
    );
    assert!(!mutated);
    assert!(s.is_empty());
    assert!(!s.dirty);
}

#[test]
fn reply_exchange_records_the_turn() {
    let mut s = Session::new("demo", Model::new("gpt", None), None);
    let mutated = apply_exchange(
        &mut s,
        &Input::from_text("question"),
        &ExchangeOutcome::Reply("answer".to_string()),
    );
    assert!(mutated);
    assert_eq!(s.messages().len(), 2);
    assert!(s.dirty);
}

#[test]
fn help_and_unknown_texts() {
    assert_eq!(
        dump_unknown_command(),
        "Unknown command. Type \".help\" for more information."
    );
    let help = dump_repl_help();
    assert!(help.contains(".exit           Exit the REPL"));
    assert!(help.contains(".info           Print the information"));
    assert!(help.ends_with("Press Ctrl+C to abort session, Ctrl+D to exit the REPL"));
}
