//! The pure decision logic of the REPL: parsing a line into a dot-command or
//! a submission, the Ctrl-C/Ctrl-D step of the read loop, the shared
//! tri-state abort flag, and how an exchange's outcome is applied to the
//! session — a cancelled or failed exchange leaves it untouched.

use vstd::prelude::*;

use crate::message::Input;
use crate::session::{role_prompt_of, spec_after_add, Session};
use crate::text::{find_char_from, first_char_at, padded, pad_right, str_eq, trim_spaces, trimmed};

verus! {

/// A command dispatched to the handler.
#[derive(Debug)]
pub enum ReplCmd {
    Submit(String),
    SetRole(String),
    Prompt(String),
    UpdateConfig(String),
    ClearRole,
    Info,
}

/// The abstract value of a `ReplCmd`.
pub enum ReplCmdV {
    Submit(Seq<char>),
    SetRole(Seq<char>),
    Prompt(Seq<char>),
    UpdateConfig(Seq<char>),
    ClearRole,
    Info,
}

impl View for ReplCmd {
    type V = ReplCmdV;

    open spec fn view(&self) -> ReplCmdV {
        match self {
            ReplCmd::Submit(s) => ReplCmdV::Submit(s@),
            ReplCmd::SetRole(s) => ReplCmdV::SetRole(s@),
            ReplCmd::Prompt(s) => ReplCmdV::Prompt(s@),
            ReplCmd::UpdateConfig(s) => ReplCmdV::UpdateConfig(s@),
            ReplCmd::ClearRole => ReplCmdV::ClearRole,
            ReplCmd::Info => ReplCmdV::Info,
        }
    }
}

/// What one input line asks the REPL to do.
#[derive(Debug)]
pub enum ReplAction {
    /// Leave the loop.
    Quit,
    /// Print the command summary.
    Help,
    /// Clear the terminal screen.
    ClearScreen,
    /// Clear the line editor's history store.
    ClearHistory,
    /// Print the line editor's history.
    PrintHistory,
    /// Remind how `.role` is used.
    RoleUsage,
    /// Remind how `.multiline` is used.
    MultilineUsage,
    /// Remind how `.prompt` is used.
    PromptUsage,
    /// Copy the last reply.
    CopyReply,
    /// Report an unknown command.
    Unknown,
    /// Hand a command to the handler.
    Dispatch(ReplCmd),
}

/// The abstract value of a `ReplAction`.
pub enum ReplActionV {
    Quit,
    Help,
    ClearScreen,
    ClearHistory,
    PrintHistory,
    RoleUsage,
    MultilineUsage,
    PromptUsage,
    CopyReply,
    Unknown,
    Dispatch(ReplCmdV),
}

impl View for ReplAction {
    type V = ReplActionV;

    open spec fn view(&self) -> ReplActionV {
        match self {
            ReplAction::Quit => ReplActionV::Quit,
            ReplAction::Help => ReplActionV::Help,
            ReplAction::ClearScreen => ReplActionV::ClearScreen,
            ReplAction::ClearHistory => ReplActionV::ClearHistory,
            ReplAction::PrintHistory => ReplActionV::PrintHistory,
            ReplAction::RoleUsage => ReplActionV::RoleUsage,
            ReplAction::MultilineUsage => ReplActionV::MultilineUsage,
            ReplAction::PromptUsage => ReplActionV::PromptUsage,
            ReplAction::CopyReply => ReplActionV::CopyReply,
            ReplAction::Unknown => ReplActionV::Unknown,
            ReplAction::Dispatch(c) => ReplActionV::Dispatch(c@),
        }
    }
}

/// `t` with one enclosing brace pair removed, as the multiline commands
/// accept.
pub open spec fn spec_strip_braces(t: Seq<char>) -> Seq<char> {
    if t.len() >= 2 && t[0] == '{' && t[t.len() - 1] == '}' {
        t.subrange(1, t.len() - 1)
    } else {
        t
    }
}

/// What a dot-command with the given (already trimmed) arguments asks for.
pub open spec fn spec_dispatch_command(cmd: Seq<char>, args: Option<Seq<char>>) -> ReplActionV {
    if cmd == ".exit"@ {
        ReplActionV::Quit
    } else if cmd == ".help"@ {
        ReplActionV::Help
    } else if cmd == ".clear"@ {
        if args == Some("screen"@) {
            ReplActionV::ClearScreen
        } else if args == Some("history"@) {
            ReplActionV::ClearHistory
        } else if args == Some("role"@) {
            ReplActionV::Dispatch(ReplCmdV::ClearRole)
        } else {
            ReplActionV::Unknown
        }
    } else if cmd == ".history"@ {
        ReplActionV::PrintHistory
    } else if cmd == ".role"@ {
        match args {
            Some(name) => ReplActionV::Dispatch(ReplCmdV::SetRole(name)),
            None => ReplActionV::RoleUsage,
        }
    } else if cmd == ".info"@ {
        ReplActionV::Dispatch(ReplCmdV::Info)
    } else if cmd == ".multiline"@ {
        let text = match args {
            Some(a) => a,
            None => Seq::<char>::empty(),
        };
        if text.len() == 0 {
            ReplActionV::MultilineUsage
        } else {
            ReplActionV::Dispatch(ReplCmdV::Submit(spec_strip_braces(text)))
        }
    } else if cmd == ".copy"@ {
        ReplActionV::CopyReply
    } else if cmd == ".set"@ {
        ReplActionV::Dispatch(
            ReplCmdV::UpdateConfig(
                match args {
                    Some(a) => a,
                    None => Seq::<char>::empty(),
                },
            ),
        )
    } else if cmd == ".prompt"@ {
        let text = match args {
            Some(a) => a,
            None => Seq::<char>::empty(),
        };
        if text.len() == 0 {
            ReplActionV::PromptUsage
        } else {
            ReplActionV::Dispatch(ReplCmdV::Prompt(spec_strip_braces(text)))
        }
    } else {
        ReplActionV::Unknown
    }
}

/// What an input line asks for: a line that does not start with the command
/// prefix is submitted as user input; otherwise the word before the first
/// space names the command and the rest, trimmed, are its arguments.
pub open spec fn spec_parse_line(line: Seq<char>) -> ReplActionV {
    if line.len() == 0 || line[0] != '.' {
        ReplActionV::Dispatch(ReplCmdV::Submit(line))
    } else if exists|i: int| first_char_at(line, ' ', i) {
        let i = choose|i: int| first_char_at(line, ' ', i);
        spec_dispatch_command(line.take(i), Some(trimmed(line.skip(i + 1))))
    } else {
        spec_dispatch_command(line, None)
    }
}

fn strip_braces(t: String) -> (r: String)
    ensures
        r@ == spec_strip_braces(t@),
{
    let n = t.as_str().unicode_len();
    if n >= 2 && t.as_str().get_char(0) == '{' && t.as_str().get_char(n - 1) == '}' {
        let inner = t.as_str().substring_char(1, n - 1);
        inner.to_owned()
    } else {
        t
    }
}

fn dispatch_command(cmd: String, args: Option<String>) -> (r: ReplAction)
    ensures
        r@ == spec_dispatch_command(
            cmd@,
            match args {
                Some(a) => Some(a@),
                None => None,
            },
        ),
{
    if str_eq(cmd.as_str(), ".exit") {
        ReplAction::Quit
    } else if str_eq(cmd.as_str(), ".help") {
        ReplAction::Help
    } else if str_eq(cmd.as_str(), ".clear") {
        match args {
            Some(a) => {
                if str_eq(a.as_str(), "screen") {
                    ReplAction::ClearScreen
                } else if str_eq(a.as_str(), "history") {
                    ReplAction::ClearHistory
                } else if str_eq(a.as_str(), "role") {
                    ReplAction::Dispatch(ReplCmd::ClearRole)
                } else {
                    ReplAction::Unknown
                }
            },
            None => ReplAction::Unknown,
        }
    } else if str_eq(cmd.as_str(), ".history") {
        ReplAction::PrintHistory
    } else if str_eq(cmd.as_str(), ".role") {
        match args {
            Some(name) => ReplAction::Dispatch(ReplCmd::SetRole(name)),
            None => ReplAction::RoleUsage,
        }
    } else if str_eq(cmd.as_str(), ".info") {
        ReplAction::Dispatch(ReplCmd::Info)
    } else if str_eq(cmd.as_str(), ".multiline") {
        let text = match args {
            Some(a) => a,
            None => String::new(),
        };
        if text.as_str().unicode_len() == 0 {
            ReplAction::MultilineUsage
        } else {
            ReplAction::Dispatch(ReplCmd::Submit(strip_braces(text)))
        }
    } else if str_eq(cmd.as_str(), ".copy") {
        ReplAction::CopyReply
    } else if str_eq(cmd.as_str(), ".set") {
        let text = match args {
            Some(a) => a,
            None => String::new(),
        };
        ReplAction::Dispatch(ReplCmd::UpdateConfig(text))
    } else if str_eq(cmd.as_str(), ".prompt") {
        let text = match args {
            Some(a) => a,
            None => String::new(),
        };
        if text.as_str().unicode_len() == 0 {
            ReplAction::PromptUsage
        } else {
            ReplAction::Dispatch(ReplCmd::Prompt(strip_braces(text)))
        }
    } else {
        ReplAction::Unknown
    }
}

/// Parses one input line, as `spec_parse_line` describes.
pub fn parse_line(line: &str) -> (r: ReplAction)
    ensures
        r@ == spec_parse_line(line@),
{
    let n = line.unicode_len();
    if n == 0 || line.get_char(0) != '.' {
        return ReplAction::Dispatch(ReplCmd::Submit(line.to_owned()));
    }
    match find_char_from(line, ' ', 0) {
        Some(i) => {
            proof {
                crate::text::lemma_first_char_at_unique(line@, ' ', i as int);
                assert(line@.subrange(0, i as int) =~= line@.take(i as int));
            }
            let cmd = line.substring_char(0, i).to_owned();
            let tail = line.substring_char(i + 1, n);
            let args = trim_spaces(tail);
            proof {
                assert(tail@ =~= line@.skip(i + 1));
            }
            dispatch_command(cmd, Some(args))
        },
        None => {
            proof {
                assert forall|i: int| !first_char_at(line@, ' ', i) by {
                    if 0 <= i < line@.len() {
                        assert(line@[i] != ' ');
                    }
                }
            }
            dispatch_command(line.to_owned(), None)
        },
    }
}

/// The shared cancellation flag: no abort, an interrupt, or an end of input.
#[derive(Clone, Copy, PartialEq, Eq, Structural, Debug)]
pub enum AbortState {
    Clear,
    CtrlC,
    CtrlD,
}

/// The tri-state abort flag shared between the read loop and an in-flight
/// exchange; a new submission always starts from a freshly reset flag.
#[derive(Debug)]
pub struct AbortSignal {
    state: AbortState,
}

impl AbortSignal {
    /// The current flag value.
    pub closed spec fn spec_state(&self) -> AbortState {
        self.state
    }

    /// A fresh, unset flag.
    pub fn new() -> (r: AbortSignal)
        ensures
            r.spec_state() == AbortState::Clear,
    {
        AbortSignal { state: AbortState::Clear }
    }

    /// Clears the flag; done on every successfully read line.
    pub fn reset(&mut self)
        ensures
            final(self).spec_state() == AbortState::Clear,
    {
        self.state = AbortState::Clear;
    }

    /// Records an interrupt.
    pub fn set_ctrlc(&mut self)
        ensures
            final(self).spec_state() == AbortState::CtrlC,
    {
        self.state = AbortState::CtrlC;
    }

    /// Records an end of input.
    pub fn set_ctrld(&mut self)
        ensures
            final(self).spec_state() == AbortState::CtrlD,
    {
        self.state = AbortState::CtrlD;
    }

    /// Whether an interrupt is pending.
    pub fn aborted_ctrlc(&self) -> (r: bool)
        ensures
            r == (self.spec_state() == AbortState::CtrlC),
    {
        match self.state {
            AbortState::CtrlC => true,
            _ => false,
        }
    }

    /// Whether an end of input is pending.
    pub fn aborted_ctrld(&self) -> (r: bool)
        ensures
            r == (self.spec_state() == AbortState::CtrlD),
    {
        match self.state {
            AbortState::CtrlD => true,
            _ => false,
        }
    }

    /// Whether any abort is pending.
    pub fn aborted(&self) -> (r: bool)
        ensures
            r == (self.spec_state() != AbortState::Clear),
    {
        match self.state {
            AbortState::Clear => false,
            _ => true,
        }
    }
}

/// What the line editor hands back for one read.
#[derive(Debug)]
pub enum LineSignal {
    Line(String),
    CtrlC,
    CtrlD,
}

/// The decisions of one read-loop iteration.
#[derive(Debug)]
pub struct ReplStep {
    /// Leave the loop.
    pub quit: bool,
    /// The consecutive-interrupt marker after this iteration.
    pub already_ctrlc: bool,
    /// Emit the interrupt warning.
    pub warn: bool,
    /// The abort flag value after this iteration.
    pub abort: AbortState,
    /// The action the line asks for, when one was read.
    pub action: Option<ReplAction>,
}

/// One iteration of the read loop: a line resets both flags and is parsed; a
/// first interrupt warns instead of exiting, a second consecutive one exits;
/// an end of input exits unconditionally.
pub fn repl_step(already_ctrlc: bool, sig: &LineSignal) -> (r: ReplStep)
    ensures
        match sig {
            LineSignal::Line(l) => !r.quit && !r.already_ctrlc && !r.warn && r.abort
                == AbortState::Clear && (r.action is Some) && r.action->0@ == spec_parse_line(l@),
            LineSignal::CtrlC => r.abort == AbortState::CtrlC && (r.action is None) && r.quit
                == already_ctrlc && r.warn == !already_ctrlc && r.already_ctrlc,
            LineSignal::CtrlD => r.abort == AbortState::CtrlD && (r.action is None) && r.quit
                && r.already_ctrlc == already_ctrlc && !r.warn,
        },
{
    match sig {
        LineSignal::Line(l) => ReplStep {
            quit: false,
            already_ctrlc: false,
            warn: false,
            abort: AbortState::Clear,
            action: Some(parse_line(l.as_str())),
        },
        LineSignal::CtrlC => ReplStep {
            quit: already_ctrlc,
            already_ctrlc: true,
            warn: !already_ctrlc,
            abort: AbortState::CtrlC,
            action: None,
        },
        LineSignal::CtrlD => ReplStep {
            quit: true,
            already_ctrlc,
            warn: false,
            abort: AbortState::CtrlD,
            action: None,
        },
    }
}

/// How a submission's exchange ended.
#[derive(Debug)]
pub enum ExchangeOutcome {
    /// The assistant's reply text.
    Reply(String),
    /// The user cancelled the exchange.
    Cancelled,
    /// The exchange failed; the text describes why.
    Failed(String),
}

/// Applies an exchange's outcome to the session: only a reply is recorded,
/// through `add_message`; a cancelled or failed exchange leaves the session
/// — history and dirty flag alike — exactly as it was. Returns whether the
/// session was mutated.
pub fn apply_exchange(session: &mut Session, input: &Input, outcome: &ExchangeOutcome) -> (r: bool)
    ensures
        match outcome {
            ExchangeOutcome::Reply(text) => r && final(session).msgs() == spec_after_add(
                old(session).msgs(),
                role_prompt_of(old(session).spec_role()),
                input@,
                text@,
            ) && final(session).spec_dirty() && (final(session).spec_role() is None) && final(session).urls() == old(session).urls() + input@.data_urls && final(session).compressed()
                == old(session).compressed() && final(session).same_config(old(session)),
            _ => !r && *final(session) == *old(session),
        },
{
    match outcome {
        ExchangeOutcome::Reply(text) => {
            let _applied = session.add_message(input, text.as_str());
            true
        },
        _ => false,
    }
}

/// The line of the command summary for one command.
pub open spec fn spec_help_line(name: Seq<char>, desc: Seq<char>) -> Seq<char> {
    padded(name, 15) + " "@ + desc
}

fn help_line(name: &str, desc: &str) -> (r: String)
    ensures
        r@ == spec_help_line(name@, desc@),
{
    let mut out = pad_right(name, 15);
    out.append(" ");
    out.append(desc);
    out
}

/// The report for a line that names no known command.
pub fn dump_unknown_command() -> (r: String)
    ensures
        r@ == "Unknown command. Type \".help\" for more information."@,
{
    String::from_str("Unknown command. Type \".help\" for more information.")
}

/// The command summary the `.help` command prints.
pub fn dump_repl_help() -> (r: String)
    ensures
        r@ == spec_help_line(".info"@, "Print the information"@) + "\n"@ + spec_help_line(
            ".set"@,
            "Modify the configuration temporarily"@,
        ) + "\n"@ + spec_help_line(".role"@, "Select a role"@) + "\n"@ + spec_help_line(
            ".clear role"@,
            "Clear the currently selected role"@,
        ) + "\n"@ + spec_help_line(".prompt"@, "Add prompt, aka create a temporary role"@) + "\n"@
            + spec_help_line(".history"@, "Print the history"@) + "\n"@ + spec_help_line(
            ".clear history"@,
            "Clear the history"@,
        ) + "\n"@ + spec_help_line(".clear screen"@, "Clear the screen"@) + "\n"@ + spec_help_line(
            ".multiline"@,
            "Enter multiline editor mode"@,
        ) + "\n"@ + spec_help_line(".copy"@, "Copy last reply message"@) + "\n"@ + spec_help_line(
            ".help"@,
            "Print this help message"@,
        ) + "\n"@ + spec_help_line(".exit"@, "Exit the REPL"@)
            + "\n\nPress Ctrl+C to abort session, Ctrl+D to exit the REPL"@,
{
    let mut out = String::new();
    let line1 = help_line(".info", "Print the information");
    out.append(line1.as_str());
    out.append("\n");
    let line2 = help_line(".set", "Modify the configuration temporarily");
    out.append(line2.as_str());
    out.append("\n");
    let line3 = help_line(".role", "Select a role");
    out.append(line3.as_str());
    out.append("\n");
    let line4 = help_line(".clear role", "Clear the currently selected role");
    out.append(line4.as_str());
    out.append("\n");
    let line5 = help_line(".prompt", "Add prompt, aka create a temporary role");
    out.append(line5.as_str());
    out.append("\n");
    let line6 = help_line(".history", "Print the history");
    out.append(line6.as_str());
    out.append("\n");
    let line7 = help_line(".clear history", "Clear the history");
    out.append(line7.as_str());
    out.append("\n");
    let line8 = help_line(".clear screen", "Clear the screen");
    out.append(line8.as_str());
    out.append("\n");
    let line9 = help_line(".multiline", "Enter multiline editor mode");
    out.append(line9.as_str());
    out.append("\n");
    let line10 = help_line(".copy", "Copy last reply message");
    out.append(line10.as_str());
    out.append("\n");
    let line11 = help_line(".help", "Print this help message");
    out.append(line11.as_str());
    out.append("\n");
    let line12 = help_line(".exit", "Exit the REPL");
    out.append(line12.as_str());
    out.append("\n\nPress Ctrl+C to abort session, Ctrl+D to exit the REPL");
    proof {
        assert(out@ =~= spec_help_line(".info"@, "Print the information"@) + "\n"@
            + spec_help_line(".set"@, "Modify the configuration temporarily"@) + "\n"@
            + spec_help_line(".role"@, "Select a role"@) + "\n"@ + spec_help_line(
            ".clear role"@,
            "Clear the currently selected role"@,
        ) + "\n"@ + spec_help_line(".prompt"@, "Add prompt, aka create a temporary role"@) + "\n"@
            + spec_help_line(".history"@, "Print the history"@) + "\n"@ + spec_help_line(
            ".clear history"@,
            "Clear the history"@,
        ) + "\n"@ + spec_help_line(".clear screen"@, "Clear the screen"@) + "\n"@ + spec_help_line(
            ".multiline"@,
            "Enter multiline editor mode"@,
        ) + "\n"@ + spec_help_line(".copy"@, "Copy last reply message"@) + "\n"@ + spec_help_line(
            ".help"@,
            "Print this help message"@,
        ) + "\n"@ + spec_help_line(".exit"@, "Exit the REPL"@)
            + "\n\nPress Ctrl+C to abort session, Ctrl+D to exit the REPL"@);
    }
    out
}

} // verus!
