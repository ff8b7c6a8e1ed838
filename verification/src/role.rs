//! Prompt roles: named prompt templates, optionally parameterized through
//! positional `__ARGn__` placeholders and optionally "embedded" (the user
//! input is spliced into the template at the input placeholder rather than
//! appended after it).

use vstd::prelude::*;

use crate::message::{
    spec_content_of, spec_rendered, Input, Message, MessageContent, MessageContentV, MessageRole,
    MessageV,
};
use crate::message::{input_placeholder, input_placeholder_str};
use crate::text::{
    contains_sub, find_char_from, has_char, has_sub, replace_sub, replaced, split_char, split_on,
    str_eq, to_decimal, trim_spaces, trimmed,
};
use crate::text::decimal_digits;

verus! {

/// A named prompt template; the sampling temperature, when set, is given in
/// thousandths (`700` stands for 0.7).
#[derive(Debug)]
pub struct Role {
    /// Role name
    pub name: String,
    /// Prompt text
    pub prompt: String,
    /// Sampling temperature in thousandths, between 0 and 2000
    pub temperature: Option<u32>,
}

/// The positional placeholder `__ARGk__`.
pub open spec fn arg_placeholder(k: nat) -> Seq<char> {
    "__ARG"@ + decimal_digits(k) + "__"@
}

/// `prompt` with the placeholders `__ARGk__`, `__ARG(k+1)__`, ... replaced in
/// sequence by the given arguments.
pub open spec fn spec_apply_args(prompt: Seq<char>, args: Seq<Seq<char>>, k: nat) -> Seq<char>
    decreases args.len(),
{
    if args.len() == 0 {
        prompt
    } else {
        spec_apply_args(replaced(prompt, arg_placeholder(k), args[0]), args.skip(1), k + 1)
    }
}

/// The trimmed prompt with each positional placeholder `__ARGi__` replaced by
/// the i-th colon-delimited argument of `name`.
pub open spec fn spec_complete_prompt_args(prompt: Seq<char>, name: Seq<char>) -> Seq<char> {
    spec_apply_args(trimmed(prompt), split_on(name, ':').skip(1), 1)
}

/// Substitutes the ordered positional placeholders of the trimmed `prompt`
/// with the colon-delimited arguments of `name`, in sequence; placeholders
/// without a matching argument stay, extra arguments are ignored.
pub fn complete_prompt_args(prompt: &str, name: &str) -> (r: String)
    ensures
        r@ == spec_complete_prompt_args(prompt@, name@),
{
    let ghost all = split_on(name@, ':');
    let mut cur = trim_spaces(prompt);
    let parts = split_char(name, ':');
    let n = parts.len();
    let mut idx: usize = 1;
    while idx < n
        invariant
            1 <= idx <= n || (n == 0 && idx == 1),
            n == parts@.len(),
            all == parts.deep_view(),
            spec_complete_prompt_args(prompt@, name@) == spec_apply_args(
                cur@,
                all.skip(idx as int),
                idx as nat,
            ),
        decreases n - idx,
    {
        let mut ph = String::new();
        ph.append("__ARG");
        let digits = to_decimal(idx);
        ph.append(digits.as_str());
        ph.append("__");
        proof {
            assert(ph@ =~= arg_placeholder(idx as nat));
            assert(all.skip(idx as int)[0] == all[idx as int]);
            assert(all.skip(idx as int).skip(1) =~= all.skip(idx + 1));
        }
        let next = replace_sub(cur.as_str(), ph.as_str(), parts[idx].as_str());
        cur = next;
        idx += 1;
    }
    proof {
        if n > 0 {
            assert(all.skip(n as int) =~= Seq::<Seq<char>>::empty());
        }
    }
    cur
}

/// Whether `role_name` answers to the invocation `candidate`: an exact match,
/// unless `role_name` is parameterized (contains a colon), in which case the
/// base segments must match and the two names must have the same number of
/// colon-delimited segments.
pub open spec fn spec_match_name(role_name: Seq<char>, candidate: Seq<char>) -> bool {
    if has_char(role_name, ':') {
        split_on(role_name, ':')[0] == split_on(candidate, ':')[0] && split_on(
            role_name,
            ':',
        ).len() == split_on(candidate, ':').len()
    } else {
        role_name == candidate
    }
}

proof fn lemma_split_on_len(s: Seq<char>, c: char)
    ensures
        split_on(s, c).len() >= 1,
    decreases s.len(),
{
    if exists|i: int| crate::text::first_char_at(s, c, i) {
        let i = choose|i: int| crate::text::first_char_at(s, c, i);
        if 0 <= i < s.len() {
            lemma_split_on_len(s.skip(i + 1), c);
        }
    }
}

/// The messages a role contributes to a request: a single user message with
/// the merged content when the template is embedded, else the literal prompt
/// as a system message followed by the raw input as a user message.
pub open spec fn spec_build_messages(prompt: Seq<char>, input: crate::message::InputV) -> Seq<
    MessageV,
> {
    if has_sub(prompt, input_placeholder()) {
        seq![
            MessageV {
                role: MessageRole::User,
                content: MessageContent::spec_merged(spec_content_of(input), prompt),
            }
        ]
    } else {
        seq![
            MessageV { role: MessageRole::System, content: MessageContentV::Text(prompt) },
            MessageV { role: MessageRole::User, content: spec_content_of(input) },
        ]
    }
}

/// For every role whose template carries the input placeholder, the built
/// request is exactly one user message whose content is the template with the
/// placeholder replaced by the rendered input (for a text-only input).
pub proof fn lemma_embedded_build_messages(prompt: Seq<char>, input: crate::message::InputV)
    requires
        has_sub(prompt, input_placeholder()),
        input.medias.len() == 0,
    ensures
        spec_build_messages(prompt, input) == seq![
            MessageV {
                role: MessageRole::User,
                content: MessageContentV::Text(
                    replaced(prompt, input_placeholder(), spec_rendered(input)),
                ),
            }
        ],
{
    assert(spec_rendered(input) =~= input.text);
}

/// For every role whose template lacks the input placeholder, the built
/// request is exactly the literal prompt as a system message followed by the
/// input content as a user message, in that order.
pub proof fn lemma_plain_build_messages(prompt: Seq<char>, input: crate::message::InputV)
    requires
        !has_sub(prompt, input_placeholder()),
    ensures
        spec_build_messages(prompt, input).len() == 2,
        spec_build_messages(prompt, input)[0] == (MessageV {
            role: MessageRole::System,
            content: MessageContentV::Text(prompt),
        }),
        spec_build_messages(prompt, input)[1] == (MessageV {
            role: MessageRole::User,
            content: spec_content_of(input),
        }),
{
}

/// The shell-command prompt, parameterized by the host shell, the host OS,
/// and the step combinator the shell uses.
pub open spec fn spec_execute_prompt(shell: Seq<char>, os: Seq<char>, combine: Seq<char>) -> Seq<
    char,
> {
    "Provide only "@ + shell + " commands for "@ + os
        + " without any description.\nIf there is a lack of details, provide most logical solution.\nEnsure the output is a valid "@
        + shell + " command.\nIf multiple steps required try to combine them together using "@
        + combine
        + ".\nProvide only plain text without Markdown formatting.\nDo not provide markdown formatting such as ```"@
}

impl Role {
    /// The built-in shell-command role, parameterized by the detected host OS
    /// and shell; shells with `;` pipelines get `;` as the step combinator,
    /// all others `&&`.
    pub fn for_execute(os: &str, shell: &str) -> (r: Role)
        ensures
            r.name@ == "__execute__"@,
            r.prompt@ == spec_execute_prompt(
                shell@,
                os@,
                if shell@ == "nushell"@ || shell@ == "powershell"@ {
                    ";"@
                } else {
                    "&&"@
                },
            ),
            r.temperature is None,
    {
        let combine = if str_eq(shell, "nushell") || str_eq(shell, "powershell") {
            ";"
        } else {
            "&&"
        };
        let mut prompt = String::new();
        prompt.append("Provide only ");
        prompt.append(shell);
        prompt.append(" commands for ");
        prompt.append(os);
        prompt.append(
            " without any description.\nIf there is a lack of details, provide most logical solution.\nEnsure the output is a valid ",
        );
        prompt.append(shell);
        prompt.append(
            " command.\nIf multiple steps required try to combine them together using ",
        );
        prompt.append(combine);
        prompt.append(
            ".\nProvide only plain text without Markdown formatting.\nDo not provide markdown formatting such as ```",
        );
        proof {
            assert(prompt@ =~= spec_execute_prompt(
                shell@,
                os@,
                if shell@ == "nushell"@ || shell@ == "powershell"@ {
                    ";"@
                } else {
                    "&&"@
                },
            ));
        }
        Role { name: String::from_str("__execute__"), prompt, temperature: None }
    }

    /// The built-in role that asks for a terse description of a shell
    /// command.
    pub fn for_describe_command() -> (r: Role)
        ensures
            r.name@ == "__describe_command__"@,
            r.prompt@
                == "Provide a terse, single sentence description of the given shell command.\nDescribe each argument and option of the command.\nProvide short responses in about 80 words.\nAPPLY MARKDOWN formatting when possible."@,
            r.temperature is None,
    {
        Role {
            name: String::from_str("__describe_command__"),
            prompt: String::from_str(
                "Provide a terse, single sentence description of the given shell command.\nDescribe each argument and option of the command.\nProvide short responses in about 80 words.\nAPPLY MARKDOWN formatting when possible.",
            ),
            temperature: None,
        }
    }

    /// The built-in code-only role.
    pub fn for_code() -> (r: Role)
        ensures
            r.name@ == "__code__"@,
            r.prompt@
                == "Provide only code as output without any description.\nProvide only code in plain text format without Markdown formatting.\nDo not include symbols such as ``` or ```python.\nIf there is a lack of details, provide most logical solution.\nYou are not allowed to ask for more details.\nFor example if the prompt is \"Hello world Python\", you should return \"print('Hello world')\"."@,
            r.temperature is None,
    {
        Role {
            name: String::from_str("__code__"),
            prompt: String::from_str(
                "Provide only code as output without any description.\nProvide only code in plain text format without Markdown formatting.\nDo not include symbols such as ``` or ```python.\nIf there is a lack of details, provide most logical solution.\nYou are not allowed to ask for more details.\nFor example if the prompt is \"Hello world Python\", you should return \"print('Hello world')\".",
            ),
            temperature: None,
        }
    }

    /// Whether this role's template carries the input placeholder; always
    /// recomputed from the current prompt text, never cached.
    pub fn embedded(&self) -> (r: bool)
        ensures
            r == has_sub(self.prompt@, input_placeholder()),
    {
        contains_sub(self.prompt.as_str(), input_placeholder_str())
    }

    /// Rewrites the role's name to `name` and substitutes the positional
    /// placeholders of the prompt with the arguments encoded in `name`.
    pub fn complete_prompt_args(&mut self, name: &str)
        ensures
            final(self).name@ == name@,
            final(self).prompt@ == spec_complete_prompt_args(old(self).prompt@, name@),
            final(self).temperature == old(self).temperature,
    {
        self.name = name.to_owned();
        let completed = crate::role::complete_prompt_args(self.prompt.as_str(), name);
        self.prompt = completed;
    }

    /// Whether this role answers to the invocation `name`, as
    /// `spec_match_name` describes.
    pub fn match_name(&self, name: &str) -> (r: bool)
        ensures
            r == spec_match_name(self.name@, name@),
    {
        match find_char_from(self.name.as_str(), ':', 0) {
            Some(_) => {
                let role_parts = split_char(self.name.as_str(), ':');
                let name_parts = split_char(name, ':');
                proof {
                    lemma_split_on_len(self.name@, ':');
                    lemma_split_on_len(name@, ':');
                }
                let base_eq = str_eq(role_parts[0].as_str(), name_parts[0].as_str());
                base_eq && role_parts.len() == name_parts.len()
            },
            None => str_eq(self.name.as_str(), name),
        }
    }

    /// What would be sent for `input`, flattened to text for preview: the
    /// merged template when embedded, else the prompt and the rendered input
    /// separated by a blank line.
    pub fn echo_messages(&self, input: &Input) -> (r: String)
        ensures
            r@ == (if has_sub(self.prompt@, input_placeholder()) {
                replaced(self.prompt@, input_placeholder(), spec_rendered(input@))
            } else {
                self.prompt@ + "\n\n"@ + spec_rendered(input@)
            }),
    {
        let input_markdown = input.render();
        if self.embedded() {
            replace_sub(self.prompt.as_str(), input_placeholder_str(), input_markdown.as_str())
        } else {
            let mut out = self.prompt.clone();
            out.append("\n\n");
            out.append(input_markdown.as_str());
            out
        }
    }

    /// The messages this role contributes for `input`, as
    /// `spec_build_messages` describes.
    pub fn build_messages(&self, input: &Input) -> (r: Vec<Message>)
        ensures
            r.deep_view() == spec_build_messages(self.prompt@, input@),
    {
        let mut content = input.to_message_content();
        if self.embedded() {
            content.merge_prompt(self.prompt.as_str());
            let mut msgs: Vec<Message> = Vec::new();
            msgs.push(Message { role: MessageRole::User, content });
            proof {
                assert(msgs.deep_view() =~= spec_build_messages(self.prompt@, input@));
            }
            msgs
        } else {
            let mut msgs: Vec<Message> = Vec::new();
            msgs.push(
                Message {
                    role: MessageRole::System,
                    content: MessageContent::Text(self.prompt.clone()),
                },
            );
            msgs.push(Message { role: MessageRole::User, content });
            proof {
                assert(msgs.deep_view() =~= spec_build_messages(self.prompt@, input@));
            }
            msgs
        }
    }
}

} // verus!
