//! The conversational session: the authoritative message history, the active
//! role binding, the compression ledger, and the bookkeeping around them.
//! Mutation goes only through `add_message`, `compress` and `clear_messages`;
//! the dirty flag is set on every mutation.

use vstd::prelude::*;

use crate::message::{
    spec_content_of, Input, InputV, Message, MessageContent, MessageContentV, MessageRole,
    MessageV,
};
use crate::model::{capped, messages_tokens, Model};
use crate::role::{spec_build_messages, Role};
use crate::text::str_eq;

verus! {

/// Why a guarded session operation was refused.
#[derive(Clone, Copy, PartialEq, Eq, Structural, Debug)]
pub enum SessionError {
    /// The session has never been saved to a path.
    NotSaved,
    /// The session already has history.
    NotEmpty,
}

impl SessionError {
    /// The user-facing description of this failure.
    pub fn describe(&self) -> (r: String)
        ensures
            *self is NotSaved ==> r@ == "Not found session"@,
            *self is NotEmpty ==> r@ == "Cannot perform this action in a session with messages"@,
    {
        match self {
            SessionError::NotSaved => String::from_str("Not found session"),
            SessionError::NotEmpty => String::from_str(
                "Cannot perform this action in a session with messages",
            ),
        }
    }
}

/// The prompt of a bound role, if one is bound.
pub open spec fn role_prompt_of(role: Option<Role>) -> Option<Seq<char>> {
    match role {
        Some(r) => Some(r.prompt@),
        None => None,
    }
}

/// The history after `add_message`: when the history is empty and a role is
/// bound the role supplies the framing, else the raw input is appended as a
/// user message; an assistant message with the reply always follows.
pub open spec fn spec_after_add(
    msgs: Seq<MessageV>,
    role_prompt: Option<Seq<char>>,
    input: InputV,
    output: Seq<char>,
) -> Seq<MessageV> {
    let base = if msgs.len() == 0 && role_prompt is Some {
        spec_build_messages(role_prompt->0, input)
    } else {
        msgs + seq![MessageV { role: MessageRole::User, content: spec_content_of(input) }]
    };
    base + seq![MessageV { role: MessageRole::Assistant, content: MessageContentV::Text(output) }]
}

/// The next outbound request: the live history, re-framed by the bound role
/// when the history is empty, re-joined with the two most recent compressed
/// messages right after a compression, and closed by the new user turn.
pub open spec fn spec_request(
    msgs: Seq<MessageV>,
    compressed: Seq<MessageV>,
    role_prompt: Option<Seq<char>>,
    input: InputV,
) -> Seq<MessageV> {
    let user = MessageV { role: MessageRole::User, content: spec_content_of(input) };
    if msgs.len() == 0 {
        match role_prompt {
            Some(p) => spec_build_messages(p, input),
            None => seq![user],
        }
    } else if msgs.len() == 1 && compressed.len() >= 2 {
        msgs + compressed.skip(compressed.len() - 2) + seq![user]
    } else {
        msgs + seq![user]
    }
}

/// The number of user messages in a history.
pub open spec fn count_user(ms: Seq<MessageV>) -> nat
    decreases ms.len(),
{
    if ms.len() == 0 {
        0
    } else {
        count_user(ms.drop_last()) + (if ms.last().role is User {
            1nat
        } else {
            0nat
        })
    }
}

/// The effective compression percentage base: `tokens / max`, in hundredths
/// of a percent, rounded half up; zero when no ceiling is declared.
pub open spec fn spec_percent_hundredths(tokens: nat, max: nat) -> nat {
    if max == 0 {
        0
    } else {
        (tokens * 10000 + max / 2) / max
    }
}

/// An interactive conversation: the live message history sent to the model,
/// the compression ledger retained for display, and the attachment table.
#[derive(Debug)]
pub struct Session {
    model_id: String,
    temperature: Option<u32>,
    messages: Vec<Message>,
    data_urls: Vec<(String, String)>,
    compressed_messages: Vec<Message>,
    compress_threshold: Option<usize>,
    pub name: String,
    pub path: Option<String>,
    pub dirty: bool,
    pub compressing: bool,
    pub role: Option<Role>,
    pub model: Model,
}

fn extend_urls(dest: &mut Vec<(String, String)>, src: &Vec<(String, String)>)
    ensures
        final(dest).deep_view() == old(dest).deep_view() + src.deep_view(),
{
    let ghost base = old(dest).deep_view();
    let ghost baselen = old(dest)@.len();
    proof {
        assert(base.len() == baselen);
    }
    let n = src.len();
    let mut i: usize = 0;
    while i < n
        invariant
            i <= n,
            n == src@.len(),
            base.len() == baselen,
            dest@.len() == baselen + i,
            forall|k: int| 0 <= k < baselen ==> #[trigger] dest@[k].deep_view() == base[k],
            forall|k: int| baselen <= k < baselen + i ==> #[trigger] dest@[k].deep_view()
                == src.deep_view()[k - baselen],
        decreases n - i,
    {
        let pair = (src[i].0.clone(), src[i].1.clone());
        assert(pair.deep_view() == src@[i as int].deep_view());
        dest.push(pair);
        i += 1;
    }
    proof {
        assert(dest.deep_view() =~= base + src.deep_view());
    }
}

impl Session {
    /// The live history, as abstract values.
    pub closed spec fn msgs(&self) -> Seq<MessageV> {
        self.messages.deep_view()
    }

    /// The compression ledger, as abstract values.
    pub closed spec fn compressed(&self) -> Seq<MessageV> {
        self.compressed_messages.deep_view()
    }

    /// The attachment table, as id/URL pairs in insertion order.
    pub closed spec fn urls(&self) -> Seq<(Seq<char>, Seq<char>)> {
        self.data_urls.deep_view()
    }

    /// The persisted model identifier.
    pub closed spec fn spec_model_id(&self) -> Seq<char> {
        self.model_id@
    }

    /// The session temperature override, in thousandths.
    pub closed spec fn spec_temperature(&self) -> Option<u32> {
        self.temperature
    }

    /// The session-specific compression threshold, if set.
    pub closed spec fn spec_threshold(&self) -> Option<usize> {
        self.compress_threshold
    }

    /// The session name.
    pub closed spec fn spec_name(&self) -> Seq<char> {
        self.name@
    }

    /// The backing path, if the session was ever saved.
    pub closed spec fn spec_path(&self) -> Option<Seq<char>> {
        match self.path {
            Some(p) => Some(p@),
            None => None,
        }
    }

    /// Whether the session holds unpersisted changes.
    pub closed spec fn spec_dirty(&self) -> bool {
        self.dirty
    }

    /// Whether a compression is in flight.
    pub closed spec fn spec_compressing(&self) -> bool {
        self.compressing
    }

    /// The bound role, if any.
    pub closed spec fn spec_role(&self) -> Option<Role> {
        self.role
    }

    /// The bound model.
    pub closed spec fn spec_model(&self) -> Model {
        self.model
    }

    /// The current token estimate of the live history.
    pub open spec fn spec_tokens(&self) -> nat {
        capped(messages_tokens(self.msgs()))
    }

    /// The threshold that governs compression: the session's own when set,
    /// else the supplied default.
    pub open spec fn spec_effective_threshold(&self, current: usize) -> usize {
        match self.spec_threshold() {
            Some(t) => t,
            None => current,
        }
    }

    /// The three units of history state, compared together.
    pub open spec fn same_history(&self, other: &Session) -> bool {
        self.msgs() == other.msgs() && self.compressed() == other.compressed() && self.urls()
            == other.urls()
    }

    /// The configuration fields that a history mutation leaves untouched.
    pub open spec fn same_config(&self, other: &Session) -> bool {
        self.spec_model_id() == other.spec_model_id() && self.spec_temperature()
            == other.spec_temperature() && self.spec_threshold() == other.spec_threshold()
            && self.spec_name() == other.spec_name() && self.spec_path() == other.spec_path()
            && self.spec_compressing() == other.spec_compressing() && self.spec_model()
            == other.spec_model()
    }

    /// A fresh session bound to `model` and optionally to `role`; the
    /// temperature is taken from the role at construction time only.
    pub fn new(name: &str, model: Model, role: Option<Role>) -> (r: Session)
        ensures
            r.spec_model_id() == model.id@,
            r.spec_temperature() == (match role {
                Some(ro) => ro.temperature,
                None => None::<u32>,
            }),
            r.msgs() == Seq::<MessageV>::empty(),
            r.compressed() == Seq::<MessageV>::empty(),
            r.urls() == Seq::<(Seq<char>, Seq<char>)>::empty(),
            r.spec_threshold() is None,
            r.spec_name() == name@,
            (r.spec_path() is None),
            !r.spec_dirty(),
            !r.spec_compressing(),
            r.spec_role() == role,
            r.spec_model() == model,
    {
        let temperature = match &role {
            Some(v) => v.temperature,
            None => None,
        };
        let model_id = model.id();
        let r = Session {
            model_id,
            temperature,
            messages: Vec::new(),
            compressed_messages: Vec::new(),
            compress_threshold: None,
            data_urls: Vec::new(),
            name: name.to_owned(),
            path: None,
            dirty: false,
            compressing: false,
            role,
            model,
        };
        proof {
            assert(r.msgs() =~= Seq::<MessageV>::empty());
            assert(r.compressed() =~= Seq::<MessageV>::empty());
            assert(r.urls() =~= Seq::<(Seq<char>, Seq<char>)>::empty());
        }
        r
    }

    /// A session rebuilt from a persisted record; the transient fields are
    /// reset, with the given name and path.
    pub fn restore(
        name: &str,
        path: &str,
        model: Model,
        model_id: String,
        temperature: Option<u32>,
        messages: Vec<Message>,
        data_urls: Vec<(String, String)>,
        compressed_messages: Vec<Message>,
        compress_threshold: Option<usize>,
    ) -> (r: Session)
        ensures
            r.spec_model_id() == model_id@,
            r.spec_temperature() == temperature,
            r.msgs() == messages.deep_view(),
            r.urls() == data_urls.deep_view(),
            r.compressed() == compressed_messages.deep_view(),
            r.spec_threshold() == compress_threshold,
            r.spec_name() == name@,
            (r.spec_path() is Some) && r.spec_path()->0 == path@,
            !r.spec_dirty(),
            !r.spec_compressing(),
            (r.spec_role() is None),
            r.spec_model() == model,
    {
        Session {
            model_id,
            temperature,
            messages,
            data_urls,
            compressed_messages,
            compress_threshold,
            name: name.to_owned(),
            path: Some(path.to_owned()),
            dirty: false,
            compressing: false,
            role: None,
            model,
        }
    }

    /// The session name.
    pub fn name(&self) -> (r: &str)
        ensures
            r@ == self.spec_name(),
    {
        self.name.as_str()
    }

    /// The persisted model identifier.
    pub fn model(&self) -> (r: &str)
        ensures
            r@ == self.spec_model_id(),
    {
        self.model_id.as_str()
    }

    /// The session temperature override, in thousandths.
    pub fn temperature(&self) -> (r: Option<u32>)
        ensures
            r == self.spec_temperature(),
    {
        self.temperature
    }

    /// The live history, for display and persistence.
    pub fn messages(&self) -> (r: &Vec<Message>)
        ensures
            r.deep_view() == self.msgs(),
    {
        &self.messages
    }

    /// The compression ledger, for display and persistence.
    pub fn compressed_messages(&self) -> (r: &Vec<Message>)
        ensures
            r.deep_view() == self.compressed(),
    {
        &self.compressed_messages
    }

    /// The attachment table, for display and persistence.
    pub fn data_urls(&self) -> (r: &Vec<(String, String)>)
        ensures
            r.deep_view() == self.urls(),
    {
        &self.data_urls
    }

    /// The session-specific compression threshold, if set.
    pub fn compress_threshold(&self) -> (r: Option<usize>)
        ensures
            r == self.spec_threshold(),
    {
        self.compress_threshold
    }

    /// Whether the history must be compacted: true exactly when the effective
    /// threshold is at least 1000 (the floor against pathologically small
    /// configured thresholds) and the token estimate exceeds it.
    pub fn need_compress(&self, current_compress_threshold: usize) -> (r: bool)
        ensures
            r == (self.spec_effective_threshold(current_compress_threshold) >= 1000
                && self.spec_tokens() > self.spec_effective_threshold(
                current_compress_threshold,
            ) as nat),
    {
        let threshold = match self.compress_threshold {
            Some(t) => t,
            None => current_compress_threshold,
        };
        threshold >= 1000 && self.tokens() > threshold
    }

    /// The token estimate of the live history, recomputed on demand.
    pub fn tokens(&self) -> (r: usize)
        ensures
            r as nat == self.spec_tokens(),
    {
        self.model.total_tokens(&self.messages)
    }

    /// How many user messages the live history holds.
    pub fn user_messages_len(&self) -> (r: usize)
        ensures
            r as nat == count_user(self.msgs()),
    {
        let ghost all = self.msgs();
        let n = self.messages.len();
        let mut count: usize = 0;
        let mut i: usize = 0;
        while i < n
            invariant
                i <= n,
                n == self.messages@.len(),
                all == self.msgs(),
                count as nat == count_user(all.take(i as int)),
                count <= i,
            decreases n - i,
        {
            if self.messages[i].role.is_user() {
                count += 1;
            }
            proof {
                assert(all.take(i + 1).drop_last() =~= all.take(i as int));
                assert(all.take(i + 1).last() == all[i as int]);
            }
            i += 1;
        }
        proof {
            assert(all.take(n as int) =~= all);
        }
        count
    }

    /// The token estimate together with its share of the model's input-token
    /// ceiling, in hundredths of a percent; exactly zero when the model
    /// declares no ceiling.
    pub fn tokens_and_percent(&self) -> (r: (usize, u64))
        ensures
            r.0 as nat == self.spec_tokens(),
            r.1 as nat == (match self.spec_model().max_input_tokens {
                Some(m) => {
                    if spec_percent_hundredths(self.spec_tokens(), m as nat) <= u64::MAX as nat {
                        spec_percent_hundredths(self.spec_tokens(), m as nat)
                    } else {
                        u64::MAX as nat
                    }
                },
                None => 0nat,
            }),
    {
        let tokens = self.tokens();
        let max = match self.model.max_input_tokens {
            Some(m) => m,
            None => 0,
        };
        if max == 0 {
            (tokens, 0)
        } else {
            let num: u128 = (tokens as u128) * 10000 + (max as u128) / 2;
            let q: u128 = num / (max as u128);
            let p = if q > u64::MAX as u128 {
                u64::MAX
            } else {
                q as u64
            };
            (tokens, p)
        }
    }

    /// Rebinds the role; refused on a session that already has history, so
    /// that every turn of one history shares one framing.
    pub fn update_role(&mut self, role: Option<Role>) -> (r: Result<(), SessionError>)
        ensures
            (old(self).msgs().len() == 0) <==> (r is Ok),
            (r is Ok) ==> final(self).spec_role() == role,
            (r is Ok) ==> final(self).spec_temperature() == (match role {
                Some(ro) => ro.temperature,
                None => None::<u32>,
            }),
            (r is Ok) ==> final(self).same_history(old(self)) && final(self).spec_model_id() == old(self).spec_model_id() && final(self).spec_threshold() == old(self).spec_threshold()
                && final(self).spec_name() == old(self).spec_name() && final(self).spec_path() == old(self).spec_path() && final(self).spec_dirty() == old(self).spec_dirty() && final(self).spec_compressing() == old(self).spec_compressing() && final(self).spec_model()
                == old(self).spec_model(),
            (r is Err) ==> *final(self) == *old(self) && (r->Err_0 == SessionError::NotEmpty),
    {
        if self.messages.len() != 0 {
            return Err(SessionError::NotEmpty);
        }
        self.temperature = match &role {
            Some(v) => v.temperature,
            None => None,
        };
        self.role = role;
        Ok(())
    }

    /// Overrides the temperature, in thousandths.
    pub fn set_temperature(&mut self, value: Option<u32>)
        ensures
            final(self).spec_temperature() == value,
            final(self).msgs() == old(self).msgs(),
            final(self).compressed() == old(self).compressed(),
            final(self).urls() == old(self).urls(),
            final(self).spec_role() == old(self).spec_role(),
            final(self).spec_dirty() == old(self).spec_dirty(),
            final(self).spec_threshold() == old(self).spec_threshold(),
            final(self).spec_model_id() == old(self).spec_model_id(),
            final(self).spec_name() == old(self).spec_name(),
            final(self).spec_path() == old(self).spec_path(),
            final(self).spec_compressing() == old(self).spec_compressing(),
            final(self).spec_model() == old(self).spec_model(),
    {
        self.temperature = value;
    }

    /// Sets the session-specific compression threshold.
    pub fn set_compress_threshold(&mut self, value: usize)
        ensures
            final(self).spec_threshold() == Some(value),
            final(self).msgs() == old(self).msgs(),
            final(self).compressed() == old(self).compressed(),
            final(self).urls() == old(self).urls(),
            final(self).spec_role() == old(self).spec_role(),
            final(self).spec_dirty() == old(self).spec_dirty(),
            final(self).spec_temperature() == old(self).spec_temperature(),
            final(self).spec_model_id() == old(self).spec_model_id(),
            final(self).spec_name() == old(self).spec_name(),
            final(self).spec_path() == old(self).spec_path(),
            final(self).spec_compressing() == old(self).spec_compressing(),
            final(self).spec_model() == old(self).spec_model(),
    {
        self.compress_threshold = Some(value);
    }

    /// Rebinds the model and records its identifier.
    pub fn set_model(&mut self, model: Model) -> (r: Result<(), SessionError>)
        ensures
            r is Ok,
            final(self).spec_model() == model,
            final(self).spec_model_id() == model.id@,
            final(self).msgs() == old(self).msgs(),
            final(self).compressed() == old(self).compressed(),
            final(self).urls() == old(self).urls(),
            final(self).spec_role() == old(self).spec_role(),
            final(self).spec_dirty() == old(self).spec_dirty(),
            final(self).spec_temperature() == old(self).spec_temperature(),
            final(self).spec_threshold() == old(self).spec_threshold(),
            final(self).spec_name() == old(self).spec_name(),
            final(self).spec_path() == old(self).spec_path(),
            final(self).spec_compressing() == old(self).spec_compressing(),
    {
        self.model_id = model.id();
        self.model = model;
        Ok(())
    }

    /// Moves the whole live history into the compression ledger, preserving
    /// order across repeated compressions, replaces it with a single system
    /// message holding `prompt`, clears the bound role, and marks dirty.
    pub fn compress(&mut self, prompt: String)
        ensures
            final(self).msgs() == seq![
                (MessageV { role: MessageRole::System, content: MessageContentV::Text(prompt@) })
            ],
            final(self).compressed() == old(self).compressed() + old(self).msgs(),
            (final(self).spec_role() is None),
            final(self).spec_dirty(),
            final(self).urls() == old(self).urls(),
            final(self).same_config(old(self)),
    {
        let ghost old_compressed = self.compressed();
        let ghost old_msgs = self.msgs();
        let msg = Message { role: MessageRole::System, content: MessageContent::Text(prompt) };
        self.compressed_messages.append(&mut self.messages);
        self.messages.push(msg);
        self.role = None;
        self.dirty = true;
        proof {
            assert(self.compressed() =~= old_compressed + old_msgs);
            assert(self.msgs() =~= seq![
                (MessageV { role: MessageRole::System, content: msg.content@ })
            ]);
        }
    }

    /// Refused unless the session has been saved to a path.
    pub fn guard_save(&self) -> (r: Result<(), SessionError>)
        ensures
            (r is Ok) <==> (self.spec_path() is Some),
            r is Err ==> r->Err_0 == SessionError::NotSaved,
    {
        match &self.path {
            Some(_) => Ok(()),
            None => Err(SessionError::NotSaved),
        }
    }

    /// Refused unless the session has no history.
    pub fn guard_empty(&self) -> (r: Result<(), SessionError>)
        ensures
            r is Ok <==> self.msgs().len() == 0,
            r is Err ==> r->Err_0 == SessionError::NotEmpty,
    {
        if self.messages.len() == 0 {
            Ok(())
        } else {
            Err(SessionError::NotEmpty)
        }
    }

    /// Whether this is the throwaway session.
    pub fn is_temp(&self) -> (r: bool)
        ensures
            r == (self.spec_name() == "temp"@),
    {
        str_eq(self.name.as_str(), "temp")
    }

    /// Whether the live history is empty.
    pub fn is_empty(&self) -> (r: bool)
        ensures
            r == (self.msgs().len() == 0),
    {
        self.messages.len() == 0
    }

    /// Appends one exchange: the framing for `input` (through the bound role
    /// on a first turn), the assistant reply, and the attachment bindings;
    /// clears the bound role and marks dirty. Never removes or reorders
    /// prior messages.
    pub fn add_message(&mut self, input: &Input, output: &str) -> (r: Result<(), SessionError>)
        ensures
            r is Ok,
            final(self).msgs() == spec_after_add(
                old(self).msgs(),
                role_prompt_of(old(self).spec_role()),
                input@,
                output@,
            ),
            final(self).urls() == old(self).urls() + input@.data_urls,
            (final(self).spec_role() is None),
            final(self).spec_dirty(),
            final(self).compressed() == old(self).compressed(),
            final(self).same_config(old(self)),
    {
        let ghost old_msgs = self.msgs();
        let ghost base = spec_after_add(
            old(self).msgs(),
            role_prompt_of(old(self).spec_role()),
            input@,
            output@,
        );
        let mut need_add_msg = true;
        if self.messages.len() == 0 {
            let built = match &self.role {
                Some(role) => {
                    need_add_msg = false;
                    Some(role.build_messages(input))
                },
                None => None,
            };
            if let Some(mut b) = built {
                self.messages.append(&mut b);
            }
        }
        if need_add_msg {
            self.messages.push(
                Message { role: MessageRole::User, content: input.to_message_content() },
            );
        }
        extend_urls(&mut self.data_urls, input.data_urls());
        self.messages.push(
            Message { role: MessageRole::Assistant, content: MessageContent::Text(output.to_owned()) },
        );
        self.role = None;
        self.dirty = true;
        proof {
            assert(self.msgs() =~= base);
        }
        Ok(())
    }

    /// Empties the live history, the compression ledger and the attachment
    /// table together, and marks dirty.
    pub fn clear_messages(&mut self)
        ensures
            final(self).msgs() == Seq::<MessageV>::empty(),
            final(self).compressed() == Seq::<MessageV>::empty(),
            final(self).urls() == Seq::<(Seq<char>, Seq<char>)>::empty(),
            final(self).spec_dirty(),
            final(self).spec_role() == old(self).spec_role(),
            final(self).same_config(old(self)),
    {
        self.messages.clear();
        self.compressed_messages.clear();
        self.data_urls.clear();
        self.dirty = true;
        proof {
            assert(self.msgs() =~= Seq::<MessageV>::empty());
            assert(self.compressed() =~= Seq::<MessageV>::empty());
            assert(self.urls() =~= Seq::<(Seq<char>, Seq<char>)>::empty());
        }
    }

    /// The next outbound request for `input`, as `spec_request` describes;
    /// read-only, so preview and submission see the same messages.
    pub fn build_emssages(&self, input: &Input) -> (r: Vec<Message>)
        ensures
            r.deep_view() == spec_request(
                self.msgs(),
                self.compressed(),
                role_prompt_of(self.spec_role()),
                input@,
            ),
    {
        let ghost target = spec_request(
            self.msgs(),
            self.compressed(),
            role_prompt_of(self.spec_role()),
            input@,
        );
        let mut messages = crate::message::duplicate_messages(&self.messages);
        let mut need_add_msg = true;
        let len = messages.len();
        if len == 0 {
            match &self.role {
                Some(role) => {
                    let built = role.build_messages(input);
                    proof {
                        assert(built.deep_view() =~= target);
                    }
                    return built;
                },
                None => {},
            }
        } else if len == 1 && self.compressed_messages.len() >= 2 {
            let cl = self.compressed_messages.len();
            messages.push(self.compressed_messages[cl - 2].duplicate());
            messages.push(self.compressed_messages[cl - 1].duplicate());
            proof {
                assert(self.compressed().skip(cl - 2) =~= seq![
                    self.compressed()[cl - 2],
                    self.compressed()[cl - 1],
                ]);
            }
        }
        if need_add_msg {
            messages.push(
                Message { role: MessageRole::User, content: input.to_message_content() },
            );
        }
        proof {
            assert(messages.deep_view() =~= target);
        }
        messages
    }
}

/// One line of the session summary: the key padded to twenty characters,
/// then the value.
pub open spec fn spec_kv_line(key: Seq<char>, value: Seq<char>) -> Seq<char> {
    crate::text::padded(key, 20) + value
}

/// The display lines of one message: a system message as its rendered
/// content; an assistant message as its text (when plain) followed by a
/// blank line; a user message prefixed by the session name.
pub open spec fn spec_lines_of(
    m: MessageV,
    urls: Seq<(Seq<char>, Seq<char>)>,
    name: Seq<char>,
) -> Seq<Seq<char>> {
    match m.role {
        MessageRole::System => seq![crate::message::spec_rendered_content(m.content, urls)],
        MessageRole::Assistant => (match m.content {
            MessageContentV::Text(t) => seq![t],
            MessageContentV::Mixed(_) => Seq::<Seq<char>>::empty(),
        }) + seq![Seq::<char>::empty()],
        MessageRole::User => seq![
            name + "）"@ + crate::message::spec_rendered_content(m.content, urls)
        ],
    }
}

/// The display lines of a whole history, in order.
pub open spec fn spec_message_lines(
    ms: Seq<MessageV>,
    urls: Seq<(Seq<char>, Seq<char>)>,
    name: Seq<char>,
) -> Seq<Seq<char>>
    decreases ms.len(),
{
    if ms.len() == 0 {
        Seq::empty()
    } else {
        spec_message_lines(ms.drop_last(), urls, name) + spec_lines_of(ms.last(), urls, name)
    }
}

/// Lines joined by single newlines, with no trailing newline.
pub open spec fn spec_joined_nl(lines: Seq<Seq<char>>) -> Seq<char>
    decreases lines.len(),
{
    if lines.len() == 0 {
        Seq::empty()
    } else if lines.len() == 1 {
        lines[0]
    } else {
        spec_joined_nl(lines.drop_last()) + seq!['\n'] + lines.last()
    }
}

impl Session {
    /// The lines of the session summary: the set bookkeeping fields, then —
    /// when there is history — a blank line and the rendered messages.
    pub open spec fn spec_info_lines(&self) -> Seq<Seq<char>> {
        (match self.spec_path() {
            Some(p) => seq![spec_kv_line("path"@, p)],
            None => Seq::<Seq<char>>::empty(),
        }) + seq![spec_kv_line("model"@, self.spec_model().id@)] + (match self.spec_temperature() {
            Some(t) => seq![
                spec_kv_line("temperature"@, crate::text::spec_thousandths_text(t as nat))
            ],
            None => Seq::<Seq<char>>::empty(),
        }) + (match self.spec_threshold() {
            Some(t) => seq![
                spec_kv_line("compress_threshold"@, crate::text::decimal_digits(t as nat))
            ],
            None => Seq::<Seq<char>>::empty(),
        }) + (match self.spec_model().max_input_tokens {
            Some(m) => seq![
                spec_kv_line("max_input_tokens"@, crate::text::decimal_digits(m as nat))
            ],
            None => Seq::<Seq<char>>::empty(),
        }) + (if self.msgs().len() > 0 {
            seq![Seq::<char>::empty()] + spec_message_lines(
                self.msgs(),
                self.urls(),
                self.spec_name(),
            )
        } else {
            Seq::<Seq<char>>::empty()
        })
    }

    /// The human-oriented session summary; never fails, since it is a
    /// preview rather than an export. Markdown rendering of the content is
    /// left to the excluded display layer.
    pub fn info(&self) -> (r: String)
        ensures
            r@ == spec_joined_nl(self.spec_info_lines()),
    {
        let mut lines: Vec<String> = Vec::new();
        match &self.path {
            Some(p) => {
                let mut line = crate::text::pad_right("path", 20);
                line.append(p.as_str());
                lines.push(line);
            },
            None => {},
        }
        let mut model_line = crate::text::pad_right("model", 20);
        model_line.append(self.model.id.as_str());
        lines.push(model_line);
        match self.temperature {
            Some(t) => {
                let mut line = crate::text::pad_right("temperature", 20);
                let text = crate::text::thousandths_text(t);
                line.append(text.as_str());
                lines.push(line);
            },
            None => {},
        }
        match self.compress_threshold {
            Some(t) => {
                let mut line = crate::text::pad_right("compress_threshold", 20);
                let text = crate::text::to_decimal(t);
                line.append(text.as_str());
                lines.push(line);
            },
            None => {},
        }
        match self.model.max_input_tokens {
            Some(m) => {
                let mut line = crate::text::pad_right("max_input_tokens", 20);
                let text = crate::text::to_decimal(m);
                line.append(text.as_str());
                lines.push(line);
            },
            None => {},
        }
        let ghost head = lines.deep_view();
        proof {
            assert(head =~= self.spec_info_lines().take(head.len() as int));
            assert(head.len() <= self.spec_info_lines().len());
        }
        if self.messages.len() > 0 {
            lines.push(String::new());
            let ghost all = self.msgs();
            let n = self.messages.len();
            let mut i: usize = 0;
            while i < n
                invariant
                    i <= n,
                    n == self.messages@.len(),
                    all == self.msgs(),
                    head == head,
                    lines.deep_view() =~= head + seq![Seq::<char>::empty()] + spec_message_lines(
                        all.take(i as int),
                        self.urls(),
                        self.spec_name(),
                    ),
                decreases n - i,
            {
                let ghost pre = lines.deep_view();
                let m = &self.messages[i];
                match m.role {
                    MessageRole::System => {
                        lines.push(m.content.render_input(&self.data_urls));
                    },
                    MessageRole::Assistant => {
                        match &m.content {
                            MessageContent::Text(t) => {
                                lines.push(t.clone());
                            },
                            MessageContent::Mixed(_) => {},
                        }
                        lines.push(String::new());
                    },
                    MessageRole::User => {
                        let mut line = self.name.clone();
                        line.append("）");
                        let rendered = m.content.render_input(&self.data_urls);
                        line.append(rendered.as_str());
                        lines.push(line);
                    },
                }
                proof {
                    assert(all.take(i + 1).drop_last() =~= all.take(i as int));
                    assert(all.take(i + 1).last() == all[i as int]);
                    assert(lines.deep_view() =~= pre + spec_lines_of(
                        all[i as int],
                        self.urls(),
                        self.spec_name(),
                    ));
                }
                i += 1;
            }
            proof {
                assert(all.take(n as int) =~= all);
                assert(lines.deep_view() =~= self.spec_info_lines());
            }
        } else {
            proof {
                assert(lines.deep_view() =~= self.spec_info_lines());
            }
        }
        let ghost target = self.spec_info_lines();
        let total = lines.len();
        let mut out = String::new();
        let mut j: usize = 0;
        while j < total
            invariant
                j <= total,
                total == lines@.len(),
                target == lines.deep_view(),
                out@ == spec_joined_nl(target.take(j as int)),
            decreases total - j,
        {
            if j > 0 {
                out.append("\n");
                proof {
                    reveal_strlit("\n");
                    assert("\n"@ =~= seq!['\n']);
                }
            }
            out.append(lines[j].as_str());
            proof {
                assert(target.take(j + 1).drop_last() =~= target.take(j as int));
                assert(target.take(j + 1).last() == target[j as int]);
                if j == 0 {
                    assert(target.take(1) =~= seq![target[0]]);
                }
            }
            j += 1;
        }
        proof {
            assert(target.take(total as int) =~= target);
        }
        out
    }
}

/// Appending one exchange to an empty session through a bound embedded role
/// yields exactly two messages: the merged user turn and the assistant reply.
pub proof fn lemma_add_message_embedded(role_prompt: Seq<char>, input: InputV, output: Seq<char>)
    requires
        crate::text::has_sub(role_prompt, crate::message::input_placeholder()),
    ensures
        spec_after_add(Seq::<MessageV>::empty(), Some(role_prompt), input, output).len() == 2,
{
}

/// Right after a compression (a single live message) with at least two
/// compressed messages available, the next request is the summary, then
/// exactly the last two compressed messages, then the new user turn.
pub proof fn lemma_request_after_compress(
    msgs: Seq<MessageV>,
    compressed: Seq<MessageV>,
    role_prompt: Option<Seq<char>>,
    input: InputV,
)
    requires
        msgs.len() == 1,
        compressed.len() >= 2,
    ensures
        spec_request(msgs, compressed, role_prompt, input) == seq![
            msgs[0],
            compressed[compressed.len() - 2],
            compressed[compressed.len() - 1],
            (MessageV { role: MessageRole::User, content: spec_content_of(input) }),
        ],
{
    assert(compressed.skip(compressed.len() - 2) =~= seq![
        compressed[compressed.len() - 2],
        compressed[compressed.len() - 1],
    ]);
    assert(spec_request(msgs, compressed, role_prompt, input) =~= seq![
        msgs[0],
        compressed[compressed.len() - 2],
        compressed[compressed.len() - 1],
        (MessageV { role: MessageRole::User, content: spec_content_of(input) }),
    ]);
}

} // verus!
