//! The message data model: chat roles, tagged message content (plain text or
//! a mixed text/attachment payload), user-turn input, template merging, and
//! the token estimate that budget decisions rest on.

use vstd::prelude::*;

use crate::text::{joined_lines_exec, replace_sub};
use crate::text::{joined_lines, replaced};

verus! {

/// The placeholder that an embedded role's template carries where the user
/// input is spliced in.
pub open spec fn input_placeholder() -> Seq<char> {
    "__INPUT__"@
}

/// The placeholder as a string slice; its view is `input_placeholder()`.
pub fn input_placeholder_str() -> (r: &'static str)
    ensures
        r@ == input_placeholder(),
{
    "__INPUT__"
}

/// Who a message is attributed to.
#[derive(Clone, Copy, PartialEq, Eq, Structural, Debug)]
pub enum MessageRole {
    System,
    User,
    Assistant,
}

impl MessageRole {
    pub fn is_user(&self) -> (r: bool)
        ensures
            r == (*self is User),
    {
        match self {
            MessageRole::User => true,
            _ => false,
        }
    }
}

/// One block of a mixed payload: literal text or an attachment reference.
#[derive(Debug)]
pub enum ContentPart {
    Text(String),
    Attachment(String),
}

/// The abstract value of a `ContentPart`.
pub enum ContentPartV {
    Text(Seq<char>),
    Attachment(Seq<char>),
}

impl View for ContentPart {
    type V = ContentPartV;

    open spec fn view(&self) -> ContentPartV {
        match self {
            ContentPart::Text(t) => ContentPartV::Text(t@),
            ContentPart::Attachment(u) => ContentPartV::Attachment(u@),
        }
    }
}

impl DeepView for ContentPart {
    type V = ContentPartV;

    open spec fn deep_view(&self) -> ContentPartV {
        self.view()
    }
}

/// A message payload: plain text, or an ordered mix of text blocks and
/// attachment references.
#[derive(Debug)]
pub enum MessageContent {
    Text(String),
    Mixed(Vec<ContentPart>),
}

/// The abstract value of a `MessageContent`.
pub enum MessageContentV {
    Text(Seq<char>),
    Mixed(Seq<ContentPartV>),
}

impl View for MessageContent {
    type V = MessageContentV;

    open spec fn view(&self) -> MessageContentV {
        match self {
            MessageContent::Text(t) => MessageContentV::Text(t@),
            MessageContent::Mixed(parts) => MessageContentV::Mixed(parts.deep_view()),
        }
    }
}

impl DeepView for MessageContent {
    type V = MessageContentV;

    open spec fn deep_view(&self) -> MessageContentV {
        self.view()
    }
}

/// One turn of the conversation.
#[derive(Debug)]
pub struct Message {
    pub role: MessageRole,
    pub content: MessageContent,
}

/// The abstract value of a `Message`.
pub struct MessageV {
    pub role: MessageRole,
    pub content: MessageContentV,
}

impl View for Message {
    type V = MessageV;

    open spec fn view(&self) -> MessageV {
        MessageV { role: self.role, content: self.content@ }
    }
}

impl DeepView for Message {
    type V = MessageV;

    open spec fn deep_view(&self) -> MessageV {
        self.view()
    }
}

impl ContentPart {
    /// A copy with the same abstract value.
    pub fn duplicate(&self) -> (r: ContentPart)
        ensures
            r@ == self@,
    {
        match self {
            ContentPart::Text(t) => ContentPart::Text(t.clone()),
            ContentPart::Attachment(u) => ContentPart::Attachment(u.clone()),
        }
    }
}

impl MessageContent {
    /// A copy with the same abstract value.
    pub fn duplicate(&self) -> (r: MessageContent)
        ensures
            r@ == self@,
    {
        match self {
            MessageContent::Text(t) => MessageContent::Text(t.clone()),
            MessageContent::Mixed(parts) => {
                let mut copy: Vec<ContentPart> = Vec::new();
                let n = parts.len();
                let mut i: usize = 0;
                while i < n
                    invariant
                        i <= n,
                        n == parts@.len(),
                        copy@.len() == i,
                        forall|k: int| 0 <= k < i ==> copy.deep_view()[k] == parts.deep_view()[k],
                    decreases n - i,
                {
                    copy.push(parts[i].duplicate());
                    i += 1;
                }
                proof {
                    assert(copy.deep_view() =~= parts.deep_view());
                }
                MessageContent::Mixed(copy)
            },
        }
    }

    /// One block after merging: a text block becomes the template with the
    /// placeholder replaced by the block's text; an attachment is unchanged.
    pub open spec fn spec_merged_part(p: ContentPartV, tpl: Seq<char>) -> ContentPartV {
        match p {
            ContentPartV::Text(t) => ContentPartV::Text(replaced(tpl, input_placeholder(), t)),
            ContentPartV::Attachment(u) => ContentPartV::Attachment(u),
        }
    }

    /// The merged content: the template `tpl`, with its input placeholder
    /// replaced by each text block of the payload.
    pub open spec fn spec_merged(c: MessageContentV, tpl: Seq<char>) -> MessageContentV {
        match c {
            MessageContentV::Text(t) => MessageContentV::Text(
                replaced(tpl, input_placeholder(), t),
            ),
            MessageContentV::Mixed(parts) => {
                if parts.len() == 0 {
                    MessageContentV::Mixed(
                        seq![
                            ContentPartV::Text(
                                replaced(tpl, input_placeholder(), Seq::<char>::empty()),
                            )
                        ],
                    )
                } else {
                    MessageContentV::Mixed(
                        parts.map(|i: int, p: ContentPartV| Self::spec_merged_part(p, tpl)),
                    )
                }
            },
        }
    }

    /// Splices this payload into the template `tpl` at the input placeholder,
    /// replacing every text block by the merged template.
    pub fn merge_prompt(&mut self, tpl: &str)
        ensures
            final(self)@ == Self::spec_merged(old(self)@, tpl@),
    {
        let merged = self.merged_with(tpl);
        *self = merged;
    }

    /// The payload after splicing into the template `tpl`, as `spec_merged`
    /// describes.
    pub fn merged_with(&self, tpl: &str) -> (r: MessageContent)
        ensures
            r@ == Self::spec_merged(self@, tpl@),
    {
        let ph = input_placeholder_str();
        match self {
            MessageContent::Text(t) => {
                let merged = replace_sub(tpl, ph, t.as_str());
                MessageContent::Text(merged)
            },
            MessageContent::Mixed(parts) => {
                if parts.len() == 0 {
                    let merged = replace_sub(tpl, ph, "");
                    proof {
                        reveal_strlit("");
                        assert(""@ =~= Seq::<char>::empty());
                    }
                    let mut one: Vec<ContentPart> = Vec::new();
                    one.push(ContentPart::Text(merged));
                    proof {
                        assert(one.deep_view() =~= seq![
                            ContentPartV::Text(
                                replaced(tpl@, input_placeholder(), Seq::<char>::empty()),
                            )
                        ]);
                    }
                    MessageContent::Mixed(one)
                } else {
                    let ghost orig = parts.deep_view();
                    let ghost tplv = tpl@;
                    let n = parts.len();
                    let mut merged_parts: Vec<ContentPart> = Vec::new();
                    let mut i: usize = 0;
                    while i < n
                        invariant
                            i <= n,
                            n == parts@.len(),
                            orig == parts.deep_view(),
                            ph@ == input_placeholder(),
                            tplv == tpl@,
                            merged_parts@.len() == i,
                            forall|k: int| 0 <= k < i ==> #[trigger] merged_parts@[k]@
                                == Self::spec_merged_part(orig[k], tplv),
                        decreases n - i,
                    {
                        let item = match &parts[i] {
                            ContentPart::Text(t) => ContentPart::Text(
                                replace_sub(tpl, ph, t.as_str()),
                            ),
                            ContentPart::Attachment(u) => ContentPart::Attachment(u.clone()),
                        };
                        assert(item@ == Self::spec_merged_part(orig[i as int], tplv));
                        let ghost prev = merged_parts@;
                        merged_parts.push(item);
                        proof {
                            assert forall|k: int| 0 <= k < i + 1 implies #[trigger]
                            merged_parts@[k]@ == Self::spec_merged_part(orig[k], tplv) by {
                                if k < i {
                                    assert(merged_parts@[k] == prev[k]);
                                    assert(prev[k]@ == Self::spec_merged_part(orig[k], tplv));
                                } else {
                                    assert(merged_parts@[k] == item);
                                }
                            }
                        }
                        i += 1;
                    }
                    proof {
                        let target = Self::spec_merged(MessageContentV::Mixed(orig), tplv);
                        assert(merged_parts.deep_view() =~= target->Mixed_0);
                    }
                    MessageContent::Mixed(merged_parts)
                }
            },
        }
    }
}

impl Message {
    /// A copy with the same abstract value.
    pub fn duplicate(&self) -> (r: Message)
        ensures
            r@ == self@,
    {
        Message { role: self.role, content: self.content.duplicate() }
    }
}

/// Copies a message sequence, preserving each message's abstract value.
pub fn duplicate_messages(v: &Vec<Message>) -> (r: Vec<Message>)
    ensures
        r.deep_view() == v.deep_view(),
{
    let mut copy: Vec<Message> = Vec::new();
    let n = v.len();
    let mut i: usize = 0;
    while i < n
        invariant
            i <= n,
            n == v@.len(),
            copy@.len() == i,
            forall|k: int| 0 <= k < i ==> copy.deep_view()[k] == v.deep_view()[k],
        decreases n - i,
    {
        copy.push(v[i].duplicate());
        i += 1;
    }
    proof {
        assert(copy.deep_view() =~= v.deep_view());
    }
    copy
}

/// The original URL bound to the id `u`, by the most recent binding; `u`
/// itself when nothing is bound to it.
pub open spec fn spec_resolved_url(urls: Seq<(Seq<char>, Seq<char>)>, u: Seq<char>) -> Seq<char>
    decreases urls.len(),
{
    if urls.len() == 0 {
        u
    } else if urls.last().0 == u {
        urls.last().1
    } else {
        spec_resolved_url(urls.drop_last(), u)
    }
}

/// The display text of a block sequence: text blocks as they are, each
/// attachment on a line of its own with its URL resolved.
pub open spec fn spec_rendered_parts(
    parts: Seq<ContentPartV>,
    urls: Seq<(Seq<char>, Seq<char>)>,
) -> Seq<char>
    decreases parts.len(),
{
    if parts.len() == 0 {
        Seq::empty()
    } else {
        spec_rendered_parts(parts.drop_last(), urls) + (match parts.last() {
            ContentPartV::Text(t) => t,
            ContentPartV::Attachment(u) => seq!['\n'] + spec_resolved_url(urls, u),
        })
    }
}

/// The display text of a payload.
pub open spec fn spec_rendered_content(
    c: MessageContentV,
    urls: Seq<(Seq<char>, Seq<char>)>,
) -> Seq<char> {
    match c {
        MessageContentV::Text(t) => t,
        MessageContentV::Mixed(parts) => spec_rendered_parts(parts, urls),
    }
}

/// Looks an attachment id up in the binding table, most recent binding first,
/// as `spec_resolved_url` describes.
pub fn resolve_url(urls: &Vec<(String, String)>, u: &str) -> (r: String)
    ensures
        r@ == spec_resolved_url(urls.deep_view(), u@),
{
    let ghost all = urls.deep_view();
    let mut i = urls.len();
    proof {
        assert(all.take(urls@.len() as int) =~= all);
    }
    while i > 0
        invariant
            i <= urls@.len(),
            all == urls.deep_view(),
            spec_resolved_url(all, u@) == spec_resolved_url(all.take(i as int), u@),
        decreases i,
    {
        i -= 1;
        proof {
            assert(all.take(i + 1).drop_last() =~= all.take(i as int));
            assert(all.take(i + 1).last() == all[i as int]);
        }
        if crate::text::str_eq(urls[i].0.as_str(), u) {
            return urls[i].1.clone();
        }
    }
    proof {
        assert(all.take(0) =~= Seq::<(Seq<char>, Seq<char>)>::empty());
    }
    u.to_owned()
}

impl MessageContent {
    /// The display text of this payload, with attachment URLs resolved
    /// through the binding table, as `spec_rendered_content` describes.
    pub fn render_input(&self, urls: &Vec<(String, String)>) -> (r: String)
        ensures
            r@ == spec_rendered_content(self@, urls.deep_view()),
    {
        match self {
            MessageContent::Text(t) => t.clone(),
            MessageContent::Mixed(parts) => {
                let ghost all = parts.deep_view();
                let mut out = String::new();
                let n = parts.len();
                let mut i: usize = 0;
                proof {
                    assert(all.take(0) =~= Seq::<ContentPartV>::empty());
                }
                while i < n
                    invariant
                        i <= n,
                        n == parts@.len(),
                        all == parts.deep_view(),
                        out@ == spec_rendered_parts(all.take(i as int), urls.deep_view()),
                    decreases n - i,
                {
                    let ghost pre = out@;
                    match &parts[i] {
                        ContentPart::Text(t) => {
                            out.append(t.as_str());
                        },
                        ContentPart::Attachment(u) => {
                            out.append("\n");
                            let resolved = resolve_url(urls, u.as_str());
                            out.append(resolved.as_str());
                            proof {
                                reveal_strlit("\n");
                                assert("\n"@ =~= seq!['\n']);
                                assert(out@ =~= pre + (seq!['\n'] + spec_resolved_url(
                                    urls.deep_view(),
                                    u@,
                                )));
                            }
                        },
                    }
                    proof {
                        assert(all.take(i + 1).drop_last() =~= all.take(i as int));
                        assert(all.take(i + 1).last() == all[i as int]);
                    }
                    i += 1;
                }
                proof {
                    assert(all.take(n as int) =~= all);
                }
                out
            },
        }
    }
}

/// A user turn, pre-built by the input-resolution layer: the text, the
/// attachment URLs of the turn, and the id-to-original-URL bindings they
/// introduce.
pub struct Input {
    pub text: String,
    pub medias: Vec<String>,
    pub data_urls: Vec<(String, String)>,
}

/// The abstract value of an `Input`.
pub struct InputV {
    pub text: Seq<char>,
    pub medias: Seq<Seq<char>>,
    pub data_urls: Seq<(Seq<char>, Seq<char>)>,
}

impl View for Input {
    type V = InputV;

    open spec fn view(&self) -> InputV {
        InputV {
            text: self.text@,
            medias: self.medias.deep_view(),
            data_urls: self.data_urls.deep_view(),
        }
    }
}

/// The message content an input turns into: plain text when it carries no
/// attachment, else the text block followed by one attachment block per URL.
pub open spec fn spec_content_of(input: InputV) -> MessageContentV {
    if input.medias.len() == 0 {
        MessageContentV::Text(input.text)
    } else {
        MessageContentV::Mixed(
            seq![ContentPartV::Text(input.text)] + input.medias.map(
                |i: int, u: Seq<char>| ContentPartV::Attachment(u),
            ),
        )
    }
}

/// The human preview of an input: its text, followed by each attachment URL
/// on a line of its own.
pub open spec fn spec_rendered(input: InputV) -> Seq<char> {
    input.text + joined_lines(input.medias)
}

impl Input {
    /// An input that carries only text.
    pub fn from_text(text: &str) -> (r: Input)
        ensures
            r@.text == text@,
            r@.medias == Seq::<Seq<char>>::empty(),
            r@.data_urls == Seq::<(Seq<char>, Seq<char>)>::empty(),
    {
        let r = Input { text: text.to_owned(), medias: Vec::new(), data_urls: Vec::new() };
        proof {
            assert(r@.medias =~= Seq::<Seq<char>>::empty());
            assert(r@.data_urls =~= Seq::<(Seq<char>, Seq<char>)>::empty());
        }
        r
    }

    /// The human preview of this input, as `spec_rendered` describes.
    pub fn render(&self) -> (r: String)
        ensures
            r@ == spec_rendered(self@),
    {
        let mut out = self.text.clone();
        let tail = joined_lines_exec(&self.medias);
        out.append(tail.as_str());
        out
    }

    /// The message content this input turns into, as `spec_content_of`
    /// describes.
    pub fn to_message_content(&self) -> (r: MessageContent)
        ensures
            r@ == spec_content_of(self@),
    {
        if self.medias.len() == 0 {
            MessageContent::Text(self.text.clone())
        } else {
            let mut parts: Vec<ContentPart> = Vec::new();
            parts.push(ContentPart::Text(self.text.clone()));
            let n = self.medias.len();
            let mut i: usize = 0;
            while i < n
                invariant
                    i <= n,
                    n == self.medias@.len(),
                    parts@.len() == i + 1,
                    parts.deep_view()[0] == ContentPartV::Text(self@.text),
                    forall|k: int| 0 <= k < i ==> parts.deep_view()[k + 1]
                        == ContentPartV::Attachment(self.medias.deep_view()[k]),
                decreases n - i,
            {
                parts.push(ContentPart::Attachment(self.medias[i].clone()));
                i += 1;
            }
            proof {
                let target = spec_content_of(self@);
                assert(parts.deep_view() =~= target->Mixed_0);
            }
            MessageContent::Mixed(parts)
        }
    }

    /// The id-to-original-URL bindings this input introduces.
    pub fn data_urls(&self) -> (r: &Vec<(String, String)>)
        ensures
            r.deep_view() == self@.data_urls,
    {
        &self.data_urls
    }
}

} // verus!
