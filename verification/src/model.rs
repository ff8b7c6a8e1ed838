//! The bound model: its identifier, its input-token ceiling, and the
//! deterministic token estimate used for budget decisions — one token per
//! character of message content, the sum saturating at `usize::MAX`.

use vstd::prelude::*;

use crate::message::{ContentPartV, Message, MessageContentV, MessageV};

verus! {

/// `n` capped at `usize::MAX`.
pub open spec fn capped(n: nat) -> nat {
    if n <= usize::MAX as nat {
        n
    } else {
        usize::MAX as nat
    }
}

/// The token estimate of one content block: its character count.
pub open spec fn part_tokens(p: ContentPartV) -> nat {
    match p {
        ContentPartV::Text(t) => t.len(),
        ContentPartV::Attachment(u) => u.len(),
    }
}

/// The token estimate of a sequence of content blocks.
pub open spec fn parts_tokens(ps: Seq<ContentPartV>) -> nat
    decreases ps.len(),
{
    if ps.len() == 0 {
        0
    } else {
        parts_tokens(ps.drop_last()) + part_tokens(ps.last())
    }
}

/// The token estimate of a message payload.
pub open spec fn content_tokens(c: MessageContentV) -> nat {
    match c {
        MessageContentV::Text(t) => t.len(),
        MessageContentV::Mixed(ps) => parts_tokens(ps),
    }
}

/// The token estimate of a message sequence.
pub open spec fn messages_tokens(ms: Seq<MessageV>) -> nat
    decreases ms.len(),
{
    if ms.len() == 0 {
        0
    } else {
        messages_tokens(ms.drop_last()) + content_tokens(ms.last().content)
    }
}

/// Adds saturating at `usize::MAX`.
fn sat_add(a: usize, b: usize) -> (r: usize)
    ensures
        r as nat == capped(a as nat + b as nat),
{
    if a <= usize::MAX - b {
        a + b
    } else {
        usize::MAX
    }
}

fn count_parts(ps: &Vec<crate::message::ContentPart>) -> (r: usize)
    ensures
        r as nat == capped(parts_tokens(ps.deep_view())),
{
    let ghost all = ps.deep_view();
    let mut acc: usize = 0;
    let n = ps.len();
    let mut i: usize = 0;
    while i < n
        invariant
            i <= n,
            n == ps@.len(),
            all == ps.deep_view(),
            acc as nat == capped(parts_tokens(all.take(i as int))),
        decreases n - i,
    {
        let t = match &ps[i] {
            crate::message::ContentPart::Text(t) => t.as_str().unicode_len(),
            crate::message::ContentPart::Attachment(u) => u.as_str().unicode_len(),
        };
        assert(t as nat == part_tokens(all[i as int]));
        acc = sat_add(acc, t);
        proof {
            assert(all.take(i + 1).drop_last() =~= all.take(i as int));
            assert(all.take(i + 1).last() == all[i as int]);
        }
        i += 1;
    }
    proof {
        assert(all.take(n as int) =~= all);
    }
    acc
}

/// The token estimate of one payload, capped at `usize::MAX`.
pub fn count_content(c: &crate::message::MessageContent) -> (r: usize)
    ensures
        r as nat == capped(content_tokens(c@)),
{
    match c {
        crate::message::MessageContent::Text(t) => t.as_str().unicode_len(),
        crate::message::MessageContent::Mixed(ps) => count_parts(ps),
    }
}

/// A text-generation model, consumed as an interface: an identifier and an
/// optional input-token ceiling; absence (or zero) means no declared ceiling.
#[derive(Debug)]
pub struct Model {
    pub id: String,
    pub max_input_tokens: Option<usize>,
}

impl Model {
    /// A model with the given identifier and ceiling.
    pub fn new(id: &str, max_input_tokens: Option<usize>) -> (r: Model)
        ensures
            r.id@ == id@,
            r.max_input_tokens == max_input_tokens,
    {
        Model { id: id.to_owned(), max_input_tokens }
    }

    /// This model's identifier.
    pub fn id(&self) -> (r: String)
        ensures
            r@ == self.id@,
    {
        self.id.clone()
    }

    /// The token estimate of the whole message sequence, capped at
    /// `usize::MAX`.
    pub fn total_tokens(&self, messages: &Vec<Message>) -> (r: usize)
        ensures
            r as nat == capped(messages_tokens(messages.deep_view())),
    {
        let ghost all = messages.deep_view();
        let mut acc: usize = 0;
        let n = messages.len();
        let mut i: usize = 0;
        while i < n
            invariant
                i <= n,
                n == messages@.len(),
                all == messages.deep_view(),
                acc as nat == capped(messages_tokens(all.take(i as int))),
            decreases n - i,
        {
            let t = count_content(&messages[i].content);
            assert(t as nat == capped(content_tokens(all[i as int].content)));
            acc = sat_add(acc, t);
            proof {
                assert(all.take(i + 1).drop_last() =~= all.take(i as int));
                assert(all.take(i + 1).last() == all[i as int]);
            }
            i += 1;
        }
        proof {
            assert(all.take(n as int) =~= all);
        }
        acc
    }
}

} // verus!
