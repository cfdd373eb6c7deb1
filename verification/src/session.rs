//! The session identity of a request: a digest of the conversation's prefix,
//! which the upstream uses for session affinity and as prompt cache key.

use vstd::prelude::*;
use vstd::string::StringExecFns;
use crate::chance::fresh_uuid;
use crate::digest::{hex_encode, hex_lower, is_hex_digit, lemma_hex_lower_shape, sha256, sha256_digest};
use crate::message::Role;
use crate::text::{joined, trim, trimmed};
use crate::translate::{join, InputItem, InputPart, ItemModel, PartModel};

verus! {

/// How a part of the first user message enters the prefix: an input text as
/// itself, an input image as `<img:URL>`, anything else not at all.
pub open spec fn part_rendering(p: PartModel) -> Option<Seq<char>> {
    match p {
        PartModel::InputText { text } => Some(text),
        PartModel::InputImage { image_url } => Some("<img:"@ + image_url + ">"@),
        PartModel::OutputText { .. } => None,
    }
}

/// The renderings of the parts that have one, in order.
pub open spec fn renderings(parts: Seq<PartModel>) -> Seq<Seq<char>>
    decreases parts.len(),
{
    if parts.len() == 0 {
        Seq::empty()
    } else {
        let rest = renderings(parts.drop_last());
        match part_rendering(parts.last()) {
            Some(r) => rest.push(r),
            None => rest,
        }
    }
}

/// The canonical rendering of the first message item of role user that has a
/// rendered part: its renderings joined by `|`.
pub open spec fn first_user_message(items: Seq<ItemModel>) -> Option<Seq<char>>
    decreases items.len(),
{
    if items.len() == 0 {
        None
    } else {
        match items[0] {
            ItemModel::Message { role: Role::User, content } => if renderings(content).len() > 0 {
                Some(joined(renderings(content), "|"@))
            } else {
                first_user_message(items.drop_first())
            },
            _ => first_user_message(items.drop_first()),
        }
    }
}

/// The prefix that identifies a conversation: the trimmed instructions, then
/// the canonical rendering of the first user message.
pub open spec fn session_prefix(instructions: Option<Seq<char>>, items: Seq<ItemModel>) -> Seq<
    char,
> {
    let head = match instructions {
        Some(i) => trimmed(i),
        None => Seq::empty(),
    };
    let tail = match first_user_message(items) {
        Some(m) => m,
        None => Seq::empty(),
    };
    head + tail
}

/// The session id of a prefix: the SHA-256 digest of its UTF-8 bytes in
/// lower-case hexadecimal.
pub open spec fn session_digest(prefix: Seq<char>) -> Seq<char> {
    hex_lower(sha256(vstd::utf8::encode_utf8(prefix)))
}

/// The item is passed over in the search for the first user message: it is
/// no message item of role user with a rendered part.
pub open spec fn is_passed_over(item: ItemModel) -> bool {
    match item {
        ItemModel::Message { role: Role::User, content } => renderings(content).len() == 0,
        _ => true,
    }
}

/// The item at `k` is the first user message of `items`.
pub open spec fn is_first_user_at(items: Seq<ItemModel>, k: int) -> bool {
    &&& 0 <= k < items.len()
    &&& !is_passed_over(items[k])
    &&& forall|j: int| 0 <= j < k ==> is_passed_over(#[trigger] items[j])
}

/// The items with the part at `p` of the message at `k` replaced by the
/// input text `text`.
pub open spec fn with_text(items: Seq<ItemModel>, k: int, p: int, text: Seq<char>) -> Seq<
    ItemModel,
> {
    items.update(
        k,
        ItemModel::Message {
            role: Role::User,
            content: items[k]->Message_content.update(p, PartModel::InputText { text }),
        },
    )
}

/// The session id depends on the instructions and on the first user message
/// alone: two requests with the same instructions and the same first user
/// message have the same prefix, and so the same digest.
pub proof fn lemma_session_id_is_determined(
    instructions: Option<Seq<char>>,
    items_a: Seq<ItemModel>,
    items_b: Seq<ItemModel>,
)
    requires
        first_user_message(items_a) == first_user_message(items_b),
    ensures
        session_prefix(instructions, items_a) == session_prefix(instructions, items_b),
        session_digest(session_prefix(instructions, items_a)) == session_digest(
            session_prefix(instructions, items_b),
        ),
{
}

/// The canonical rendering of the first user message is that of the item at
/// `k`, where that item is the first user message.
proof fn lemma_first_user_message_at(items: Seq<ItemModel>, k: int)
    requires
        is_first_user_at(items, k),
    ensures
        first_user_message(items) == Some(
            joined(renderings(items[k]->Message_content), "|"@),
        ),
    decreases k,
{
    if k > 0 {
        let rest = items.drop_first();
        lemma_first_user_message_at(rest, k - 1);
    }
}

/// Replacing an input text among the parts replaces one rendering and keeps
/// the others. The result is the position of that rendering.
proof fn lemma_renderings_with_text(parts: Seq<PartModel>, p: int, text: Seq<char>) -> (at: int)
    requires
        0 <= p < parts.len(),
        parts[p] is InputText,
    ensures
        0 <= at < renderings(parts).len(),
        renderings(parts)[at] == parts[p]->InputText_text,
        renderings(parts.update(p, PartModel::InputText { text })) == renderings(parts).update(
            at,
            text,
        ),
    decreases parts.len(),
{
    let changed = parts.update(p, PartModel::InputText { text });
    let front = parts.drop_last();
    if p == parts.len() - 1 {
        assert(changed.drop_last() =~= front);
        let at = renderings(front).len() as int;
        at
    } else {
        let at = lemma_renderings_with_text(front, p, text);
        assert(changed.drop_last() =~= front.update(p, PartModel::InputText { text }));
        at
    }
}

/// Replacing one of the joined texts by another text changes the whole.
proof fn lemma_joined_with_other_text(
    parts: Seq<Seq<char>>,
    at: int,
    text: Seq<char>,
    sep: Seq<char>,
)
    requires
        0 <= at < parts.len(),
        parts[at] != text,
    ensures
        joined(parts.update(at, text), sep) != joined(parts, sep),
    decreases parts.len(),
{
    let changed = parts.update(at, text);
    if parts.len() >= 2 {
        let front = parts.drop_last();
        if at == parts.len() - 1 {
            assert(changed.drop_last() =~= front);
            let head = joined(front, sep) + sep;
            assert((head + parts[at]).skip(head.len() as int) =~= parts[at]);
            assert((head + text).skip(head.len() as int) =~= text);
        } else {
            assert(changed.drop_last() =~= front.update(at, text));
            lemma_joined_with_other_text(front, at, text, sep);
            let a = joined(front, sep);
            let b = joined(front.update(at, text), sep);
            let tail = sep + parts.last();
            assert(joined(parts, sep) =~= a + tail);
            assert(joined(changed, sep) =~= b + tail);
            if a + tail == b + tail {
                assert((a + tail).take(a.len() as int) =~= a);
                assert((b + tail).take(b.len() as int) =~= b);
            }
        }
    }
}

/// Changing a text of the first user message changes what is digested:
/// replacing one input text of that message by another text gives another
/// prefix, with other UTF-8 bytes.
pub proof fn lemma_changed_text_changes_prefix(
    instructions: Option<Seq<char>>,
    items: Seq<ItemModel>,
    k: int,
    p: int,
    text: Seq<char>,
)
    requires
        is_first_user_at(items, k),
        0 <= p < items[k]->Message_content.len(),
        items[k]->Message_content[p] is InputText,
        items[k]->Message_content[p]->InputText_text != text,
    ensures
        is_first_user_at(with_text(items, k, p, text), k),
        session_prefix(instructions, with_text(items, k, p, text)) != session_prefix(
            instructions,
            items,
        ),
        vstd::utf8::encode_utf8(session_prefix(instructions, with_text(items, k, p, text)))
            != vstd::utf8::encode_utf8(session_prefix(instructions, items)),
{
    let content = items[k]->Message_content;
    let changed = with_text(items, k, p, text);
    let at = lemma_renderings_with_text(content, p, text);
    lemma_first_user_message_at(items, k);
    lemma_first_user_message_at(changed, k);
    lemma_joined_with_other_text(renderings(content), at, text, "|"@);
    let head = match instructions {
        Some(i) => trimmed(i),
        None => Seq::empty(),
    };
    let a = joined(renderings(content), "|"@);
    let b = joined(renderings(content).update(at, text), "|"@);
    assert((head + a).skip(head.len() as int) =~= a);
    assert((head + b).skip(head.len() as int) =~= b);
    vstd::utf8::encode_utf8_decode_utf8(session_prefix(instructions, items));
    vstd::utf8::encode_utf8_decode_utf8(session_prefix(instructions, changed));
}

/// The renderings of `parts`.
fn render_parts(parts: &Vec<InputPart>) -> (out: Vec<String>)
    ensures
        out.deep_view() == renderings(parts.deep_view()),
{
    let mut out: Vec<String> = Vec::new();
    let mut i: usize = 0;
    while i < parts.len()
        invariant
            i <= parts.len(),
            out.deep_view() == renderings(parts.deep_view().take(i as int)),
        decreases parts.len() - i,
    {
        proof {
            let next = parts.deep_view().take(i + 1);
            assert(next.drop_last() =~= parts.deep_view().take(i as int));
        }
        match &parts[i] {
            InputPart::InputText { text } => {
                out.push(text.clone());
            },
            InputPart::InputImage { image_url } => {
                let mut r = "<img:".to_string();
                r.append(image_url.as_str());
                r.append(">");
                out.push(r);
            },
            InputPart::OutputText { .. } => {},
        }
        i += 1;
    }
    proof {
        assert(parts.deep_view().take(parts.len() as int) =~= parts.deep_view());
    }
    out
}

/// The canonical rendering of the first user message among `input_items`.
pub fn canonicalize_first_user_message(input_items: &[InputItem]) -> (r: Option<String>)
    ensures
        r.deep_view() == first_user_message(input_items.deep_view()),
{
    let ghost all = input_items.deep_view();
    let mut i: usize = 0;
    proof {
        assert(all.skip(0) =~= all);
    }
    while i < input_items.len()
        invariant
            i <= input_items.len(),
            all == input_items.deep_view(),
            first_user_message(all) == first_user_message(all.skip(i as int)),
        decreases input_items.len() - i,
    {
        proof {
            assert(all.skip(i as int).drop_first() =~= all.skip(i + 1));
        }
        match &input_items[i] {
            InputItem::Message { role, content } => {
                if *role == Role::User {
                    let parts = render_parts(content);
                    if parts.len() > 0 {
                        return Some(join(&parts, "|"));
                    }
                }
            },
            InputItem::FunctionCallOutput { .. } => {},
        }
        i += 1;
    }
    None
}

/// The prefix that identifies the conversation.
pub fn conversation_prefix(instructions: Option<&str>, input_items: &[InputItem]) -> (p: String)
    ensures
        p@ == session_prefix(instructions.deep_view(), input_items.deep_view()),
{
    let mut p = match instructions {
        Some(i) => trim(i),
        None => String::new(),
    };
    match canonicalize_first_user_message(input_items) {
        Some(m) => {
            p.append(m.as_str());
        },
        None => {
        },
    }
    p
}

/// The digest of a prefix.
pub fn digest_of_prefix(prefix: &str) -> (id: String)
    ensures
        id@ == session_digest(prefix@),
        id@.len() == 64,
        forall|i: int| 0 <= i < 64 ==> is_hex_digit(#[trigger] id@[i]),
{
    let digest = sha256_digest(prefix.as_bytes());
    proof {
        lemma_hex_lower_shape(digest@);
    }
    hex_encode(digest.as_slice())
}

/// The session id of a request.
///
/// Where the conversation has a prefix, the id is the digest of the prefix:
/// 64 hexadecimal digits, the same for the same instructions and first user
/// message. Where the prefix is empty, the id is a fresh random identifier of
/// 36 characters.
pub fn ensure_session_id(instructions: Option<&str>, input_items: &[InputItem]) -> (id: String)
    ensures
        ({
            let prefix = session_prefix(instructions.deep_view(), input_items.deep_view());
            if prefix.len() > 0 {
                id@ == session_digest(prefix) && id@.len() == 64
            } else {
                id@.len() == 36
            }
        }),
{
    let prefix = conversation_prefix(instructions, input_items);
    if prefix.as_str().is_empty() {
        fresh_uuid()
    } else {
        digest_of_prefix(prefix.as_str())
    }
}

} // verus!
