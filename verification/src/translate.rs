//! From chat messages to the upstream's input items and instructions.

use vstd::prelude::*;
use vstd::string::StringExecFns;
use crate::image::{normalize_data_url, normalized_url};
use crate::message::{BlockModel, ContentBlock, ContentModel, Message, MessageContent, MessageModel, Role};
use crate::state::CodexState;
use crate::text::joined;

verus! {

/// One part of a message item.
#[derive(Clone, Debug, PartialEq)]
pub enum InputPart {
    InputText { text: String },
    OutputText { text: String },
    InputImage { image_url: String },
}

/// The mathematical model of an [`InputPart`].
pub enum PartModel {
    InputText { text: Seq<char> },
    OutputText { text: Seq<char> },
    InputImage { image_url: Seq<char> },
}

impl DeepView for InputPart {
    type V = PartModel;

    open spec fn deep_view(&self) -> PartModel {
        match *self {
            InputPart::InputText { text } => PartModel::InputText { text: text@ },
            InputPart::OutputText { text } => PartModel::OutputText { text: text@ },
            InputPart::InputImage { image_url } => PartModel::InputImage { image_url: image_url@ },
        }
    }
}

/// One item of the upstream request's input.
#[derive(Clone, Debug, PartialEq)]
pub enum InputItem {
    /// `{type: "message", role, content: [..]}`
    Message { role: Role, content: Vec<InputPart> },
    /// `{type: "function_call_output", call_id, output}`
    FunctionCallOutput { call_id: String, output: String },
}

/// The mathematical model of an [`InputItem`].
pub enum ItemModel {
    Message { role: Role, content: Seq<PartModel> },
    FunctionCallOutput { call_id: Seq<char>, output: Seq<char> },
}

impl DeepView for InputItem {
    type V = ItemModel;

    open spec fn deep_view(&self) -> ItemModel {
        match *self {
            InputItem::Message { role, content } => ItemModel::Message {
                role,
                content: content.deep_view(),
            },
            InputItem::FunctionCallOutput { call_id, output } => ItemModel::FunctionCallOutput {
                call_id: call_id@,
                output: output@,
            },
        }
    }
}

/// The text fragments that a message contributes to the instructions: those
/// of a system message that are not empty, in order.
pub open spec fn instruction_fragments(m: MessageModel) -> Seq<Seq<char>> {
    if m.role != Role::System {
        Seq::empty()
    } else {
        match m.content {
            ContentModel::Text { text } => if text.len() > 0 {
                seq![text]
            } else {
                Seq::empty()
            },
            ContentModel::Blocks { blocks } => block_fragments(blocks),
        }
    }
}

/// The texts of the text blocks that are not empty, in order.
pub open spec fn block_fragments(blocks: Seq<BlockModel>) -> Seq<Seq<char>>
    decreases blocks.len(),
{
    if blocks.len() == 0 {
        Seq::empty()
    } else {
        let rest = block_fragments(blocks.drop_last());
        match blocks.last() {
            BlockModel::Text { text } => if text.len() > 0 {
                rest.push(text)
            } else {
                rest
            },
            _ => rest,
        }
    }
}

/// The instruction fragments of all messages, in order.
pub open spec fn all_fragments(msgs: Seq<MessageModel>) -> Seq<Seq<char>>
    decreases msgs.len(),
{
    if msgs.len() == 0 {
        Seq::empty()
    } else {
        all_fragments(msgs.drop_last()) + instruction_fragments(msgs.last())
    }
}

/// The instructions of a conversation: the fragments joined by a line break,
/// or nothing where there is no fragment.
pub open spec fn instructions_of(msgs: Seq<MessageModel>) -> Option<Seq<char>> {
    let parts = all_fragments(msgs);
    if parts.len() == 0 {
        None
    } else {
        Some(joined(parts, seq!['\n']))
    }
}

/// The parts of an assistant message made of blocks: one output text for each
/// text block that is not empty.
pub open spec fn assistant_parts(blocks: Seq<BlockModel>) -> Seq<PartModel>
    decreases blocks.len(),
{
    if blocks.len() == 0 {
        Seq::empty()
    } else {
        let rest = assistant_parts(blocks.drop_last());
        match blocks.last() {
            BlockModel::Text { text } => if text.len() > 0 {
                rest.push(PartModel::OutputText { text })
            } else {
                rest
            },
            _ => rest,
        }
    }
}

/// The message item that holds `parts`, or nothing where there are none.
pub open spec fn message_item(role: Role, parts: Seq<PartModel>) -> Seq<ItemModel> {
    if parts.len() == 0 {
        Seq::empty()
    } else {
        seq![ItemModel::Message { role, content: parts }]
    }
}

/// The items for the blocks of a user or tool message, given the parts that
/// wait to be emitted. Texts and images gather into one message item until a
/// tool result comes; a tool result closes that item and is an item by itself.
pub open spec fn user_items(blocks: Seq<BlockModel>, pending: Seq<PartModel>) -> Seq<ItemModel>
    decreases blocks.len(),
{
    if blocks.len() == 0 {
        message_item(Role::User, pending)
    } else {
        let rest = blocks.drop_first();
        match blocks[0] {
            BlockModel::Text { text } => if text.len() > 0 {
                user_items(rest, pending.push(PartModel::InputText { text }))
            } else {
                user_items(rest, pending)
            },
            BlockModel::ImageUrl { url } => if normalized_url(url).len() > 0 {
                user_items(rest, pending.push(PartModel::InputImage { image_url: normalized_url(url) }))
            } else {
                user_items(rest, pending)
            },
            BlockModel::ToolResult { tool_use_id, content } => message_item(Role::User, pending)
                + seq![ItemModel::FunctionCallOutput { call_id: tool_use_id, output: content }]
                + user_items(rest, Seq::empty()),
            BlockModel::Unknown => user_items(rest, pending),
        }
    }
}

/// The input items that one message becomes.
pub open spec fn items_of_message(m: MessageModel) -> Seq<ItemModel> {
    match m.role {
        Role::System => Seq::empty(),
        Role::Assistant => match m.content {
            ContentModel::Text { text } => if text.len() > 0 {
                seq![ItemModel::Message {
                    role: Role::Assistant,
                    content: seq![PartModel::OutputText { text }],
                }]
            } else {
                Seq::empty()
            },
            ContentModel::Blocks { blocks } => message_item(Role::Assistant, assistant_parts(blocks)),
        },
        _ => match m.content {
            ContentModel::Text { text } => if text.len() > 0 {
                seq![ItemModel::Message {
                    role: Role::User,
                    content: seq![PartModel::InputText { text }],
                }]
            } else {
                Seq::empty()
            },
            ContentModel::Blocks { blocks } => user_items(blocks, Seq::empty()),
        },
    }
}

/// The input items of a conversation, message by message.
pub open spec fn input_items(msgs: Seq<MessageModel>) -> Seq<ItemModel>
    decreases msgs.len(),
{
    if msgs.len() == 0 {
        Seq::empty()
    } else {
        input_items(msgs.drop_last()) + items_of_message(msgs.last())
    }
}

/// The parts joined by `sep`.
pub fn join(parts: &Vec<String>, sep: &str) -> (r: String)
    ensures
        r@ == joined(parts.deep_view(), sep@),
{
    let mut r = String::new();
    let mut i: usize = 0;
    while i < parts.len()
        invariant
            i <= parts.len(),
            r@ == joined(parts.deep_view().take(i as int), sep@),
        decreases parts.len() - i,
    {
        proof {
            let next = parts.deep_view().take(i + 1);
            assert(next.drop_last() =~= parts.deep_view().take(i as int));
        }
        if i > 0 {
            r.append(sep);
        }
        r.append(parts[i].as_str());
        i += 1;
    }
    proof {
        assert(parts.deep_view().take(parts.len() as int) =~= parts.deep_view());
    }
    r
}

/// Appends to `parts` the fragments of the text blocks that are not empty.
fn push_block_fragments(blocks: &Vec<ContentBlock>, parts: &mut Vec<String>)
    ensures
        final(parts).deep_view() == old(parts).deep_view() + block_fragments(blocks.deep_view()),
{
    let ghost before = parts.deep_view();
    let mut i: usize = 0;
    while i < blocks.len()
        invariant
            i <= blocks.len(),
            parts.deep_view() == before + block_fragments(blocks.deep_view().take(i as int)),
        decreases blocks.len() - i,
    {
        proof {
            let next = blocks.deep_view().take(i + 1);
            assert(next.drop_last() =~= blocks.deep_view().take(i as int));
        }
        let ghost prev = parts.deep_view();
        match &blocks[i] {
            ContentBlock::Text { text } => {
                if !text.as_str().is_empty() {
                    parts.push(text.clone());
                    assert(parts.deep_view() =~= prev.push(text@));
                }
            },
            _ => {},
        }
        i += 1;
    }
    proof {
        assert(blocks.deep_view().take(blocks.len() as int) =~= blocks.deep_view());
    }
}

/// The instructions that the system messages give, or nothing where they give
/// none: every text of a system message that is not empty, in order, joined by
/// a line break.
pub fn system_instructions(messages: &[Message]) -> (r: Option<String>)
    ensures
        r.deep_view() == instructions_of(messages.deep_view()),
{
    let mut parts: Vec<String> = Vec::new();
    let mut i: usize = 0;
    while i < messages.len()
        invariant
            i <= messages.len(),
            parts.deep_view() == all_fragments(messages.deep_view().take(i as int)),
        decreases messages.len() - i,
    {
        proof {
            let next = messages.deep_view().take(i + 1);
            assert(next.drop_last() =~= messages.deep_view().take(i as int));
        }
        let m = &messages[i];
        if m.role == Role::System {
            match &m.content {
                MessageContent::Text { text } => {
                    if !text.as_str().is_empty() {
                        parts.push(text.clone());
                    }
                },
                MessageContent::Blocks { blocks } => {
                    push_block_fragments(blocks, &mut parts);
                },
            }
        }
        i += 1;
    }
    proof {
        assert(messages.deep_view().take(messages.len() as int) =~= messages.deep_view());
    }
    if parts.len() == 0 {
        None
    } else {
        proof {
            reveal_strlit("\n");
            assert("\n"@ =~= seq!['\n']);
        }
        Some(join(&parts, "\n"))
    }
}

/// Appends to `out` the items for the blocks of a user or tool message.
fn push_user_items(blocks: &Vec<ContentBlock>, out: &mut Vec<InputItem>)
    ensures
        final(out).deep_view() == old(out).deep_view() + user_items(
            blocks.deep_view(),
            Seq::empty(),
        ),
{
    let ghost before = out.deep_view();
    let ghost all = blocks.deep_view();
    let mut pending: Vec<InputPart> = Vec::new();
    let mut i: usize = 0;
    proof {
        assert(all.skip(0) =~= all);
        assert(pending.deep_view() =~= Seq::<PartModel>::empty());
    }
    while i < blocks.len()
        invariant
            i <= blocks.len(),
            all == blocks.deep_view(),
            before + user_items(all, Seq::empty()) == out.deep_view() + user_items(
                all.skip(i as int),
                pending.deep_view(),
            ),
        decreases blocks.len() - i,
    {
        let ghost rest = all.skip(i as int);
        let ghost emitted = out.deep_view();
        let ghost waiting = pending.deep_view();
        proof {
            assert(rest.drop_first() =~= all.skip(i + 1));
        }
        match &blocks[i] {
            ContentBlock::Text { text } => {
                if !text.as_str().is_empty() {
                    pending.push(InputPart::InputText { text: text.clone() });
                    assert(pending.deep_view() =~= waiting.push(
                        PartModel::InputText { text: text@ },
                    ));
                }
            },
            ContentBlock::ImageUrl { url } => {
                let image_url = normalize_data_url(url.as_str());
                if !image_url.as_str().is_empty() {
                    pending.push(InputPart::InputImage { image_url });
                    assert(pending.deep_view() =~= waiting.push(
                        PartModel::InputImage { image_url: normalized_url(url@) },
                    ));
                }
            },
            ContentBlock::ToolResult { tool_use_id, content } => {
                if pending.len() > 0 {
                    out.push(InputItem::Message { role: Role::User, content: pending });
                    pending = Vec::new();
                }
                let ghost closed = out.deep_view();
                out.push(
                    InputItem::FunctionCallOutput {
                        call_id: tool_use_id.clone(),
                        output: content.clone(),
                    },
                );
                assert(out.deep_view() =~= closed.push(
                    ItemModel::FunctionCallOutput { call_id: tool_use_id@, output: content@ },
                ));
                assert(pending.deep_view() =~= Seq::<PartModel>::empty());
                assert(emitted + (message_item(Role::User, waiting)
                    + seq![
                    ItemModel::FunctionCallOutput { call_id: tool_use_id@, output: content@ },
                ] + user_items(rest.drop_first(), Seq::empty())) =~= out.deep_view() + user_items(
                    rest.drop_first(),
                    Seq::empty(),
                ));
            },
            ContentBlock::Unknown => {},
        }
        i += 1;
    }
    let ghost emitted = out.deep_view();
    let ghost waiting = pending.deep_view();
    if pending.len() > 0 {
        out.push(InputItem::Message { role: Role::User, content: pending });
    }
}

/// The parts of an assistant message made of blocks.
fn collect_assistant_parts(blocks: &Vec<ContentBlock>) -> (parts: Vec<InputPart>)
    ensures
        parts.deep_view() == assistant_parts(blocks.deep_view()),
{
    let mut parts: Vec<InputPart> = Vec::new();
    let mut i: usize = 0;
    while i < blocks.len()
        invariant
            i <= blocks.len(),
            parts.deep_view() == assistant_parts(blocks.deep_view().take(i as int)),
        decreases blocks.len() - i,
    {
        proof {
            let next = blocks.deep_view().take(i + 1);
            assert(next.drop_last() =~= blocks.deep_view().take(i as int));
        }
        match &blocks[i] {
            ContentBlock::Text { text } => {
                if !text.as_str().is_empty() {
                    parts.push(InputPart::OutputText { text: text.clone() });
                }
            },
            _ => {},
        }
        i += 1;
    }
    proof {
        assert(blocks.deep_view().take(blocks.len() as int) =~= blocks.deep_view());
    }
    parts
}

/// Appends to `out` the items that one message becomes.
fn push_message_items(m: &Message, out: &mut Vec<InputItem>)
    ensures
        final(out).deep_view() == old(out).deep_view() + items_of_message(m.deep_view()),
{
    match m.role {
        Role::System => {
        },
        Role::Assistant => {
            match &m.content {
                MessageContent::Text { text } => {
                    if !text.as_str().is_empty() {
                        let mut content: Vec<InputPart> = Vec::new();
                        content.push(InputPart::OutputText { text: text.clone() });
                        assert(content.deep_view() =~= seq![PartModel::OutputText { text: text@ }]);
                        out.push(InputItem::Message { role: Role::Assistant, content });
                    }
                },
                MessageContent::Blocks { blocks } => {
                    let content = collect_assistant_parts(blocks);
                    if content.len() > 0 {
                        out.push(InputItem::Message { role: Role::Assistant, content });
                    }
                },
            }
        },
        _ => {
            match &m.content {
                MessageContent::Text { text } => {
                    if !text.as_str().is_empty() {
                        let mut content: Vec<InputPart> = Vec::new();
                        content.push(InputPart::InputText { text: text.clone() });
                        assert(content.deep_view() =~= seq![PartModel::InputText { text: text@ }]);
                        out.push(InputItem::Message { role: Role::User, content });
                    }
                },
                MessageContent::Blocks { blocks } => {
                    push_user_items(blocks, out);
                },
            }
        },
    }
}

impl CodexState {
    /// The upstream input items for a conversation, in message order.
    ///
    /// System messages give no item. An assistant message gives one message
    /// item with an output text for each text that is not empty, and none
    /// where no text is left. A user or tool message gives message items of
    /// role user with its texts and images, the image URLs normalised, and
    /// one function-call-output item for each tool result, all in the order
    /// of the blocks.
    pub fn convert_messages_to_responses_input(&self, messages: &[Message]) -> (out: Vec<InputItem>)
        ensures
            out.deep_view() == input_items(messages.deep_view()),
    {
        let mut out: Vec<InputItem> = Vec::new();
        let mut i: usize = 0;
        while i < messages.len()
            invariant
                i <= messages.len(),
                out.deep_view() == input_items(messages.deep_view().take(i as int)),
            decreases messages.len() - i,
        {
            proof {
                let next = messages.deep_view().take(i + 1);
                assert(next.drop_last() =~= messages.deep_view().take(i as int));
            }
            push_message_items(&messages[i], &mut out);
            i += 1;
        }
        proof {
            assert(messages.deep_view().take(messages.len() as int) =~= messages.deep_view());
        }
        out
    }
}

} // verus!
