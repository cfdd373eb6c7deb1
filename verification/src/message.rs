//! Chat messages as clients send them.

use vstd::prelude::*;

verus! {

/// Who speaks in a message.
#[derive(Clone, Copy, Debug, PartialEq, Eq, Structural)]
pub enum Role {
    System,
    User,
    Assistant,
    Tool,
}

/// One block of a message's content.
#[derive(Clone, Debug, PartialEq)]
pub enum ContentBlock {
    Text { text: String },
    ImageUrl { url: String },
    ToolResult { tool_use_id: String, content: String },
    /// A block of a kind this library does not know.
    Unknown,
}

/// The mathematical model of a [`ContentBlock`].
pub enum BlockModel {
    Text { text: Seq<char> },
    ImageUrl { url: Seq<char> },
    ToolResult { tool_use_id: Seq<char>, content: Seq<char> },
    Unknown,
}

impl DeepView for ContentBlock {
    type V = BlockModel;

    open spec fn deep_view(&self) -> BlockModel {
        match *self {
            ContentBlock::Text { text } => BlockModel::Text { text: text@ },
            ContentBlock::ImageUrl { url } => BlockModel::ImageUrl { url: url@ },
            ContentBlock::ToolResult { tool_use_id, content } => BlockModel::ToolResult {
                tool_use_id: tool_use_id@,
                content: content@,
            },
            ContentBlock::Unknown => BlockModel::Unknown,
        }
    }
}

/// What a message says: one text, or blocks in order.
#[derive(Clone, Debug, PartialEq)]
pub enum MessageContent {
    Text { text: String },
    Blocks { blocks: Vec<ContentBlock> },
}

/// The mathematical model of a [`MessageContent`].
pub enum ContentModel {
    Text { text: Seq<char> },
    Blocks { blocks: Seq<BlockModel> },
}

impl DeepView for MessageContent {
    type V = ContentModel;

    open spec fn deep_view(&self) -> ContentModel {
        match *self {
            MessageContent::Text { text } => ContentModel::Text { text: text@ },
            MessageContent::Blocks { blocks } => ContentModel::Blocks {
                blocks: blocks.deep_view(),
            },
        }
    }
}

/// One chat message.
#[derive(Clone, Debug, PartialEq)]
pub struct Message {
    pub role: Role,
    pub content: MessageContent,
}

/// The mathematical model of a [`Message`].
pub struct MessageModel {
    pub role: Role,
    pub content: ContentModel,
}

impl DeepView for Message {
    type V = MessageModel;

    open spec fn deep_view(&self) -> MessageModel {
        MessageModel { role: self.role, content: self.content.deep_view() }
    }
}

impl Message {
    /// A message that says one text.
    pub fn new_text(role: Role, text: String) -> (m: Message)
        ensures
            m.deep_view() == (MessageModel {
                role,
                content: ContentModel::Text { text: text@ },
            }),
    {
        Message { role, content: MessageContent::Text { text } }
    }

    /// A message made of blocks.
    pub fn new_blocks(role: Role, blocks: Vec<ContentBlock>) -> (m: Message)
        ensures
            m.deep_view() == (MessageModel {
                role,
                content: ContentModel::Blocks { blocks: blocks.deep_view() },
            }),
    {
        Message { role, content: MessageContent::Blocks { blocks } }
    }
}

} // verus!
