//! The upstream's events: what one `data:` payload of its event stream says.

use vstd::prelude::*;
use serde_json::Value;
use crate::json::{
    as_text, duplicate, json_document, json_member, json_member2, json_text, json_text_at,
    json_text_at2, member, member2, parse_document, text_at, text_at2,
};

verus! {

/// A call of a function that the model asks for.
#[derive(Clone, Debug, PartialEq)]
pub struct ToolCall {
    pub id: String,
    pub name: String,
    pub arguments: String,
}

/// The mathematical model of a [`ToolCall`].
pub struct ToolCallModel {
    pub id: Seq<char>,
    pub name: Seq<char>,
    pub arguments: Seq<char>,
}

impl DeepView for ToolCall {
    type V = ToolCallModel;

    open spec fn deep_view(&self) -> ToolCallModel {
        ToolCallModel { id: self.id@, name: self.name@, arguments: self.arguments@ }
    }
}

impl ToolCall {
    /// A copy of the call.
    pub fn duplicate(&self) -> (c: ToolCall)
        ensures
            c.deep_view() == self.deep_view(),
    {
        ToolCall {
            id: self.id.clone(),
            name: self.name.clone(),
            arguments: self.arguments.clone(),
        }
    }
}

/// What an event says, by its `type`.
#[derive(Clone, Debug, PartialEq)]
pub enum EventBody {
    /// `response.output_text.delta`: a fragment of the answer.
    TextDelta { delta: String },
    /// `response.output_item.done` whose item is a function call.
    FunctionCall { call: ToolCall },
    /// `response.output_text.done`: the answer's text is complete.
    TextDone,
    /// `response.failed`, with the upstream's message.
    Failed { message: String },
    /// `response.completed`, with the usage where the upstream gave one.
    Completed { usage: Option<Value> },
    /// Any other event.
    Other,
}

/// The mathematical model of an [`EventBody`].
pub enum BodyModel {
    TextDelta { delta: Seq<char> },
    FunctionCall { call: ToolCallModel },
    TextDone,
    Failed { message: Seq<char> },
    Completed { usage: Option<Value> },
    Other,
}

impl DeepView for EventBody {
    type V = BodyModel;

    open spec fn deep_view(&self) -> BodyModel {
        match *self {
            EventBody::TextDelta { delta } => BodyModel::TextDelta { delta: delta@ },
            EventBody::FunctionCall { call } => BodyModel::FunctionCall { call: call.deep_view() },
            EventBody::TextDone => BodyModel::TextDone,
            EventBody::Failed { message } => BodyModel::Failed { message: message@ },
            EventBody::Completed { usage } => BodyModel::Completed { usage },
            EventBody::Other => BodyModel::Other,
        }
    }
}

/// One decoded event of the upstream.
#[derive(Clone, Debug, PartialEq)]
pub struct UpstreamEvent {
    /// `response.id`, where the event carries one.
    pub response_id: Option<String>,
    pub body: EventBody,
}

/// The mathematical model of an [`UpstreamEvent`].
pub struct EventModel {
    pub response_id: Option<Seq<char>>,
    pub body: BodyModel,
}

impl DeepView for UpstreamEvent {
    type V = EventModel;

    open spec fn deep_view(&self) -> EventModel {
        EventModel { response_id: self.response_id.deep_view(), body: self.body.deep_view() }
    }
}

/// The text, or `default` where there is none.
pub open spec fn text_or(o: Option<Seq<char>>, default: Seq<char>) -> Seq<char> {
    match o {
        Some(t) => t,
        None => default,
    }
}

/// The identifier of a function-call item: its `call_id` where it has that
/// member, else its `id`; empty where the member is no string.
pub open spec fn call_id_of(item: Value) -> Seq<char> {
    match json_member(item, "call_id"@) {
        Some(c) => text_or(json_text(c), Seq::empty()),
        None => text_or(json_text_at(item, "id"@), Seq::empty()),
    }
}

/// The function call that an item describes.
pub open spec fn call_of(item: Value) -> ToolCallModel {
    ToolCallModel {
        id: call_id_of(item),
        name: text_or(json_text_at(item, "name"@), Seq::empty()),
        arguments: text_or(json_text_at(item, "arguments"@), Seq::empty()),
    }
}

/// The message of a failed response: `response.error.message`, or
/// `response.failed` where the document has no such text.
pub open spec fn failure_message_of(doc: Value) -> Seq<char> {
    match json_member(doc, "response"@) {
        Some(r) => text_or(json_text_at2(r, "error"@, "message"@), "response.failed"@),
        None => "response.failed"@,
    }
}

/// What a document says, by its `type`.
pub open spec fn body_of(doc: Value) -> BodyModel {
    let kind = text_or(json_text_at(doc, "type"@), Seq::empty());
    if kind == "response.output_text.delta"@ {
        BodyModel::TextDelta { delta: text_or(json_text_at(doc, "delta"@), Seq::empty()) }
    } else if kind == "response.output_item.done"@ {
        match json_member(doc, "item"@) {
            Some(item) => if json_text_at(item, "type"@) == Some("function_call"@) {
                BodyModel::FunctionCall { call: call_of(item) }
            } else {
                BodyModel::Other
            },
            None => BodyModel::Other,
        }
    } else if kind == "response.output_text.done"@ {
        BodyModel::TextDone
    } else if kind == "response.failed"@ {
        BodyModel::Failed { message: failure_message_of(doc) }
    } else if kind == "response.completed"@ {
        BodyModel::Completed { usage: json_member2(doc, "response"@, "usage"@) }
    } else {
        BodyModel::Other
    }
}

/// The event that a document describes.
pub open spec fn event_of(doc: Value) -> EventModel {
    EventModel { response_id: json_text_at2(doc, "response"@, "id"@), body: body_of(doc) }
}

/// The event that a payload describes, if the payload is JSON.
pub open spec fn decoded(data: Seq<char>) -> Option<EventModel> {
    match json_document(data) {
        Some(doc) => Some(event_of(doc)),
        None => None,
    }
}

/// The text, or a copy of `default` where there is none.
pub fn or_text(o: Option<String>, default: &str) -> (r: String)
    ensures
        r@ == text_or(o.deep_view(), default@),
{
    match o {
        Some(t) => t,
        None => default.to_string(),
    }
}

/// The function call that `item` describes.
fn read_call(item: &Value) -> (call: ToolCall)
    ensures
        call.deep_view() == call_of(*item),
{
    let id = match member(item, "call_id") {
        Some(c) => match as_text(c) {
            Some(t) => t.to_string(),
            None => String::new(),
        },
        None => or_text(text_at(item, "id"), ""),
    };
    proof {
        reveal_strlit("");
        assert(""@ =~= Seq::<char>::empty());
    }
    ToolCall {
        id,
        name: or_text(text_at(item, "name"), ""),
        arguments: or_text(text_at(item, "arguments"), ""),
    }
}

/// What the document says, by its `type`.
fn read_body(doc: &Value) -> (body: EventBody)
    ensures
        body.deep_view() == body_of(*doc),
{
    proof {
        reveal_strlit("");
        assert(""@ =~= Seq::<char>::empty());
    }
    let kind = or_text(text_at(doc, "type"), "");
    if kind.as_str().eq("response.output_text.delta") {
        EventBody::TextDelta { delta: or_text(text_at(doc, "delta"), "") }
    } else if kind.as_str().eq("response.output_item.done") {
        match member(doc, "item") {
            Some(item) => {
                let is_call = match text_at(item, "type") {
                    Some(t) => t.as_str().eq("function_call"),
                    None => false,
                };
                if is_call {
                    EventBody::FunctionCall { call: read_call(item) }
                } else {
                    EventBody::Other
                }
            },
            None => EventBody::Other,
        }
    } else if kind.as_str().eq("response.output_text.done") {
        EventBody::TextDone
    } else if kind.as_str().eq("response.failed") {
        let message = match member(doc, "response") {
            Some(r) => or_text(text_at2(r, "error", "message"), "response.failed"),
            None => "response.failed".to_string(),
        };
        EventBody::Failed { message }
    } else if kind.as_str().eq("response.completed") {
        EventBody::Completed { usage: member2(doc, "response", "usage") }
    } else {
        EventBody::Other
    }
}

/// Decodes one payload of the upstream's event stream.
///
/// A payload that is no JSON gives nothing. Any JSON document gives an event:
/// its `response.id` where it has one, and what its `type` says; a document
/// with an unknown or missing `type` is an event of the kind `Other`.
pub fn decode_event(data: &str) -> (r: Option<UpstreamEvent>)
    ensures
        r.deep_view() == decoded(data@),
{
    match parse_document(data) {
        Some(doc) => {
            let response_id = text_at2(&doc, "response", "id");
            let body = read_body(&doc);
            Some(UpstreamEvent { response_id, body })
        },
        None => None,
    }
}

} // verus!
