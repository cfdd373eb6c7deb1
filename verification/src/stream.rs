//! Re-encoding the upstream's event stream, event by event, into the chunks
//! that a streaming client expects.

use vstd::prelude::*;
use serde_json::Value;
use crate::event::{
    decode_event, decoded, BodyModel, EventBody, EventModel, ToolCall, ToolCallModel, UpstreamEvent,
};
use crate::json::duplicate;

verus! {

/// The shape that a client expects.
#[derive(Clone, Copy, Debug, PartialEq, Eq, Structural)]
pub enum Target {
    /// Chat completions: `chat.completion` and `chat.completion.chunk`.
    Chat,
    /// Legacy completions: `text_completion` and `text_completion.chunk`.
    Legacy,
}

/// What a chunk adds.
#[derive(Clone, Debug, PartialEq)]
pub enum Delta {
    /// A fragment of text: `delta.content` for chat, `text` for legacy.
    Content { text: String },
    /// One tool call, at index 0 of `delta.tool_calls`.
    ToolCall { call: ToolCall },
    /// Nothing: `delta: {}` for chat, `text: ""` for legacy.
    Empty,
}

/// The mathematical model of a [`Delta`].
pub enum DeltaModel {
    Content { text: Seq<char> },
    ToolCall { call: ToolCallModel },
    Empty,
}

impl DeepView for Delta {
    type V = DeltaModel;

    open spec fn deep_view(&self) -> DeltaModel {
        match *self {
            Delta::Content { text } => DeltaModel::Content { text: text@ },
            Delta::ToolCall { call } => DeltaModel::ToolCall { call: call.deep_view() },
            Delta::Empty => DeltaModel::Empty,
        }
    }
}

/// One streamed chunk, with a single choice at index 0.
#[derive(Clone, Debug, PartialEq)]
pub struct Chunk {
    pub target: Target,
    pub id: String,
    pub created: i64,
    pub model: String,
    pub delta: Delta,
    /// Whether `finish_reason` is `"stop"`; it is null otherwise.
    pub stop: bool,
    pub usage: Option<Value>,
}

/// The mathematical model of a [`Chunk`].
pub struct ChunkModel {
    pub target: Target,
    pub id: Seq<char>,
    pub created: i64,
    pub model: Seq<char>,
    pub delta: DeltaModel,
    pub stop: bool,
    pub usage: Option<Value>,
}

impl DeepView for Chunk {
    type V = ChunkModel;

    open spec fn deep_view(&self) -> ChunkModel {
        ChunkModel {
            target: self.target,
            id: self.id@,
            created: self.created,
            model: self.model@,
            delta: self.delta.deep_view(),
            stop: self.stop,
            usage: self.usage,
        }
    }
}

/// What goes out to the client for one upstream event.
#[derive(Clone, Debug, PartialEq)]
pub enum Outbound {
    /// A chunk in the client's shape.
    Chunk { chunk: Chunk },
    /// The error object `{error: {message}}`.
    Failure { message: String },
    /// The upstream's payload, unchanged.
    Verbatim { data: String },
}

/// The mathematical model of an [`Outbound`].
pub enum OutboundModel {
    Chunk { chunk: ChunkModel },
    Failure { message: Seq<char> },
    Verbatim { data: Seq<char> },
}

impl DeepView for Outbound {
    type V = OutboundModel;

    open spec fn deep_view(&self) -> OutboundModel {
        match *self {
            Outbound::Chunk { chunk } => OutboundModel::Chunk { chunk: chunk.deep_view() },
            Outbound::Failure { message } => OutboundModel::Failure { message: message@ },
            Outbound::Verbatim { data } => OutboundModel::Verbatim { data: data@ },
        }
    }
}

/// The translator of one stream: what is fixed for the stream, and what it
/// has seen so far.
#[derive(Clone, Debug, PartialEq)]
pub struct StreamTranslator {
    pub target: Target,
    /// The creation time of every chunk.
    pub created: i64,
    /// The model name of every chunk.
    pub model: String,
    /// Whether the client asked for a usage chunk.
    pub include_usage: bool,
    /// The response id seen last, or the placeholder.
    pub response_id: String,
    /// Whether `response.completed` has been seen.
    pub done: bool,
}

/// The mathematical model of a [`StreamTranslator`].
pub struct TranslatorModel {
    pub target: Target,
    pub created: i64,
    pub model: Seq<char>,
    pub include_usage: bool,
    pub response_id: Seq<char>,
    pub done: bool,
}

impl DeepView for StreamTranslator {
    type V = TranslatorModel;

    open spec fn deep_view(&self) -> TranslatorModel {
        TranslatorModel {
            target: self.target,
            created: self.created,
            model: self.model@,
            include_usage: self.include_usage,
            response_id: self.response_id@,
            done: self.done,
        }
    }
}

/// The id that chunks carry until the upstream names one.
pub open spec fn placeholder_id(target: Target) -> Seq<char> {
    match target {
        Target::Chat => "chatcmpl-stream"@,
        Target::Legacy => "cmpl-stream"@,
    }
}

/// The translator after an event: it remembers the event's response id, if
/// the event has one, and that the response completed.
pub open spec fn after_event(t: TranslatorModel, ev: EventModel) -> TranslatorModel {
    TranslatorModel {
        response_id: match ev.response_id {
            Some(id) => id,
            None => t.response_id,
        },
        done: t.done || ev.body is Completed,
        ..t
    }
}

/// A chunk of the stream that `t` translates, with the id that `t` holds.
pub open spec fn chunk_of(
    t: TranslatorModel,
    delta: DeltaModel,
    stop: bool,
    usage: Option<Value>,
) -> OutboundModel {
    OutboundModel::Chunk {
        chunk: ChunkModel {
            target: t.target,
            id: t.response_id,
            created: t.created,
            model: t.model,
            delta,
            stop,
            usage,
        },
    }
}

/// What goes out for an event with the payload `data`, from the translator
/// `t` that has already taken the event in.
///
/// A text delta is a content chunk. A function call is a tool-call chunk for
/// chat, and goes out unchanged for legacy. The end of the text is an empty
/// chunk that stops. A failure is an error object. Completion is a usage
/// chunk where the client asked for one and the upstream gave the usage, and
/// goes out unchanged otherwise. Every other event goes out unchanged.
pub open spec fn outbound_of(t: TranslatorModel, ev: EventModel, data: Seq<char>) -> OutboundModel {
    match ev.body {
        BodyModel::TextDelta { delta } => chunk_of(
            t,
            DeltaModel::Content { text: delta },
            false,
            None,
        ),
        BodyModel::FunctionCall { call } => if t.target == Target::Chat {
            chunk_of(t, DeltaModel::ToolCall { call }, false, None)
        } else {
            OutboundModel::Verbatim { data }
        },
        BodyModel::TextDone => chunk_of(t, DeltaModel::Empty, true, None),
        BodyModel::Failed { message } => OutboundModel::Failure { message },
        BodyModel::Completed { usage } => if t.include_usage && usage is Some {
            chunk_of(t, DeltaModel::Empty, false, usage)
        } else {
            OutboundModel::Verbatim { data }
        },
        BodyModel::Other => OutboundModel::Verbatim { data },
    }
}

/// The translator after a payload: unchanged where the payload is no JSON.
pub open spec fn after_payload(t: TranslatorModel, data: Seq<char>) -> TranslatorModel {
    match decoded(data) {
        Some(ev) => after_event(t, ev),
        None => t,
    }
}

/// What goes out for a payload: the payload itself where it is no JSON.
pub open spec fn outbound_of_payload(t: TranslatorModel, data: Seq<char>) -> OutboundModel {
    match decoded(data) {
        Some(ev) => outbound_of(after_event(t, ev), ev, data),
        None => OutboundModel::Verbatim { data },
    }
}

/// The translator after a run of payloads.
pub open spec fn after_payloads(t: TranslatorModel, payloads: Seq<Seq<char>>) -> TranslatorModel
    decreases payloads.len(),
{
    if payloads.len() == 0 {
        t
    } else {
        after_payload(after_payloads(t, payloads.drop_last()), payloads.last())
    }
}

/// What goes out for a run of payloads: one outbound event for each, in order.
pub open spec fn outbound_of_payloads(t: TranslatorModel, payloads: Seq<Seq<char>>) -> Seq<
    OutboundModel,
>
    decreases payloads.len(),
{
    if payloads.len() == 0 {
        Seq::empty()
    } else {
        outbound_of_payloads(t, payloads.drop_last()).push(
            outbound_of_payload(after_payloads(t, payloads.drop_last()), payloads.last()),
        )
    }
}

/// The stream keeps the order of the events and looks at no later event:
/// what goes out for the first `n` payloads of a run is what goes out for
/// those payloads alone, and there is one outbound event for each payload.
pub proof fn lemma_stream_keeps_order(t: TranslatorModel, payloads: Seq<Seq<char>>, n: int)
    requires
        0 <= n <= payloads.len(),
    ensures
        outbound_of_payloads(t, payloads).len() == payloads.len(),
        outbound_of_payloads(t, payloads).take(n) == outbound_of_payloads(t, payloads.take(n)),
        n < payloads.len() ==> outbound_of_payloads(t, payloads)[n] == outbound_of_payload(
            after_payloads(t, payloads.take(n)),
            payloads[n],
        ),
    decreases payloads.len(),
{
    if payloads.len() == 0 {
    } else {
        let front = payloads.drop_last();
        if n == payloads.len() {
            lemma_stream_keeps_order(t, front, n - 1);
            assert(payloads.take(n) =~= payloads);
        } else {
            lemma_stream_keeps_order(t, front, n);
            assert(front.take(n) =~= payloads.take(n));
            assert(outbound_of_payloads(t, payloads).take(n) =~= outbound_of_payloads(t, front).take(
                n,
            ));
        }
    }
}

/// The translator is done exactly once a completion has been seen, and stays
/// done.
pub proof fn lemma_done_stays_done(t: TranslatorModel, data: Seq<char>)
    ensures
        t.done ==> after_payload(t, data).done,
        after_payload(t, data).done <==> t.done || (decoded(data) matches Some(ev)
            && ev.body is Completed),
        after_payload(t, data).target == t.target,
        after_payload(t, data).created == t.created,
        after_payload(t, data).model == t.model,
        after_payload(t, data).include_usage == t.include_usage,
{
}

impl StreamTranslator {
    /// The translator at the start of a stream.
    pub fn new(target: Target, created: i64, model: String, include_usage: bool) -> (t:
        StreamTranslator)
        ensures
            t.deep_view() == (TranslatorModel {
                target,
                created,
                model: model@,
                include_usage,
                response_id: placeholder_id(target),
                done: false,
            }),
    {
        let response_id = match target {
            Target::Chat => "chatcmpl-stream".to_string(),
            Target::Legacy => "cmpl-stream".to_string(),
        };
        StreamTranslator { target, created, model, include_usage, response_id, done: false }
    }

    /// A chunk of this stream.
    fn chunk(&self, delta: Delta, stop: bool, usage: Option<Value>) -> (out: Outbound)
        ensures
            out.deep_view() == chunk_of(self.deep_view(), delta.deep_view(), stop, usage),
    {
        Outbound::Chunk {
            chunk: Chunk {
                target: self.target,
                id: self.response_id.clone(),
                created: self.created,
                model: self.model.clone(),
                delta,
                stop,
                usage,
            },
        }
    }

    /// Takes in one decoded event, whose payload was `data`, and gives what
    /// goes out for it.
    pub fn translate_event(&mut self, ev: &UpstreamEvent, data: &str) -> (out: Outbound)
        ensures
            final(self).deep_view() == after_event(old(self).deep_view(), ev.deep_view()),
            out.deep_view() == outbound_of(final(self).deep_view(), ev.deep_view(), data@),
    {
        match &ev.response_id {
            Some(id) => {
                self.response_id = id.clone();
            },
            None => {},
        }
        match &ev.body {
            EventBody::TextDelta { delta } => self.chunk(
                Delta::Content { text: delta.clone() },
                false,
                None,
            ),
            EventBody::FunctionCall { call } => {
                if self.target == Target::Chat {
                    self.chunk(Delta::ToolCall { call: call.duplicate() }, false, None)
                } else {
                    Outbound::Verbatim { data: data.to_string() }
                }
            },
            EventBody::TextDone => self.chunk(Delta::Empty, true, None),
            EventBody::Failed { message } => Outbound::Failure { message: message.clone() },
            EventBody::Completed { usage } => {
                self.done = true;
                match usage {
                    Some(u) => {
                        if self.include_usage {
                            self.chunk(Delta::Empty, false, Some(duplicate(u)))
                        } else {
                            Outbound::Verbatim { data: data.to_string() }
                        }
                    },
                    None => Outbound::Verbatim { data: data.to_string() },
                }
            },
            EventBody::Other => Outbound::Verbatim { data: data.to_string() },
        }
    }

    /// Takes in one payload of the upstream's event stream and gives what goes
    /// out for it. A payload that is no JSON goes out unchanged and leaves the
    /// translator as it was.
    pub fn translate(&mut self, data: &str) -> (out: Outbound)
        ensures
            final(self).deep_view() == after_payload(old(self).deep_view(), data@),
            out.deep_view() == outbound_of_payload(old(self).deep_view(), data@),
    {
        match decode_event(data) {
            Some(ev) => self.translate_event(&ev, data),
            None => Outbound::Verbatim { data: data.to_string() },
        }
    }

    /// Translates a run of payloads in order: one outbound event for each.
    pub fn translate_all(&mut self, payloads: &Vec<String>) -> (out: Vec<Outbound>)
        ensures
            final(self).deep_view() == after_payloads(old(self).deep_view(), payloads.deep_view()),
            out.deep_view() == outbound_of_payloads(old(self).deep_view(), payloads.deep_view()),
            out.len() == payloads.len(),
    {
        let ghost start = self.deep_view();
        let mut out: Vec<Outbound> = Vec::new();
        let mut i: usize = 0;
        while i < payloads.len()
            invariant
                i <= payloads.len(),
                out.len() == i,
                self.deep_view() == after_payloads(start, payloads.deep_view().take(i as int)),
                out.deep_view() == outbound_of_payloads(start, payloads.deep_view().take(i as int)),
            decreases payloads.len() - i,
        {
            proof {
                let next = payloads.deep_view().take(i + 1);
                assert(next.drop_last() =~= payloads.deep_view().take(i as int));
            }
            let o = self.translate(payloads[i].as_str());
            out.push(o);
            i += 1;
        }
        proof {
            assert(payloads.deep_view().take(payloads.len() as int) =~= payloads.deep_view());
        }
        out
    }
}

} // verus!
