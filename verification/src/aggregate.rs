//! Collapsing the upstream's event stream into one response, for clients
//! that do not stream.

use vstd::prelude::*;
use vstd::string::StringExecFns;
use serde_json::Value;
use crate::error::{ErrorModel, GatewayError};
use crate::event::{
    decode_event, decoded, BodyModel, EventBody, EventModel, ToolCall, ToolCallModel, UpstreamEvent,
};
use crate::json::duplicate;
use crate::stream::Target;

verus! {

/// How far the aggregation has come.
#[derive(Clone, Debug, PartialEq)]
pub enum Progress {
    /// Events are still taken in.
    Running,
    /// `response.completed` was seen; later events are ignored.
    Completed,
    /// `response.failed` was seen; later events are ignored.
    Failed { message: String },
}

/// The mathematical model of [`Progress`].
pub enum ProgressModel {
    Running,
    Completed,
    Failed { message: Seq<char> },
}

impl DeepView for Progress {
    type V = ProgressModel;

    open spec fn deep_view(&self) -> ProgressModel {
        match *self {
            Progress::Running => ProgressModel::Running,
            Progress::Completed => ProgressModel::Completed,
            Progress::Failed { message } => ProgressModel::Failed { message: message@ },
        }
    }
}

/// What has been gathered from a stream.
#[derive(Clone, Debug, PartialEq)]
pub struct Aggregator {
    pub target: Target,
    /// The text fragments so far, concatenated.
    pub text: String,
    /// The response id seen last, or the placeholder.
    pub response_id: String,
    /// The usage of the completed response.
    pub usage: Option<Value>,
    /// The function calls so far, in order. Legacy gathers none.
    pub tool_calls: Vec<ToolCall>,
    pub progress: Progress,
}

/// The mathematical model of an [`Aggregator`].
pub struct AggregatorModel {
    pub target: Target,
    pub text: Seq<char>,
    pub response_id: Seq<char>,
    pub usage: Option<Value>,
    pub tool_calls: Seq<ToolCallModel>,
    pub progress: ProgressModel,
}

impl DeepView for Aggregator {
    type V = AggregatorModel;

    open spec fn deep_view(&self) -> AggregatorModel {
        AggregatorModel {
            target: self.target,
            text: self.text@,
            response_id: self.response_id@,
            usage: self.usage,
            tool_calls: self.tool_calls.deep_view(),
            progress: self.progress.deep_view(),
        }
    }
}

/// The one response that a client gets. Its single choice has index 0 and the
/// finish reason `"stop"`.
#[derive(Clone, Debug, PartialEq)]
pub struct Completion {
    pub target: Target,
    pub id: String,
    pub created: i64,
    pub model: String,
    /// `message.content` for chat, `text` for legacy.
    pub text: String,
    /// `message.tool_calls`, left out of the response where it is empty.
    pub tool_calls: Vec<ToolCall>,
    /// Merged into the top level of the response where present.
    pub usage: Option<Value>,
}

/// The mathematical model of a [`Completion`].
pub struct CompletionModel {
    pub target: Target,
    pub id: Seq<char>,
    pub created: i64,
    pub model: Seq<char>,
    pub text: Seq<char>,
    pub tool_calls: Seq<ToolCallModel>,
    pub usage: Option<Value>,
}

impl DeepView for Completion {
    type V = CompletionModel;

    open spec fn deep_view(&self) -> CompletionModel {
        CompletionModel {
            target: self.target,
            id: self.id@,
            created: self.created,
            model: self.model@,
            text: self.text@,
            tool_calls: self.tool_calls.deep_view(),
            usage: self.usage,
        }
    }
}

/// The id that a response carries where the upstream names none.
pub open spec fn default_id(target: Target) -> Seq<char> {
    match target {
        Target::Chat => "chatcmpl"@,
        Target::Legacy => "cmpl"@,
    }
}

/// The aggregation before any event.
pub open spec fn initial(target: Target) -> AggregatorModel {
    AggregatorModel {
        target,
        text: Seq::empty(),
        response_id: default_id(target),
        usage: None,
        tool_calls: Seq::empty(),
        progress: ProgressModel::Running,
    }
}

/// The aggregation after one more event.
///
/// Once completed or failed it stays as it is. While running it remembers the
/// event's response id, if there is one; a text delta extends the text; a
/// function call joins the tool calls of a chat response; completion records
/// the usage; failure records the message.
pub open spec fn absorbed(a: AggregatorModel, ev: EventModel) -> AggregatorModel {
    if !(a.progress is Running) {
        a
    } else {
        let b = AggregatorModel {
            response_id: match ev.response_id {
                Some(id) => id,
                None => a.response_id,
            },
            ..a
        };
        match ev.body {
            BodyModel::TextDelta { delta } => AggregatorModel { text: b.text + delta, ..b },
            BodyModel::FunctionCall { call } => if b.target == Target::Chat {
                AggregatorModel { tool_calls: b.tool_calls.push(call), ..b }
            } else {
                b
            },
            BodyModel::Completed { usage } => AggregatorModel {
                usage,
                progress: ProgressModel::Completed,
                ..b
            },
            BodyModel::Failed { message } => AggregatorModel {
                progress: ProgressModel::Failed { message },
                ..b
            },
            _ => b,
        }
    }
}

/// The aggregation after one more payload; a payload that is no JSON is
/// skipped.
pub open spec fn fed(a: AggregatorModel, data: Seq<char>) -> AggregatorModel {
    match decoded(data) {
        Some(ev) => absorbed(a, ev),
        None => a,
    }
}

/// The aggregation after a run of payloads.
pub open spec fn fed_all(a: AggregatorModel, payloads: Seq<Seq<char>>) -> AggregatorModel
    decreases payloads.len(),
{
    if payloads.len() == 0 {
        a
    } else {
        fed(fed_all(a, payloads.drop_last()), payloads.last())
    }
}

/// What the client gets at the end of the stream: a gateway failure with the
/// upstream's message where the response failed, and else the response with
/// all that was gathered.
pub open spec fn outcome(a: AggregatorModel, created: i64, model: Seq<char>) -> Result<
    CompletionModel,
    ErrorModel,
> {
    match a.progress {
        ProgressModel::Failed { message } => Err(ErrorModel::BadGateway { msg: message }),
        _ => Ok(
            CompletionModel {
                target: a.target,
                id: a.response_id,
                created,
                model,
                text: a.text,
                tool_calls: a.tool_calls,
                usage: a.usage,
            },
        ),
    }
}

/// The deep view of an outcome.
pub open spec fn outcome_view(r: Result<Completion, GatewayError>) -> Result<
    CompletionModel,
    ErrorModel,
> {
    match r {
        Ok(c) => Ok(c.deep_view()),
        Err(e) => Err(e.deep_view()),
    }
}

/// Completion and failure are final: an aggregation that no longer runs
/// takes nothing in, whatever comes.
pub proof fn lemma_nothing_after_the_end(a: AggregatorModel, payloads: Seq<Seq<char>>)
    requires
        !(a.progress is Running),
    ensures
        fed_all(a, payloads) == a,
    decreases payloads.len(),
{
    if payloads.len() > 0 {
        lemma_nothing_after_the_end(a, payloads.drop_last());
    }
}

/// A failed response gives the failure alone: the outcome is a bad gateway
/// with the upstream's message, whatever text was gathered before.
pub proof fn lemma_failure_discards_the_text(a: AggregatorModel, created: i64, model: Seq<char>)
    requires
        a.progress is Failed,
    ensures
        outcome(a, created, model) == Err::<CompletionModel, ErrorModel>(
            ErrorModel::BadGateway { msg: a.progress->message },
        ),
{
}

/// While it runs, the aggregation gathers the text deltas in order: after a
/// text delta the text is the text before, followed by the delta.
pub proof fn lemma_deltas_accumulate(a: AggregatorModel, ev: EventModel)
    requires
        a.progress is Running,
        ev.body is TextDelta,
    ensures
        absorbed(a, ev).text == a.text + ev.body->delta,
        absorbed(a, ev).progress is Running,
        absorbed(a, ev).tool_calls == a.tool_calls,
        absorbed(a, ev).usage == a.usage,
{
}

impl Aggregator {
    /// The aggregation before any event.
    pub fn new(target: Target) -> (a: Aggregator)
        ensures
            a.deep_view() == initial(target),
    {
        let response_id = match target {
            Target::Chat => "chatcmpl".to_string(),
            Target::Legacy => "cmpl".to_string(),
        };
        let a = Aggregator {
            target,
            text: String::new(),
            response_id,
            usage: None,
            tool_calls: Vec::new(),
            progress: Progress::Running,
        };
        assert(a.tool_calls.deep_view() =~= Seq::<ToolCallModel>::empty());
        a
    }

    /// Whether more events are wanted: not after completion or failure.
    pub fn is_running(&self) -> (r: bool)
        ensures
            r == (self.deep_view().progress is Running),
    {
        match self.progress {
            Progress::Running => true,
            _ => false,
        }
    }

    /// Takes in one decoded event. The result says whether more events are
    /// wanted.
    pub fn absorb(&mut self, ev: &UpstreamEvent) -> (more: bool)
        ensures
            final(self).deep_view() == absorbed(old(self).deep_view(), ev.deep_view()),
            more == (final(self).deep_view().progress is Running),
    {
        if !self.is_running() {
            return false;
        }
        match &ev.response_id {
            Some(id) => {
                self.response_id = id.clone();
            },
            None => {},
        }
        match &ev.body {
            EventBody::TextDelta { delta } => {
                self.text.append(delta.as_str());
                true
            },
            EventBody::FunctionCall { call } => {
                if self.target == Target::Chat {
                    let ghost before = self.tool_calls.deep_view();
                    self.tool_calls.push(call.duplicate());
                    assert(self.tool_calls.deep_view() =~= before.push(call.deep_view()));
                }
                true
            },
            EventBody::Completed { usage } => {
                self.usage = match usage {
                    Some(u) => Some(duplicate(u)),
                    None => None,
                };
                self.progress = Progress::Completed;
                false
            },
            EventBody::Failed { message } => {
                self.progress = Progress::Failed { message: message.clone() };
                false
            },
            _ => true,
        }
    }

    /// Takes in one payload of the upstream's event stream; a payload that is
    /// no JSON is skipped. The result says whether more events are wanted.
    pub fn feed(&mut self, data: &str) -> (more: bool)
        ensures
            final(self).deep_view() == fed(old(self).deep_view(), data@),
            more == (final(self).deep_view().progress is Running),
    {
        match decode_event(data) {
            Some(ev) => self.absorb(&ev),
            None => self.is_running(),
        }
    }

    /// The response for the client, once the stream has ended or no more
    /// events are wanted.
    pub fn finish(self, created: i64, model: String) -> (r: Result<Completion, GatewayError>)
        ensures
            outcome_view(r) == outcome(self.deep_view(), created, model@),
    {
        match self.progress {
            Progress::Failed { message } => Err(GatewayError::BadGateway { msg: message }),
            _ => Ok(
                Completion {
                    target: self.target,
                    id: self.response_id,
                    created,
                    model,
                    text: self.text,
                    tool_calls: self.tool_calls,
                    usage: self.usage,
                },
            ),
        }
    }
}

/// Aggregates a whole run of payloads into the client's response.
pub fn aggregate(target: Target, payloads: &Vec<String>, created: i64, model: String) -> (r: Result<
    Completion,
    GatewayError,
>)
    ensures
        outcome_view(r) == outcome(fed_all(initial(target), payloads.deep_view()), created, model@),
{
    let mut a = Aggregator::new(target);
    let mut i: usize = 0;
    while i < payloads.len()
        invariant
            i <= payloads.len(),
            a.deep_view() == fed_all(initial(target), payloads.deep_view().take(i as int)),
        decreases payloads.len() - i,
    {
        proof {
            let next = payloads.deep_view().take(i + 1);
            assert(next.drop_last() =~= payloads.deep_view().take(i as int));
        }
        a.feed(payloads[i].as_str());
        i += 1;
    }
    proof {
        assert(payloads.deep_view().take(payloads.len() as int) =~= payloads.deep_view());
    }
    a.finish(created, model)
}

} // verus!
