//! What a client's request body asks for, beyond its messages.

use vstd::prelude::*;
use vstd::string::StringExecFns;
use serde_json::Value;
use crate::event::{or_text, text_or};
use crate::json::{
    as_elements, as_text, duplicate, flag_at, json_elements, json_flag_at, json_member, json_text,
    json_text_at, member, text_at,
};
use crate::tools::{convert_tools_chat_to_responses, tools_of, ToolSpec, ToolSpecModel};

verus! {

/// The options of a chat-completions request.
#[derive(Clone, Debug, PartialEq)]
pub struct ChatOptions {
    /// `stream`, false where absent.
    pub stream: bool,
    /// `stream_options.include_usage`, false where absent.
    pub include_usage: bool,
    /// The tools, as the upstream wants them declared.
    pub tools: Vec<ToolSpec>,
    /// `tool_choice`. Absent, it stands for `"auto"`.
    pub tool_choice: Option<Value>,
    /// `parallel_tool_calls`, false where absent.
    pub parallel_tool_calls: bool,
    /// `reasoning`, where the client sent one.
    pub reasoning: Option<Value>,
}

/// The mathematical model of [`ChatOptions`].
pub struct ChatOptionsModel {
    pub stream: bool,
    pub include_usage: bool,
    pub tools: Seq<ToolSpecModel>,
    pub tool_choice: Option<Value>,
    pub parallel_tool_calls: bool,
    pub reasoning: Option<Value>,
}

impl DeepView for ChatOptions {
    type V = ChatOptionsModel;

    open spec fn deep_view(&self) -> ChatOptionsModel {
        ChatOptionsModel {
            stream: self.stream,
            include_usage: self.include_usage,
            tools: self.tools.deep_view(),
            tool_choice: self.tool_choice,
            parallel_tool_calls: self.parallel_tool_calls,
            reasoning: self.reasoning,
        }
    }
}

/// The options of a legacy-completions request.
#[derive(Clone, Debug, PartialEq)]
pub struct LegacyOptions {
    /// The prompt: see [`prompt_of`].
    pub prompt: String,
    /// `stream`, false where absent.
    pub stream: bool,
    /// `stream_options.include_usage`, false where absent.
    pub include_usage: bool,
    /// `model` as the client wrote it, `gpt-5` where absent.
    pub requested_model: String,
}

/// The mathematical model of [`LegacyOptions`].
pub struct LegacyOptionsModel {
    pub prompt: Seq<char>,
    pub stream: bool,
    pub include_usage: bool,
    pub requested_model: Seq<char>,
}

impl DeepView for LegacyOptions {
    type V = LegacyOptionsModel;

    open spec fn deep_view(&self) -> LegacyOptionsModel {
        LegacyOptionsModel {
            prompt: self.prompt@,
            stream: self.stream,
            include_usage: self.include_usage,
            requested_model: self.requested_model@,
        }
    }
}

/// The flag, or false where there is none.
pub open spec fn flag_or_false(o: Option<bool>) -> bool {
    match o {
        Some(b) => b,
        None => false,
    }
}

/// Whether the body asks for a usage chunk: `stream_options.include_usage`.
pub open spec fn include_usage_of(raw: Value) -> bool {
    match json_member(raw, "stream_options"@) {
        Some(o) => flag_or_false(json_flag_at(o, "include_usage"@)),
        None => false,
    }
}

/// The options that a chat-completions body asks for.
pub open spec fn chat_options_of(raw: Value) -> ChatOptionsModel {
    ChatOptionsModel {
        stream: flag_or_false(json_flag_at(raw, "stream"@)),
        include_usage: include_usage_of(raw),
        tools: match json_member(raw, "tools"@) {
            Some(t) => tools_of(t),
            None => Seq::empty(),
        },
        tool_choice: json_member(raw, "tool_choice"@),
        parallel_tool_calls: flag_or_false(json_flag_at(raw, "parallel_tool_calls"@)),
        reasoning: json_member(raw, "reasoning"@),
    }
}

/// The texts among the elements, concatenated.
pub open spec fn texts_among(elements: Seq<Value>) -> Seq<char>
    decreases elements.len(),
{
    if elements.len() == 0 {
        Seq::empty()
    } else {
        let rest = texts_among(elements.drop_last());
        match json_text(elements.last()) {
            Some(t) => rest + t,
            None => rest,
        }
    }
}

/// What `prompt` itself gives: a string as it is, an array the concatenation
/// of its strings, anything else nothing.
pub open spec fn prompt_text(p: Value) -> Seq<char> {
    match json_text(p) {
        Some(t) => t,
        None => match json_elements(p) {
            Some(elements) => texts_among(elements),
            None => Seq::empty(),
        },
    }
}

/// The prompt of a legacy body: what `prompt` gives, and where that is empty,
/// the text of `suffix`.
pub open spec fn prompt_of(raw: Value) -> Seq<char> {
    let p = match json_member(raw, "prompt"@) {
        Some(p) => prompt_text(p),
        None => Seq::empty(),
    };
    if p.len() == 0 {
        text_or(json_text_at(raw, "suffix"@), Seq::empty())
    } else {
        p
    }
}

/// The options that a legacy-completions body asks for.
pub open spec fn legacy_options_of(raw: Value) -> LegacyOptionsModel {
    LegacyOptionsModel {
        prompt: prompt_of(raw),
        stream: flag_or_false(json_flag_at(raw, "stream"@)),
        include_usage: include_usage_of(raw),
        requested_model: text_or(json_text_at(raw, "model"@), "gpt-5"@),
    }
}

/// The flag under `key`, or false.
fn flag_or(raw: &Value, key: &str) -> (b: bool)
    ensures
        b == flag_or_false(json_flag_at(*raw, key@)),
{
    match flag_at(raw, key) {
        Some(b) => b,
        None => false,
    }
}

/// Whether the body asks for a usage chunk.
fn read_include_usage(raw: &Value) -> (b: bool)
    ensures
        b == include_usage_of(*raw),
{
    match member(raw, "stream_options") {
        Some(o) => flag_or(o, "include_usage"),
        None => false,
    }
}

/// A copy of the member under `key`.
fn copy_member(raw: &Value, key: &str) -> (r: Option<Value>)
    ensures
        r == json_member(*raw, key@),
{
    match member(raw, key) {
        Some(v) => Some(duplicate(v)),
        None => None,
    }
}

/// Reads the options of a chat-completions request from its body.
pub fn chat_options(raw: &Value) -> (o: ChatOptions)
    ensures
        o.deep_view() == chat_options_of(*raw),
{
    let tools = match member(raw, "tools") {
        Some(t) => convert_tools_chat_to_responses(t),
        None => {
            let none: Vec<ToolSpec> = Vec::new();
            assert(none.deep_view() =~= Seq::<ToolSpecModel>::empty());
            none
        },
    };
    ChatOptions {
        stream: flag_or(raw, "stream"),
        include_usage: read_include_usage(raw),
        tools,
        tool_choice: copy_member(raw, "tool_choice"),
        parallel_tool_calls: flag_or(raw, "parallel_tool_calls"),
        reasoning: copy_member(raw, "reasoning"),
    }
}

/// What `prompt` itself gives.
fn read_prompt(p: &Value) -> (r: String)
    ensures
        r@ == prompt_text(*p),
{
    match as_text(p) {
        Some(t) => t.to_string(),
        None => match as_elements(p) {
            Some(elements) => {
                let mut r = String::new();
                let mut i: usize = 0;
                while i < elements.len()
                    invariant
                        i <= elements.len(),
                        r@ == texts_among(elements@.take(i as int)),
                    decreases elements.len() - i,
                {
                    proof {
                        let next = elements@.take(i + 1);
                        assert(next.drop_last() =~= elements@.take(i as int));
                    }
                    match as_text(&elements[i]) {
                        Some(t) => {
                            r.append(t);
                        },
                        None => {},
                    }
                    i += 1;
                }
                proof {
                    assert(elements@.take(elements.len() as int) =~= elements@);
                }
                r
            },
            None => String::new(),
        },
    }
}

/// Reads the options of a legacy-completions request from its body.
pub fn legacy_options(raw: &Value) -> (o: LegacyOptions)
    ensures
        o.deep_view() == legacy_options_of(*raw),
{
    proof {
        reveal_strlit("");
        assert(""@ =~= Seq::<char>::empty());
    }
    let first = match member(raw, "prompt") {
        Some(p) => read_prompt(p),
        None => String::new(),
    };
    let prompt = if first.as_str().is_empty() {
        or_text(text_at(raw, "suffix"), "")
    } else {
        first
    };
    LegacyOptions {
        prompt,
        stream: flag_or(raw, "stream"),
        include_usage: read_include_usage(raw),
        requested_model: or_text(text_at(raw, "model"), "gpt-5"),
    }
}

} // verus!
