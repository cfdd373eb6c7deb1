//! Tool declarations: from the chat-completions shape to the upstream's.

use vstd::prelude::*;
use serde_json::Value;
use crate::event::{or_text, text_or};
use crate::json::{
    as_elements, duplicate, json_elements, json_member, json_text_at, member, text_at,
};

verus! {

/// One function that the model may call, as the upstream wants it declared:
/// `{type: "function", name, description, strict: false, parameters}`.
#[derive(Clone, Debug, PartialEq)]
pub struct ToolSpec {
    pub name: String,
    pub description: String,
    /// The parameter schema. Absent, it stands for the schema of an object
    /// without properties, `{"type": "object", "properties": {}}`.
    pub parameters: Option<Value>,
}

/// The mathematical model of a [`ToolSpec`].
pub struct ToolSpecModel {
    pub name: Seq<char>,
    pub description: Seq<char>,
    pub parameters: Option<Value>,
}

impl DeepView for ToolSpec {
    type V = ToolSpecModel;

    open spec fn deep_view(&self) -> ToolSpecModel {
        ToolSpecModel {
            name: self.name@,
            description: self.description@,
            parameters: self.parameters,
        }
    }
}

/// The declaration that one element of `tools` gives: only an element of type
/// `function` whose `function` member has a name gives one.
pub open spec fn tool_of(t: Value) -> Option<ToolSpecModel> {
    if json_text_at(t, "type"@) != Some("function"@) {
        None
    } else {
        match json_member(t, "function"@) {
            Some(f) => match json_text_at(f, "name"@) {
                Some(name) => Some(
                    ToolSpecModel {
                        name,
                        description: text_or(json_text_at(f, "description"@), Seq::empty()),
                        parameters: json_member(f, "parameters"@),
                    },
                ),
                None => None,
            },
            None => None,
        }
    }
}

/// The declarations that the elements give, in order.
pub open spec fn tools_among(elements: Seq<Value>) -> Seq<ToolSpecModel>
    decreases elements.len(),
{
    if elements.len() == 0 {
        Seq::empty()
    } else {
        let rest = tools_among(elements.drop_last());
        match tool_of(elements.last()) {
            Some(t) => rest.push(t),
            None => rest,
        }
    }
}

/// The declarations that a `tools` value gives: none unless it is an array.
pub open spec fn tools_of(tools: Value) -> Seq<ToolSpecModel> {
    match json_elements(tools) {
        Some(elements) => tools_among(elements),
        None => Seq::empty(),
    }
}

/// The deep view of an optional declaration.
pub open spec fn tool_view(t: Option<ToolSpec>) -> Option<ToolSpecModel> {
    match t {
        Some(t) => Some(t.deep_view()),
        None => None,
    }
}

/// The declaration that one element of `tools` gives.
fn convert_tool(t: &Value) -> (r: Option<ToolSpec>)
    ensures
        tool_view(r) == tool_of(*t),
{
    let is_function = match text_at(t, "type") {
        Some(kind) => kind.as_str().eq("function"),
        None => false,
    };
    if !is_function {
        return None;
    }
    match member(t, "function") {
        Some(f) => match text_at(f, "name") {
            Some(name) => {
                proof {
                    reveal_strlit("");
                    assert(""@ =~= Seq::<char>::empty());
                }
                let description = or_text(text_at(f, "description"), "");
                let parameters = match member(f, "parameters") {
                    Some(p) => Some(duplicate(p)),
                    None => None,
                };
                Some(ToolSpec { name, description, parameters })
            },
            None => None,
        },
        None => None,
    }
}

/// The upstream's tool declarations for the `tools` of a chat-completions
/// request, in order. Elements that declare no function are left out; a value
/// that is no array gives none.
pub fn convert_tools_chat_to_responses(tools: &Value) -> (out: Vec<ToolSpec>)
    ensures
        out.deep_view() == tools_of(*tools),
{
    let mut out: Vec<ToolSpec> = Vec::new();
    match as_elements(tools) {
        Some(elements) => {
            let mut i: usize = 0;
            while i < elements.len()
                invariant
                    i <= elements.len(),
                    out.deep_view() == tools_among(elements@.take(i as int)),
                decreases elements.len() - i,
            {
                proof {
                    let next = elements@.take(i + 1);
                    assert(next.drop_last() =~= elements@.take(i as int));
                }
                match convert_tool(&elements[i]) {
                    Some(t) => {
                        out.push(t);
                    },
                    None => {},
                }
                i += 1;
            }
            proof {
                assert(elements@.take(elements.len() as int) =~= elements@);
            }
            out
        },
        None => out,
    }
}

} // verus!
