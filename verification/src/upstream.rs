//! The request that goes to the upstream, and what its refusal means.

use vstd::prelude::*;
use vstd::string::StringExecFns;
use serde_json::Value;
use crate::error::{ErrorModel, GatewayError};
use crate::event::text_or;
use crate::json::{json_document, json_text_at2, parse_document, text_at2};
use crate::session::{ensure_session_id, session_digest, session_prefix};
use crate::state::{CodexState, TokensModel};
use crate::tools::{ToolSpec, ToolSpecModel};
use crate::translate::{InputItem, ItemModel};

verus! {

/// The JSON body of the upstream request.
#[derive(Clone, Debug, PartialEq)]
pub struct UpstreamPayload {
    pub model: String,
    pub instructions: Option<String>,
    pub input: Vec<InputItem>,
    pub tools: Vec<ToolSpec>,
    /// Absent, it stands for `"auto"`.
    pub tool_choice: Option<Value>,
    pub parallel_tool_calls: bool,
    /// Always false.
    pub store: bool,
    /// Always true: the upstream streams, whatever the client asked for.
    pub stream: bool,
    /// The session id.
    pub prompt_cache_key: String,
    /// Left out of the body where it is empty.
    pub inclusions: Vec<String>,
    /// Left out of the body where it is absent.
    pub reasoning: Option<Value>,
}

/// The mathematical model of an [`UpstreamPayload`].
pub struct PayloadModel {
    pub model: Seq<char>,
    pub instructions: Option<Seq<char>>,
    pub input: Seq<ItemModel>,
    pub tools: Seq<ToolSpecModel>,
    pub tool_choice: Option<Value>,
    pub parallel_tool_calls: bool,
    pub store: bool,
    pub stream: bool,
    pub prompt_cache_key: Seq<char>,
    pub inclusions: Seq<Seq<char>>,
    pub reasoning: Option<Value>,
}

impl DeepView for UpstreamPayload {
    type V = PayloadModel;

    open spec fn deep_view(&self) -> PayloadModel {
        PayloadModel {
            model: self.model@,
            instructions: self.instructions.deep_view(),
            input: self.input.deep_view(),
            tools: self.tools.deep_view(),
            tool_choice: self.tool_choice,
            parallel_tool_calls: self.parallel_tool_calls,
            store: self.store,
            stream: self.stream,
            prompt_cache_key: self.prompt_cache_key@,
            inclusions: self.inclusions.deep_view(),
            reasoning: self.reasoning,
        }
    }
}

/// A `POST` to the upstream: where it goes, its headers in order, its body.
#[derive(Clone, Debug, PartialEq)]
pub struct UpstreamRequest {
    pub url: String,
    pub headers: Vec<(String, String)>,
    pub body: UpstreamPayload,
}

/// The mathematical model of an [`UpstreamRequest`].
pub struct RequestModel {
    pub url: Seq<char>,
    pub headers: Seq<(Seq<char>, Seq<char>)>,
    pub body: PayloadModel,
}

impl DeepView for UpstreamRequest {
    type V = RequestModel;

    open spec fn deep_view(&self) -> RequestModel {
        RequestModel {
            url: self.url@,
            headers: self.headers.deep_view(),
            body: self.body.deep_view(),
        }
    }
}

/// The text is there and is not empty.
pub open spec fn is_present(o: Option<Seq<char>>) -> bool {
    o is Some && o->0.len() > 0
}

/// The failure for a credential record that cannot authenticate a request,
/// if it cannot: the access token is asked for first, then the account id.
pub open spec fn missing_credentials(t: TokensModel) -> Option<ErrorModel> {
    if !is_present(t.access_token) {
        Some(ErrorModel::BadRequest { msg: "Codex not authenticated. Use /api/codex/oauth/start"@ })
    } else if !is_present(t.account_id) {
        Some(ErrorModel::BadRequest { msg: "Codex missing account_id"@ })
    } else {
        None
    }
}

/// The headers of the upstream request, in order.
pub open spec fn upstream_headers(access_token: Seq<char>, account_id: Seq<char>, sid: Seq<char>) -> Seq<
    (Seq<char>, Seq<char>),
> {
    seq![
        ("accept"@, "text/event-stream"@),
        ("content-type"@, "application/json"@),
        ("Authorization"@, "Bearer "@ + access_token),
        ("chatgpt-account-id"@, account_id),
        ("OpenAI-Beta"@, "responses=experimental"@),
        ("session_id"@, sid),
    ]
}

/// What is asked to be included: the encrypted reasoning content where
/// reasoning is asked for, else nothing.
pub open spec fn included(reasoning: Option<Value>) -> Seq<Seq<char>> {
    if reasoning is Some {
        seq!["reasoning.encrypted_content"@]
    } else {
        Seq::empty()
    }
}

/// The upstream request for a conversation under the session id `sid`.
pub open spec fn upstream_request(
    tokens: TokensModel,
    model: Seq<char>,
    instructions: Option<Seq<char>>,
    input: Seq<ItemModel>,
    tools: Seq<ToolSpecModel>,
    tool_choice: Option<Value>,
    parallel_tool_calls: bool,
    reasoning: Option<Value>,
    sid: Seq<char>,
) -> RequestModel {
    RequestModel {
        url: "https://chatgpt.com/backend-api/codex/responses"@,
        headers: upstream_headers(tokens.access_token->0, tokens.account_id->0, sid),
        body: PayloadModel {
            model,
            instructions,
            input,
            tools,
            tool_choice,
            parallel_tool_calls,
            store: false,
            stream: true,
            prompt_cache_key: sid,
            inclusions: included(reasoning),
            reasoning,
        },
    }
}

/// The session id is the one that the conversation asks for: the caller's
/// where the caller gave one; else the digest of the prefix where there is a
/// prefix, and a fresh identifier of 36 characters where there is none.
pub open spec fn is_session_id_for(
    sid: Seq<char>,
    given: Option<Seq<char>>,
    instructions: Option<Seq<char>>,
    input: Seq<ItemModel>,
) -> bool {
    match given {
        Some(s) => sid == s,
        None => {
            let prefix = session_prefix(instructions, input);
            if prefix.len() > 0 {
                sid == session_digest(prefix)
            } else {
                sid.len() == 36
            }
        },
    }
}

/// The deep view of the outcome of building a request.
pub open spec fn request_view(r: Result<UpstreamRequest, GatewayError>) -> Result<
    RequestModel,
    ErrorModel,
> {
    match r {
        Ok(q) => Ok(q.deep_view()),
        Err(e) => Err(e.deep_view()),
    }
}

/// The message for an upstream that answered with a failure status: the
/// `error.message` of its body, or `Upstream error` where the body has none.
pub open spec fn upstream_failure_message(body: Seq<char>) -> Seq<char> {
    match json_document(body) {
        Some(doc) => text_or(json_text_at2(doc, "error"@, "message"@), "Upstream error"@),
        None => "Upstream error"@,
    }
}

/// Whether an HTTP status reports success: 200 to 299.
pub fn is_success(status: u16) -> (r: bool)
    ensures
        r == (200 <= status <= 299),
{
    200 <= status && status <= 299
}

/// The gateway failure for an upstream that answered with a failure status
/// and the given body.
pub fn upstream_failure(body: &str) -> (e: GatewayError)
    ensures
        e.deep_view() == (ErrorModel::BadGateway { msg: upstream_failure_message(body@) }),
{
    let found = match parse_document(body) {
        Some(doc) => text_at2(&doc, "error", "message"),
        None => None,
    };
    let msg = match found {
        Some(m) => m,
        None => "Upstream error".to_string(),
    };
    GatewayError::BadGateway { msg }
}

/// Whether the text is there and is not empty.
fn present(o: &Option<String>) -> (r: bool)
    ensures
        r == is_present(o.deep_view()),
{
    match o {
        Some(s) => !s.as_str().is_empty(),
        None => false,
    }
}

/// One header.
fn header(name: &str, value: String) -> (h: (String, String))
    ensures
        h.deep_view() == (name@, value@),
{
    (name.to_string(), value)
}

impl CodexState {
    /// The upstream request for a conversation under a given session id.
    ///
    /// It fails, as a bad request, where the credential record lacks the
    /// access token or the account id. Else the request always asks the
    /// upstream to stream and not to store, carries the session id both as a
    /// header and as prompt cache key, and asks for the encrypted reasoning
    /// content exactly where reasoning is asked for.
    pub fn build_request(
        &self,
        model: &str,
        instructions: Option<String>,
        input_items: Vec<InputItem>,
        tools: Vec<ToolSpec>,
        tool_choice: Option<Value>,
        parallel_tool_calls: bool,
        reasoning: Option<Value>,
        sid: String,
    ) -> (r: Result<UpstreamRequest, GatewayError>)
        ensures
            request_view(r) == (match missing_credentials(self.tokens.deep_view()) {
                Some(e) => Err(e),
                None => Ok(
                    upstream_request(
                        self.tokens.deep_view(),
                        model@,
                        instructions.deep_view(),
                        input_items.deep_view(),
                        tools.deep_view(),
                        tool_choice,
                        parallel_tool_calls,
                        reasoning,
                        sid@,
                    ),
                ),
            }),
    {
        if !present(&self.tokens.access_token) {
            return Err(
                GatewayError::BadRequest {
                    msg: "Codex not authenticated. Use /api/codex/oauth/start".to_string(),
                },
            );
        }
        if !present(&self.tokens.account_id) {
            return Err(GatewayError::BadRequest { msg: "Codex missing account_id".to_string() });
        }
        let access_token = match &self.tokens.access_token {
            Some(t) => t.clone(),
            None => String::new(),
        };
        let account_id = match &self.tokens.account_id {
            Some(t) => t.clone(),
            None => String::new(),
        };
        let mut inclusions: Vec<String> = Vec::new();
        if reasoning.is_some() {
            inclusions.push("reasoning.encrypted_content".to_string());
        }
        assert(inclusions.deep_view() =~= included(reasoning));
        let mut bearer = "Bearer ".to_string();
        bearer.append(access_token.as_str());
        let mut headers: Vec<(String, String)> = Vec::new();
        headers.push(header("accept", "text/event-stream".to_string()));
        headers.push(header("content-type", "application/json".to_string()));
        headers.push(header("Authorization", bearer));
        headers.push(header("chatgpt-account-id", account_id));
        headers.push(header("OpenAI-Beta", "responses=experimental".to_string()));
        headers.push(header("session_id", sid.clone()));
        assert(headers.deep_view() =~= upstream_headers(
            self.tokens.deep_view().access_token->0,
            self.tokens.deep_view().account_id->0,
            sid@,
        ));
        Ok(
            UpstreamRequest {
                url: "https://chatgpt.com/backend-api/codex/responses".to_string(),
                headers,
                body: UpstreamPayload {
                    model: model.to_string(),
                    instructions,
                    input: input_items,
                    tools,
                    tool_choice,
                    parallel_tool_calls,
                    store: false,
                    stream: true,
                    prompt_cache_key: sid,
                    inclusions,
                    reasoning,
                },
            },
        )
    }

    /// The upstream request for a conversation.
    ///
    /// The session id is the caller's where the caller gives one, and is
    /// derived from the instructions and the first user message otherwise.
    /// Everything else is as [`CodexState::build_request`] says.
    pub fn start_upstream(
        &self,
        model: &str,
        instructions: Option<String>,
        input_items: Vec<InputItem>,
        tools: Vec<ToolSpec>,
        tool_choice: Option<Value>,
        parallel_tool_calls: bool,
        reasoning: Option<Value>,
        session_id: Option<String>,
    ) -> (r: Result<UpstreamRequest, GatewayError>)
        ensures
            match missing_credentials(self.tokens.deep_view()) {
                Some(e) => request_view(r) == Err::<RequestModel, ErrorModel>(e),
                None => r is Ok && is_session_id_for(
                    r->Ok_0.deep_view().body.prompt_cache_key,
                    session_id.deep_view(),
                    instructions.deep_view(),
                    input_items.deep_view(),
                ) && r->Ok_0.deep_view() == upstream_request(
                    self.tokens.deep_view(),
                    model@,
                    instructions.deep_view(),
                    input_items.deep_view(),
                    tools.deep_view(),
                    tool_choice,
                    parallel_tool_calls,
                    reasoning,
                    r->Ok_0.deep_view().body.prompt_cache_key,
                ),
            },
    {
        let sid = match session_id {
            Some(s) => s,
            None => {
                let borrowed: Option<&str> = match &instructions {
                    Some(i) => Some(i.as_str()),
                    None => None,
                };
                ensure_session_id(borrowed, input_items.as_slice())
            },
        };
        self.build_request(
            model,
            instructions,
            input_items,
            tools,
            tool_choice,
            parallel_tool_calls,
            reasoning,
            sid,
        )
    }
}

} // verus!
