//! From a client's request to the request that goes upstream.

use vstd::prelude::*;
use crate::error::{ErrorModel, GatewayError};
use crate::message::{ContentModel, Message, MessageModel, Role};
use crate::model::normalized_model;
use crate::request::{ChatOptions, ChatOptionsModel, LegacyOptions, LegacyOptionsModel};
use crate::state::{CodexState, TokensModel};
use crate::tools::{ToolSpec, ToolSpecModel};
use crate::translate::{input_items, instructions_of, system_instructions};
use crate::upstream::{
    is_session_id_for, missing_credentials, request_view, upstream_request, RequestModel,
    UpstreamRequest,
};

verus! {

/// The upstream request for a conversation, but for its session id: the
/// model name is normalised, the system messages are the instructions, and
/// all other messages are the input.
pub open spec fn conversation_request(
    tokens: TokensModel,
    requested_model: Seq<char>,
    messages: Seq<MessageModel>,
    options: ChatOptionsModel,
    sid: Seq<char>,
) -> RequestModel {
    upstream_request(
        tokens,
        normalized_model(Some(requested_model)),
        instructions_of(messages),
        input_items(messages),
        options.tools,
        options.tool_choice,
        options.parallel_tool_calls,
        options.reasoning,
        sid,
    )
}

/// The conversation that a legacy prompt stands for: one user message that
/// says the prompt.
pub open spec fn prompt_conversation(prompt: Seq<char>) -> Seq<MessageModel> {
    seq![MessageModel { role: Role::User, content: ContentModel::Text { text: prompt } }]
}

/// What a legacy request asks of the upstream beyond its prompt: no tools,
/// the automatic tool choice, no parallel tool calls, no reasoning.
pub open spec fn plain_options(options: LegacyOptionsModel) -> ChatOptionsModel {
    ChatOptionsModel {
        stream: options.stream,
        include_usage: options.include_usage,
        tools: Seq::empty(),
        tool_choice: None,
        parallel_tool_calls: false,
        reasoning: None,
    }
}

/// The outcome is the request `expected` under a session id that the
/// conversation asks for, or the failure for missing credentials.
pub open spec fn is_request_for(
    r: Result<UpstreamRequest, GatewayError>,
    tokens: TokensModel,
    requested_model: Seq<char>,
    messages: Seq<MessageModel>,
    options: ChatOptionsModel,
) -> bool {
    match missing_credentials(tokens) {
        Some(e) => request_view(r) == Err::<RequestModel, ErrorModel>(e),
        None => {
            &&& r is Ok
            &&& is_session_id_for(
                r->Ok_0.deep_view().body.prompt_cache_key,
                None,
                instructions_of(messages),
                input_items(messages),
            )
            &&& r->Ok_0.deep_view() == conversation_request(
                tokens,
                requested_model,
                messages,
                options,
                r->Ok_0.deep_view().body.prompt_cache_key,
            )
        },
    }
}

impl CodexState {
    /// The upstream request for a chat-completions request with the given
    /// model name, messages and options.
    ///
    /// It fails, as a bad request, where the credential record lacks the
    /// access token or the account id. Else the request names the normalised
    /// model, carries the system messages as instructions and the other
    /// messages as input, and has the session id of the conversation.
    pub fn chat_request(&self, requested_model: &str, messages: &[Message], options: ChatOptions) -> (r:
        Result<UpstreamRequest, GatewayError>)
        ensures
            is_request_for(
                r,
                self.tokens.deep_view(),
                requested_model@,
                messages.deep_view(),
                options.deep_view(),
            ),
    {
        let model = self.normalize_model_name(Some(requested_model));
        let instructions = system_instructions(messages);
        let input = self.convert_messages_to_responses_input(messages);
        self.start_upstream(
            model.as_str(),
            instructions,
            input,
            options.tools,
            options.tool_choice,
            options.parallel_tool_calls,
            options.reasoning,
            None,
        )
    }

    /// The upstream request for a legacy-completions request: that of the
    /// conversation in which the user says the prompt, without tools and
    /// without reasoning.
    pub fn completion_request(&self, options: &LegacyOptions) -> (r: Result<
        UpstreamRequest,
        GatewayError,
    >)
        ensures
            is_request_for(
                r,
                self.tokens.deep_view(),
                options.requested_model@,
                prompt_conversation(options.prompt@),
                plain_options(options.deep_view()),
            ),
    {
        let mut messages: Vec<Message> = Vec::new();
        messages.push(Message::new_text(Role::User, options.prompt.clone()));
        assert(messages.deep_view() =~= prompt_conversation(options.prompt@));
        let tools: Vec<ToolSpec> = Vec::new();
        assert(tools.deep_view() =~= Seq::<ToolSpecModel>::empty());
        let plain = ChatOptions {
            stream: options.stream,
            include_usage: options.include_usage,
            tools,
            tool_choice: None,
            parallel_tool_calls: false,
            reasoning: None,
        };
        self.chat_request(options.requested_model.as_str(), messages.as_slice(), plain)
    }
}

} // verus!
