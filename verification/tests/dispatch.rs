use codex_gateway::chance::{seconds_to_timestamp, timestamp_for, timestamp_now, unix_time};
use codex_gateway::error::GatewayError;
use codex_gateway::message::{Message, Role};
use codex_gateway::request::{chat_options, legacy_options, ChatOptions, LegacyOptions};
use codex_gateway::session::digest_of_prefix;
use codex_gateway::state::{CodexState, CodexTokens};
use codex_gateway::tools::{convert_tools_chat_to_responses, ToolSpec};
use codex_gateway::translate::{InputItem, InputPart};
use codex_gateway::upstream::{is_success, upstream_failure, UpstreamPayload, UpstreamRequest};
use serde_json::Value;

fn json(text: &str) -> Value {
    serde_json::from_str(text).unwrap()
}

fn logged_in() -> CodexState {
    CodexState::new(CodexTokens {
        access_token: Some("tok".to_string()),
        account_id: Some("acct".to_string()),
        ..CodexTokens::default()
    })
}

fn hello() -> Vec<InputItem> {
    vec![InputItem::Message {
        role: Role::User,
        content: vec![InputPart::InputText { text: "hello".to_string() }],
    }]
}

fn headers(sid: &str) -> Vec<(String, String)> {
    [
        ("accept", "text/event-stream"),
        ("content-type", "application/json"),
        ("Authorization", "Bearer tok"),
        ("chatgpt-account-id", "acct"),
        ("OpenAI-Beta", "responses=experimental"),
        ("session_id", sid),
    ]
    .iter()
    .map(|(k, v)| (k.to_string(), v.to_string()))
    .collect()
}

#[test]
fn request_without_credentials_is_refused() {
    let none = CodexState::new(CodexTokens::default());
    let r = none.start_upstream("gpt-5", None, hello(), vec![], None, false, None, None);
    assert_eq!(
        r,
        Err(GatewayError::BadRequest {
            msg: "Codex not authenticated. Use /api/codex/oauth/start".to_string()
        })
    );
    let no_account = CodexState::new(CodexTokens {
        access_token: Some("tok".to_string()),
        ..CodexTokens::default()
    });
    let r = no_account.start_upstream("gpt-5", None, hello(), vec![], None, false, None, None);
    assert_eq!(r, Err(GatewayError::BadRequest { msg: "Codex missing account_id".to_string() }));
    let empty_token = CodexState::new(CodexTokens {
        access_token: Some(String::new()),
        account_id: Some("acct".to_string()),
        ..CodexTokens::default()
    });
    let r = empty_token.build_request("gpt-5", None, hello(), vec![], None, false, None, "s".to_string());
    assert_eq!(
        r,
        Err(GatewayError::BadRequest {
            msg: "Codex not authenticated. Use /api/codex/oauth/start".to_string()
        })
    );
    let empty_account = CodexState::new(CodexTokens {
        access_token: Some("tok".to_string()),
        account_id: Some(String::new()),
        ..CodexTokens::default()
    });
    let r = empty_account.build_request("gpt-5", None, hello(), vec![], None, false, None, "s".to_string());
    assert_eq!(r, Err(GatewayError::BadRequest { msg: "Codex missing account_id".to_string() }));
}

#[test]
fn request_streams_and_does_not_store() {
    let r = logged_in().start_upstream(
        "gpt-5",
        Some(" be brief ".to_string()),
        hello(),
        vec![],
        None,
        true,
        None,
        None,
    );
    let sid = digest_of_prefix("be briefhello");
    assert_eq!(
        r,
        Ok(UpstreamRequest {
            url: "https://chatgpt.com/backend-api/codex/responses".to_string(),
            headers: headers(&sid),
            body: UpstreamPayload {
                model: "gpt-5".to_string(),
                instructions: Some(" be brief ".to_string()),
                input: hello(),
                tools: vec![],
                tool_choice: None,
                parallel_tool_calls: true,
                store: false,
                stream: true,
                prompt_cache_key: sid.clone(),
                inclusions: vec![],
                reasoning: None,
            },
        })
    );
}

#[test]
fn reasoning_asks_for_encrypted_content() {
    let reasoning = json(r#"{"effort":"high"}"#);
    let tools = vec![ToolSpec { name: "f".to_string(), description: String::new(), parameters: None }];
    let r = logged_in()
        .start_upstream(
            "codex-mini-latest",
            None,
            vec![],
            tools.clone(),
            Some(json("\"required\"")),
            false,
            Some(reasoning.clone()),
            Some("given-session".to_string()),
        )
        .unwrap();
    assert_eq!(r.headers, headers("given-session"));
    assert_eq!(r.body.prompt_cache_key, "given-session");
    assert_eq!(r.body.inclusions, vec!["reasoning.encrypted_content".to_string()]);
    assert_eq!(r.body.reasoning, Some(reasoning));
    assert_eq!(r.body.tools, tools);
    assert_eq!(r.body.tool_choice, Some(json("\"required\"")));
    assert!(r.body.stream);
    assert!(!r.body.store);
}

#[test]
fn request_without_prefix_gets_a_fresh_session() {
    let a = logged_in().start_upstream("m", None, vec![], vec![], None, false, None, None).unwrap();
    let b = logged_in().start_upstream("m", None, vec![], vec![], None, false, None, None).unwrap();
    assert_eq!(a.body.prompt_cache_key.len(), 36);
    assert_ne!(a.body.prompt_cache_key, b.body.prompt_cache_key);
    assert_eq!(a.headers[5], ("session_id".to_string(), a.body.prompt_cache_key.clone()));
}

#[test]
fn upstream_failure_carries_the_upstream_message() {
    assert_eq!(
        upstream_failure(r#"{"error":{"message":"rate limited","code":429}}"#),
        GatewayError::BadGateway { msg: "rate limited".to_string() }
    );
    for body in ["", "<html>", "{}", r#"{"error":"text"}"#, r#"{"error":{"message":5}}"#, "[]"] {
        assert_eq!(
            upstream_failure(body),
            GatewayError::BadGateway { msg: "Upstream error".to_string() }
        );
    }
}

#[test]
fn success_is_two_hundred_to_two_ninety_nine() {
    assert!(is_success(200));
    assert!(is_success(204));
    assert!(is_success(299));
    assert!(!is_success(199));
    assert!(!is_success(300));
    assert!(!is_success(0));
    assert!(!is_success(u16::MAX));
}

#[test]
fn tools_are_converted_in_order() {
    let tools = json(
        r#"[
            {"type":"function","function":{"name":"a","description":"first","parameters":{"type":"object","properties":{"x":{"type":"string"}}}}},
            {"type":"web_search"},
            {"type":"function","function":{"description":"nameless"}},
            {"type":"function","function":"text"},
            {"type":"function"},
            {"function":{"name":"untyped"}},
            "text",
            {"type":"function","function":{"name":"b","description":7}}
        ]"#,
    );
    assert_eq!(
        convert_tools_chat_to_responses(&tools),
        vec![
            ToolSpec {
                name: "a".to_string(),
                description: "first".to_string(),
                parameters: Some(json(r#"{"type":"object","properties":{"x":{"type":"string"}}}"#)),
            },
            ToolSpec { name: "b".to_string(), description: String::new(), parameters: None },
        ]
    );
    assert_eq!(convert_tools_chat_to_responses(&Value::Null), vec![]);
    assert_eq!(convert_tools_chat_to_responses(&json("{}")), vec![]);
    assert_eq!(convert_tools_chat_to_responses(&json("[]")), vec![]);
}

#[test]
fn chat_options_are_read_from_the_body() {
    let raw = json(
        r#"{
            "model":"gpt-5",
            "stream":true,
            "stream_options":{"include_usage":true},
            "tools":[{"type":"function","function":{"name":"a"}}],
            "tool_choice":{"type":"function","function":{"name":"a"}},
            "parallel_tool_calls":true,
            "reasoning":{"effort":"low"}
        }"#,
    );
    assert_eq!(
        chat_options(&raw),
        ChatOptions {
            stream: true,
            include_usage: true,
            tools: vec![ToolSpec { name: "a".to_string(), description: String::new(), parameters: None }],
            tool_choice: Some(json(r#"{"type":"function","function":{"name":"a"}}"#)),
            parallel_tool_calls: true,
            reasoning: Some(json(r#"{"effort":"low"}"#)),
        }
    );
    let defaults = ChatOptions {
        stream: false,
        include_usage: false,
        tools: vec![],
        tool_choice: None,
        parallel_tool_calls: false,
        reasoning: None,
    };
    assert_eq!(chat_options(&json("{}")), defaults);
    assert_eq!(chat_options(&json("[]")), defaults);
    assert_eq!(
        chat_options(&json(r#"{"stream":"yes","stream_options":{"include_usage":1},"tools":{},"parallel_tool_calls":null}"#)),
        defaults
    );
}

#[test]
fn legacy_options_are_read_from_the_body() {
    assert_eq!(
        legacy_options(&json(
            r#"{"model":"codex-high","prompt":"say hi","stream":true,"stream_options":{"include_usage":true},"suffix":"unused"}"#
        )),
        LegacyOptions {
            prompt: "say hi".to_string(),
            stream: true,
            include_usage: true,
            requested_model: "codex-high".to_string(),
        }
    );
    assert_eq!(
        legacy_options(&json(r#"{"prompt":["a",1,"b",null,["c"],"d"]}"#)),
        LegacyOptions {
            prompt: "abd".to_string(),
            stream: false,
            include_usage: false,
            requested_model: "gpt-5".to_string(),
        }
    );
    assert_eq!(legacy_options(&json(r#"{"prompt":"","suffix":"tail"}"#)).prompt, "tail");
    assert_eq!(legacy_options(&json(r#"{"prompt":[],"suffix":"tail"}"#)).prompt, "tail");
    assert_eq!(legacy_options(&json(r#"{"prompt":5,"suffix":"tail"}"#)).prompt, "tail");
    assert_eq!(legacy_options(&json(r#"{"suffix":"tail"}"#)).prompt, "tail");
    assert_eq!(legacy_options(&json(r#"{"suffix":5}"#)).prompt, "");
    assert_eq!(legacy_options(&json(r#"{"model":5}"#)).requested_model, "gpt-5");
}

#[test]
fn clock_gives_seconds_since_the_epoch() {
    let t = unix_time();
    // after 2020-01-01 and before 2200-01-01
    assert!(t > 1_577_836_800);
    assert!(t < 7_258_118_400);
    assert_eq!(seconds_to_timestamp(None), 0);
    assert_eq!(seconds_to_timestamp(Some(0)), 0);
    assert_eq!(seconds_to_timestamp(Some(1_700_000_000)), 1_700_000_000);
    assert_eq!(seconds_to_timestamp(Some(i64::MAX as u64)), i64::MAX);
    assert_eq!(seconds_to_timestamp(Some(i64::MAX as u64 + 1)), i64::MIN);
    assert_eq!(seconds_to_timestamp(Some(u64::MAX)), -1);
}

#[test]
fn timestamps_are_rfc_3339_in_utc() {
    assert_eq!(timestamp_for(Some((0, 0))), "1970-01-01T00:00:00+00:00");
    assert_eq!(timestamp_for(Some((1_735_787_045, 0))), "2025-01-02T03:04:05+00:00");
    assert_eq!(timestamp_for(Some((1_735_787_045, 120_000_000))), "2025-01-02T03:04:05.120+00:00");
    assert_eq!(
        timestamp_for(Some((1_735_787_045, 123_456_789))),
        "2025-01-02T03:04:05.123456789+00:00"
    );
    assert_eq!(timestamp_for(None), "1970-01-01T00:00:00+00:00");
    assert_eq!(timestamp_for(Some((u64::MAX, 0))), "1970-01-01T00:00:00+00:00");
    assert_eq!(timestamp_for(Some((i64::MAX as u64, 0))), "1970-01-01T00:00:00+00:00");
    assert_eq!(timestamp_for(Some((5, 2_000_000_000))), "1970-01-01T00:00:00+00:00");
    let now = timestamp_now();
    assert!(now.ends_with("+00:00"));
    assert!(now.as_str() > "2020-01-01T00:00:00+00:00");
    assert_eq!(&now[10..11], "T");
}

#[test]
fn chat_request_normalizes_the_model_and_splits_the_messages() {
    let messages = vec![
        Message::new_text(Role::System, "be brief".to_string()),
        Message::new_text(Role::User, "hello".to_string()),
    ];
    let options = chat_options(&json(
        r#"{"tools":[{"type":"function","function":{"name":"a"}}],"parallel_tool_calls":true,"reasoning":{"effort":"low"}}"#,
    ));
    let r = logged_in().chat_request("gpt5-high:beta", &messages, options).unwrap();
    let sid = digest_of_prefix("be briefhello");
    assert_eq!(
        r,
        UpstreamRequest {
            url: "https://chatgpt.com/backend-api/codex/responses".to_string(),
            headers: headers(&sid),
            body: UpstreamPayload {
                model: "gpt-5".to_string(),
                instructions: Some("be brief".to_string()),
                input: hello(),
                tools: vec![ToolSpec {
                    name: "a".to_string(),
                    description: String::new(),
                    parameters: None
                }],
                tool_choice: None,
                parallel_tool_calls: true,
                store: false,
                stream: true,
                prompt_cache_key: sid.clone(),
                inclusions: vec!["reasoning.encrypted_content".to_string()],
                reasoning: Some(json(r#"{"effort":"low"}"#)),
            },
        }
    );
    let refused = CodexState::new(CodexTokens::default()).chat_request(
        "gpt-5",
        &messages,
        chat_options(&json("{}")),
    );
    assert_eq!(refused.unwrap_err().status(), 400);
}

#[test]
fn completion_request_is_one_user_message_without_tools() {
    let options = legacy_options(&json(r#"{"model":"codex_low","prompt":["hel","lo"]}"#));
    let r = logged_in().completion_request(&options).unwrap();
    let sid = digest_of_prefix("hello");
    assert_eq!(
        r,
        UpstreamRequest {
            url: "https://chatgpt.com/backend-api/codex/responses".to_string(),
            headers: headers(&sid),
            body: UpstreamPayload {
                model: "codex-mini-latest".to_string(),
                instructions: None,
                input: hello(),
                tools: vec![],
                tool_choice: None,
                parallel_tool_calls: false,
                store: false,
                stream: true,
                prompt_cache_key: sid.clone(),
                inclusions: vec![],
                reasoning: None,
            },
        }
    );
    let empty = logged_in().completion_request(&legacy_options(&json("{}"))).unwrap();
    assert_eq!(empty.body.input, vec![]);
    assert_eq!(empty.body.model, "gpt-5");
    assert_eq!(empty.body.prompt_cache_key.len(), 36);
}
