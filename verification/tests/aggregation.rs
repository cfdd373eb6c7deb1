use codex_gateway::aggregate::{aggregate, Aggregator, Completion, Progress};
use codex_gateway::error::GatewayError;
use codex_gateway::event::{EventBody, ToolCall, UpstreamEvent};
use codex_gateway::stream::Target;
use serde_json::Value;

fn json(text: &str) -> Value {
    serde_json::from_str(text).unwrap()
}

fn payloads(list: &[&str]) -> Vec<String> {
    list.iter().map(|s| s.to_string()).collect()
}

const DELTA_HE: &str = r#"{"type":"response.output_text.delta","delta":"He"}"#;
const DELTA_LLO: &str = r#"{"type":"response.output_text.delta","delta":"llo"}"#;
const TEXT_DONE: &str = r#"{"type":"response.output_text.done"}"#;
const COMPLETED: &str = r#"{"type":"response.completed","response":{"usage":{"total_tokens":5}}}"#;
const CALL: &str = r#"{"type":"response.output_item.done","item":{"type":"function_call","call_id":"c1","name":"f","arguments":"{}"}}"#;

#[test]
fn hello_stream_aggregates_to_one_response() {
    let r = aggregate(
        Target::Chat,
        &payloads(&[DELTA_HE, DELTA_LLO, TEXT_DONE, COMPLETED]),
        1700000000,
        "gpt-5".to_string(),
    );
    let c = r.unwrap();
    assert_eq!(c.text, "Hello");
    assert_eq!(c.usage.as_ref().and_then(|u| u.get("total_tokens")).and_then(|n| n.as_u64()), Some(5));
    assert_eq!(
        c,
        Completion {
            target: Target::Chat,
            id: "chatcmpl".to_string(),
            created: 1700000000,
            model: "gpt-5".to_string(),
            text: "Hello".to_string(),
            tool_calls: vec![],
            usage: Some(json(r#"{"total_tokens":5}"#)),
        }
    );
}

#[test]
fn legacy_aggregation_gathers_text_and_no_tool_calls() {
    let r = aggregate(
        Target::Legacy,
        &payloads(&[
            r#"{"type":"response.created","response":{"id":"resp_3"}}"#,
            DELTA_HE,
            CALL,
            DELTA_LLO,
            COMPLETED,
        ]),
        5,
        "m".to_string(),
    );
    assert_eq!(
        r,
        Ok(Completion {
            target: Target::Legacy,
            id: "resp_3".to_string(),
            created: 5,
            model: "m".to_string(),
            text: "Hello".to_string(),
            tool_calls: vec![],
            usage: Some(json(r#"{"total_tokens":5}"#)),
        })
    );
}

#[test]
fn chat_aggregation_collects_tool_calls_in_order() {
    let second = r#"{"type":"response.output_item.done","item":{"type":"function_call","id":"c2","name":"g","arguments":"[1]"}}"#;
    let r = aggregate(Target::Chat, &payloads(&[CALL, DELTA_HE, second]), 0, "m".to_string());
    let c = r.unwrap();
    assert_eq!(
        c.tool_calls,
        vec![
            ToolCall { id: "c1".to_string(), name: "f".to_string(), arguments: "{}".to_string() },
            ToolCall { id: "c2".to_string(), name: "g".to_string(), arguments: "[1]".to_string() },
        ]
    );
    assert_eq!(c.text, "He");
    assert_eq!(c.usage, None);
    assert_eq!(c.id, "chatcmpl");
}

#[test]
fn failure_discards_the_text_and_is_a_bad_gateway() {
    let r = aggregate(
        Target::Chat,
        &payloads(&[
            DELTA_HE,
            r#"{"type":"response.failed","response":{"error":{"message":"overloaded"}}}"#,
            DELTA_LLO,
            COMPLETED,
        ]),
        0,
        "m".to_string(),
    );
    assert_eq!(r, Err(GatewayError::BadGateway { msg: "overloaded".to_string() }));
    let bare = aggregate(
        Target::Legacy,
        &payloads(&[r#"{"type":"response.failed"}"#]),
        0,
        "m".to_string(),
    );
    assert_eq!(bare, Err(GatewayError::BadGateway { msg: "response.failed".to_string() }));
}

#[test]
fn malformed_payloads_are_skipped() {
    let r = aggregate(
        Target::Chat,
        &payloads(&["[DONE]", DELTA_HE, "{", "", DELTA_LLO]),
        0,
        "m".to_string(),
    );
    assert_eq!(r.unwrap().text, "Hello");
}

#[test]
fn nothing_is_taken_in_after_completion() {
    let mut a = Aggregator::new(Target::Chat);
    assert!(a.is_running());
    assert!(a.feed(DELTA_HE));
    assert!(a.feed("not json"));
    assert!(!a.feed(COMPLETED));
    assert!(!a.is_running());
    assert!(!a.feed(DELTA_LLO));
    assert!(!a.feed(r#"{"type":"response.failed"}"#));
    assert!(!a.feed(r#"{"type":"response.created","response":{"id":"late"}}"#));
    assert_eq!(a.progress, Progress::Completed);
    let c = a.finish(1, "m".to_string()).unwrap();
    assert_eq!(c.text, "He");
    assert_eq!(c.id, "chatcmpl");
}

#[test]
fn stream_that_ends_early_still_gives_a_response() {
    let r = aggregate(Target::Legacy, &payloads(&[DELTA_HE]), 9, "m".to_string());
    assert_eq!(
        r,
        Ok(Completion {
            target: Target::Legacy,
            id: "cmpl".to_string(),
            created: 9,
            model: "m".to_string(),
            text: "He".to_string(),
            tool_calls: vec![],
            usage: None,
        })
    );
    let empty = aggregate(Target::Chat, &[].to_vec(), 9, "m".to_string()).unwrap();
    assert_eq!(empty.text, "");
}

#[test]
fn absorb_takes_decoded_events() {
    let mut a = Aggregator::new(Target::Chat);
    let more = a.absorb(&UpstreamEvent {
        response_id: Some("r1".to_string()),
        body: EventBody::TextDelta { delta: "x".to_string() },
    });
    assert!(more);
    let more = a.absorb(&UpstreamEvent { response_id: None, body: EventBody::Other });
    assert!(more);
    let more = a.absorb(&UpstreamEvent {
        response_id: Some("r2".to_string()),
        body: EventBody::Failed { message: "bad".to_string() },
    });
    assert!(!more);
    assert_eq!(a.response_id, "r2");
    assert_eq!(a.progress, Progress::Failed { message: "bad".to_string() });
    assert_eq!(
        a.finish(0, String::new()),
        Err(GatewayError::BadGateway { msg: "bad".to_string() })
    );
}

#[test]
fn gateway_errors_have_status_and_message() {
    let e = GatewayError::BadGateway { msg: "x".to_string() };
    assert_eq!(e.status(), 502);
    assert_eq!(e.message(), "x");
    assert_eq!(GatewayError::BadRequest { msg: "y".to_string() }.status(), 400);
    assert_eq!(GatewayError::Transport { msg: "z".to_string() }.status(), 500);
    assert_eq!(GatewayError::Transport { msg: "z".to_string() }.message(), "z");
}
