use codex_gateway::event::{decode_event, EventBody, ToolCall, UpstreamEvent};
use codex_gateway::stream::{Chunk, Delta, Outbound, StreamTranslator, Target};
use serde_json::Value;

fn json(text: &str) -> Value {
    serde_json::from_str(text).unwrap()
}

fn chunk(target: Target, id: &str, delta: Delta, stop: bool, usage: Option<Value>) -> Outbound {
    Outbound::Chunk {
        chunk: Chunk {
            target,
            id: id.to_string(),
            created: 1700000000,
            model: "gpt-5-high".to_string(),
            delta,
            stop,
            usage,
        },
    }
}

fn content(s: &str) -> Delta {
    Delta::Content { text: s.to_string() }
}

fn translator(target: Target, include_usage: bool) -> StreamTranslator {
    StreamTranslator::new(target, 1700000000, "gpt-5-high".to_string(), include_usage)
}

const DELTA_HE: &str = r#"{"type":"response.output_text.delta","delta":"He"}"#;
const DELTA_LLO: &str = r#"{"type":"response.output_text.delta","delta":"llo"}"#;
const TEXT_DONE: &str = r#"{"type":"response.output_text.done"}"#;
const COMPLETED: &str = r#"{"type":"response.completed","response":{"usage":{"total_tokens":5}}}"#;

#[test]
fn hello_stream_with_usage_gives_two_deltas_a_stop_and_a_usage_chunk() {
    let mut t = translator(Target::Chat, true);
    let payloads: Vec<String> =
        [DELTA_HE, DELTA_LLO, TEXT_DONE, COMPLETED].iter().map(|s| s.to_string()).collect();
    let out = t.translate_all(&payloads);
    assert_eq!(
        out,
        vec![
            chunk(Target::Chat, "chatcmpl-stream", content("He"), false, None),
            chunk(Target::Chat, "chatcmpl-stream", content("llo"), false, None),
            chunk(Target::Chat, "chatcmpl-stream", Delta::Empty, true, None),
            chunk(
                Target::Chat,
                "chatcmpl-stream",
                Delta::Empty,
                false,
                Some(json(r#"{"total_tokens":5}"#))
            ),
        ]
    );
    assert!(t.done);
}

#[test]
fn legacy_stream_has_the_same_sequence() {
    let mut t = translator(Target::Legacy, true);
    let payloads: Vec<String> =
        [DELTA_HE, DELTA_LLO, TEXT_DONE, COMPLETED].iter().map(|s| s.to_string()).collect();
    let out = t.translate_all(&payloads);
    assert_eq!(
        out,
        vec![
            chunk(Target::Legacy, "cmpl-stream", content("He"), false, None),
            chunk(Target::Legacy, "cmpl-stream", content("llo"), false, None),
            chunk(Target::Legacy, "cmpl-stream", Delta::Empty, true, None),
            chunk(
                Target::Legacy,
                "cmpl-stream",
                Delta::Empty,
                false,
                Some(json(r#"{"total_tokens":5}"#))
            ),
        ]
    );
}

#[test]
fn completion_without_usage_request_goes_out_unchanged() {
    let mut t = translator(Target::Chat, false);
    assert_eq!(t.translate(COMPLETED), Outbound::Verbatim { data: COMPLETED.to_string() });
    assert!(t.done);
    let mut u = translator(Target::Chat, true);
    let bare = r#"{"type":"response.completed","response":{"id":"r1"}}"#;
    assert_eq!(u.translate(bare), Outbound::Verbatim { data: bare.to_string() });
    assert!(u.done);
    assert_eq!(u.response_id, "r1");
}

#[test]
fn payload_that_is_no_json_goes_out_unchanged() {
    let mut t = translator(Target::Chat, true);
    for data in ["[DONE]", "", "{not json", "{\"type\":"] {
        assert_eq!(t.translate(data), Outbound::Verbatim { data: data.to_string() });
    }
    assert!(!t.done);
    assert_eq!(t.response_id, "chatcmpl-stream");
}

#[test]
fn unknown_events_go_out_unchanged() {
    let mut t = translator(Target::Chat, true);
    for data in [
        r#"{"type":"response.created","response":{"id":"resp_1"}}"#,
        r#"{"no_type":true}"#,
        r#"{"type":42}"#,
        r#"[1,2,3]"#,
        r#""response.output_text.done""#,
        r#"{"type":"response.output_item.done","item":{"type":"message"}}"#,
        r#"{"type":"response.output_item.done"}"#,
        r#"{"type":"Response.Output_Text.Done"}"#,
    ] {
        assert_eq!(t.translate(data), Outbound::Verbatim { data: data.to_string() });
    }
    assert_eq!(t.response_id, "resp_1");
}

#[test]
fn chunks_carry_the_response_id_seen_last() {
    let mut t = translator(Target::Chat, false);
    assert_eq!(
        t.translate(DELTA_HE),
        chunk(Target::Chat, "chatcmpl-stream", content("He"), false, None)
    );
    t.translate(r#"{"type":"response.created","response":{"id":"resp_1"}}"#);
    assert_eq!(t.translate(DELTA_LLO), chunk(Target::Chat, "resp_1", content("llo"), false, None));
    assert_eq!(
        t.translate(r#"{"type":"response.output_text.delta","delta":"!","response":{"id":"resp_2"}}"#),
        chunk(Target::Chat, "resp_2", content("!"), false, None)
    );
    assert_eq!(
        t.translate(r#"{"type":"response.output_text.done","response":{"id":7}}"#),
        chunk(Target::Chat, "resp_2", Delta::Empty, true, None)
    );
}

#[test]
fn delta_without_text_is_an_empty_content() {
    let mut t = translator(Target::Chat, false);
    assert_eq!(
        t.translate(r#"{"type":"response.output_text.delta"}"#),
        chunk(Target::Chat, "chatcmpl-stream", content(""), false, None)
    );
    assert_eq!(
        t.translate(r#"{"type":"response.output_text.delta","delta":5}"#),
        chunk(Target::Chat, "chatcmpl-stream", content(""), false, None)
    );
}

#[test]
fn function_call_is_a_tool_call_chunk_for_chat_only() {
    let data = r#"{"type":"response.output_item.done","item":{"type":"function_call","call_id":"call_9","id":"fc_1","name":"lookup","arguments":"{\"q\":1}"}}"#;
    let mut t = translator(Target::Chat, false);
    assert_eq!(
        t.translate(data),
        chunk(
            Target::Chat,
            "chatcmpl-stream",
            Delta::ToolCall {
                call: ToolCall {
                    id: "call_9".to_string(),
                    name: "lookup".to_string(),
                    arguments: "{\"q\":1}".to_string(),
                },
            },
            false,
            None
        )
    );
    let mut l = translator(Target::Legacy, false);
    assert_eq!(l.translate(data), Outbound::Verbatim { data: data.to_string() });
}

#[test]
fn function_call_id_falls_back_to_the_item_id() {
    let decoded = decode_event(
        r#"{"type":"response.output_item.done","item":{"type":"function_call","id":"fc_1"}}"#,
    );
    assert_eq!(
        decoded,
        Some(UpstreamEvent {
            response_id: None,
            body: EventBody::FunctionCall {
                call: ToolCall { id: "fc_1".to_string(), name: String::new(), arguments: String::new() },
            },
        })
    );
    let null_call_id = decode_event(
        r#"{"type":"response.output_item.done","item":{"type":"function_call","call_id":null,"id":"fc_1"}}"#,
    );
    assert_eq!(
        null_call_id,
        Some(UpstreamEvent {
            response_id: None,
            body: EventBody::FunctionCall {
                call: ToolCall { id: String::new(), name: String::new(), arguments: String::new() },
            },
        })
    );
}

#[test]
fn failure_is_an_error_object_on_both_targets() {
    let with_message = r#"{"type":"response.failed","response":{"id":"r","error":{"message":"quota"}}}"#;
    let bare = r#"{"type":"response.failed"}"#;
    for target in [Target::Chat, Target::Legacy] {
        let mut t = translator(target, true);
        assert_eq!(t.translate(with_message), Outbound::Failure { message: "quota".to_string() });
        assert_eq!(t.translate(bare), Outbound::Failure { message: "response.failed".to_string() });
        assert!(!t.done);
    }
}

#[test]
fn decoding_reads_every_kind() {
    assert_eq!(decode_event("nope"), None);
    assert_eq!(
        decode_event(r#"{"type":"response.output_text.delta","delta":"x","response":{"id":"a"}}"#),
        Some(UpstreamEvent {
            response_id: Some("a".to_string()),
            body: EventBody::TextDelta { delta: "x".to_string() },
        })
    );
    assert_eq!(
        decode_event(TEXT_DONE),
        Some(UpstreamEvent { response_id: None, body: EventBody::TextDone })
    );
    assert_eq!(
        decode_event(COMPLETED),
        Some(UpstreamEvent {
            response_id: None,
            body: EventBody::Completed { usage: Some(json(r#"{"total_tokens":5}"#)) },
        })
    );
    assert_eq!(
        decode_event(r#"{"type":"response.completed"}"#),
        Some(UpstreamEvent { response_id: None, body: EventBody::Completed { usage: None } })
    );
    assert_eq!(
        decode_event(r#"{"type":"response.failed","response":{"error":{"message":7}}}"#),
        Some(UpstreamEvent {
            response_id: None,
            body: EventBody::Failed { message: "response.failed".to_string() },
        })
    );
    assert_eq!(
        decode_event(r#"{"type":"something.else"}"#),
        Some(UpstreamEvent { response_id: None, body: EventBody::Other })
    );
}

#[test]
fn translate_event_takes_a_decoded_event() {
    let mut t = translator(Target::Chat, true);
    let ev = UpstreamEvent {
        response_id: Some("r7".to_string()),
        body: EventBody::Completed { usage: Some(json("{\"n\":1}")) },
    };
    assert_eq!(
        t.translate_event(&ev, "raw"),
        chunk(Target::Chat, "r7", Delta::Empty, false, Some(json("{\"n\":1}")))
    );
    assert!(t.done);
    let other = UpstreamEvent { response_id: None, body: EventBody::Other };
    assert_eq!(t.translate_event(&other, "raw"), Outbound::Verbatim { data: "raw".to_string() });
    assert_eq!(t.response_id, "r7");
}
