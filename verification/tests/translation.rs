use codex_gateway::image::normalize_data_url;
use codex_gateway::message::{ContentBlock, Message, Role};
use codex_gateway::state::{CodexState, CodexTokens};
use codex_gateway::translate::{system_instructions, InputItem, InputPart};

fn state() -> CodexState {
    CodexState::new(CodexTokens::default())
}

fn text(s: &str) -> ContentBlock {
    ContentBlock::Text { text: s.to_string() }
}

#[test]
fn system_message_becomes_instructions_and_no_item() {
    let msgs = vec![Message::new_text(Role::System, "X".to_string())];
    assert_eq!(system_instructions(&msgs), Some("X".to_string()));
    assert_eq!(state().convert_messages_to_responses_input(&msgs), vec![]);
}

#[test]
fn user_text_becomes_one_message_item() {
    let msgs = vec![Message::new_text(Role::User, "hi".to_string())];
    assert_eq!(system_instructions(&msgs), None);
    assert_eq!(
        state().convert_messages_to_responses_input(&msgs),
        vec![InputItem::Message {
            role: Role::User,
            content: vec![InputPart::InputText { text: "hi".to_string() }],
        }]
    );
}

#[test]
fn assistant_with_only_empty_texts_gives_no_item() {
    let msgs = vec![
        Message::new_blocks(Role::Assistant, vec![text(""), text("")]),
        Message::new_text(Role::Assistant, String::new()),
    ];
    assert_eq!(state().convert_messages_to_responses_input(&msgs), vec![]);
}

#[test]
fn assistant_texts_become_output_texts() {
    let msgs = vec![
        Message::new_text(Role::Assistant, "a".to_string()),
        Message::new_blocks(
            Role::Assistant,
            vec![
                text("b"),
                text(""),
                ContentBlock::ToolResult { tool_use_id: "t".to_string(), content: "r".to_string() },
                ContentBlock::Unknown,
                text("c"),
            ],
        ),
    ];
    assert_eq!(
        state().convert_messages_to_responses_input(&msgs),
        vec![
            InputItem::Message {
                role: Role::Assistant,
                content: vec![InputPart::OutputText { text: "a".to_string() }],
            },
            InputItem::Message {
                role: Role::Assistant,
                content: vec![
                    InputPart::OutputText { text: "b".to_string() },
                    InputPart::OutputText { text: "c".to_string() },
                ],
            },
        ]
    );
}

#[test]
fn instructions_join_system_fragments_with_line_breaks() {
    let msgs = vec![
        Message::new_text(Role::System, "one".to_string()),
        Message::new_text(Role::User, "ignored".to_string()),
        Message::new_text(Role::System, String::new()),
        Message::new_blocks(
            Role::System,
            vec![
                text("two"),
                ContentBlock::ImageUrl { url: "http://x/y.png".to_string() },
                text(""),
                text("three"),
            ],
        ),
    ];
    assert_eq!(system_instructions(&msgs), Some("one\ntwo\nthree".to_string()));
    let none: Vec<Message> = vec![Message::new_text(Role::System, String::new())];
    assert_eq!(system_instructions(&none), None);
    assert_eq!(system_instructions(&[]), None);
}

#[test]
fn tool_results_stand_alone_in_block_order() {
    let msgs = vec![Message::new_blocks(
        Role::User,
        vec![
            text("before"),
            ContentBlock::ImageUrl { url: "https://example.com/a.png".to_string() },
            ContentBlock::ToolResult { tool_use_id: "call_1".to_string(), content: "42".to_string() },
            ContentBlock::ToolResult { tool_use_id: "call_2".to_string(), content: String::new() },
            text(""),
            ContentBlock::Unknown,
            text("after"),
        ],
    )];
    assert_eq!(
        state().convert_messages_to_responses_input(&msgs),
        vec![
            InputItem::Message {
                role: Role::User,
                content: vec![
                    InputPart::InputText { text: "before".to_string() },
                    InputPart::InputImage { image_url: "https://example.com/a.png".to_string() },
                ],
            },
            InputItem::FunctionCallOutput { call_id: "call_1".to_string(), output: "42".to_string() },
            InputItem::FunctionCallOutput { call_id: "call_2".to_string(), output: String::new() },
            InputItem::Message {
                role: Role::User,
                content: vec![InputPart::InputText { text: "after".to_string() }],
            },
        ]
    );
}

#[test]
fn tool_role_messages_are_user_items() {
    let msgs = vec![
        Message::new_text(Role::Tool, "result".to_string()),
        Message::new_blocks(
            Role::Tool,
            vec![ContentBlock::ToolResult { tool_use_id: "c".to_string(), content: "out".to_string() }],
        ),
        Message::new_text(Role::User, String::new()),
        Message::new_blocks(Role::User, vec![]),
    ];
    assert_eq!(
        state().convert_messages_to_responses_input(&msgs),
        vec![
            InputItem::Message {
                role: Role::User,
                content: vec![InputPart::InputText { text: "result".to_string() }],
            },
            InputItem::FunctionCallOutput { call_id: "c".to_string(), output: "out".to_string() },
        ]
    );
}

#[test]
fn images_in_messages_are_normalized() {
    let msgs = vec![Message::new_blocks(
        Role::User,
        vec![
            ContentBlock::ImageUrl { url: "data:image/png;base64,aGk_".to_string() },
            ContentBlock::ImageUrl { url: String::new() },
        ],
    )];
    assert_eq!(
        state().convert_messages_to_responses_input(&msgs),
        vec![InputItem::Message {
            role: Role::User,
            content: vec![InputPart::InputImage {
                image_url: "data:image/png;base64,aGk/".to_string()
            }],
        }]
    );
}

#[test]
fn url_safe_unpadded_payload_becomes_standard_padded() {
    // bytes fb ff be 3f: "-_--Pw" in the URL-safe alphabet, unpadded
    let out = normalize_data_url("data:image/png;base64,-_--Pw");
    assert_eq!(out, "data:image/png;base64,+/++Pw==");
    assert_eq!(normalize_data_url(&out), out);
}

#[test]
fn payload_is_trimmed_and_freed_of_line_breaks() {
    assert_eq!(
        normalize_data_url("data:image/jpeg;base64,  aGVs\nbG8g\r\nd29y\n  "),
        "data:image/jpeg;base64,aGVsbG8gd29y"
    );
    assert_eq!(normalize_data_url("data:image/png;base64,YQ"), "data:image/png;base64,YQ==");
    assert_eq!(normalize_data_url("data:image/png;base64,YWI"), "data:image/png;base64,YWI=");
    assert_eq!(normalize_data_url("data:image/png;base64,YQ="), "data:image/png;base64,YQ==");
    assert_eq!(normalize_data_url("data:image/png;base64,YWJj"), "data:image/png;base64,YWJj");
    assert_eq!(normalize_data_url("data:image/png;base64,"), "data:image/png;base64,");
    assert_eq!(normalize_data_url("data:image/png,YQ,YQ"), "data:image/png,YQ,YQ");
}

#[test]
fn other_urls_are_unchanged() {
    for url in [
        "https://example.com/a-b_c.png",
        "",
        "data:text/plain;base64,aGk_",
        "data:image/png;base64",
        "DATA:image/png;base64,aGk_",
        " data:image/png;base64,aGk_",
    ] {
        assert_eq!(normalize_data_url(url), url);
    }
}

#[test]
fn payload_that_is_no_base64_leaves_the_url_unchanged() {
    for url in [
        "data:image/png;base64,a b c",
        "data:image/png;base64,@@@@",
        "data:image/png;base64,\u{e9}\u{e9}",
        "data:image/png;base64,Y",
    ] {
        assert_eq!(normalize_data_url(url), url);
    }
}
