use codex_gateway::message::Role;
use codex_gateway::session::{
    canonicalize_first_user_message, conversation_prefix, digest_of_prefix, ensure_session_id,
};
use codex_gateway::translate::{InputItem, InputPart};

fn user(parts: Vec<InputPart>) -> InputItem {
    InputItem::Message { role: Role::User, content: parts }
}

fn input_text(s: &str) -> InputPart {
    InputPart::InputText { text: s.to_string() }
}

#[test]
fn digest_is_lower_case_sha256_hex() {
    assert_eq!(
        digest_of_prefix("abc"),
        "ba7816bf8f01cfea414140de5dae2223b00361a396177a9cb410ff61f20015ad"
    );
    assert_eq!(
        digest_of_prefix(""),
        "e3b0c44298fc1c149afbf4c8996fb92427ae41e4649b934ca495991b7852b855"
    );
    // the digest is taken of the UTF-8 bytes: c3 a9 for U+00E9
    assert_eq!(
        digest_of_prefix("\u{e9}"),
        "4a99557e4033c3539de2eb65472017cad5f9557f7a0625a09f1c3f6e2ba69c4c"
    );
}

#[test]
fn same_conversation_same_id() {
    let items = vec![user(vec![input_text("hello")])];
    let a = ensure_session_id(Some("be brief"), &items);
    let b = ensure_session_id(Some("be brief"), &items);
    assert_eq!(a, b);
    assert_eq!(a.len(), 64);
    assert!(a.chars().all(|c| c.is_ascii_digit() || ('a'..='f').contains(&c)));
    assert_eq!(a, "a658b148255a52d8788c1af339248f72aff687d46be24d49f3ccee233fa85034");
}

#[test]
fn instructions_are_trimmed() {
    let items = vec![user(vec![input_text("hello")])];
    assert_eq!(
        ensure_session_id(Some("  be brief \n"), &items),
        ensure_session_id(Some("be brief"), &items)
    );
    assert_eq!(ensure_session_id(Some("   "), &items), ensure_session_id(None, &items));
}

#[test]
fn changed_text_changes_the_id() {
    let a = ensure_session_id(None, &[user(vec![input_text("hello"), input_text("x")])]);
    let b = ensure_session_id(None, &[user(vec![input_text("hellp"), input_text("x")])]);
    let c = ensure_session_id(None, &[user(vec![input_text("hello"), input_text("")])]);
    assert_ne!(a, b);
    assert_ne!(a, c);
    assert_ne!(b, c);
}

#[test]
fn only_the_first_user_message_counts() {
    let first = user(vec![input_text("hello")]);
    let a = ensure_session_id(None, &[first.clone(), user(vec![input_text("more")])]);
    let b = ensure_session_id(None, &[first.clone(), user(vec![input_text("other")])]);
    let c = ensure_session_id(
        None,
        &[
            InputItem::Message {
                role: Role::Assistant,
                content: vec![InputPart::OutputText { text: "earlier".to_string() }],
            },
            InputItem::FunctionCallOutput { call_id: "c".to_string(), output: "o".to_string() },
            user(vec![]),
            user(vec![InputPart::OutputText { text: "not rendered".to_string() }]),
            first,
        ],
    );
    assert_eq!(a, b);
    assert_eq!(a, c);
}

#[test]
fn canonical_rendering_joins_texts_and_images() {
    let items = vec![user(vec![
        input_text("a"),
        InputPart::InputImage { image_url: "http://x/i.png".to_string() },
        InputPart::OutputText { text: "skipped".to_string() },
        input_text(""),
        input_text("b"),
    ])];
    assert_eq!(
        canonicalize_first_user_message(&items),
        Some("a|<img:http://x/i.png>||b".to_string())
    );
    assert_eq!(conversation_prefix(Some(" sys "), &items), "sysa|<img:http://x/i.png>||b");
    assert_eq!(canonicalize_first_user_message(&[]), None);
    assert_eq!(canonicalize_first_user_message(&[user(vec![input_text("")])]), Some(String::new()));
}

#[test]
fn empty_prefix_gives_fresh_ids() {
    let a = ensure_session_id(None, &[]);
    let b = ensure_session_id(Some("  "), &[]);
    let c = ensure_session_id(None, &[user(vec![input_text("")])]);
    assert_eq!(a.len(), 36);
    assert_eq!(b.len(), 36);
    assert_eq!(c.len(), 36);
    assert_ne!(a, b);
    assert_ne!(a, c);
    assert_ne!(b, c);
    assert_eq!(a.matches('-').count(), 4);
}
