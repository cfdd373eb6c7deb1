use codex_gateway::model::listed_models;
use codex_gateway::state::{CodexState, CodexTokens};

fn norm(name: Option<&str>) -> String {
    CodexState::new(CodexTokens::default()).normalize_model_name(name)
}

#[test]
fn alias_table_is_followed() {
    assert_eq!(norm(Some("gpt5")), "gpt-5");
    assert_eq!(norm(Some("gpt-5-latest")), "gpt-5");
    assert_eq!(norm(Some("gpt-5")), "gpt-5");
    assert_eq!(norm(Some("codex")), "codex-mini-latest");
    assert_eq!(norm(Some("codex-mini")), "codex-mini-latest");
    assert_eq!(norm(Some("codex-mini-latest")), "codex-mini-latest");
}

#[test]
fn missing_or_blank_name_is_gpt_5() {
    assert_eq!(norm(None), "gpt-5");
    assert_eq!(norm(Some("")), "gpt-5");
    assert_eq!(norm(Some("  \t\n")), "gpt-5");
}

#[test]
fn other_names_pass_through() {
    assert_eq!(norm(Some("o3")), "o3");
    assert_eq!(norm(Some("GPT-5")), "GPT-5");
    assert_eq!(norm(Some("mistral-large")), "mistral-large");
    assert_eq!(norm(Some("gpt-5-codex")), "gpt-5-codex");
}

#[test]
fn variant_tag_after_colon_is_dropped() {
    assert_eq!(norm(Some("gpt-5:thinking")), "gpt-5");
    assert_eq!(norm(Some("o3 :x:y")), "o3");
    assert_eq!(norm(Some(" codex : a ")), "codex-mini-latest");
    assert_eq!(norm(Some(":only-tag")), "");
}

#[test]
fn effort_suffix_is_dropped_in_any_case() {
    assert_eq!(norm(Some("gpt-5-high")), "gpt-5");
    assert_eq!(norm(Some("gpt-5_low")), "gpt-5");
    assert_eq!(norm(Some("gpt5-MEDIUM")), "gpt-5");
    assert_eq!(norm(Some("codex-Minimal")), "codex-mini-latest");
    assert_eq!(norm(Some("o3_HiGh")), "o3");
    assert_eq!(norm(Some("o3-higher")), "o3-higher");
    assert_eq!(norm(Some("-high")), "");
}

#[test]
fn one_suffix_for_each_separator_hyphen_first() {
    assert_eq!(norm(Some("o3_high-low")), "o3");
    assert_eq!(norm(Some("o3-high_low")), "o3-high");
    assert_eq!(norm(Some("o3-high-high")), "o3-high");
    assert_eq!(norm(Some("o3_low_low")), "o3_low");
}

#[test]
fn suffix_and_tag_together() {
    assert_eq!(norm(Some("  gpt-5-latest-high:beta  ")), "gpt-5");
    assert_eq!(norm(Some("gpt-5-high :x")), "gpt-5");
}

#[test]
fn settled_names_normalize_to_themselves() {
    for name in ["gpt-5", "codex-mini-latest", "o3", "gpt-4.1-mini"] {
        let once = norm(Some(name));
        assert_eq!(norm(Some(&once)), once);
    }
    for name in ["gpt5", "codex:tag", " o3-low ", ""] {
        let once = norm(Some(name));
        assert_eq!(norm(Some(&once)), once);
    }
}

#[test]
fn a_name_with_two_hyphen_efforts_is_not_settled_after_one_pass() {
    let once = norm(Some("gpt-5-high-high"));
    assert_eq!(once, "gpt-5-high");
    assert_eq!(norm(Some(&once)), "gpt-5");
}

#[test]
fn non_ascii_names_are_kept() {
    assert_eq!(norm(Some("mod\u{e8}le-high")), "mod\u{e8}le");
    assert_eq!(norm(Some("\u{3000}o3\u{3000}")), "o3");
    assert_eq!(norm(Some("o3-h\u{130}gh")), "o3-h\u{130}gh");
}

#[test]
fn listed_models_are_the_two_known_names() {
    assert_eq!(listed_models(), vec!["gpt-5".to_string(), "codex-mini-latest".to_string()]);
    for id in listed_models() {
        assert_eq!(norm(Some(&id)), id);
    }
}
