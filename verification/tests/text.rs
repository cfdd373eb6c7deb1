use codex_gateway::text::{blank, is_space, trim};

#[test]
fn trim_removes_surrounding_white_space() {
    assert_eq!(trim("  a b\t\n"), "a b");
    assert_eq!(trim("\u{3000}x\u{a0}"), "x");
    assert_eq!(trim(" \r\n "), "");
    assert_eq!(trim(""), "");
}

#[test]
fn blank_is_all_white_space() {
    assert!(blank(""));
    assert!(blank(" \t\u{2003}"));
    assert!(!blank(" a "));
}

#[test]
fn white_space_agrees_with_std_on_every_char() {
    let mut u: u32 = 0;
    while u <= 0x10FFFF {
        if let Some(c) = char::from_u32(u) {
            assert_eq!(is_space(c), c.is_whitespace());
        }
        u += 1;
    }
}
