use dezleks::text::{is_white_space_char, same_text, trim};

#[test]
fn white_space_matches_std_for_every_char() {
    for code in 0u32..0x110000 {
        if let Some(c) = char::from_u32(code) {
            assert_eq!(is_white_space_char(c), c.is_whitespace(), "char {:x}", code);
        }
    }
}

#[test]
fn trim_matches_std() {
    let samples = [
        "", " ", "  a  ", "\u{3000}текст\u{2028}", "a b", "\t\n x\r\n", "\u{85}y\u{a0}", "no-space",
    ];
    for s in samples {
        assert_eq!(trim(s), s.trim());
    }
}

#[test]
fn trim_keeps_inner_white_space() {
    assert_eq!(trim("  one  two \n"), "one  two");
}

#[test]
fn same_text_compares_characters() {
    assert!(same_text("left", "left"));
    assert!(!same_text("left", "Left"));
    assert!(!same_text("left", "lef"));
    assert!(same_text("", ""));
}
