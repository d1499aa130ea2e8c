use quest_scrcpy::text::{contains_text, decimal_text, joined, text_is, trimmed};

#[test]
fn decimal_numbers() {
    for n in [0u64, 7, 9, 10, 99, 100, 1_234_567_890, u64::MAX] {
        assert_eq!(decimal_text(n), n.to_string());
    }
}

#[test]
fn joined_texts() {
    assert_eq!(joined("a", "bc"), "abc");
    assert_eq!(joined("", ""), "");
}

#[test]
fn compared_texts() {
    assert!(text_is(&"device".to_string(), "device"));
    assert!(!text_is(&"offline".to_string(), "device"));
    assert!(!text_is(&String::new(), "device"));
}

#[test]
fn trimmed_as_std_does() {
    let cases = ["", " ", "a", "  a", "a  ", " a b \t\n", "\u{a0}x\u{3000}", "\u{2028}\u{85}",
        "\u{200b}y\u{200b}", "\u{1680}\u{2009}z\u{202f}\u{205f}", "\u{c}\u{b}q\r"];
    for c in cases {
        assert_eq!(trimmed(&c.to_string()), c.trim());
    }
    for n in 0..0x1_0000u32 {
        if let Some(c) = char::from_u32(n) {
            let t = format!("{c}|{c}");
            assert_eq!(trimmed(&t), t.trim());
        }
    }
}

#[test]
fn occurrences() {
    assert!(contains_text("meta quest 3", "quest"));
    assert!(contains_text("quest", "quest"));
    assert!(contains_text("ques quest", "quest"));
    assert!(!contains_text("ques", "quest"));
    assert!(!contains_text("", "q"));
    assert!(contains_text("", ""));
    assert!(contains_text("größe", "öß"));
}
