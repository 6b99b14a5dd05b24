use dsh_desktop::text::{
    chars_of, copy_texts, decimal_text, join_texts, owned_texts, same_text, split_text, trim_text,
};

#[test]
fn trimming_takes_unicode_white_space() {
    for text in ["", " ", "a", "  a b\t", "\u{85}a\u{a0}", "\u{2028}x\u{3000}", "\u{200b}x", "\u{feff}x ", "\u{1680}\u{180e}y"] {
        assert_eq!(trim_text(text), text.trim());
    }
    for n in 0..0x11_0000u32 {
        if let Some(c) = char::from_u32(n) {
            if c.is_whitespace() {
                assert_eq!(trim_text(&c.to_string()), "");
            }
        }
    }
}

#[test]
fn numbers_are_written_in_decimal() {
    for n in [0u32, 7, 10, 99, 100, 3080, 65535, u32::MAX] {
        assert_eq!(decimal_text(n), n.to_string());
    }
}

#[test]
fn splitting_and_joining_undo_each_other() {
    for text in ["", ":", "a", "a:b", ":a::b:", "路:径"] {
        let parts = split_text(text, ':');
        let expected: Vec<String> = text.split(':').map(|s| s.to_string()).collect();
        assert_eq!(parts, expected);
        assert_eq!(join_texts(&parts, ":"), text);
        for part in &parts {
            assert!(!part.contains(':'));
        }
    }
    assert_eq!(join_texts(&Vec::new(), ":"), "");
    assert_eq!(join_texts(&owned_texts(&["a", "", "c"]), ", "), "a, , c");
    let whole: Vec<String> = [split_text("a:b", ':'), split_text("c", ':')].concat();
    assert_eq!(split_text("a:b:c", ':'), whole);
}

#[test]
fn texts_are_compared_and_copied() {
    assert!(same_text("路", "路"));
    assert!(!same_text("a", "A"));
    assert_eq!(chars_of("a路"), vec!['a', '路']);
    let list = owned_texts(&["x", "y"]);
    assert_eq!(copy_texts(&list), list);
}
