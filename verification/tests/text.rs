use glazewm_window_info::text::{is_whitespace, join, split_lines_inclusive, starts_with, trim, trim_start};

#[test]
fn whitespace_follows_unicode() {
    for c in ['\t', '\n', '\r', ' ', '\u{85}', '\u{a0}', '\u{2003}', '\u{3000}', '\u{2029}'] {
        assert!(is_whitespace(c));
        assert!(c.is_whitespace());
    }
    for c in ['a', '—', '\u{200b}', '\u{feff}', '0', '"'] {
        assert!(!is_whitespace(c));
        assert_eq!(is_whitespace(c), c.is_whitespace());
    }
}

#[test]
fn whitespace_agrees_with_std_everywhere() {
    for v in 0u32..0x11000 {
        if let Some(c) = char::from_u32(v) {
            assert_eq!(is_whitespace(c), c.is_whitespace(), "{v:#x}");
        }
    }
}

#[test]
fn trims_like_std() {
    for s in ["", "   ", "  a b  ", "\u{3000}值\u{a0}", "x", " \n\t x\r\n"] {
        assert_eq!(trim(s), s.trim());
        assert_eq!(trim_start(s), s.trim_start());
    }
}

#[test]
fn prefix_test() {
    assert!(starts_with("\"title\": 1", "\"title\":"));
    assert!(starts_with("abc", ""));
    assert!(!starts_with("ab", "abc"));
    assert!(!starts_with("xbc", "abc"));
}

#[test]
fn splits_lines_keeping_newlines() {
    let lines = split_lines_inclusive("a\nbc\n\nd");
    assert_eq!(lines, vec!["a\n", "bc\n", "\n", "d"]);
    assert_eq!(split_lines_inclusive("x\n"), vec!["x\n"]);
    assert!(split_lines_inclusive("").is_empty());
}

#[test]
fn split_lines_join_back_to_input() {
    for s in ["", "\n", "a", "a\nb\n", "{\n  \"title\": \"é\"\n}", "\n\n\nz"] {
        let lines = split_lines_inclusive(s);
        assert_eq!(lines.concat(), s);
        let expected: Vec<&str> = s.split_inclusive('\n').collect();
        assert_eq!(lines, expected);
    }
}

#[test]
fn joins_with_separator() {
    let list = vec!["one".to_string(), "two".to_string(), "three".to_string()];
    assert_eq!(join(&list, "\n"), "one\ntwo\nthree");
    assert_eq!(join(&vec!["solo".to_string()], ", "), "solo");
    assert_eq!(join(&Vec::new(), "-"), "");
}
