use kickforge::text::{digit_str, format_decimal, split_once, strip_prefix, trim, white_space};

#[test]
fn decimal_formatting() {
    assert_eq!(format_decimal(0), "0");
    assert_eq!(format_decimal(7), "7");
    assert_eq!(format_decimal(10), "10");
    assert_eq!(format_decimal(8080), "8080");
    assert_eq!(format_decimal(1_234_567_890), "1234567890");
    assert_eq!(format_decimal(usize::MAX), usize::MAX.to_string());
    for d in 0..10 {
        assert_eq!(digit_str(d), d.to_string());
    }
}

#[test]
fn trimming_white_space() {
    assert_eq!(trim("  abc \t\n"), "abc");
    assert_eq!(trim("abc"), "abc");
    assert_eq!(trim("   "), "");
    assert_eq!(trim(""), "");
    assert_eq!(trim("\u{3000}x y\u{a0}\u{2028}"), "x y");
    assert_eq!(trim("\u{85}tok\u{200b}"), "tok\u{200b}");
    for s in ["  a b  ", "\r\n\t token \u{205f}", "x", "\u{1680}"] {
        assert_eq!(trim(s), s.trim());
    }
}

#[test]
fn white_space_set() {
    for c in ['\t', '\n', '\u{b}', '\u{c}', '\r', ' ', '\u{85}', '\u{a0}', '\u{1680}', '\u{2000}', '\u{200a}', '\u{2028}', '\u{2029}', '\u{202f}', '\u{205f}', '\u{3000}'] {
        assert!(white_space(c));
        assert!(c.is_whitespace());
    }
    for c in ['a', '\u{200b}', '\u{180e}', '\u{feff}', '0'] {
        assert!(!white_space(c));
        assert_eq!(white_space(c), c.is_whitespace());
    }
}

#[test]
fn prefix_and_split() {
    assert_eq!(strip_prefix("setParam:x:1", "setParam:"), Some("x:1"));
    assert_eq!(strip_prefix("set", "setParam:"), None);
    assert_eq!(strip_prefix("saveToken:", "setParam:"), None);
    assert_eq!(strip_prefix("abc", ""), Some("abc"));
    assert_eq!(split_once("a:b:c", ':'), Some(("a", "b:c")));
    assert_eq!(split_once(":b", ':'), Some(("", "b")));
    assert_eq!(split_once("ab", ':'), None);
    assert_eq!(split_once("é:ü", ':'), Some(("é", "ü")));
}
