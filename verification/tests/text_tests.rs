use dsh_desktop::text::{decimal_string, find, matches_at, same_text, trim_bounds, white_space};

fn chars(s: &str) -> Vec<char> {
    s.chars().collect()
}

#[test]
fn white_space_is_unicode_white_space() {
    for c in ['\t', '\n', '\u{b}', '\u{c}', '\r', ' ', '\u{85}', '\u{a0}', '\u{1680}', '\u{2000}', '\u{200a}', '\u{2028}', '\u{2029}', '\u{202f}', '\u{205f}', '\u{3000}'] {
        assert!(white_space(c), "{:?}", c);
        assert!(c.is_whitespace());
    }
    for c in ['a', '_', '/', '\u{200b}', '\u{feff}', '\u{180e}', '\0'] {
        assert!(!white_space(c), "{:?}", c);
        assert_eq!(c.is_whitespace(), false);
    }
}

#[test]
fn trim_bounds_as_str_trim() {
    for s in ["", "   ", " a ", "\u{3000}x y\u{a0}", "abc", "\n\t/usr/bin/npx\r\n"] {
        let v = chars(s);
        let (lo, hi) = trim_bounds(&v);
        let got: String = v[lo..hi].iter().collect();
        assert_eq!(got, s.trim());
    }
}

#[test]
fn find_first_occurrence() {
    let s = chars("abcabc");
    assert_eq!(find(&s, &chars("bc"), 0), Some(1));
    assert_eq!(find(&s, &chars("bc"), 2), Some(4));
    assert_eq!(find(&s, &chars("bc"), 5), None);
    assert_eq!(find(&s, &chars(""), 6), Some(6));
    assert_eq!(find(&s, &chars("x"), 0), None);
    assert!(matches_at(&s, &chars("cab"), 2));
    assert!(!matches_at(&s, &chars("cab"), 3));
    assert!(!matches_at(&s, &chars("c"), 7));
}

#[test]
fn decimal_numerals() {
    assert_eq!(decimal_string(0), "0");
    assert_eq!(decimal_string(7), "7");
    assert_eq!(decimal_string(10), "10");
    assert_eq!(decimal_string(3080), "3080");
    assert_eq!(decimal_string(u32::MAX), u32::MAX.to_string());
}

#[test]
fn same_text_compares_characters() {
    assert!(same_text("main", "main"));
    assert!(!same_text("main", "Main"));
    assert!(!same_text("main", "main "));
    assert!(same_text("", ""));
}
