use proc_macro_warning::ident::is_valid_ident;
use proc_macro_warning::text::{
    chars_of, push_decimal, skip_white_space, skip_white_space_back, split_lines, white_space,
};

#[test]
fn identifiers_that_an_item_may_have() {
    assert!(is_valid_ident("my_macro"));
    assert!(is_valid_ident("_"));
    assert!(is_valid_ident("_1"));
    assert!(is_valid_ident("fn"));
    assert!(is_valid_ident("Größe"));
    assert!(!is_valid_ident(""));
    assert!(!is_valid_ident("123"));
    assert!(!is_valid_ident("1a"));
    assert!(!is_valid_ident("a-b"));
    assert!(!is_valid_ident("a b"));
    assert!(!is_valid_ident("r#a"));
}

#[test]
fn unicode_white_space() {
    for c in ['\t', '\n', '\u{b}', '\u{c}', '\r', ' ', '\u{85}', '\u{a0}', '\u{1680}', '\u{2000}', '\u{200a}', '\u{2028}', '\u{2029}', '\u{202f}', '\u{205f}', '\u{3000}'] {
        assert!(white_space(c), "{:?}", c);
        assert_eq!(white_space(c), c.is_whitespace());
    }
    for c in ['a', '_', '\u{200b}', '\u{feff}', '\u{1f}', '\u{2100}'] {
        assert!(!white_space(c), "{:?}", c);
        assert_eq!(white_space(c), c.is_whitespace());
    }
}

#[test]
fn decimal_numbers() {
    for n in [0usize, 7, 10, 99, 100, 12345, usize::MAX] {
        let mut s = String::from("x");
        push_decimal(&mut s, n);
        assert_eq!(s, format!("x{}", n));
    }
}

#[test]
fn trimming_matches_str_trim() {
    for t in ["", "  ", " a ", "\u{3000}a b\u{2028}", "ab", "\n\r\ta\n"] {
        let v = chars_of(t);
        let i = skip_white_space(&v, 0, v.len());
        let j = skip_white_space_back(&v, i, v.len());
        let got: String = v[i..j].iter().collect();
        assert_eq!(got, t.trim());
        let got_start: String = v[i..].iter().collect();
        assert_eq!(got_start, t.trim_start());
    }
}

#[test]
fn lines_match_str_lines() {
    for t in ["", "a", "a\n", "a\nb", "a\r\nb\r\n", "\n\n", "a\rb\n", "x\r", "\r\n"] {
        let v = chars_of(t);
        let ls = split_lines(&v, 0, v.len());
        let got: Vec<String> = ls.iter().map(|l| l.iter().collect()).collect();
        let want: Vec<String> = t.lines().map(|l| l.to_string()).collect();
        assert_eq!(got, want, "{:?}", t);
    }
}
