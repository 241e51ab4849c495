use factura_pdf::text::{
    char_is_white_space, chars_of, decimal_string, filter_zero, replace_str, str_is_blank,
};

#[test]
fn decimal_string_writes_digits() {
    assert_eq!(decimal_string(0), "0");
    assert_eq!(decimal_string(7), "7");
    assert_eq!(decimal_string(10), "10");
    assert_eq!(decimal_string(2024), "2024");
    assert_eq!(decimal_string(u64::MAX), u64::MAX.to_string());
}

#[test]
fn chars_of_keeps_accents() {
    assert_eq!(chars_of("Página"), vec!['P', 'á', 'g', 'i', 'n', 'a']);
    assert!(chars_of("").is_empty());
}

#[test]
fn replace_str_replaces_every_occurrence() {
    assert_eq!(replace_str("a-b-c", "-", "+"), "a+b+c");
    assert_eq!(replace_str("{{x}}{{x}}", "{{x}}", "1"), "11");
    assert_eq!(replace_str("aaa", "aa", "b"), "ba");
    assert_eq!(replace_str("sin marcas", "{{x}}", "1"), "sin marcas");
    assert_eq!(replace_str("", "x", "y"), "");
    assert_eq!(replace_str("ñandú ñ", "ñ", "n"), "nandú n");
}

#[test]
fn replace_str_agrees_with_std() {
    let cases = [("abcabc", "bc", "X"), ("xxxx", "xx", "y"), ("héllo wörld", "ö", "oe")];
    for (s, p, r) in cases {
        assert_eq!(replace_str(s, p, r), s.replace(p, r));
    }
}

#[test]
fn white_space_matches_std() {
    for c in [' ', '\t', '\n', '\r', '\u{0b}', '\u{0c}', '\u{85}', '\u{a0}', '\u{2003}', '\u{3000}', 'a', '0', '_', '\u{200b}'] {
        assert_eq!(char_is_white_space(c), c.is_whitespace(), "{:?}", c);
    }
}

#[test]
fn blank_texts() {
    assert!(str_is_blank(""));
    assert!(str_is_blank("  \t\n"));
    assert!(!str_is_blank(" 0 "));
}

#[test]
fn filter_zero_hides_zeros_and_blanks() {
    assert_eq!(filter_zero("0.00"), "");
    assert_eq!(filter_zero("0"), "");
    assert_eq!(filter_zero(""), "");
    assert_eq!(filter_zero("   "), "");
    assert_eq!(filter_zero("0.000"), "0.000");
    assert_eq!(filter_zero(" 0"), " 0");
    assert_eq!(filter_zero("12.50"), "12.50");
}

#[test]
fn filter_zero_twice_is_once() {
    for v in ["0.00", "0", " ", "3.10", "abc"] {
        let once = filter_zero(v);
        assert_eq!(filter_zero(&once), once);
    }
}
