use umamurl::text::{concat_str, decimal_string, first_field, strip_prefix_str, trimmed, white_space};

#[test]
fn decimal_rendering_matches_std() {
    for n in [0u16, 1, 9, 10, 11, 99, 100, 443, 4567, 9999, 10000, 65535] {
        assert_eq!(decimal_string(n), n.to_string());
    }
}

#[test]
fn strip_prefix_matches_std() {
    for (s, p) in [("https://a.b", "https://"), ("http://a.b", "https://"), ("", ""), ("ab", "abc"), ("héllo", "hé")] {
        assert_eq!(strip_prefix_str(s, p), s.strip_prefix(p));
    }
}

#[test]
fn first_field_stops_at_the_first_comma() {
    assert_eq!(first_field("1.2.3.4, 5.6.7.8"), "1.2.3.4");
    assert_eq!(first_field("no comma"), "no comma");
    assert_eq!(first_field(",x"), "");
    assert_eq!(first_field(""), "");
}

#[test]
fn trimming_matches_std() {
    for s in ["  a b  ", "\t\n x\u{3000}", "", "   ", "\u{a0}y\u{2028}", "z"] {
        assert_eq!(trimmed(s), s.trim());
    }
}

#[test]
fn white_space_matches_std() {
    for c in ['\t', '\n', '\u{b}', '\u{c}', '\r', ' ', '\u{85}', '\u{a0}', '\u{1680}', '\u{2000}', '\u{200a}',
        '\u{2028}', '\u{2029}', '\u{202f}', '\u{205f}', '\u{3000}', 'a', '\u{200b}', '\u{180e}', '0'] {
        assert_eq!(white_space(c), c.is_whitespace(), "{:?}", c);
    }
}

#[test]
fn concatenation() {
    assert_eq!(concat_str("Deleted ", "x"), "Deleted x");
}
