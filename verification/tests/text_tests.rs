use alphaview::text::strip_quotes;

#[test]
fn quotes_are_removed() {
    assert_eq!(strip_quotes("\"SONY\""), "SONY");
    assert_eq!(strip_quotes("\"ILCE-7RM4\""), "ILCE-7RM4");
    assert_eq!(strip_quotes("a\"b\"\"c"), "abc");
}

#[test]
fn text_without_quotes_is_kept() {
    assert_eq!(strip_quotes("1/250 s"), "1/250 s");
    assert_eq!(strip_quotes(""), "");
    assert_eq!(strip_quotes("f/2.8 – ümlaut"), "f/2.8 – ümlaut");
}

#[test]
fn stripping_twice_is_stripping_once() {
    for s in ["\"x\"", "\"\"\"", "no quotes", "mid\"dle"] {
        let once = strip_quotes(s);
        assert_eq!(strip_quotes(&once), once);
        assert!(!once.contains('"'));
    }
}
