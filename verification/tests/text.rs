use generic_linkme::text::matches_at;
use generic_linkme::text::replace_first_in;
use generic_linkme::text::text_eq;

#[test]
fn text_eq_compares_characters() {
    assert!(text_eq("", ""));
    assert!(text_eq("jmp", "jmp"));
    assert!(!text_eq("jmp", "jmpq"));
    assert!(!text_eq("jmp", "jmP"));
    assert!(text_eq("na\u{ef}ve", "na\u{ef}ve"));
    assert!(!text_eq("na\u{ef}ve", "naive"));
}

#[test]
fn matches_at_positions() {
    assert!(matches_at("abcabc", "abc", 0));
    assert!(matches_at("abcabc", "abc", 3));
    assert!(!matches_at("abcabc", "abc", 1));
    assert!(!matches_at("abcabc", "abc", 4));
    assert!(!matches_at("abcabc", "abc", 7));
    assert!(matches_at("abc", "", 3));
    assert!(!matches_at("abc", "", 4));
}

#[test]
fn replace_first_in_replaces_the_leftmost_occurrence() {
    assert_eq!(replace_first_in("abcabc", "bc", "X"), "aXabc");
    assert_eq!(replace_first_in("abcabc", "abc", ""), "abc");
    assert_eq!(replace_first_in("abcabc", "c", "cc"), "abccabc");
    assert_eq!(replace_first_in("aaa", "aa", "b"), "ba");
    assert_eq!(replace_first_in("abc", "abc", "xyz"), "xyz");
}

#[test]
fn replace_first_in_without_an_occurrence() {
    assert_eq!(replace_first_in("abcabc", "d", "X"), "abcabc");
    assert_eq!(replace_first_in("", "d", "X"), "");
    assert_eq!(replace_first_in("ab", "abc", "X"), "ab");
}

#[test]
fn replace_first_in_agrees_with_replacen() {
    let cases = [
        ("generic_linkme_NUMS", "generic_linkme", "generic_linkm2"),
        ("__start_generic_linkme_generic_linkme", "generic_linkme", "generic_linkm2"),
        ("\u{e9}t\u{e9}", "t", "TT"),
        ("abc", "", "-"),
        ("", "", "-"),
    ];
    for (text, pattern, replacement) in cases {
        assert_eq!(
            replace_first_in(text, pattern, replacement),
            text.replacen(pattern, replacement, 1)
        );
    }
}
