use aquafarm::text::{decimal_text, same_text, strip_prefix};

#[test]
fn decimal_text_matches_the_standard_numeral() {
    let samples = [
        0,
        1,
        9,
        10,
        11,
        99,
        100,
        101,
        12_345,
        1_000_000,
        i32::MAX,
        i32::MAX - 1,
        -1,
        -9,
        -10,
        -12_345,
        i32::MIN + 1,
        i32::MIN,
    ];
    for n in samples {
        assert_eq!(decimal_text(n), n.to_string());
    }
}

#[test]
fn decimal_text_of_exact_values() {
    assert_eq!(decimal_text(0), "0");
    assert_eq!(decimal_text(7), "7");
    assert_eq!(decimal_text(42), "42");
    assert_eq!(decimal_text(-42), "-42");
    assert_eq!(decimal_text(2_147_483_647), "2147483647");
    assert_eq!(decimal_text(-2_147_483_648), "-2147483648");
}

#[test]
fn decimal_text_sweeps_a_range() {
    for n in -1_200..1_200 {
        assert_eq!(decimal_text(n), n.to_string());
    }
}

#[test]
fn decimal_numerals_are_distinct() {
    let mut seen = std::collections::HashSet::new();
    for n in -500..500 {
        assert!(seen.insert(decimal_text(n)));
    }
}

#[test]
fn same_text_compares_characters() {
    assert!(same_text("", ""));
    assert!(same_text("abc", "abc"));
    assert!(!same_text("abc", "abd"));
    assert!(!same_text("abc", "ab"));
    assert!(!same_text("abc", "ABC"));
    assert!(same_text("zoé", "zoé"));
}

#[test]
fn strip_prefix_returns_the_rest() {
    assert_eq!(strip_prefix("Bearer abc", "Bearer "), Some("abc"));
    assert_eq!(strip_prefix("Bearer ", "Bearer "), Some(""));
    assert_eq!(strip_prefix("abc", ""), Some("abc"));
    assert_eq!(strip_prefix("", ""), Some(""));
    assert_eq!(strip_prefix("éé-rest", "éé-"), Some("rest"));
}

#[test]
fn strip_prefix_refuses_what_does_not_begin_with_it() {
    assert_eq!(strip_prefix("Basic abc", "Bearer "), None);
    assert_eq!(strip_prefix("Bearer", "Bearer "), None);
    assert_eq!(strip_prefix("", "Bearer "), None);
    assert_eq!(strip_prefix("bearer abc", "Bearer "), None);
    assert_eq!(strip_prefix(" Bearer abc", "Bearer "), None);
}

#[test]
fn strip_prefix_agrees_with_the_standard_library() {
    let cases = [
        ("Bearer abc", "Bearer "),
        ("Bearer", "Bearer "),
        ("", "x"),
        ("x", ""),
        ("héllo wörld", "héllo "),
        ("héllo wörld", "hello "),
    ];
    for (s, p) in cases {
        assert_eq!(strip_prefix(s, p), s.strip_prefix(p));
    }
}
