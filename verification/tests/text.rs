use guideline_lints::text::{chars_of, find_between, same_text, split_text, str_contains};

fn pieces(s: &str, sep: &str) -> Vec<String> {
    split_text(s, sep)
}

#[test]
fn split_on_path_separator() {
    assert_eq!(pieces("libc::memcpy", "::"), vec!["libc", "memcpy"]);
    assert_eq!(pieces("aa::bb::cc::bar", "::"), vec!["aa", "bb", "cc", "bar"]);
}

#[test]
fn split_without_separator_is_one_piece() {
    assert_eq!(pieces("memcpy", "::"), vec!["memcpy"]);
    assert_eq!(pieces("a:b", "::"), vec!["a:b"]);
    assert_eq!(pieces("", "::"), vec![""]);
}

#[test]
fn split_keeps_empty_pieces() {
    assert_eq!(pieces("::a", "::"), vec!["", "a"]);
    assert_eq!(pieces("a::", "::"), vec!["a", ""]);
    assert_eq!(pieces("a::::b", "::"), vec!["a", "", "b"]);
    assert_eq!(pieces("::", "::"), vec!["", ""]);
}

#[test]
fn split_takes_separators_from_the_left_without_overlap() {
    assert_eq!(pieces(":::", "::"), vec!["", ":"]);
    assert_eq!(pieces("a:::b", "::"), vec!["a", ":b"]);
    assert_eq!(pieces("aaa", "aa"), vec!["", "a"]);
}

#[test]
fn split_agrees_with_the_standard_library() {
    for s in ["", "a", "::", "a::b", "::a::", "a:::b::::c", "x::y:z", "std::mem::swap", "é::ü"] {
        let expected: Vec<String> = s.split("::").map(|p| p.to_string()).collect();
        assert_eq!(pieces(s, "::"), expected, "{}", s);
    }
}

#[test]
fn split_on_empty_separator_splits_nothing() {
    assert_eq!(pieces("abc", ""), vec!["abc"]);
    assert_eq!(pieces("", ""), vec![""]);
}

#[test]
fn split_counts_characters_not_bytes() {
    assert_eq!(pieces("größe::maß", "::"), vec!["größe", "maß"]);
    assert_eq!(pieces("日本::語", "::"), vec!["日本", "語"]);
}

#[test]
fn contains_finds_a_needle_anywhere() {
    assert!(str_contains("libc::memcpy", "::"));
    assert!(str_contains("::x", "::"));
    assert!(str_contains("x::", "::"));
    assert!(str_contains("abc", "abc"));
    assert!(str_contains("abc", ""));
    assert!(str_contains("", ""));
}

#[test]
fn contains_rejects_what_is_not_there() {
    assert!(!str_contains("memcpy", "::"));
    assert!(!str_contains("a:b:c", "::"));
    assert!(!str_contains("", "::"));
    assert!(!str_contains("ab", "abc"));
    assert!(!str_contains("extern \"C", "extern \"C\""));
}

#[test]
fn contains_agrees_with_the_standard_library() {
    let hays = ["", "a", "ab", "aab", "abab", "extern \"C\" fn", "fn f()", "ünïcödé"];
    let needles = ["", "a", "b", "ab", "ba", "fn", "extern \"C\"", "ï"];
    for hay in hays {
        for needle in needles {
            assert_eq!(str_contains(hay, needle), hay.contains(needle), "{:?} in {:?}", needle, hay);
        }
    }
}

#[test]
fn same_text_compares_whole_texts() {
    assert!(same_text("matches_macro", "matches_macro"));
    assert!(same_text("", ""));
    assert!(!same_text("matches_macro", "matches_macr"));
    assert!(!same_text("matches_macro", "matches_macrO"));
    assert!(!same_text("a", ""));
    assert!(!same_text("", "a"));
}

#[test]
fn chars_of_lists_the_characters() {
    assert_eq!(chars_of("fn"), vec!['f', 'n']);
    assert_eq!(chars_of(""), Vec::<char>::new());
    assert_eq!(chars_of("aß語"), vec!['a', 'ß', '語']);
}

#[test]
fn find_between_returns_the_first_position() {
    let hay = chars_of("abcabc");
    let needle = chars_of("bc");
    assert_eq!(find_between(&hay, &needle, 0, 6), Some(1));
    assert_eq!(find_between(&hay, &needle, 1, 6), Some(1));
    assert_eq!(find_between(&hay, &needle, 2, 6), Some(4));
    assert_eq!(find_between(&hay, &needle, 5, 6), None);
}

#[test]
fn find_between_stays_before_the_end() {
    let hay = chars_of("abcabc");
    let needle = chars_of("bc");
    assert_eq!(find_between(&hay, &needle, 0, 3), Some(1));
    assert_eq!(find_between(&hay, &needle, 0, 2), None);
    assert_eq!(find_between(&hay, &needle, 2, 5), None);
    assert_eq!(find_between(&hay, &needle, 0, 0), None);
}

#[test]
fn find_between_with_an_empty_needle_finds_the_start() {
    let hay = chars_of("abc");
    let empty = chars_of("");
    assert_eq!(find_between(&hay, &empty, 0, 3), Some(0));
    assert_eq!(find_between(&hay, &empty, 2, 3), Some(2));
    assert_eq!(find_between(&hay, &empty, 3, 3), Some(3));
    assert_eq!(find_between(&chars_of(""), &empty, 0, 0), Some(0));
}

#[test]
fn find_between_finds_nothing_outside_the_text() {
    let hay = chars_of("abc");
    let needle = chars_of("b");
    let empty = chars_of("");
    assert_eq!(find_between(&hay, &needle, 0, 4), None);
    assert_eq!(find_between(&hay, &needle, 2, 1), None);
    assert_eq!(find_between(&hay, &empty, 4, 4), None);
    assert_eq!(find_between(&hay, &empty, 0, usize::MAX), None);
}

#[test]
fn find_between_with_a_needle_longer_than_the_text() {
    let hay = chars_of("ab");
    let needle = chars_of("abc");
    assert_eq!(find_between(&hay, &needle, 0, 2), None);
}
