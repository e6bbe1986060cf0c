use document_encoder::text::{
    chars_of, contains_text, copy_texts, counted, decimal, find_from, join, matches_at,
    replace_all, same_text, text_between,
};

#[test]
fn decimal_writes_numbers_as_std_does() {
    for n in [0u64, 7, 9, 10, 11, 42, 99, 100, 3600, 99999, u64::MAX] {
        assert_eq!(decimal(n), n.to_string());
    }
    assert_eq!(decimal(7200), "7200");
}

#[test]
fn replace_all_agrees_with_std() {
    assert_eq!(replace_all("a.b.c", ".", "_"), "a.b.c".replace('.', "_"));
    assert_eq!(replace_all("aaa", "aa", "b"), "aaa".replace("aa", "b"));
    assert_eq!(replace_all("abc", "", "-"), "abc".replace("", "-"));
    assert_eq!(replace_all("", "", "-"), "".replace("", "-"));
    assert_eq!(replace_all("", "x", "-"), "");
    assert_eq!(replace_all("日本語 の 文", " ", "_"), "日本語_の_文");
    assert_eq!(replace_all("abcabc", "abc", ""), "");
    assert_eq!(replace_all("xabcx", "abc", "abcabc"), "xabcabcx");
}

#[test]
fn replace_all_scans_from_the_left_without_overlap() {
    assert_eq!(replace_all("aaaa", "aa", "a"), "aa");
    assert_eq!(replace_all("ababab", "aba", "X"), "Xbab");
}

#[test]
fn find_from_counts_characters() {
    let hay = chars_of("één <name>x</name>");
    let pat = chars_of("<name>");
    assert_eq!(find_from(&hay, &pat, 0), Some(4));
    assert_eq!(find_from(&hay, &pat, 4), Some(4));
    assert_eq!(find_from(&hay, &pat, 5), None);
    assert_eq!(find_from(&hay, &pat, 100), None);
    let empty = chars_of("");
    assert_eq!(find_from(&hay, &empty, 3), Some(3));
    assert_eq!(find_from(&hay, &empty, hay.len()), Some(hay.len()));
    assert_eq!(find_from(&hay, &empty, hay.len() + 1), None);
}

#[test]
fn matches_at_is_exact() {
    let hay = chars_of("out_time_ms=12");
    assert!(matches_at(&hay, &chars_of("out_time_ms="), 0));
    assert!(!matches_at(&hay, &chars_of("out_time_ms="), 1));
    assert!(matches_at(&hay, &chars_of("12"), 12));
    assert!(!matches_at(&hay, &chars_of("123"), 12));
}

#[test]
fn contains_text_agrees_with_std() {
    for (hay, pat) in [("h264_nvenc h264_qsv", "h264_qsv"), ("abc", "abd"), ("", ""), ("a", "")] {
        assert_eq!(contains_text(hay, pat), hay.contains(pat));
    }
}

#[test]
fn same_text_compares_characters() {
    assert!(same_text("ACTIVE", "ACTIVE"));
    assert!(!same_text("ACTIVE", "ACTIVF"));
    assert!(!same_text("ACTIVE", "ACTIV"));
    assert!(same_text("", ""));
    assert!(same_text("動画", "動画"));
}

#[test]
fn chars_and_text_round_trip() {
    let chars = chars_of("a日b");
    assert_eq!(chars, vec!['a', '日', 'b']);
    assert_eq!(text_between(&chars, 0, 3), "a日b");
    assert_eq!(text_between(&chars, 1, 3), "日b");
    assert_eq!(text_between(&chars, 2, 2), "");
}

#[test]
fn join_agrees_with_std() {
    let parts = vec!["a".to_string(), "".to_string(), "c".to_string()];
    assert_eq!(join(&parts, ";"), parts.join(";"));
    assert_eq!(join(&[], ";"), "");
    assert_eq!(join(&parts[..1], ";"), "a");
    assert_eq!(copy_texts(&parts), parts);
}

#[test]
fn counted_writes_index_and_count() {
    assert_eq!(counted("ドキュメント生成中", 2, 13), "ドキュメント生成中 (2/13)");
}
