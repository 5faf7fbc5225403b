use larkstack::text::{
    fold_list, has_char, holds, push_pair, replace_first, same, split_first, starts_with, trim,
    trim_end_matches,
};

#[test]
fn trim_agrees_with_std_on_every_character() {
    for u in 0..=0x10ffffu32 {
        if let Some(c) = char::from_u32(u) {
            let s = format!("{c}x{c}");
            assert_eq!(trim(&s), s.trim(), "U+{u:04X}");
        }
    }
}

#[test]
fn trim_keeps_inner_space() {
    assert_eq!(trim(""), "");
    assert_eq!(trim(" \t\r\n"), "");
    assert_eq!(trim("\u{3000} a  b \u{2028}"), "a  b");
    assert_eq!(trim("é"), "é");
}

#[test]
fn trim_end_matches_drops_the_whole_run() {
    assert_eq!(trim_end_matches("https://x//", '/'), "https://x");
    assert_eq!(trim_end_matches("///", '/'), "");
    assert_eq!(trim_end_matches("/a", '/'), "/a");
    assert_eq!(trim_end_matches("", '/'), "");
}

#[test]
fn split_first_stops_at_the_separator() {
    assert_eq!(split_first("https, http", ','), "https");
    assert_eq!(split_first("https", ','), "https");
    assert_eq!(split_first(",http", ','), "");
    assert_eq!(split_first("", ','), "");
}

#[test]
fn starts_with_compares_whole_prefixes() {
    assert!(starts_with("localhost:8080", "localhost"));
    assert!(starts_with("localhost", "localhost"));
    assert!(starts_with("x", ""));
    assert!(!starts_with("local", "localhost"));
    assert!(!starts_with("xlocalhost", "localhost"));
}

#[test]
fn replace_first_replaces_only_the_leftmost() {
    for (s, from, to) in [
        ("https://open.a://open.b", "://open.", "://accounts."),
        ("https://api.a", "://open.", "://accounts."),
        ("aaa", "aa", "b"),
        ("abc", "", "x"),
        ("", "a", "b"),
        ("", "", "x"),
        ("éopené", "open", "ü"),
    ] {
        assert_eq!(replace_first(s, from, to), s.replacen(from, to, 1));
    }
}

#[test]
fn fold_list_lowers_trims_and_drops_blanks() {
    let list: Vec<String> = ["  Ann@X.IO ", "", "\t", "ÉVA@x.io", "Straße"]
        .iter()
        .map(|s| s.to_string())
        .collect();
    assert_eq!(fold_list(&list), vec!["ann@x.io", "éva@x.io", "straße"]);
    assert!(fold_list(&vec![]).is_empty());
}

#[test]
fn holds_compares_exactly() {
    let list = vec!["a".to_string(), "b".to_string()];
    assert!(holds(&list, "b"));
    assert!(!holds(&list, "B"));
    assert!(!holds(&list, ""));
    assert!(same("x", "x"));
    assert!(!same("x", "y"));
}

#[test]
fn push_pair_appends() {
    let mut list = vec![("a".to_string(), "1".to_string())];
    push_pair(&mut list, "b", "2");
    assert_eq!(
        list,
        vec![
            ("a".to_string(), "1".to_string()),
            ("b".to_string(), "2".to_string())
        ]
    );
}

#[test]
fn has_char_finds_any_position() {
    assert!(has_char("#a", '#') && has_char("aé#", '#') && has_char("é", 'é'));
    assert!(!has_char("", '#') && !has_char("a", '#'));
}

#[test]
fn only_blank_entries_fold_away() {
    let list: Vec<String> = ["\u{130}", " \u{3a3} ", "\u{2003}", "\u{1f600}"]
        .iter()
        .map(|s| s.to_string())
        .collect();
    let folded = fold_list(&list);
    assert_eq!(folded, vec!["i\u{307}", "\u{3c3}", "\u{1f600}"]);
    assert!(fold_list(&vec!["\u{2003}\t".to_string(), String::new()]).is_empty());
}
