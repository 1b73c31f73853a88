use eng_dict::text::{
    chars_of, join3, remove_all_occurrences, replace_char, same_text, split_fields,
    string_from_chars, trim, white_space,
};

#[test]
fn chars_round_trip() {
    let v = chars_of("héllo");
    assert_eq!(v, vec!['h', 'é', 'l', 'l', 'o']);
    assert_eq!(string_from_chars(&v), "héllo");
}

#[test]
fn same_text_compares_characters() {
    assert!(same_text("detail", "detail"));
    assert!(!same_text("detail", "details"));
    assert!(!same_text("auth", "answ"));
    assert!(same_text("", ""));
}

#[test]
fn white_space_follows_unicode() {
    assert!(white_space(' '));
    assert!(white_space('\t'));
    assert!(white_space('\n'));
    assert!(white_space('\u{3000}'));
    assert!(white_space('\u{a0}'));
    assert!(!white_space('a'));
    assert!(!white_space('\u{200b}'));
    for c in ['\u{9}', '\u{d}', '\u{85}', '\u{1680}', '\u{2000}', '\u{200a}', '\u{2028}', '\u{2029}', '\u{202f}', '\u{205f}'] {
        assert_eq!(white_space(c), c.is_whitespace());
    }
}

#[test]
fn trim_matches_std() {
    for s in ["  apple  ", "apple", "", "   ", "\u{3000}りんご\t", " a b "] {
        assert_eq!(trim(s), s.trim());
    }
}

#[test]
fn remove_all_matches_std_replace() {
    for (s, p) in [
        ("xauth=abc", "xauth="),
        ("xauth=xauth=abc", "xauth="),
        ("a xauth=b xauth=", "xauth="),
        ("xxauth=auth=", "xauth="),
        ("aaa", "aa"),
        ("abc", ""),
        ("", "xauth="),
    ] {
        assert_eq!(remove_all_occurrences(s, p), s.replace(p, ""));
    }
}

#[test]
fn replace_char_turns_quotes() {
    assert_eq!(replace_char("{\"a\":\"b\"}", '"', '\''), "{'a':'b'}");
    assert_eq!(replace_char("no quotes", '"', '\''), "no quotes");
}

#[test]
fn split_fields_matches_std_split() {
    for s in ["a;b,c", "", ";", "xauth=abc; other=1", ",,x"] {
        let got: Vec<String> = split_fields(s).iter().map(|v| v.iter().collect()).collect();
        let want: Vec<String> = s.split(|c: char| c == ';' || c == ',').map(|x| x.to_string()).collect();
        assert_eq!(got, want);
    }
}

#[test]
fn join3_concatenates() {
    assert_eq!(join3("[", "x", "]"), "[x]");
}
