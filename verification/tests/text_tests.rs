use astro_agent::text::{
    chars_of, concat2, decimal_string, eq_text, owned, parse_i64, parse_u32, parse_u64,
    redact, replace_all, trim, trim_quotes,
};

#[test]
fn trim_removes_unicode_whitespace() {
    assert_eq!(trim("  hi \n"), "hi");
    assert_eq!(trim("\u{3000}x y\u{2003}\t"), "x y");
    assert_eq!(trim(" \t\r\n"), "");
    assert_eq!(trim(""), "");
    for s in ["  a  ", "\u{85}b\u{a0}", "c", " \u{2028} d e \u{2029}"] {
        assert_eq!(trim(s), s.trim());
        assert_eq!(trim(&trim(s)), trim(s));
    }
}

#[test]
fn trim_quotes_strips_both_ends() {
    assert_eq!(trim_quotes("\"\"key\""), "key");
    assert_eq!(trim_quotes("k\"e\"y"), "k\"e\"y");
    assert_eq!(trim_quotes("\"\"\""), "");
}

#[test]
fn replace_all_matches_std_replace() {
    let cases = [
        ("John Doe met John", "John", "The Querent"),
        ("aaaa", "aa", "b"),
        ("abc", "", "-"),
        ("", "", "x"),
        ("no match here", "zz", "y"),
        ("a b  c", " ", "_"),
        ("ééé", "é", "e"),
    ];
    for (s, p, r) in cases {
        assert_eq!(replace_all(s, p, r), s.replace(p, r));
    }
}

#[test]
fn parse_u64_matches_std() {
    let cases = [
        "0", "42", "+42", "", "+", "-", "-1", "18446744073709551615",
        "18446744073709551616", " 1", "1 ", "00012", "1_000", "٣",
    ];
    for s in cases {
        assert_eq!(parse_u64(s), s.parse::<u64>().ok(), "input {:?}", s);
        assert_eq!(parse_u32(s), s.parse::<u32>().ok(), "input {:?}", s);
    }
    assert_eq!(parse_u32("4294967295"), Some(u32::MAX));
    assert_eq!(parse_u32("4294967296"), None);
}

#[test]
fn parse_i64_matches_std() {
    let cases = [
        "0", "-0", "-9223372036854775808", "-9223372036854775809", "9223372036854775807",
        "9223372036854775808", "-", "+", "+-1", "--1", "-12", "+12", "12a",
    ];
    for s in cases {
        assert_eq!(parse_i64(s), s.parse::<i64>().ok(), "input {:?}", s);
    }
}

#[test]
fn decimal_string_matches_display_and_reads_back() {
    for n in [0u64, 7, 10, 99, 100, 1234567890, u64::MAX] {
        assert_eq!(decimal_string(n), n.to_string());
        assert_eq!(parse_u64(&decimal_string(n)), Some(n));
    }
}

#[test]
fn small_string_helpers() {
    assert_eq!(concat2("ab", "cd"), "abcd");
    assert_eq!(owned("x"), "x");
    assert!(eq_text("Moon", "Moon"));
    assert!(!eq_text("Moon", "moon"));
    assert_eq!(chars_of("añb"), vec!['a', 'ñ', 'b']);
}


#[test]
fn redact_leaves_no_occurrence() {
    let cases = [
        ("ntAA", "ntA", "The Querent"),
        ("aaaa", "aa", "a"),
        ("abab", "ab", "b"),
        ("xyzxyz", "zx", "Zed"),
        ("nothing here", "Ann", "The Querent"),
        ("", "Ann", "The Querent"),
    ];
    for (text, name, placeholder) in cases {
        let r = redact(text, name, placeholder);
        assert!(!r.contains(name), "{:?} still holds {:?}", r, name);
    }
    assert_eq!(redact("aaaa", "aa", "a"), "a");
    assert_eq!(redact("nothing here", "Ann", "X"), "nothing here");
    assert_eq!(redact("Ann and Ann", "", "X"), "Ann and Ann");
}

#[test]
fn redact_agrees_with_replace_when_no_character_is_shared() {
    let cases = [
        ("John Doe met John", "John", "XYZ"),
        ("aaaa", "aa", "b"),
        ("aaa", "aa", "b"),
        ("abcabc", "bc", "Q"),
        ("Ann, Ann!", "Ann", "The Querent"),
    ];
    for (text, name, placeholder) in cases {
        assert_eq!(redact(text, name, placeholder), text.replace(name, placeholder));
    }
}
