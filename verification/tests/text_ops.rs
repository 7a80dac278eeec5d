use creek::concise::{clean_concise_output, trim_char_chars};
use creek::lines::{line_spans_chars, split_inclusive_chars, split_lines};
use creek::numfmt::decimal_string;
use creek::rewrite::{normalize_tabs_str, replace_str};
use creek::text::{
    char_is_white_space, chars_to_string, contains_chars, ends_with_chars, find_chars,
    is_blank_str, join_strings, shown, starts_with_chars, str_eq, str_to_chars, trim_chars,
    trim_end_chars, trim_start_chars, trim_str,
};
use creek::truncate::safe_truncate;

fn chars(s: &str) -> Vec<char> {
    s.chars().collect()
}

#[test]
fn white_space_is_the_unicode_property() {
    for u in 0..=0x10FFFFu32 {
        if let Some(c) = char::from_u32(u) {
            assert_eq!(char_is_white_space(c), c.is_whitespace(), "U+{:04X}", u);
        }
    }
}

#[test]
fn conversions_keep_the_text() {
    let s = "h\u{e9}llo \u{6cb3}\n";
    assert_eq!(str_to_chars(s), chars(s));
    assert_eq!(chars_to_string(&chars(s)), s);
    assert!(str_eq("abc", "abc"));
    assert!(!str_eq("abc", "abd"));
    assert!(!str_eq("abc", "ab"));
}

#[test]
fn trimming_matches_the_standard_library() {
    for s in ["", "   ", " a ", "\t\n x y \u{3000}\u{a0}", "x", "\u{2003}a\u{2003}b\r\n"] {
        assert_eq!(chars_to_string(&trim_chars(&chars(s))), s.trim(), "{:?}", s);
        assert_eq!(chars_to_string(&trim_start_chars(&chars(s))), s.trim_start(), "{:?}", s);
        assert_eq!(chars_to_string(&trim_end_chars(&chars(s))), s.trim_end(), "{:?}", s);
        assert_eq!(trim_str(s), s.trim());
        assert_eq!(is_blank_str(s), s.trim().is_empty());
    }
}

#[test]
fn searching_finds_the_first_occurrence() {
    let h = chars("abcabcab");
    assert_eq!(find_chars(&h, &chars("bc")), Some(1));
    assert_eq!(find_chars(&h, &chars("cab")), Some(2));
    assert_eq!(find_chars(&h, &chars("abcabcab")), Some(0));
    assert_eq!(find_chars(&h, &chars("abcabcabc")), None);
    assert_eq!(find_chars(&h, &chars("")), Some(0));
    assert_eq!(find_chars(&chars(""), &chars("")), Some(0));
    assert_eq!(find_chars(&h, &chars("x")), None);
    assert!(contains_chars(&h, &chars("ca")));
    assert!(!contains_chars(&h, &chars("cc")));
    assert!(starts_with_chars(&h, &chars("abc")));
    assert!(!starts_with_chars(&h, &chars("bc")));
    assert!(ends_with_chars(&h, &chars("cab")));
    assert!(!ends_with_chars(&h, &chars("abc")));
    assert!(ends_with_chars(&h, &chars("")));
}

#[test]
fn replacing_matches_the_standard_library() {
    let cases = [
        ("a\tb\t\tc", "\t", "    "),
        ("aaaa", "aa", "b"),
        ("aaa", "aa", "b"),
        ("abc", "x", "y"),
        ("", "x", "y"),
        ("x\r\ny\rz", "\r\n", "\n"),
        ("Creek creek Creek", "Creek", "River"),
        ("abab", "ab", "abab"),
        ("abc", "abc", ""),
    ];
    for (h, p, t) in cases {
        assert_eq!(replace_str(h, p, t), h.replace(p, t), "{:?} {:?} {:?}", h, p, t);
    }
    assert_eq!(replace_str("abc", "", "x"), "abc");
}

#[test]
fn tab_normalisation_is_idempotent() {
    for s in ["", "\t", "a\tb", "\t\t- item\n\t- x", "no tabs", "    spaces"] {
        let once = normalize_tabs_str(s);
        assert_eq!(once, s.replace('\t', "    "));
        assert!(!once.contains('\t'));
        assert_eq!(normalize_tabs_str(&once), once);
    }
    assert_eq!(normalize_tabs_str("\t- a"), "    - a");
}

#[test]
fn lines_match_the_standard_library() {
    for s in [
        "",
        "a",
        "a\n",
        "a\nb",
        "a\r\nb\r\n",
        "\n",
        "\n\n",
        "a\r",
        "a\rb\n",
        "\r\n",
        "x\n\ny\n",
        "a\r\r\nb",
    ] {
        let want: Vec<String> = s.lines().map(|l| l.to_string()).collect();
        let got: Vec<String> = split_lines(&chars(s)).iter().map(|l| chars_to_string(l)).collect();
        assert_eq!(got, want, "{:?}", s);
        let want: Vec<String> = s.split_inclusive('\n').map(|l| l.to_string()).collect();
        let got: Vec<String> =
            split_inclusive_chars(&chars(s)).iter().map(|l| chars_to_string(l)).collect();
        assert_eq!(got, want, "{:?}", s);
    }
    assert_eq!(line_spans_chars(&chars("ab\r\ncd\n\ne")), vec![(0, 2), (4, 6), (7, 7), (8, 9)]);
}

#[test]
fn joining_and_placeholders() {
    assert_eq!(join_strings(&vec![]), "");
    assert_eq!(join_strings(&vec!["a".to_string()]), "a");
    assert_eq!(join_strings(&vec!["a".to_string(), "".to_string(), "b".to_string()]), "a\n\nb");
    assert_eq!(shown("", "[None]"), "[None]");
    assert_eq!(shown("x", "[None]"), "x");
}

#[test]
fn decimal_numbers() {
    for n in [0u64, 1, 9, 10, 11, 99, 100, 12345, u64::MAX] {
        assert_eq!(decimal_string(n), n.to_string());
    }
}

#[test]
fn safe_truncate_never_splits_a_character() {
    assert_eq!(safe_truncate("hello", 10), "hello");
    assert_eq!(safe_truncate("hello", 5), "hello");
    assert_eq!(safe_truncate("hello", 3), "hel");
    assert_eq!(safe_truncate("hello", 0), "");
    let s = "a\u{e9}\u{6cb3}z";
    assert_eq!(safe_truncate(s, 1), "a");
    assert_eq!(safe_truncate(s, 2), "a");
    assert_eq!(safe_truncate(s, 3), "a\u{e9}");
    assert_eq!(safe_truncate(s, 5), "a\u{e9}");
    assert_eq!(safe_truncate(s, 6), "a\u{e9}\u{6cb3}");
    assert_eq!(safe_truncate(s, 7), s);
    assert_eq!(safe_truncate("\u{1f600}x", 3), "");
    assert_eq!(safe_truncate("\u{1f600}x", 4), "\u{1f600}");
}

#[test]
fn concise_output_loses_its_fences() {
    assert_eq!(clean_concise_output("  plain answer \n"), "plain answer");
    assert_eq!(clean_concise_output("```\nAdd intro\n```"), "Add intro");
    assert_eq!(clean_concise_output("```text\n  a\n b \n```  \n"), "a\n b");
    assert_eq!(clean_concise_output("```\nunclosed"), "```\nunclosed");
    assert_eq!(clean_concise_output("```"), "```");
    assert_eq!(clean_concise_output("```\n```"), "");
    assert_eq!(clean_concise_output(""), "");
}

#[test]
fn trim_char_strips_both_ends() {
    let t = |s: &str, c: char| chars_to_string(&trim_char_chars(&chars(s), c));
    assert_eq!(t("\"\"title\"", '"'), "title");
    assert_eq!(t("## a # b #", '#'), " a # b ");
    assert_eq!(t("####", '#'), "");
    assert_eq!(t("", '#'), "");
    assert_eq!(t("abc", '#'), "abc");
}
