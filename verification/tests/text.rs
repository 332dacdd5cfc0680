use wald::decimal::{format_decimal, parse_decimal};
use wald::order::{sort_strs, str_le};
use wald::split::{join_strs, lines_chars, split_str, trim_str};
use wald::string_set::StringSet;
use wald::text::{cat, contains, find_from, str_eq, to_chars};

fn chars(s: &str) -> Vec<char> {
    s.chars().collect()
}

#[test]
fn split_keeps_empty_pieces() {
    assert_eq!(split_str("", '/'), vec![""]);
    assert_eq!(split_str("a", '/'), vec!["a"]);
    assert_eq!(split_str("a/b", '/'), vec!["a", "b"]);
    assert_eq!(split_str("/a//b/", '/'), vec!["", "a", "", "b", ""]);
    assert_eq!(split_str("ä/ö", '/'), vec!["ä", "ö"]);
}

#[test]
fn join_undoes_split() {
    for s in ["", "a", "a/b/c", "//", "x/"] {
        assert_eq!(join_strs(&split_str(s, '/'), "/"), s);
    }
    assert_eq!(join_strs(&vec![], ", "), "");
    assert_eq!(
        join_strs(&vec!["a".to_string(), "b".to_string()], ", "),
        "a, b"
    );
}

#[test]
fn trim_takes_unicode_white_space_off_both_ends() {
    assert_eq!(trim_str("  a b \t\n"), "a b");
    assert_eq!(trim_str("\u{a0}\u{2003}x\u{3000}\u{85}"), "x");
    assert_eq!(trim_str(" \r\n "), "");
    assert_eq!(trim_str(""), "");
    assert_eq!(trim_str("\u{200b}x"), "\u{200b}x");
    for s in ["  a b ", "\u{1680}q\u{2028}", "x", "\u{feff}x "] {
        assert_eq!(trim_str(s), s.trim());
    }
}

#[test]
fn lines_are_cut_as_std_cuts_them() {
    for s in [
        "",
        "a",
        "a\n",
        "a\nb",
        "a\r\nb\r\n",
        "\n",
        "\n\n",
        "a\r",
        "a\r\r\n",
        "\r\n",
        "x\n\ny",
    ] {
        let mine: Vec<String> = lines_chars(&chars(s))
            .iter()
            .map(|l| l.iter().collect())
            .collect();
        let std: Vec<String> = s.lines().map(|l| l.to_string()).collect();
        assert_eq!(mine, std, "{:?}", s);
    }
}

#[test]
fn decimal_reads_what_std_reads() {
    for s in ["0", "7", "007", "+5", "255", "256", "", "+", "-1", "1 ", " 1", "1a", "++1", "99999999999999999999"] {
        let mine = parse_decimal(&chars(s), 255);
        let std = s.parse::<u8>().ok().map(|n| n as u64);
        assert_eq!(mine, std, "{:?}", s);
    }
    assert_eq!(parse_decimal(&chars("4294967295"), 0xffff_ffff), Some(4294967295));
    assert_eq!(parse_decimal(&chars("4294967296"), 0xffff_ffff), None);
}

#[test]
fn decimal_writes_without_leading_zeros() {
    assert_eq!(format_decimal(0), "0");
    assert_eq!(format_decimal(9), "9");
    assert_eq!(format_decimal(10), "10");
    assert_eq!(format_decimal(1203), "1203");
    assert_eq!(format_decimal(u64::MAX), "18446744073709551615");
}

#[test]
fn dictionary_order_is_the_order_of_strings() {
    let words = ["", "a", "ab", "b", "B", "aa", "é", "z", "a b", "a/b"];
    for a in words {
        for b in words {
            assert_eq!(str_le(a, b), a <= b, "{:?} {:?}", a, b);
        }
    }
}

#[test]
fn sorting_is_stable_and_complete() {
    let sorted = sort_strs(vec!["pear", "apple", "fig", "apple", "", "zebra", "Fig"]);
    assert_eq!(sorted, vec!["", "Fig", "apple", "apple", "fig", "pear", "zebra"]);
    assert!(sort_strs(vec![]).is_empty());
}

#[test]
fn finding_substrings() {
    let hay = to_chars("one two one");
    assert_eq!(find_from(&hay, &chars("one"), 0), Some(0));
    assert_eq!(find_from(&hay, &chars("one"), 1), Some(8));
    assert_eq!(find_from(&hay, &chars("one"), 9), None);
    assert_eq!(find_from(&hay, &chars(""), 11), Some(11));
    assert_eq!(find_from(&hay, &chars(""), 12), None);
    assert!(contains(&hay, &chars("two")));
    assert!(!contains(&hay, &chars("three")));
    assert!(str_eq("ä", "ä"));
    assert!(!str_eq("a", "ab"));
    assert_eq!(cat("a", "b"), "ab");
}

#[test]
fn string_set_keeps_insertion_order() {
    let mut set = StringSet::new();
    assert!(set.is_empty());
    assert!(set.insert("b".to_string()));
    assert!(set.insert("a".to_string()));
    assert!(!set.insert("b".to_string()));
    assert_eq!(set.len(), 2);
    assert!(set.contains("a"));
    assert!(!set.contains("c"));
    assert_eq!(set.to_vec(), vec!["b", "a"]);
    assert_eq!(set.get(1), "a");
}
