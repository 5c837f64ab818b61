use cx_proxy::text::buffer::{rows_contain, same_chars};
use cx_proxy::text::convert::{chars_of, str_equals, str_has_prefix, string_of};
use cx_proxy::text::lines::{push_joined, split_lines};
use cx_proxy::text::matching::{
    find_char, has_at, has_char, has_first_char, has_prefix, has_substr, has_suffix, is_literal,
    last_field_of, without_prefixes,
};
use cx_proxy::text::number::{push_decimal, push_signed_decimal};
use cx_proxy::text::space::{blank, trimmed};

fn chars(s: &str) -> Vec<char> {
    s.chars().collect()
}

fn lines_of(s: &str) -> Vec<String> {
    split_lines(&chars(s)).iter().map(|l| l.iter().collect()).collect()
}

#[test]
fn strings_and_characters() {
    for s in ["", "a", "héllo …", "a\nb\r\n\t"] {
        assert_eq!(chars_of(s), chars(s));
        assert_eq!(string_of(&chars(s)), s);
    }
}

#[test]
fn lines_are_split_as_the_standard_library_splits_them() {
    for s in [
        "", "\n", "a", "a\n", "a\nb", "a\r\nb\r\n", "a\r", "\r", "\r\n", "a\r\r\n", "\n\n", "a\n\nb\n\n",
        "\rx\ny", "é\n…", "a\u{2028}b\n",
    ] {
        let expected: Vec<String> = s.lines().map(|l| l.to_string()).collect();
        assert_eq!(lines_of(s), expected, "{s:?}");
    }
}

#[test]
fn trimming_is_that_of_the_standard_library() {
    for s in [
        "", " ", "a", "  a b  ", "\t\r\n x \u{a0}\u{3000}", "\u{85}\u{1680}y\u{2000}\u{200a}\u{2028}\u{2029}\u{202f}\u{205f}",
        "\u{200b}z\u{200b}", "\u{b}\u{c}w\u{1c}", "\u{feff}v",
    ] {
        assert_eq!(string_of(&trimmed(&chars(s))), s.trim(), "{s:?}");
        assert_eq!(blank(&chars(s)), s.trim().is_empty(), "{s:?}");
    }
}

#[test]
fn whitespace_is_that_of_the_standard_library() {
    for code in 0..0x3100u32 {
        if let Some(c) = char::from_u32(code) {
            assert_eq!(blank(&vec![c]), c.is_whitespace(), "{code:x}");
        }
    }
}

#[test]
fn prefixes_suffixes_and_occurrences() {
    let s = chars("warning: unused");
    assert!(has_prefix(&s, "warning"));
    assert!(has_prefix(&s, ""));
    assert!(!has_prefix(&s, "warning: unused import"));
    assert!(!has_prefix(&s, "Warning"));
    assert!(has_suffix(&s, "unused"));
    assert!(has_suffix(&s, ""));
    assert!(!has_suffix(&s, "x warning: unused"));
    assert!(has_substr(&s, "g: u"));
    assert!(has_substr(&s, ""));
    assert!(has_substr(&s, "warning: unused"));
    assert!(!has_substr(&s, "unused "));
    assert!(has_substr(&chars(""), ""));
    assert!(!has_substr(&chars(""), "a"));
    assert!(has_at(&s, 9, "unused"));
    assert!(!has_at(&s, 10, "unused"));
    assert!(has_at(&s, 15, ""));
    assert!(has_char(&s, ':'));
    assert!(!has_char(&s, '|'));
    assert!(has_first_char(&s, 'w'));
    assert!(!has_first_char(&chars(""), 'w'));
    assert!(is_literal(&s, "warning: unused"));
    assert!(!is_literal(&s, "warning: unuse"));
    assert!(!is_literal(&s, "warning: unused "));
    assert!(str_equals("é", "é"));
    assert!(!str_equals("e", "é"));
    assert!(str_has_prefix("--format=x", "--format"));
    assert!(!str_has_prefix("-f", "--format"));
    assert!(same_chars(&chars("ab"), &chars("ab")));
    assert!(!same_chars(&chars("ab"), &chars("abc")));
    assert!(!same_chars(&chars("ab"), &chars("ac")));
    let rows = vec![chars("a"), chars("b")];
    assert!(rows_contain(&rows, &chars("b")));
    assert!(!rows_contain(&rows, &chars("c")));
}

#[test]
fn fields_and_prefixes() {
    let field = |s: &str| string_of(&last_field_of(&chars(s), ' '));
    assert_eq!(field("diff --git a/x b/x"), "b/x");
    assert_eq!(field("single"), "single");
    assert_eq!(field("ends with space "), "");
    assert_eq!(field(""), "");
    for s in ["diff --git a/x b/x", "single", "ends ", ""] {
        assert_eq!(field(s), s.split(' ').next_back().unwrap());
    }
    let strip = |s: &str, p: &str| string_of(&without_prefixes(&chars(s), p));
    assert_eq!(strip("b/b/x", "b/"), "x");
    assert_eq!(strip("ab/x", "b/"), "ab/x");
    assert_eq!(strip("b/", "b/"), "");
    assert_eq!(strip("abc", ""), "abc");
    for (s, p) in [("b/b/x", "b/"), ("* * m", "* "), ("On branch x", "On branch "), ("aaa", "aa")] {
        assert_eq!(strip(s, p), s.trim_start_matches(p));
    }
    assert_eq!(find_char(&chars("a:b:c"), 0, ':'), 1);
    assert_eq!(find_char(&chars("a:b:c"), 2, ':'), 3);
    assert_eq!(find_char(&chars("a:b:c"), 4, ':'), 5);
}

#[test]
fn numbers_in_decimal() {
    let decimal = |n: usize| {
        let mut out = Vec::new();
        push_decimal(&mut out, n);
        string_of(&out)
    };
    for n in [0, 1, 9, 10, 11, 99, 100, 101, 12345, usize::MAX] {
        assert_eq!(decimal(n), n.to_string());
    }
    let signed = |n: i32| {
        let mut out = chars("x");
        push_signed_decimal(&mut out, n);
        string_of(&out)
    };
    for n in [0, 1, -1, 10, -10, 255, -256, i32::MAX, i32::MIN] {
        assert_eq!(signed(n), format!("x{n}"));
    }
}

#[test]
fn joining() {
    let join = |parts: &[&str], sep: &str| {
        let mut out = chars(">");
        push_joined(&mut out, &parts.iter().map(|p| chars(p)).collect(), sep);
        string_of(&out)
    };
    assert_eq!(join(&[], ", "), ">");
    assert_eq!(join(&["a"], ", "), ">a");
    assert_eq!(join(&["a", "", "b"], ", "), ">a, , b");
    assert_eq!(join(&["", ""], "\n"), ">\n");
}
