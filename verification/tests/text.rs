use jobshell::dict::Dict;
use jobshell::text::{
    char_is_space, chars_of, format_i32, format_u64, format_usize, hex_digit, join, parse_i32,
    parse_usize, same_text, split, string_of, trim_end, truthy, words,
};

#[test]
fn white_space_is_what_std_takes_for_it() {
    for n in 0..0x3100u32 {
        if let Some(c) = char::from_u32(n) {
            assert_eq!(char_is_space(c), c.is_whitespace(), "{:x}", n);
        }
    }
}

#[test]
fn numbers_are_formatted_in_decimal() {
    assert_eq!(format_u64(0), "0");
    assert_eq!(format_u64(7), "7");
    assert_eq!(format_u64(1234567890), "1234567890");
    assert_eq!(format_u64(u64::MAX), "18446744073709551615");
    assert_eq!(format_usize(42), "42");
    assert_eq!(format_i32(0), "0");
    assert_eq!(format_i32(-1), "-1");
    assert_eq!(format_i32(i32::MAX), "2147483647");
    assert_eq!(format_i32(i32::MIN), "-2147483648");
}

#[test]
fn numbers_are_read_as_std_reads_them() {
    let cases = [
        "0", "7", "007", "+5", "-5", "-0", "2147483647", "2147483648", "-2147483648",
        "-2147483649", "", "+", "-", "1a", " 1", "1 ", "--1", "99999999999999999999",
    ];
    for s in cases {
        assert_eq!(parse_i32(s), s.parse::<i32>().ok(), "{:?}", s);
    }
    assert_eq!(parse_usize("0"), Some(0));
    assert_eq!(parse_usize("4294967295"), Some(4294967295));
    assert_eq!(parse_usize("4294967296"), None);
    assert_eq!(parse_usize("+1"), None);
    assert_eq!(parse_usize(""), None);
    assert_eq!(parse_usize("12x"), None);
}

#[test]
fn hex_digits_have_their_values() {
    assert_eq!(hex_digit('0'), Some(0));
    assert_eq!(hex_digit('9'), Some(9));
    assert_eq!(hex_digit('a'), Some(10));
    assert_eq!(hex_digit('F'), Some(15));
    assert_eq!(hex_digit('g'), None);
}

#[test]
fn truthy_words_are_four() {
    for s in ["1", "y", "Y", "yes", "YES", "yEs", "true", "TRUE", "True"] {
        assert!(truthy(s), "{}", s);
        assert!(matches!(s.to_lowercase().as_str(), "1" | "y" | "yes" | "true"));
    }
    for s in ["", "0", "no", "n", "false", "yess", " yes", "tru", "11", "\u{212a}"] {
        assert!(!truthy(s), "{}", s);
    }
}

#[test]
fn trim_end_takes_white_space_from_the_end_only() {
    assert_eq!(trim_end("hello\n"), "hello");
    assert_eq!(trim_end("  a b \t\r\n\n"), "  a b");
    assert_eq!(trim_end(""), "");
    assert_eq!(trim_end(" \n "), "");
    assert_eq!(trim_end("x\u{3000}"), "x");
}

#[test]
fn split_gives_one_piece_more_than_separators() {
    let list = |v: Vec<String>| v;
    assert_eq!(list(split("a\nb\nc", '\n')), vec!["a", "b", "c"]);
    assert_eq!(list(split("", '\n')), vec![""]);
    assert_eq!(list(split("a\n", '\n')), vec!["a", ""]);
    assert_eq!(list(split("\n\nx", '\n')), vec!["", "", "x"]);
    for s in ["a\nb", "", "\n", "x\n\ny\n"] {
        let want: Vec<String> = s.split('\n').map(String::from).collect();
        assert_eq!(split(s, '\n'), want);
    }
}

#[test]
fn words_are_the_runs_between_white_space() {
    for s in ["a b", "  a \t b\nc  ", "", "   ", "one", "a\u{a0}b"] {
        let want: Vec<String> = s.split_whitespace().map(String::from).collect();
        assert_eq!(words(s), want, "{:?}", s);
    }
}

#[test]
fn join_puts_the_separator_between() {
    let v = |l: &[&str]| l.iter().map(|s| s.to_string()).collect::<Vec<_>>();
    assert_eq!(join(&v(&["a", "b", "c"]), " "), "a b c");
    assert_eq!(join(&v(&["a"]), ", "), "a");
    assert_eq!(join(&v(&[]), " "), "");
    assert_eq!(join(&v(&["", ""]), "-"), "-");
}

#[test]
fn characters_and_strings_convert() {
    let v = chars_of("héllo");
    assert_eq!(v, vec!['h', 'é', 'l', 'l', 'o']);
    assert_eq!(string_of(&v, 1, 4), "éll");
    assert_eq!(string_of(&v, 2, 2), "");
    assert!(same_text("abc", "abc"));
    assert!(!same_text("abc", "abd"));
    assert!(!same_text("abc", "ab"));
}

#[test]
fn dictionary_keeps_one_value_per_name() {
    let mut d: Dict<i32> = Dict::new();
    assert_eq!(d.len(), 0);
    d.insert("a".to_string(), 1);
    d.insert("b".to_string(), 2);
    d.insert("a".to_string(), 3);
    assert_eq!(d.len(), 2);
    assert_eq!(d.get("a"), Some(&3));
    assert_eq!(d.get("b"), Some(&2));
    assert_eq!(d.get("c"), None);
    assert!(d.contains("b"));
    assert_eq!(d.name_at(0), "a");
    assert_eq!(d.value_at(1), &2);
    d.remove("a");
    d.remove("zzz");
    assert_eq!(d.len(), 1);
    assert_eq!(d.get("a"), None);
    assert_eq!(d.name_at(0), "b");
}
