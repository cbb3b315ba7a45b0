use vortex::text::{
    chars_of, concat2, concat3, decimal_string, is_space, parse_i32, parse_u64, split_lines,
    split_tokens, str_contains, str_eq, trim,
};

fn chars(s: &str) -> Vec<char> {
    s.chars().collect()
}

fn text(v: &[char]) -> String {
    v.iter().collect()
}

const SAMPLES: &[&str] = &[
    "", " ", "a", " a", "a ", " a b  c ", "\ta\n", "a\nb", "a\n", "\n", "\n\n", "a\r\nb\r\n",
    "\u{a0}x\u{2003}y\u{3000}", "x\u{85}y", "x\u{200b}y", "42", "+42", "-42", "++42", "+-42",
    "4 2", "0", "-0", "+0", "007", "18446744073709551615", "18446744073709551616",
    "99999999999999999999999999", "2147483647", "2147483648", "-2147483648", "-2147483649",
    "+", "-", "١٢٣", "1_000", "0x10", "1e3", "usage_usec 12", "No such file or directory",
];

#[test]
fn white_space_is_that_of_unicode() {
    for code in 0u32..=0x10FFFF {
        if let Some(c) = char::from_u32(code) {
            assert_eq!(is_space(c), c.is_whitespace(), "character {:?}", c);
        }
    }
}

#[test]
fn characters_are_taken_in_order() {
    for s in SAMPLES {
        assert_eq!(chars_of(s), chars(s));
    }
}

#[test]
fn tokens_are_those_of_split_whitespace() {
    for s in SAMPLES {
        let got: Vec<String> = split_tokens(&chars(s)).iter().map(|t| text(t)).collect();
        let expected: Vec<String> = s.split_whitespace().map(|t| t.to_string()).collect();
        assert_eq!(got, expected, "{:?}", s);
    }
}

#[test]
fn lines_are_what_stands_between_line_feeds() {
    for s in SAMPLES {
        let got: Vec<String> = split_lines(&chars(s)).iter().map(|t| text(t)).collect();
        let expected: Vec<String> = s.split('\n').map(|t| t.to_string()).collect();
        assert_eq!(got, expected, "{:?}", s);
    }
    let got: Vec<String> = split_lines(&chars("a\nb\n")).iter().map(|t| text(t)).collect();
    assert_eq!(got, vec!["a", "b", ""]);
}

#[test]
fn trimming_is_that_of_the_standard_library() {
    for s in SAMPLES {
        assert_eq!(text(&trim(&chars(s))), s.trim(), "{:?}", s);
    }
}

#[test]
fn numbers_are_read_as_the_standard_library_reads_them() {
    for s in SAMPLES {
        assert_eq!(parse_u64(&chars(s)), s.parse::<u64>().ok(), "{:?}", s);
        assert_eq!(parse_i32(&chars(s)), s.parse::<i32>().ok(), "{:?}", s);
    }
    assert_eq!(parse_u64(&chars("18446744073709551615")), Some(u64::MAX));
    assert_eq!(parse_i32(&chars("-2147483648")), Some(i32::MIN));
}

#[test]
fn numbers_are_written_in_decimal() {
    for n in [0u64, 1, 9, 10, 11, 99, 100, 101, 4711, 100_000, 536_870_912, u64::MAX - 1, u64::MAX] {
        assert_eq!(decimal_string(n), n.to_string());
        assert_eq!(parse_u64(&chars(&decimal_string(n))), Some(n));
    }
}

#[test]
fn signed_numbers_are_read_back() {
    for i in [0i32, 1, -1, 9, -9, 10, -10, 4711, -4711, i32::MAX, i32::MIN, i32::MIN + 1] {
        assert_eq!(parse_i32(&chars(&i.to_string())), Some(i));
        assert_eq!(vortex::ProcessId::from_raw(i).to_string(), i.to_string());
    }
}

#[test]
fn searching_is_that_of_the_standard_library() {
    for hay in SAMPLES {
        for needle in ["", " ", "a", "42", "No such file", "file or", "\n", "b\r", "424"] {
            assert_eq!(str_contains(hay, needle), hay.contains(needle), "{:?} in {:?}", needle, hay);
        }
        for other in SAMPLES {
            assert_eq!(str_eq(hay, other), hay == other);
            assert_eq!(str_contains(hay, other), hay.contains(other));
        }
    }
    assert!(str_contains("Failed to read cpu.stat: No such file or directory (os error 2)", "No such file"));
    assert!(!str_contains("No such fil", "No such file"));
}

#[test]
fn texts_are_joined_in_order() {
    assert_eq!(concat2("ab", "cd"), "abcd");
    assert_eq!(concat2("", ""), "");
    assert_eq!(concat3("a", ": ", "b"), "a: b");
}
