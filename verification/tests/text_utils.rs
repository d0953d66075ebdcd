use openfsd::text::{
    chars_of, clone_strings, decimal_string, find_char, is_whitespace, join_with, push_decimal,
    same_text, split_on, string_of, trim_bounds,
};

fn strings(items: &[&str]) -> Vec<String> {
    items.iter().map(|s| s.to_string()).collect()
}

#[test]
fn white_space_is_what_std_calls_white_space() {
    let mut n: u32 = 0;
    while n <= 0x10FFFF {
        if let Some(c) = char::from_u32(n) {
            assert_eq!(is_whitespace(c), c.is_whitespace(), "U+{:04X}", n);
        }
        n += 1;
    }
}

#[test]
fn chars_and_strings_convert_back_and_forth() {
    let v = chars_of("h\u{e9}llo");
    assert_eq!(v, vec!['h', '\u{e9}', 'l', 'l', 'o']);
    assert_eq!(string_of(&v, 0, 5), "h\u{e9}llo");
    assert_eq!(string_of(&v, 1, 3), "\u{e9}l");
    assert_eq!(string_of(&v, 2, 2), "");
}

#[test]
fn trim_bounds_match_std_trim() {
    for s in ["", " ", "a", "  a b  ", "\r\nabc\r\n", "\u{2003}x\u{3000}", "\t\n\u{b}\u{c}\r "] {
        let v = chars_of(s);
        let (lo, hi) = trim_bounds(&v);
        assert_eq!(string_of(&v, lo, hi), s.trim(), "{:?}", s);
    }
}

#[test]
fn find_char_gives_first_position_or_end() {
    let v = chars_of("ab:cd:e");
    assert_eq!(find_char(&v, 0, 7, ':'), 2);
    assert_eq!(find_char(&v, 3, 7, ':'), 5);
    assert_eq!(find_char(&v, 6, 7, ':'), 7);
    assert_eq!(find_char(&v, 0, 2, ':'), 2);
    assert_eq!(find_char(&v, 4, 4, ':'), 4);
}

#[test]
fn split_on_matches_std_split() {
    for s in ["", ":", "a", "a:b", "a::b", ":a:", "::", "x:y:z"] {
        let v = chars_of(s);
        let expected: Vec<String> = s.split(':').map(|p| p.to_string()).collect();
        assert_eq!(split_on(&v, 0, v.len(), ':'), expected, "{:?}", s);
    }
}

#[test]
fn join_with_matches_std_join() {
    assert_eq!(join_with(&strings(&[]), ':'), "");
    assert_eq!(join_with(&strings(&["a"]), ':'), "a");
    assert_eq!(join_with(&strings(&["a", "b", "c"]), ':'), "a:b:c");
    assert_eq!(join_with(&strings(&["", "", ""]), ':'), "::");
}

#[test]
fn join_undoes_split() {
    for s in ["", ":", "a:b", "a::b:", ":::"] {
        let v = chars_of(s);
        assert_eq!(join_with(&split_on(&v, 0, v.len(), ':'), ':'), s);
    }
}

#[test]
fn decimal_string_writes_every_sign_and_size() {
    assert_eq!(decimal_string(0), "0");
    assert_eq!(decimal_string(7), "7");
    assert_eq!(decimal_string(11), "11");
    assert_eq!(decimal_string(-1), "-1");
    assert_eq!(decimal_string(1090), "1090");
    assert_eq!(decimal_string(i32::MIN as i64), "-2147483648");
    assert_eq!(decimal_string(i64::MAX), "9223372036854775807");
    assert_eq!(decimal_string(i64::MIN), "-9223372036854775808");
}

#[test]
fn same_text_compares_characters() {
    assert!(same_text("DI", "DI"));
    assert!(!same_text("DI", "ID"));
    assert!(!same_text("DI", "DIX"));
    assert!(same_text("", ""));
}

#[test]
fn copies_are_equal_to_their_sources() {
    let v = strings(&["a", "", "c"]);
    assert_eq!(clone_strings(&v), v);
}

#[test]
fn push_decimal_appends_the_numeral() {
    let mut s = "port ".to_string();
    push_decimal(&mut s, 6809);
    assert_eq!(s, "port 6809");
    push_decimal(&mut s, 0);
    assert_eq!(s, "port 68090");
    let mut t = String::new();
    push_decimal(&mut t, u64::MAX);
    assert_eq!(t, "18446744073709551615");
}
