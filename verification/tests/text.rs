use dlt_user::text::{
    chars_contain, chars_to_u8_4, parse_i32, parse_i8, parse_u32, parse_u64, same_text,
    split_fields, str_chars, str_to_u8_4,
};

#[test]
fn unsigned_numbers() {
    assert_eq!(parse_u32("0"), Some(0));
    assert_eq!(parse_u32("600000"), Some(600000));
    assert_eq!(parse_u32("+42"), Some(42));
    assert_eq!(parse_u32("0000000000000000000000042"), Some(42));
    assert_eq!(parse_u32("4294967295"), Some(u32::MAX));
    assert_eq!(parse_u32("4294967296"), None);
    assert_eq!(parse_u32("99999999999999999999999999999999999999999999"), None);
    assert_eq!(parse_u32(""), None);
    assert_eq!(parse_u32("+"), None);
    assert_eq!(parse_u32("-"), None);
    assert_eq!(parse_u32("-0"), None);
    assert_eq!(parse_u32("-1"), None);
    assert_eq!(parse_u32("++1"), None);
    assert_eq!(parse_u32(" 1"), None);
    assert_eq!(parse_u32("1 "), None);
    assert_eq!(parse_u32("1_000"), None);
    assert_eq!(parse_u32("0x10"), None);
    assert_eq!(parse_u32("\u{661}"), None);
    assert_eq!(parse_u64("18446744073709551615"), Some(u64::MAX));
    assert_eq!(parse_u64("18446744073709551616"), None);
    assert_eq!(parse_u64("4"), Some(4));
    assert_eq!(parse_u64("-4"), None);
}

#[test]
fn signed_numbers() {
    assert_eq!(parse_i32("1"), Some(1));
    assert_eq!(parse_i32("-1"), Some(-1));
    assert_eq!(parse_i32("+1"), Some(1));
    assert_eq!(parse_i32("-0"), Some(0));
    assert_eq!(parse_i32("2147483647"), Some(i32::MAX));
    assert_eq!(parse_i32("2147483648"), None);
    assert_eq!(parse_i32("-2147483648"), Some(i32::MIN));
    assert_eq!(parse_i32("-2147483649"), None);
    assert_eq!(parse_i32("-"), None);
    assert_eq!(parse_i32("+-1"), None);
    assert_eq!(parse_i32("--1"), None);
    assert_eq!(parse_i32("1-"), None);
    assert_eq!(parse_i8("127"), Some(127));
    assert_eq!(parse_i8("128"), None);
    assert_eq!(parse_i8("-128"), Some(-128));
    assert_eq!(parse_i8("-129"), None);
    assert_eq!(parse_i8("-000000000128"), Some(-128));
    assert_eq!(parse_i8("3"), Some(3));
    assert_eq!(parse_i8(""), None);
}

#[test]
fn numbers_agree_with_the_standard_library() {
    let samples = [
        "", "0", "7", "-7", "+7", "+", "-", "007", "-007", "255", "256", "-255", "1e3", "12a",
        "a12", " 12", "12 ", "2147483647", "2147483648", "-2147483648", "-2147483649",
        "4294967295", "4294967296", "+4294967295", "-4294967295", "127", "128", "-128", "-129",
        "18446744073709551615", "18446744073709551616", "\u{ff11}", "1\u{0}",
    ];
    for text in samples {
        assert_eq!(parse_u32(text), text.parse::<u32>().ok(), "{:?}", text);
        assert_eq!(parse_u64(text), text.parse::<u64>().ok(), "{:?}", text);
        assert_eq!(parse_i32(text), text.parse::<i32>().ok(), "{:?}", text);
        assert_eq!(parse_i8(text), text.parse::<i8>().ok(), "{:?}", text);
    }
}

fn pieces(text: &str, sep: char) -> Vec<String> {
    split_fields(&str_chars(text), sep)
        .into_iter()
        .map(|piece| piece.into_iter().collect())
        .collect()
}

#[test]
fn fields_are_cut_at_the_separator() {
    assert_eq!(pieces("1234:4567:3", ':'), vec!["1234", "4567", "3"]);
    assert_eq!(pieces("1234:4567:3:", ':'), vec!["1234", "4567", "3"]);
    assert_eq!(pieces("a::b", ':'), vec!["a", "", "b"]);
    assert_eq!(pieces("::", ':'), vec!["", ""]);
    assert_eq!(pieces(":", ':'), vec![""]);
    assert_eq!(pieces("", ':'), Vec::<String>::new());
    assert_eq!(pieces("abc", ':'), vec!["abc"]);
    assert_eq!(pieces(":abc", ':'), vec!["", "abc"]);
    for text in ["", ":", "::", "a", "a:", ":a", "a:b", "a:b:", "a::b:", "::a::", "\u{e9}:\u{20ac}"] {
        let expected: Vec<String> = text.split_terminator(':').map(String::from).collect();
        assert_eq!(pieces(text, ':'), expected, "{:?}", text);
    }
}

#[test]
fn characters_and_identifiers() {
    assert_eq!(str_chars("a\u{e9}\u{20ac}"), vec!['a', '\u{e9}', '\u{20ac}']);
    assert!(str_chars("").is_empty());
    assert_eq!(str_to_u8_4("ECU1"), [69, 67, 85, 49]);
    assert_eq!(str_to_u8_4("EC"), [69, 67, 0, 0]);
    assert_eq!(str_to_u8_4("ECU12345"), [69, 67, 85, 49]);
    assert_eq!(chars_to_u8_4(&vec!['\u{1f600}', 'a']), [0x00, 97, 0, 0]);
    assert_eq!(chars_to_u8_4(&vec!['\u{151}']), [0x51, 0, 0, 0]);
    assert!(chars_contain(&str_chars("a_b"), '_'));
    assert!(!chars_contain(&str_chars("a-b"), '_'));
    assert!(!chars_contain(&str_chars(""), '_'));
    assert!(same_text("ForceOn", "ForceOn"));
    assert!(!same_text("ForceOn", "ForceOff"));
    assert!(!same_text("ForceOn", "ForceO"));
    assert!(same_text("", ""));
}
