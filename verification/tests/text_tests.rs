use akinator::text::{
    char_vec, contains, i32_text, is_float, parse_i32, parse_u16, starts_with, str_eq,
};

#[test]
fn char_vec_keeps_every_character() {
    assert_eq!(char_vec("aé漢"), vec!['a', 'é', '漢']);
    assert!(char_vec("").is_empty());
}

#[test]
fn str_eq_compares_characters() {
    assert!(str_eq("abc", "abc"));
    assert!(!str_eq("abc", "abd"));
    assert!(!str_eq("abc", "ab"));
    assert!(str_eq("", ""));
}

#[test]
fn contains_finds_substrings() {
    assert!(contains("let's play akinator now", "akinator"));
    assert!(contains("akinator", "akinator"));
    assert!(!contains("akinato", "akinator"));
    assert!(contains("anything", ""));
    assert!(contains("みなさんおいすー", "おいすー"));
    assert!(!contains("", "a"));
}

#[test]
fn starts_with_checks_prefix() {
    assert!(starts_with("ghp_abc", "ghp_"));
    assert!(!starts_with("gh_abc", "ghp_"));
    assert!(!starts_with("ghp", "ghp_"));
    assert!(starts_with("x", ""));
}

#[test]
fn parse_i32_agrees_with_std() {
    let cases = [
        "42", "-17", "+5", "", "-", "+", "2147483647", "2147483648", "-2147483648",
        "-2147483649", "12a", " 1", "007", "-0", "+-1", "99999999999999999999",
    ];
    for c in cases {
        assert_eq!(parse_i32(c), c.parse::<i32>().ok(), "case {:?}", c);
    }
    assert_eq!(parse_i32("-2147483648"), Some(i32::MIN));
    assert_eq!(parse_i32("12"), Some(12));
}

#[test]
fn parse_u16_agrees_with_std() {
    let cases = ["0", "+0", "-0", "65535", "65536", "", "+", "3306", "-1", "33 06", "٣"];
    for c in cases {
        assert_eq!(parse_u16(c), c.parse::<u16>().ok(), "case {:?}", c);
    }
    assert_eq!(parse_u16("3306"), Some(3306));
}

#[test]
fn i32_text_agrees_with_to_string_and_reads_back() {
    for n in [0, 7, 10, 42, -1, -10, 1234567, i32::MAX, i32::MIN] {
        assert_eq!(i32_text(n), n.to_string());
        assert_eq!(parse_i32(&i32_text(n)), Some(n));
    }
}

#[test]
fn is_float_agrees_with_std() {
    let cases = [
        "0", "0.0", "41.5", "1.", ".5", ".", "", "+", "-", "+.5", "-1e5", "1e", "1e+5", "1E-5",
        "1.e5", ".e5", "e5", "1e5.0", "1..2", "1.2.3", "inf", "-inf", "+Infinity", "INFINITY",
        "infin", "nan", "NaN", "-nan", "+NAN", " 1", "1 ", "1_000", "0x10", "١", "abc",
        "1e99999999999999999999", "00012.34000", "++1", "1e--5", "iNf",
    ];
    for c in cases {
        assert_eq!(is_float(c), c.parse::<f32>().is_ok(), "case {:?}", c);
    }
}
