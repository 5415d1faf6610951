use raider_io::text::{decimal_text, parse_u8, same_text, split_on, to_chars};

#[test]
fn same_text_compares_characters() {
    assert!(same_text("", ""));
    assert!(same_text("bfa", "bfa"));
    assert!(!same_text("bfa", "bfb"));
    assert!(!same_text("bfa", "bf"));
    assert!(!same_text("bfa", "BFA"));
    assert!(same_text("Mag'har Orc", "Mag'har Orc"));
    assert!(same_text("héllo", "héllo"));
    assert!(!same_text("héllo", "hello"));
}

#[test]
fn to_chars_keeps_every_character() {
    assert_eq!(to_chars(""), Vec::<char>::new());
    assert_eq!(to_chars("a-é"), vec!['a', '-', 'é']);
}

#[test]
fn split_on_cuts_at_every_separator() {
    assert_eq!(split_on("", '-'), vec![""]);
    assert_eq!(split_on("abc", '-'), vec!["abc"]);
    assert_eq!(split_on("a-b-c", '-'), vec!["a", "b", "c"]);
    assert_eq!(split_on("-a-", '-'), vec!["", "a", ""]);
    assert_eq!(split_on("--", '-'), vec!["", "", ""]);
    assert_eq!(split_on("é-ü", '-'), vec!["é", "ü"]);
    assert_eq!(split_on("a,b", ','), vec!["a", "b"]);
}

#[test]
fn split_on_agrees_with_the_standard_library() {
    for text in ["", "-", "a", "a-", "-a", "a--b", "season-bfa-1", "x-y-z-"] {
        let expected: Vec<&str> = text.split('-').collect();
        assert_eq!(split_on(text, '-'), expected);
    }
}

#[test]
fn decimal_text_writes_without_leading_zeros() {
    assert_eq!(decimal_text(0), "0");
    assert_eq!(decimal_text(7), "7");
    assert_eq!(decimal_text(10), "10");
    assert_eq!(decimal_text(99), "99");
    assert_eq!(decimal_text(100), "100");
    assert_eq!(decimal_text(109), "109");
    assert_eq!(decimal_text(255), "255");
    for n in 0..=255u8 {
        assert_eq!(decimal_text(n), n.to_string());
    }
}

#[test]
fn parse_u8_reads_decimal_numbers() {
    assert_eq!(parse_u8("0"), Some(0));
    assert_eq!(parse_u8("9"), Some(9));
    assert_eq!(parse_u8("255"), Some(255));
    assert_eq!(parse_u8("+12"), Some(12));
    assert_eq!(parse_u8("000"), Some(0));
    assert_eq!(parse_u8("0255"), Some(255));
}

#[test]
fn parse_u8_refuses_what_is_no_number_below_256() {
    assert_eq!(parse_u8(""), None);
    assert_eq!(parse_u8("+"), None);
    assert_eq!(parse_u8("++1"), None);
    assert_eq!(parse_u8("-1"), None);
    assert_eq!(parse_u8("256"), None);
    assert_eq!(parse_u8("300"), None);
    assert_eq!(parse_u8("99999999999999999999"), None);
    assert_eq!(parse_u8("1 "), None);
    assert_eq!(parse_u8(" 1"), None);
    assert_eq!(parse_u8("1_0"), None);
    assert_eq!(parse_u8("٣"), None);
    assert_eq!(parse_u8("12a"), None);
}

#[test]
fn parse_u8_agrees_with_the_standard_library() {
    for text in [
        "", "+", "0", "+0", "-0", "1", "01", "255", "256", "+255", "+256", "2550", "25a", "a25",
        "1+", "+-1",
    ] {
        assert_eq!(parse_u8(text), text.parse::<u8>().ok());
    }
    for n in 0..=255u8 {
        assert_eq!(parse_u8(&decimal_text(n)), Some(n));
    }
}
