use pool_fetcher::text::{chars_of, parse_u32, parse_u8, push_decimal};

#[test]
fn parse_u32_reads_plain_numbers() {
    assert_eq!(parse_u32("3000"), Some(3000));
    assert_eq!(parse_u32("0"), Some(0));
    assert_eq!(parse_u32("007"), Some(7));
    assert_eq!(parse_u32("4294967295"), Some(u32::MAX));
}

#[test]
fn parse_u32_accepts_a_plus_sign() {
    assert_eq!(parse_u32("+500"), Some(500));
}

#[test]
fn parse_u32_refuses_bad_text() {
    assert_eq!(parse_u32(""), None);
    assert_eq!(parse_u32("+"), None);
    assert_eq!(parse_u32("-"), None);
    assert_eq!(parse_u32("-5"), None);
    assert_eq!(parse_u32(" 5"), None);
    assert_eq!(parse_u32("5 "), None);
    assert_eq!(parse_u32("1e3"), None);
    assert_eq!(parse_u32("0.3"), None);
    assert_eq!(parse_u32("4294967296"), None);
    assert_eq!(parse_u32("99999999999999999999"), None);
}

#[test]
fn parse_u8_bounds() {
    assert_eq!(parse_u8("18"), Some(18));
    assert_eq!(parse_u8("255"), Some(255));
    assert_eq!(parse_u8("256"), None);
    assert_eq!(parse_u8("６"), None);
}

#[test]
fn parse_agrees_with_std() {
    let samples = [
        "", "0", "1", "+1", "-1", "+", "-", "00", "255", "256", "65535", "4294967295",
        "4294967296", "12a", "a12", " ", "+-1", "--1", "++1", "1_000", "٣", "18",
    ];
    for s in samples {
        assert_eq!(parse_u32(s), s.parse::<u32>().ok(), "u32 {:?}", s);
        assert_eq!(parse_u8(s), s.parse::<u8>().ok(), "u8 {:?}", s);
    }
}

#[test]
fn push_decimal_writes_decimal_text() {
    for n in [0usize, 7, 10, 99, 1000, 5000, 123456789, usize::MAX] {
        let mut s = String::from("x=");
        push_decimal(&mut s, n);
        assert_eq!(s, format!("x={}", n));
    }
}

#[test]
fn decimal_text_parses_back() {
    for n in [0u32, 5, 3000, 65535, u32::MAX] {
        let mut s = String::new();
        push_decimal(&mut s, n as usize);
        assert_eq!(parse_u32(&s), Some(n));
    }
}

#[test]
fn chars_of_keeps_every_character() {
    assert_eq!(chars_of("aé中\u{1F600}"), vec!['a', 'é', '中', '\u{1F600}']);
    assert!(chars_of("").is_empty());
}
