use proc_ctl::decimal::{parse_decimal, write_decimal};

fn parse(text: &[u8], max: u32) -> Option<u32> {
    parse_decimal(text, 0, text.len(), max)
}

#[test]
fn parses_plain_digits() {
    assert_eq!(Some(80), parse(b"80", 65535));
    assert_eq!(Some(0), parse(b"0", 65535));
    assert_eq!(Some(65535), parse(b"65535", 65535));
    assert_eq!(Some(4294967295), parse(b"4294967295", u32::MAX));
}

#[test]
fn parses_leading_plus_and_zeros() {
    assert_eq!(Some(80), parse(b"+80", 65535));
    assert_eq!(Some(80), parse(b"0000080", 65535));
    assert_eq!(Some(7), parse(b"+000000000000000000000000000007", 65535));
}

#[test]
fn rejects_what_is_no_number() {
    assert_eq!(None, parse(b"", 65535));
    assert_eq!(None, parse(b"+", 65535));
    assert_eq!(None, parse(b"-1", 65535));
    assert_eq!(None, parse(b"++1", 65535));
    assert_eq!(None, parse(b"12a", 65535));
    assert_eq!(None, parse(b" 12", 65535));
    assert_eq!(None, parse(b"12 ", 65535));
    assert_eq!(None, parse(b"1+2", 65535));
    assert_eq!(None, parse(&[0x31, 0xff], 65535));
    assert_eq!(None, parse("١٢".as_bytes(), 65535));
}

#[test]
fn rejects_numbers_above_the_bound() {
    assert_eq!(None, parse(b"65536", 65535));
    assert_eq!(None, parse(b"4294967296", u32::MAX));
    assert_eq!(None, parse(b"99999999999999999999999999", u32::MAX));
    assert_eq!(None, parse(b"1", 0));
    assert_eq!(Some(0), parse(b"0", 0));
}

#[test]
fn parses_a_range_of_the_bytes() {
    let text = b"p1234\0";
    assert_eq!(Some(1234), parse_decimal(text, 1, 5, u32::MAX));
    assert_eq!(Some(23), parse_decimal(text, 2, 4, u32::MAX));
    assert_eq!(None, parse_decimal(text, 0, 5, u32::MAX));
    assert_eq!(None, parse_decimal(text, 1, 6, u32::MAX));
    assert_eq!(None, parse_decimal(text, 3, 3, u32::MAX));
}

#[test]
fn parse_agrees_with_std() {
    let texts: [&str; 10] = ["0", "1", "+1", "007", "65535", "65536", "", "+", "-0", "4x"];
    for text in texts {
        assert_eq!(
            text.parse::<u16>().ok().map(u32::from),
            parse(text.as_bytes(), 65535)
        );
        assert_eq!(text.parse::<u32>().ok(), parse(text.as_bytes(), u32::MAX));
    }
}

#[test]
fn writes_decimal() {
    assert_eq!("0", write_decimal(0));
    assert_eq!("7", write_decimal(7));
    assert_eq!("10", write_decimal(10));
    assert_eq!("122", write_decimal(122));
    assert_eq!("1000", write_decimal(1000));
    assert_eq!("4294967295", write_decimal(u32::MAX));
}

#[test]
fn written_numbers_parse_back() {
    let numbers: [u32; 6] = [0, 9, 10, 99, 65535, u32::MAX];
    for number in numbers {
        let text = write_decimal(number);
        assert_eq!(Some(number), parse(text.as_bytes(), u32::MAX));
    }
}
