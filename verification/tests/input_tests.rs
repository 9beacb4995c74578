use exercises::input::{parse_unsigned, ParseError};

#[test]
fn plain_numbers_are_read() {
    assert_eq!(parse_unsigned("0"), Ok(0));
    assert_eq!(parse_unsigned("7"), Ok(7));
    assert_eq!(parse_unsigned("42"), Ok(42));
    assert_eq!(parse_unsigned("100"), Ok(100));
    assert_eq!(parse_unsigned("1234567890"), Ok(1_234_567_890));
}

#[test]
fn leading_zeros_do_not_change_the_value() {
    assert_eq!(parse_unsigned("007"), Ok(7));
    assert_eq!(parse_unsigned("0000000000000000000042"), Ok(42));
    assert_eq!(parse_unsigned("000"), Ok(0));
}

#[test]
fn a_plus_sign_is_accepted() {
    assert_eq!(parse_unsigned("+5"), Ok(5));
    assert_eq!(parse_unsigned(" +50\n"), Ok(50));
    assert_eq!(parse_unsigned("+0"), Ok(0));
}

#[test]
fn surrounding_white_space_is_ignored() {
    assert_eq!(parse_unsigned("25\n"), Ok(25));
    assert_eq!(parse_unsigned("25\r\n"), Ok(25));
    assert_eq!(parse_unsigned("  \t25 \u{3000}\n"), Ok(25));
    assert_eq!(parse_unsigned("\u{a0}9\u{2003}"), Ok(9));
}

#[test]
fn the_largest_value_is_read_and_the_next_is_out_of_range() {
    assert_eq!(parse_unsigned("4294967295"), Ok(u32::MAX));
    assert_eq!(parse_unsigned("4294967296"), Err(ParseError::OutOfRange));
    assert_eq!(parse_unsigned("4294967300"), Err(ParseError::OutOfRange));
    assert_eq!(parse_unsigned("+4294967295"), Ok(u32::MAX));
}

#[test]
fn long_numerals_are_out_of_range() {
    assert_eq!(parse_unsigned("99999999999"), Err(ParseError::OutOfRange));
    assert_eq!(
        parse_unsigned("123456789012345678901234567890123456789012345678901234567890"),
        Err(ParseError::OutOfRange)
    );
    assert_eq!(parse_unsigned("18446744073709551616"), Err(ParseError::OutOfRange));
    assert_eq!(parse_unsigned("42949672950"), Err(ParseError::OutOfRange));
}

#[test]
fn text_without_a_number_is_not_a_number() {
    assert_eq!(parse_unsigned(""), Err(ParseError::NotANumber));
    assert_eq!(parse_unsigned("\n"), Err(ParseError::NotANumber));
    assert_eq!(parse_unsigned("   "), Err(ParseError::NotANumber));
    assert_eq!(parse_unsigned("abc"), Err(ParseError::NotANumber));
    assert_eq!(parse_unsigned("+"), Err(ParseError::NotANumber));
    assert_eq!(parse_unsigned("++5"), Err(ParseError::NotANumber));
    assert_eq!(parse_unsigned("5+"), Err(ParseError::NotANumber));
    assert_eq!(parse_unsigned("12a"), Err(ParseError::NotANumber));
    assert_eq!(parse_unsigned("a12"), Err(ParseError::NotANumber));
    assert_eq!(parse_unsigned("1 2"), Err(ParseError::NotANumber));
    assert_eq!(parse_unsigned("+ 5"), Err(ParseError::NotANumber));
    assert_eq!(parse_unsigned("1_000"), Err(ParseError::NotANumber));
    assert_eq!(parse_unsigned("3.5"), Err(ParseError::NotANumber));
    assert_eq!(parse_unsigned("0x10"), Err(ParseError::NotANumber));
}

#[test]
fn negative_numbers_are_not_numbers() {
    assert_eq!(parse_unsigned("-5"), Err(ParseError::NotANumber));
    assert_eq!(parse_unsigned("-0"), Err(ParseError::NotANumber));
    assert_eq!(parse_unsigned("-"), Err(ParseError::NotANumber));
}

#[test]
fn digits_of_other_scripts_are_not_digits() {
    assert_eq!(parse_unsigned("\u{661}\u{662}"), Err(ParseError::NotANumber));
    assert_eq!(parse_unsigned("\u{ff11}"), Err(ParseError::NotANumber));
}

#[test]
fn a_bad_character_outweighs_the_size() {
    assert_eq!(parse_unsigned("99999999999x"), Err(ParseError::NotANumber));
    assert_eq!(parse_unsigned("x99999999999"), Err(ParseError::NotANumber));
}

fn agrees_with_std(text: &str) -> bool {
    parse_unsigned(text).ok() == text.trim().parse::<u32>().ok()
}

fn agrees_with_std_around(first: u32, last: u32) {
    let mut code = first;
    while code <= last {
        if let Some(c) = char::from_u32(code) {
            let padded = format!("{}5{}", c, c);
            assert!(agrees_with_std(&padded), "padded with U+{:04X}", code);
            assert_eq!(parse_unsigned(&padded).is_ok(), c.is_whitespace() || c.is_ascii_digit(), "U+{:04X}", code);
            let alone = format!("{}", c);
            assert!(agrees_with_std(&alone), "U+{:04X} alone", code);
            let inside = format!("1{}2", c);
            assert!(agrees_with_std(&inside), "U+{:04X} inside", code);
        }
        code += 1;
    }
}

#[test]
fn every_character_of_the_basic_plane_trims_as_in_std() {
    agrees_with_std_around(0, 0xffff);
}

#[test]
fn every_character_of_the_lower_planes_trims_as_in_std() {
    agrees_with_std_around(0x1_0000, 0x8_ffff);
}

#[test]
fn every_character_of_the_upper_planes_trims_as_in_std() {
    agrees_with_std_around(0x9_0000, 0x10_ffff);
}

#[test]
fn numerals_read_as_in_std() {
    let samples = [
        "0", "1", "9", "10", "99", "100", "101", "4294967294", "4294967295", "4294967296",
        "4294967297", "5000000000", "+1", "+", "-1", "", " ", "1 ", " 1", "\t1\t", "1\n", "+01",
        "1+", "+-1", "\u{663}", "\u{ff11}", "1e3", "1.0", "0b1", "00000000004294967295", "000000000042949672950",
    ];
    for text in samples {
        assert!(agrees_with_std(text), "{:?}", text);
    }
}

#[test]
fn every_small_number_is_read_back() {
    let mut n: u32 = 0;
    while n <= 2000 {
        assert_eq!(parse_unsigned(&format!("{}", n)), Ok(n));
        assert_eq!(parse_unsigned(&format!("  {}\n", n)), Ok(n));
        n += 1;
    }
}

#[test]
fn numbers_near_the_top_are_read_back() {
    let mut n: u64 = u32::MAX as u64 - 50;
    while n <= u32::MAX as u64 + 50 {
        let read = parse_unsigned(&format!("{}", n));
        if n <= u32::MAX as u64 {
            assert_eq!(read, Ok(n as u32));
        } else {
            assert_eq!(read, Err(ParseError::OutOfRange));
        }
        n += 1;
    }
}
