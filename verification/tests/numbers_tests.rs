use document_encoder::numbers::{digit_of_char, parse_u32, NumberError};
use document_encoder::text::chars_of;

fn expected(text: &str) -> Result<u32, String> {
    text.parse::<u32>().map_err(|e| e.to_string())
}

fn actual(text: &str) -> Result<u32, String> {
    parse_u32(&chars_of(text)).map_err(|e| e.message())
}

#[test]
fn parse_u32_agrees_with_std() {
    for text in [
        "0", "7", "1920", "+1080", "0042", "4294967295", "4294967296", "42949672950",
        "99999999999999999999", "", "+", "-", "-5", "+-5", "++5", "12a", "a12", " 12", "12 ",
        "1_000", "１２", "4294967296x", "429496729x", "x4294967296", "+0", "-0",
    ] {
        assert_eq!(actual(text), expected(text), "{:?}", text);
    }
}

#[test]
fn each_error_has_an_input() {
    assert_eq!(parse_u32(&chars_of("")), Err(NumberError::Empty));
    assert_eq!(parse_u32(&chars_of("1x")), Err(NumberError::InvalidDigit));
    assert_eq!(parse_u32(&chars_of("4294967296")), Err(NumberError::TooLarge));
    assert_eq!(parse_u32(&chars_of("4294967295")), Ok(u32::MAX));
}

#[test]
fn digits_have_their_values() {
    assert_eq!(digit_of_char('0'), Some(0));
    assert_eq!(digit_of_char('9'), Some(9));
    assert_eq!(digit_of_char('a'), None);
    assert_eq!(digit_of_char('٣'), None);
}
