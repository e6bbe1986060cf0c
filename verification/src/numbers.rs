//! Reading unsigned decimal numbers, as `str::parse` of std reads them.

use vstd::prelude::*;

verus! {

/// Why a text is not a number that fits.
#[derive(Debug, Clone, Copy, PartialEq, Eq, Structural)]
pub enum NumberError {
    /// The text is empty.
    Empty,
    /// The text holds a character that is not a digit, or a sign alone.
    InvalidDigit,
    /// The number is too large.
    TooLarge,
}

/// The value of a decimal digit.
pub open spec fn digit_value(c: char) -> Option<nat> {
    if c == '0' {
        Some(0nat)
    } else if c == '1' {
        Some(1nat)
    } else if c == '2' {
        Some(2nat)
    } else if c == '3' {
        Some(3nat)
    } else if c == '4' {
        Some(4nat)
    } else if c == '5' {
        Some(5nat)
    } else if c == '6' {
        Some(6nat)
    } else if c == '7' {
        Some(7nat)
    } else if c == '8' {
        Some(8nat)
    } else if c == '9' {
        Some(9nat)
    } else {
        None
    }
}

/// Reads the digits of `s` from position `from` on, having read `so_far`
/// before them. The first character that is not a digit, or the first digit
/// with which the number exceeds `limit`, ends the reading with its error.
pub open spec fn read_digits(s: Seq<char>, from: int, so_far: nat, limit: nat) -> Result<
    nat,
    NumberError,
>
    decreases s.len() - from,
{
    if from < 0 || from >= s.len() {
        Ok(so_far)
    } else {
        match digit_value(s[from]) {
            None => Err(NumberError::InvalidDigit),
            Some(d) => if so_far * 10 + d > limit {
                Err(NumberError::TooLarge)
            } else {
                read_digits(s, from + 1, so_far * 10 + d, limit)
            },
        }
    }
}

/// The number that `s` writes: decimal digits, after one `+` at most, that
/// give a number up to `limit`.
pub open spec fn read_unsigned(s: Seq<char>, limit: nat) -> Result<nat, NumberError> {
    if s.len() == 0 {
        Err(NumberError::Empty)
    } else if s.len() == 1 && (s[0] == '+' || s[0] == '-') {
        Err(NumberError::InvalidDigit)
    } else if s[0] == '+' {
        read_digits(s, 1, 0, limit)
    } else {
        read_digits(s, 0, 0, limit)
    }
}

/// The value of a decimal digit.
pub fn digit_of_char(c: char) -> (r: Option<u32>)
    ensures
        match r {
            Some(d) => digit_value(c) == Some(d as nat) && d < 10,
            None => digit_value(c) is None,
        },
{
    if c == '0' {
        Some(0)
    } else if c == '1' {
        Some(1)
    } else if c == '2' {
        Some(2)
    } else if c == '3' {
        Some(3)
    } else if c == '4' {
        Some(4)
    } else if c == '5' {
        Some(5)
    } else if c == '6' {
        Some(6)
    } else if c == '7' {
        Some(7)
    } else if c == '8' {
        Some(8)
    } else if c == '9' {
        Some(9)
    } else {
        None
    }
}

/// The number that `chars` writes, where it fits in 32 bits.
pub fn parse_u32(chars: &[char]) -> (r: Result<u32, NumberError>)
    ensures
        match r {
            Ok(n) => read_unsigned(chars@, u32::MAX as nat) == Ok::<nat, NumberError>(n as nat),
            Err(e) => read_unsigned(chars@, u32::MAX as nat) == Err::<nat, NumberError>(e),
        },
{
    if chars.len() == 0 {
        return Err(NumberError::Empty);
    }
    if chars.len() == 1 && (chars[0] == '+' || chars[0] == '-') {
        return Err(NumberError::InvalidDigit);
    }
    let mut i: usize = if chars[0] == '+' {
        1
    } else {
        0
    };
    let mut value: u32 = 0;
    while i < chars.len()
        invariant
            i <= chars.len(),
            read_unsigned(chars@, u32::MAX as nat) == read_digits(
                chars@,
                i as int,
                value as nat,
                u32::MAX as nat,
            ),
        decreases chars.len() - i,
    {
        match digit_of_char(chars[i]) {
            None => {
                return Err(NumberError::InvalidDigit);
            },
            Some(d) => {
                if value > (u32::MAX - d) / 10 {
                    return Err(NumberError::TooLarge);
                }
                value = value * 10 + d;
            },
        }
        i += 1;
    }
    Ok(value)
}

/// The words with which std reports `error`.
pub open spec fn number_error_text(error: NumberError) -> Seq<char> {
    match error {
        NumberError::Empty => "cannot parse integer from empty string"@,
        NumberError::InvalidDigit => "invalid digit found in string"@,
        NumberError::TooLarge => "number too large to fit in target type"@,
    }
}

impl NumberError {
    /// The words with which std reports the error.
    pub fn message(&self) -> (r: String)
        ensures
            r@ == number_error_text(*self),
    {
        match self {
            NumberError::Empty => String::from_str("cannot parse integer from empty string"),
            NumberError::InvalidDigit => String::from_str("invalid digit found in string"),
            NumberError::TooLarge => String::from_str("number too large to fit in target type"),
        }
    }
}

} // verus!
