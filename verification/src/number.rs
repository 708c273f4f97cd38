//! Numbers as they are written on a command line: decimal, or hexadecimal
//! behind `0x`.

use std::num::ParseIntError;
use vstd::prelude::*;

verus! {

/// The error of std's integer parsing.
#[verifier::external_type_specification]
#[verifier::external_body]
pub struct ExParseIntError(ParseIntError);

/// The number that a character stands for as a digit, whatever the base:
/// `0` to `9`, then the letters in either case from 10 on.
pub open spec fn char_digit(c: char) -> Option<nat> {
    let code = c as nat;
    if '0' as nat <= code <= '9' as nat {
        Some((code - '0' as nat) as nat)
    } else if 'a' as nat <= code <= 'z' as nat {
        Some((code - 'a' as nat + 10) as nat)
    } else if 'A' as nat <= code <= 'Z' as nat {
        Some((code - 'A' as nat + 10) as nat)
    } else {
        None
    }
}

/// The number that a character stands for as a digit of base `radix`, if it
/// is one.
pub open spec fn digit_value(c: char, radix: nat) -> Option<nat> {
    match char_digit(c) {
        Some(digit) => if digit < radix {
            Some(digit)
        } else {
            None
        },
        None => None,
    }
}

/// The number that a run of digits of base `radix` stands for, the most
/// significant first; the empty run stands for 0. There is none if a
/// character is no digit of that base.
pub open spec fn digits_value(text: Seq<char>, radix: nat) -> Option<nat>
    decreases text.len(),
{
    if text.len() == 0 {
        Some(0)
    } else {
        match (digits_value(text.drop_last(), radix), digit_value(text.last(), radix)) {
            (Some(front), Some(digit)) => Some(front * radix + digit),
            _ => None,
        }
    }
}

/// The number that `text` stands for in base `radix` as std reads an
/// unsigned integer: one `+` may come first, at least one digit follows, and
/// nothing but digits.
pub open spec fn unsigned_value(text: Seq<char>, radix: nat) -> Option<nat> {
    let run = if text.len() > 0 && text[0] == '+' {
        text.subrange(1, text.len() as int)
    } else {
        text
    };
    if run.len() == 0 {
        None
    } else {
        digits_value(run, radix)
    }
}

/// The `u64` that `text` stands for in base `radix`, if it stands for a
/// number and that number fits in 64 bits.
pub open spec fn u64_value(text: Seq<char>, radix: nat) -> Option<u64> {
    match unsigned_value(text, radix) {
        Some(value) => if value <= u64::MAX {
            Some(value as u64)
        } else {
            None
        },
        None => None,
    }
}

/// Whether `text` begins with `0x`.
pub open spec fn has_hex_prefix(text: Seq<char>) -> bool {
    text.len() >= 2 && text[0] == '0' && text[1] == 'x'
}

/// The number that `text` stands for: hexadecimal behind `0x`, decimal
/// otherwise.
pub open spec fn number_value(text: Seq<char>) -> Option<u64> {
    if has_hex_prefix(text) {
        u64_value(text.subrange(2, text.len() as int), 16)
    } else {
        u64_value(text, 10)
    }
}

/// `u64::from_str_radix` of std. It reads an optional `+` and then digits of
/// the given base, `0-9`, `a-z` and `A-Z` as far as the base reaches, and
/// fails on the empty string, on a sign alone, on any other character and on
/// a number that does not fit in 64 bits. It panics on a base outside 2 to
/// 36, which is excluded. Nothing is said of the error's content.
pub assume_specification[ u64::from_str_radix ](src: &str, radix: u32) -> (result: Result<
    u64,
    ParseIntError,
>)
    requires
        2 <= radix <= 36,
    ensures
        match result {
            Ok(value) => u64_value(src@, radix as nat) == Some(value),
            Err(_) => u64_value(src@, radix as nat) is None,
        },
;

/// Parses a decimal or hexadecimal number from a string.
///
/// If the string starts with `"0x"` then it will be parsed as hexadecimal,
/// otherwise it will be assumed to be decimal.
pub fn parse_number(s: &str) -> (result: Result<u64, ParseIntError>)
    ensures
        match result {
            Ok(value) => number_value(s@) == Some(value),
            Err(_) => number_value(s@) is None,
        },
{
    let length = s.unicode_len();
    if length >= 2 && s.get_char(0) == '0' && s.get_char(1) == 'x' {
        let hex = s.substring_char(2, length);
        u64::from_str_radix(hex, 16)
    } else {
        u64::from_str_radix(s, 10)
    }
}

} // verus!
