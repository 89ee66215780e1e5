//! Unsigned 16-bit numbers in text: digits, and before a decimal number an
//! optional `+`.

use vstd::prelude::*;
use vstd::slice::slice_subrange;
use crate::text::chars_of;

verus! {

/// The value of `c` as a digit in base `radix`: `0` to `9`, then the letters
/// of either case from ten on. `None` where `c` is no digit of that base.
pub open spec fn spec_digit(c: char, radix: nat) -> Option<nat> {
    let value: int = if '0' <= c <= '9' {
        c as int - '0' as int
    } else if 'a' <= c <= 'z' {
        c as int - 'a' as int + 10
    } else if 'A' <= c <= 'Z' {
        c as int - 'A' as int + 10
    } else {
        -1
    };
    if 0 <= value < radix {
        Some(value as nat)
    } else {
        None
    }
}

/// The number that the digits `s` spell in base `radix`, the most
/// significant digit first. `None` where some character is no digit.
pub open spec fn spec_digits(s: Seq<char>, radix: nat) -> Option<nat>
    decreases s.len(),
{
    if s.len() == 0 {
        Some(0)
    } else {
        match (spec_digits(s.drop_last(), radix), spec_digit(s.last(), radix)) {
            (Some(high), Some(low)) => Some(high * radix + low),
            _ => None,
        }
    }
}

/// Why a text is no number of 16 bits.
#[derive(Debug, Clone, Copy, PartialEq, Eq, Structural)]
pub enum NumberError {
    /// The text is not made of digits, one at least.
    NotANumber,
    /// The text is a number, and the number is larger than 65535.
    TooLarge,
}

/// The 16-bit number that the digits `digits` spell in base `radix`: one
/// digit at least, nothing but digits, and a value of at most 65535. A sign
/// is no digit.
pub open spec fn spec_read_digits(digits: Seq<char>, radix: nat) -> Result<u16, NumberError> {
    if digits.len() == 0 {
        Err(NumberError::NotANumber)
    } else {
        match spec_digits(digits, radix) {
            Some(value) => if value <= u16::MAX {
                Ok(value as u16)
            } else {
                Err(NumberError::TooLarge)
            },
            None => Err(NumberError::NotANumber),
        }
    }
}

/// The 16-bit number that `s` denotes in base `radix` where a sign may
/// stand: an optional `+`, then digits as [`spec_read_digits`] reads them.
pub open spec fn spec_read_u16(s: Seq<char>, radix: nat) -> Result<u16, NumberError> {
    if s.len() > 0 && s.first() == '+' {
        spec_read_digits(s.drop_first(), radix)
    } else {
        spec_read_digits(s, radix)
    }
}

/// The 16-bit number that `s` denotes in base `radix`, sign allowed, if it
/// denotes one.
pub open spec fn spec_parse_u16(s: Seq<char>, radix: nat) -> Option<u16> {
    match spec_read_u16(s, radix) {
        Ok(value) => Some(value),
        Err(_) => None,
    }
}

/// What hexadecimal number the digits `s` spell, if any. There is no sign:
/// every character is a hexadecimal digit, or `s` is no number.
pub open spec fn spec_parse_hex(s: Seq<char>) -> Option<u16> {
    match spec_read_digits(s, 16) {
        Ok(value) => Some(value),
        Err(_) => None,
    }
}

/// What decimal number `s` denotes, if any. A `+` may stand before the
/// digits.
pub open spec fn spec_parse_decimal(s: Seq<char>) -> Option<u16> {
    spec_parse_u16(s, 10)
}

/// The character that writes the digit `d`, for `d` below ten.
pub open spec fn spec_digit_char(d: nat) -> char {
    ('0' as nat + d) as char
}

/// The decimal text of `n`: its digits, the most significant first, without
/// sign or leading zero.
pub open spec fn spec_decimal(n: nat) -> Seq<char>
    decreases n,
{
    if n < 10 {
        seq![spec_digit_char(n)]
    } else {
        spec_decimal(n / 10).push(spec_digit_char(n % 10))
    }
}

/// The decimal text of a number is made of decimal digits, one at least,
/// and they spell that number.
pub proof fn lemma_decimal_spells_number(n: nat)
    ensures
        spec_decimal(n).len() > 0,
        forall|i: int|
            0 <= i < spec_decimal(n).len() ==> '0' <= #[trigger] spec_decimal(n)[i] <= '9',
        spec_digits(spec_decimal(n), 10) == Some(n),
    decreases n,
{
    let text = spec_decimal(n);
    if n < 10 {
        assert(text.drop_last() == Seq::<char>::empty());
        assert(spec_digits(text.drop_last(), 10) == Some(0nat));
        assert(spec_digit(text.last(), 10) == Some(n));
    } else {
        lemma_decimal_spells_number(n / 10);
        assert(text.drop_last() == spec_decimal(n / 10));
        assert(spec_digit(text.last(), 10) == Some(n % 10));
    }
}

/// Where the digits `s` spell a number, so does what `s` starts with, and
/// that number is no larger.
pub proof fn lemma_digits_prefix(s: Seq<char>, n: int, radix: nat)
    requires
        0 <= n <= s.len(),
    ensures
        spec_digits(s, radix) is Some ==> spec_digits(s.take(n), radix) is Some && spec_digits(
            s.take(n),
            radix,
        )->0 <= spec_digits(s, radix)->0,
    decreases s.len(),
{
    if n == s.len() {
        assert(s.take(n) == s);
    } else {
        lemma_digits_prefix(s.drop_last(), n, radix);
        assert(s.drop_last().take(n) == s.take(n));
        if spec_digits(s, radix) is Some {
            let high = spec_digits(s.drop_last(), radix)->0;
            assert(high * radix >= high) by (nonlinear_arith)
                requires
                    radix >= 1,
                    high >= 0,
            ;
        }
    }
}

/// The value of `c` as a digit in base `radix`.
pub fn digit(c: char, radix: u32) -> (value: Option<u32>)
    requires
        2 <= radix <= 36,
    ensures
        match value {
            Some(v) => spec_digit(c, radix as nat) == Some(v as nat),
            None => spec_digit(c, radix as nat) is None,
        },
{
    let value: u32 = if '0' <= c && c <= '9' {
        c as u32 - '0' as u32
    } else if 'a' <= c && c <= 'z' {
        c as u32 - 'a' as u32 + 10
    } else if 'A' <= c && c <= 'Z' {
        c as u32 - 'A' as u32 + 10
    } else {
        radix
    };
    if value < radix {
        Some(value)
    } else {
        None
    }
}

/// Reads the digits `chars` as an unsigned 16-bit number in base `radix`.
/// No sign is taken.
///
/// Fails with `NotANumber` where `chars` is empty or holds anything but
/// digits of that base, and with `TooLarge` where the digits spell a number
/// larger than 65535.
pub fn read_digits(chars: &[char], radix: u32) -> (number: Result<u16, NumberError>)
    requires
        2 <= radix <= 36,
    ensures
        number == spec_read_digits(chars@, radix as nat),
{
    let len = chars.len();
    if len == 0 {
        return Err(NumberError::NotANumber);
    }
    let mut value: u32 = 0;
    let mut too_large = false;
    let mut i: usize = 0;
    assert(chars@.take(0) == Seq::<char>::empty());
    while i < len
        invariant
            2 <= radix <= 36,
            i <= len == chars@.len(),
            len > 0,
            spec_digits(chars@.take(i as int), radix as nat) is Some,
            !too_large ==> spec_digits(chars@.take(i as int), radix as nat) == Some(
                value as nat,
            ) && value <= u16::MAX,
            too_large ==> spec_digits(chars@.take(i as int), radix as nat)->0 > u16::MAX,
        decreases len - i,
    {
        let ghost before = chars@.take(i as int);
        let ghost after = chars@.take(i + 1);
        assert(after.drop_last() == before);
        assert(after.last() == chars@[i as int]);
        proof {
            lemma_digits_prefix(chars@, i + 1, radix as nat);
            lemma_digits_prefix(after, i as int, radix as nat);
        }
        match digit(chars[i], radix) {
            None => {
                return Err(NumberError::NotANumber);
            },
            Some(low) => {
                if !too_large {
                    assert(value * radix <= 0xFFFF * 36) by (nonlinear_arith)
                        requires
                            value <= 0xFFFF,
                            radix <= 36,
                    ;
                    value = value * radix + low;
                    if value > 0xFFFF {
                        too_large = true;
                    }
                }
            },
        }
        i += 1;
    }
    assert(chars@.take(len as int) == chars@);
    if too_large {
        Err(NumberError::TooLarge)
    } else {
        Ok(value as u16)
    }
}

/// Reads `chars` as an unsigned 16-bit number in base `radix`: an optional
/// `+`, then digits as [`read_digits`] reads them.
pub fn read_u16(chars: &[char], radix: u32) -> (number: Result<u16, NumberError>)
    requires
        2 <= radix <= 36,
    ensures
        number == spec_read_u16(chars@, radix as nat),
{
    let len = chars.len();
    if len > 0 && chars[0] == '+' {
        assert(chars@.subrange(1, len as int) == chars@.drop_first());
        read_digits(slice_subrange(chars, 1, len), radix)
    } else {
        read_digits(chars, radix)
    }
}

/// Reads `chars` as an unsigned 16-bit number in base `radix`, as
/// [`read_u16`] does, and returns `None` where it is none.
pub fn parse_u16(chars: &[char], radix: u32) -> (number: Option<u16>)
    requires
        2 <= radix <= 36,
    ensures
        number == spec_parse_u16(chars@, radix as nat),
{
    match read_u16(chars, radix) {
        Ok(value) => Some(value),
        Err(_) => None,
    }
}

/// Reads `s` as a hexadecimal number of at most 16 bits, without prefix and
/// without sign: `AC` is 172, `10000` is too large, and `+AC` is no number.
pub fn parse_hex(s: String) -> (number: Option<u16>)
    ensures
        number == spec_parse_hex(s@),
{
    let chars = chars_of(s.as_str());
    match read_digits(chars.as_slice(), 16) {
        Ok(value) => Some(value),
        Err(_) => None,
    }
}

} // verus!
