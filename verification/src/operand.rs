//! Operands: what an instruction works on.

use vstd::prelude::*;
use vstd::slice::slice_subrange;
use crate::error::AsmError;
use crate::number::{
    lemma_decimal_spells_number, lemma_digits_prefix, parse_u16, read_digits, spec_decimal,
    spec_digits, spec_parse_decimal, spec_parse_hex,
};
use crate::register::{lemma_register_names, register_code, spec_parse_reg, spec_register_code};
use crate::text::{chars_of, trim};

verus! {

/// One operand of an instruction.
#[derive(Debug, PartialEq, Eq)]
pub enum Param {
    /// A 16-bit constant.
    Immediate(u16),
    /// A register, by its 4-bit code.
    Register(u8),
    /// The value that another operand addresses.
    Deref(Box<Param>),
}

/// The addressing mode of an operand, without its value.
#[derive(Debug, Clone, Copy, PartialEq, Eq, Structural)]
pub enum ParamKind {
    Immediate,
    Register,
    Deref,
}

impl Param {
    /// The addressing mode of this operand.
    pub open spec fn spec_kind(&self) -> ParamKind {
        match self {
            Param::Immediate(_) => ParamKind::Immediate,
            Param::Register(_) => ParamKind::Register,
            Param::Deref(_) => ParamKind::Deref,
        }
    }

    /// The addressing mode of this operand.
    #[verifier::when_used_as_spec(spec_kind)]
    pub fn kind(&self) -> (k: ParamKind)
        ensures
            k == self.spec_kind(),
    {
        match self {
            Param::Immediate(_) => ParamKind::Immediate,
            Param::Register(_) => ParamKind::Register,
            Param::Deref(_) => ParamKind::Deref,
        }
    }

    /// How many `Deref` layers wrap the innermost operand.
    pub open spec fn depth(&self) -> nat
        decreases *self,
    {
        match self {
            Param::Deref(inner) => 1 + inner.depth(),
            _ => 0,
        }
    }

    /// Every register code in the operand is one of the fifteen codes `1..=15`.
    pub open spec fn well_formed(&self) -> bool
        decreases *self,
    {
        match self {
            Param::Immediate(_) => true,
            Param::Register(code) => 1 <= *code <= 15,
            Param::Deref(inner) => inner.well_formed(),
        }
    }
}

impl Clone for Param {
    fn clone(&self) -> (copy: Param)
        ensures
            copy == *self,
        decreases *self,
    {
        match self {
            Param::Immediate(value) => Param::Immediate(*value),
            Param::Register(code) => Param::Register(*code),
            Param::Deref(inner) => Param::Deref(Box::new((**inner).clone())),
        }
    }
}

/// Whether `s` is wrapped in one pair of brackets: it starts with `[` and
/// ends with `]`, which takes two characters at least.
pub open spec fn spec_is_deref(s: Seq<char>) -> bool {
    s.len() >= 2 && s.first() == '[' && s.last() == ']'
}

/// `s` without its first and its last character.
pub open spec fn spec_strip_deref(s: Seq<char>) -> Seq<char> {
    s.subrange(1, s.len() - 1)
}

/// Whether `s` starts with `0x`.
pub open spec fn spec_has_hex_prefix(s: Seq<char>) -> bool {
    s.len() >= 2 && s[0] == '0' && s[1] == 'x'
}

/// The operand that the token `s` denotes. The first of these that applies
/// decides:
///
/// 1. `[..]` is the deref of what the text between the brackets denotes;
/// 2. a token that starts with `@` is a register, by its name;
/// 3. a token that starts with `0x` is the hexadecimal number that the
///    characters after the prefix spell, all of them digits;
/// 4. any other token is a decimal number, with a `+` before it or without.
pub open spec fn spec_parse_param(s: Seq<char>) -> Result<Param, AsmError>
    decreases s.len(),
{
    if spec_is_deref(s) {
        match spec_parse_param(spec_strip_deref(s)) {
            Ok(inner) => Ok(Param::Deref(Box::new(inner))),
            Err(e) => Err(e),
        }
    } else if s.len() > 0 && s.first() == '@' {
        match spec_parse_reg(s) {
            Some(code) => Ok(Param::Register(code)),
            None => Err(AsmError::UnknownRegister),
        }
    } else if spec_has_hex_prefix(s) {
        match spec_parse_hex(s.skip(2)) {
            Some(value) => Ok(Param::Immediate(value)),
            None => Err(AsmError::MalformedImmediate),
        }
    } else {
        match spec_parse_decimal(s) {
            Some(value) => Ok(Param::Immediate(value)),
            None => Err(AsmError::MalformedImmediate),
        }
    }
}

/// Whether `s` is wrapped in one pair of brackets.
pub fn is_deref(s: &String) -> (wrapped: bool)
    ensures
        wrapped == spec_is_deref(s@),
{
    let chars = chars_of(s.as_str());
    let len = chars.len();
    len >= 2 && chars[0] == '[' && chars[len - 1] == ']'
}

/// `s` without its first and its last character: what stands between the
/// brackets of a deref. Only this one pair is taken away.
pub fn strip_deref(s: &String) -> (inner: String)
    requires
        s@.len() >= 2,
    ensures
        inner@ == spec_strip_deref(s@),
{
    let text = s.as_str();
    let len = text.unicode_len();
    String::from_str(text.substring_char(1, len - 1))
}

/// Reads the token `chars` as an operand.
pub fn parse_token(chars: &[char]) -> (operand: Result<Param, AsmError>)
    ensures
        operand == spec_parse_param(chars@),
        operand matches Ok(p) ==> p.well_formed(),
    decreases chars@.len(),
{
    let len = chars.len();
    if len >= 2 && chars[0] == '[' && chars[len - 1] == ']' {
        match parse_token(slice_subrange(chars, 1, len - 1)) {
            Ok(inner) => Ok(Param::Deref(Box::new(inner))),
            Err(e) => Err(e),
        }
    } else if len > 0 && chars[0] == '@' {
        match register_code(trim(chars)) {
            Some(code) => {
                proof {
                    lemma_register_names(crate::text::spec_trim(chars@));
                }
                Ok(Param::Register(code))
            },
            None => Err(AsmError::UnknownRegister),
        }
    } else if len >= 2 && chars[0] == '0' && chars[1] == 'x' {
        assert(chars@.subrange(2, len as int) == chars@.skip(2));
        match read_digits(slice_subrange(chars, 2, len), 16) {
            Ok(value) => Ok(Param::Immediate(value)),
            Err(_) => Err(AsmError::MalformedImmediate),
        }
    } else {
        match parse_u16(chars, 10) {
            Some(value) => Ok(Param::Immediate(value)),
            None => Err(AsmError::MalformedImmediate),
        }
    }
}

/// Reads the token `syntax` as an operand: a deref in brackets, a register
/// after `@`, a hexadecimal number after `0x`, or a decimal number.
///
/// Fails with `UnknownRegister` where the token, stripped of its brackets,
/// starts with `@` and names no register, and with `MalformedImmediate`
/// where it is no number of 16 bits.
pub fn parse_param(syntax: String) -> (operand: Result<Param, AsmError>)
    ensures
        operand == spec_parse_param(syntax@),
        operand matches Ok(p) ==> p.well_formed(),
{
    let chars = chars_of(syntax.as_str());
    parse_token(chars.as_slice())
}

/// A token in brackets denotes the deref of what the token itself denotes,
/// and fails as the token itself does. So each pair of brackets in the text
/// is one `Deref` in the operand, however many there are.
pub proof fn lemma_brackets_wrap(token: Seq<char>)
    ensures
        spec_parse_param(seq!['['] + token + seq![']']) == match spec_parse_param(token) {
            Ok(inner) => Ok(Param::Deref(Box::new(inner))),
            Err(e) => Err(e),
        },
{
    let wrapped = seq!['['] + token + seq![']'];
    assert(wrapped.first() == '[');
    assert(wrapped.last() == ']');
    assert(spec_strip_deref(wrapped) == token);
}

/// `token` in `n` pairs of brackets.
pub open spec fn spec_in_brackets(token: Seq<char>, n: nat) -> Seq<char>
    decreases n,
{
    if n == 0 {
        token
    } else {
        seq!['['] + spec_in_brackets(token, (n - 1) as nat) + seq![']']
    }
}

/// `operand` under `n` layers of `Deref`.
pub open spec fn spec_nested(operand: Param, n: nat) -> Param
    decreases n,
{
    if n == 0 {
        operand
    } else {
        Param::Deref(Box::new(spec_nested(operand, (n - 1) as nat)))
    }
}

/// Brackets nest to any depth, and the operand keeps the shape of the
/// text: a token in `n` pairs of brackets denotes what the token denotes,
/// under `n` layers of `Deref`.
pub proof fn lemma_brackets_nest(token: Seq<char>, n: nat)
    ensures
        spec_parse_param(spec_in_brackets(token, n)) == match spec_parse_param(token) {
            Ok(inner) => Ok(spec_nested(inner, n)),
            Err(e) => Err(e),
        },
        spec_parse_param(token) matches Ok(inner) ==> spec_nested(inner, n).depth()
            == inner.depth() + n,
    decreases n,
{
    if n > 0 {
        lemma_brackets_nest(token, (n - 1) as nat);
        lemma_brackets_wrap(spec_in_brackets(token, (n - 1) as nat));
    }
}

/// A token that starts with `@` is read as a register name and as nothing
/// else: it denotes the register with that name, and fails where there is
/// none.
pub proof fn lemma_sigil_means_register(token: Seq<char>)
    requires
        token.len() > 0,
        token[0] == '@',
    ensures
        spec_parse_param(token) == match spec_parse_reg(token) {
            Some(code) => Ok::<Param, AsmError>(Param::Register(code)),
            None => Err(AsmError::UnknownRegister),
        },
{
}

/// Each register name denotes the register with the code that the table
/// gives it.
pub proof fn lemma_register_name_denotes_its_code(name: Seq<char>)
    requires
        spec_register_code(name) is Some,
    ensures
        spec_parse_param(name) == Ok::<Param, AsmError>(
            Param::Register(spec_register_code(name)->0),
        ),
{
    lemma_register_names(name);
}

/// A token that starts with `0x` is a hexadecimal number and nothing else:
/// it denotes the immediate `v` exactly when the characters after the
/// prefix are hexadecimal digits, one at least, that spell `v`, and `v` is
/// at most 65535. A sign after the prefix is no digit, so such a token
/// fails.
pub proof fn lemma_hex_token(token: Seq<char>)
    requires
        spec_has_hex_prefix(token),
    ensures
        spec_parse_param(token) == (if token.len() > 2 && spec_digits(token.skip(2), 16) is Some
            && spec_digits(token.skip(2), 16)->0 <= u16::MAX {
            Ok::<Param, AsmError>(Param::Immediate(spec_digits(token.skip(2), 16)->0 as u16))
        } else {
            Err::<Param, AsmError>(AsmError::MalformedImmediate)
        }),
        token.len() > 2 && (token[2] == '+' || token[2] == '-') ==> spec_parse_param(token)
            == Err::<Param, AsmError>(AsmError::MalformedImmediate),
{
    let digits = token.skip(2);
    if token.len() > 2 && (token[2] == '+' || token[2] == '-') {
        lemma_digits_prefix(digits, 1, 16);
        assert(digits.take(1).last() == token[2]);
    }
}

/// The decimal text of a 16-bit number denotes the immediate with that
/// value.
pub proof fn lemma_decimal_denotes_immediate(value: u16)
    ensures
        spec_parse_param(spec_decimal(value as nat)) == Ok::<Param, AsmError>(
            Param::Immediate(value),
        ),
{
    lemma_decimal_spells_number(value as nat);
    let text = spec_decimal(value as nat);
    assert('0' <= text[0] <= '9');
    if text.len() >= 2 {
        assert('0' <= text[1] <= '9');
    }
}

/// An operand that a token denotes holds only register codes from 1 to 15.
pub proof fn lemma_parsed_is_well_formed(token: Seq<char>)
    ensures
        spec_parse_param(token) matches Ok(p) ==> p.well_formed(),
    decreases token.len(),
{
    if spec_is_deref(token) {
        lemma_parsed_is_well_formed(spec_strip_deref(token));
    } else if token.len() > 0 && token.first() == '@' {
        if spec_parse_reg(token) is Some {
            lemma_register_names(crate::text::spec_trim(token));
        }
    }
}

} // verus!
