//! The instruction set: which opcode a mnemonic stands for, given the kinds
//! of its operands.

use vstd::prelude::*;
use crate::error::AsmError;
use crate::operand::{Param, ParamKind};
use crate::text::{chars_of, same_text, spec_trim, trim};

verus! {

/// How a mnemonic chooses its opcode. Each family accepts its own
/// combinations of operand kinds, written here as (first, second).
#[derive(Debug, Clone, Copy, PartialEq, Eq, Structural)]
pub enum Rule {
    /// One opcode, whatever the operands are.
    Fixed(u8),
    /// The opcodes for (deref, register), (register, deref),
    /// (register, register) and (register, immediate), in this order.
    Copy(u8, u8, u8, u8),
    /// The opcodes for (register, register), (register, deref) and
    /// (register, immediate), in this order.
    Arithmetic(u8, u8, u8),
    /// The opcodes for (register, register) and (register, immediate).
    Bitwise(u8, u8),
    /// The opcodes for (register, immediate) and (register, register).
    Shift(u8, u8),
    /// The opcodes for (register, register) and (register, immediate).
    Compare(u8, u8),
    /// The opcodes for (deref, immediate) and (register, immediate).
    Write(u8, u8),
    /// A mnemonic that is set aside but has no opcode yet, whatever the
    /// operands are.
    Reserved,
}

/// The opcode of a copy: `v1` for (deref, register), `v2` for
/// (register, deref), `v3` for (register, register), `v4` for
/// (register, immediate), and none for any other pair.
pub open spec fn spec_match_copy(
    k1: ParamKind,
    k2: ParamKind,
    v1: u8,
    v2: u8,
    v3: u8,
    v4: u8,
) -> Option<u8> {
    match (k1, k2) {
        (ParamKind::Deref, ParamKind::Register) => Some(v1),
        (ParamKind::Register, ParamKind::Deref) => Some(v2),
        (ParamKind::Register, ParamKind::Register) => Some(v3),
        (ParamKind::Register, ParamKind::Immediate) => Some(v4),
        _ => None,
    }
}

/// The opcode of an arithmetic instruction: the first operand is a register,
/// and the kind of the second chooses among `rr`, `rd` and `ri`.
pub open spec fn spec_match_arithmetic(
    k1: ParamKind,
    k2: ParamKind,
    rr: u8,
    rd: u8,
    ri: u8,
) -> Option<u8> {
    match (k1, k2) {
        (ParamKind::Register, ParamKind::Register) => Some(rr),
        (ParamKind::Register, ParamKind::Deref) => Some(rd),
        (ParamKind::Register, ParamKind::Immediate) => Some(ri),
        _ => None,
    }
}

/// The opcode of an instruction that takes a register and then a register
/// (`rr`) or an immediate (`ri`), and nothing else.
pub open spec fn spec_match_bitwise(k1: ParamKind, k2: ParamKind, rr: u8, ri: u8) -> Option<u8> {
    match (k1, k2) {
        (ParamKind::Register, ParamKind::Register) => Some(rr),
        (ParamKind::Register, ParamKind::Immediate) => Some(ri),
        _ => None,
    }
}

impl Rule {
    /// The opcode that this rule gives to operands of kinds `k1` and `k2`,
    /// or `None` where the rule does not accept them.
    pub open spec fn spec_select(self, k1: ParamKind, k2: ParamKind) -> Option<u8> {
        match self {
            Rule::Fixed(opcode) => Some(opcode),
            Rule::Copy(v1, v2, v3, v4) => spec_match_copy(k1, k2, v1, v2, v3, v4),
            Rule::Arithmetic(rr, rd, ri) => spec_match_arithmetic(k1, k2, rr, rd, ri),
            Rule::Bitwise(rr, ri) => spec_match_bitwise(k1, k2, rr, ri),
            Rule::Shift(ri, rr) => spec_match_bitwise(k1, k2, rr, ri),
            Rule::Compare(rr, ri) => spec_match_bitwise(k1, k2, rr, ri),
            Rule::Write(di, ri) => match (k1, k2) {
                (ParamKind::Deref, ParamKind::Immediate) => Some(di),
                (ParamKind::Register, ParamKind::Immediate) => Some(ri),
                _ => None,
            },
            Rule::Reserved => None,
        }
    }
}

/// The instruction set: the rule of each mnemonic, and `None` for a word
/// that is no mnemonic.
pub open spec fn spec_rule(mnemonic: Seq<char>) -> Option<Rule> {
    if mnemonic == "writes"@ {
        Some(Rule::Write(0x00, 0x01))
    } else if mnemonic == "write"@ {
        Some(Rule::Fixed(0x02))
    } else if mnemonic == "copy8"@ {
        Some(Rule::Copy(0x10, 0x0C, 0x04, 0x08))
    } else if mnemonic == "copy16"@ {
        Some(Rule::Copy(0x11, 0x0D, 0x05, 0x09))
    } else if mnemonic == "copy32"@ {
        Some(Rule::Copy(0x12, 0x0E, 0x06, 0x0A))
    } else if mnemonic == "copy64"@ {
        Some(Rule::Copy(0x13, 0x0F, 0x07, 0x0B))
    } else if mnemonic == "push8"@ {
        Some(Rule::Fixed(0x14))
    } else if mnemonic == "push16"@ {
        Some(Rule::Fixed(0x15))
    } else if mnemonic == "push32"@ {
        Some(Rule::Fixed(0x16))
    } else if mnemonic == "push64"@ {
        Some(Rule::Fixed(0x17))
    } else if mnemonic == "pop8"@ {
        Some(Rule::Fixed(0x18))
    } else if mnemonic == "pop16"@ {
        Some(Rule::Fixed(0x19))
    } else if mnemonic == "pop32"@ {
        Some(Rule::Fixed(0x1A))
    } else if mnemonic == "pop64"@ {
        Some(Rule::Fixed(0x1B))
    } else if mnemonic == "goto"@ {
        Some(Rule::Fixed(0x1C))
    } else if mnemonic == "call"@ {
        Some(Rule::Fixed(0x1D))
    } else if mnemonic == "sys"@ {
        Some(Rule::Fixed(0x1E))
    } else if mnemonic == "cmp"@ {
        Some(Rule::Compare(0x1F, 0x20))
    } else if mnemonic == "jge"@ {
        Some(Rule::Fixed(0x21))
    } else if mnemonic == "jg"@ {
        Some(Rule::Fixed(0x22))
    } else if mnemonic == "jle"@ {
        Some(Rule::Fixed(0x23))
    } else if mnemonic == "jl"@ {
        Some(Rule::Fixed(0x24))
    } else if mnemonic == "je"@ {
        Some(Rule::Fixed(0x25))
    } else if mnemonic == "jne"@ {
        Some(Rule::Fixed(0x26))
    } else if mnemonic == "add"@ {
        Some(Rule::Arithmetic(0x27, 0x28, 0x29))
    } else if mnemonic == "sub"@ {
        Some(Rule::Arithmetic(0x2A, 0x2B, 0x2C))
    } else if mnemonic == "mult"@ {
        Some(Rule::Arithmetic(0x2D, 0x2E, 0x2F))
    } else if mnemonic == "div"@ {
        Some(Rule::Arithmetic(0x30, 0x31, 0x32))
    } else if mnemonic == "mod"@ {
        Some(Rule::Arithmetic(0x33, 0x34, 0x35))
    } else if mnemonic == "shr"@ {
        Some(Rule::Shift(0x36, 0x42))
    } else if mnemonic == "shl"@ {
        Some(Rule::Shift(0x37, 0x43))
    } else if mnemonic == "and"@ {
        Some(Rule::Bitwise(0x38, 0x39))
    } else if mnemonic == "or"@ {
        Some(Rule::Bitwise(0x3A, 0x3B))
    } else if mnemonic == "xor"@ {
        Some(Rule::Bitwise(0x3C, 0x3D))
    } else if mnemonic == "not"@ {
        Some(Rule::Fixed(0x3E))
    } else if mnemonic == "read"@ {
        Some(Rule::Reserved)
    } else if mnemonic == "writei"@ {
        Some(Rule::Fixed(0x40))
    } else {
        None
    }
}

/// The opcode of `mnemonic`, once the white space around it is taken away,
/// for operands of kinds `k1` and `k2`.
pub open spec fn spec_parse_instr(mnemonic: Seq<char>, k1: ParamKind, k2: ParamKind) -> Result<
    u8,
    AsmError,
> {
    match spec_rule(spec_trim(mnemonic)) {
        None => Err(AsmError::UnknownMnemonic),
        Some(rule) => match rule.spec_select(k1, k2) {
            None => Err(AsmError::UnsupportedOperandCombination),
            Some(opcode) => Ok(opcode),
        },
    }
}

/// No opcode is given out twice. Two mnemonics that get the same opcode are
/// the same mnemonic, and unless its opcode is fixed, the operands are of
/// the same kinds both times.
pub proof fn lemma_opcode_names_one_mnemonic(
    m1: Seq<char>,
    k1: ParamKind,
    k2: ParamKind,
    m2: Seq<char>,
    j1: ParamKind,
    j2: ParamKind,
)
    requires
        spec_rule(m1) is Some,
        spec_rule(m2) is Some,
        spec_rule(m1)->0.spec_select(k1, k2) is Some,
        spec_rule(m1)->0.spec_select(k1, k2) == spec_rule(m2)->0.spec_select(j1, j2),
    ensures
        m1 == m2,
        !(spec_rule(m1)->0 is Fixed) ==> k1 == j1 && k2 == j2,
{
}

/// Only a fixed opcode and a copy or a write through a deref do without a
/// register in the first place, and no rule but a fixed opcode takes an
/// immediate there.
pub proof fn lemma_first_operand(rule: Rule, k1: ParamKind, k2: ParamKind)
    requires
        rule.spec_select(k1, k2) is Some,
        !(rule is Fixed),
    ensures
        k1 != ParamKind::Immediate,
        k1 == ParamKind::Deref ==> rule is Copy && k2 == ParamKind::Register || rule is Write
            && k2 == ParamKind::Immediate,
{
}

/// Chooses the opcode of a copy from the kinds of its operands.
pub fn match_copy(p1: &Param, p2: &Param, v1: u8, v2: u8, v3: u8, v4: u8) -> (opcode: Option<u8>)
    ensures
        opcode == spec_match_copy(p1.spec_kind(), p2.spec_kind(), v1, v2, v3, v4),
{
    match p1 {
        Param::Deref(_) => match p2 {
            Param::Register(_) => Some(v1),
            _ => None,
        },
        Param::Register(_) => match p2 {
            Param::Deref(_) => Some(v2),
            Param::Register(_) => Some(v3),
            Param::Immediate(_) => Some(v4),
        },
        Param::Immediate(_) => None,
    }
}

/// Chooses the opcode of an arithmetic instruction from the kinds of its
/// operands.
pub fn match_arithmetic(p1: &Param, p2: &Param, rr: u8, rd: u8, ri: u8) -> (opcode: Option<u8>)
    ensures
        opcode == spec_match_arithmetic(p1.spec_kind(), p2.spec_kind(), rr, rd, ri),
{
    match p1 {
        Param::Register(_) => match p2 {
            Param::Register(_) => Some(rr),
            Param::Deref(_) => Some(rd),
            Param::Immediate(_) => Some(ri),
        },
        _ => None,
    }
}

/// Chooses between the register and the immediate form of an instruction
/// whose first operand is a register.
pub fn match_bitwise(p1: &Param, p2: &Param, rr: u8, ri: u8) -> (opcode: Option<u8>)
    ensures
        opcode == spec_match_bitwise(p1.spec_kind(), p2.spec_kind(), rr, ri),
{
    match p1 {
        Param::Register(_) => match p2 {
            Param::Register(_) => Some(rr),
            Param::Immediate(_) => Some(ri),
            _ => None,
        },
        _ => None,
    }
}

impl Rule {
    /// The opcode that this rule gives to the operands `p1` and `p2`, or
    /// `None` where the rule does not accept operands of their kinds.
    pub fn select(self, p1: &Param, p2: &Param) -> (opcode: Option<u8>)
        ensures
            opcode == self.spec_select(p1.spec_kind(), p2.spec_kind()),
    {
        match self {
            Rule::Fixed(opcode) => Some(opcode),
            Rule::Copy(v1, v2, v3, v4) => match_copy(p1, p2, v1, v2, v3, v4),
            Rule::Arithmetic(rr, rd, ri) => match_arithmetic(p1, p2, rr, rd, ri),
            Rule::Bitwise(rr, ri) => match_bitwise(p1, p2, rr, ri),
            Rule::Shift(ri, rr) => match_bitwise(p1, p2, rr, ri),
            Rule::Compare(rr, ri) => match_bitwise(p1, p2, rr, ri),
            Rule::Write(di, ri) => match p2 {
                Param::Immediate(_) => match p1 {
                    Param::Deref(_) => Some(di),
                    Param::Register(_) => Some(ri),
                    Param::Immediate(_) => None,
                },
                _ => None,
            },
            Rule::Reserved => None,
        }
    }
}

/// Looks `mnemonic` up in the instruction set.
pub fn rule_of(mnemonic: &[char]) -> (rule: Option<Rule>)
    ensures
        rule == spec_rule(mnemonic@),
{
    if same_text(mnemonic, "writes") {
        Some(Rule::Write(0x00, 0x01))
    } else if same_text(mnemonic, "write") {
        Some(Rule::Fixed(0x02))
    } else if same_text(mnemonic, "copy8") {
        Some(Rule::Copy(0x10, 0x0C, 0x04, 0x08))
    } else if same_text(mnemonic, "copy16") {
        Some(Rule::Copy(0x11, 0x0D, 0x05, 0x09))
    } else if same_text(mnemonic, "copy32") {
        Some(Rule::Copy(0x12, 0x0E, 0x06, 0x0A))
    } else if same_text(mnemonic, "copy64") {
        Some(Rule::Copy(0x13, 0x0F, 0x07, 0x0B))
    } else if same_text(mnemonic, "push8") {
        Some(Rule::Fixed(0x14))
    } else if same_text(mnemonic, "push16") {
        Some(Rule::Fixed(0x15))
    } else if same_text(mnemonic, "push32") {
        Some(Rule::Fixed(0x16))
    } else if same_text(mnemonic, "push64") {
        Some(Rule::Fixed(0x17))
    } else if same_text(mnemonic, "pop8") {
        Some(Rule::Fixed(0x18))
    } else if same_text(mnemonic, "pop16") {
        Some(Rule::Fixed(0x19))
    } else if same_text(mnemonic, "pop32") {
        Some(Rule::Fixed(0x1A))
    } else if same_text(mnemonic, "pop64") {
        Some(Rule::Fixed(0x1B))
    } else if same_text(mnemonic, "goto") {
        Some(Rule::Fixed(0x1C))
    } else if same_text(mnemonic, "call") {
        Some(Rule::Fixed(0x1D))
    } else if same_text(mnemonic, "sys") {
        Some(Rule::Fixed(0x1E))
    } else if same_text(mnemonic, "cmp") {
        Some(Rule::Compare(0x1F, 0x20))
    } else if same_text(mnemonic, "jge") {
        Some(Rule::Fixed(0x21))
    } else if same_text(mnemonic, "jg") {
        Some(Rule::Fixed(0x22))
    } else if same_text(mnemonic, "jle") {
        Some(Rule::Fixed(0x23))
    } else if same_text(mnemonic, "jl") {
        Some(Rule::Fixed(0x24))
    } else if same_text(mnemonic, "je") {
        Some(Rule::Fixed(0x25))
    } else if same_text(mnemonic, "jne") {
        Some(Rule::Fixed(0x26))
    } else if same_text(mnemonic, "add") {
        Some(Rule::Arithmetic(0x27, 0x28, 0x29))
    } else if same_text(mnemonic, "sub") {
        Some(Rule::Arithmetic(0x2A, 0x2B, 0x2C))
    } else if same_text(mnemonic, "mult") {
        Some(Rule::Arithmetic(0x2D, 0x2E, 0x2F))
    } else if same_text(mnemonic, "div") {
        Some(Rule::Arithmetic(0x30, 0x31, 0x32))
    } else if same_text(mnemonic, "mod") {
        Some(Rule::Arithmetic(0x33, 0x34, 0x35))
    } else if same_text(mnemonic, "shr") {
        Some(Rule::Shift(0x36, 0x42))
    } else if same_text(mnemonic, "shl") {
        Some(Rule::Shift(0x37, 0x43))
    } else if same_text(mnemonic, "and") {
        Some(Rule::Bitwise(0x38, 0x39))
    } else if same_text(mnemonic, "or") {
        Some(Rule::Bitwise(0x3A, 0x3B))
    } else if same_text(mnemonic, "xor") {
        Some(Rule::Bitwise(0x3C, 0x3D))
    } else if same_text(mnemonic, "not") {
        Some(Rule::Fixed(0x3E))
    } else if same_text(mnemonic, "read") {
        Some(Rule::Reserved)
    } else if same_text(mnemonic, "writei") {
        Some(Rule::Fixed(0x40))
    } else {
        None
    }
}

/// The opcode of `mnemonic` for the operands `p1` and `p2`. Only the kinds of
/// the operands count, and white space around the mnemonic is ignored.
///
/// Fails with `UnknownMnemonic` where the instruction set has no such
/// mnemonic, and with `UnsupportedOperandCombination` where it has one that
/// does not take operands of these kinds.
pub fn resolve(mnemonic: &[char], p1: &Param, p2: &Param) -> (opcode: Result<u8, AsmError>)
    ensures
        opcode == spec_parse_instr(mnemonic@, p1.spec_kind(), p2.spec_kind()),
{
    match rule_of(trim(mnemonic)) {
        None => Err(AsmError::UnknownMnemonic),
        Some(rule) => match rule.select(p1, p2) {
            None => Err(AsmError::UnsupportedOperandCombination),
            Some(opcode) => Ok(opcode),
        },
    }
}

/// The opcode of the mnemonic `syntax` for the operands `p1` and `p2`, as
/// [`resolve`] finds it.
pub fn parse_instr(syntax: String, p1: &Param, p2: &Param) -> (opcode: Result<u8, AsmError>)
    ensures
        opcode == spec_parse_instr(syntax@, p1.spec_kind(), p2.spec_kind()),
{
    let chars = chars_of(syntax.as_str());
    resolve(chars.as_slice(), p1, p2)
}

} // verus!
