//! The machine instruction and its four-byte encoding.

use vstd::prelude::*;
use crate::operand::Param;

verus! {

/// One machine instruction: an opcode, two register slots of four bits each
/// and a 16-bit immediate.
#[derive(Debug, Clone, Copy, PartialEq, Eq, Structural)]
pub struct Instruction {
    pub opcode: u8,
    pub r1: u8,
    pub r2: u8,
    pub imm: u16,
}

/// What an operand puts into a register slot: its code where it is a
/// register, and 0 otherwise.
pub open spec fn spec_slot(p: Param) -> u8 {
    match p {
        Param::Register(code) => code,
        _ => 0,
    }
}

/// What an operand puts into the immediate field: its value where it is an
/// immediate, and 0 otherwise.
pub open spec fn spec_immediate(p: Param) -> u16 {
    match p {
        Param::Immediate(value) => value,
        _ => 0,
    }
}

impl Instruction {
    /// Both register slots hold four bits.
    pub open spec fn well_formed(&self) -> bool {
        self.r1 <= 15 && self.r2 <= 15
    }

    /// The instruction that `opcode` makes with the operands `p1` and `p2`:
    /// each register fills the slot of its position, and the immediate
    /// field is taken from the second operand. A deref leaves no trace but
    /// in the opcode.
    pub open spec fn spec_from_params(opcode: u8, p1: Param, p2: Param) -> Instruction {
        Instruction { opcode, r1: spec_slot(p1), r2: spec_slot(p2), imm: spec_immediate(p2) }
    }

    /// The encoding: the opcode, then both slots in one byte with the first
    /// in the high half, then the immediate with its high byte first.
    pub open spec fn spec_to_bytes(&self) -> Seq<u8> {
        seq![
            self.opcode,
            (self.r1 << 4) | self.r2,
            (self.imm / 256) as u8,
            (self.imm % 256) as u8,
        ]
    }

    /// The instruction whose fields are all zero.
    pub fn new() -> (instr: Self)
        ensures
            instr == (Instruction { opcode: 0, r1: 0, r2: 0, imm: 0 }),
    {
        Self { opcode: 0, r1: 0, r2: 0, imm: 0 }
    }

    /// The instruction with the given fields.
    pub fn from(opcode: u8, r1: u8, r2: u8, imm: u16) -> (instr: Self)
        ensures
            instr == (Instruction { opcode, r1, r2, imm }),
    {
        Self { opcode, r1, r2, imm }
    }

    /// The instruction that `opcode` makes with the operands `p1` and `p2`.
    pub fn from_params(opcode: u8, p1: Param, p2: Param) -> (instr: Self)
        ensures
            instr == Self::spec_from_params(opcode, p1, p2),
            p1.well_formed() && p2.well_formed() ==> instr.well_formed(),
    {
        let r1 = match p1 {
            Param::Register(n) => n,
            _ => 0,
        };
        let (r2, imm) = match p2 {
            Param::Register(n) => (n, 0),
            Param::Immediate(n) => (0, n),
            _ => (0, 0),
        };
        Self { opcode, r1, r2, imm }
    }

    /// The four bytes of the instruction.
    pub fn to_bytes(&self) -> (bytes: [u8; 4])
        ensures
            bytes@ == self.spec_to_bytes(),
    {
        let imm = self.imm;
        let b1 = self.opcode;
        let b2 = (self.r1 << 4) | self.r2;
        let b3 = (imm >> 8) as u8;
        let b4 = (imm & 0xFF) as u8;
        assert(imm >> 8 == imm / 256 && imm >> 8 <= 0xFF) by (bit_vector);
        assert(imm & 0xFF == imm % 256 && imm & 0xFF <= 0xFF) by (bit_vector);
        [b1, b2, b3, b4]
    }
}

/// With slots of four bits, the slot byte is `16 * r1 + r2`, and the two
/// immediate bytes are the immediate in base 256.
pub proof fn lemma_bytes_in_numbers(instr: Instruction)
    requires
        instr.well_formed(),
    ensures
        instr.spec_to_bytes().len() == 4,
        instr.spec_to_bytes()[0] == instr.opcode,
        instr.spec_to_bytes()[1] == 16 * instr.r1 + instr.r2,
        256 * instr.spec_to_bytes()[2] + instr.spec_to_bytes()[3] == instr.imm,
{
    let r1 = instr.r1;
    let r2 = instr.r2;
    assert(((r1 << 4) | r2) == 16 * r1 + r2) by (bit_vector)
        requires
            r1 <= 15,
            r2 <= 15,
    ;
}

/// The encoding loses nothing: two instructions with slots of four bits
/// that have the same bytes are the same instruction.
pub proof fn lemma_bytes_identify_instruction(a: Instruction, b: Instruction)
    requires
        a.well_formed(),
        b.well_formed(),
        a.spec_to_bytes() == b.spec_to_bytes(),
    ensures
        a == b,
{
    lemma_bytes_in_numbers(a);
    lemma_bytes_in_numbers(b);
}

} // verus!
