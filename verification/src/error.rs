//! The ways in which a token, a mnemonic or a whole line can be rejected.

use vstd::prelude::*;

verus! {

/// Why an operand, a mnemonic or a line was rejected.
///
/// Mismatched brackets have no kind of their own: a token is unwrapped only
/// when it both starts with `[` and ends with `]`, so `[12` is simply not a
/// number and is reported as [`AsmError::MalformedImmediate`].
#[derive(Debug, Clone, Copy, PartialEq, Eq, Structural)]
pub enum AsmError {
    /// A token that starts with `@` names no register.
    UnknownRegister,
    /// A token is neither a hexadecimal nor a decimal number of 16 bits.
    MalformedImmediate,
    /// The mnemonic is known, but not with operands of these kinds.
    UnsupportedOperandCombination,
    /// The mnemonic is not in the instruction set.
    UnknownMnemonic,
    /// A bare token of a one-operand line is neither a number nor a label
    /// that was defined on an earlier line.
    UnresolvedLabel,
    /// The line is neither `mnemonic operand, operand` nor `mnemonic operand`.
    NoGrammarMatch,
    /// The line would be instruction number 65536: the count of instructions
    /// no longer fits the 16 bits in which a label records it.
    TooManyInstructions,
}

/// A failure of the assembler, with the line that caused it.
#[derive(Debug, PartialEq, Eq)]
pub struct LineError {
    /// The number of the line in the program, counted from 1.
    pub number: usize,
    /// The text of the line.
    pub line: String,
    /// What is wrong with the line.
    pub kind: AsmError,
}

} // verus!
