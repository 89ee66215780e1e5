//! An assembler for a small virtual machine with four-byte instructions.
//!
//! A program is a text of lines. [`assemble`] scans them from top to bottom:
//! a label line records the number of instructions before it, an
//! instruction line is split into mnemonic and operands ([`line`]), its
//! operands are read ([`operand`]), its opcode is chosen by their kinds
//! ([`opcode`]), and the instruction is put out as four bytes
//! ([`instruction`]).
//!
//! Every function is verified against its contract, with one exception:
//! which lines the two grammars match is left to the `regex` crate, whose
//! answers are taken on trust in [`pattern`] and given the name
//! [`pattern::captured`].

pub mod assembler;
pub mod error;
pub mod instruction;
pub mod labels;
pub mod line;
pub mod number;
pub mod opcode;
pub mod operand;
pub mod pattern;
pub mod register;
pub mod source;
pub mod text;
pub mod zasmenv;

pub use assembler::{assemble, assemble_lines, Assembler, Assembly, LineKind};
pub use error::{AsmError, LineError};
pub use instruction::Instruction;
pub use labels::LabelTable;
pub use line::{parse, parse_dbl, parse_sngl, Grammar};
pub use number::parse_hex;
pub use opcode::{match_arithmetic, match_bitwise, match_copy, parse_instr, Rule};
pub use operand::{is_deref, parse_param, strip_deref, Param, ParamKind};
pub use register::parse_reg;
