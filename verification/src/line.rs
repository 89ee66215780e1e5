//! One instruction line: which of the two grammars it follows, and the
//! instruction that it stands for.

use vstd::prelude::*;
use crate::error::AsmError;
use crate::instruction::Instruction;
use crate::labels::{spec_lookup, LabelTable};
use crate::opcode::{resolve, spec_parse_instr};
use crate::number::{read_u16, spec_decimal, spec_read_u16, NumberError};
use crate::operand::{
    lemma_decimal_denotes_immediate, parse_token, spec_has_hex_prefix, spec_is_deref,
    spec_parse_param, Param,
};
use crate::pattern::{captured, Matcher, ONE_OPERAND_PATTERN, TWO_OPERAND_PATTERN};
use crate::text::chars_of;

verus! {

/// The two grammars of an instruction line, compiled and ready for use.
pub struct Grammar {
    two: Matcher,
    one: Matcher,
}

impl View for Grammar {
    type V = (Seq<char>, Seq<char>);

    /// The patterns of the two-operand and of the one-operand grammar.
    closed spec fn view(&self) -> (Seq<char>, Seq<char>) {
        (self.two@, self.one@)
    }
}

impl Grammar {
    #[verifier::type_invariant]
    spec fn holds_both_patterns(self) -> bool {
        self.two@ == TWO_OPERAND_PATTERN@ && self.one@ == ONE_OPERAND_PATTERN@
    }

    /// Compiles the two grammars.
    pub fn new() -> (grammar: Grammar)
        ensures
            grammar@ == (TWO_OPERAND_PATTERN@, ONE_OPERAND_PATTERN@),
    {
        Grammar { two: Matcher::new(TWO_OPERAND_PATTERN), one: Matcher::new(ONE_OPERAND_PATTERN) }
    }

    /// What the two-operand grammar captures in `line`.
    fn two_operands(&self, line: &str) -> (groups: Option<Vec<Option<String>>>)
        ensures
            groups.deep_view() == captured(TWO_OPERAND_PATTERN@, line@),
    {
        proof {
            use_type_invariant(self);
        }
        self.two.captures(line)
    }

    /// What the one-operand grammar captures in `line`.
    fn one_operand(&self, line: &str) -> (groups: Option<Vec<Option<String>>>)
        ensures
            groups.deep_view() == captured(ONE_OPERAND_PATTERN@, line@),
    {
        proof {
            use_type_invariant(self);
        }
        self.one.captures(line)
    }
}

/// The instruction that `instr` makes of the operand tokens `p1` and `p2`.
/// Both tokens are read as they stand (a label is no operand here), the
/// first one first; then the mnemonic is looked up for their kinds.
pub open spec fn spec_assemble_dbl(instr: Seq<char>, p1: Seq<char>, p2: Seq<char>) -> Result<
    Instruction,
    AsmError,
> {
    match spec_parse_param(p1) {
        Err(e) => Err(e),
        Ok(first) => match spec_parse_param(p2) {
            Err(e) => Err(e),
            Ok(second) => match spec_parse_instr(instr, first.spec_kind(), second.spec_kind()) {
                Err(e) => Err(e),
                Ok(opcode) => Ok(Instruction::spec_from_params(opcode, first, second)),
            },
        },
    }
}

/// Whether `token` is bare: not in brackets, and without the sigil of a
/// register or the prefix of a hexadecimal number.
pub open spec fn spec_is_bare(token: Seq<char>) -> bool {
    &&& !spec_is_deref(token)
    &&& !(token.len() > 0 && token.first() == '@')
    &&& !spec_has_hex_prefix(token)
}

/// The operand that `token` stands for where labels count. A token that is
/// a label, letter for letter, stands for the immediate that holds the
/// label's index. A bare token that is no label and no decimal number of
/// any size can only have been meant as a label. Any other token is read
/// as it stands.
pub open spec fn spec_resolve_operand(token: Seq<char>, labels: Map<Seq<char>, u16>) -> Result<
    Param,
    AsmError,
> {
    match spec_lookup(labels, token) {
        Some(index) => Ok(Param::Immediate(index)),
        None => if spec_is_bare(token) && spec_read_u16(token, 10) == Err::<u16, NumberError>(
            NumberError::NotANumber,
        ) {
            Err(AsmError::UnresolvedLabel)
        } else {
            spec_parse_param(token)
        },
    }
}

/// The instruction that `instr` makes of the single operand token `p1`. The
/// operand stands in both places of the instruction: the mnemonic is looked
/// up for its kind twice, and it fills both slots.
pub open spec fn spec_assemble_sngl(
    instr: Seq<char>,
    p1: Seq<char>,
    labels: Map<Seq<char>, u16>,
) -> Result<Instruction, AsmError> {
    match spec_resolve_operand(p1, labels) {
        Err(e) => Err(e),
        Ok(operand) => match spec_parse_instr(instr, operand.spec_kind(), operand.spec_kind()) {
            Err(e) => Err(e),
            Ok(opcode) => Ok(Instruction::spec_from_params(opcode, operand, operand)),
        },
    }
}

/// The instruction for what the two-operand grammar captured: the mnemonic
/// in group 1 and the operands in groups 2 and 3. Anything but a match with
/// exactly these groups, all of them filled, is no match of the grammar.
pub open spec fn spec_dbl_from_groups(groups: Option<Seq<Option<Seq<char>>>>) -> Result<
    Instruction,
    AsmError,
> {
    match groups {
        Some(g) => if g.len() == 4 && g[1] is Some && g[2] is Some && g[3] is Some {
            spec_assemble_dbl(g[1]->0, g[2]->0, g[3]->0)
        } else {
            Err(AsmError::NoGrammarMatch)
        },
        None => Err(AsmError::NoGrammarMatch),
    }
}

/// The instruction for what the one-operand grammar captured: the mnemonic
/// in group 1 and the operand in group 2.
pub open spec fn spec_sngl_from_groups(
    groups: Option<Seq<Option<Seq<char>>>>,
    labels: Map<Seq<char>, u16>,
) -> Result<Instruction, AsmError> {
    match groups {
        Some(g) => if g.len() == 3 && g[1] is Some && g[2] is Some {
            spec_assemble_sngl(g[1]->0, g[2]->0, labels)
        } else {
            Err(AsmError::NoGrammarMatch)
        },
        None => Err(AsmError::NoGrammarMatch),
    }
}

/// The instruction that `line` stands for under the two-operand grammar.
pub open spec fn spec_parse_dbl(line: Seq<char>) -> Result<Instruction, AsmError> {
    spec_dbl_from_groups(captured(TWO_OPERAND_PATTERN@, line))
}

/// The instruction that `line` stands for under the one-operand grammar.
pub open spec fn spec_parse_sngl(line: Seq<char>, labels: Map<Seq<char>, u16>) -> Result<
    Instruction,
    AsmError,
> {
    spec_sngl_from_groups(captured(ONE_OPERAND_PATTERN@, line), labels)
}

/// The instruction that `line` stands for. A line that the two-operand
/// grammar matches is read by it and by it alone; the one-operand grammar
/// is for the lines that the first does not match.
pub open spec fn spec_parse(line: Seq<char>, labels: Map<Seq<char>, u16>) -> Result<
    Instruction,
    AsmError,
> {
    if captured(TWO_OPERAND_PATTERN@, line) is Some {
        spec_parse_dbl(line)
    } else {
        spec_parse_sngl(line, labels)
    }
}

/// To put a label's index in the place of the label is to read the index,
/// written in decimal, as an operand.
pub proof fn lemma_label_is_its_decimal_index(token: Seq<char>, labels: Map<Seq<char>, u16>)
    requires
        labels.contains_key(token),
    ensures
        spec_resolve_operand(token, labels) == spec_parse_param(
            spec_decimal(labels[token] as nat),
        ),
{
    lemma_decimal_denotes_immediate(labels[token]);
}

/// A bare token that is neither a decimal number nor a label of the table
/// is an unresolved label, whatever the mnemonic and whatever the lines
/// after this one define.
pub proof fn lemma_unknown_label_is_unresolved(
    instr: Seq<char>,
    token: Seq<char>,
    labels: Map<Seq<char>, u16>,
)
    requires
        spec_is_bare(token),
        spec_read_u16(token, 10) == Err::<u16, NumberError>(NumberError::NotANumber),
        !labels.contains_key(token),
    ensures
        spec_assemble_sngl(instr, token, labels) == Err::<Instruction, AsmError>(
            AsmError::UnresolvedLabel,
        ),
{
}

/// Assembles the mnemonic `instr` with the operand tokens `p1` and `p2`.
///
/// Fails with the error of the first operand that is no operand, else with
/// the error of the opcode lookup.
pub fn assemble_dbl(instr: &str, p1: &str, p2: &str) -> (result: Result<Instruction, AsmError>)
    ensures
        result == spec_assemble_dbl(instr@, p1@, p2@),
        result matches Ok(instruction) ==> instruction.well_formed(),
{
    let first = match parse_token(chars_of(p1).as_slice()) {
        Ok(operand) => operand,
        Err(e) => {
            return Err(e);
        },
    };
    let second = match parse_token(chars_of(p2).as_slice()) {
        Ok(operand) => operand,
        Err(e) => {
            return Err(e);
        },
    };
    match resolve(chars_of(instr).as_slice(), &first, &second) {
        Ok(opcode) => Ok(Instruction::from_params(opcode, first, second)),
        Err(e) => Err(e),
    }
}

/// Whether `token` is bare.
fn is_bare(token: &[char]) -> (bare: bool)
    ensures
        bare == spec_is_bare(token@),
{
    let len = token.len();
    if len == 0 {
        true
    } else if token[0] == '@' {
        false
    } else if len >= 2 {
        !(token[0] == '[' && token[len - 1] == ']') && !(token[0] == '0' && token[1] == 'x')
    } else {
        true
    }
}

/// The operand that `token` stands for on a one-operand line: the index of
/// the label that it names, or what it denotes by itself.
///
/// Fails with `UnresolvedLabel` where the token is bare and neither a label
/// in `labels` nor a decimal number, and with the operand's own error
/// otherwise: `MalformedImmediate` for a number that is too large.
pub fn resolve_operand(token: &str, labels: &LabelTable) -> (operand: Result<Param, AsmError>)
    ensures
        operand == spec_resolve_operand(token@, labels@),
        operand matches Ok(p) ==> p.well_formed(),
{
    match labels.get(token) {
        Some(index) => Ok(Param::Immediate(index)),
        None => {
            let chars = chars_of(token);
            if is_bare(chars.as_slice()) {
                match read_u16(chars.as_slice(), 10) {
                    Ok(value) => Ok(Param::Immediate(value)),
                    Err(NumberError::TooLarge) => Err(AsmError::MalformedImmediate),
                    Err(NumberError::NotANumber) => Err(AsmError::UnresolvedLabel),
                }
            } else {
                parse_token(chars.as_slice())
            }
        },
    }
}

/// Assembles the mnemonic `instr` with the single operand token `p1`, which
/// may be a label of `labels`.
pub fn assemble_sngl(instr: &str, p1: &str, labels: &LabelTable) -> (result: Result<
    Instruction,
    AsmError,
>)
    ensures
        result == spec_assemble_sngl(instr@, p1@, labels@),
        result matches Ok(instruction) ==> instruction.well_formed(),
{
    let operand = match resolve_operand(p1, labels) {
        Ok(operand) => operand,
        Err(e) => {
            return Err(e);
        },
    };
    match resolve(chars_of(instr).as_slice(), &operand, &operand) {
        Ok(opcode) => {
            let copy = operand.clone();
            Ok(Instruction::from_params(opcode, operand, copy))
        },
        Err(e) => Err(e),
    }
}

/// The text of group `i`, if the group took part in the match.
fn group<'a>(groups: &'a Vec<Option<String>>, i: usize) -> (text: Option<&'a str>)
    requires
        i < groups.len(),
    ensures
        match text {
            Some(t) => groups.deep_view()[i as int] == Some(t@),
            None => groups.deep_view()[i as int] is None,
        },
{
    match &groups[i] {
        Some(text) => Some(text.as_str()),
        None => None,
    }
}

/// Assembles what the two-operand grammar captured in a line.
pub fn dbl_from_groups(groups: &Option<Vec<Option<String>>>) -> (result: Result<
    Instruction,
    AsmError,
>)
    ensures
        result == spec_dbl_from_groups(groups.deep_view()),
        result matches Ok(instruction) ==> instruction.well_formed(),
{
    match groups {
        Some(g) => {
            if g.len() != 4 {
                return Err(AsmError::NoGrammarMatch);
            }
            match (group(g, 1), group(g, 2), group(g, 3)) {
                (Some(instr), Some(p1), Some(p2)) => assemble_dbl(instr, p1, p2),
                _ => Err(AsmError::NoGrammarMatch),
            }
        },
        None => Err(AsmError::NoGrammarMatch),
    }
}

/// Assembles what the one-operand grammar captured in a line.
pub fn sngl_from_groups(groups: &Option<Vec<Option<String>>>, labels: &LabelTable) -> (result:
    Result<Instruction, AsmError>)
    ensures
        result == spec_sngl_from_groups(groups.deep_view(), labels@),
        result matches Ok(instruction) ==> instruction.well_formed(),
{
    match groups {
        Some(g) => {
            if g.len() != 3 {
                return Err(AsmError::NoGrammarMatch);
            }
            match (group(g, 1), group(g, 2)) {
                (Some(instr), Some(p1)) => assemble_sngl(instr, p1, labels),
                _ => Err(AsmError::NoGrammarMatch),
            }
        },
        None => Err(AsmError::NoGrammarMatch),
    }
}

/// Reads `syntax` as a two-operand line and assembles it.
///
/// Fails with `NoGrammarMatch` where the line is not of the form
/// `mnemonic operand, operand`.
pub fn parse_dbl(syntax: String, grammar: &Grammar) -> (result: Result<Instruction, AsmError>)
    ensures
        result == spec_parse_dbl(syntax@),
        result matches Ok(instruction) ==> instruction.well_formed(),
{
    let groups = grammar.two_operands(syntax.as_str());
    dbl_from_groups(&groups)
}

/// Reads `syntax` as a one-operand line and assembles it. The operand may be
/// a label of `labels`.
///
/// Fails with `NoGrammarMatch` where the line is not of the form
/// `mnemonic operand`.
pub fn parse_sngl(syntax: String, grammar: &Grammar, labels: &LabelTable) -> (result: Result<
    Instruction,
    AsmError,
>)
    ensures
        result == spec_parse_sngl(syntax@, labels@),
        result matches Ok(instruction) ==> instruction.well_formed(),
{
    let groups = grammar.one_operand(syntax.as_str());
    sngl_from_groups(&groups, labels)
}

/// Assembles one instruction line: as a two-operand line where it is one,
/// else as a one-operand line.
pub fn parse(line: String, grammar: &Grammar, labels: &LabelTable) -> (result: Result<
    Instruction,
    AsmError,
>)
    ensures
        result == spec_parse(line@, labels@),
        result matches Ok(instruction) ==> instruction.well_formed(),
{
    let two = grammar.two_operands(line.as_str());
    if two.is_some() {
        dbl_from_groups(&two)
    } else {
        let one = grammar.one_operand(line.as_str());
        sngl_from_groups(&one, labels)
    }
}

} // verus!
