//! The scan over a program: lines in, bytes out, labels on the way.

use vstd::prelude::*;
use crate::error::{AsmError, LineError};
use crate::instruction::Instruction;
use crate::labels::LabelTable;
use crate::line::{parse, spec_parse, Grammar};
use crate::source::{spec_lines, split_lines};
use crate::text::{chars_of, lemma_trim_keeps_end, spec_trim, trim_bounds};

verus! {

/// What a line is, told by its first and its last character alone.
#[derive(Debug, Clone, Copy, PartialEq, Eq, Structural)]
pub enum LineKind {
    /// The empty line.
    Blank,
    /// A line that starts with `;`.
    Comment,
    /// A line that ends with `:` and is no comment.
    Label,
    /// Any other line.
    Instruction,
}

/// What kind of line `line` is.
pub open spec fn spec_classify(line: Seq<char>) -> LineKind {
    if line.len() == 0 {
        LineKind::Blank
    } else if line.first() == ';' {
        LineKind::Comment
    } else if line.last() == ':' {
        LineKind::Label
    } else {
        LineKind::Instruction
    }
}

/// The label that the line `line` defines: the line without the white space
/// before it and without the colon at its end.
pub open spec fn spec_label_name(line: Seq<char>) -> Seq<char> {
    spec_trim(line).drop_last()
}

/// Where a scan stands between two lines: the labels defined so far and the
/// number of instructions assembled so far.
pub ghost struct ScanState {
    pub labels: Map<Seq<char>, u16>,
    pub count: u16,
}

/// The state before the first line.
pub open spec fn spec_initial() -> ScanState {
    ScanState { labels: Map::empty(), count: 0 }
}

/// What one line does to a scan. A blank line and a comment do nothing. A
/// label line records its label with the current count. An instruction line
/// is assembled with the labels of the lines before it, and counts as one
/// instruction; the scan has room for 65535 of them.
pub open spec fn spec_step(state: ScanState, line: Seq<char>) -> Result<
    (ScanState, Option<Instruction>),
    AsmError,
> {
    match spec_classify(line) {
        LineKind::Blank => Ok((state, None)),
        LineKind::Comment => Ok((state, None)),
        LineKind::Label => Ok(
            (
                ScanState {
                    labels: state.labels.insert(spec_label_name(line), state.count),
                    count: state.count,
                },
                None,
            ),
        ),
        LineKind::Instruction => match spec_parse(line, state.labels) {
            Err(e) => Err(e),
            Ok(instruction) => if state.count == u16::MAX {
                Err(AsmError::TooManyInstructions)
            } else {
                Ok(
                    (
                        ScanState { labels: state.labels, count: (state.count + 1) as u16 },
                        Some(instruction),
                    ),
                )
            },
        },
    }
}

/// A scan after some lines: its state, the bytes it has put out, and the
/// line at which it failed, by its index, with the reason.
pub ghost struct Run {
    pub state: ScanState,
    pub bytes: Seq<u8>,
    pub failure: Option<(int, AsmError)>,
}

/// The scan over the first `n` lines of `lines`. Each line is met in the
/// state that the lines before it have left; the first line that fails
/// ends the scan, and what was put out before it stays.
pub open spec fn spec_run(lines: Seq<Seq<char>>, n: nat) -> Run
    decreases n,
{
    if n == 0 {
        Run { state: spec_initial(), bytes: Seq::empty(), failure: None }
    } else {
        let before = spec_run(lines, (n - 1) as nat);
        if before.failure is Some {
            before
        } else {
            match spec_step(before.state, lines[n - 1]) {
                Err(e) => Run { state: before.state, bytes: before.bytes, failure: Some((n - 1, e)) },
                Ok((state, None)) => Run { state, bytes: before.bytes, failure: None },
                Ok((state, Some(instruction))) => Run {
                    state,
                    bytes: before.bytes + instruction.spec_to_bytes(),
                    failure: None,
                },
            }
        }
    }
}

/// The scan over all of `lines`.
pub open spec fn spec_assemble(lines: Seq<Seq<char>>) -> Run {
    spec_run(lines, lines.len())
}

/// What kind of line `line` is.
pub fn classify(line: &[char]) -> (kind: LineKind)
    ensures
        kind == spec_classify(line@),
{
    let len = line.len();
    if len == 0 {
        LineKind::Blank
    } else if line[0] == ';' {
        LineKind::Comment
    } else if line[len - 1] == ':' {
        LineKind::Label
    } else {
        LineKind::Instruction
    }
}

/// A scan in progress.
pub struct Assembler {
    grammar: Grammar,
    labels: LabelTable,
    count: u16,
}

impl View for Assembler {
    type V = ScanState;

    closed spec fn view(&self) -> ScanState {
        ScanState { labels: self.labels@, count: self.count }
    }
}

impl Assembler {
    /// A scan before its first line.
    pub fn new() -> (assembler: Self)
        ensures
            assembler@ == spec_initial(),
    {
        Assembler { grammar: Grammar::new(), labels: LabelTable::new(), count: 0 }
    }

    /// A scan that starts from the given labels and count.
    pub fn with_labels(labels: LabelTable, count: u16) -> (assembler: Self)
        ensures
            assembler@ == (ScanState { labels: labels@, count }),
    {
        Assembler { grammar: Grammar::new(), labels, count }
    }

    /// The labels defined so far.
    pub fn labels(&self) -> (labels: &LabelTable)
        ensures
            labels@ == self@.labels,
    {
        &self.labels
    }

    /// The number of instructions assembled so far.
    pub fn count(&self) -> (count: u16)
        ensures
            count == self@.count,
    {
        self.count
    }

    /// Takes the next line of the program and returns the instruction that
    /// it stands for, if it is an instruction line.
    ///
    /// A line that fails leaves the scan as it was.
    pub fn feed(&mut self, line: &str) -> (result: Result<Option<Instruction>, AsmError>)
        ensures
            match spec_step(old(self)@, line@) {
                Ok((state, instruction)) => result == Ok::<Option<Instruction>, AsmError>(
                    instruction,
                ) && final(self)@ == state,
                Err(e) => result == Err::<Option<Instruction>, AsmError>(e) && final(self)@ == old(
                    self,
                )@,
            },
            result matches Ok(Some(instruction)) ==> instruction.well_formed(),
    {
        let chars = chars_of(line);
        match classify(chars.as_slice()) {
            LineKind::Blank => Ok(None),
            LineKind::Comment => Ok(None),
            LineKind::Label => {
                let (lo, hi) = trim_bounds(chars.as_slice());
                proof {
                    lemma_trim_keeps_end(chars@);
                    assert(chars@.subrange(lo as int, hi as int).drop_last() == chars@.subrange(
                        lo as int,
                        hi - 1,
                    ));
                }
                let name = String::from_str(line.substring_char(lo, hi - 1));
                self.labels.insert(name, self.count);
                Ok(None)
            },
            LineKind::Instruction => {
                let instruction = match parse(String::from_str(line), &self.grammar, &self.labels) {
                    Ok(instruction) => instruction,
                    Err(e) => {
                        return Err(e);
                    },
                };
                if self.count == u16::MAX {
                    return Err(AsmError::TooManyInstructions);
                }
                self.count = self.count + 1;
                Ok(Some(instruction))
            },
        }
    }
}

/// What a scan over a whole program gives: the bytes of the instructions
/// that were assembled, and the failure that ended the scan early, if one
/// did.
#[derive(Debug)]
pub struct Assembly {
    pub bytes: Vec<u8>,
    pub failure: Option<LineError>,
}

impl Assembly {
    /// Whether this is what the scan `run` over `lines` gives: the same
    /// bytes, and the same failure, told with the number of the line, which
    /// counts from 1, and with its text.
    pub open spec fn is_outcome_of(&self, run: Run, lines: Seq<Seq<char>>) -> bool {
        &&& self.bytes@ == run.bytes
        &&& match run.failure {
            None => self.failure is None,
            Some((index, kind)) => {
                &&& self.failure is Some
                &&& self.failure->0.number == index + 1
                &&& self.failure->0.line@ == lines[index]
                &&& self.failure->0.kind == kind
            },
        }
    }
}

/// Assembles a program, given as its text: lines with a line feed between
/// each and the next.
///
/// The bytes are those of all instruction lines where no line fails, and
/// of the instruction lines before the first line that fails otherwise.
pub fn assemble(source: &str) -> (assembly: Assembly)
    ensures
        assembly.is_outcome_of(spec_assemble(spec_lines(source@)), spec_lines(source@)),
{
    let lines = split_lines(source);
    assemble_lines(&lines)
}

/// Assembles a program, given as its lines in order.
pub fn assemble_lines(lines: &Vec<String>) -> (assembly: Assembly)
    ensures
        assembly.is_outcome_of(spec_assemble(lines.deep_view()), lines.deep_view()),
{
    let mut assembler = Assembler::new();
    let mut bytes: Vec<u8> = Vec::new();
    let mut i: usize = 0;
    while i < lines.len()
        invariant
            i <= lines.len(),
            spec_run(lines.deep_view(), i as nat) == (Run {
                state: assembler@,
                bytes: bytes@,
                failure: None,
            }),
        decreases lines.len() - i,
    {
        let line = lines[i].as_str();
        assert(lines.deep_view()[i as int] == line@);
        match assembler.feed(line) {
            Ok(None) => {},
            Ok(Some(instruction)) => {
                let encoded = instruction.to_bytes();
                let ghost before = bytes@;
                bytes.push(encoded[0]);
                bytes.push(encoded[1]);
                bytes.push(encoded[2]);
                bytes.push(encoded[3]);
                assert(bytes@ == before + instruction.spec_to_bytes());
            },
            Err(kind) => {
                let failure = LineError { number: i + 1, line: String::from_str(line), kind };
                proof {
                    lemma_failure_stays(lines.deep_view(), (i + 1) as nat, lines.len() as nat);
                }
                return Assembly { bytes, failure: Some(failure) };
            },
        }
        i += 1;
    }
    Assembly { bytes, failure: None }
}

/// A scan that has failed stays as it is, whatever lines follow.
pub proof fn lemma_failure_stays(lines: Seq<Seq<char>>, n: nat, m: nat)
    requires
        n <= m,
        spec_run(lines, n).failure is Some,
    ensures
        spec_run(lines, m) == spec_run(lines, n),
    decreases m,
{
    if n < m {
        lemma_failure_stays(lines, n, (m - 1) as nat);
    }
}

/// A line is met in the state that the lines before it have left: the scan
/// of the first `n` lines is the same in any two programs that start with
/// these lines. So a label is known only after the line that defines it.
pub proof fn lemma_run_ignores_later_lines(a: Seq<Seq<char>>, b: Seq<Seq<char>>, n: nat)
    requires
        n <= a.len(),
        n <= b.len(),
        a.take(n as int) == b.take(n as int),
    ensures
        spec_run(a, n) == spec_run(b, n),
    decreases n,
{
    if n > 0 {
        assert(a.take(n - 1) == a.take(n as int).take(n - 1));
        assert(b.take(n - 1) == b.take(n as int).take(n - 1));
        lemma_run_ignores_later_lines(a, b, (n - 1) as nat);
        assert(a[n - 1] == a.take(n as int)[n - 1]);
        assert(b[n - 1] == b.take(n as int)[n - 1]);
    }
}

/// A scan only grows: a label, once defined, stays defined; the count of
/// instructions never falls; and the bytes put out stay where they are.
pub proof fn lemma_run_grows(lines: Seq<Seq<char>>, n: nat, m: nat)
    requires
        n <= m,
    ensures
        spec_run(lines, n).state.labels.dom().subset_of(spec_run(lines, m).state.labels.dom()),
        spec_run(lines, n).state.count <= spec_run(lines, m).state.count,
        spec_run(lines, n).bytes.is_prefix_of(spec_run(lines, m).bytes),
    decreases m,
{
    if n < m {
        lemma_run_grows(lines, n, (m - 1) as nat);
    }
}

/// At every point of a scan there are four bytes for each instruction
/// counted, and no label stands for more than the count.
pub proof fn lemma_run_counts_instructions(lines: Seq<Seq<char>>, n: nat)
    ensures
        spec_run(lines, n).bytes.len() == 4 * spec_run(lines, n).state.count,
        forall|name: Seq<char>| #[trigger]
            spec_run(lines, n).state.labels.contains_key(name) ==> spec_run(
                lines,
                n,
            ).state.labels[name] <= spec_run(lines, n).state.count,
    decreases n,
{
    if n > 0 {
        lemma_run_counts_instructions(lines, (n - 1) as nat);
    }
}

} // verus!
