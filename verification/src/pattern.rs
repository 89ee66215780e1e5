//! The two grammars of an instruction line, written as regular expressions
//! and matched by the `regex` crate.

use vstd::prelude::*;
use regex::Regex;

verus! {

/// The grammar `mnemonic operand, operand`: a word, one space, printable
/// characters, a comma and a space, printable characters.
pub const TWO_OPERAND_PATTERN: &'static str = r"^(?<i>\w+) (?<p1>[ -~]+), (?<p2>[ -~]+)$";

/// The grammar `mnemonic operand`: a word, one space, printable characters.
pub const ONE_OPERAND_PATTERN: &'static str = r"^(?<i>\w+) (?<p1>[ -~]+)$";

/// Whether `pattern` is one of the two grammars.
pub open spec fn spec_is_line_pattern(pattern: Seq<char>) -> bool {
    pattern == TWO_OPERAND_PATTERN@ || pattern == ONE_OPERAND_PATTERN@
}

/// `regex::Regex`, a compiled regular expression. It is carried about as it
/// is; nothing is said of what it holds.
#[verifier::external_type_specification]
#[verifier::external_body]
pub struct ExRegex(regex::Regex);

/// What the regular expression `pattern` captures in `haystack`, as the
/// `regex` crate finds it: `None` where `Regex::new` rejects the pattern or
/// the expression matches nowhere in the haystack; otherwise the capture
/// groups of the leftmost match in the order of their opening brackets,
/// group 0 being the whole match, each with the text it matched or `None`
/// where it took no part in the match.
pub uninterp spec fn captured(pattern: Seq<char>, haystack: Seq<char>) -> Option<
    Seq<Option<Seq<char>>>,
>;

/// A regular expression, compiled once and used many times.
///
/// A matcher keeps the text of its expression beside what `regex` made of
/// it. There is one way to make a matcher, [`Matcher::new`], so the two
/// always belong together.
pub struct Matcher {
    source: String,
    regex: Option<Regex>,
}

impl View for Matcher {
    type V = Seq<char>;

    /// The text of the expression.
    closed spec fn view(&self) -> Seq<char> {
        self.source@
    }
}

impl Matcher {
    /// Compiles `pattern` with `regex::Regex::new`. Should the crate reject
    /// the pattern, the matcher matches nothing.
    ///
    /// Verus takes the contract on trust. It says only that the matcher
    /// remembers its pattern. Matchers are made for the two grammars and
    /// for nothing else, so that [`Matcher::captures`] speaks of these two
    /// expressions only.
    #[verifier::external_body]
    pub(crate) fn new(pattern: &str) -> (matcher: Matcher)
        requires
            spec_is_line_pattern(pattern@),
        ensures
            matcher@ == pattern@,
    {
        Matcher { source: pattern.to_string(), regex: Regex::new(pattern).ok() }
    }

    /// Searches `haystack` with `regex::Regex::captures` and hands out the
    /// text of each capture group, as `Captures::iter` yields them.
    ///
    /// Verus takes the contract on trust. It gives the outcome the name
    /// [`captured`], which rests on two things: that the matcher was
    /// compiled from the pattern it remembers, and that what the crate
    /// captures is a function of pattern and haystack alone. It claims
    /// nothing of what either grammar captures in a given line.
    #[verifier::external_body]
    pub(crate) fn captures(&self, haystack: &str) -> (groups: Option<Vec<Option<String>>>)
        ensures
            groups.deep_view() == captured(self@, haystack@),
    {
        match &self.regex {
            Some(regex) => regex.captures(haystack).map(
                |caps| caps.iter().map(|group| group.map(|m| m.as_str().to_string())).collect(),
            ),
            None => None,
        }
    }
}

} // verus!
