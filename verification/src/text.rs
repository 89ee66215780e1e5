//! Text as a sequence of characters: conversion, comparison and trimming.

use vstd::prelude::*;
use vstd::slice::slice_subrange;

verus! {

/// The characters of `text`, in order.
pub fn chars_of(text: &str) -> (chars: Vec<char>)
    ensures
        chars@ == text@,
{
    let mut chars: Vec<char> = Vec::new();
    for c in it: text.chars()
        invariant
            it.seq() == text@,
            chars@ == it.seq().take(it.index() as int),
    {
        chars.push(c);
    }
    chars
}

/// Whether `chars` spells exactly `text`.
pub fn same_text(chars: &[char], text: &str) -> (same: bool)
    ensures
        same == (chars@ == text@),
{
    let mut matched: usize = 0;
    let mut same = true;
    for c in it: text.chars()
        invariant
            it.seq() == text@,
            same ==> matched == it.index() && matched <= chars@.len() && chars@.take(
                matched as int,
            ) == text@.take(matched as int),
            !same ==> chars@ != text@,
    {
        if same {
            if matched < chars.len() && chars[matched] == c {
                assert(chars@.take(matched + 1) == chars@.take(matched as int).push(
                    chars@[matched as int],
                ));
                assert(text@.take(matched + 1) == text@.take(matched as int).push(
                    text@[matched as int],
                ));
                matched += 1;
            } else {
                same = false;
            }
        }
    }
    proof {
        if same {
            assert(text@.take(matched as int) == text@);
            if matched == chars@.len() {
                assert(chars@.take(matched as int) == chars@);
            }
        }
    }
    same && matched == chars.len()
}

/// The characters that count as white space: those with the Unicode
/// property `White_Space`.
pub open spec fn spec_is_whitespace(c: char) -> bool {
    ||| '\u{9}' <= c <= '\u{d}'
    ||| c == ' '
    ||| c == '\u{85}'
    ||| c == '\u{a0}'
    ||| c == '\u{1680}'
    ||| '\u{2000}' <= c <= '\u{200a}'
    ||| c == '\u{2028}'
    ||| c == '\u{2029}'
    ||| c == '\u{202f}'
    ||| c == '\u{205f}'
    ||| c == '\u{3000}'
}

/// Whether `c` is white space.
#[verifier::when_used_as_spec(spec_is_whitespace)]
pub fn is_whitespace(c: char) -> (space: bool)
    ensures
        space == spec_is_whitespace(c),
{
    ('\u{9}' <= c && c <= '\u{d}') || c == ' ' || c == '\u{85}' || c == '\u{a0}' || c
        == '\u{1680}' || ('\u{2000}' <= c && c <= '\u{200a}') || c == '\u{2028}' || c
        == '\u{2029}' || c == '\u{202f}' || c == '\u{205f}' || c == '\u{3000}'
}

/// `s` without the white space it starts with.
pub open spec fn spec_trim_start(s: Seq<char>) -> Seq<char>
    decreases s.len(),
{
    if s.len() > 0 && spec_is_whitespace(s.first()) {
        spec_trim_start(s.drop_first())
    } else {
        s
    }
}

/// `s` without the white space it ends with.
pub open spec fn spec_trim_end(s: Seq<char>) -> Seq<char>
    decreases s.len(),
{
    if s.len() > 0 && spec_is_whitespace(s.last()) {
        spec_trim_end(s.drop_last())
    } else {
        s
    }
}

/// `s` without the white space around it.
pub open spec fn spec_trim(s: Seq<char>) -> Seq<char> {
    spec_trim_end(spec_trim_start(s))
}

/// Where the text starts and ends that is left of `chars` when the white
/// space around it is taken away.
pub fn trim_bounds(chars: &[char]) -> (bounds: (usize, usize))
    ensures
        bounds.0 <= bounds.1 <= chars@.len(),
        chars@.subrange(bounds.0 as int, bounds.1 as int) == spec_trim(chars@),
{
    let len = chars.len();
    let mut lo: usize = 0;
    assert(chars@.subrange(0, len as int) == chars@);
    while lo < len && is_whitespace(chars[lo])
        invariant
            lo <= len == chars@.len(),
            spec_trim_start(chars@) == spec_trim_start(chars@.subrange(lo as int, len as int)),
        decreases len - lo,
    {
        assert(chars@.subrange(lo as int, len as int).drop_first() == chars@.subrange(
            lo + 1,
            len as int,
        ));
        lo += 1;
    }
    let mut hi: usize = len;
    while hi > lo && is_whitespace(chars[hi - 1])
        invariant
            lo <= hi <= len == chars@.len(),
            spec_trim(chars@) == spec_trim_end(chars@.subrange(lo as int, hi as int)),
        decreases hi - lo,
    {
        assert(chars@.subrange(lo as int, hi as int).drop_last() == chars@.subrange(
            lo as int,
            hi - 1,
        ));
        hi -= 1;
    }
    (lo, hi)
}

/// The part of `chars` that is left when the white space around it is taken
/// away.
pub fn trim(chars: &[char]) -> (inner: &[char])
    ensures
        inner@ == spec_trim(chars@),
{
    let (lo, hi) = trim_bounds(chars);
    slice_subrange(chars, lo, hi)
}

/// A text that ends with something other than white space still ends with
/// it after trimming.
pub proof fn lemma_trim_keeps_end(s: Seq<char>)
    requires
        s.len() > 0,
        !spec_is_whitespace(s.last()),
    ensures
        spec_trim(s).len() > 0,
        spec_trim(s).last() == s.last(),
        spec_trim(s) == spec_trim_start(s),
{
    lemma_trim_start_keeps_end(s);
}

/// Taking white space away from the start of a text that ends with
/// something else leaves the end in place.
pub proof fn lemma_trim_start_keeps_end(s: Seq<char>)
    requires
        s.len() > 0,
        !spec_is_whitespace(s.last()),
    ensures
        spec_trim_start(s).len() > 0,
        spec_trim_start(s).last() == s.last(),
    decreases s.len(),
{
    if spec_is_whitespace(s.first()) {
        assert(s.len() > 1);
        assert(s.drop_first().last() == s.last());
        lemma_trim_start_keeps_end(s.drop_first());
    }
}

} // verus!
