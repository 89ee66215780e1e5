//! A program as one text: where its lines begin and end.

use vstd::prelude::*;
use vstd::utf8::{
    encode_scalar, encode_utf8, encode_utf8_decode_utf8, encode_utf8_valid_utf8,
    is_char_boundary, is_char_boundary_iff_not_is_continuation_byte, valid_utf8_split,
};

verus! {

/// How many characters stand before the first line feed of `s`; all of
/// them, where it has none.
pub open spec fn spec_first_line_len(s: Seq<char>) -> nat
    decreases s.len(),
{
    if s.len() == 0 || s.first() == '\n' {
        0
    } else {
        1 + spec_first_line_len(s.drop_first())
    }
}

/// The lines of `s`: what stands before, between and after its line feeds.
/// A text with `n` line feeds has `n + 1` lines, some of them empty maybe;
/// the empty text is one empty line.
pub open spec fn spec_lines(s: Seq<char>) -> Seq<Seq<char>>
    decreases s.len(),
{
    let n = spec_first_line_len(s);
    if n >= s.len() {
        seq![s]
    } else {
        seq![s.take(n as int)] + spec_lines(s.skip(n as int + 1))
    }
}

/// The first line ends where the text ends or at a line feed, and holds no
/// line feed itself.
pub proof fn lemma_first_line(s: Seq<char>)
    ensures
        spec_first_line_len(s) <= s.len(),
        spec_first_line_len(s) < s.len() ==> s[spec_first_line_len(s) as int] == '\n',
        forall|i: int| 0 <= i < spec_first_line_len(s) ==> s[i] != '\n',
    decreases s.len(),
{
    if s.len() > 0 && s.first() != '\n' {
        lemma_first_line(s.drop_first());
        assert forall|i: int| 0 <= i < spec_first_line_len(s) implies s[i] != '\n' by {
            if i > 0 {
                assert(s[i] == s.drop_first()[i - 1]);
            }
        }
    }
}

/// The text of `lines` with a line feed between each line and the next.
pub open spec fn spec_join(lines: Seq<Seq<char>>) -> Seq<char>
    decreases lines.len(),
{
    if lines.len() == 0 {
        Seq::empty()
    } else if lines.len() == 1 {
        lines[0]
    } else {
        lines[0] + seq!['\n'] + spec_join(lines.drop_first())
    }
}

/// Nothing is lost and nothing is added: there is a line at least, no line
/// holds a line feed, and the lines with line feeds between them are the
/// text again.
pub proof fn lemma_lines_join(s: Seq<char>)
    ensures
        spec_lines(s).len() >= 1,
        forall|k: int, i: int|
            0 <= k < spec_lines(s).len() && 0 <= i < spec_lines(s)[k].len() ==> spec_lines(
                s,
            )[k][i] != '\n',
        spec_join(spec_lines(s)) == s,
    decreases s.len(),
{
    lemma_first_line(s);
    let n = spec_first_line_len(s);
    if n < s.len() {
        let rest = s.skip(n as int + 1);
        lemma_lines_join(rest);
        let lines = spec_lines(s);
        assert(lines.drop_first() == spec_lines(rest));
        assert(lines[0] == s.take(n as int));
        assert(s == s.take(n as int) + seq!['\n'] + rest);
        assert forall|k: int, i: int|
            0 <= k < lines.len() && 0 <= i < lines[k].len() implies lines[k][i] != '\n' by {
            if k > 0 {
                assert(lines[k] == spec_lines(rest)[k - 1]);
            }
        }
    }
}

/// A line feed is one byte, `0x0A`, and no other character has that byte
/// anywhere in its encoding.
proof fn lemma_line_feed_byte(c: char)
    ensures
        1 <= encode_scalar(c as u32).len() <= 4,
        c == '\n' ==> encode_scalar(c as u32) == seq![0x0Au8],
        c != '\n' ==> forall|j: int|
            0 <= j < encode_scalar(c as u32).len() ==> #[trigger] encode_scalar(c as u32)[j]
                != 0x0A,
{
    let v = c as u32;
    assert(v <= 0x7F ==> (v & 0x7F) as u8 == v) by (bit_vector);
    assert((0xC0u8 | ((v >> 6) & 0x1F) as u8) >= 0xC0) by (bit_vector);
    assert((0xE0u8 | ((v >> 12) & 0x0F) as u8) >= 0xE0) by (bit_vector);
    assert((0xF0u8 | ((v >> 18) & 0x7) as u8) >= 0xF0) by (bit_vector);
    assert((0x80u8 | (v & 0x3F) as u8) >= 0x80) by (bit_vector);
    assert((0x80u8 | ((v >> 6) & 0x3F) as u8) >= 0x80) by (bit_vector);
    assert((0x80u8 | ((v >> 12) & 0x3F) as u8) >= 0x80) by (bit_vector);
    if c == '\n' {
        assert(v == 0x0A);
        assert(encode_scalar(v) =~= seq![0x0Au8]);
    }
}

/// Where the first line ends, in bytes: the bytes of the first line hold no
/// `0x0A`, the byte after them is the line feed, and what follows is the
/// rest of the text.
proof fn lemma_first_line_bytes(s: Seq<char>)
    ensures
        ({
            let n = spec_first_line_len(s) as int;
            let bytes = encode_utf8(s);
            let end = encode_utf8(s.take(n)).len() as int;
            &&& end <= bytes.len()
            &&& forall|j: int| 0 <= j < end ==> #[trigger] bytes[j] != 0x0A
            &&& n >= s.len() ==> end == bytes.len()
            &&& n < s.len() ==> {
                &&& end < bytes.len()
                &&& bytes[end] == 0x0A
                &&& bytes.subrange(0, end) == encode_utf8(s.take(n))
                &&& bytes.subrange(end + 1, bytes.len() as int) == encode_utf8(s.skip(n + 1))
            }
        }),
    decreases s.len(),
{
    let n = spec_first_line_len(s) as int;
    let bytes = encode_utf8(s);
    if s.len() == 0 {
        assert(s.take(0) == s);
    } else {
        let first = encode_scalar(s[0] as u32);
        let tail = s.drop_first();
        lemma_line_feed_byte(s[0]);
        assert(bytes == first + encode_utf8(tail));
        if s.first() == '\n' {
            assert(s.take(0) == Seq::<char>::empty());
            assert(encode_utf8(s.take(0)).len() == 0);
            assert(s.skip(1) == tail);
            assert(bytes.subrange(1, bytes.len() as int) == encode_utf8(tail));
            assert(bytes.subrange(0, 0) == encode_utf8(s.take(0)));
        } else {
            lemma_first_line_bytes(tail);
            lemma_first_line(tail);
            let m = spec_first_line_len(tail) as int;
            assert(n == m + 1);
            let tail_bytes = encode_utf8(tail);
            let tail_end = encode_utf8(tail.take(m)).len() as int;
            assert(s.take(n).drop_first() == tail.take(m));
            assert(s.take(n)[0] == s[0]);
            assert(encode_utf8(s.take(n)) == first + encode_utf8(tail.take(m)));
            let end = first.len() + tail_end;
            assert forall|j: int| 0 <= j < end implies bytes[j] != 0x0A by {
                if j >= first.len() {
                    assert(bytes[j] == tail_bytes[j - first.len()]);
                } else {
                    assert(bytes[j] == first[j]);
                }
            }
            if n < s.len() {
                assert(bytes[end] == tail_bytes[tail_end]);
                assert(s.skip(n + 1) == tail.skip(m + 1));
                assert(bytes.subrange(0, end) == first + tail_bytes.subrange(0, tail_end));
                assert(bytes.subrange(end + 1, bytes.len() as int) == tail_bytes.subrange(
                    tail_end + 1,
                    tail_bytes.len() as int,
                ));
            }
        }
    }
}

/// Two texts with the same bytes are the same text.
proof fn lemma_same_bytes_same_text(a: Seq<char>, b: Seq<char>)
    requires
        encode_utf8(a) == encode_utf8(b),
    ensures
        a == b,
{
    encode_utf8_decode_utf8(a);
    encode_utf8_decode_utf8(b);
}

/// The lines of `source`, in order: the text is cut at each line feed, and
/// the line feeds are dropped.
pub fn split_lines(source: &str) -> (lines: Vec<String>)
    ensures
        lines.deep_view() == spec_lines(source@),
{
    let mut lines: Vec<String> = Vec::new();
    let mut rest: &str = source;
    assert(lines.deep_view() == Seq::<Seq<char>>::empty());
    loop
        invariant
            spec_lines(source@) == lines.deep_view() + spec_lines(rest@),
        decreases rest@.len(),
    {
        let bytes = rest.as_bytes();
        let mut end: usize = 0;
        while end < bytes.len() && bytes[end] != 0x0A
            invariant
                end <= bytes@.len(),
                forall|j: int| 0 <= j < end ==> bytes@[j] != 0x0A,
            decreases bytes@.len() - end,
        {
            end += 1;
        }
        let ghost chars = rest@;
        let ghost n = spec_first_line_len(chars) as int;
        let ghost before = lines.deep_view();
        proof {
            lemma_first_line_bytes(chars);
            lemma_first_line(chars);
            assert(end == encode_utf8(chars.take(n)).len());
        }
        if end == bytes.len() {
            lines.push(String::from_str(rest));
            assert(lines.deep_view() == before.push(chars));
            return lines;
        }
        proof {
            encode_utf8_valid_utf8(chars);
            is_char_boundary_iff_not_is_continuation_byte(bytes@, end as int);
            valid_utf8_split(bytes@, end as int);
            reveal_with_fuel(is_char_boundary, 2);
        }
        let (head, tail) = rest.split_at(end);
        let (_, next) = tail.split_at(1);
        proof {
            assert(encode_utf8(head@) == encode_utf8(chars.take(n)));
            lemma_same_bytes_same_text(head@, chars.take(n));
            assert(encode_utf8(next@) == encode_utf8(chars.skip(n + 1)));
            lemma_same_bytes_same_text(next@, chars.skip(n + 1));
        }
        lines.push(String::from_str(head));
        assert(lines.deep_view() == before.push(chars.take(n)));
        rest = next;
    }
}

} // verus!
