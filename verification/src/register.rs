//! The fifteen registers and their 4-bit codes.

use vstd::prelude::*;
use crate::text::{chars_of, same_text, spec_trim, trim};

verus! {

/// The code of the register that `name` names, sigil included, or `None`
/// where `name` names no register. Code 0 is given to none.
pub open spec fn spec_register_code(name: Seq<char>) -> Option<u8> {
    if name == "@ret"@ {
        Some(0x1)
    } else if name == "@spr"@ {
        Some(0x2)
    } else if name == "@glb"@ {
        Some(0x3)
    } else if name == "@rta"@ {
        Some(0x4)
    } else if name == "@fla"@ {
        Some(0x5)
    } else if name == "@fpr"@ {
        Some(0x6)
    } else if name == "@rg0"@ {
        Some(0x7)
    } else if name == "@rg1"@ {
        Some(0x8)
    } else if name == "@rg2"@ {
        Some(0x9)
    } else if name == "@rg3"@ {
        Some(0xA)
    } else if name == "@rg4"@ {
        Some(0xB)
    } else if name == "@pr0"@ {
        Some(0xC)
    } else if name == "@pr1"@ {
        Some(0xD)
    } else if name == "@pr2"@ {
        Some(0xE)
    } else if name == "@rg5"@ {
        Some(0xF)
    } else {
        None
    }
}

/// The code of the register that `syntax` names once the white space around
/// it is taken away.
pub open spec fn spec_parse_reg(syntax: Seq<char>) -> Option<u8> {
    spec_register_code(spec_trim(syntax))
}

/// Looks `name` up among the register names; the match is exact.
pub fn register_code(name: &[char]) -> (code: Option<u8>)
    ensures
        code == spec_register_code(name@),
{
    if same_text(name, "@ret") {
        Some(0x1)
    } else if same_text(name, "@spr") {
        Some(0x2)
    } else if same_text(name, "@glb") {
        Some(0x3)
    } else if same_text(name, "@rta") {
        Some(0x4)
    } else if same_text(name, "@fla") {
        Some(0x5)
    } else if same_text(name, "@fpr") {
        Some(0x6)
    } else if same_text(name, "@rg0") {
        Some(0x7)
    } else if same_text(name, "@rg1") {
        Some(0x8)
    } else if same_text(name, "@rg2") {
        Some(0x9)
    } else if same_text(name, "@rg3") {
        Some(0xA)
    } else if same_text(name, "@rg4") {
        Some(0xB)
    } else if same_text(name, "@pr0") {
        Some(0xC)
    } else if same_text(name, "@pr1") {
        Some(0xD)
    } else if same_text(name, "@pr2") {
        Some(0xE)
    } else if same_text(name, "@rg5") {
        Some(0xF)
    } else {
        None
    }
}

/// The code of the register that `syntax` names. White space around the
/// name is ignored; a name that is not in the table has no code.
pub fn parse_reg(syntax: &String) -> (code: Option<u8>)
    ensures
        code == spec_parse_reg(syntax@),
{
    let chars = chars_of(syntax.as_str());
    register_code(trim(chars.as_slice()))
}

/// Every register name is four characters long, starts with the sigil `@`,
/// holds no white space, and has a code from 1 to 15.
pub proof fn lemma_register_names(name: Seq<char>)
    requires
        spec_register_code(name) is Some,
    ensures
        name.len() == 4,
        name[0] == '@',
        spec_trim(name) == name,
        spec_parse_reg(name) == spec_register_code(name),
        1 <= spec_register_code(name)->0 <= 15,
{
    reveal_strlit("@ret");
    reveal_strlit("@spr");
    reveal_strlit("@glb");
    reveal_strlit("@rta");
    reveal_strlit("@fla");
    reveal_strlit("@fpr");
    reveal_strlit("@rg0");
    reveal_strlit("@rg1");
    reveal_strlit("@rg2");
    reveal_strlit("@rg3");
    reveal_strlit("@rg4");
    reveal_strlit("@pr0");
    reveal_strlit("@pr1");
    reveal_strlit("@pr2");
    reveal_strlit("@rg5");
    assert(!crate::text::spec_is_whitespace(name.first()));
    assert(!crate::text::spec_is_whitespace(name.last()));
}

/// Two names with the same code are the same name.
pub proof fn lemma_register_codes_differ(a: Seq<char>, b: Seq<char>)
    requires
        spec_register_code(a) is Some,
        spec_register_code(a) == spec_register_code(b),
    ensures
        a == b,
{
}

} // verus!
