//! Identifier validation for generated type names.

use vstd::prelude::*;

verus! {

/// Whether the character may start an identifier: an ASCII letter or an
/// underscore.
pub open spec fn is_ident_start(c: char) -> bool {
    ('a' <= c && c <= 'z') || ('A' <= c && c <= 'Z') || c == '_'
}

/// Whether the character may continue an identifier: an ASCII letter, an
/// ASCII digit or an underscore.
pub open spec fn is_ident_continue(c: char) -> bool {
    is_ident_start(c) || ('0' <= c && c <= '9')
}

/// Whether the text is a valid identifier for a generated type: non-empty,
/// starting with a letter or underscore, continuing with letters, digits or
/// underscores.
pub open spec fn spec_valid_identifier(s: Seq<char>) -> bool {
    &&& s.len() > 0
    &&& is_ident_start(s[0])
    &&& forall|i: int| 1 <= i < s.len() ==> is_ident_continue(#[trigger] s[i])
}

fn is_ident_start_exec(c: char) -> (r: bool)
    ensures
        r == is_ident_start(c),
{
    ('a' <= c && c <= 'z') || ('A' <= c && c <= 'Z') || c == '_'
}

fn is_ident_continue_exec(c: char) -> (r: bool)
    ensures
        r == is_ident_continue(c),
{
    is_ident_start_exec(c) || ('0' <= c && c <= '9')
}

/// Whether the string is a valid identifier for a generated type.
pub fn valid_identifier(name: &str) -> (r: bool)
    ensures
        r == spec_valid_identifier(name@),
{
    let len = name.unicode_len();
    if len == 0 {
        return false;
    }
    if !is_ident_start_exec(name.get_char(0)) {
        return false;
    }
    let mut i: usize = 1;
    while i < len
        invariant
            1 <= i <= len,
            len == name@.len(),
            is_ident_start(name@[0]),
            forall|j: int| 1 <= j < i ==> is_ident_continue(#[trigger] name@[j]),
        decreases len - i,
    {
        if !is_ident_continue_exec(name.get_char(i)) {
            return false;
        }
        i = i + 1;
    }
    true
}

} // verus!
