//! Small text utilities shared by the renderers and the query builder:
//! substring containment as a spec-level notion, string equality, and a
//! character-append operation for building pages.

use vstd::prelude::*;

verus! {

/// `needle` occurs contiguously somewhere inside `hay`.
pub open spec fn contains_sub(hay: Seq<char>, needle: Seq<char>) -> bool {
    exists|i: int|
        0 <= i && i + needle.len() <= hay.len() && #[trigger] hay.subrange(i, i + needle.len())
            == needle
}

/// Anything of the shape `prefix + needle + suffix` contains `needle`.
pub proof fn lemma_concat_contains(prefix: Seq<char>, needle: Seq<char>, suffix: Seq<char>)
    ensures
        contains_sub(prefix + needle + suffix, needle),
{
    let hay = prefix + needle + suffix;
    let i = prefix.len() as int;
    assert(hay.subrange(i, i + needle.len()) =~= needle);
}

/// Relies on `String::push`: appends the character to the end of the string.
#[verifier::external_body]
pub fn push_char(s: &mut String, c: char)
    ensures
        final(s)@ == old(s)@.push(c),
{
    s.push(c);
}

/// String-slice equality, decided through owned strings.
pub fn str_eq(a: &str, b: &str) -> (r: bool)
    ensures
        r == (a@ == b@),
{
    let sa: String = a.to_owned();
    let sb: String = b.to_owned();
    sa == sb
}

} // verus!
