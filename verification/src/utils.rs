use vstd::prelude::*;

use crate::text::{char_is_alphanumeric, is_alphanumeric, push_char};

verus! {

broadcast use vstd::string::group_string_axioms;

/// A character as it may stand in a file name: itself when alphanumeric,
/// else an underscore.
pub open spec fn file_name_char(c: char) -> char {
    if char_is_alphanumeric(c) {
        c
    } else {
        '_'
    }
}

/// `s` with every character that is not alphanumeric replaced by `_`.
pub open spec fn sanitized(s: Seq<char>) -> Seq<char> {
    s.map_values(|c: char| file_name_char(c))
}

/// `input` with every character that is not alphanumeric replaced by an underscore.
pub fn sanitize_filename(input: &str) -> (out: String)
    ensures
        out@ == sanitized(input@),
{
    let mut out = String::new();
    let mut chars_it = input.chars();
    for c in it: chars_it
        invariant
            it.seq() == input@,
            out@ == sanitized(input@.take(it.index())),
    {
        let ghost before = input@.take(it.index());
        if is_alphanumeric(c) {
            push_char(&mut out, c);
        } else {
            push_char(&mut out, '_');
        }
        assert(input@.take(it.index() + 1) == before.push(c));
    }
    assert(input@.take(input@.len() as int) == input@);
    out
}

/// A sanitized name has as many characters as the input, each of them
/// alphanumeric or an underscore; the alphanumeric ones are kept in place; and
/// sanitizing it again changes nothing.
pub proof fn lemma_sanitized(s: Seq<char>)
    ensures
        sanitized(s).len() == s.len(),
        forall|i: int|
            0 <= i < s.len() ==> (char_is_alphanumeric(#[trigger] sanitized(s)[i])
                || sanitized(s)[i] == '_'),
        forall|i: int|
            0 <= i < s.len() && char_is_alphanumeric(#[trigger] s[i]) ==> sanitized(s)[i] == s[i],
        sanitized(sanitized(s)) == sanitized(s),
{
    let t = sanitized(s);
    assert(!char_is_alphanumeric('_'));
    assert(sanitized(t) =~= t);
}

} // verus!
