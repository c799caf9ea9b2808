//! Small helpers for owned text: the view of a list of strings and the one
//! `String` operation that has to be taken on trust.

use vstd::prelude::*;

verus! {

/// The contents of a list of strings, each as its sequence of characters.
pub open spec fn texts(list: Seq<String>) -> Seq<Seq<char>> {
    Seq::new(list.len(), |i: int| list[i]@)
}

/// `String::push` of the standard library: appends the one character `c` to
/// the end of `text` and changes nothing else.
#[verifier::external_body]
pub(crate) fn push_char(text: &mut String, c: char)
    ensures
        final(text)@ == old(text)@.push(c),
{
    text.push(c);
}

} // verus!
