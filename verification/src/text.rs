//! Small operations on text.

use vstd::prelude::*;
use vstd::string::*;

verus! {

/// Whether `text` begins with `prefix`.
pub open spec fn has_prefix(text: Seq<char>, prefix: Seq<char>) -> bool {
    prefix.len() <= text.len() && text.subrange(0, prefix.len() as int) == prefix
}

/// Whether `text` begins with `prefix`. Meant for a short prefix: every
/// character of the prefix is looked up from the start of the text.
pub fn starts_with(text: &str, prefix: &str) -> (hit: bool)
    ensures
        hit == has_prefix(text@, prefix@),
{
    let wanted = prefix.unicode_len();
    if text.unicode_len() < wanted {
        return false;
    }
    let mut i: usize = 0;
    while i < wanted
        invariant
            wanted == prefix@.len(),
            wanted <= text@.len(),
            i <= wanted,
            text@.subrange(0, i as int) == prefix@.subrange(0, i as int),
        decreases wanted - i,
    {
        if text.get_char(i) != prefix.get_char(i) {
            return false;
        }
        i = i + 1;
    }
    assert(prefix@.subrange(0, wanted as int) =~= prefix@);
    true
}

/// `String::push`: the text grows by the one character, at its end.
#[verifier::external_body]
pub(crate) fn push_char(text: &mut String, c: char)
    ensures
        final(text)@ == old(text)@.push(c),
{
    text.push(c)
}

} // verus!
