//! Small text operations that the screens share.

use vstd::prelude::*;

verus! {

/// `String::push` of std: the character is appended, the rest stays.
#[verifier::external_body]
pub(crate) fn push_char(text: &mut String, ch: char)
    ensures
        final(text)@ == old(text)@.push(ch),
{
    text.push(ch)
}

} // verus!
