//! Small helpers on strings.

use vstd::prelude::*;

verus! {

/// `String::from` on a character: the text that holds this character alone.
#[verifier::external_body]
pub(crate) fn char_text(ch: char) -> (text: String)
    ensures
        text@ == seq![ch],
{
    String::from(ch)
}

/// Whether `text` spells `word`.
pub fn text_is(text: &str, word: &str) -> (same: bool)
    ensures
        same == (text@ == word@),
{
    let left = String::from_str(text);
    let right = String::from_str(word);
    left == right
}

/// `head`, then `middle`, then `tail`.
pub fn join3(head: &str, middle: &str, tail: &str) -> (joined: String)
    ensures
        joined@ == head@ + middle@ + tail@,
{
    let mut joined = String::from_str(head);
    joined.append(middle);
    joined.append(tail);
    joined
}

} // verus!
