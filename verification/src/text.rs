//! Comparing and joining text.

use vstd::prelude::*;
use vstd::string::*;
use vstd::utf8::*;

verus! {

/// The character of `text` at `position`, or a blank past its end.
pub open spec fn character_at(text: Seq<char>, position: int) -> char {
    if 0 <= position < text.len() {
        text[position]
    } else {
        ' '
    }
}

/// The length of `text` and three of its characters. This is enough to tell
/// apart the names of each closed table of this crate.
pub open spec fn telltale(text: Seq<char>) -> (nat, char, char, char) {
    (text.len(), character_at(text, 0), character_at(text, 4), character_at(text, 9))
}

/// Two texts with the same UTF-8 encoding hold the same characters.
pub proof fn lemma_same_bytes_same_text(a: Seq<char>, b: Seq<char>)
    requires
        encode_utf8(a) == encode_utf8(b),
    ensures
        a == b,
{
    encode_utf8_decode_utf8(a);
    encode_utf8_decode_utf8(b);
}

/// Whether `a` and `b` hold the same characters.
pub fn str_eq(a: &str, b: &str) -> (same: bool)
    ensures
        same == (a@ == b@),
{
    let left = a.as_bytes();
    let right = b.as_bytes();
    if left.len() != right.len() {
        return false;
    }
    let mut i: usize = 0;
    while i < left.len()
        invariant
            i <= left.len(),
            left.len() == right.len(),
            left@ == a.spec_bytes(),
            right@ == b.spec_bytes(),
            forall|j: int| 0 <= j < i ==> left@[j] == right@[j],
        decreases left.len() - i,
    {
        if left[i] != right[i] {
            return false;
        }
        i += 1;
    }
    proof {
        assert(left@ =~= right@);
        lemma_same_bytes_same_text(a@, b@);
    }
    true
}

/// `head` followed by `tail`, as a new text.
pub fn join(head: &str, tail: &str) -> (joined: String)
    ensures
        joined@ == head@ + tail@,
{
    let mut joined = head.to_owned();
    joined.append(tail);
    joined
}

/// `head`, then `middle`, then `tail`, as a new text.
pub fn join3(head: &str, middle: &str, tail: &str) -> (joined: String)
    ensures
        joined@ == head@ + middle@ + tail@,
{
    let mut joined = head.to_owned();
    joined.append(middle);
    joined.append(tail);
    joined
}

} // verus!
