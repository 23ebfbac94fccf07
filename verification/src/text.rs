//! Comparison of text through its UTF-8 encoding.

use vstd::prelude::*;
use vstd::utf8::encode_utf8;
use vstd::utf8::encode_utf8_decode_utf8;

verus! {

/// Whether two byte slices hold the same bytes in the same order.
pub fn bytes_equal(left: &[u8], right: &[u8]) -> (same: bool)
    ensures
        same == (left@ == right@),
{
    if left.len() != right.len() {
        return false;
    }
    let mut at: usize = 0;
    while at < left.len()
        invariant
            left@.len() == right@.len(),
            at <= left@.len(),
            forall|k: int| 0 <= k < at ==> left@[k] == right@[k],
        decreases left@.len() - at,
    {
        if left[at] != right[at] {
            return false;
        }
        at += 1;
    }
    assert(left@ =~= right@);
    true
}

/// Two texts with the same UTF-8 encoding are the same text.
pub proof fn lemma_encoding_is_injective(left: Seq<char>, right: Seq<char>)
    requires
        encode_utf8(left) == encode_utf8(right),
    ensures
        left == right,
{
    encode_utf8_decode_utf8(left);
    encode_utf8_decode_utf8(right);
}

/// Whether two texts are equal, character for character.
pub fn text_equals(left: &str, right: &str) -> (same: bool)
    ensures
        same == (left@ == right@),
{
    let same = bytes_equal(left.as_bytes(), right.as_bytes());
    proof {
        if same {
            lemma_encoding_is_injective(left@, right@);
        }
    }
    same
}

} // verus!
