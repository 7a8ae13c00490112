//! Comparison of string slices by their characters.

use vstd::prelude::*;
use vstd::string::*;
use vstd::utf8::*;

verus! {

/// Tells whether two string slices hold the same characters.
pub fn text_equals(text: &str, other: &str) -> (same: bool)
    ensures
        same == (text@ == other@),
{
    let a = text.as_bytes();
    let b = other.as_bytes();
    proof {
        encode_utf8_decode_utf8(text@);
        encode_utf8_decode_utf8(other@);
    }
    if a.len() != b.len() {
        return false;
    }
    let mut i: usize = 0;
    while i < a.len()
        invariant
            i <= a.len(),
            a.len() == b.len(),
            a@ == text.spec_bytes(),
            b@ == other.spec_bytes(),
            forall|k: int| 0 <= k < i ==> a@[k] == b@[k],
        decreases a.len() - i,
    {
        if a[i] != b[i] {
            return false;
        }
        i += 1;
    }
    assert(a@ =~= b@);
    true
}

} // verus!
