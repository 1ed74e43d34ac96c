//! Scanning text for the end of its first word.

use vstd::prelude::*;
use vstd::utf8::encode_utf8;

verus! {

/// The ASCII code of a space, the delimiter the scan looks for.
pub const SPACE: u8 = 32;

/// Returns the byte offset of the first ASCII space in `s`, or the byte
/// length of `s` when it holds no space.
///
/// The offset is a plain index into the UTF-8 encoding of the text; nothing
/// ties it to the text it was computed from, so it can outlive the text's
/// contents.
pub fn first_word(s: &String) -> (i: usize)
    ensures
        i <= encode_utf8(s@).len(),
        forall|j: int| 0 <= j < i ==> encode_utf8(s@)[j] != SPACE,
        i < encode_utf8(s@).len() ==> encode_utf8(s@)[i as int] == SPACE,
{
    let bytes: &[u8] = s.as_str().as_bytes();
    let n: usize = bytes.len();
    let mut i: usize = 0;
    while i < n
        invariant
            bytes@ == encode_utf8(s@),
            n == bytes@.len(),
            i <= n,
            forall|j: int| 0 <= j < i ==> bytes@[j] != SPACE,
        decreases n - i,
    {
        if bytes[i] == SPACE {
            return i;
        }
        i = i + 1;
    }
    i
}

} // verus!
