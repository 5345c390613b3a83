use vstd::prelude::*;
use vstd::string::*;
use vstd::utf8::encode_utf8;

verus! {

/// The bytes of a C string holding `bytes`: the bytes followed by one NUL.
pub open spec fn nul_terminated_of(bytes: Seq<u8>) -> Seq<u8> {
    bytes.push(0u8)
}

/// Whether `bytes` cannot be carried by a C string, because it holds a NUL.
pub open spec fn has_interior_nul(bytes: Seq<u8>) -> bool {
    exists|i: int| 0 <= i < bytes.len() && bytes[i] == 0u8
}

/// Returns whether `bytes` holds a NUL byte anywhere.
pub fn contains_nul(bytes: &Vec<u8>) -> (r: bool)
    ensures
        r == has_interior_nul(bytes@),
{
    let mut i: usize = 0;
    while i < bytes.len()
        invariant
            i <= bytes@.len(),
            forall|j: int| 0 <= j < i ==> bytes@[j] != 0u8,
        decreases bytes@.len() - i,
    {
        if bytes[i] == 0u8 {
            return true;
        }
        i = i + 1;
    }
    false
}

/// Encodes `text` as the bytes of a NUL-terminated C string: its UTF-8 bytes
/// followed by one NUL. Returns `None` exactly when the text holds a NUL of its
/// own, which a C string cannot carry.
pub fn to_nul_terminated(text: &str) -> (r: Option<Vec<u8>>)
    ensures
        has_interior_nul(encode_utf8(text@)) <==> r is None,
        r matches Some(b) ==> b@ == nul_terminated_of(encode_utf8(text@)),
{
    let mut bytes = text.as_bytes_vec();
    if contains_nul(&bytes) {
        None
    } else {
        bytes.push(0u8);
        Some(bytes)
    }
}

} // verus!
