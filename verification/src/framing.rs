//! Framing of strings as null-terminated C byte buffers.
//!
//! The connection collaborator hands every string to a native interface, so
//! a string with an embedded null byte cannot be framed and is rejected
//! before any call is made.

use vstd::prelude::*;
use vstd::string::*;

verus! {

/// Whether a byte sequence holds a null byte.
pub open spec fn has_nul_byte(b: Seq<u8>) -> bool {
    exists|i: int| 0 <= i < b.len() && b[i] == 0u8
}

/// Whether a character sequence, encoded as UTF-8, holds a null byte: the
/// condition under which it cannot be framed as a C string.
pub open spec fn seq_has_nul(s: Seq<char>) -> bool {
    has_nul_byte(vstd::utf8::encode_utf8(s))
}

/// Whether any byte of the slice is null.
pub fn contains_nul_byte(b: &[u8]) -> (r: bool)
    ensures
        r == has_nul_byte(b@),
{
    let mut i: usize = 0;
    while i < b.len()
        invariant
            i <= b@.len(),
            forall|j: int| 0 <= j < i ==> b@[j] != 0u8,
        decreases b@.len() - i,
    {
        if b[i] == 0u8 {
            return true;
        }
        i = i + 1;
    }
    false
}

/// Whether the string holds an embedded null byte in its UTF-8 form.
pub fn contains_nul(s: &str) -> (r: bool)
    ensures
        r == seq_has_nul(s@),
{
    contains_nul_byte(s.as_bytes())
}

/// Frames a payload as a null-terminated byte buffer: the payload's UTF-8
/// bytes followed by one trailing null byte. Fails exactly when the payload
/// holds an embedded null byte.
pub fn frame_c_payload(payload: &str) -> (r: Option<Vec<u8>>)
    ensures
        match r {
            Some(v) => !seq_has_nul(payload@) && v@ == payload.spec_bytes().push(0u8),
            None => seq_has_nul(payload@),
        },
{
    let bytes = payload.as_bytes();
    if contains_nul_byte(bytes) {
        return None;
    }
    let mut v: Vec<u8> = Vec::new();
    let mut i: usize = 0;
    while i < bytes.len()
        invariant
            i <= bytes@.len(),
            v@ == bytes@.subrange(0, i as int),
        decreases bytes@.len() - i,
    {
        v.push(bytes[i]);
        proof {
            assert(v@ =~= bytes@.subrange(0, i + 1 as int));
        }
        i = i + 1;
    }
    proof {
        assert(v@ =~= bytes@);
    }
    v.push(0u8);
    Some(v)
}

} // verus!
