//! Byte lengths of strings.
use vstd::prelude::*;

verus! {

/// The length in bytes of the UTF-8 encoding of `s`, as `str::len` reports
/// it.
pub open spec fn byte_len(s: Seq<char>) -> usize {
    vstd::utf8::encode_utf8(s).len() as usize
}

/// The length in bytes of `s`.
pub fn str_byte_len(s: &str) -> (n: usize)
    ensures
        n == byte_len(s@),
{
    s.len()
}

} // verus!
