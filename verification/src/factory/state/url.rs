//! A bounded URI stored inline in an account.
use vstd::prelude::*;
use crate::error::ErrorCode;
use vstd::string::StringSliceAdditionalSpecFns;

verus! {

broadcast use vstd::array::group_array_axioms;

/// The longest URI an account holds, in bytes.
pub const URI_MAX_LEN: usize = 150;

/// A URI of at most 150 bytes, padded with zero bytes.
#[derive(Clone, Copy, Debug, PartialEq, Eq)]
pub struct UriResource {
    pub len: u16,
    pub uri: [u8; 150],
}

/// The 150-byte padding of `bytes`: the bytes, then zero bytes.
pub open spec fn padded(bytes: Seq<u8>) -> Seq<u8> {
    bytes + Seq::new((150 - bytes.len()) as nat, |i: int| 0u8)
}

impl Default for UriResource {
    /// The empty URI.
    fn default() -> (u: Self)
        ensures
            u.len == 0,
            u.uri@ == padded(Seq::<u8>::empty()),
    {
        let u = UriResource { len: 0, uri: [0u8; 150] };
        assert(u.uri@ =~= padded(Seq::<u8>::empty()));
        u
    }
}

impl UriResource {
    pub const LEN: usize = 2 + URI_MAX_LEN;

    /// Stores `uri`, which must be at most 150 bytes long.
    pub fn validate(uri: &str) -> (r: Result<UriResource, ErrorCode>)
        ensures
            uri.spec_bytes().len() > 150 ==> r == Err::<UriResource, ErrorCode>(ErrorCode::StringTooLong),
            uri.spec_bytes().len() <= 150 ==> (r matches Ok(u) && u.len == uri.spec_bytes().len()
                && u.uri@ == padded(uri.spec_bytes())),
    {
        let src = uri.as_bytes();
        let len = src.len();
        if len > URI_MAX_LEN {
            return Err(ErrorCode::StringTooLong);
        }
        let mut bytes = [0u8; 150];
        let mut i: usize = 0;
        while i < len
            invariant
                len == src@.len(),
                len <= 150,
                0 <= i <= len,
                forall|j: int| 0 <= j < i ==> bytes@[j] == src@[j],
                forall|j: int| len <= j < 150 ==> bytes@[j] == 0u8,
            decreases len - i,
        {
            bytes[i] = src[i];
            i = i + 1;
        }
        assert(bytes@ =~= padded(src@));
        Ok(UriResource { len: len as u16, uri: bytes })
    }
}

} // verus!
