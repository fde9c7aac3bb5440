//! Integers as the bytes the kernel programs exchange with user space.
use vstd::prelude::*;

verus! {

/// The bytes of `x`, least significant first.
pub open spec fn spec_le32(x: u32) -> Seq<u8> {
    seq![(x % 256) as u8, ((x / 256) % 256) as u8, ((x / 65536) % 256) as u8, (x / 16777216) as u8]
}

/// The bytes of `x`, most significant first.
pub open spec fn spec_be32(x: u32) -> Seq<u8> {
    seq![(x / 16777216) as u8, ((x / 65536) % 256) as u8, ((x / 256) % 256) as u8, (x % 256) as u8]
}

/// Calls `u32::to_ne_bytes`. Claimed, as its documentation says: the bytes of `x` in the
/// machine's byte order, so least or most significant first; which one is not said here.
#[verifier::external_body]
pub(crate) fn u32_to_ne_bytes(x: u32) -> (r: [u8; 4])
    ensures
        r@ == spec_le32(x) || r@ == spec_be32(x),
{
    x.to_ne_bytes()
}

} // verus!
