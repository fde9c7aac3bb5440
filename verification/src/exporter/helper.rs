//! Turning the bytes a kernel program sends into events for an exporter.
use vstd::prelude::*;

use crate::collectors::net::bytes::{spec_be32, spec_le32};
use crate::exporter::Exporter;

verus! {

/// A value that can be read from the bytes a kernel program sends.
pub trait FromBytes: Sized {
    /// How many bytes a value takes.
    spec fn spec_size() -> nat;

    /// How many bytes a value takes.
    fn size() -> (r: usize)
        ensures
            r == Self::spec_size(),
    ;

    /// `v` is a value that the first bytes of `data` can hold.
    spec fn reads(data: Seq<u8>, v: Self) -> bool;

    /// The value held by the first bytes of `data`.
    fn read(data: &[u8]) -> (r: Self)
        requires
            data@.len() >= Self::spec_size(),
        ensures
            Self::reads(data@, r),
    ;
}

/// Calls `u32::from_ne_bytes`. Claimed, as its documentation says: the number whose bytes
/// in the machine's byte order are `b`, so `b` read least or most significant first; which
/// one is not said here.
#[verifier::external_body]
fn u32_from_ne_bytes(b: [u8; 4]) -> (r: u32)
    ensures
        spec_le32(r) == b@ || spec_be32(r) == b@,
{
    u32::from_ne_bytes(b)
}

impl FromBytes for u32 {
    open spec fn spec_size() -> nat {
        4
    }

    fn size() -> (r: usize) {
        4
    }

    /// The number whose bytes, in the machine's byte order, start `data`.
    open spec fn reads(data: Seq<u8>, v: u32) -> bool {
        spec_le32(v) == data.take(4) || spec_be32(v) == data.take(4)
    }

    /// The number whose bytes, in the machine's byte order, start `data`.
    fn read(data: &[u8]) -> (r: u32)
        ensures
            spec_le32(r) == data@.take(4) || spec_be32(r) == data@.take(4),
    {
        let b = [data[0], data[1], data[2], data[3]];
        assert(b@ =~= data@.take(4));
        u32_from_ne_bytes(b)
    }
}

/// Hands the value that `data` holds to `exporter`; data too short to hold one is dropped.
pub fn load_and_dispatch<T: FromBytes, E: Exporter<T>>(data: &[u8], exporter: &mut E)
    ensures
        data@.len() < T::spec_size() ==> *final(exporter) == *old(exporter),
        data@.len() >= T::spec_size() ==> exists|v: T|
            T::reads(data@, v) && #[trigger] old(exporter).dispatches(v, *final(exporter)),
{
    if data.len() < T::size() {
        return;
    }
    let v = T::read(data);
    let ghost g = v;
    exporter.dispatch(v);
    assert(T::reads(data@, g) && old(exporter).dispatches(g, *exporter));
}

/// Hands to `exporter` what `handle` makes of `data`, when it makes something.
pub fn load_and_dispath_with<T, E: Exporter<T>, F: FnOnce(&[u8]) -> Option<T>>(
    data: &[u8],
    exporter: &mut E,
    handle: F,
)
    requires
        call_requires(handle, (data,)),
    ensures
        exists|made: Option<T>|
            call_ensures(handle, (data,), made) && match made {
                Some(v) => old(exporter).dispatches(v, *final(exporter)),
                None => *final(exporter) == *old(exporter),
            },
{
    let made = handle(data);
    let ghost g = made;
    if let Some(event) = made {
        exporter.dispatch(event);
    }
    assert(call_ensures(handle, (data,), g));
}

} // verus!
