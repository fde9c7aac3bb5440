//! Turning the bytes a kernel program sends into events for a sink.
use vstd::prelude::*;

use crate::exporter::helper::FromBytes;
use crate::sink::EventSink;

verus! {

/// Hands the value that `data` holds to `sink`; data too short to hold one is dropped.
pub fn load_and_dispatch<T: FromBytes, S: EventSink<T>>(data: &[u8], sink: &mut S)
    ensures
        data@.len() < T::spec_size() ==> *final(sink) == *old(sink),
        data@.len() >= T::spec_size() ==> exists|v: T|
            T::reads(data@, v) && #[trigger] old(sink).dispatches(v, *final(sink)),
{
    if data.len() < T::size() {
        return;
    }
    let v = T::read(data);
    let ghost g = v;
    sink.dispatch(v);
    assert(T::reads(data@, g) && old(sink).dispatches(g, *sink));
}

/// Hands to `sink` what `handle` makes of `data`, when it makes something.
pub fn load_and_dispath_with<T, S: EventSink<T>, F: FnOnce(&[u8]) -> Option<T>>(
    data: &[u8],
    sink: &mut S,
    handle: F,
)
    requires
        call_requires(handle, (data,)),
    ensures
        exists|made: Option<T>|
            call_ensures(handle, (data,), made) && match made {
                Some(v) => old(sink).dispatches(v, *final(sink)),
                None => *final(sink) == *old(sink),
            },
{
    let made = handle(data);
    let ghost g = made;
    if let Some(event) = made {
        sink.dispatch(event);
    }
    assert(call_ensures(handle, (data,), g));
}

} // verus!
