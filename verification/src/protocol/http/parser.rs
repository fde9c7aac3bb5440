//! The HTTP parser: HTTP/1.x first, HTTP/2 otherwise, and the exchange hash.
use vstd::prelude::*;

use super::bytes::trim_to_size;
use super::http1::{opt_model, opt_wf, parse_http1, spec_http1};
use super::http2::{parse_http2, spec_http2};
use super::types::{method_bytes, FrameModel, HttpFrame, HttpMethod};
use crate::protocol::ProtoParser;

verus! {

/// The first `min(data.len(), size)` bytes.
pub open spec fn spec_trim_to_size(data: Seq<u8>, size: usize) -> Seq<u8> {
    data.take(if size < data.len() { size as int } else { data.len() as int })
}

/// An HTTP/1.x message when the bytes read as one, an HTTP/2 frame otherwise.
pub open spec fn spec_parse_http(data: Seq<u8>, verbose: bool) -> Option<FrameModel> {
    match spec_http1(data, verbose) {
        Some(f) => Some(f),
        None => spec_http2(data, verbose),
    }
}

/// FNV-1a (32-bit) of `s`.
pub open spec fn spec_fnv1a32(s: Seq<u8>) -> u32
    decreases s.len(),
{
    if s.len() == 0 {
        0x811c9dc5u32
    } else {
        vstd::wrapping::u32_specs::wrapping_mul(spec_fnv1a32(s.drop_last()) ^ (s.last() as u32), 0x01000193u32)
    }
}

/// FNV-1a (32-bit) of `data`.
pub fn fnv1a32(data: &[u8]) -> (r: u32)
    ensures
        r == spec_fnv1a32(data@),
{
    let mut hash: u32 = 0x811c9dc5u32;
    let mut i: usize = 0;
    while i < data.len()
        invariant
            i <= data@.len(),
            hash == spec_fnv1a32(data@.take(i as int)),
        decreases data@.len() - i,
    {
        assert(data@.take(i + 1).drop_last() =~= data@.take(i as int));
        hash = hash ^ (data[i] as u32);
        hash = hash.wrapping_mul(0x0100_0193u32);
        i = i + 1;
    }
    assert(data@.take(data@.len() as int) =~= data@);
    hash
}

/// `x` rotated left by 13 bits.
pub open spec fn spec_rotl13(x: u32) -> u32 {
    (x << 13u32) | (x >> 19u32)
}

/// The hash of an HTTP/1.x exchange: from method and URL for a request, the status for a
/// response, and 0 when there is neither.
pub open spec fn spec_http1_hash_id(method: Option<HttpMethod>, url: Option<Seq<char>>, status: Option<u16>) -> u32 {
    match (method, url) {
        (Some(m), Some(u)) => spec_fnv1a32(method_bytes(m)) ^ spec_rotl13(
            spec_fnv1a32(vstd::utf8::encode_utf8(u)),
        ),
        _ => match status {
            Some(s) => s as u32,
            None => 0,
        },
    }
}

/// An optional string slice, by its characters.
pub open spec fn opt_strref(o: Option<&str>) -> Option<Seq<char>> {
    match o {
        Some(s) => Some(s@),
        None => None,
    }
}

/// The hash of an HTTP/1.x exchange.
pub fn http1_hash_id(method: Option<HttpMethod>, url: Option<&str>, status: Option<u16>) -> (r: u32)
    ensures
        r == spec_http1_hash_id(method, opt_strref(url), status),
{
    match (method, url) {
        (Some(m), Some(u)) => {
            let h = fnv1a32(u.as_bytes());
            fnv1a32(m.as_bytes()) ^ ((h << 13u32) | (h >> 19u32))
        },
        _ => match status {
            Some(s) => s as u32,
            None => 0,
        },
    }
}

/// The hash of the exchange a buffer belongs to: an HTTP/2 frame's stream id, else the
/// HTTP/1.x hash, else 0.
pub open spec fn spec_hash_id(data: Seq<u8>) -> u32 {
    match spec_http2(data, false) {
        Some(f) => f.stream_id,
        None => match spec_http1(data, false) {
            Some(f) => spec_http1_hash_id(f.method, f.url, f.status),
            None => 0,
        },
    }
}

/// Parses HTTP/1.x and HTTP/2.
#[derive(Debug, Default)]
pub struct HttpParser {}

impl ProtoParser for HttpParser {
    type Output = HttpFrame;

    /// The frame is well formed and is what the HTTP/1.x parser, else the HTTP/2 parser,
    /// makes of the first `size` bytes.
    open spec fn parses(&self, data: Seq<u8>, size: usize, verbose: bool, out: Option<HttpFrame>) -> bool {
        opt_wf(out) && opt_model(out) == spec_parse_http(spec_trim_to_size(data, size), verbose)
    }

    /// Without `verbose` a frame carries version, stream id, method, URL and status; with it
    /// the header table and the body are read as well.
    fn parse(&self, data: &[u8], size: usize, verbose: bool) -> (r: Option<HttpFrame>)
        ensures
            opt_wf(r),
            opt_model(r) == spec_parse_http(spec_trim_to_size(data@, size), verbose),
    {
        let data = trim_to_size(data, size);
        match parse_http1(data, verbose) {
            Some(f) => Some(f),
            None => parse_http2(data, verbose),
        }
    }

    fn hash_id(&self, data: &[u8], size: usize) -> (r: u32)
        ensures
            r == spec_hash_id(spec_trim_to_size(data@, size)),
    {
        let data = trim_to_size(data, size);
        if let Some(frame) = parse_http2(data, false) {
            return frame.stream_id;
        }
        if let Some(frame) = parse_http1(data, false) {
            let url: Option<&str> = match &frame.url {
                Some(u) => Some(u.as_str()),
                None => None,
            };
            return http1_hash_id(frame.method, url, frame.status);
        }
        0
    }
}

} // verus!
