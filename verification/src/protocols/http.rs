//! A compact HTTP parser that recognises HTTP/1.x request and status lines and HTTP/2
//! frame headers, and reads `:path` and `:method` from a HEADERS block.
use vstd::prelude::*;
use vstd::utf8::*;

use crate::protocol::http::bytes::{
    find_byte, lemma_find_byte_from, seq_starts_with, spec_find_byte, starts_with,
};
use crate::text::str_from_utf8;

verus! {

/// The largest frame payload before SETTINGS_MAX_FRAME_SIZE is negotiated.
pub const DEFAULT_MAX_FRAME_SIZE: usize = 16384;

pub const FRAME_HEADER_LEN: usize = 9;

pub const MAX_FRAME_TYPE: u8 = 0x09;

pub const FRAME_TYPE_HEADERS: u8 = 0x01;

pub const FLAG_PADDED: u8 = 0x08;

pub const FLAG_PRIORITY: u8 = 0x20;

pub const HPACK_STATIC_PATH_INDEX: u8 = 4;

pub const HPACK_STATIC_METHOD_NAME: u8 = 2;

pub const HPACK_STATIC_METHOD_GET: u8 = 2;

pub const HPACK_STATIC_METHOD_POST: u8 = 3;

#[derive(Debug, Clone, Copy, PartialEq, Eq, Structural)]
pub enum HttpVersion {
    Unknown,
    HTTP1_0,
    HTTP1_1,
    HTTP2_0,
}

impl Default for HttpVersion {
    fn default() -> (r: Self)
        ensures
            r == HttpVersion::Unknown,
    {
        HttpVersion::Unknown
    }
}

#[derive(Debug, Clone, Copy, PartialEq, Eq, Structural)]
pub enum RequestMethod {
    Unknown,
    GET,
    POST,
}

impl Default for RequestMethod {
    fn default() -> (r: Self)
        ensures
            r == RequestMethod::Unknown,
    {
        RequestMethod::Unknown
    }
}

/// One recognised HTTP/1.x line or HTTP/2 frame.
#[derive(Debug)]
pub struct Frame {
    pub version: HttpVersion,
    pub method: RequestMethod,
    pub url: String,
    /// The HTTP/2 stream identifier.
    pub stream_id: u32,
    pub frame_type: u8,
    pub payload: Vec<u8>,
}

/// What a frame holds, as mathematical values.
pub struct FrameView {
    pub version: HttpVersion,
    pub method: RequestMethod,
    pub url: Seq<char>,
    pub stream_id: u32,
    pub frame_type: u8,
    pub payload: Seq<u8>,
}

impl Frame {
    pub open spec fn view(&self) -> FrameView {
        FrameView {
            version: self.version,
            method: self.method,
            url: self.url@,
            stream_id: self.stream_id,
            frame_type: self.frame_type,
            payload: self.payload@,
        }
    }
}

/// The frame of unrecognised input.
pub open spec fn default_frame() -> FrameView {
    FrameView {
        version: HttpVersion::Unknown,
        method: RequestMethod::Unknown,
        url: Seq::empty(),
        stream_id: 0,
        frame_type: 0,
        payload: Seq::empty(),
    }
}

impl Default for Frame {
    fn default() -> (r: Self)
        ensures
            r.view() == default_frame(),
    {
        Frame {
            version: HttpVersion::Unknown,
            method: RequestMethod::Unknown,
            url: String::new(),
            stream_id: 0,
            frame_type: 0,
            payload: Vec::new(),
        }
    }
}

/// The request-line prefixes that are recognised, in the order they are tried.
pub open spec fn method_prefix(k: int) -> (Seq<u8>, RequestMethod) {
    if k == 0 {
        (seq![71u8, 69, 84, 32], RequestMethod::GET)
    } else if k == 1 {
        (seq![80u8, 79, 83, 84, 32], RequestMethod::POST)
    } else if k == 2 {
        (seq![80u8, 85, 84, 32], RequestMethod::Unknown)
    } else if k == 3 {
        (seq![72u8, 69, 65, 68, 32], RequestMethod::Unknown)
    } else if k == 4 {
        (seq![68u8, 69, 76, 69, 84, 69, 32], RequestMethod::Unknown)
    } else if k == 5 {
        (seq![80u8, 65, 84, 67, 72, 32], RequestMethod::Unknown)
    } else {
        (seq![79u8, 80, 84, 73, 79, 78, 83, 32], RequestMethod::Unknown)
    }
}

pub const HTTP1_METHOD_COUNT: usize = 7;

/// The `k`-th recognised request-line prefix and the method it stands for.
pub fn http1_method(k: usize) -> (r: (&'static [u8], RequestMethod))
    requires
        k < 7,
    ensures
        r.0@ == method_prefix(k as int).0,
        r.1 == method_prefix(k as int).1,
{
    if k == 0 {
        let p: &'static [u8; 4] = &[71u8, 69, 84, 32];
        (p.as_slice(), RequestMethod::GET)
    } else if k == 1 {
        let p: &'static [u8; 5] = &[80u8, 79, 83, 84, 32];
        (p.as_slice(), RequestMethod::POST)
    } else if k == 2 {
        let p: &'static [u8; 4] = &[80u8, 85, 84, 32];
        (p.as_slice(), RequestMethod::Unknown)
    } else if k == 3 {
        let p: &'static [u8; 5] = &[72u8, 69, 65, 68, 32];
        (p.as_slice(), RequestMethod::Unknown)
    } else if k == 4 {
        let p: &'static [u8; 7] = &[68u8, 69, 76, 69, 84, 69, 32];
        (p.as_slice(), RequestMethod::Unknown)
    } else if k == 5 {
        let p: &'static [u8; 6] = &[80u8, 65, 84, 67, 72, 32];
        (p.as_slice(), RequestMethod::Unknown)
    } else {
        let p: &'static [u8; 8] = &[79u8, 80, 84, 73, 79, 78, 83, 32];
        (p.as_slice(), RequestMethod::Unknown)
    }
}

/// A request frame for `method` with path `url`.
pub open spec fn request_frame(method: RequestMethod, url: Seq<char>) -> FrameView {
    FrameView {
        version: HttpVersion::HTTP1_1,
        method,
        url,
        stream_id: 0,
        frame_type: 0,
        payload: Seq::empty(),
    }
}

/// The request-line prefixes from the `k`-th on: the first one that `raw` starts with and
/// whose remainder holds a space decides; a path that is not UTF-8 rejects the input.
/// `None` when no prefix decides.
pub open spec fn spec_scan_methods(raw: Seq<u8>, k: int) -> Option<Option<FrameView>>
    decreases 7 - k,
{
    if k < 0 || k >= 7 {
        None
    } else {
        let (prefix, method) = method_prefix(k);
        let rest = raw.subrange(prefix.len() as int, raw.len() as int);
        if seq_starts_with(raw, prefix) && spec_find_byte(rest, 32u8) is Some {
            let path = rest.take(spec_find_byte(rest, 32u8)->0);
            if valid_utf8(path) {
                Some(Some(request_frame(method, decode_utf8(path))))
            } else {
                Some(None)
            }
        } else {
            spec_scan_methods(raw, k + 1)
        }
    }
}

/// `HTTP/1.0 ` and `HTTP/1.1 `.
pub open spec fn status_prefix(minor: u8) -> Seq<u8> {
    seq![72u8, 84, 84, 80, 47, 49, 46, minor, 32]
}

/// An HTTP/1.x request line (known method, a space-terminated path) or status line.
pub open spec fn spec_parse_http1(raw: Seq<u8>) -> Option<FrameView> {
    match spec_scan_methods(raw, 0) {
        Some(r) => r,
        None => if seq_starts_with(raw, status_prefix(48u8)) || seq_starts_with(
            raw,
            status_prefix(49u8),
        ) {
            Some(
                FrameView {
                    version: if seq_starts_with(raw, status_prefix(48u8)) {
                        HttpVersion::HTTP1_0
                    } else {
                        HttpVersion::HTTP1_1
                    },
                    method: RequestMethod::Unknown,
                    url: Seq::empty(),
                    stream_id: 0,
                    frame_type: 0,
                    payload: Seq::empty(),
                },
            )
        } else {
            None
        },
    }
}

/// An optional frame, by its view.
pub open spec fn opt_frame(o: Option<Frame>) -> Option<FrameView> {
    match o {
        Some(f) => Some(f.view()),
        None => None,
    }
}

/// Recognises an HTTP/1.x request or status line.
pub fn parse_http1(raw: &[u8]) -> (r: Option<Frame>)
    ensures
        opt_frame(r) == spec_parse_http1(raw@),
{
    let n = raw.len();
    let mut k: usize = 0;
    while k < HTTP1_METHOD_COUNT
        invariant
            k <= 7,
            n == raw@.len(),
            spec_scan_methods(raw@, 0) == spec_scan_methods(raw@, k as int),
        decreases 7 - k,
    {
        let (prefix, method) = http1_method(k);
        if starts_with(raw, prefix) {
            let rest = &raw[prefix.len()..n];
            if let Some(space_pos) = find_byte(rest, 32u8) {
                let path_bytes = &rest[0..space_pos];
                assert(path_bytes@ =~= rest@.take(space_pos as int));
                let path = match str_from_utf8(path_bytes) {
                    Some(p) => p,
                    None => return None,
                };
                return Some(
                    Frame {
                        version: HttpVersion::HTTP1_1,
                        method,
                        url: path.to_owned(),
                        stream_id: 0,
                        frame_type: 0,
                        payload: Vec::new(),
                    },
                );
            }
        }
        k = k + 1;
    }
    let v10: &'static [u8; 9] = &[72u8, 84, 84, 80, 47, 49, 46, 48, 32];
    let v11: &'static [u8; 9] = &[72u8, 84, 84, 80, 47, 49, 46, 49, 32];
    let is10 = starts_with(raw, v10.as_slice());
    if is10 || starts_with(raw, v11.as_slice()) {
        return Some(
            Frame {
                version: if is10 {
                    HttpVersion::HTTP1_0
                } else {
                    HttpVersion::HTTP1_1
                },
                method: RequestMethod::Unknown,
                url: String::new(),
                stream_id: 0,
                frame_type: 0,
                payload: Vec::new(),
            },
        );
    }
    None
}

/// The HPACK block of a HEADERS payload: without the padding (PADDED) and the five
/// priority bytes (PRIORITY).
pub open spec fn spec_strip_headers_padding_and_priority(body: Seq<u8>, flags: u8) -> Option<Seq<u8>> {
    let padded: Option<Seq<u8>> = if flags & 0x08u8 != 0 {
        if body.len() == 0 {
            None
        } else if body[0] as int > body.len() - 1 {
            None
        } else {
            Some(body.subrange(1, body.len() - body[0]))
        }
    } else {
        Some(body)
    };
    match padded {
        None => None,
        Some(b) => if flags & 0x20u8 != 0 {
            if b.len() < 5 {
                None
            } else {
                Some(b.subrange(5, b.len() as int))
            }
        } else {
            Some(b)
        },
    }
}

/// Strips padding and priority bytes from a HEADERS payload.
pub fn strip_headers_padding_and_priority(body: &[u8], flags: u8) -> (r: Option<&[u8]>)
    ensures
        r matches Some(b) ==> spec_strip_headers_padding_and_priority(body@, flags) == Some(b@),
        r is None ==> spec_strip_headers_padding_and_priority(body@, flags) is None,
{
    let mut body = body;
    let ghost orig = body@;
    if flags & FLAG_PADDED != 0 {
        let n = body.len();
        if n == 0 {
            return None;
        }
        let pad_len = body[0] as usize;
        body = &body[1..n];
        if pad_len > body.len() {
            return None;
        }
        let m = body.len();
        body = &body[0..m - pad_len];
        assert(body@ =~= orig.subrange(1, orig.len() - orig[0]));
    }
    if flags & FLAG_PRIORITY != 0 {
        let m = body.len();
        if m < 5 {
            return None;
        }
        body = &body[5..m];
    }
    Some(body)
}

/// The continuation bytes of an HPACK integer (64-bit arithmetic).
pub open spec fn spec_hpack_int_tail(data: Seq<u8>, i: int, value: u64, shift: u32) -> Option<(u64, int)>
    decreases data.len() - i,
{
    if i < 0 || i >= data.len() {
        None
    } else {
        let b = data[i];
        let add = ((b & 0x7fu8) as u64) << shift;
        if value + add > u64::MAX {
            None
        } else if b & 0x80u8 == 0 {
            Some(((value + add) as u64, i + 1))
        } else if shift + 7 > 63 {
            None
        } else {
            spec_hpack_int_tail(data, i + 1, (value + add) as u64, (shift + 7) as u32)
        }
    }
}

/// The low `prefix_bits` bits set.
pub open spec fn prefix_mask(prefix_bits: u8) -> u8 {
    (((1u16 << prefix_bits) - 1) as u16) as u8
}

/// An HPACK integer with a `prefix_bits`-bit prefix, and the index just after it.
pub open spec fn spec_decode_hpack_integer(data: Seq<u8>, prefix_bits: u8) -> Option<(u64, int)> {
    if data.len() == 0 || prefix_bits == 0 || prefix_bits > 8 {
        None
    } else {
        let mask = prefix_mask(prefix_bits);
        let value = (data[0] & mask) as u64;
        if value < mask as u64 {
            Some((value, 1))
        } else {
            spec_hpack_int_tail(data, 1, value, 0)
        }
    }
}

proof fn lemma_hpack_int_tail_bounds(data: Seq<u8>, i: int, value: u64, shift: u32)
    requires
        1 <= i,
    ensures
        spec_hpack_int_tail(data, i, value, shift) matches Some((v, j)) ==> i < j <= data.len(),
    decreases data.len() - i,
{
    if 0 <= i < data.len() {
        let b = data[i];
        let add = ((b & 0x7fu8) as u64) << shift;
        if value + add <= u64::MAX && b & 0x80u8 != 0 && shift + 7 <= 63 {
            lemma_hpack_int_tail_bounds(data, i + 1, (value + add) as u64, (shift + 7) as u32);
        }
    }
}

/// The integer is followed by what remains of the input.
pub proof fn lemma_hpack_integer_bounds(data: Seq<u8>, prefix_bits: u8)
    ensures
        spec_decode_hpack_integer(data, prefix_bits) matches Some((v, j)) ==> 1 <= j <= data.len(),
{
    if data.len() > 0 && 0 < prefix_bits <= 8 {
        let mask = prefix_mask(prefix_bits);
        lemma_hpack_int_tail_bounds(data, 1, (data[0] & mask) as u64, 0);
    }
}

/// An optional decoded integer with the bytes after it, by value.
pub open spec fn opt_u64_rest(o: Option<(u64, &[u8])>) -> Option<(u64, Seq<u8>)> {
    match o {
        Some((v, r)) => Some((v, r@)),
        None => None,
    }
}

/// `spec_decode_hpack_integer` with the remaining bytes in place of the index.
pub open spec fn spec_hpack_integer_rest(data: Seq<u8>, prefix_bits: u8) -> Option<(u64, Seq<u8>)> {
    match spec_decode_hpack_integer(data, prefix_bits) {
        Some((v, j)) => Some((v, data.subrange(j, data.len() as int))),
        None => None,
    }
}

/// Decodes an HPACK integer with a `prefix_bits`-bit prefix.
pub fn decode_hpack_integer(data: &[u8], prefix_bits: u8) -> (r: Option<(u64, &[u8])>)
    ensures
        opt_u64_rest(r) == spec_hpack_integer_rest(data@, prefix_bits),
{
    proof { lemma_hpack_integer_bounds(data@, prefix_bits); }
    let n = data.len();
    if n == 0 || prefix_bits == 0 || prefix_bits > 8 {
        return None;
    }
    let one_shifted: u16 = 1u16 << prefix_bits;
    assert(1 <= one_shifted <= 256) by (bit_vector)
        requires
            0 < prefix_bits <= 8,
            one_shifted == 1u16 << prefix_bits,
    ;
    let mask: u8 = (one_shifted - 1) as u8;
    let mut value = (data[0] & mask) as u64;
    if value < mask as u64 {
        return Some((value, &data[1..n]));
    }
    let mut i: usize = 1;
    let mut shift: u32 = 0;
    while i < n
        invariant
            1 <= i <= n,
            n == data@.len(),
            shift <= 63,
            spec_decode_hpack_integer(data@, prefix_bits) == spec_hpack_int_tail(data@, i as int, value, shift),
        decreases n - i,
    {
        let b = data[i];
        i = i + 1;
        let add: u64 = ((b & 0x7fu8) as u64) << shift;
        match value.checked_add(add) {
            Some(v) => {
                value = v;
            },
            None => return None,
        }
        if b & 0x80u8 == 0 {
            return Some((value, &data[i..n]));
        }
        shift = shift + 7;
        if shift > 63 {
            return None;
        }
    }
    None
}

/// A string literal: its Huffman flag, its bytes, and the bytes after it.
pub open spec fn spec_read_hpack_string(data: Seq<u8>) -> Option<(bool, Seq<u8>, Seq<u8>)> {
    if data.len() == 0 {
        None
    } else {
        match spec_hpack_integer_rest(data, 7) {
            None => None,
            Some((len, rest)) => {
                let len = len as usize;
                if len > rest.len() {
                    None
                } else {
                    Some((data[0] & 0x80u8 != 0, rest.take(len as int), rest.skip(len as int)))
                }
            },
        }
    }
}

/// An optional string literal, by its bytes.
pub open spec fn opt_literal(o: Option<(bool, &[u8], &[u8])>) -> Option<(bool, Seq<u8>, Seq<u8>)> {
    match o {
        Some((h, v, r)) => Some((h, v@, r@)),
        None => None,
    }
}

/// Reads an HPACK string literal without decoding Huffman-coded text.
pub fn read_hpack_string(data: &[u8]) -> (r: Option<(bool, &[u8], &[u8])>)
    ensures
        opt_literal(r) == spec_read_hpack_string(data@),
{
    if data.len() == 0 {
        return None;
    }
    let huffman = data[0] & 0x80u8 != 0;
    let (len, rest) = match decode_hpack_integer(data, 7) {
        Some(p) => p,
        None => return None,
    };
    let len = len as usize;
    let rn = rest.len();
    if len > rn {
        return None;
    }
    let value = &rest[0..len];
    let after = &rest[len..rn];
    assert(value@ =~= rest@.take(len as int));
    assert(after@ =~= rest@.skip(len as int));
    Some((huffman, value, after))
}

/// The `:path` and `:method` found so far, after a literal field whose name has the static
/// index `name_idx`: a plain UTF-8 `:path` value replaces the path, and a `GET` or `POST`
/// `:method` value replaces the method. Huffman-coded values are ignored.
pub open spec fn spec_apply_literal(
    name_idx: u8,
    huffman: bool,
    value: Seq<u8>,
    path: Option<Seq<char>>,
    method: Option<RequestMethod>,
) -> (Option<Seq<char>>, Option<RequestMethod>) {
    if huffman {
        (path, method)
    } else if name_idx == 4 {
        if valid_utf8(value) {
            (Some(decode_utf8(value)), method)
        } else {
            (path, method)
        }
    } else if name_idx == 2 {
        if value == seq![71u8, 69, 84] {
            (path, Some(RequestMethod::GET))
        } else if value == seq![80u8, 79, 83, 84] {
            (path, Some(RequestMethod::POST))
        } else {
            (path, method)
        }
    } else {
        (path, method)
    }
}

/// Applies one literal header field to the `:path` and `:method` found so far.
pub fn apply_literal(
    name_idx: u8,
    huffman: bool,
    value: &[u8],
    path: &mut Option<String>,
    method: &mut Option<RequestMethod>,
)
    ensures
        (opt_string(*final(path)), *final(method)) == spec_apply_literal(
            name_idx,
            huffman,
            value@,
            opt_string(*old(path)),
            *old(method),
        ),
{
    if huffman {
        return;
    }
    if name_idx == HPACK_STATIC_PATH_INDEX {
        if let Some(s) = str_from_utf8(value) {
            *path = Some(s.to_owned());
        }
    } else if name_idx == HPACK_STATIC_METHOD_NAME {
        let get: &'static [u8; 3] = &[71u8, 69, 84];
        let post: &'static [u8; 4] = &[80u8, 79, 83, 84];
        if crate::protocol::http::http1::bytes_eq(value, get.as_slice()) {
            *method = Some(RequestMethod::GET);
        } else if crate::protocol::http::http1::bytes_eq(value, post.as_slice()) {
            *method = Some(RequestMethod::POST);
        }
    }
}

/// An optional string, by its characters.
pub open spec fn opt_string(o: Option<String>) -> Option<Seq<char>> {
    match o {
        Some(s) => Some(s@),
        None => None,
    }
}

/// The literal field (name-index prefix of `prefix_bits` bits) at the start of `data`:
/// the state after it and the bytes after it, or `None` where decoding stops.
pub open spec fn spec_literal_field(
    data: Seq<u8>,
    prefix_bits: u8,
    path: Option<Seq<char>>,
    method: Option<RequestMethod>,
) -> Option<((Option<Seq<char>>, Option<RequestMethod>), Seq<u8>)> {
    match spec_hpack_integer_rest(data, prefix_bits) {
        None => None,
        Some((name_idx, rest)) => {
            let after_name: Option<Seq<u8>> = if name_idx == 0 {
                match spec_read_hpack_string(rest) {
                    Some((h, n, r)) => Some(r),
                    None => None,
                }
            } else {
                Some(rest)
            };
            match after_name {
                None => None,
                Some(r) => match spec_read_hpack_string(r) {
                    None => None,
                    Some((huff, value, r2)) => Some(
                        (spec_apply_literal(name_idx as u8, huff, value, path, method), r2),
                    ),
                },
            }
        },
    }
}

pub proof fn lemma_step_shrinks(data: Seq<u8>, prefix_bits: u8)
    ensures
        spec_hpack_integer_rest(data, prefix_bits) matches Some((v, r)) ==> r.len() < data.len(),
        spec_read_hpack_string(data) matches Some((h, v, r)) ==> r.len() < data.len(),
{
    lemma_hpack_integer_bounds(data, prefix_bits);
    lemma_hpack_integer_bounds(data, 7);
}

pub proof fn lemma_literal_shrinks(data: Seq<u8>, prefix_bits: u8, path: Option<Seq<char>>, method: Option<RequestMethod>)
    ensures
        spec_literal_field(data, prefix_bits, path, method) matches Some((s, r)) ==> r.len() < data.len(),
{
    lemma_step_shrinks(data, prefix_bits);
    if let Some((name_idx, rest)) = spec_hpack_integer_rest(data, prefix_bits) {
        lemma_step_shrinks(rest, 7);
        if let Some((h, n, r)) = spec_read_hpack_string(rest) {
            lemma_step_shrinks(r, 7);
        }
    }
}

/// `:path` and `:method` of an HPACK block: indexed fields 2 to 5 fill a value that is not
/// yet known; literal fields with static name index 4 (`:path`) or 2 (`:method`) replace
/// it; table-size updates are skipped; decoding stops at the first field it cannot read.
pub open spec fn spec_decode_hpack_minimal(
    data: Seq<u8>,
    path: Option<Seq<char>>,
    method: Option<RequestMethod>,
) -> (Option<Seq<char>>, Option<RequestMethod>)
    decreases data.len(),
{
    if data.len() == 0 {
        (path, method)
    } else {
        proof {
            lemma_step_shrinks(data, 7);
            lemma_step_shrinks(data, 5);
            lemma_literal_shrinks(data, 6, path, method);
            lemma_literal_shrinks(data, 4, path, method);
        }
        let b = data[0];
        if b & 0x80u8 != 0 {
            match spec_hpack_integer_rest(data, 7) {
                None => (path, method),
                Some((idx, rest)) => {
                    let i = idx as u8;
                    let method2 = if (i == 2 || i == 3) && method is None {
                        Some(if i == 2 { RequestMethod::GET } else { RequestMethod::POST })
                    } else {
                        method
                    };
                    let path2 = if (i == 4 || i == 5) && path is None {
                        Some(if i == 4 { "/"@ } else { "/index.html"@ })
                    } else {
                        path
                    };
                    spec_decode_hpack_minimal(rest, path2, method2)
                },
            }
        } else if b & 0x40u8 != 0 {
            match spec_literal_field(data, 6, path, method) {
                None => (path, method),
                Some((st, rest)) => spec_decode_hpack_minimal(rest, st.0, st.1),
            }
        } else if b & 0x20u8 != 0 {
            match spec_hpack_integer_rest(data, 5) {
                None => (path, method),
                Some((v, rest)) => spec_decode_hpack_minimal(rest, path, method),
            }
        } else {
            match spec_literal_field(data, 4, path, method) {
                None => (path, method),
                Some((st, rest)) => spec_decode_hpack_minimal(rest, st.0, st.1),
            }
        }
    }
}

/// Reads one literal field into `path` and `method`; `None` where decoding stops.
fn literal_field<'a>(
    data: &'a [u8],
    prefix_bits: u8,
    path: &mut Option<String>,
    method: &mut Option<RequestMethod>,
) -> (r: Option<&'a [u8]>)
    ensures
        match spec_literal_field(data@, prefix_bits, opt_string(*old(path)), *old(method)) {
            None => r is None && opt_string(*final(path)) == opt_string(*old(path)) && *final(method) == *old(method),
            Some((st, rest)) => r matches Some(x) && x@ == rest && (opt_string(*final(path)), *final(method)) == st,
        },
{
    let (name_idx, rest) = match decode_hpack_integer(data, prefix_bits) {
        Some(p) => p,
        None => return None,
    };
    let mut rest = rest;
    if name_idx == 0 {
        match read_hpack_string(rest) {
            Some((_huff, _name, r)) => {
                rest = r;
            },
            None => return None,
        }
    }
    let (huff, value, r2) = match read_hpack_string(rest) {
        Some(p) => p,
        None => return None,
    };
    apply_literal(name_idx as u8, huff, value, path, method);
    Some(r2)
}

/// Extracts `:path` and `:method` from an HPACK block, without Huffman decoding.
pub fn decode_hpack_minimal(data: &[u8]) -> (r: (Option<String>, Option<RequestMethod>))
    ensures
        (opt_string(r.0), r.1) == spec_decode_hpack_minimal(data@, None, None),
{
    let mut path: Option<String> = None;
    let mut method: Option<RequestMethod> = None;
    let mut data = data;
    let ghost orig = data@;
    while data.len() > 0
        invariant
            spec_decode_hpack_minimal(orig, None, None) == spec_decode_hpack_minimal(
                data@,
                opt_string(path),
                method,
            ),
        ensures
            spec_decode_hpack_minimal(orig, None, None) == (opt_string(path), method),
        decreases data@.len(),
    {
        proof {
            lemma_step_shrinks(data@, 7);
            lemma_step_shrinks(data@, 5);
            lemma_literal_shrinks(data@, 6, opt_string(path), method);
            lemma_literal_shrinks(data@, 4, opt_string(path), method);
        }
        let b = data[0];
        if b & 0x80u8 != 0 {
            let (idx, rest) = match decode_hpack_integer(data, 7) {
                Some(p) => p,
                None => break,
            };
            data = rest;
            let i = idx as u8;
            if i == HPACK_STATIC_METHOD_GET {
                if method.is_none() {
                    method = Some(RequestMethod::GET);
                }
            } else if i == HPACK_STATIC_METHOD_POST {
                if method.is_none() {
                    method = Some(RequestMethod::POST);
                }
            } else if i == 4 {
                if path.is_none() {
                    path = Some(String::from_str("/"));
                }
            } else if i == 5 {
                if path.is_none() {
                    path = Some(String::from_str("/index.html"));
                }
            }
        } else if b & 0x40u8 != 0 {
            match literal_field(data, 6, &mut path, &mut method) {
                Some(rest) => {
                    data = rest;
                },
                None => break,
            }
        } else if b & 0x20u8 != 0 {
            match decode_hpack_integer(data, 5) {
                Some((_, rest)) => {
                    data = rest;
                },
                None => break,
            }
        } else {
            match literal_field(data, 4, &mut path, &mut method) {
                Some(rest) => {
                    data = rest;
                },
                None => break,
            }
        }
    }
    (path, method)
}

/// The frame that `raw` (cut to `datasize` bytes) holds: an HTTP/1.x line, else an HTTP/2
/// frame header (after the preface, if any) of a known type and a length within the
/// default maximum, whose payload is cut to the bytes at hand.
pub open spec fn spec_parse_inner(raw: Seq<u8>, datasize: usize) -> Option<FrameView> {
    let raw = raw.take(if datasize < raw.len() { datasize as int } else { raw.len() as int });
    match spec_parse_http1(raw) {
        Some(f) => Some(f),
        None => {
            let buf = if seq_starts_with(raw, crate::protocol::http::http2::h2_preface()) {
                raw.subrange(24, raw.len() as int)
            } else {
                raw
            };
            if buf.len() < 9 {
                None
            } else {
                let length = buf[0] as int * 65536 + buf[1] as int * 256 + buf[2] as int;
                let frame_type = buf[3];
                let flags = buf[4];
                let stream_id = crate::protocol::http::http2::stream_id_of(buf);
                if frame_type > 9 || length > 16384 {
                    None
                } else {
                    let end = if 9 + length < buf.len() { 9 + length } else { buf.len() as int };
                    let body = buf.subrange(9, end);
                    let (p, m) = if frame_type == 1 {
                        match spec_strip_headers_padding_and_priority(body, flags) {
                            Some(block) => spec_decode_hpack_minimal(block, None, None),
                            None => (None, None),
                        }
                    } else {
                        (None, None)
                    };
                    Some(
                        FrameView {
                            version: HttpVersion::HTTP2_0,
                            method: match m {
                                Some(m) => m,
                                None => RequestMethod::Unknown,
                            },
                            url: match p {
                                Some(p) => p,
                                None => Seq::empty(),
                            },
                            stream_id,
                            frame_type,
                            payload: body,
                        },
                    )
                }
            }
        },
    }
}

/// Parses the recognised protocol, or gives the default frame.
#[derive(Debug, Default)]
pub struct Parser;

impl Parser {
    pub fn parse_inner(raw: &[u8], datasize: usize) -> (r: Option<Frame>)
        ensures
            opt_frame(r) == spec_parse_inner(raw@, datasize),
    {
        let rn = raw.len();
        let cut = if datasize < rn { datasize } else { rn };
        let raw = &raw[0..cut];
        if let Some(frame) = parse_http1(raw) {
            return Some(frame);
        }
        let mut buf = raw;
        if starts_with(buf, crate::protocol::http::http2::http2_preface()) {
            buf = &buf[24..cut];
        }
        let bn = buf.len();
        if bn < FRAME_HEADER_LEN {
            return None;
        }
        let length: usize = (buf[0] as usize) * 65536 + (buf[1] as usize) * 256 + buf[2] as usize;
        let frame_type = buf[3];
        let flags = buf[4];
        let b5 = buf[5];
        let high = b5 & 0x7fu8;
        assert(b5 & 0x7fu8 <= 0x7fu8) by (bit_vector);
        let stream_id: u32 = (high as u32) * 16777216 + (buf[6] as u32) * 65536 + (buf[7] as u32) * 256
            + buf[8] as u32;
        if frame_type > MAX_FRAME_TYPE {
            return None;
        }
        if length > DEFAULT_MAX_FRAME_SIZE {
            return None;
        }
        let payload_end = if FRAME_HEADER_LEN + length < bn {
            FRAME_HEADER_LEN + length
        } else {
            bn
        };
        let body = &buf[FRAME_HEADER_LEN..payload_end];
        let mut frame = Frame {
            version: HttpVersion::HTTP2_0,
            method: RequestMethod::Unknown,
            url: String::new(),
            stream_id,
            frame_type,
            payload: vstd::slice::slice_to_vec(body),
        };
        if frame_type == FRAME_TYPE_HEADERS {
            if let Some(block) = strip_headers_padding_and_priority(body, flags) {
                let (path, method) = decode_hpack_minimal(block);
                if let Some(p) = path {
                    frame.url = p;
                }
                if let Some(m) = method {
                    frame.method = m;
                }
            }
        }
        Some(frame)
    }
}

impl super::ProtoParser for Parser {
    type Output = Frame;

    fn parse(&self, raw_data: &[u8], size: usize) -> (r: Frame)
        ensures
            r.view() == match spec_parse_inner(raw_data@, size) {
                Some(f) => f,
                None => default_frame(),
            },
    {
        match Self::parse_inner(raw_data, size) {
            Some(f) => f,
            None => Frame::default(),
        }
    }
}

/// The first space of a path without spaces, a space, and anything, is the one after the
/// path.
proof fn lemma_space_after_path(path: Seq<u8>, rest: Seq<u8>)
    requires
        forall|i: int| 0 <= i < path.len() ==> path[i] != 32u8,
    ensures
        spec_find_byte(path + seq![32u8] + rest, 32u8) == Some(path.len() as int),
{
    let s = path + seq![32u8] + rest;
    lemma_find_byte_from(s, 32u8, 0);
    assert(s[path.len() as int] == 32u8);
    assert(forall|j: int| 0 <= j < path.len() ==> s[j] == path[j]);
}

/// Input that reads as an HTTP/1.x line, not cut by `datasize`, is that line.
#[verifier::spinoff_prover]
proof fn lemma_inner_of_http1(raw: Seq<u8>, datasize: usize)
    requires
        raw.len() <= datasize,
        spec_parse_http1(raw) is Some,
    ensures
        spec_parse_inner(raw, datasize) == spec_parse_http1(raw),
{
    assert(raw.take(raw.len() as int) =~= raw);
}

/// Input that starts with the `k`-th request-line prefix does not start with an earlier one.
proof fn lemma_earlier_prefix_fails(raw: Seq<u8>, j: int, k: int)
    requires
        0 <= j < k < 7,
        seq_starts_with(raw, method_prefix(k).0),
    ensures
        !seq_starts_with(raw, method_prefix(j).0),
{
    let pk = method_prefix(k).0;
    let pj = method_prefix(j).0;
    assert(raw[0] == raw.take(pk.len() as int)[0] && raw[1] == raw.take(pk.len() as int)[1]);
    assert(pk[0] != pj[0] || pk[1] != pj[1]);
    if seq_starts_with(raw, pj) {
        assert(raw[0] == raw.take(pj.len() as int)[0] && raw[1] == raw.take(pj.len() as int)[1]);
    }
}

/// The scan from the `j`-th prefix reaches the `k`-th one when input starts with the latter.
proof fn lemma_scan_reaches(raw: Seq<u8>, j: int, k: int)
    requires
        0 <= j <= k < 7,
        seq_starts_with(raw, method_prefix(k).0),
    ensures
        spec_scan_methods(raw, j) == spec_scan_methods(raw, k),
    decreases k - j,
{
    if j < k {
        lemma_earlier_prefix_fails(raw, j, k);
        lemma_scan_reaches(raw, j + 1, k);
    }
}

/// A request-line prefix, a path, a space and anything read as a request of the prefix's
/// method for the path.
#[verifier::spinoff_prover]
proof fn lemma_request_line(k: int, path: Seq<u8>, rest: Seq<u8>)
    requires
        0 <= k < 7,
        forall|i: int| 0 <= i < path.len() ==> path[i] != 32u8,
        valid_utf8(path),
    ensures
        spec_parse_http1(method_prefix(k).0 + path + seq![32u8] + rest) == Some(
            request_frame(method_prefix(k).1, decode_utf8(path)),
        ),
{
    let pre = method_prefix(k).0;
    let tail = path + seq![32u8] + rest;
    lemma_space_after_path(path, rest);
    assert(tail.take(path.len() as int) =~= path);
    let raw = pre + tail;
    assert(raw =~= pre + path + seq![32u8] + rest);
    assert(raw.take(pre.len() as int) =~= pre);
    assert(raw.subrange(pre.len() as int, raw.len() as int) =~= tail);
    lemma_scan_reaches(raw, 0, k);
}

/// The same, for input that the parser reads whole.
#[verifier::spinoff_prover]
proof fn lemma_request_line_read(k: int, path: Seq<u8>, rest: Seq<u8>, datasize: usize)
    requires
        0 <= k < 7,
        forall|i: int| 0 <= i < path.len() ==> path[i] != 32u8,
        valid_utf8(path),
        method_prefix(k).0.len() + path.len() + 1 + rest.len() <= datasize,
    ensures
        spec_parse_inner(method_prefix(k).0 + path + seq![32u8] + rest, datasize) == Some(
            request_frame(method_prefix(k).1, decode_utf8(path)),
        ),
{
    lemma_request_line(k, path, rest);
    lemma_inner_of_http1(method_prefix(k).0 + path + seq![32u8] + rest, datasize);
}

/// A request line `GET <path> ...` or `POST <path> ...`, the path free of spaces and valid
/// UTF-8, is read as an HTTP/1.1 request of that method for that path, whatever follows
/// the space after the path.
#[verifier::spinoff_prover]
#[verifier::rlimit(30)]
pub proof fn law_request_line_method(path: Seq<u8>, rest: Seq<u8>, datasize: usize)
    requires
        forall|i: int| 0 <= i < path.len() ==> path[i] != 32u8,
        valid_utf8(path),
        datasize >= path.len() + rest.len() + 6,
    ensures
        ({
            let f = spec_parse_inner(seq![71u8, 69, 84, 32] + path + seq![32u8] + rest, datasize);
            &&& f is Some
            &&& f->0.version == HttpVersion::HTTP1_1
            &&& f->0.method == RequestMethod::GET
            &&& f->0.url == decode_utf8(path)
        }),
        ({
            let f = spec_parse_inner(seq![80u8, 79, 83, 84, 32] + path + seq![32u8] + rest, datasize);
            &&& f is Some
            &&& f->0.version == HttpVersion::HTTP1_1
            &&& f->0.method == RequestMethod::POST
            &&& f->0.url == decode_utf8(path)
        }),
{
    lemma_request_line_read(0, path, rest, datasize);
    lemma_request_line_read(1, path, rest, datasize);
}

/// A request line `PUT`, `HEAD`, `DELETE`, `PATCH` or `OPTIONS`, then a space, a path free
/// of spaces and valid UTF-8, and a space, is read as an HTTP/1.1 request of no known
/// method for that path, whatever follows.
#[verifier::spinoff_prover]
#[verifier::rlimit(60)]
pub proof fn law_request_line_other_methods(path: Seq<u8>, rest: Seq<u8>, datasize: usize)
    requires
        forall|i: int| 0 <= i < path.len() ==> path[i] != 32u8,
        valid_utf8(path),
        datasize >= path.len() + rest.len() + 9,
    ensures
        ({
            let f = spec_parse_inner(seq![80u8, 85, 84, 32] + path + seq![32u8] + rest, datasize);
            &&& f is Some
            &&& f->0.version == HttpVersion::HTTP1_1
            &&& f->0.method == RequestMethod::Unknown
            &&& f->0.url == decode_utf8(path)
        }),
        ({
            let f = spec_parse_inner(seq![72u8, 69, 65, 68, 32] + path + seq![32u8] + rest, datasize);
            &&& f is Some
            &&& f->0.version == HttpVersion::HTTP1_1
            &&& f->0.method == RequestMethod::Unknown
            &&& f->0.url == decode_utf8(path)
        }),
        ({
            let f = spec_parse_inner(seq![68u8, 69, 76, 69, 84, 69, 32] + path + seq![32u8] + rest, datasize);
            &&& f is Some
            &&& f->0.version == HttpVersion::HTTP1_1
            &&& f->0.method == RequestMethod::Unknown
            &&& f->0.url == decode_utf8(path)
        }),
        ({
            let f = spec_parse_inner(seq![80u8, 65, 84, 67, 72, 32] + path + seq![32u8] + rest, datasize);
            &&& f is Some
            &&& f->0.version == HttpVersion::HTTP1_1
            &&& f->0.method == RequestMethod::Unknown
            &&& f->0.url == decode_utf8(path)
        }),
        ({
            let f = spec_parse_inner(seq![79u8, 80, 84, 73, 79, 78, 83, 32] + path + seq![32u8] + rest, datasize);
            &&& f is Some
            &&& f->0.version == HttpVersion::HTTP1_1
            &&& f->0.method == RequestMethod::Unknown
            &&& f->0.url == decode_utf8(path)
        }),
{
    lemma_request_line_read(2, path, rest, datasize);
    lemma_request_line_read(3, path, rest, datasize);
    lemma_request_line_read(4, path, rest, datasize);
    lemma_request_line_read(5, path, rest, datasize);
    lemma_request_line_read(6, path, rest, datasize);
}

} // verus!
