//! HTTP/2 frame-header parsing (RFC 9113, section 4.1) with a plausibility check per frame
//! type, and the payload of DATA, HEADERS and CONTINUATION frames.
use vstd::prelude::*;
use vstd::utf8::*;

use super::bytes::{seq_starts_with, starts_with};
use super::hpack::{parse_hpack_literals, spec_hpack_fields};
use super::http1::{
    body_to_boxed_str, empty_map_to_none, map_or_none, opt_model, opt_wf, parse_method,
    parse_status, spec_body_str, spec_parse_status,
};
use super::types::{opt_str, spec_parse_method, FrameModel, HttpFrame, HttpVersion};
use crate::protocol::MessageType;

verus! {

pub const HTTP2_FRAME_HEADER_LEN: usize = 9;

pub const HTTP2_FRAME_DATA: u8 = 0;

pub const HTTP2_FRAME_HEADERS: u8 = 1;

pub const HTTP2_FRAME_PRIORITY: u8 = 2;

pub const HTTP2_FRAME_RST_STREAM: u8 = 3;

pub const HTTP2_FRAME_SETTINGS: u8 = 4;

pub const HTTP2_FRAME_PUSH_PROMISE: u8 = 5;

pub const HTTP2_FRAME_PING: u8 = 6;

pub const HTTP2_FRAME_GOAWAY: u8 = 7;

pub const HTTP2_FRAME_WINDOW_UPDATE: u8 = 8;

pub const HTTP2_FRAME_CONTINUATION: u8 = 9;

pub const HTTP2_MAX_FRAME_TYPE: u8 = 9;

pub const HTTP2_FLAG_PADDED: u8 = 0x8;

pub const HTTP2_FLAG_PRIORITY: u8 = 0x20;

/// The client connection preface `PRI * HTTP/2.0\r\n\r\nSM\r\n\r\n`.
pub open spec fn h2_preface() -> Seq<u8> {
    seq![
        80u8, 82, 73, 32, 42, 32, 72, 84, 84, 80, 47, 50, 46, 48, 13, 10, 13, 10, 83, 77, 13, 10,
        13, 10,
    ]
}

/// The connection preface as bytes.
pub fn http2_preface() -> (r: &'static [u8])
    ensures
        r@ == h2_preface(),
{
    let p: &'static [u8; 24] = &[
        80u8, 82, 73, 32, 42, 32, 72, 84, 84, 80, 47, 50, 46, 48, 13, 10, 13, 10, 83, 77, 13, 10,
        13, 10,
    ];
    p.as_slice()
}

pub open spec fn spec_fixed_payload_available(frame_len: usize, available: usize, expected: usize) -> bool {
    frame_len == expected && available >= expected
}

/// The declared length is `expected` and that many payload bytes are at hand.
pub fn fixed_payload_available(frame_len: usize, available_payload_len: usize, expected: usize) -> (r: bool)
    ensures
        r == spec_fixed_payload_available(frame_len, available_payload_len, expected),
{
    frame_len == expected && available_payload_len >= expected
}

pub open spec fn spec_validate_h2_headers(stream_id: u32, has_preface: bool, frame_len: usize, available: usize) -> bool {
    stream_id != 0 && (!has_preface || frame_len <= available)
}

pub fn validate_h2_headers(stream_id: u32, has_preface: bool, frame_len: usize, available_payload_len: usize) -> (r: bool)
    ensures
        r == spec_validate_h2_headers(stream_id, has_preface, frame_len, available_payload_len),
{
    stream_id != 0 && (!has_preface || frame_len <= available_payload_len)
}

pub open spec fn spec_validate_h2_priority(stream_id: u32, frame_len: usize, available: usize) -> bool {
    stream_id != 0 && spec_fixed_payload_available(frame_len, available, 5)
}

pub fn validate_h2_priority(stream_id: u32, frame_len: usize, available_payload_len: usize) -> (r: bool)
    ensures
        r == spec_validate_h2_priority(stream_id, frame_len, available_payload_len),
{
    stream_id != 0 && fixed_payload_available(frame_len, available_payload_len, 5)
}

pub open spec fn spec_validate_h2_rst_stream(stream_id: u32, frame_len: usize, available: usize) -> bool {
    stream_id != 0 && spec_fixed_payload_available(frame_len, available, 4)
}

pub fn validate_h2_rst_stream(stream_id: u32, frame_len: usize, available_payload_len: usize) -> (r: bool)
    ensures
        r == spec_validate_h2_rst_stream(stream_id, frame_len, available_payload_len),
{
    stream_id != 0 && fixed_payload_available(frame_len, available_payload_len, 4)
}

pub open spec fn spec_validate_h2_settings(flags: u8, stream_id: u32, frame_len: usize, available: usize) -> bool {
    stream_id == 0 && frame_len % 6 == 0 && (flags & 0x1u8 == 0 || frame_len == 0) && frame_len
        <= available
}

pub fn validate_h2_settings(flags: u8, stream_id: u32, frame_len: usize, available_payload_len: usize) -> (r: bool)
    ensures
        r == spec_validate_h2_settings(flags, stream_id, frame_len, available_payload_len),
{
    stream_id == 0 && frame_len.is_multiple_of(6) && (flags & 0x1u8 == 0 || frame_len == 0)
        && frame_len <= available_payload_len
}

pub open spec fn spec_validate_h2_push_promise(stream_id: u32, has_preface: bool, frame_len: usize, available: usize) -> bool {
    stream_id != 0 && frame_len >= 4 && (!has_preface || frame_len <= available)
}

pub fn validate_h2_push_promise(stream_id: u32, has_preface: bool, frame_len: usize, available_payload_len: usize) -> (r: bool)
    ensures
        r == spec_validate_h2_push_promise(stream_id, has_preface, frame_len, available_payload_len),
{
    stream_id != 0 && frame_len >= 4 && (!has_preface || frame_len <= available_payload_len)
}

pub open spec fn spec_validate_h2_ping(stream_id: u32, frame_len: usize, available: usize) -> bool {
    stream_id == 0 && spec_fixed_payload_available(frame_len, available, 8)
}

pub fn validate_h2_ping(stream_id: u32, frame_len: usize, available_payload_len: usize) -> (r: bool)
    ensures
        r == spec_validate_h2_ping(stream_id, frame_len, available_payload_len),
{
    stream_id == 0 && fixed_payload_available(frame_len, available_payload_len, 8)
}

pub open spec fn spec_validate_h2_goaway(stream_id: u32, frame_len: usize, available: usize) -> bool {
    stream_id == 0 && frame_len >= 8 && available >= (if frame_len < 8 { frame_len } else { 8 })
}

pub fn validate_h2_goaway(stream_id: u32, frame_len: usize, available_payload_len: usize) -> (r: bool)
    ensures
        r == spec_validate_h2_goaway(stream_id, frame_len, available_payload_len),
{
    let least = if frame_len < 8 { frame_len } else { 8 };
    stream_id == 0 && frame_len >= 8 && available_payload_len >= least
}

pub open spec fn spec_validate_h2_window_update(frame_len: usize, available: usize) -> bool {
    spec_fixed_payload_available(frame_len, available, 4)
}

pub fn validate_h2_window_update(frame_len: usize, available_payload_len: usize) -> (r: bool)
    ensures
        r == spec_validate_h2_window_update(frame_len, available_payload_len),
{
    fixed_payload_available(frame_len, available_payload_len, 4)
}

pub open spec fn spec_validate_h2_continuation(stream_id: u32, has_preface: bool, frame_len: usize, available: usize) -> bool {
    stream_id != 0 && (!has_preface || frame_len <= available)
}

pub fn validate_h2_continuation(stream_id: u32, has_preface: bool, frame_len: usize, available_payload_len: usize) -> (r: bool)
    ensures
        r == spec_validate_h2_continuation(stream_id, has_preface, frame_len, available_payload_len),
{
    stream_id != 0 && (!has_preface || frame_len <= available_payload_len)
}

/// Whether a frame header of the given type can start a real HTTP/2 frame.
pub open spec fn spec_is_plausible_http2_frame(
    frame_type: u8,
    flags: u8,
    stream_id: u32,
    frame_len: usize,
    available_len: usize,
    has_preface: bool,
) -> bool {
    if frame_type > 9 || available_len < 9 {
        false
    } else {
        let available = (available_len - 9) as usize;
        if frame_type == 0 {
            stream_id != 0
        } else if frame_type == 1 {
            spec_validate_h2_headers(stream_id, has_preface, frame_len, available)
        } else if frame_type == 2 {
            spec_validate_h2_priority(stream_id, frame_len, available)
        } else if frame_type == 3 {
            spec_validate_h2_rst_stream(stream_id, frame_len, available)
        } else if frame_type == 4 {
            spec_validate_h2_settings(flags, stream_id, frame_len, available)
        } else if frame_type == 5 {
            spec_validate_h2_push_promise(stream_id, has_preface, frame_len, available)
        } else if frame_type == 6 {
            spec_validate_h2_ping(stream_id, frame_len, available)
        } else if frame_type == 7 {
            spec_validate_h2_goaway(stream_id, frame_len, available)
        } else if frame_type == 8 {
            spec_validate_h2_window_update(frame_len, available)
        } else {
            spec_validate_h2_continuation(stream_id, has_preface, frame_len, available)
        }
    }
}

pub fn is_plausible_http2_frame(
    frame_type: u8,
    flags: u8,
    stream_id: u32,
    frame_len: usize,
    available_len: usize,
    has_preface: bool,
) -> (r: bool)
    ensures
        r == spec_is_plausible_http2_frame(
            frame_type,
            flags,
            stream_id,
            frame_len,
            available_len,
            has_preface,
        ),
{
    if frame_type > HTTP2_MAX_FRAME_TYPE || available_len < HTTP2_FRAME_HEADER_LEN {
        return false;
    }
    let available_payload_len = available_len - HTTP2_FRAME_HEADER_LEN;
    if frame_type == HTTP2_FRAME_DATA {
        stream_id != 0
    } else if frame_type == HTTP2_FRAME_HEADERS {
        validate_h2_headers(stream_id, has_preface, frame_len, available_payload_len)
    } else if frame_type == HTTP2_FRAME_PRIORITY {
        validate_h2_priority(stream_id, frame_len, available_payload_len)
    } else if frame_type == HTTP2_FRAME_RST_STREAM {
        validate_h2_rst_stream(stream_id, frame_len, available_payload_len)
    } else if frame_type == HTTP2_FRAME_SETTINGS {
        validate_h2_settings(flags, stream_id, frame_len, available_payload_len)
    } else if frame_type == HTTP2_FRAME_PUSH_PROMISE {
        validate_h2_push_promise(stream_id, has_preface, frame_len, available_payload_len)
    } else if frame_type == HTTP2_FRAME_PING {
        validate_h2_ping(stream_id, frame_len, available_payload_len)
    } else if frame_type == HTTP2_FRAME_GOAWAY {
        validate_h2_goaway(stream_id, frame_len, available_payload_len)
    } else if frame_type == HTTP2_FRAME_WINDOW_UPDATE {
        validate_h2_window_update(frame_len, available_payload_len)
    } else {
        validate_h2_continuation(stream_id, has_preface, frame_len, available_payload_len)
    }
}

/// The payload of a DATA frame as text, without its padding.
pub open spec fn spec_http2_data_payload(payload: Seq<u8>, flags: u8) -> Option<Seq<char>> {
    if flags & 0x8u8 != 0 {
        if payload.len() == 0 {
            None
        } else if payload[0] as int > payload.len() {
            None
        } else if payload.len() - payload[0] < 1 {
            None
        } else {
            spec_body_str(payload.subrange(1, payload.len() - payload[0]))
        }
    } else {
        spec_body_str(payload)
    }
}

/// Reads the text of a DATA frame's payload.
pub fn http2_data_payload(payload: &[u8], flags: u8) -> (r: Option<String>)
    ensures
        opt_str(r) == spec_http2_data_payload(payload@, flags),
{
    if flags & HTTP2_FLAG_PADDED != 0 {
        let n = payload.len();
        if n == 0 {
            return None;
        }
        let pad_len = payload[0] as usize;
        if pad_len > n {
            return None;
        }
        let end = n - pad_len;
        if end < 1 {
            return None;
        }
        body_to_boxed_str(&payload[1..end])
    } else {
        body_to_boxed_str(payload)
    }
}

/// The header block fragment of a HEADERS or CONTINUATION payload: padding and, for
/// HEADERS with the PRIORITY flag, the five priority bytes are left out.
pub open spec fn spec_http2_header_block(payload: Seq<u8>, flags: u8, frame_type: u8) -> Option<Seq<u8>> {
    let padded = flags & 0x8u8 != 0;
    if padded && payload.len() == 0 {
        None
    } else if padded && payload[0] as int > payload.len() {
        None
    } else {
        let start: int = if padded { 1 } else { 0 };
        let end: int = if padded { payload.len() - payload[0] } else { payload.len() as int };
        let offset = if frame_type == 1 && flags & 0x20u8 != 0 { start + 5 } else { start };
        if offset <= end {
            Some(payload.subrange(offset, end))
        } else {
            None
        }
    }
}

/// An optional byte slice, by its bytes.
pub open spec fn opt_bytes(o: Option<&[u8]>) -> Option<Seq<u8>> {
    match o {
        Some(b) => Some(b@),
        None => None,
    }
}

/// Extracts the header block fragment of a HEADERS or CONTINUATION payload.
pub fn http2_header_block(payload: &[u8], flags: u8, frame_type: u8) -> (r: Option<&[u8]>)
    ensures
        opt_bytes(r) == spec_http2_header_block(payload@, flags, frame_type),
{
    let n = payload.len();
    let mut offset: usize = 0;
    let mut end: usize = n;
    if flags & HTTP2_FLAG_PADDED != 0 {
        if n == 0 {
            return None;
        }
        let pad_len = payload[0] as usize;
        offset = 1;
        if pad_len > n {
            return None;
        }
        end = n - pad_len;
    }
    if frame_type == HTTP2_FRAME_HEADERS && flags & HTTP2_FLAG_PRIORITY != 0 {
        offset = offset + 5;
    }
    if offset <= end {
        Some(&payload[offset..end])
    } else {
        None
    }
}

/// A frame after reading the header block of a HEADERS or CONTINUATION payload: method,
/// path and status come from the `:method`, `:path` and `:status` fields, and the message
/// type from which of method and status are present; in verbose mode the whole table
/// (absent when empty) is kept too.
pub open spec fn spec_parse_http2_headers(
    payload: Seq<u8>,
    flags: u8,
    frame_type: u8,
    verbose: bool,
    f: FrameModel,
) -> FrameModel {
    match spec_http2_header_block(payload, flags, frame_type) {
        None => f,
        Some(block) => {
            let h = spec_hpack_fields(block, Map::empty());
            let method = if h.contains_key(":method"@) {
                spec_parse_method(encode_utf8(h[":method"@]))
            } else {
                None
            };
            let url = if h.contains_key(":path"@) {
                Some(h[":path"@])
            } else {
                None
            };
            let status = if h.contains_key(":status"@) {
                spec_parse_status(encode_utf8(h[":status"@]))
            } else {
                None
            };
            FrameModel {
                message_type: if method is Some {
                    MessageType::Request
                } else if status is Some {
                    MessageType::Response
                } else {
                    MessageType::Unknown
                },
                version: f.version,
                stream_id: f.stream_id,
                method,
                url,
                status,
                headers: if verbose {
                    map_or_none(h)
                } else {
                    f.headers
                },
                body: f.body,
            }
        },
    }
}

/// Reads the header block of a HEADERS or CONTINUATION payload into `frame`.
pub fn parse_http2_headers(payload: &[u8], flags: u8, frame_type: u8, verbose: bool, frame: &mut HttpFrame)
    requires
        old(frame).wf(),
    ensures
        final(frame).wf(),
        final(frame).model() == spec_parse_http2_headers(
            payload@,
            flags,
            frame_type,
            verbose,
            old(frame).model(),
        ),
{
    let header_block = match http2_header_block(payload, flags, frame_type) {
        Some(b) => b,
        None => return,
    };
    let headers = parse_hpack_literals(header_block);
    frame.method = match headers.get(":method") {
        Some(m) => parse_method(m.as_str().as_bytes()),
        None => None,
    };
    frame.url = match headers.get(":path") {
        Some(p) => Some(p.clone()),
        None => None,
    };
    frame.status = match headers.get(":status") {
        Some(s) => parse_status(s.as_str().as_bytes()),
        None => None,
    };
    frame.message_type = match (frame.method, frame.status) {
        (Some(_), _) => MessageType::Request,
        (_, Some(_)) => MessageType::Response,
        _ => MessageType::Unknown,
    };
    if verbose {
        frame.headers = empty_map_to_none(headers);
    }
}

/// The 24-bit length of a frame header.
pub open spec fn frame_len_of(d: Seq<u8>) -> int {
    d[0] as int * 65536 + d[1] as int * 256 + d[2] as int
}

/// The 31-bit stream identifier of a frame header (the reserved bit cleared).
pub open spec fn stream_id_of(d: Seq<u8>) -> u32 {
    ((d[5] & 0x7fu8) as int * 16777216 + d[6] as int * 65536 + d[7] as int * 256 + d[8] as int) as u32
}

/// An HTTP/2 frame, after the connection preface when `data` starts with it. Without
/// `verbose` only HEADERS frames have their payload read.
pub open spec fn spec_http2(data: Seq<u8>, verbose: bool) -> Option<FrameModel> {
    let has_preface = seq_starts_with(data, h2_preface());
    let d = if has_preface {
        data.subrange(24, data.len() as int)
    } else {
        data
    };
    if d.len() < 9 {
        None
    } else {
        let frame_len = frame_len_of(d);
        let frame_type = d[3];
        let flags = d[4];
        let stream_id = stream_id_of(d);
        if !spec_is_plausible_http2_frame(
            frame_type,
            flags,
            stream_id,
            frame_len as usize,
            d.len() as usize,
            has_preface,
        ) {
            None
        } else {
            let avail = d.len() - 9;
            let payload_end = 9 + if frame_len < avail {
                frame_len
            } else {
                avail
            };
            let payload = d.subrange(9, payload_end);
            let base = FrameModel {
                message_type: MessageType::Unknown,
                version: HttpVersion::Http2,
                stream_id,
                method: None,
                url: None,
                status: None,
                headers: None,
                body: None,
            };
            if !verbose && frame_type != 1 {
                Some(base)
            } else if frame_type == 0 {
                Some(FrameModel { body: spec_http2_data_payload(payload, flags), ..base })
            } else if frame_type == 1 || frame_type == 9 {
                Some(spec_parse_http2_headers(payload, flags, frame_type, verbose, base))
            } else {
                Some(base)
            }
        }
    }
}

/// Parses one HTTP/2 frame.
pub fn parse_http2(data: &[u8], verbose: bool) -> (r: Option<HttpFrame>)
    ensures
        opt_wf(r),
        opt_model(r) == spec_http2(data@, verbose),
{
    let has_preface = starts_with(data, http2_preface());
    let n = data.len();
    let d = if has_preface {
        &data[24..n]
    } else {
        data
    };
    let dn = d.len();
    if dn < HTTP2_FRAME_HEADER_LEN {
        return None;
    }
    let frame_len: usize = (d[0] as usize) * 65536 + (d[1] as usize) * 256 + d[2] as usize;
    let frame_type = d[3];
    let flags = d[4];
    let b5 = d[5];
    let high = b5 & 0x7fu8;
    assert(b5 & 0x7fu8 <= 0x7fu8) by (bit_vector);
    let stream_id: u32 = (high as u32) * 16777216 + (d[6] as u32) * 65536 + (d[7] as u32) * 256
        + d[8] as u32;
    if !is_plausible_http2_frame(frame_type, flags, stream_id, frame_len, dn, has_preface) {
        return None;
    }
    let avail = dn - HTTP2_FRAME_HEADER_LEN;
    let payload_end = HTTP2_FRAME_HEADER_LEN + if frame_len < avail {
        frame_len
    } else {
        avail
    };
    let payload = &d[HTTP2_FRAME_HEADER_LEN..payload_end];
    let mut frame = HttpFrame {
        message_type: MessageType::Unknown,
        version: HttpVersion::Http2,
        stream_id,
        method: None,
        url: None,
        status: None,
        headers: None,
        body: None,
    };
    if !verbose && frame_type != HTTP2_FRAME_HEADERS {
        return Some(frame);
    }
    if frame_type == HTTP2_FRAME_DATA {
        frame.body = http2_data_payload(payload, flags);
    } else if frame_type == HTTP2_FRAME_HEADERS || frame_type == HTTP2_FRAME_CONTINUATION {
        parse_http2_headers(payload, flags, frame_type, verbose, &mut frame);
    }
    Some(frame)
}

} // verus!
