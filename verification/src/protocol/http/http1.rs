//! HTTP/1.x request and response parsing.
use vstd::prelude::*;
use vstd::utf8::*;

use super::bytes::{
    crlf_at, find_byte, lemma_find_crlf_from, find_crlf, seq_starts_with, spec_find_byte, spec_find_crlf, spec_trim_ascii,
    starts_with, trim_ascii,
};
use super::types::{opt_str, spec_parse_method, FrameModel, HttpFrame, HttpMethod, HttpVersion};
use crate::protocol::header_map::HeaderMap;
use crate::protocol::MessageType;
use crate::text::str_from_utf8;

verus! {

/// `HTTP/1.0`.
pub open spec fn http10_bytes() -> Seq<u8> {
    seq![72u8, 84, 84, 80, 47, 49, 46, 48]
}

/// `HTTP/1.1`.
pub open spec fn http11_bytes() -> Seq<u8> {
    seq![72u8, 84, 84, 80, 47, 49, 46, 49]
}

/// `HTTP/1.`, the start of every HTTP/1.x status line.
pub open spec fn http1_prefix() -> Seq<u8> {
    seq![72u8, 84, 84, 80, 47, 49, 46]
}

pub open spec fn spec_parse_http1_version(s: Seq<u8>) -> Option<HttpVersion> {
    if s == http10_bytes() {
        Some(HttpVersion::Http10)
    } else if s == http11_bytes() {
        Some(HttpVersion::Http11)
    } else {
        None
    }
}

pub open spec fn is_digit(b: u8) -> bool {
    48 <= b <= 57
}

/// A three-digit status code.
pub open spec fn spec_parse_status(s: Seq<u8>) -> Option<u16> {
    if s.len() == 3 && is_digit(s[0]) && is_digit(s[1]) && is_digit(s[2]) {
        Some(((s[0] - 48) * 100 + (s[1] - 48) * 10 + (s[2] - 48)) as u16)
    } else {
        None
    }
}

/// A message body as text: absent when empty or not UTF-8.
pub open spec fn spec_body_str(s: Seq<u8>) -> Option<Seq<char>> {
    if s.len() == 0 {
        None
    } else if valid_utf8(s) {
        Some(decode_utf8(s))
    } else {
        None
    }
}

/// The header table, or nothing when it is empty.
pub open spec fn map_or_none(m: Map<Seq<char>, Seq<char>>) -> Option<Map<Seq<char>, Seq<char>>> {
    if m == Map::<Seq<char>, Seq<char>>::empty() {
        None
    } else {
        Some(m)
    }
}

/// One header line `name: value` (between `offset` and `line_end`) added to `acc`;
/// a line without a colon, or whose trimmed name or value is not UTF-8, adds nothing.
pub open spec fn spec_h1_header_line(
    data: Seq<u8>,
    offset: int,
    line_end: int,
    acc: Map<Seq<char>, Seq<char>>,
) -> Map<Seq<char>, Seq<char>> {
    match spec_find_byte(data.subrange(offset, line_end), 58u8) {
        Some(c) => {
            let name = spec_trim_ascii(data.subrange(offset, offset + c));
            let value = spec_trim_ascii(data.subrange(offset + c + 1, line_end));
            if valid_utf8(name) && valid_utf8(value) {
                acc.insert(decode_utf8(name), decode_utf8(value))
            } else {
                acc
            }
        },
        None => acc,
    }
}

/// The header lines from `offset` on, added in order to `acc`, and the body after the
/// first empty line. Without an empty line there is no body.
pub open spec fn spec_h1_fields(data: Seq<u8>, offset: int, acc: Map<Seq<char>, Seq<char>>) -> (
    Map<Seq<char>, Seq<char>>,
    Option<Seq<char>>,
)
    decreases data.len() - offset,
{
    if offset < 0 || offset >= data.len() {
        (acc, None)
    } else {
        match spec_find_crlf(data.subrange(offset, data.len() as int)) {
            None => (acc, None),
            Some(rel) => {
                let line_end = offset + rel;
                proof {
                    lemma_find_crlf_from(data.subrange(offset, data.len() as int), 0);
                }
                if line_end == offset {
                    (acc, spec_body_str(data.subrange(line_end + 2, data.len() as int)))
                } else {
                    spec_h1_fields(
                        data,
                        line_end + 2,
                        spec_h1_header_line(data, offset, line_end, acc),
                    )
                }
            },
        }
    }
}

/// Headers (absent when there are none) and body of a message whose header section
/// starts at `start`.
pub open spec fn spec_h1_headers_and_body(data: Seq<u8>, start: int) -> (
    Option<Map<Seq<char>, Seq<char>>>,
    Option<Seq<char>>,
) {
    let (m, b) = spec_h1_fields(data, start, Map::empty());
    (map_or_none(m), b)
}

/// A request line `METHOD URL VERSION` (`line`, ending at `line_end`) of `data`.
pub open spec fn spec_http1_request(data: Seq<u8>, line: Seq<u8>, line_end: int, verbose: bool) -> Option<
    FrameModel,
> {
    match spec_find_byte(line, 32u8) {
        None => None,
        Some(method_end) => match spec_parse_method(line.take(method_end)) {
            None => None,
            Some(method) => {
                let url_start = method_end + 1;
                match spec_find_byte(line.subrange(url_start, line.len() as int), 32u8) {
                    None => None,
                    Some(off) => {
                        let url_end = off + url_start;
                        match spec_parse_http1_version(
                            line.subrange(url_end + 1, line.len() as int),
                        ) {
                            None => None,
                            Some(version) => {
                                let url = line.subrange(url_start, url_end);
                                if !valid_utf8(url) {
                                    None
                                } else {
                                    let hb = if verbose {
                                        spec_h1_headers_and_body(data, line_end + 2)
                                    } else {
                                        (None, None)
                                    };
                                    Some(
                                        FrameModel {
                                            message_type: MessageType::Request,
                                            version,
                                            stream_id: 0,
                                            method: Some(method),
                                            url: Some(decode_utf8(url)),
                                            status: None,
                                            headers: hb.0,
                                            body: hb.1,
                                        },
                                    )
                                }
                            },
                        }
                    },
                }
            },
        },
    }
}

/// A status line `HTTP/1.x NNN ...` (`line`, ending at `line_end`) of `data`: the version is
/// the first eight bytes and the status the three after the ninth.
pub open spec fn spec_http1_response(data: Seq<u8>, line: Seq<u8>, line_end: int, verbose: bool) -> Option<
    FrameModel,
> {
    if line.len() < 8 {
        None
    } else {
        match spec_parse_http1_version(line.take(8)) {
            None => None,
            Some(version) => if line.len() < 12 {
                None
            } else {
                match spec_parse_status(line.subrange(9, 12)) {
                    None => None,
                    Some(status) => {
                        let hb = if verbose {
                            spec_h1_headers_and_body(data, line_end + 2)
                        } else {
                            (None, None)
                        };
                        Some(
                            FrameModel {
                                message_type: MessageType::Response,
                                version,
                                stream_id: 0,
                                method: None,
                                url: None,
                                status: Some(status),
                                headers: hb.0,
                                body: hb.1,
                            },
                        )
                    },
                }
            },
        }
    }
}

/// An HTTP/1.x message: its first line, up to the first `\r\n`, is a status line when it
/// starts with `HTTP/1.` and a request line otherwise.
pub open spec fn spec_http1(data: Seq<u8>, verbose: bool) -> Option<FrameModel> {
    match spec_find_crlf(data) {
        None => None,
        Some(line_end) => {
            let line = data.take(line_end);
            if seq_starts_with(line, http1_prefix()) {
                spec_http1_response(data, line, line_end, verbose)
            } else {
                spec_http1_request(data, line, line_end, verbose)
            }
        },
    }
}

/// An optional frame, by its model.
pub open spec fn opt_model(o: Option<HttpFrame>) -> Option<FrameModel> {
    match o {
        Some(f) => Some(f.model()),
        None => None,
    }
}

/// An optional frame is well formed when present.
pub open spec fn opt_wf(o: Option<HttpFrame>) -> bool {
    o matches Some(f) ==> f.wf()
}

/// True when `data` and `expected` hold the same bytes.
pub fn bytes_eq(data: &[u8], expected: &[u8]) -> (r: bool)
    ensures
        r == (data@ == expected@),
{
    if data.len() != expected.len() {
        return false;
    }
    let mut i: usize = 0;
    while i < data.len()
        invariant
            i <= data@.len() == expected@.len(),
            forall|j: int| 0 <= j < i ==> data@[j] == expected@[j],
        decreases data@.len() - i,
    {
        if data[i] != expected[i] {
            return false;
        }
        i = i + 1;
    }
    assert(data@ =~= expected@);
    true
}

/// The method written by `data`, matched exactly.
pub fn parse_method(data: &[u8]) -> (r: Option<HttpMethod>)
    ensures
        r == spec_parse_method(data@),
{
    if bytes_eq(data, HttpMethod::Get.as_bytes()) {
        Some(HttpMethod::Get)
    } else if bytes_eq(data, HttpMethod::Put.as_bytes()) {
        Some(HttpMethod::Put)
    } else if bytes_eq(data, HttpMethod::Post.as_bytes()) {
        Some(HttpMethod::Post)
    } else if bytes_eq(data, HttpMethod::Head.as_bytes()) {
        Some(HttpMethod::Head)
    } else if bytes_eq(data, HttpMethod::Patch.as_bytes()) {
        Some(HttpMethod::Patch)
    } else if bytes_eq(data, HttpMethod::Trace.as_bytes()) {
        Some(HttpMethod::Trace)
    } else if bytes_eq(data, HttpMethod::Delete.as_bytes()) {
        Some(HttpMethod::Delete)
    } else if bytes_eq(data, HttpMethod::Options.as_bytes()) {
        Some(HttpMethod::Options)
    } else if bytes_eq(data, HttpMethod::Connect.as_bytes()) {
        Some(HttpMethod::Connect)
    } else {
        None
    }
}

/// `HTTP/1.0` or `HTTP/1.1`, exactly.
pub fn parse_http1_version(data: &[u8]) -> (r: Option<HttpVersion>)
    ensures
        r == spec_parse_http1_version(data@),
{
    let v10: &'static [u8; 8] = &[72u8, 84, 84, 80, 47, 49, 46, 48];
    let v11: &'static [u8; 8] = &[72u8, 84, 84, 80, 47, 49, 46, 49];
    if bytes_eq(data, v10.as_slice()) {
        Some(HttpVersion::Http10)
    } else if bytes_eq(data, v11.as_slice()) {
        Some(HttpVersion::Http11)
    } else {
        None
    }
}

/// A status code of exactly three ASCII digits.
pub fn parse_status(data: &[u8]) -> (r: Option<u16>)
    ensures
        r == spec_parse_status(data@),
{
    if data.len() != 3 {
        return None;
    }
    let (a, b, c) = (data[0], data[1], data[2]);
    if !(48 <= a && a <= 57 && 48 <= b && b <= 57 && 48 <= c && c <= 57) {
        return None;
    }
    Some((a - 48) as u16 * 100 + (b - 48) as u16 * 10 + (c - 48) as u16)
}

/// A body as text: `None` when it is empty or not UTF-8.
pub fn body_to_boxed_str(body: &[u8]) -> (r: Option<String>)
    ensures
        opt_str(r) == spec_body_str(body@),
{
    if body.len() == 0 {
        return None;
    }
    match str_from_utf8(body) {
        Some(s) => Some(s.to_owned()),
        None => None,
    }
}

/// The table, or `None` when it holds nothing.
pub fn empty_map_to_none(headers: HeaderMap) -> (r: Option<HeaderMap>)
    requires
        headers.wf(),
    ensures
        r matches Some(h) ==> h.wf(),
        match r {
            Some(h) => h.view() == headers.view() && Some(h.view()) == map_or_none(headers.view()),
            None => map_or_none(headers.view()) is None,
        },
{
    if headers.is_empty() {
        None
    } else {
        Some(headers)
    }
}

/// Header fields and body of the message whose header section starts at `start`.
pub fn parse_http1_headers_and_body(data: &[u8], start: usize) -> (r: (Option<HeaderMap>, Option<String>))
    ensures
        r.0 matches Some(h) ==> h.wf(),
        (match r.0 {
            Some(h) => Some(h.view()),
            None => None,
        }) == spec_h1_headers_and_body(data@, start as int).0,
        opt_str(r.1) == spec_h1_headers_and_body(data@, start as int).1,
{
    let mut headers = HeaderMap::new();
    let mut offset = start;
    let len = data.len();
    while offset < len
        invariant
            len == data@.len(),
            headers.wf(),
            spec_h1_fields(data@, start as int, Map::empty()) == spec_h1_fields(
                data@,
                offset as int,
                headers.view(),
            ),
        decreases len - offset,
    {
        let rest = &data[offset..len];
        let line_end = match find_crlf(rest) {
            Some(rel) => offset + rel,
            None => {
                return (empty_map_to_none(headers), None);
            },
        };
        if line_end == offset {
            let body_start = line_end + 2;
            let body = body_to_boxed_str(&data[body_start..len]);
            return (empty_map_to_none(headers), body);
        }
        let ghost before = headers.view();
        let field = &data[offset..line_end];
        match find_byte(field, 58u8) {
            Some(colon) => {
                let name = trim_ascii(&data[offset..offset + colon]);
                let value = trim_ascii(&data[offset + colon + 1..line_end]);
                match (str_from_utf8(name), str_from_utf8(value)) {
                    (Some(n), Some(v)) => {
                        headers.insert(n.to_owned(), v.to_owned());
                    },
                    _ => {},
                }
            },
            None => {},
        }
        assert(headers.view() == spec_h1_header_line(data@, offset as int, line_end as int, before));
        offset = line_end + 2;
    }
    (empty_map_to_none(headers), None)
}


/// Parses a request line `line` (the first `line_end` bytes of `data`); in verbose mode the
/// headers and body are read from `line_end + 2` on.
pub fn parse_http1_request(data: &[u8], line: &[u8], line_end: usize, verbose: bool) -> (r: Option<HttpFrame>)
    requires
        line_end + 2 <= usize::MAX,
    ensures
        opt_wf(r),
        opt_model(r) == spec_http1_request(data@, line@, line_end as int, verbose),
{
    let n = data.len();
    let line_len = line.len();
    let method_end = match find_byte(line, 32u8) {
        Some(i) => i,
        None => return None,
    };
    let method = parse_method(&line[0..method_end])?;
    assert(line@.subrange(0, method_end as int) =~= line@.take(method_end as int));
    let url_start = method_end + 1;
    let url_end = find_byte(&line[url_start..line.len()], 32u8)? + url_start;
    let version = parse_http1_version(&line[url_end + 1..line.len()])?;
    let url = str_from_utf8(&line[url_start..url_end])?;
    if !verbose {
        return Some(
            HttpFrame {
                message_type: MessageType::Request,
                version,
                stream_id: 0,
                method: Some(method),
                url: Some(url.to_owned()),
                status: None,
                headers: None,
                body: None,
            },
        );
    }
    let (headers, body) = parse_http1_headers_and_body(data, line_end + 2);
    Some(
        HttpFrame {
            message_type: MessageType::Request,
            version,
            stream_id: 0,
            method: Some(method),
            url: Some(url.to_owned()),
            status: None,
            headers,
            body,
        },
    )
}

/// Parses a status line `line` (the first `line_end` bytes of `data`); in verbose mode the
/// headers and body are read from `line_end + 2` on.
pub fn parse_http1_response(data: &[u8], line: &[u8], line_end: usize, verbose: bool) -> (r: Option<HttpFrame>)
    requires
        line_end + 2 <= usize::MAX,
    ensures
        opt_wf(r),
        opt_model(r) == spec_http1_response(data@, line@, line_end as int, verbose),
{
    let n = data.len();
    if line.len() < 8 {
        return None;
    }
    let version = parse_http1_version(&line[0..8])?;
    assert(line@.subrange(0, 8) =~= line@.take(8));
    if line.len() < 12 {
        return None;
    }
    let status = parse_status(&line[9..12])?;
    if !verbose {
        return Some(
            HttpFrame {
                message_type: MessageType::Response,
                version,
                stream_id: 0,
                method: None,
                url: None,
                status: Some(status),
                headers: None,
                body: None,
            },
        );
    }
    let (headers, body) = parse_http1_headers_and_body(data, line_end + 2);
    Some(
        HttpFrame {
            message_type: MessageType::Response,
            version,
            stream_id: 0,
            method: None,
            url: None,
            status: Some(status),
            headers,
            body,
        },
    )
}

/// Parses an HTTP/1.x request or response head.
pub fn parse_http1(data: &[u8], verbose: bool) -> (r: Option<HttpFrame>)
    ensures
        opt_wf(r),
        opt_model(r) == spec_http1(data@, verbose),
{
    let line_end = find_crlf(data)?;
    let n = data.len();
    assert(line_end + 2 <= n);
    let line = &data[0..line_end];
    assert(line@ =~= data@.take(line_end as int));
    let prefix: &'static [u8; 7] = &[72u8, 84, 84, 80, 47, 49, 46];
    if starts_with(line, prefix.as_slice()) {
        parse_http1_response(data, line, line_end, verbose)
    } else {
        parse_http1_request(data, line, line_end, verbose)
    }
}

} // verus!
