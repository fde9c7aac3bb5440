//! Properties of the HTTP parser that relate several calls.
use vstd::prelude::*;

use vstd::utf8::{encode_utf8, is_ascii_chars, is_ascii_chars_encode_utf8};

use super::bytes::seq_starts_with;
use super::hpack::{lemma_one_indexed_field, spec_indexed_header};
use super::http1::{spec_http1, spec_parse_status};
use super::http2::{h2_preface, spec_http2, spec_parse_http2_headers};
use super::parser::{spec_hash_id, spec_parse_http};
use super::types::FrameModel;
use crate::protocol::MessageType;

verus! {

/// The frame type byte of the HTTP/2 frame header in `data` (after the preface, if any).
pub open spec fn h2_frame_type(data: Seq<u8>) -> Option<u8> {
    let d = if seq_starts_with(data, h2_preface()) {
        data.subrange(24, data.len() as int)
    } else {
        data
    };
    if d.len() < 9 {
        None
    } else {
        Some(d[3])
    }
}

/// Verbose mode never decides whether a frame is recognised, and a frame parsed without
/// it carries neither header table nor body.
pub proof fn law_verbose_keeps_recognition(data: Seq<u8>)
    ensures
        spec_parse_http(data, false) is Some <==> spec_parse_http(data, true) is Some,
        spec_parse_http(data, false) matches Some(f) ==> f.headers is None && f.body is None,
{
}

/// Verbose mode only adds the header table and the body: every other field is the same
/// with and without it, except for an HTTP/2 CONTINUATION frame, whose header block is
/// read only in verbose mode.
pub proof fn law_verbose_only_adds_headers_and_body(data: Seq<u8>)
    requires
        spec_http1(data, false) is Some || h2_frame_type(data) != Some(9u8),
    ensures
        spec_parse_http(data, false) matches Some(q) ==> {
            let v = spec_parse_http(data, true)->0;
            &&& q.message_type == v.message_type
            &&& q.version == v.version
            &&& q.stream_id == v.stream_id
            &&& q.method == v.method
            &&& q.url == v.url
            &&& q.status == v.status
        },
{
}

/// Two HTTP/1.x requests with the same method and URL hash alike, whatever their headers.
pub proof fn law_http1_hash_depends_on_target(d1: Seq<u8>, d2: Seq<u8>)
    requires
        spec_http2(d1, false) is None,
        spec_http2(d2, false) is None,
        spec_http1(d1, false) is Some,
        spec_http1(d2, false) is Some,
        spec_http1(d1, false)->0.method == spec_http1(d2, false)->0.method,
        spec_http1(d1, false)->0.url == spec_http1(d2, false)->0.url,
        spec_http1(d1, false)->0.method is Some,
        spec_http1(d1, false)->0.url is Some,
    ensures
        spec_hash_id(d1) == spec_hash_id(d2),
{
}


/// Three decimal digits, as UTF-8 text, read as the status they write.
proof fn lemma_three_digit_status(c: Seq<char>)
    requires
        c.len() == 3,
        '0' <= c[0] <= '9',
        '0' <= c[1] <= '9',
        '0' <= c[2] <= '9',
    ensures
        spec_parse_status(encode_utf8(c)) == Some(
            ((c[0] as int - 48) * 100 + (c[1] as int - 48) * 10 + (c[2] as int - 48)) as u16,
        ),
{
    assert(is_ascii_chars(c));
    is_ascii_chars_encode_utf8(c);
    let e = encode_utf8(c);
    assert(e[0] == c[0] as u8 && e[1] == c[1] as u8 && e[2] == c[2] as u8);
}

/// A HEADERS block that is one indexed field for a `:status` entry of the static table
/// reads as that entry's status, with neither method nor path.
proof fn lemma_indexed_status_block(b: u8, flags: u8, verbose: bool, f: FrameModel)
    requires
        0x88u8 <= b <= 0x8eu8,
        flags & 0x28u8 == 0,
    ensures
        spec_parse_http2_headers(seq![b], flags, 1, verbose, f).method is None,
        spec_parse_http2_headers(seq![b], flags, 1, verbose, f).url is None,
        spec_parse_http2_headers(seq![b], flags, 1, verbose, f).status == spec_parse_status(
            encode_utf8((spec_indexed_header(b - 128)->0).1),
        ),
{
    assert(flags & 0x8u8 == 0 && flags & 0x20u8 == 0) by (bit_vector)
        requires
            flags & 0x28u8 == 0,
    ;
    assert(seq![b].subrange(0, 1) =~= seq![b]);
    lemma_one_indexed_field(b);
    reveal_strlit(":method");
    reveal_strlit(":path");
    reveal_strlit(":status");
    assert(":method"@[1] != ":status"@[1]);
    assert(":method"@ != ":status"@);
    assert(":path"@ != ":status"@);
}

/// A HEADERS block made of one indexed field for a `:status` entry of the static table
/// (RFC 7541, Appendix A: entries 8 to 14, bytes `0x88` to `0x8e`) is a response with
/// that entry's status, whatever the flags besides PADDED and PRIORITY.
pub proof fn law_indexed_status_response(flags: u8, verbose: bool, f: FrameModel)
    requires
        flags & 0x28u8 == 0,
    ensures
        spec_parse_http2_headers(seq![0x88u8], flags, 1, verbose, f).status == Some(200u16),
        spec_parse_http2_headers(seq![0x89u8], flags, 1, verbose, f).status == Some(204u16),
        spec_parse_http2_headers(seq![0x8au8], flags, 1, verbose, f).status == Some(206u16),
        spec_parse_http2_headers(seq![0x8bu8], flags, 1, verbose, f).status == Some(304u16),
        spec_parse_http2_headers(seq![0x8cu8], flags, 1, verbose, f).status == Some(400u16),
        spec_parse_http2_headers(seq![0x8du8], flags, 1, verbose, f).status == Some(404u16),
        spec_parse_http2_headers(seq![0x8eu8], flags, 1, verbose, f).status == Some(500u16),
        forall|b: u8|
            0x88u8 <= b <= 0x8eu8 ==> #[trigger] spec_parse_http2_headers(seq![b], flags, 1, verbose, f).message_type
                == MessageType::Response,
{
    lemma_indexed_status_block(0x88u8, flags, verbose, f);
    reveal_strlit("200");
    lemma_three_digit_status("200"@);
    lemma_indexed_status_block(0x89u8, flags, verbose, f);
    reveal_strlit("204");
    lemma_three_digit_status("204"@);
    lemma_indexed_status_block(0x8au8, flags, verbose, f);
    reveal_strlit("206");
    lemma_three_digit_status("206"@);
    lemma_indexed_status_block(0x8bu8, flags, verbose, f);
    reveal_strlit("304");
    lemma_three_digit_status("304"@);
    lemma_indexed_status_block(0x8cu8, flags, verbose, f);
    reveal_strlit("400");
    lemma_three_digit_status("400"@);
    lemma_indexed_status_block(0x8du8, flags, verbose, f);
    reveal_strlit("404");
    lemma_three_digit_status("404"@);
    lemma_indexed_status_block(0x8eu8, flags, verbose, f);
    reveal_strlit("500");
    lemma_three_digit_status("500"@);
    assert forall|b: u8|
        0x88u8 <= b <= 0x8eu8 implies #[trigger] spec_parse_http2_headers(seq![b], flags, 1, verbose, f).message_type
            == MessageType::Response by {
        lemma_indexed_status_block(b, flags, verbose, f);
    }
}

} // verus!
