use opentrace_bpf::protocol::header_map::HeaderMap;
use opentrace_bpf::protocol::http::{
    body_to_boxed_str, decode_prefixed_int, empty_map_to_none, find_byte, find_crlf, fnv1a32,
    http1_hash_id, http2_data_payload, http2_header_block, http2_preface, indexed_header,
    parse_method, parse_status, trim_ascii, trim_to_size, validate_h2_goaway, validate_h2_ping,
    validate_h2_priority, validate_h2_rst_stream, validate_h2_settings, validate_h2_window_update,
    HttpFrame, HttpMethod, HttpParser, HttpVersion, HTTP2_FLAG_PADDED, HTTP2_FLAG_PRIORITY,
    HTTP2_FRAME_HEADERS, HTTP2_FRAME_SETTINGS,
};
use opentrace_bpf::protocol::{MessageType, ParsedFrame, ProtoParser};

#[test]
fn parse_method_handles_all_variants() {
    let cases: [(&[u8], Option<HttpMethod>); 12] = [
        (b"GET", Some(HttpMethod::Get)),
        (b"POST", Some(HttpMethod::Post)),
        (b"PUT", Some(HttpMethod::Put)),
        (b"DELETE", Some(HttpMethod::Delete)),
        (b"PATCH", Some(HttpMethod::Patch)),
        (b"HEAD", Some(HttpMethod::Head)),
        (b"OPTIONS", Some(HttpMethod::Options)),
        (b"CONNECT", Some(HttpMethod::Connect)),
        (b"TRACE", Some(HttpMethod::Trace)),
        (b"INVALID", None),
        (b"get", None),
        (b"", None),
    ];
    for (input, expected) in cases {
        assert_eq!(parse_method(input), expected);
    }
}

#[test]
fn parse_status_validates_and_converts() {
    let cases: [(&[u8], Option<u16>); 9] = [
        (b"200", Some(200)),
        (b"404", Some(404)),
        (b"500", Some(500)),
        (b"000", Some(0)),
        (b"999", Some(999)),
        (b"20", None),
        (b"2000", None),
        (b"abc", None),
        (b"20a", None),
    ];
    for (input, expected) in cases {
        assert_eq!(parse_status(input), expected);
    }
}

#[test]
fn find_crlf_at_start() {
    assert_eq!(find_crlf(b"\r\nrest"), Some(0));
}

#[test]
fn find_crlf_in_middle() {
    assert_eq!(find_crlf(b"line1\r\nline2"), Some(5));
}

#[test]
fn find_crlf_at_end() {
    assert_eq!(find_crlf(b"line\r\n"), Some(4));
}

#[test]
fn find_crlf_not_found() {
    assert_eq!(find_crlf(b"no crlf here"), None);
}

#[test]
fn find_crlf_empty() {
    assert_eq!(find_crlf(b""), None);
}

#[test]
fn find_crlf_single_char() {
    assert_eq!(find_crlf(b"\r"), None);
}

#[test]
fn find_byte_at_start() {
    assert_eq!(find_byte(b"abc", b'a'), Some(0));
}

#[test]
fn find_byte_in_middle() {
    assert_eq!(find_byte(b"abc", b'b'), Some(1));
}

#[test]
fn find_byte_at_end() {
    assert_eq!(find_byte(b"abc", b'c'), Some(2));
}

#[test]
fn find_byte_not_found() {
    assert_eq!(find_byte(b"abc", b'd'), None);
}

#[test]
fn find_byte_empty() {
    assert_eq!(find_byte(b"", b'a'), None);
}

#[test]
fn trim_ascii_leading_whitespace() {
    assert_eq!(trim_ascii(b"  hello"), b"hello");
}

#[test]
fn trim_ascii_trailing_whitespace() {
    assert_eq!(trim_ascii(b"hello  "), b"hello");
}

#[test]
fn trim_ascii_both_sides() {
    assert_eq!(trim_ascii(b"  hello  "), b"hello");
}

#[test]
fn trim_ascii_no_whitespace() {
    assert_eq!(trim_ascii(b"hello"), b"hello");
}

#[test]
fn trim_ascii_only_whitespace() {
    assert_eq!(trim_ascii(b"   "), b"");
}

#[test]
fn trim_ascii_empty() {
    assert_eq!(trim_ascii(b""), b"");
}

#[test]
fn trim_ascii_tabs_and_newlines() {
    assert_eq!(trim_ascii(b"\t\nhello\r\n"), b"hello");
}

#[test]
fn fnv1a32_empty() {
    assert_eq!(fnv1a32(b""), 0x811c_9dc5);
}

#[test]
fn fnv1a32_known_values() {
    assert_eq!(fnv1a32(b"a"), 0xe40c292c);
    assert_eq!(fnv1a32(b"foobar"), 0xbf9cf968);
}

#[test]
fn fnv1a32_deterministic() {
    assert_eq!(fnv1a32(b"test"), fnv1a32(b"test"));
}

#[test]
fn fnv1a32_different_inputs_differ() {
    assert_ne!(fnv1a32(b"a"), fnv1a32(b"b"));
}

#[test]
fn body_to_boxed_str_valid_utf8() {
    assert_eq!(body_to_boxed_str(b"hello").as_deref(), Some("hello"));
}

#[test]
fn body_to_boxed_str_empty() {
    assert_eq!(body_to_boxed_str(b""), None);
}

#[test]
fn body_to_boxed_str_invalid_utf8() {
    assert_eq!(body_to_boxed_str(&[0xff, 0xfe]), None);
}

#[test]
fn decode_prefixed_int_basic() {
    let cases: [(&[u8], u8, Option<(usize, &[u8])>); 5] = [
        (&[0x00], 0x0f, Some((0, [].as_slice()))),
        (&[0x05], 0x0f, Some((5, [].as_slice()))),
        (&[0x0f, 0x00], 0x0f, Some((15, [].as_slice()))),
        (&[0x0f, 0x09], 0x0f, Some((24, [].as_slice()))),
        (&[0x0f, 0x80, 0x01], 0x0f, Some((143, [].as_slice()))),
    ];
    for (data, mask, expected) in cases {
        assert_eq!(decode_prefixed_int(data, mask), expected);
    }
}

#[test]
fn decode_prefixed_int_empty() {
    assert_eq!(decode_prefixed_int(&[], 0x0f), None);
}

#[test]
fn indexed_header_lookups() {
    let cases: [(usize, Option<(&str, &str)>); 8] = [
        (0, Some(("", ""))),
        (2, Some((":method", "GET"))),
        (3, Some((":method", "POST"))),
        (4, Some((":path", "/"))),
        (8, Some((":status", "200"))),
        (14, Some((":status", "500"))),
        (15, None),
        (100, None),
    ];
    for (index, expected) in cases {
        assert_eq!(indexed_header(index), expected);
    }
}

#[test]
fn http1_hash_id_with_method_and_url() {
    let hash = http1_hash_id(Some(HttpMethod::Get), Some("/hello"), None);
    assert_ne!(hash, 0);
}

#[test]
fn http1_hash_id_deterministic() {
    let h1 = http1_hash_id(Some(HttpMethod::Get), Some("/hello"), None);
    let h2 = http1_hash_id(Some(HttpMethod::Get), Some("/hello"), None);
    assert_eq!(h1, h2);
}

#[test]
fn http1_hash_id_different_urls_differ() {
    let h1 = http1_hash_id(Some(HttpMethod::Get), Some("/a"), None);
    let h2 = http1_hash_id(Some(HttpMethod::Get), Some("/b"), None);
    assert_ne!(h1, h2);
}

#[test]
fn http1_hash_id_fallback_to_status() {
    let hash = http1_hash_id(None, None, Some(200));
    assert_eq!(hash, 200);
}

#[test]
fn http1_hash_id_returns_zero_when_no_info() {
    assert_eq!(http1_hash_id(None, None, None), 0);
}

#[test]
fn validate_h2_settings_valid() {
    assert!(validate_h2_settings(0, 0, 6, 6));
    assert!(validate_h2_settings(0, 0, 12, 12));
}

#[test]
fn validate_h2_settings_non_zero_stream() {
    assert!(!validate_h2_settings(0, 1, 6, 6));
}

#[test]
fn validate_h2_settings_not_multiple_of_6() {
    assert!(!validate_h2_settings(0, 0, 5, 5));
}

#[test]
fn validate_h2_settings_ack_flag_requires_empty() {
    assert!(validate_h2_settings(0x1, 0, 0, 0));
    assert!(!validate_h2_settings(0x1, 0, 6, 6));
}

#[test]
fn validate_h2_ping_valid() {
    assert!(validate_h2_ping(0, 8, 8));
}

#[test]
fn validate_h2_ping_non_zero_stream() {
    assert!(!validate_h2_ping(1, 8, 8));
}

#[test]
fn validate_h2_ping_wrong_length() {
    assert!(!validate_h2_ping(0, 4, 4));
}

#[test]
fn validate_h2_rst_stream_valid() {
    assert!(validate_h2_rst_stream(1, 4, 4));
}

#[test]
fn validate_h2_rst_stream_zero_stream() {
    assert!(!validate_h2_rst_stream(0, 4, 4));
}

#[test]
fn validate_h2_rst_stream_wrong_length() {
    assert!(!validate_h2_rst_stream(1, 8, 8));
}

#[test]
fn validate_h2_priority_valid() {
    assert!(validate_h2_priority(1, 5, 5));
}

#[test]
fn validate_h2_priority_wrong_length() {
    assert!(!validate_h2_priority(1, 4, 4));
}

#[test]
fn validate_h2_window_update_valid() {
    assert!(validate_h2_window_update(4, 4));
}

#[test]
fn validate_h2_window_update_wrong_length() {
    assert!(!validate_h2_window_update(8, 8));
}

#[test]
fn validate_h2_goaway_valid() {
    assert!(validate_h2_goaway(0, 8, 8));
    assert!(validate_h2_goaway(0, 16, 16));
}

#[test]
fn validate_h2_goaway_non_zero_stream() {
    assert!(!validate_h2_goaway(1, 8, 8));
}

#[test]
fn validate_h2_goaway_too_short() {
    assert!(!validate_h2_goaway(0, 4, 4));
}

#[test]
fn http2_header_block_no_padding() {
    let payload = &[0x82, 0x84];
    assert_eq!(
        http2_header_block(payload, 0, HTTP2_FRAME_HEADERS),
        Some(payload.as_slice())
    );
}

#[test]
fn http2_header_block_with_padding() {
    let payload = &[0x02, 0x82, 0x84, 0x00, 0x00];
    let result = http2_header_block(payload, HTTP2_FLAG_PADDED, HTTP2_FRAME_HEADERS);
    assert_eq!(result, Some(&[0x82, 0x84][..]));
}

#[test]
fn http2_header_block_with_priority() {
    let payload = &[0x00, 0x00, 0x00, 0x00, 0x00, 0x82, 0x84];
    let result = http2_header_block(payload, HTTP2_FLAG_PRIORITY, HTTP2_FRAME_HEADERS);
    assert_eq!(result, Some(&[0x82, 0x84][..]));
}

#[test]
fn http2_data_payload_no_padding() {
    let payload = b"hello";
    assert_eq!(http2_data_payload(payload, 0).as_deref(), Some("hello"));
}

#[test]
fn http2_data_payload_with_padding() {
    let payload = &[0x02, b'h', b'i', 0x00, 0x00];
    assert_eq!(
        http2_data_payload(payload, HTTP2_FLAG_PADDED).as_deref(),
        Some("hi")
    );
}

#[test]
fn http2_data_payload_empty() {
    assert_eq!(http2_data_payload(b"", 0), None);
}

#[test]
fn empty_map_to_none_empty() {
    let map = HeaderMap::new();
    assert!(empty_map_to_none(map).is_none());
}

#[test]
fn empty_map_to_none_non_empty() {
    let mut map = HeaderMap::new();
    map.insert("key".into(), "value".into());
    assert!(empty_map_to_none(map).is_some());
}

#[test]
fn trim_to_size_smaller_than_data() {
    assert_eq!(trim_to_size(b"hello", 3), b"hel");
}

#[test]
fn trim_to_size_larger_than_data() {
    assert_eq!(trim_to_size(b"hello", 10), b"hello");
}

#[test]
fn trim_to_size_equal() {
    assert_eq!(trim_to_size(b"hello", 5), b"hello");
}

#[test]
fn parses_http1_request_minimal_fields() {
    let parser = HttpParser::default();
    let frame = parser
        .parse(
            b"GET /hello HTTP/1.1\r\nHost: example\r\n\r\nbody",
            64,
            false,
        )
        .unwrap();

    assert_eq!(frame.message_type, MessageType::Request);
    assert_eq!(frame.version, HttpVersion::Http11);
    assert_eq!(frame.method, Some(HttpMethod::Get));
    assert_eq!(frame.url.as_deref(), Some("/hello"));
    assert!(frame.headers.is_none());
    assert!(frame.body.is_none());
}

#[test]
fn parses_http1_request_headers_and_body_when_verbose() {
    let parser = HttpParser::default();
    let frame = parser
        .parse(
            b"POST /submit HTTP/1.1\r\nHost: example\r\n\r\npayload",
            128,
            true,
        )
        .unwrap();

    assert_eq!(frame.method, Some(HttpMethod::Post));
    assert_eq!(
        frame.headers.as_ref().unwrap().get("Host").map(|v| v.as_str()),
        Some("example")
    );
    assert_eq!(frame.body.as_deref(), Some("payload"));
}

#[test]
fn parses_http1_response_status() {
    let parser = HttpParser::default();
    let frame = parser.parse(b"HTTP/1.1 200 OK\r\n\r\n", 32, false).unwrap();

    assert_eq!(frame.message_type, MessageType::Response);
    assert_eq!(frame.status, Some(200));
}

#[test]
fn target_consumes_method_and_url() {
    let mut frame = HttpFrame {
        message_type: MessageType::Request,
        version: HttpVersion::Http11,
        stream_id: 0,
        method: Some(HttpMethod::Get),
        url: Some("/x".into()),
        status: None,
        headers: None,
        body: Some("body".into()),
    };

    assert_eq!(frame.target().as_deref(), Some("GET /x"));
    assert_eq!(frame.payload().as_deref(), Some("body"));
    assert!(frame.payload().is_none());
}

#[test]
fn parses_http2_preface_settings_frame() {
    let mut data = Vec::from(http2_preface());
    data.extend_from_slice(&[0, 0, 0, HTTP2_FRAME_SETTINGS, 0, 0, 0, 0, 0]);

    let parser = HttpParser::default();
    let frame = parser.parse(&data, data.len(), false).unwrap();

    assert_eq!(frame.version, HttpVersion::Http2);
    assert_eq!(frame.stream_id, 0);
    assert_eq!(frame.message_type, MessageType::Unknown);
}

#[test]
fn parses_simple_http2_indexed_headers() {
    let data = [0, 0, 2, HTTP2_FRAME_HEADERS, 0, 0, 0, 0, 1, 0x82, 0x84];

    let parser = HttpParser::default();
    let frame = parser.parse(&data, data.len(), false).unwrap();

    assert_eq!(frame.message_type, MessageType::Request);
    assert_eq!(frame.method, Some(HttpMethod::Get));
    assert_eq!(frame.url.as_deref(), Some("/"));
}

#[test]
fn hash_id_is_stable_for_same_http1_target() {
    let parser = HttpParser::default();
    let left = parser.hash_id(b"GET /hello HTTP/1.1\r\n\r\n", 24);
    let right = parser.hash_id(b"GET /hello HTTP/1.1\r\nHost: x\r\n\r\n", 128);

    assert_ne!(left, 0);
    assert_eq!(left, right);
}

#[test]
fn rejects_invalid_http_payload() {
    let parser = HttpParser::default();
    assert!(parser.parse(b"not http", 8, false).is_none());
    assert_eq!(parser.hash_id(b"not http", 8), 0);
}

struct Frame(Option<String>);

impl ParsedFrame for Frame {
    fn message_type(&self) -> MessageType {
        MessageType::Request
    }

    fn payload(&mut self) -> Option<String> {
        self.0.take()
    }

    fn target(&mut self) -> Option<String> {
        Some("target".into())
    }
}

struct Parser;

impl ProtoParser for Parser {
    type Output = Frame;

    fn parse(&self, data: &[u8], size: usize, _verbose: bool) -> Option<Self::Output> {
        Some(Frame(Some(String::from_utf8_lossy(&data[..size]).into())))
    }

    fn hash_id(&self, _data: &[u8], size: usize) -> u32 {
        size as u32
    }
}

#[test]
fn parser_and_frame_traits_are_usable() {
    let parser = Parser;
    let mut frame = parser.parse(b"abc", 3, false).unwrap();

    assert_eq!(frame.message_type(), MessageType::Request);
    assert_eq!(frame.payload().as_deref(), Some("abc"));
    assert_eq!(frame.target().as_deref(), Some("target"));
    assert_eq!(parser.hash_id(b"abc", 3), 3);
}
