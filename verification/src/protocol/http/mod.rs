//! HTTP/1.x and HTTP/2 frame parsing.
pub mod bytes;
pub mod hpack;
pub mod http1;
pub mod http2;
pub mod laws;
pub mod parser;
pub mod types;

pub use bytes::{find_byte, find_crlf, trim_ascii, trim_to_size};
pub use http1::bytes_eq;
pub use hpack::{
    decode_hpack_string, decode_prefixed_int, indexed_header, parse_hpack_literals, try_indexed_hpack,
    try_literal_hpack_entry,
};
pub use http1::{
    parse_http1, parse_http1_request, parse_http1_response,
    body_to_boxed_str, empty_map_to_none, parse_http1_headers_and_body, parse_http1_version,
    parse_method, parse_status,
};
pub use http2::{
    http2_preface, HTTP2_FLAG_PADDED, HTTP2_FLAG_PRIORITY, HTTP2_FRAME_CONTINUATION, HTTP2_FRAME_DATA,
    HTTP2_FRAME_HEADERS, HTTP2_FRAME_SETTINGS,
    fixed_payload_available, http2_data_payload, http2_header_block, is_plausible_http2_frame,
    parse_http2, parse_http2_headers, validate_h2_continuation, validate_h2_goaway,
    validate_h2_headers, validate_h2_ping, validate_h2_priority, validate_h2_push_promise,
    validate_h2_rst_stream, validate_h2_settings, validate_h2_window_update,
};
pub use parser::{fnv1a32, http1_hash_id, HttpParser};
pub use types::{HttpDirection, HttpFrame, HttpMethod, HttpVersion};
