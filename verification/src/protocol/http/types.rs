//! HTTP frame types.
use vstd::prelude::*;

use crate::protocol::header_map::HeaderMap;
use crate::protocol::{MessageType, ParsedFrame};

verus! {

/// The protocol version a frame was written in.
#[derive(Debug, Clone, Copy, PartialEq, Eq, Structural)]
pub enum HttpVersion {
    Http10,
    Http11,
    Http2,
}

/// A request method.
#[derive(Debug, Clone, Copy, PartialEq, Eq, Hash, Structural)]
pub enum HttpMethod {
    Get,
    Post,
    Put,
    Delete,
    Patch,
    Head,
    Options,
    Connect,
    Trace,
}

/// Which side of an exchange wrote a frame.
#[derive(Debug, Clone, Copy, PartialEq, Eq, Hash, Structural)]
pub enum HttpDirection {
    ClientRequest,
    ServerResponse,
    Unknown,
}

/// The method's token as it is written on the wire.
pub open spec fn method_bytes(m: HttpMethod) -> Seq<u8> {
    match m {
        HttpMethod::Get => seq![71u8, 69, 84],
        HttpMethod::Post => seq![80u8, 79, 83, 84],
        HttpMethod::Put => seq![80u8, 85, 84],
        HttpMethod::Delete => seq![68u8, 69, 76, 69, 84, 69],
        HttpMethod::Patch => seq![80u8, 65, 84, 67, 72],
        HttpMethod::Head => seq![72u8, 69, 65, 68],
        HttpMethod::Options => seq![79u8, 80, 84, 73, 79, 78, 83],
        HttpMethod::Connect => seq![67u8, 79, 78, 78, 69, 67, 84],
        HttpMethod::Trace => seq![84u8, 82, 65, 67, 69],
    }
}

/// The method's token as text.
pub open spec fn method_name(m: HttpMethod) -> Seq<char> {
    match m {
        HttpMethod::Get => seq!['G', 'E', 'T'],
        HttpMethod::Post => seq!['P', 'O', 'S', 'T'],
        HttpMethod::Put => seq!['P', 'U', 'T'],
        HttpMethod::Delete => seq!['D', 'E', 'L', 'E', 'T', 'E'],
        HttpMethod::Patch => seq!['P', 'A', 'T', 'C', 'H'],
        HttpMethod::Head => seq!['H', 'E', 'A', 'D'],
        HttpMethod::Options => seq!['O', 'P', 'T', 'I', 'O', 'N', 'S'],
        HttpMethod::Connect => seq!['C', 'O', 'N', 'N', 'E', 'C', 'T'],
        HttpMethod::Trace => seq!['T', 'R', 'A', 'C', 'E'],
    }
}

/// The method written by `s`, matched exactly and case-sensitively.
pub open spec fn spec_parse_method(s: Seq<u8>) -> Option<HttpMethod> {
    if s == method_bytes(HttpMethod::Get) {
        Some(HttpMethod::Get)
    } else if s == method_bytes(HttpMethod::Put) {
        Some(HttpMethod::Put)
    } else if s == method_bytes(HttpMethod::Post) {
        Some(HttpMethod::Post)
    } else if s == method_bytes(HttpMethod::Head) {
        Some(HttpMethod::Head)
    } else if s == method_bytes(HttpMethod::Patch) {
        Some(HttpMethod::Patch)
    } else if s == method_bytes(HttpMethod::Trace) {
        Some(HttpMethod::Trace)
    } else if s == method_bytes(HttpMethod::Delete) {
        Some(HttpMethod::Delete)
    } else if s == method_bytes(HttpMethod::Options) {
        Some(HttpMethod::Options)
    } else if s == method_bytes(HttpMethod::Connect) {
        Some(HttpMethod::Connect)
    } else {
        None
    }
}

impl HttpMethod {
    /// The method's token as bytes.
    pub fn as_bytes(self) -> (r: &'static [u8])
        ensures
            r@ == method_bytes(self),
    {
        match self {
            HttpMethod::Get => {
                let a: &'static [u8; 3] = &[71u8, 69, 84];
                a.as_slice()
            },
            HttpMethod::Post => {
                let a: &'static [u8; 4] = &[80u8, 79, 83, 84];
                a.as_slice()
            },
            HttpMethod::Put => {
                let a: &'static [u8; 3] = &[80u8, 85, 84];
                a.as_slice()
            },
            HttpMethod::Delete => {
                let a: &'static [u8; 6] = &[68u8, 69, 76, 69, 84, 69];
                a.as_slice()
            },
            HttpMethod::Patch => {
                let a: &'static [u8; 5] = &[80u8, 65, 84, 67, 72];
                a.as_slice()
            },
            HttpMethod::Head => {
                let a: &'static [u8; 4] = &[72u8, 69, 65, 68];
                a.as_slice()
            },
            HttpMethod::Options => {
                let a: &'static [u8; 7] = &[79u8, 80, 84, 73, 79, 78, 83];
                a.as_slice()
            },
            HttpMethod::Connect => {
                let a: &'static [u8; 7] = &[67u8, 79, 78, 78, 69, 67, 84];
                a.as_slice()
            },
            HttpMethod::Trace => {
                let a: &'static [u8; 5] = &[84u8, 82, 65, 67, 69];
                a.as_slice()
            },
        }
    }

    /// The method's token as text.
    pub fn as_str(self) -> (r: &'static str)
        ensures
            r@ == method_name(self),
    {
        proof {
            reveal_strlit("GET");
            reveal_strlit("POST");
            reveal_strlit("PUT");
            reveal_strlit("DELETE");
            reveal_strlit("PATCH");
            reveal_strlit("HEAD");
            reveal_strlit("OPTIONS");
            reveal_strlit("CONNECT");
            reveal_strlit("TRACE");
        }
        match self {
            HttpMethod::Get => "GET",
            HttpMethod::Post => "POST",
            HttpMethod::Put => "PUT",
            HttpMethod::Delete => "DELETE",
            HttpMethod::Patch => "PATCH",
            HttpMethod::Head => "HEAD",
            HttpMethod::Options => "OPTIONS",
            HttpMethod::Connect => "CONNECT",
            HttpMethod::Trace => "TRACE",
        }
    }
}

/// An optional string, by its characters.
pub open spec fn opt_str(o: Option<String>) -> Option<Seq<char>> {
    match o {
        Some(s) => Some(s@),
        None => None,
    }
}

/// What a frame holds, as mathematical values.
pub struct FrameModel {
    pub message_type: MessageType,
    pub version: HttpVersion,
    pub stream_id: u32,
    pub method: Option<HttpMethod>,
    pub url: Option<Seq<char>>,
    pub status: Option<u16>,
    pub headers: Option<Map<Seq<char>, Seq<char>>>,
    pub body: Option<Seq<char>>,
}

/// The target text of a frame with the given method and URL.
pub open spec fn spec_target(method: Option<HttpMethod>, url: Option<Seq<char>>) -> Option<Seq<char>> {
    match method {
        Some(m) => match url {
            Some(u) => Some(method_name(m) + seq![' '] + u),
            None => Some(method_name(m)),
        },
        None => None,
    }
}

/// One parsed HTTP/1.x message or HTTP/2 frame.
#[derive(Debug)]
pub struct HttpFrame {
    pub message_type: MessageType,
    pub version: HttpVersion,
    pub stream_id: u32,
    pub method: Option<HttpMethod>,
    pub url: Option<String>,
    pub status: Option<u16>,
    pub headers: Option<HeaderMap>,
    pub body: Option<String>,
}

impl HttpFrame {
    /// The header table, when there is one, keeps each name once.
    pub open spec fn wf(&self) -> bool {
        self.headers matches Some(h) ==> h.wf()
    }

    pub open spec fn model(&self) -> FrameModel {
        FrameModel {
            message_type: self.message_type,
            version: self.version,
            stream_id: self.stream_id,
            method: self.method,
            url: opt_str(self.url),
            status: self.status,
            headers: match self.headers {
                Some(h) => Some(h.view()),
                None => None,
            },
            body: opt_str(self.body),
        }
    }
}

impl ParsedFrame for HttpFrame {
    /// The payload is the body, which the frame no longer holds; nothing else changes.
    open spec fn gives_payload(&self, p: Option<String>, after: Self) -> bool {
        &&& opt_str(p) == opt_str(self.body)
        &&& after.body is None
        &&& after.message_type == self.message_type
        &&& after.version == self.version
        &&& after.stream_id == self.stream_id
        &&& after.method == self.method
        &&& after.url == self.url
        &&& after.status == self.status
        &&& after.headers == self.headers
    }

    /// The target is the method and the URL joined by a space (the method alone without
    /// a URL, none without a method); the frame is unchanged.
    open spec fn gives_target(&self, t: Option<String>, after: Self) -> bool {
        opt_str(t) == spec_target(self.method, opt_str(self.url)) && after == *self
    }

    fn message_type(&self) -> (r: MessageType)
        ensures
            r == self.message_type,
    {
        self.message_type
    }

    fn payload(&mut self) -> (r: Option<String>)
        ensures
            opt_str(r) == opt_str(old(self).body),
            final(self).body is None,
            final(self).message_type == old(self).message_type,
            final(self).version == old(self).version,
            final(self).stream_id == old(self).stream_id,
            final(self).method == old(self).method,
            final(self).url == old(self).url,
            final(self).status == old(self).status,
            final(self).headers == old(self).headers,
    {
        self.body.take()
    }

    fn target(&mut self) -> (r: Option<String>)
        ensures
            opt_str(r) == spec_target(old(self).method, opt_str(old(self).url)),
            *final(self) == *old(self),
    {
        let r = match self.method {
            Some(method) => match &self.url {
                Some(url) => {
                    let mut t = String::from_str(method.as_str());
                    proof { reveal_strlit(" "); }
                    t.append(" ");
                    t.append(url.as_str());
                    Some(t)
                },
                None => Some(String::from_str(method.as_str())),
            },
            None => None,
        };
        assert(opt_str(r) == spec_target(old(self).method, opt_str(old(self).url)));
        assert(*self == *old(self));
        assert(old(self).gives_target(r, *self));
        r
    }
}

} // verus!
