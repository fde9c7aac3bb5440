//! Application-protocol parsing: the frame and parser interfaces, and their
//! HTTP implementation.
use vstd::prelude::*;

pub mod header_map;
pub mod http;

verus! {

/// Whether a parsed frame is a request, a response, or neither.
#[derive(Debug, Clone, Copy, PartialEq, Eq, Hash, Structural)]
pub enum MessageType {
    Request,
    Response,
    Unknown,
}

/// A frame recognised by a [`ProtoParser`].
pub trait ParsedFrame: Sized {
    /// Handing out the payload `p` may leave the frame as `after`. A frame that says
    /// nothing of itself may hand out anything.
    open spec fn gives_payload(&self, p: Option<String>, after: Self) -> bool {
        true
    }

    /// Handing out the target `t` may leave the frame as `after`. A frame that says
    /// nothing of itself may hand out anything.
    open spec fn gives_target(&self, t: Option<String>, after: Self) -> bool {
        true
    }

    fn message_type(&self) -> MessageType;

    /// Hands out the frame's payload; the frame keeps none afterwards.
    fn payload(&mut self) -> (r: Option<String>)
        ensures
            old(self).gives_payload(r, *final(self)),
    ;

    /// The frame's request target (such as `GET /path`), if it has one.
    fn target(&mut self) -> (r: Option<String>)
        ensures
            old(self).gives_target(r, *final(self)),
    ;
}

/// A parser of one application protocol.
pub trait ProtoParser {
    type Output: ParsedFrame;

    /// `out` is what parsing the first `size` bytes of `data` may give. A parser that says
    /// nothing of itself may give anything.
    open spec fn parses(&self, data: Seq<u8>, size: usize, verbose: bool, out: Option<Self::Output>) -> bool {
        true
    }

    /// Parses the first `size` bytes of `data` (all of it when shorter).
    fn parse(&self, data: &[u8], size: usize, verbose: bool) -> (r: Option<Self::Output>)
        ensures
            self.parses(data@, size, verbose, r),
    ;

    /// A number that tells apart the exchanges carried in a stream.
    fn hash_id(&self, data: &[u8], size: usize) -> u32;
}

} // verus!
