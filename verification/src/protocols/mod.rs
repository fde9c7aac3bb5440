//! A compact protocol recogniser with a parser that always yields a frame, and the
//! network-layer protocol numbers.
use vstd::prelude::*;

pub mod ether;
pub mod family;
pub mod http;
pub mod inet;

pub use crate::protocol::{MessageType, ParsedFrame};

verus! {

/// A parser that turns raw bytes into a frame, falling back to a default frame.
pub trait ProtoParser {
    type Output;

    fn parse(&self, raw_data: &[u8], size: usize) -> Self::Output;
}

} // verus!
