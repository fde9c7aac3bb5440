//! The socket tracer under its earlier name.
use vstd::prelude::*;

pub use crate::collectors::net::socket_tcp::{Config, DefaultFormatter, Event, InnerConfig, InnerEvent};

verus! {

/// The request/response matcher under its earlier name.
pub type EventCacheStorage<T> = crate::collectors::net::socket_tcp::matcher::EventMatcher<T>;

} // verus!
