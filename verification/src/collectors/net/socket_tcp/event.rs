//! Socket payload events: as the kernel reports them, and as a matched exchange.
use vstd::prelude::*;

use crate::types::net::Addr;

verus! {

/// A request matched with its response.
#[derive(Debug, Clone)]
pub struct Event {
    pub remote_addr: Addr,
    pub remote_port: u16,
    pub family: u16,
    pub req_body: Option<String>,
    pub resp_body: Option<String>,
    pub timestamp: u64,
    pub duration: u64,
    pub request_size: u32,
    pub response_size: u32,
    pub target: Option<String>,
}

/// One read or write on a socket, laid out as the kernel program writes it.
#[derive(Debug, Clone, Copy)]
pub struct InnerEvent {
    pub buffer: [u8; 1024],
    pub remote_addr: Addr,
    pub local_addr: Addr,
    pub timestamp: u64,
    pub size: u32,
    pub pid: u32,
    pub fd: u32,
    pub conn_kind: u32,
    pub flow_direct: u32,
    pub remote_port: u16,
    pub local_port: u16,
    pub family: u16,
    pub _pad: u16,
}

/// The event a request starts: the peer, the time and the size of the request, with no
/// payloads, target or response yet.
pub open spec fn spec_event_of(value: InnerEvent) -> Event {
    Event {
        remote_addr: value.remote_addr,
        remote_port: value.remote_port,
        family: value.family,
        req_body: None,
        resp_body: None,
        timestamp: value.timestamp,
        duration: 0,
        request_size: value.size,
        response_size: 0,
        target: None,
    }
}

impl From<InnerEvent> for Event {
    fn from(value: InnerEvent) -> (r: Self) {
        Event {
            remote_addr: value.remote_addr,
            remote_port: value.remote_port,
            family: value.family,
            req_body: None,
            resp_body: None,
            timestamp: value.timestamp,
            duration: 0,
            request_size: value.size,
            response_size: 0,
            target: None,
        }
    }
}

impl vstd::std_specs::convert::FromSpecImpl<InnerEvent> for Event {
    open spec fn obeys_from_spec() -> bool {
        true
    }

    open spec fn from_spec(v: InnerEvent) -> Event {
        spec_event_of(v)
    }
}

} // verus!
