//! Network collectors: dropped packets and socket payloads.
pub mod bytes;
pub mod payload;
pub mod skbdrop;
pub mod socket_tcp;
pub mod socket_trace;
