//! IP protocol numbers under their `IPPROTO_*` names.
use vstd::prelude::*;

pub use crate::protocols::inet::{parse, to_str};

verus! {

pub const IPPROTO_IP: u16 = 0;
pub const IPPROTO_ICMP: u16 = 1;
pub const IPPROTO_IGMP: u16 = 2;
pub const IPPROTO_IPIP: u16 = 4;
pub const IPPROTO_TCP: u16 = 6;
pub const IPPROTO_EGP: u16 = 8;
pub const IPPROTO_PUP: u16 = 12;
pub const IPPROTO_UDP: u16 = 17;
pub const IPPROTO_IDP: u16 = 22;
pub const IPPROTO_TP: u16 = 29;
pub const IPPROTO_DCCP: u16 = 33;
pub const IPPROTO_IPV6: u16 = 41;
pub const IPPROTO_RSVP: u16 = 46;
pub const IPPROTO_GRE: u16 = 47;
pub const IPPROTO_ESP: u16 = 50;
pub const IPPROTO_AH: u16 = 51;
pub const IPPROTO_MTP: u16 = 92;
pub const IPPROTO_BEETPH: u16 = 94;
pub const IPPROTO_ENCAP: u16 = 98;
pub const IPPROTO_PIM: u16 = 103;
pub const IPPROTO_COMP: u16 = 108;
pub const IPPROTO_SCTP: u16 = 132;
pub const IPPROTO_UDPLITE: u16 = 136;
pub const IPPROTO_MPLS: u16 = 137;
pub const IPPROTO_ETHERNET: u16 = 143;
pub const IPPROTO_RAW: u16 = 255;
pub const IPPROTO_MPTCP: u16 = 262;
pub const IPPROTO_MAX: u16 = 263;

} // verus!
