//! Link-layer protocol numbers.
pub use crate::protocols::ether::{eth_p_arp, eth_p_ip, eth_p_ipv6, parse, to_str, EthProtos};
