//! Ethernet protocol numbers (`ETH_P_*`), kept in network byte order as the kernel
//! reports them, and their names.
use vstd::prelude::*;

use crate::errors::EbpfError;
use crate::text::{str_to_lowercase, to_lowercase};

verus! {

/// `x` with its two bytes swapped.
pub open spec fn swap16(x: u16) -> u16 {
    ((x as int % 256) * 256 + x as int / 256) as u16
}

/// `v` is `host` in network byte order: `host` itself on a big-endian machine, its bytes
/// swapped on a little-endian one.
pub open spec fn network_order(v: u16, host: u16) -> bool {
    v == host || v == swap16(host)
}

/// Calls `libc::htons`, the host-to-network conversion of a 16-bit value. Claimed: the
/// result is the value or the value with its bytes swapped; which one depends on the
/// machine's byte order, and nothing here says which.
#[verifier::external_body]
fn htons(hostshort: u16) -> (r: u16)
    ensures
        network_order(r, hostshort),
{
    libc::htons(hostshort)
}

/// The `ETH_P_*` values on the running machine.
#[derive(Debug, Clone, Copy)]
pub struct EthProtos {
    pub ip: u16,
    pub ipv6: u16,
    pub arp: u16,
}

impl EthProtos {
    /// Each value is its host number in network byte order.
    pub open spec fn valid(&self) -> bool {
        network_order(self.ip, 0x0800) && network_order(self.ipv6, 0x86dd) && network_order(
            self.arp,
            0x0806,
        )
    }
}

/// `ETH_P_IP`, `ETH_P_IPV6` and `ETH_P_ARP` in network byte order.
pub fn eth_protos() -> (r: EthProtos)
    ensures
        r.valid(),
{
    EthProtos { ip: htons(0x0800), ipv6: htons(0x86dd), arp: htons(0x0806) }
}

/// `ETH_P_IP` in network byte order.
pub fn eth_p_ip() -> (r: u16)
    ensures
        network_order(r, 0x0800),
{
    htons(0x0800)
}

/// `ETH_P_IPV6` in network byte order.
pub fn eth_p_ipv6() -> (r: u16)
    ensures
        network_order(r, 0x86dd),
{
    htons(0x86dd)
}

/// `ETH_P_ARP` in network byte order.
pub fn eth_p_arp() -> (r: u16)
    ensures
        network_order(r, 0x0806),
{
    htons(0x0806)
}

/// The name of a protocol number, given the machine's `ETH_P_*` values.
pub open spec fn spec_name_with(n: u16, p: EthProtos) -> Seq<char> {
    if n == p.ip {
        "ETH_P_IP"@
    } else if n == p.ipv6 {
        "ETH_P_IPV6"@
    } else if n == p.arp {
        "ETH_P_ARP"@
    } else {
        "Unknown"@
    }
}

/// The name of a protocol number, given the machine's `ETH_P_*` values.
pub fn name_with(n_proto: u16, p: &EthProtos) -> (r: &'static str)
    ensures
        r@ == spec_name_with(n_proto, *p),
{
    if n_proto == p.ip {
        "ETH_P_IP"
    } else if n_proto == p.ipv6 {
        "ETH_P_IPV6"
    } else if n_proto == p.arp {
        "ETH_P_ARP"
    } else {
        "Unknown"
    }
}

/// The `ETH_P_*` name of a protocol number in network byte order, `Unknown` for others.
pub fn to_str(n_proto: u16) -> (r: &'static str)
    ensures
        exists|p: EthProtos| p.valid() && r@ == spec_name_with(n_proto, p),
{
    let p = eth_protos();
    name_with(n_proto, &p)
}

/// The protocol a lowercase name stands for: `ip` or `ipv4`, and `ipv6`.
pub open spec fn spec_parse_lower_with(lower: Seq<char>, p: EthProtos) -> Option<u16> {
    if lower == "ip"@ || lower == "ipv4"@ {
        Some(p.ip)
    } else if lower == "ipv6"@ {
        Some(p.ipv6)
    } else {
        None
    }
}

/// The protocol of an already lowercased name, given the machine's `ETH_P_*` values.
pub fn parse_lowercase_with(lower: &str, p: &EthProtos) -> (r: Option<u16>)
    ensures
        r == spec_parse_lower_with(lower@, *p),
{
    let l = lower.to_owned();
    if l == String::from_str("ip") || l == String::from_str("ipv4") {
        Some(p.ip)
    } else if l == String::from_str("ipv6") {
        Some(p.ipv6)
    } else {
        None
    }
}

/// The message of an unsupported protocol name.
pub open spec fn unsupported_l2_message(name: Seq<char>) -> Seq<char> {
    "UnSupport L2proto "@ + name
}

/// The protocol number (network byte order) a name stands for, compared after
/// lowercasing; other names are an error.
pub fn parse(proto_name: &str) -> (r: Result<u16, EbpfError>)
    ensures
        exists|p: EthProtos|
            p.valid() && match spec_parse_lower_with(str_to_lowercase(proto_name@), p) {
                Some(n) => r == Ok::<u16, EbpfError>(n),
                None => r matches Err(EbpfError::Other(m)) && m@ == unsupported_l2_message(
                    proto_name@,
                ),
            },
{
    let p = eth_protos();
    let lower = to_lowercase(proto_name);
    match parse_lowercase_with(lower.as_str(), &p) {
        Some(n) => Ok(n),
        None => {
            let mut m = String::from_str("UnSupport L2proto ");
            m.append(proto_name);
            Err(EbpfError::Other(m))
        },
    }
}

/// A name that `parse` accepts maps back to its canonical name: the value read for a
/// name is named `ETH_P_IP` or `ETH_P_IPV6`, whatever the machine's byte order.
pub proof fn law_parse_then_name(lower: Seq<char>, p: EthProtos)
    requires
        p.valid(),
        spec_parse_lower_with(lower, p) is Some,
    ensures
        spec_name_with(spec_parse_lower_with(lower, p)->0, p) == (if lower == "ipv6"@ {
            "ETH_P_IPV6"@
        } else {
            "ETH_P_IP"@
        }),
{
    reveal_strlit("ip");
    reveal_strlit("ipv4");
    reveal_strlit("ipv6");
    assert(swap16(0x0800) == 0x0008);
    assert(swap16(0x86dd) == 0xdd86);
    assert(swap16(0x0806) == 0x0608);
    assert("ip"@.len() != "ipv6"@.len());
    assert("ipv4"@[3] != "ipv6"@[3]);
}

/// On any machine, each `ETH_P_*` value is named by its own name, and a number that is
/// none of them is `Unknown`.
pub proof fn law_name_is_constant_name(n: u16, p: EthProtos)
    requires
        p.valid(),
    ensures
        spec_name_with(p.ip, p) == "ETH_P_IP"@,
        spec_name_with(p.ipv6, p) == "ETH_P_IPV6"@,
        spec_name_with(p.arp, p) == "ETH_P_ARP"@,
        n != p.ip && n != p.ipv6 && n != p.arp ==> spec_name_with(n, p) == "Unknown"@,
{
    assert(swap16(0x0800) == 0x0008);
    assert(swap16(0x86dd) == 0xdd86);
    assert(swap16(0x0806) == 0x0608);
}

} // verus!
