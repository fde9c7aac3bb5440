//! Network addresses and packet headers as the kernel reports them, and their text forms.
use vstd::prelude::*;

use crate::protocols::ether::network_order;
use crate::text::{push_decimal, push_hex, spec_decimal, spec_hex};

verus! {

/// An IPv4 or IPv6 address: the 16 bytes of the kernel's address union, an IPv4 address in
/// its first four.
#[derive(Debug, Clone, Copy)]
pub struct Addr {
    pub octets: [u8; 16],
}

impl Addr {
    /// An IPv4 address `a.b.c.d`.
    pub fn from_v4(octets: [u8; 4]) -> (r: Addr)
        ensures
            r.octets@.take(4) == octets@,
            forall|i: int| 4 <= i < 16 ==> r.octets@[i] == 0,
    {
        let r = Addr {
            octets: [octets[0], octets[1], octets[2], octets[3], 0, 0, 0, 0, 0, 0, 0, 0, 0, 0, 0, 0],
        };
        assert(r.octets@.take(4) =~= octets@);
        r
    }

    /// An IPv6 address from its 16 bytes in network order.
    pub fn from_v6(octets: [u8; 16]) -> (r: Addr)
        ensures
            r.octets@ == octets@,
    {
        Addr { octets }
    }
}

/// True when two addresses hold the same bytes.
pub fn addr_eq(a: &Addr, b: &Addr) -> (r: bool)
    ensures
        r == (a.octets@ == b.octets@),
{
    crate::protocol::http::bytes_eq(a.octets.as_slice(), b.octets.as_slice())
}

/// The IPv4 view of an address.
#[derive(Debug, Clone, Copy)]
pub struct AddrV4 {
    pub octets: [u8; 4],
}

/// The IPv6 view of an address.
#[derive(Debug, Clone, Copy)]
pub struct AddrV6 {
    pub octets: [u8; 16],
}

/// Dotted-decimal text `a.b.c.d` of the first four bytes.
pub open spec fn spec_v4_text(o: Seq<u8>) -> Seq<char> {
    spec_decimal(o[0] as nat) + "."@ + spec_decimal(o[1] as nat) + "."@ + spec_decimal(o[2] as nat) + "."@
        + spec_decimal(o[3] as nat)
}

/// The `i`-th 16-bit group of an IPv6 address.
pub open spec fn v6_group(o: Seq<u8>, i: int) -> nat {
    (o[2 * i] as nat) * 256 + o[2 * i + 1] as nat
}

/// The first `k` groups in lowercase hex, separated by `:`.
pub open spec fn v6_groups(o: Seq<u8>, k: int) -> Seq<char>
    decreases k,
{
    if k <= 0 {
        Seq::empty()
    } else if k == 1 {
        spec_hex(v6_group(o, 0))
    } else {
        v6_groups(o, k - 1) + ":"@ + spec_hex(v6_group(o, k - 1))
    }
}

/// The eight groups of an IPv6 address in lowercase hex, separated by `:`.
pub open spec fn spec_v6_text(o: Seq<u8>) -> Seq<char> {
    v6_groups(o, 8)
}

impl AddrV4 {
    /// The first four bytes of an address.
    pub fn from_addr(a: Addr) -> (r: AddrV4)
        ensures
            r.octets@ == a.octets@.take(4),
    {
        let r = AddrV4 { octets: [a.octets[0], a.octets[1], a.octets[2], a.octets[3]] };
        assert(r.octets@ =~= a.octets@.take(4));
        r
    }

    /// Appends `a.b.c.d`.
    pub fn push_text(&self, out: &mut String)
        ensures
            final(out)@ == old(out)@ + spec_v4_text(self.octets@),
    {
        push_decimal(out, self.octets[0] as u64);
        out.append(".");
        push_decimal(out, self.octets[1] as u64);
        out.append(".");
        push_decimal(out, self.octets[2] as u64);
        out.append(".");
        push_decimal(out, self.octets[3] as u64);
        assert(out@ =~= old(out)@ + spec_v4_text(self.octets@));
    }
}

impl AddrV6 {
    /// All sixteen bytes of an address.
    pub fn from_addr(a: Addr) -> (r: AddrV6)
        ensures
            r.octets@ == a.octets@,
    {
        AddrV6 { octets: a.octets }
    }

    /// Appends the eight groups in hex, separated by `:`.
    pub fn push_text(&self, out: &mut String)
        ensures
            final(out)@ == old(out)@ + spec_v6_text(self.octets@),
    {
        let ghost start = out@;
        let mut i: usize = 0;
        while i < 8
            invariant
                i <= 8,
                self.octets@.len() == 16,
                out@ == start + v6_groups(self.octets@, i as int),
            decreases 8 - i,
        {
            if i > 0 {
                out.append(":");
            }
            let g: u64 = (self.octets[2 * i] as u64) * 256 + self.octets[2 * i + 1] as u64;
            push_hex(out, g);
            assert(out@ =~= start + v6_groups(self.octets@, i + 1));
            i = i + 1;
        }
    }
}

/// Link-layer information of a packet.
#[derive(Debug, Clone, Copy)]
pub struct L2Info {
    pub eth_proto: u16,
}

/// Network-layer information of a packet.
#[derive(Debug, Clone, Copy)]
pub struct L3Info {
    pub saddr: Addr,
    pub daddr: Addr,
    pub tot_len: u16,
    pub ip_version: u16,
    pub l4_proto: u16,
}

/// Transport-layer information of a packet; ports are in network byte order.
#[derive(Debug, Clone, Copy)]
pub struct L4Info {
    pub sport: u16,
    pub dport: u16,
    pub tcpflags: u16,
}

/// Calls `u16::from_be`. Claimed: the result is the value or the value with its bytes
/// swapped; which one depends on the machine's byte order, and nothing here says which.
#[verifier::external_body]
pub(crate) fn u16_from_be(x: u16) -> (r: u16)
    ensures
        network_order(r, x),
{
    u16::from_be(x)
}

} // verus!
