//! IP protocol numbers (`IPPROTO_*`) and their names.
use vstd::prelude::*;

use crate::consts::ip_proto;
use crate::errors::EbpfError;
use crate::text::{str_to_lowercase, to_lowercase};

verus! {

pub const IP: u16 = 0;
pub const ICMP: u16 = 1;
pub const IGMP: u16 = 2;
pub const IPIP: u16 = 4;
pub const TCP: u16 = 6;
pub const EGP: u16 = 8;
pub const PUP: u16 = 12;
pub const UDP: u16 = 17;
pub const IDP: u16 = 22;
pub const TP: u16 = 29;
pub const DCCP: u16 = 33;
pub const IPV6: u16 = 41;
pub const RSVP: u16 = 46;
pub const GRE: u16 = 47;
pub const ESP: u16 = 50;
pub const AH: u16 = 51;
pub const MTP: u16 = 92;
pub const BEETPH: u16 = 94;
pub const ENCAP: u16 = 98;
pub const PIM: u16 = 103;
pub const COMP: u16 = 108;
pub const SCTP: u16 = 132;
pub const UDPLITE: u16 = 136;
pub const MPLS: u16 = 137;
pub const ETHERNET: u16 = 143;
pub const RAW: u16 = 255;
pub const MPTCP: u16 = 262;
pub const MAX: u16 = 263;

/// The `IPPROTO_*` name of a protocol number, `UNKNOWN` for others.
pub open spec fn spec_to_str(n: u16) -> Seq<char> {
    if n == IP { "IPPROTO_IP"@ }
    else if n == ICMP { "IPPROTO_ICMP"@ }
    else if n == IGMP { "IPPROTO_IGMP"@ }
    else if n == IPIP { "IPPROTO_IPIP"@ }
    else if n == TCP { "IPPROTO_TCP"@ }
    else if n == EGP { "IPPROTO_EGP"@ }
    else if n == PUP { "IPPROTO_PUP"@ }
    else if n == UDP { "IPPROTO_UDP"@ }
    else if n == IDP { "IPPROTO_IDP"@ }
    else if n == TP { "IPPROTO_TP"@ }
    else if n == DCCP { "IPPROTO_DCCP"@ }
    else if n == IPV6 { "IPPROTO_IPV6"@ }
    else if n == RSVP { "IPPROTO_RSVP"@ }
    else if n == GRE { "IPPROTO_GRE"@ }
    else if n == ESP { "IPPROTO_ESP"@ }
    else if n == AH { "IPPROTO_AH"@ }
    else if n == MTP { "IPPROTO_MTP"@ }
    else if n == BEETPH { "IPPROTO_BEETPH"@ }
    else if n == ENCAP { "IPPROTO_ENCAP"@ }
    else if n == PIM { "IPPROTO_PIM"@ }
    else if n == COMP { "IPPROTO_COMP"@ }
    else if n == SCTP { "IPPROTO_SCTP"@ }
    else if n == UDPLITE { "IPPROTO_UDPLITE"@ }
    else if n == MPLS { "IPPROTO_MPLS"@ }
    else if n == ETHERNET { "IPPROTO_ETHERNET"@ }
    else if n == RAW { "IPPROTO_RAW"@ }
    else if n == MPTCP { "IPPROTO_MPTCP"@ }
    else if n == MAX { "IPPROTO_MAX"@ }
    else { "UNKNOWN"@ }
}

/// The `IPPROTO_*` name of a protocol number.
pub fn to_str(n_proto: u16) -> (r: &'static str)
    ensures
        r@ == spec_to_str(n_proto),
{
    match n_proto {
        IP => "IPPROTO_IP",
        ICMP => "IPPROTO_ICMP",
        IGMP => "IPPROTO_IGMP",
        IPIP => "IPPROTO_IPIP",
        TCP => "IPPROTO_TCP",
        EGP => "IPPROTO_EGP",
        PUP => "IPPROTO_PUP",
        UDP => "IPPROTO_UDP",
        IDP => "IPPROTO_IDP",
        TP => "IPPROTO_TP",
        DCCP => "IPPROTO_DCCP",
        IPV6 => "IPPROTO_IPV6",
        RSVP => "IPPROTO_RSVP",
        GRE => "IPPROTO_GRE",
        ESP => "IPPROTO_ESP",
        AH => "IPPROTO_AH",
        MTP => "IPPROTO_MTP",
        BEETPH => "IPPROTO_BEETPH",
        ENCAP => "IPPROTO_ENCAP",
        PIM => "IPPROTO_PIM",
        COMP => "IPPROTO_COMP",
        SCTP => "IPPROTO_SCTP",
        UDPLITE => "IPPROTO_UDPLITE",
        MPLS => "IPPROTO_MPLS",
        ETHERNET => "IPPROTO_ETHERNET",
        RAW => "IPPROTO_RAW",
        MPTCP => "IPPROTO_MPTCP",
        MAX => "IPPROTO_MAX",
        _ => "UNKNOWN",
    }
}

/// The protocol a lowercase name stands for: `tcp`, `udp` or `icmp`.
pub open spec fn spec_parse_lower(lower: Seq<char>) -> Option<u16> {
    if lower == "tcp"@ {
        Some(TCP)
    } else if lower == "udp"@ {
        Some(UDP)
    } else if lower == "icmp"@ {
        Some(ICMP)
    } else {
        None
    }
}

/// The protocol of an already lowercased name.
pub fn parse_lowercase(lower: &str) -> (r: Option<u16>)
    ensures
        r == spec_parse_lower(lower@),
{
    let l = lower.to_owned();
    if l == String::from_str("tcp") {
        Some(TCP)
    } else if l == String::from_str("udp") {
        Some(UDP)
    } else if l == String::from_str("icmp") {
        Some(ICMP)
    } else {
        None
    }
}

/// The message of an unsupported protocol name.
pub open spec fn unsupported_proto_message(name: Seq<char>) -> Seq<char> {
    "UnSupport Proto: "@ + name
}

/// The protocol number a name stands for, compared after lowercasing: `tcp`, `udp` or
/// `icmp`; other names are an error.
pub fn parse(proto_name: &str) -> (r: Result<u16, EbpfError>)
    ensures
        match spec_parse_lower(str_to_lowercase(proto_name@)) {
            Some(n) => r == Ok::<u16, EbpfError>(n),
            None => r matches Err(EbpfError::Other(m)) && m@ == unsupported_proto_message(proto_name@),
        },
{
    let lower = to_lowercase(proto_name);
    match parse_lowercase(lower.as_str()) {
        Some(n) => Ok(n),
        None => {
            let mut m = String::from_str("UnSupport Proto: ");
            m.append(proto_name);
            Err(EbpfError::Other(m))
        },
    }
}

/// A name that `parse` accepts maps back to its `IPPROTO_*` name.
pub proof fn law_parse_then_name(lower: Seq<char>)
    requires
        spec_parse_lower(lower) is Some,
    ensures
        spec_to_str(spec_parse_lower(lower)->0) == (if lower == "tcp"@ {
            "IPPROTO_TCP"@
        } else if lower == "udp"@ {
            "IPPROTO_UDP"@
        } else {
            "IPPROTO_ICMP"@
        }),
{
}


/// Each protocol number that has an `IPPROTO_*` constant is named by that constant's own
/// name, and every other number is `UNKNOWN`.
pub proof fn law_name_is_constant_name(n: u16)
    ensures
        spec_to_str(ip_proto::IPPROTO_IP) == "IPPROTO_IP"@,
        spec_to_str(ip_proto::IPPROTO_ICMP) == "IPPROTO_ICMP"@,
        spec_to_str(ip_proto::IPPROTO_IGMP) == "IPPROTO_IGMP"@,
        spec_to_str(ip_proto::IPPROTO_IPIP) == "IPPROTO_IPIP"@,
        spec_to_str(ip_proto::IPPROTO_TCP) == "IPPROTO_TCP"@,
        spec_to_str(ip_proto::IPPROTO_EGP) == "IPPROTO_EGP"@,
        spec_to_str(ip_proto::IPPROTO_PUP) == "IPPROTO_PUP"@,
        spec_to_str(ip_proto::IPPROTO_UDP) == "IPPROTO_UDP"@,
        spec_to_str(ip_proto::IPPROTO_IDP) == "IPPROTO_IDP"@,
        spec_to_str(ip_proto::IPPROTO_TP) == "IPPROTO_TP"@,
        spec_to_str(ip_proto::IPPROTO_DCCP) == "IPPROTO_DCCP"@,
        spec_to_str(ip_proto::IPPROTO_IPV6) == "IPPROTO_IPV6"@,
        spec_to_str(ip_proto::IPPROTO_RSVP) == "IPPROTO_RSVP"@,
        spec_to_str(ip_proto::IPPROTO_GRE) == "IPPROTO_GRE"@,
        spec_to_str(ip_proto::IPPROTO_ESP) == "IPPROTO_ESP"@,
        spec_to_str(ip_proto::IPPROTO_AH) == "IPPROTO_AH"@,
        spec_to_str(ip_proto::IPPROTO_MTP) == "IPPROTO_MTP"@,
        spec_to_str(ip_proto::IPPROTO_BEETPH) == "IPPROTO_BEETPH"@,
        spec_to_str(ip_proto::IPPROTO_ENCAP) == "IPPROTO_ENCAP"@,
        spec_to_str(ip_proto::IPPROTO_PIM) == "IPPROTO_PIM"@,
        spec_to_str(ip_proto::IPPROTO_COMP) == "IPPROTO_COMP"@,
        spec_to_str(ip_proto::IPPROTO_SCTP) == "IPPROTO_SCTP"@,
        spec_to_str(ip_proto::IPPROTO_UDPLITE) == "IPPROTO_UDPLITE"@,
        spec_to_str(ip_proto::IPPROTO_MPLS) == "IPPROTO_MPLS"@,
        spec_to_str(ip_proto::IPPROTO_ETHERNET) == "IPPROTO_ETHERNET"@,
        spec_to_str(ip_proto::IPPROTO_RAW) == "IPPROTO_RAW"@,
        spec_to_str(ip_proto::IPPROTO_MPTCP) == "IPPROTO_MPTCP"@,
        spec_to_str(ip_proto::IPPROTO_MAX) == "IPPROTO_MAX"@,
        ({
            &&& n != ip_proto::IPPROTO_IP
            &&& n != ip_proto::IPPROTO_ICMP
            &&& n != ip_proto::IPPROTO_IGMP
            &&& n != ip_proto::IPPROTO_IPIP
            &&& n != ip_proto::IPPROTO_TCP
            &&& n != ip_proto::IPPROTO_EGP
            &&& n != ip_proto::IPPROTO_PUP
            &&& n != ip_proto::IPPROTO_UDP
            &&& n != ip_proto::IPPROTO_IDP
            &&& n != ip_proto::IPPROTO_TP
            &&& n != ip_proto::IPPROTO_DCCP
            &&& n != ip_proto::IPPROTO_IPV6
            &&& n != ip_proto::IPPROTO_RSVP
            &&& n != ip_proto::IPPROTO_GRE
            &&& n != ip_proto::IPPROTO_ESP
            &&& n != ip_proto::IPPROTO_AH
            &&& n != ip_proto::IPPROTO_MTP
            &&& n != ip_proto::IPPROTO_BEETPH
            &&& n != ip_proto::IPPROTO_ENCAP
            &&& n != ip_proto::IPPROTO_PIM
            &&& n != ip_proto::IPPROTO_COMP
            &&& n != ip_proto::IPPROTO_SCTP
            &&& n != ip_proto::IPPROTO_UDPLITE
            &&& n != ip_proto::IPPROTO_MPLS
            &&& n != ip_proto::IPPROTO_ETHERNET
            &&& n != ip_proto::IPPROTO_RAW
            &&& n != ip_proto::IPPROTO_MPTCP
            &&& n != ip_proto::IPPROTO_MAX
        }) ==> spec_to_str(n) == "UNKNOWN"@,
{
}

/// Two different protocol numbers never share a name, unless both are `UNKNOWN`.
pub proof fn law_names_distinct(a: u16, b: u16)
    requires
        a != b,
        spec_to_str(a) != "UNKNOWN"@,
    ensures
        spec_to_str(a) != spec_to_str(b),
{
    reveal_strlit("IPPROTO_IP");
    reveal_strlit("IPPROTO_ICMP");
    reveal_strlit("IPPROTO_IGMP");
    reveal_strlit("IPPROTO_IPIP");
    reveal_strlit("IPPROTO_TCP");
    reveal_strlit("IPPROTO_EGP");
    reveal_strlit("IPPROTO_PUP");
    reveal_strlit("IPPROTO_UDP");
    reveal_strlit("IPPROTO_IDP");
    reveal_strlit("IPPROTO_TP");
    reveal_strlit("IPPROTO_DCCP");
    reveal_strlit("IPPROTO_IPV6");
    reveal_strlit("IPPROTO_RSVP");
    reveal_strlit("IPPROTO_GRE");
    reveal_strlit("IPPROTO_ESP");
    reveal_strlit("IPPROTO_AH");
    reveal_strlit("IPPROTO_MTP");
    reveal_strlit("IPPROTO_BEETPH");
    reveal_strlit("IPPROTO_ENCAP");
    reveal_strlit("IPPROTO_PIM");
    reveal_strlit("IPPROTO_COMP");
    reveal_strlit("IPPROTO_SCTP");
    reveal_strlit("IPPROTO_UDPLITE");
    reveal_strlit("IPPROTO_MPLS");
    reveal_strlit("IPPROTO_ETHERNET");
    reveal_strlit("IPPROTO_RAW");
    reveal_strlit("IPPROTO_MPTCP");
    reveal_strlit("IPPROTO_MAX");
    reveal_strlit("UNKNOWN");
    let s = spec_to_str(a);
    let t = spec_to_str(b);
    if s == t {
        assert(s.len() == t.len());
        assert(s.len() > 8 ==> s[8] == t[8]);
        assert(s.len() > 9 ==> s[9] == t[9]);
        assert(s.len() > 10 ==> s[10] == t[10]);
        assert(s.len() > 11 ==> s[11] == t[11]);
        assert(s.len() > 12 ==> s[12] == t[12]);
        assert(s.len() > 13 ==> s[13] == t[13]);
        assert(s.len() > 14 ==> s[14] == t[14]);
        assert(s.len() > 15 ==> s[15] == t[15]);
    }
}

} // verus!
