use opentrace_bpf::consts::eth_proto;
use opentrace_bpf::consts::ip_proto::{self, IPPROTO_ICMP, IPPROTO_TCP, IPPROTO_UDP};
use opentrace_bpf::errors::EbpfError;
use opentrace_bpf::protocols::{ether, inet};

#[test]
fn ip_protocol_names() {
    assert_eq!(inet::to_str(6), "IPPROTO_TCP");
    assert_eq!(inet::to_str(17), "IPPROTO_UDP");
    assert_eq!(inet::to_str(262), "IPPROTO_MPTCP");
    assert_eq!(inet::to_str(7), "UNKNOWN");
    assert_eq!(ip_proto::to_str(IPPROTO_ICMP), "IPPROTO_ICMP");
}

#[test]
fn ip_protocol_parse_ignores_case() {
    assert_eq!(inet::parse("TCP").unwrap(), IPPROTO_TCP);
    assert_eq!(inet::parse("Udp").unwrap(), IPPROTO_UDP);
    assert_eq!(ip_proto::parse("icmp").unwrap(), IPPROTO_ICMP);
    match inet::parse("SCTP") {
        Err(EbpfError::Other(m)) => assert_eq!(m, "UnSupport Proto: SCTP"),
        _ => panic!("expected an error"),
    }
}

#[test]
fn ether_protocols_in_network_order() {
    assert_eq!(ether::eth_p_ip(), 0x0800u16.to_be());
    assert_eq!(ether::eth_p_ipv6(), 0x86ddu16.to_be());
    assert_eq!(ether::eth_p_arp(), 0x0806u16.to_be());
    assert_eq!(ether::to_str(0x0800u16.to_be()), "ETH_P_IP");
    assert_eq!(eth_proto::to_str(0x86ddu16.to_be()), "ETH_P_IPV6");
    assert_eq!(ether::to_str(0x1234), "Unknown");
}

#[test]
fn ether_parse_ignores_case() {
    assert_eq!(ether::parse("IPv4").unwrap(), 0x0800u16.to_be());
    assert_eq!(ether::parse("IP").unwrap(), 0x0800u16.to_be());
    assert_eq!(eth_proto::parse("ipv6").unwrap(), 0x86ddu16.to_be());
    match ether::parse("arp") {
        Err(EbpfError::Other(m)) => assert_eq!(m, "UnSupport L2proto arp"),
        _ => panic!("expected an error"),
    }
}

#[test]
fn parsed_name_maps_back() {
    for name in ["tcp", "udp", "icmp"] {
        let n = inet::parse(name).unwrap();
        assert_eq!(inet::to_str(n), format!("IPPROTO_{}", name.to_uppercase()));
    }
    assert_eq!(ether::to_str(ether::parse("ipv4").unwrap()), "ETH_P_IP");
    assert_eq!(ether::to_str(ether::parse("ipv6").unwrap()), "ETH_P_IPV6");
}
