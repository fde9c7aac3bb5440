use opentrace_bpf::collectors::net::skbdrop::event::{Event, DROP_SRC_KFREE_SKB, DROP_SRC_NF_HOOK};
use opentrace_bpf::collectors::net::skbdrop::formatter::{
    endpoints_text, render_drop_event, write_endpoints, DefaultConsoleExporter, DefaultFormatter,
};
use opentrace_bpf::collectors::net::skbdrop::probes::plan_skbdrop_probes;
use opentrace_bpf::collectors::net::skbdrop::Config;
use opentrace_bpf::errors::EbpfError;
use opentrace_bpf::formatter::StreamFormatter;
use opentrace_bpf::probes::registry::Registry;
use opentrace_bpf::symbolizer::{ResolvedSymbol, SymbolizeInput, Symbolizer};
use opentrace_bpf::types::net::{Addr, L2Info, L3Info, L4Info};

struct MockSymbolizer;

impl Symbolizer for MockSymbolizer {
    fn resolve(&self, input: SymbolizeInput) -> ResolvedSymbol {
        ResolvedSymbol {
            name: format!("func_{:x}", input.addr),
            start_addr: input.addr,
            offset: 0,
        }
    }
}

fn make_event_v4(src: [u8; 4], dst: [u8; 4], sport: u16, dport: u16) -> Event {
    Event {
        l2_info: L2Info { eth_proto: 0 },
        l3_info: L3Info {
            saddr: Addr::from_v4(src),
            daddr: Addr::from_v4(dst),
            tot_len: 0,
            ip_version: 4,
            l4_proto: 6,
        },
        l4_info: L4Info {
            sport: u16::to_be(sport),
            dport: u16::to_be(dport),
            tcpflags: 0,
        },
        stack_size: 0,
        stack: [0; 16],
        drop_reason: 0,
        drop_source: DROP_SRC_KFREE_SKB,
    }
}

fn make_event_v6(sport: u16, dport: u16) -> Event {
    let mut src = [0u8; 16];
    src[15] = 1;
    let mut dst = [0u8; 16];
    dst[15] = 2;
    Event {
        l2_info: L2Info { eth_proto: 0 },
        l3_info: L3Info {
            saddr: Addr::from_v6(src),
            daddr: Addr::from_v6(dst),
            tot_len: 0,
            ip_version: 6,
            l4_proto: 6,
        },
        l4_info: L4Info {
            sport: u16::to_be(sport),
            dport: u16::to_be(dport),
            tcpflags: 0,
        },
        stack_size: 0,
        stack: [0; 16],
        drop_reason: 0,
        drop_source: DROP_SRC_KFREE_SKB,
    }
}

#[test]
fn write_endpoints_ipv4() {
    let event = make_event_v4([192, 168, 1, 1], [10, 0, 0, 1], 12345, 80);
    let mut buf = Vec::new();
    write_endpoints(&mut buf, &event).unwrap();
    let output = String::from_utf8(buf).unwrap();
    assert!(output.contains("192.168.1.1:12345"));
    assert!(output.contains("10.0.0.1:80"));
}

#[test]
fn write_endpoints_ipv6() {
    let event = make_event_v6(8080, 443);
    let mut buf = Vec::new();
    write_endpoints(&mut buf, &event).unwrap();
    let output = String::from_utf8(buf).unwrap();
    assert!(output.contains("8080"));
    assert!(output.contains("443"));
}

#[test]
fn write_endpoints_unknown_ip_version() {
    let cases: [(u16, &str); 2] = [
        (0, "0.0.0.0:80 -> 0.0.0.0:443"),
        (99, "0.0.0.0:80 -> 0.0.0.0:443"),
    ];
    for (version, expected) in cases {
        let mut event = make_event_v4([0, 0, 0, 0], [0, 0, 0, 0], 80, 443);
        event.l3_info.ip_version = version;
        let mut buf = Vec::new();
        write_endpoints(&mut buf, &event).unwrap();
        let output = String::from_utf8(buf).unwrap().trim().to_string();
        assert_eq!(output, expected);
    }
}

#[test]
fn default_formatter_outputs_reason() {
    let symbolizer = MockSymbolizer;
    let formatter = DefaultFormatter::new(&symbolizer);
    let event = make_event_v4([127, 0, 0, 1], [127, 0, 0, 2], 8080, 80);
    let mut buf = Vec::new();
    formatter.format(&mut buf, &event).unwrap();
    let output = String::from_utf8(buf).unwrap();
    assert!(output.contains("reason: kfree_skb"));
}

#[test]
fn default_formatter_no_stack_when_size_zero() {
    let symbolizer = MockSymbolizer;
    let formatter = DefaultFormatter::new(&symbolizer);
    let event = make_event_v4([127, 0, 0, 1], [127, 0, 0, 2], 8080, 80);
    let mut buf = Vec::new();
    formatter.format(&mut buf, &event).unwrap();
    let output = String::from_utf8(buf).unwrap();
    assert!(!output.contains("stack:"));
}

#[test]
fn default_formatter_with_stack() {
    let symbolizer = MockSymbolizer;
    let formatter = DefaultFormatter::new(&symbolizer);
    let mut event = make_event_v4([127, 0, 0, 1], [127, 0, 0, 2], 8080, 80);
    event.stack_size = 16;
    event.stack[0] = 0x1000;
    event.stack[1] = 0x2000;
    let mut buf = Vec::new();
    formatter.format(&mut buf, &event).unwrap();
    let output = String::from_utf8(buf).unwrap();
    assert!(output.contains("stack:"));
    assert!(output.contains("func_1000"));
    assert!(output.contains("func_2000"));
}

#[test]
fn default_formatter_negative_stack_size_no_stack() {
    let symbolizer = MockSymbolizer;
    let formatter = DefaultFormatter::new(&symbolizer);
    let mut event = make_event_v4([127, 0, 0, 1], [127, 0, 0, 2], 8080, 80);
    event.stack_size = -1;
    let mut buf = Vec::new();
    formatter.format(&mut buf, &event).unwrap();
    let output = String::from_utf8(buf).unwrap();
    assert!(!output.contains("stack:"));
}

#[test]
fn translates_drop_source() {
    let mut event = make_event_v4([0, 0, 0, 0], [0, 0, 0, 0], 0, 0);
    assert_eq!(event.drop_source_str(), "kfree_skb");

    event.drop_source = DROP_SRC_NF_HOOK;
    assert_eq!(event.drop_source_str(), "nf_hook(drop/reject)");

    event.drop_source = 99;
    assert_eq!(event.drop_source_str(), "unknown");
}

#[test]
fn effective_stack_len_counts_words_and_clamps() {
    let mut event = make_event_v4([0, 0, 0, 0], [0, 0, 0, 0], 0, 0);
    let cases: [(i64, usize); 6] = [(-8, 0), (0, 0), (7, 0), (8, 1), (24, 3), (16 * 8 + 64, 16)];
    for (size, expected) in cases {
        event.stack_size = size;
        assert_eq!(event.effective_stack_len(), expected);
    }
}

#[test]
fn renders_whole_event_text() {
    let mut event = make_event_v4([10, 1, 2, 3], [10, 4, 5, 6], 0, 0);
    event.stack_size = 16;
    let names = vec!["tcp_drop".to_string(), "ip_rcv".to_string()];
    let text = render_drop_event(&event, 1234, 80, &names);
    assert_eq!(
        text,
        format!(
            "10.1.2.3:1234 -> 10.4.5.6:80\nreason: kfree_skb\nstack:\n    tcp_drop\n    ip_rcv\n{}\n",
            "---+---".repeat(10)
        )
    );
}

#[test]
fn stack_header_without_frames_for_short_sizes() {
    let mut event = make_event_v4([1, 1, 1, 1], [2, 2, 2, 2], 0, 0);
    event.stack_size = 4;
    let text = render_drop_event(&event, 1, 2, &Vec::new());
    assert!(text.contains("reason: kfree_skb\nstack:\n---+---"));
}

#[test]
fn ipv6_endpoints_use_hex_groups() {
    let event = make_event_v6(0, 0);
    let text = endpoints_text(&event, 8080, 443);
    assert_eq!(text, "0:0:0:0:0:0:0:1:8080 -> 0:0:0:0:0:0:0:2:443\n");
}

#[test]
fn ports_are_read_in_network_order() {
    let event = make_event_v4([192, 168, 0, 1], [192, 168, 0, 2], 0x1234, 0x0050);
    let mut buf = Vec::new();
    write_endpoints(&mut buf, &event).unwrap();
    assert_eq!(String::from_utf8(buf).unwrap(), "192.168.0.1:4660 -> 192.168.0.2:80\n");
}

#[test]
fn console_exporter_renders_like_the_formatter() {
    let symbolizer = MockSymbolizer;
    let exporter = DefaultConsoleExporter::new(&symbolizer);
    let formatter = DefaultFormatter::new(&symbolizer);
    let mut event = make_event_v4([127, 0, 0, 1], [127, 0, 0, 2], 8080, 80);
    event.stack_size = 8;
    event.stack[0] = 0xabc;
    let mut buf = Vec::new();
    formatter.format(&mut buf, &event).unwrap();
    assert_eq!(exporter.render(&event), buf);
    assert!(String::from_utf8(buf).unwrap().contains("    func_abc\n"));
}

#[test]
fn default_config_filters_nothing() {
    let config = Config::default();
    assert!(config.any_addr.is_empty() && config.src_addr.is_empty() && config.dst_addr.is_empty());
    assert_eq!((config.pid, config.netns, config.eth_proto, config.ip_proto), (0, 0, 0, 0));
    assert_eq!((config.any_port, config.src_port, config.dst_port), (0, 0, 0));
    assert!(config.custom_btf_path.is_none());
}

fn registry(kprobes: &[&str]) -> Registry {
    let lines: Vec<String> = kprobes.iter().map(|s| s.to_string()).collect();
    Registry::from_lines(&lines, &Vec::new())
}

#[test]
fn plan_prefers_kfree_skb_reason() {
    let reg = registry(&["kfree_skb_reason", "__kfree_skb", "nf_hook_slow"]);
    let plan = plan_skbdrop_probes(&reg, (6, 1)).unwrap();
    assert_eq!(plan.kfree_target, Some("kfree_skb_reason"));
    assert!(!plan.nf_hook);
}

#[test]
fn plan_falls_back_and_hooks_netfilter_on_old_kernels() {
    let reg = registry(&["__kfree_skb", "nf_hook_slow"]);
    let plan = plan_skbdrop_probes(&reg, (4, 19)).unwrap();
    assert_eq!(plan.kfree_target, Some("__kfree_skb"));
    assert!(plan.nf_hook);
}

#[test]
fn plan_fails_when_nothing_is_offered() {
    let reg = registry(&["nf_hook_slow"]);
    match plan_skbdrop_probes(&reg, (5, 0)) {
        Err(EbpfError::ProbeNotFound(m)) => {
            assert_eq!(m, "none of [kfree_skb_reason, __kfree_skb, nf_hook_slow] available")
        }
        _ => panic!("expected an error"),
    }
    let plan = plan_skbdrop_probes(&reg, (4, 9)).unwrap();
    assert_eq!(plan.kfree_target, None);
    assert!(plan.nf_hook);
}
