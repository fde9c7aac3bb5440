use opentrace_bpf::collectors::attach::ProbeKind;
use opentrace_bpf::collectors::net::socket_tcp::matcher::{role_of, Role};
use opentrace_bpf::collectors::net::socket_tcp::probes::{plan_socket_tcp_probes, socket_tcp_probes};
use opentrace_bpf::collectors::net::socket_tcp::{
    Config, DefaultFormatter, Event, EventMatcher, InnerConfig, InnerEvent,
};
use opentrace_bpf::collectors::net::socket_trace::EventCacheStorage;
use opentrace_bpf::formatter::StreamFormatter;
use opentrace_bpf::probes::registry::Registry;
use opentrace_bpf::protocol::{MessageType, ParsedFrame, ProtoParser};
use opentrace_bpf::types::net::Addr;

#[derive(Default)]
struct TestParser;

struct TestFrame {
    payload: Option<String>,
    target: Option<String>,
}

impl ParsedFrame for TestFrame {
    fn message_type(&self) -> MessageType {
        MessageType::Request
    }

    fn payload(&mut self) -> Option<String> {
        self.payload.take()
    }

    fn target(&mut self) -> Option<String> {
        self.target.take()
    }
}

impl ProtoParser for TestParser {
    type Output = TestFrame;

    fn parse(&self, data: &[u8], size: usize, _verbose: bool) -> Option<Self::Output> {
        let payload = std::str::from_utf8(&data[..data.len().min(size)]).ok()?;
        Some(TestFrame {
            payload: Some(payload.into()),
            target: Some("GET /".into()),
        })
    }

    fn hash_id(&self, _data: &[u8], _size: usize) -> u32 {
        0
    }
}

fn inner_event(conn_kind: u32, flow_direct: u32, timestamp: u64, body: &str) -> InnerEvent {
    let mut buffer = [0; 1024];
    buffer[..body.len()].copy_from_slice(body.as_bytes());
    InnerEvent {
        buffer,
        remote_addr: Addr::from_v4([10, 0, 0, 1]),
        local_addr: Addr::from_v4([10, 0, 0, 2]),
        timestamp,
        size: body.len() as u32,
        pid: 1,
        fd: 2,
        conn_kind,
        flow_direct,
        remote_port: 8080,
        local_port: 80,
        family: 2,
        _pad: 0,
    }
}

#[test]
fn active_connection_matches_egress_request_to_ingress_response() {
    let mut matcher = EventMatcher::new(TestParser, false);

    assert!(matcher.try_match(inner_event(1, 2, 10, "request")).is_none());
    let event = matcher.try_match(inner_event(1, 1, 25, "response")).unwrap();

    assert_eq!(event.req_body.as_deref(), Some("request"));
    assert_eq!(event.resp_body.as_deref(), Some("response"));
    assert_eq!(event.duration, 15);
    assert_eq!(event.response_size, 8);
    assert_eq!(event.target.as_deref(), Some("GET /"));
}

#[test]
fn passive_connection_matches_ingress_request_to_egress_response() {
    let mut matcher = EventMatcher::new(TestParser, false);

    assert!(matcher.try_match(inner_event(2, 1, 10, "request")).is_none());
    let event = matcher.try_match(inner_event(2, 2, 20, "response")).unwrap();

    assert_eq!(event.req_body.as_deref(), Some("request"));
    assert_eq!(event.resp_body.as_deref(), Some("response"));
}

#[test]
fn unmatched_response_returns_none() {
    let mut matcher = EventMatcher::new(TestParser, false);

    assert!(matcher.try_match(inner_event(1, 1, 20, "response")).is_none());
}

#[test]
fn response_is_matched_once() {
    let mut matcher = EventMatcher::new(TestParser, false);
    assert!(matcher.try_match(inner_event(1, 2, 10, "request")).is_none());
    assert!(matcher.try_match(inner_event(1, 1, 20, "response")).is_some());
    assert!(matcher.try_match(inner_event(1, 1, 30, "response")).is_none());
}

#[test]
fn sides_are_kept_apart() {
    let mut matcher = EventMatcher::new(TestParser, false);
    assert!(matcher.try_match(inner_event(1, 2, 10, "request")).is_none());
    assert!(matcher.try_match(inner_event(2, 2, 20, "response")).is_none());
    assert!(matcher.try_match(inner_event(1, 1, 20, "response")).is_some());
}

#[test]
fn later_request_replaces_earlier_one() {
    let mut matcher: EventCacheStorage<TestParser> = EventMatcher::new(TestParser, true);
    assert!(matcher.try_match(inner_event(2, 1, 10, "first")).is_none());
    assert!(matcher.try_match(inner_event(2, 1, 12, "second")).is_none());
    let event = matcher.try_match(inner_event(2, 2, 20, "done")).unwrap();
    assert_eq!(event.req_body.as_deref(), Some("second"));
    assert_eq!(event.duration, 8);
    assert_eq!(event.timestamp, 20);
    assert_eq!(event.request_size, 6);
}

#[test]
fn unknown_kinds_are_ignored() {
    let mut matcher = EventMatcher::new(TestParser, false);
    assert!(matcher.try_match(inner_event(0, 2, 10, "request")).is_none());
    assert!(matcher.try_match(inner_event(3, 1, 20, "response")).is_none());
    assert!(matcher.try_match(inner_event(1, 0, 20, "response")).is_none());
}

#[test]
fn apply_records_and_completes_with_given_payloads() {
    let mut matcher = EventMatcher::new(TestParser, false);
    let req = inner_event(1, 2, 100, "ignored");
    assert!(matcher.apply(&req, Some("a".to_string()), Some("POST /x".to_string())).is_none());
    let resp = inner_event(1, 1, 175, "ignored too");
    assert!(matcher.is_in_order(&resp));
    let event = matcher.apply(&resp, None, None).unwrap();
    assert_eq!(event.req_body.as_deref(), Some("a"));
    assert_eq!(event.target.as_deref(), Some("POST /x"));
    assert_eq!(event.resp_body, None);
    assert_eq!(event.duration, 75);
    assert_eq!(event.remote_port, 8080);
    assert_eq!(event.family, 2);
}

#[test]
fn out_of_order_response_is_detected() {
    let mut matcher = EventMatcher::new(TestParser, false);
    assert!(matcher.try_match(inner_event(1, 2, 100, "request")).is_none());
    assert!(!matcher.is_in_order(&inner_event(1, 1, 50, "response")));
    assert!(matcher.is_in_order(&inner_event(1, 1, 100, "response")));
}

#[test]
fn roles_follow_kind_and_direction() {
    assert_eq!(role_of(1, 2), Role::ActiveRequest);
    assert_eq!(role_of(1, 1), Role::ActiveResponse);
    assert_eq!(role_of(2, 1), Role::PassiveRequest);
    assert_eq!(role_of(2, 2), Role::PassiveResponse);
    assert_eq!(role_of(0, 1), Role::Ignored);
    assert_eq!(role_of(2, 3), Role::Ignored);
}

#[test]
fn converts_inner_event_to_public_request_event() {
    let mut inner = inner_event(1, 2, 123, "");
    inner.size = 456;
    let event = Event::from(inner);

    assert_eq!(event.remote_port, 8080);
    assert_eq!(event.family, 2);
    assert_eq!(event.timestamp, 123);
    assert_eq!(event.request_size, 456);
    assert_eq!(event.response_size, 0);
    assert!(event.req_body.is_none());
    assert!(event.resp_body.is_none());
}

#[test]
fn converts_public_config_to_inner_config() {
    let inner = InnerConfig::from(Config {
        custom_btf_path: Some("btf".into()),
        pid: 42,
        verbose: true,
    });

    assert_eq!(inner.pid, 42);
}

#[test]
fn exposes_inner_config_as_struct_bytes() {
    let inner = InnerConfig { pid: 42 };

    assert_eq!(inner.as_bytes(), &42_u32.to_ne_bytes());
}

fn event() -> Event {
    Event {
        remote_addr: Addr::from_v4([10, 0, 0, 1]),
        remote_port: 8080,
        family: 2,
        req_body: Some("GET / HTTP/1.1".into()),
        resp_body: Some("HTTP/1.1 200 OK".into()),
        timestamp: 1_000_000_000,
        duration: 2_000_000,
        request_size: 100,
        response_size: 2048,
        target: Some("GET /".into()),
    }
}

fn render(verbose: bool, event: &Event) -> String {
    let mut out = Vec::new();
    DefaultFormatter::new(verbose).format(&mut out, event).unwrap();
    String::from_utf8(out).unwrap()
}

#[test]
fn formats_v6_simple_event_line() {
    let mut event = event();
    event.family = 10;

    let output = render(false, &event);
    assert!(output.contains("00:00:01"));
    assert!(output.contains("GET /"));
}

#[test]
fn formats_v6_remote_host_in_verbose_mode() {
    let mut event = event();
    event.family = 10;

    let output = render(true, &event);
    assert!(output.contains("远程主机:"));
    assert!(output.contains(":8080"));
}

#[test]
fn verbose_mode_unknown_target() {
    let mut event = event();
    event.target = None;

    let output = render(true, &event);
    assert!(output.contains("target:   unknown"));
}

#[test]
fn simple_mode_unknown_target() {
    let mut event = event();
    event.target = None;

    let output = render(false, &event);
    assert!(output.contains("unknown"));
}

#[test]
fn verbose_mode_truncates_long_request_body() {
    let mut event = event();
    event.req_body = Some("x".repeat(200));

    let output = render(true, &event);
    assert_eq!(output.matches('x').count(), 128);
}

#[test]
fn verbose_mode_truncates_long_response_body() {
    let mut event = event();
    event.resp_body = Some("y".repeat(200));

    let output = render(true, &event);
    assert_eq!(output.matches('y').count(), 128);
}

#[test]
fn verbose_mode_multiline_request_body() {
    let mut event = event();
    event.req_body = Some("line1\nline2\nline3".into());

    let output = render(true, &event);
    assert!(output.contains("请求数据: line1"));
    assert!(output.contains("          line2"));
    assert!(output.contains("          line3"));
}

#[test]
fn verbose_mode_no_request_or_response_body() {
    let mut event = event();
    event.req_body = None;
    event.resp_body = None;

    let output = render(true, &event);
    assert!(output.contains("请求数据: None"));
    assert!(output.contains("响应数据: None"));
}

#[test]
fn formats_simple_event_line() {
    let output = render(false, &event());
    assert!(output.contains("00:00:01"));
    assert!(output.contains("10.0.0.1"));
    assert!(output.contains("GET /"));
    assert!(output.contains("resp_size: 2k"));
}

#[test]
fn formats_verbose_event_details() {
    let output = render(true, &event());
    assert!(output.contains("远程主机: 10.0.0.1:8080"));
    assert!(output.contains("请求数据: GET / HTTP/1.1"));
    assert!(output.contains("响应数据: HTTP/1.1 200 OK"));
    assert!(output.contains("处理时长: 2ms"));
}

#[test]
fn simple_line_exact_text() {
    assert_eq!(
        render(false, &event()),
        "00:00:01 | 10.0.0.1 | GET / | req_size: 100B | resp_size: 2k | cost: 2ms\n"
    );
}

#[test]
fn verbose_exact_text() {
    let mut event = event();
    event.timestamp = 3_723_000_000_000;
    event.req_body = Some("a\r\nb\n".into());
    event.resp_body = Some(String::new());
    event.request_size = 3 * 1024 * 1024;
    event.duration = 999;
    assert_eq!(
        render(true, &event),
        "请求时间: 01:02:03\n远程主机: 10.0.0.1:8080\ntarget:   GET /\n请求数据: a\n          b\n\
         请求大小: 3M\n响应大小: 2k\n处理时长: 999ns\n\
         -------------------------------------------------------\n"
    );
}

#[test]
fn cut_inside_a_character_is_refused() {
    let mut event = event();
    event.req_body = Some(format!("{}é{}", "a".repeat(127), "b".repeat(10)));
    let mut out = b"kept".to_vec();
    assert!(DefaultFormatter::new(true).format(&mut out, &event).is_err());
    assert_eq!(out, b"kept".to_vec());
    assert!(DefaultFormatter::new(false).format(&mut out, &event).is_ok());
}

#[test]
fn durations_pick_their_unit() {
    let cases: [(u64, &str); 4] = [(5, "5ns"), (15_000, "15us"), (2_500_000, "2ms"), (3_000_000_001, "3s")];
    for (d, unit) in cases {
        let mut event = event();
        event.duration = d;
        assert!(render(false, &event).ends_with(&format!("cost: {}\n", unit)));
    }
}

#[test]
fn socket_probes_cover_all_calls_in_order() {
    let probes = socket_tcp_probes();
    assert_eq!(probes.len(), 37);
    assert_eq!(probes[0].program, "tp_sys_enter_connect");
    assert_eq!(probes[0].target, "sys_enter_connect");
    assert_eq!(probes[1].kind, ProbeKind::Kprobe);
    assert_eq!(probes[2].kind, ProbeKind::Kretprobe);
    assert_eq!(probes[36].target, "sys_exit_close");
}

#[test]
fn socket_plan_marks_what_the_kernel_offers() {
    let kprobes = vec!["tcp_connect".to_string()];
    let tps = vec!["syscalls:sys_enter_connect".to_string(), "syscalls:sys_exit_close".to_string()];
    let reg = Registry::from_lines(&kprobes, &tps);
    let plan = plan_socket_tcp_probes(&reg);
    let available: Vec<&str> = plan.iter().filter(|p| p.available).map(|p| p.probe.program).collect();
    assert_eq!(
        available,
        vec!["tp_sys_enter_connect", "kp_tcp_connect", "kret_tcp_connect", "tp_sys_exit_close"]
    );
}

#[test]
fn cut_between_characters_keeps_whole_characters() {
    let mut event = event();
    event.req_body = Some("é".repeat(100));
    let output = render(true, &event);
    assert_eq!(output.matches('é').count(), 64);
}

#[test]
fn in_order_check_refuses_only_real_underflow() {
    let mut matcher = EventMatcher::new(TestParser, false);
    assert!(matcher.try_match_in_order(inner_event(1, 2, 100, "request")).unwrap().is_none());
    assert!(matcher.try_match_in_order(inner_event(1, 1, 50, "response")).is_err());
    let mut unparsable = inner_event(1, 1, 50, "");
    unparsable.buffer[0] = 0xff;
    unparsable.size = 1;
    assert!(matcher.try_match_in_order(unparsable).unwrap().is_none());
    let event = matcher.try_match_in_order(inner_event(1, 1, 150, "response")).unwrap().unwrap();
    assert_eq!(event.duration, 50);
}
