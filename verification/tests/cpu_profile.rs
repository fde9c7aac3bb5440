use opentrace_bpf::collectors::cpu::config::{perf_event_tids, Config};
use opentrace_bpf::collectors::cpu::profile::{Event, InnerEvent, SAMPLE_STACK_DEPTH};

#[test]
fn default_config_has_zero_pid() {
    let config = Config::default();
    assert_eq!(config.pid, 0);
}

#[test]
fn default_config_has_no_tids() {
    let config = Config::default();
    assert!(config.tids.is_none());
}

#[test]
fn default_config_has_zero_cpu() {
    let config = Config::default();
    assert_eq!(config.cpu, 0);
}

#[test]
fn default_config_has_zero_group_id() {
    let config = Config::default();
    assert_eq!(config.group_id, 0);
}

#[test]
fn default_config_has_no_custom_btf_path() {
    let config = Config::default();
    assert!(config.custom_btf_path.is_none());
}

#[test]
fn converts_stack_sizes_from_bytes_to_frame_counts_and_reverses() {
    let mut inner = InnerEvent {
        kstack: [0; 16],
        ustack: [0; 16],
        kstack_sz: 24,
        ustack_sz: 24,
        timestamp: 0,
        cpu_id: 0,
    };
    inner.ustack[..3].copy_from_slice(&[1, 2, 3]);
    inner.kstack[..3].copy_from_slice(&[10, 20, 30]);

    let event = Event::from(inner);

    assert_eq!(event.ustack, vec![3, 2, 1]);
    assert_eq!(event.kstack, vec![30, 20, 10]);
}

#[test]
fn clamps_stack_depth_to_sample_limit() {
    let mut inner = InnerEvent {
        kstack: [0; 16],
        ustack: [0; 16],
        kstack_sz: 16 * 8,
        ustack_sz: 16 * 8,
        timestamp: 0,
        cpu_id: 0,
    };
    for (idx, frame) in inner.ustack.iter_mut().enumerate() {
        *frame = idx as u64;
    }
    for (idx, frame) in inner.kstack.iter_mut().enumerate() {
        *frame = idx as u64 + 100;
    }

    let event = Event::from(inner);

    assert_eq!(event.ustack.len(), SAMPLE_STACK_DEPTH);
    assert_eq!(event.kstack.len(), SAMPLE_STACK_DEPTH);
}

#[test]
fn kstack_and_ustack_use_independent_sizes() {
    let mut inner = InnerEvent {
        kstack: [0; 16],
        ustack: [0; 16],
        kstack_sz: 16,
        ustack_sz: 32,
        timestamp: 0,
        cpu_id: 0,
    };
    inner.kstack[..2].copy_from_slice(&[100, 101]);
    inner.ustack[..4].copy_from_slice(&[1, 2, 3, 4]);

    let event = Event::from(inner);

    assert_eq!(event.kstack, vec![101, 100]);
    assert_eq!(event.ustack, vec![4, 3, 2, 1]);
}

#[test]
fn zero_stack_size_produces_empty_stack() {
    let event = Event::from(InnerEvent {
        kstack: [1; 16],
        ustack: [1; 16],
        kstack_sz: 0,
        ustack_sz: 0,
        timestamp: 0,
        cpu_id: 0,
    });

    assert!(event.ustack.is_empty());
    assert!(event.kstack.is_empty());
}

#[test]
fn negative_stack_size_produces_empty_stack() {
    let event = Event::from(InnerEvent {
        kstack: [1; 16],
        ustack: [1; 16],
        kstack_sz: -1,
        ustack_sz: -1,
        timestamp: 0,
        cpu_id: 0,
    });

    assert!(event.ustack.is_empty());
    assert!(event.kstack.is_empty());
}

#[test]
fn perf_event_tids_follow_pid() {
    assert_eq!(perf_event_tids(-1, Some(vec![1, 2])), vec![-1]);
    assert_eq!(perf_event_tids(7, None), vec![-1]);
    assert_eq!(perf_event_tids(7, Some(vec![])), vec![-1]);
    assert_eq!(perf_event_tids(7, Some(vec![7, 8, 9])), vec![7, 8, 9]);
}
