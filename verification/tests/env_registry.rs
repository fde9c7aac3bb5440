use opentrace_bpf::env::{check_btf_support, parse_kernel_release, validate_btf_header, BTF_MAGIC};
use opentrace_bpf::errors::EbpfError;
use opentrace_bpf::probes::registry::Registry;

#[test]
fn validates_btf_magic() {
    assert!(validate_btf_header(&BTF_MAGIC.to_le_bytes()).is_ok());
}

#[test]
fn rejects_invalid_btf_magic() {
    assert_eq!(
        validate_btf_header(&[0, 0]).unwrap_err(),
        "invalid BTF magic: expected 0xeb9f, got 0x0000"
    );
    assert_eq!(
        validate_btf_header(&[0x34, 0x12]).unwrap_err(),
        "invalid BTF magic: expected 0xeb9f, got 0x1234"
    );
}

#[test]
fn rejects_short_file() {
    assert_eq!(validate_btf_header(&[0]).unwrap_err(), "failed to fill whole buffer");
}

#[test]
fn kernel_btf_wins() {
    assert!(check_btf_support(true, Err(EbpfError::Other("x".into())), Err("y".into())).unwrap());
}

#[test]
fn custom_btf_is_checked_when_the_kernel_has_none() {
    let ok = check_btf_support(false, Ok("/opt/vmlinux.btf".into()), Ok(vec![0x9f, 0xeb, 1]));
    assert!(!ok.unwrap());
    match check_btf_support(false, Ok("/opt/vmlinux.btf".into()), Ok(vec![1])) {
        Err(EbpfError::Other(m)) => assert_eq!(
            m,
            "kernel BTF not supported and no valid custom BTF at /opt/vmlinux.btf: failed to fill whole buffer"
        ),
        _ => panic!("expected an error"),
    }
    match check_btf_support(false, Err(EbpfError::Other("no exe".into())), Ok(vec![])) {
        Err(EbpfError::Other(m)) => assert_eq!(m, "no exe"),
        _ => panic!("expected an error"),
    }
}

#[test]
fn kernel_release_numbers() {
    assert_eq!(parse_kernel_release("5.15.0-91-generic"), (5, 15));
    assert_eq!(parse_kernel_release("4.19"), (4, 19));
    assert_eq!(parse_kernel_release("v6"), (6, 0));
    assert_eq!(parse_kernel_release(""), (0, 0));
    assert_eq!(parse_kernel_release("99999999999.3"), (0, 3));
    assert_eq!(parse_kernel_release("..12..034"), (12, 34));
}

#[test]
fn registry_from_reads() {
    let reg = Registry::try_init(
        Ok(vec!["  tcp_connect \n".to_string(), "".to_string()]),
        Ok(vec!["syscalls:sys_enter_read".to_string(), "nocolon".to_string()]),
    )
    .unwrap();
    assert!(reg.kprobe_is_available("tcp_connect"));
    assert!(!reg.kprobe_is_available(""));
    assert!(reg.tracepoint_is_available("syscalls:sys_enter_read"));
    assert!(!reg.tracepoint_is_available("nocolon"));
    assert!(Registry::try_init(Err(EbpfError::Other("io".into())), Ok(vec![])).is_err());
    assert!(Registry::try_init(Ok(vec![]), Err(EbpfError::Other("io".into()))).is_err());
}

#[test]
fn registry_checks_loaded_probe_availability() {
    let kprobes: Vec<String> = ["do_one_initcall", "  x86_pmu_enable_event  ", ""]
        .iter()
        .map(|s| s.to_string())
        .collect();
    let tracepoints: Vec<String> = [
        "syscalls:sys_enter_arch_prctl",
        "irq_vectors:spurious_apic_exit",
        "malformed_tracepoint_without_group",
    ]
    .iter()
    .map(|s| s.to_string())
    .collect();
    let registry = Registry::from_lines(&kprobes, &tracepoints);

    assert!(registry.kprobe_is_available("do_one_initcall"));
    assert!(registry.kprobe_is_available("x86_pmu_enable_event"));
    assert!(!registry.kprobe_is_available("definitely_missing_probe"));
    assert!(registry.tracepoint_is_available("syscalls:sys_enter_arch_prctl"));
    assert!(registry.tracepoint_is_available("irq_vectors:spurious_apic_exit"));
    assert!(!registry.tracepoint_is_available("malformed_tracepoint_without_group"));
    assert!(!registry.tracepoint_is_available("missing:tracepoint"));
}
