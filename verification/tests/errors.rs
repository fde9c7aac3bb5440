use opentrace_bpf::errors::EbpfError;

#[test]
fn io_error_display() {
    let err = EbpfError::IO("file not found".to_string());
    assert_eq!(err.to_string(), "IO Error: file not found");
}

#[test]
fn probe_not_found_display() {
    let err = EbpfError::ProbeNotFound("kprobe_missing".to_string());
    assert_eq!(err.to_string(), "probes is not found Error: kprobe_missing");
}

#[test]
fn syscall_error_display() {
    let err = EbpfError::SyscallErr("permission denied".to_string());
    assert_eq!(err.to_string(), "Syscall Error: permission denied");
}

#[test]
fn symbolize_error_display() {
    let err = EbpfError::SymbolizeError("symbol not found".to_string());
    assert_eq!(err.to_string(), "Symbolize Error: symbol not found");
}

#[test]
fn other_error_display() {
    let err = EbpfError::Other("something went wrong".to_string());
    assert_eq!(err.to_string(), "Other Error: something went wrong");
}

#[test]
fn probe_not_found_to_string() {
    let err = EbpfError::ProbeNotFound("test_probe".to_string());
    let s: String = err.into_message();
    assert_eq!(s, "test_probe");
}

#[test]
fn syscall_error_to_string() {
    let err = EbpfError::SyscallErr("syscall failed".to_string());
    let s: String = err.into_message();
    assert_eq!(s, "syscall failed");
}

#[test]
fn symbolize_error_to_string() {
    let err = EbpfError::SymbolizeError("symbol error".to_string());
    let s: String = err.into_message();
    assert_eq!(s, "symbol error");
}

#[test]
fn other_error_to_string() {
    let err = EbpfError::Other("other error".to_string());
    let s: String = err.into_message();
    assert_eq!(s, "other error");
}

#[test]
fn remaining_kinds_display() {
    assert_eq!(EbpfError::Libbpf("x".into()).to_string(), "Libbpf Error: x");
    assert_eq!(EbpfError::ParseErr("y".into()).to_string(), "addr_parse Error: y");
    assert_eq!(EbpfError::ConfigErr("z".into()).to_string(), "Config Error: z");
    assert_eq!(EbpfError::IO("io".into()).into_message(), "io");
}
