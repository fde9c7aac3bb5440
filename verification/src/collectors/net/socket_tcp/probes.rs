//! The programs of the socket tracer and where they attach: connect, accept, the read and
//! write families of system calls, and close.
use vstd::prelude::*;

use crate::collectors::attach::{plan_probes, probe_view, spec_available, PlannedProbe, ProbeKind, ProbeSpec};
use crate::probes::registry::Registry;

verus! {

/// The socket tracer's probes, in the order they are attached.
pub open spec fn spec_socket_tcp_probes() -> Seq<(Seq<char>, ProbeKind, Seq<char>)> {
    seq![
        ("tp_sys_enter_connect"@, ProbeKind::SyscallTracepoint, "sys_enter_connect"@),
        ("kp_tcp_connect"@, ProbeKind::Kprobe, "tcp_connect"@),
        ("kret_tcp_connect"@, ProbeKind::Kretprobe, "tcp_connect"@),
        ("tp_sys_exit_connect"@, ProbeKind::SyscallTracepoint, "sys_exit_connect"@),
        ("tp_sys_enter_accept"@, ProbeKind::SyscallTracepoint, "sys_enter_accept"@),
        ("tp_sys_enter_accept"@, ProbeKind::SyscallTracepoint, "sys_enter_accept4"@),
        ("kret_sock_alloc"@, ProbeKind::Kretprobe, "sock_alloc"@),
        ("tp_sys_exit_accept"@, ProbeKind::SyscallTracepoint, "sys_exit_accept"@),
        ("tp_sys_exit_accept"@, ProbeKind::SyscallTracepoint, "sys_exit_accept4"@),
        ("tp_sys_enter_read"@, ProbeKind::SyscallTracepoint, "sys_enter_read"@),
        ("tp_sys_enter_readv"@, ProbeKind::SyscallTracepoint, "sys_enter_readv"@),
        ("tp_sys_enter_recv"@, ProbeKind::SyscallTracepoint, "sys_enter_recv"@),
        ("tp_sys_enter_recvfrom"@, ProbeKind::SyscallTracepoint, "sys_enter_recvfrom"@),
        ("tp_sys_enter_recvmsg"@, ProbeKind::SyscallTracepoint, "sys_enter_recvmsg"@),
        ("tp_sys_enter_recvmmsg"@, ProbeKind::SyscallTracepoint, "sys_enter_recvmmsg"@),
        ("kp_security_socket_recvmsg"@, ProbeKind::Kprobe, "security_socket_recvmsg"@),
        ("tp_sys_exit_read"@, ProbeKind::SyscallTracepoint, "sys_exit_read"@),
        ("tp_sys_exit_recv"@, ProbeKind::SyscallTracepoint, "sys_exit_recv"@),
        ("tp_sys_exit_recvfrom"@, ProbeKind::SyscallTracepoint, "sys_exit_recvfrom"@),
        ("tp_sys_exit_readv"@, ProbeKind::SyscallTracepoint, "sys_exit_readv"@),
        ("tp_sys_exit_recvmsg"@, ProbeKind::SyscallTracepoint, "sys_exit_recvmsg"@),
        ("tp_sys_exit_recvmmsg"@, ProbeKind::SyscallTracepoint, "sys_exit_recvmmsg"@),
        ("kp_security_socket_sendmsg"@, ProbeKind::Kprobe, "security_socket_sendmsg"@),
        ("tp_sys_enter_write"@, ProbeKind::SyscallTracepoint, "sys_enter_write"@),
        ("tp_sys_enter_writev"@, ProbeKind::SyscallTracepoint, "sys_enter_writev"@),
        ("tp_sys_enter_send"@, ProbeKind::SyscallTracepoint, "sys_enter_send"@),
        ("tp_sys_enter_sendto"@, ProbeKind::SyscallTracepoint, "sys_enter_sendto"@),
        ("tp_sys_enter_sendmsg"@, ProbeKind::SyscallTracepoint, "sys_enter_sendmsg"@),
        ("tp_sys_enter_sendmmsg"@, ProbeKind::SyscallTracepoint, "sys_enter_sendmmsg"@),
        ("tp_sys_exit_write"@, ProbeKind::SyscallTracepoint, "sys_exit_write"@),
        ("tp_sys_exit_writev"@, ProbeKind::SyscallTracepoint, "sys_exit_writev"@),
        ("tp_sys_exit_send"@, ProbeKind::SyscallTracepoint, "sys_exit_send"@),
        ("tp_sys_exit_sendto"@, ProbeKind::SyscallTracepoint, "sys_exit_sendto"@),
        ("tp_sys_exit_sendmsg"@, ProbeKind::SyscallTracepoint, "sys_exit_sendmsg"@),
        ("tp_sys_exit_sendmmsg"@, ProbeKind::SyscallTracepoint, "sys_exit_sendmmsg"@),
        ("tp_sys_enter_close"@, ProbeKind::SyscallTracepoint, "sys_enter_close"@),
        ("tp_sys_exit_close"@, ProbeKind::SyscallTracepoint, "sys_exit_close"@),
    ]
}

/// The socket tracer's probes, in the order they are attached.
pub fn socket_tcp_probes() -> (r: Vec<ProbeSpec>)
    ensures
        r@.map_values(|p: ProbeSpec| probe_view(p)) == spec_socket_tcp_probes(),
{
    let r = vec![
        ProbeSpec { program: "tp_sys_enter_connect", kind: ProbeKind::SyscallTracepoint, target: "sys_enter_connect" },
        ProbeSpec { program: "kp_tcp_connect", kind: ProbeKind::Kprobe, target: "tcp_connect" },
        ProbeSpec { program: "kret_tcp_connect", kind: ProbeKind::Kretprobe, target: "tcp_connect" },
        ProbeSpec { program: "tp_sys_exit_connect", kind: ProbeKind::SyscallTracepoint, target: "sys_exit_connect" },
        ProbeSpec { program: "tp_sys_enter_accept", kind: ProbeKind::SyscallTracepoint, target: "sys_enter_accept" },
        ProbeSpec { program: "tp_sys_enter_accept", kind: ProbeKind::SyscallTracepoint, target: "sys_enter_accept4" },
        ProbeSpec { program: "kret_sock_alloc", kind: ProbeKind::Kretprobe, target: "sock_alloc" },
        ProbeSpec { program: "tp_sys_exit_accept", kind: ProbeKind::SyscallTracepoint, target: "sys_exit_accept" },
        ProbeSpec { program: "tp_sys_exit_accept", kind: ProbeKind::SyscallTracepoint, target: "sys_exit_accept4" },
        ProbeSpec { program: "tp_sys_enter_read", kind: ProbeKind::SyscallTracepoint, target: "sys_enter_read" },
        ProbeSpec { program: "tp_sys_enter_readv", kind: ProbeKind::SyscallTracepoint, target: "sys_enter_readv" },
        ProbeSpec { program: "tp_sys_enter_recv", kind: ProbeKind::SyscallTracepoint, target: "sys_enter_recv" },
        ProbeSpec { program: "tp_sys_enter_recvfrom", kind: ProbeKind::SyscallTracepoint, target: "sys_enter_recvfrom" },
        ProbeSpec { program: "tp_sys_enter_recvmsg", kind: ProbeKind::SyscallTracepoint, target: "sys_enter_recvmsg" },
        ProbeSpec { program: "tp_sys_enter_recvmmsg", kind: ProbeKind::SyscallTracepoint, target: "sys_enter_recvmmsg" },
        ProbeSpec { program: "kp_security_socket_recvmsg", kind: ProbeKind::Kprobe, target: "security_socket_recvmsg" },
        ProbeSpec { program: "tp_sys_exit_read", kind: ProbeKind::SyscallTracepoint, target: "sys_exit_read" },
        ProbeSpec { program: "tp_sys_exit_recv", kind: ProbeKind::SyscallTracepoint, target: "sys_exit_recv" },
        ProbeSpec { program: "tp_sys_exit_recvfrom", kind: ProbeKind::SyscallTracepoint, target: "sys_exit_recvfrom" },
        ProbeSpec { program: "tp_sys_exit_readv", kind: ProbeKind::SyscallTracepoint, target: "sys_exit_readv" },
        ProbeSpec { program: "tp_sys_exit_recvmsg", kind: ProbeKind::SyscallTracepoint, target: "sys_exit_recvmsg" },
        ProbeSpec { program: "tp_sys_exit_recvmmsg", kind: ProbeKind::SyscallTracepoint, target: "sys_exit_recvmmsg" },
        ProbeSpec { program: "kp_security_socket_sendmsg", kind: ProbeKind::Kprobe, target: "security_socket_sendmsg" },
        ProbeSpec { program: "tp_sys_enter_write", kind: ProbeKind::SyscallTracepoint, target: "sys_enter_write" },
        ProbeSpec { program: "tp_sys_enter_writev", kind: ProbeKind::SyscallTracepoint, target: "sys_enter_writev" },
        ProbeSpec { program: "tp_sys_enter_send", kind: ProbeKind::SyscallTracepoint, target: "sys_enter_send" },
        ProbeSpec { program: "tp_sys_enter_sendto", kind: ProbeKind::SyscallTracepoint, target: "sys_enter_sendto" },
        ProbeSpec { program: "tp_sys_enter_sendmsg", kind: ProbeKind::SyscallTracepoint, target: "sys_enter_sendmsg" },
        ProbeSpec { program: "tp_sys_enter_sendmmsg", kind: ProbeKind::SyscallTracepoint, target: "sys_enter_sendmmsg" },
        ProbeSpec { program: "tp_sys_exit_write", kind: ProbeKind::SyscallTracepoint, target: "sys_exit_write" },
        ProbeSpec { program: "tp_sys_exit_writev", kind: ProbeKind::SyscallTracepoint, target: "sys_exit_writev" },
        ProbeSpec { program: "tp_sys_exit_send", kind: ProbeKind::SyscallTracepoint, target: "sys_exit_send" },
        ProbeSpec { program: "tp_sys_exit_sendto", kind: ProbeKind::SyscallTracepoint, target: "sys_exit_sendto" },
        ProbeSpec { program: "tp_sys_exit_sendmsg", kind: ProbeKind::SyscallTracepoint, target: "sys_exit_sendmsg" },
        ProbeSpec { program: "tp_sys_exit_sendmmsg", kind: ProbeKind::SyscallTracepoint, target: "sys_exit_sendmmsg" },
        ProbeSpec { program: "tp_sys_enter_close", kind: ProbeKind::SyscallTracepoint, target: "sys_enter_close" },
        ProbeSpec { program: "tp_sys_exit_close", kind: ProbeKind::SyscallTracepoint, target: "sys_exit_close" },
    ];
    assert(r@.map_values(|p: ProbeSpec| probe_view(p)) =~= spec_socket_tcp_probes());
    r
}

/// Each of the socket tracer's probes, in order, with whether the kernel offers its place:
/// a program is attached where it is offered and skipped elsewhere.
pub fn plan_socket_tcp_probes(registry: &Registry) -> (r: Vec<PlannedProbe>)
    ensures
        r@.len() == spec_socket_tcp_probes().len(),
        forall|i: int|
            0 <= i < r@.len() ==> probe_view(#[trigger] r@[i].probe) == spec_socket_tcp_probes()[i]
                && r@[i].available == spec_available(
                *registry,
                spec_socket_tcp_probes()[i].1,
                spec_socket_tcp_probes()[i].2,
            ),
{
    let probes = socket_tcp_probes();
    let r = plan_probes(registry, &probes);
    assert forall|i: int| 0 <= i < r@.len() implies probe_view(#[trigger] r@[i].probe)
        == spec_socket_tcp_probes()[i] by {
        assert(probes@.map_values(|p: ProbeSpec| probe_view(p))[i] == probe_view(probes@[i]));
    }
    r
}

} // verus!
