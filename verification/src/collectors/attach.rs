//! Which kernel programs to attach where, and whether the running kernel offers each place.
use vstd::prelude::*;

use crate::probes::registry::Registry;

verus! {

/// How a program is attached.
#[derive(Debug, Clone, Copy, PartialEq, Eq, Structural)]
pub enum ProbeKind {
    /// To a tracepoint of the `syscalls` group.
    SyscallTracepoint,
    /// To a function's entry.
    Kprobe,
    /// To a function's return.
    Kretprobe,
}

/// A program and the place it is attached to.
#[derive(Debug, Clone, Copy)]
pub struct ProbeSpec {
    pub program: &'static str,
    pub kind: ProbeKind,
    pub target: &'static str,
}

/// A program, its place, and whether the kernel offers that place.
#[derive(Debug, Clone, Copy)]
pub struct PlannedProbe {
    pub probe: ProbeSpec,
    pub available: bool,
}

/// A probe by its program's name, its kind and its target's name.
pub open spec fn probe_view(p: ProbeSpec) -> (Seq<char>, ProbeKind, Seq<char>) {
    (p.program@, p.kind, p.target@)
}

/// The name under which the registry lists a place: `syscalls:` and the tracepoint's
/// name, or the function's name.
pub open spec fn lookup_name(kind: ProbeKind, target: Seq<char>) -> Seq<char> {
    if kind == ProbeKind::SyscallTracepoint {
        "syscalls:"@ + target
    } else {
        target
    }
}

/// The kernel offers the place.
pub open spec fn spec_available(registry: Registry, kind: ProbeKind, target: Seq<char>) -> bool {
    if kind == ProbeKind::SyscallTracepoint {
        registry.tracepoints().contains(lookup_name(kind, target))
    } else {
        registry.kprobes().contains(target)
    }
}

/// True when the kernel offers the probe's place.
pub fn is_available(registry: &Registry, probe: &ProbeSpec) -> (r: bool)
    ensures
        r == spec_available(*registry, probe.kind, probe.target@),
{
    match probe.kind {
        ProbeKind::SyscallTracepoint => {
            let mut name = String::from_str("syscalls:");
            name.append(probe.target);
            registry.tracepoint_is_available(name.as_str())
        },
        _ => registry.kprobe_is_available(probe.target),
    }
}

/// Each probe of `probes`, in order, with whether the kernel offers its place.
pub fn plan_probes(registry: &Registry, probes: &Vec<ProbeSpec>) -> (r: Vec<PlannedProbe>)
    ensures
        r@.len() == probes@.len(),
        forall|i: int|
            0 <= i < r@.len() ==> #[trigger] r@[i].probe == probes@[i] && r@[i].available == spec_available(
                *registry,
                probes@[i].kind,
                probes@[i].target@,
            ),
{
    let mut r: Vec<PlannedProbe> = Vec::new();
    let mut i: usize = 0;
    while i < probes.len()
        invariant
            i <= probes@.len(),
            r@.len() == i,
            forall|j: int|
                0 <= j < i ==> #[trigger] r@[j].probe == probes@[j] && r@[j].available == spec_available(
                    *registry,
                    probes@[j].kind,
                    probes@[j].target@,
                ),
        decreases probes@.len() - i,
    {
        let p = probes[i];
        let available = is_available(registry, &p);
        r.push(PlannedProbe { probe: p, available });
        i = i + 1;
    }
    r
}

} // verus!
