//! Where the drop tracer attaches: the function that frees packets, and on kernels before
//! 5.0 also the netfilter hook, whose drops those kernels do not free through it.
use vstd::prelude::*;

use crate::errors::EbpfError;
use crate::probes::registry::Registry;

verus! {

/// The kernel's kprobe targets the drop tracer chooses from, in order of preference.
pub open spec fn kfree_skb_reason() -> Seq<char> {
    "kfree_skb_reason"@
}

pub open spec fn kfree_skb_fallback() -> Seq<char> {
    "__kfree_skb"@
}

pub open spec fn nf_hook_slow() -> Seq<char> {
    "nf_hook_slow"@
}

/// What the drop tracer attaches: its packet-freeing program to `kfree_target`, when some
/// target is offered, and its netfilter programs (entry and return) when `nf_hook` holds.
#[derive(Debug, Clone, Copy)]
pub struct SkbdropProbePlan {
    pub kfree_target: Option<&'static str>,
    pub nf_hook: bool,
}

/// The packet-freeing target: the one that reports drop reasons where the kernel offers it,
/// else the older one, else none.
pub open spec fn spec_kfree_target(registry: Registry) -> Option<Seq<char>> {
    if registry.kprobes().contains(kfree_skb_reason()) {
        Some(kfree_skb_reason())
    } else if registry.kprobes().contains(kfree_skb_fallback()) {
        Some(kfree_skb_fallback())
    } else {
        None
    }
}

/// The netfilter hook is attached on kernels before 5.0 that offer it.
pub open spec fn spec_nf_hook(registry: Registry, kver: (u32, u32)) -> bool {
    kver.0 < 5 && registry.kprobes().contains(nf_hook_slow())
}

/// The message when nothing can be attached.
pub open spec fn spec_nothing_available() -> Seq<char> {
    "none of [kfree_skb_reason, __kfree_skb, nf_hook_slow] available"@
}

/// The drop tracer's plan on a kernel of version `kver` (major, minor) offering `registry`;
/// an error when neither kind of place is offered.
pub fn plan_skbdrop_probes(registry: &Registry, kver: (u32, u32)) -> (r: Result<SkbdropProbePlan, EbpfError>)
    ensures
        r is Err <==> spec_kfree_target(*registry) is None && !spec_nf_hook(*registry, kver),
        r matches Ok(plan) ==> (match plan.kfree_target {
            Some(t) => spec_kfree_target(*registry) == Some(t@),
            None => spec_kfree_target(*registry) is None,
        }) && plan.nf_hook == spec_nf_hook(*registry, kver),
        r matches Err(e) ==> e is ProbeNotFound && e.message() == spec_nothing_available(),
{
    let kfree_target = if registry.kprobe_is_available("kfree_skb_reason") {
        Some("kfree_skb_reason")
    } else if registry.kprobe_is_available("__kfree_skb") {
        Some("__kfree_skb")
    } else {
        None
    };
    let need_nf_hook = kver.0 < 5;
    let nf_hook = need_nf_hook && registry.kprobe_is_available("nf_hook_slow");
    if kfree_target.is_none() && !nf_hook {
        return Err(EbpfError::ProbeNotFound(
            String::from_str("none of [kfree_skb_reason, __kfree_skb, nf_hook_slow] available"),
        ));
    }
    Ok(SkbdropProbePlan { kfree_target, nf_hook })
}

} // verus!
