//! A dropped packet, as the kernel program reports it.
use vstd::prelude::*;

use crate::types::net::{L2Info, L3Info, L4Info};

verus! {

/// The packet was freed by `kfree_skb`.
pub const DROP_SRC_KFREE_SKB: u8 = 1;

/// The packet was dropped or rejected by a netfilter hook.
pub const DROP_SRC_NF_HOOK: u8 = 2;

/// How many return addresses an event holds at most.
pub const MAX_STACK_DEPTH: usize = 16;

/// A dropped packet: its headers, the kernel stack that dropped it (`stack_size` is in
/// bytes), and where the drop was seen.
#[derive(Debug, Clone, Copy)]
pub struct Event {
    pub l2_info: L2Info,
    pub l3_info: L3Info,
    pub l4_info: L4Info,
    pub stack_size: i64,
    pub stack: [u64; 16],
    pub drop_reason: u8,
    pub drop_source: u8,
}

/// The name of a drop source.
pub open spec fn spec_drop_source(src: u8) -> Seq<char> {
    if src == DROP_SRC_KFREE_SKB {
        "kfree_skb"@
    } else if src == DROP_SRC_NF_HOOK {
        "nf_hook(drop/reject)"@
    } else {
        "unknown"@
    }
}

/// The number of stack entries that hold return addresses: the size in bytes over eight,
/// at most the capacity, none when the size is not positive.
pub open spec fn spec_stack_len(stack_size: i64) -> int {
    if stack_size <= 0 {
        0
    } else if stack_size / 8 > MAX_STACK_DEPTH {
        MAX_STACK_DEPTH as int
    } else {
        stack_size / 8
    }
}

impl Event {
    /// The name of where the drop was seen.
    pub fn drop_source_str(&self) -> (r: &'static str)
        ensures
            r@ == spec_drop_source(self.drop_source),
    {
        if self.drop_source == DROP_SRC_KFREE_SKB {
            "kfree_skb"
        } else if self.drop_source == DROP_SRC_NF_HOOK {
            "nf_hook(drop/reject)"
        } else {
            "unknown"
        }
    }

    /// The number of stack entries that hold return addresses.
    pub fn effective_stack_len(&self) -> (r: usize)
        ensures
            r == spec_stack_len(self.stack_size),
            r <= MAX_STACK_DEPTH,
    {
        if self.stack_size <= 0 {
            return 0;
        }
        let frames: u64 = (self.stack_size / 8) as u64;
        if frames > MAX_STACK_DEPTH as u64 {
            MAX_STACK_DEPTH
        } else {
            frames as usize
        }
    }
}

} // verus!
