//! A CPU sample as the kernel writes it, and its stacks in calling order.
use vstd::prelude::*;

use super::profile::{reversed_frames, spec_reversed_frames, spec_stack_count, stack_count, SAMPLE_STACK_DEPTH};

verus! {

/// A sample: raw kernel and user stacks (innermost frame first) and their sizes in bytes.
#[derive(Clone, Copy, Debug)]
pub struct Event {
    pub kstack: [u64; 16],
    pub ustack: [u64; 16],
    pub kstack_sz: i64,
    pub ustack_sz: i64,
    pub timestamp: u64,
    pub cpu_id: u32,
}

/// The user and kernel stacks of a sample, outermost frame first.
pub type StackEvent = (Vec<u64>, Vec<u64>);

impl Event {
    /// The number of user and kernel frames kept, at most [`SAMPLE_STACK_DEPTH`] each.
    pub fn stack_size(&self) -> (r: (usize, usize))
        ensures
            r == (spec_stack_count(self.ustack_sz, 6), spec_stack_count(self.kstack_sz, 6)),
    {
        (stack_count(self.ustack_sz, SAMPLE_STACK_DEPTH), stack_count(self.kstack_sz, SAMPLE_STACK_DEPTH))
    }

    /// The user and kernel stacks, outermost frame first.
    pub fn into_stack_event(self) -> (r: StackEvent)
        ensures
            r.0@ == spec_reversed_frames(self.ustack@, spec_stack_count(self.ustack_sz, 6) as int),
            r.1@ == spec_reversed_frames(self.kstack@, spec_stack_count(self.kstack_sz, 6) as int),
    {
        let (ustk_size, kstk_size) = self.stack_size();
        (reversed_frames(self.ustack.as_slice(), ustk_size), reversed_frames(self.kstack.as_slice(), kstk_size))
    }
}

} // verus!
