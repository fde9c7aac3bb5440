//! CPU profile samples: the kernel's sample layout and the user/kernel stacks read from it.
use vstd::prelude::*;

verus! {

/// The deepest stack kept from a sample.
pub const SAMPLE_STACK_DEPTH: usize = 6;

/// A sample as the kernel writes it: raw stacks and their sizes in bytes.
#[derive(Clone, Copy, Debug)]
pub struct InnerEvent {
    pub kstack: [u64; 16],
    pub ustack: [u64; 16],
    pub kstack_sz: i64,
    pub ustack_sz: i64,
    pub timestamp: u64,
    pub cpu_id: u32,
}

/// The number of frames in a stack of `size` bytes, at most `max`; none when the size is
/// not positive.
pub open spec fn spec_stack_count(size: i64, max: usize) -> usize {
    if size <= 0 {
        0
    } else if ((size as usize) / 8) < max {
        ((size as usize) / 8) as usize
    } else {
        max
    }
}

/// The number of frames in a stack of `size` bytes, at most `max`.
pub fn stack_count(size: i64, max: usize) -> (r: usize)
    ensures
        r == spec_stack_count(size, max),
{
    if size <= 0 {
        return 0;
    }
    let frames = (size as usize) / 8;
    if frames < max {
        frames
    } else {
        max
    }
}

impl InnerEvent {
    /// The number of frames in a stack of `size` bytes, at most `max`.
    pub fn stack_count(size: i64, max: usize) -> (r: usize)
        ensures
            r == spec_stack_count(size, max),
    {
        stack_count(size, max)
    }
}

/// The first `count` frames of `stack`, outermost first (the kernel records innermost
/// first).
pub open spec fn spec_reversed_frames(stack: Seq<u64>, count: int) -> Seq<u64> {
    stack.take(count).reverse()
}

/// The first `count` frames of `stack` in reverse order.
pub fn reversed_frames(stack: &[u64], count: usize) -> (r: Vec<u64>)
    requires
        count <= stack@.len(),
    ensures
        r@ == spec_reversed_frames(stack@, count as int),
{
    let mut out: Vec<u64> = Vec::new();
    let mut i: usize = count;
    while i > 0
        invariant
            i <= count <= stack@.len(),
            out@ == stack@.subrange(i as int, count as int).reverse(),
        decreases i,
    {
        i = i - 1;
        out.push(stack[i]);
        assert(out@ =~= stack@.subrange(i as int, count as int).reverse());
    }
    assert(stack@.subrange(0, count as int) =~= stack@.take(count as int));
    out
}

/// A sample's stacks, outermost frame first, at most [`SAMPLE_STACK_DEPTH`] frames each.
#[derive(Debug)]
pub struct Event {
    pub ustack: Vec<u64>,
    pub kstack: Vec<u64>,
}

/// The stacks of a sample.
pub open spec fn spec_event_from(e: InnerEvent) -> (Seq<u64>, Seq<u64>) {
    (
        spec_reversed_frames(e.ustack@, spec_stack_count(e.ustack_sz, 6) as int),
        spec_reversed_frames(e.kstack@, spec_stack_count(e.kstack_sz, 6) as int),
    )
}

impl Event {
    /// The stacks of a sample.
    pub fn from_inner(event: InnerEvent) -> (r: Self)
        ensures
            (r.ustack@, r.kstack@) == spec_event_from(event),
    {
        let ustk_size = stack_count(event.ustack_sz, SAMPLE_STACK_DEPTH);
        let kstk_size = stack_count(event.kstack_sz, SAMPLE_STACK_DEPTH);
        let ustack = reversed_frames(event.ustack.as_slice(), ustk_size);
        let kstack = reversed_frames(event.kstack.as_slice(), kstk_size);
        Event { ustack, kstack }
    }
}

impl From<InnerEvent> for Event {
    /// The stacks of a sample.
    fn from(event: InnerEvent) -> (r: Self)
        ensures
            (r.ustack@, r.kstack@) == spec_event_from(event),
    {
        Event::from_inner(event)
    }
}

impl vstd::std_specs::convert::FromSpecImpl<InnerEvent> for Event {
    /// A sample's stacks are vectors, whose equality nothing states; the conversion is
    /// described by the `ensures` of `from` instead.
    open spec fn obeys_from_spec() -> bool {
        false
    }

    open spec fn from_spec(v: InnerEvent) -> Event {
        choose|e: Event| (e.ustack@, e.kstack@) == spec_event_from(v)
    }
}

} // verus!
