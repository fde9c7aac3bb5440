//! The folded-stack format (`frame:frame:... 1`), the input of flame-graph tools.
use vstd::prelude::*;

use super::sample::Event;
use crate::symbolizer::SymbolResolver;
use crate::text::{push_hex, spec_hex};

verus! {

/// The number of frames of a stack of `stack_size` bytes held in `len` slots.
pub open spec fn folded_count(stack_size: i64, len: nat) -> int {
    if stack_size > 0 {
        let n = (stack_size as usize) / 8;
        if n < len { n as int } else { len as int }
    } else {
        0
    }
}

/// The label of one frame: its symbol, or its address as `0x`-prefixed hex.
pub open spec fn folded_label(addr: u64, name: Option<Seq<char>>) -> Seq<char> {
    match name {
        Some(n) => n,
        None => "0x"@ + spec_hex(addr as nat),
    }
}

/// The labels of `addrs` joined by `:`.
pub open spec fn folded_frames(addrs: Seq<u64>, names: Seq<Option<Seq<char>>>) -> Seq<char>
    decreases addrs.len(),
{
    if addrs.len() == 0 {
        Seq::empty()
    } else if addrs.len() == 1 {
        folded_label(addrs[0], names[0])
    } else {
        folded_frames(addrs.drop_last(), names) + ":"@ + folded_label(addrs.last(), names[addrs.len() - 1])
    }
}

/// One folded line for the first frames of a stack, ` 1` appended; nothing for an empty
/// stack.
pub open spec fn spec_folded_stack(stack: Seq<u64>, stack_size: i64, names: Seq<Option<Seq<char>>>) -> Seq<char> {
    let count = folded_count(stack_size, stack.len());
    if count == 0 {
        Seq::empty()
    } else {
        folded_frames(stack.take(count), names) + " 1\n"@
    }
}

/// The field that a frame adds to a folded line is its symbol when the symbol is known,
/// and its address in `0x`-prefixed hex otherwise, after a `:` unless it is the first.
pub proof fn law_folded_field(addrs: Seq<u64>, names: Seq<Option<Seq<char>>>, i: int)
    requires
        0 <= i < addrs.len(),
    ensures
        names[i] matches Some(n) ==> folded_frames(addrs.take(i + 1), names) == folded_frames(
            addrs.take(i),
            names,
        ) + (if i == 0 { Seq::empty() } else { ":"@ }) + n,
        names[i] is None ==> folded_frames(addrs.take(i + 1), names) == folded_frames(
            addrs.take(i),
            names,
        ) + (if i == 0 { Seq::empty() } else { ":"@ }) + "0x"@ + spec_hex(addrs[i] as nat),
{
    let t = addrs.take(i + 1);
    assert(t.drop_last() =~= addrs.take(i));
    assert(t.last() == addrs[i]);
    if i == 0 {
        assert(addrs.take(0) =~= Seq::<u64>::empty());
        assert(folded_frames(addrs.take(0), names) == Seq::<char>::empty());
        assert(folded_frames(t, names) =~= Seq::<char>::empty() + Seq::<char>::empty() + folded_label(addrs[0], names[0]));
    }
}

/// A stack of one frame whose symbol is known folds to that symbol and the count 1.
pub proof fn law_named_frame_folds_to_symbol(addr: u64, name: Seq<char>, stack_size: i64)
    requires
        8 <= stack_size <= usize::MAX,
    ensures
        spec_folded_stack(seq![addr], stack_size, seq![Some(name)]) == name + " 1\n"@,
{
    assert((stack_size as usize) / 8 >= 1);
    assert(folded_count(stack_size, 1) == 1);
    assert(seq![addr].take(1) =~= seq![addr]);
}

/// Optional names, by their characters.
pub open spec fn opt_names(v: Seq<Option<String>>) -> Seq<Option<Seq<char>>> {
    v.map_values(|o: Option<String>| match o {
        Some(s) => Some(s@),
        None => None,
    })
}

/// Each name is what `resolver` may give for the address of the same frame of `stack`.
pub open spec fn names_resolved<R: SymbolResolver>(resolver: R, stack: Seq<u64>, names: Seq<Option<String>>) -> bool {
    forall|i: int| 0 <= i < names.len() ==> #[trigger] resolver.resolves_addr(stack[i], names[i])
}

/// Renders the folded line of one stack, given the symbol (if any) of each frame.
pub fn render_folded_stack(stack: &[u64], stack_size: i64, names: &Vec<Option<String>>) -> (r: String)
    requires
        names@.len() >= folded_count(stack_size, stack@.len()),
    ensures
        r@ == spec_folded_stack(stack@, stack_size, opt_names(names@)),
{
    let count: usize = if stack_size > 0 {
        let n = (stack_size as usize) / 8;
        if n < stack.len() { n } else { stack.len() }
    } else {
        0
    };
    let ghost nm = opt_names(names@);
    let mut out = String::new();
    let mut i: usize = 0;
    while i < count
        invariant
            i <= count <= stack@.len(),
            count <= names@.len(),
            nm == opt_names(names@),
            out@ == folded_frames(stack@.take(i as int), nm),
        decreases count - i,
    {
        if i > 0 {
            out.append(":");
        }
        match &names[i] {
            Some(name) => out.append(name.as_str()),
            None => {
                out.append("0x");
                push_hex(&mut out, stack[i]);
            },
        }
        assert(stack@.take(i + 1).drop_last() =~= stack@.take(i as int));
        assert(out@ =~= folded_frames(stack@.take(i + 1), nm));
        i = i + 1;
    }
    if count > 0 {
        out.append(" 1\n");
    }
    out
}

/// Writes both stacks of a sample in the folded format.
pub struct FoldedFormatter;

impl FoldedFormatter {
    /// The symbol of each of the first `count` frames, as the resolver gives it.
    fn resolve_frames<R: SymbolResolver>(stack: &[u64], count: usize, resolver: &R) -> (r: Vec<Option<String>>)
        requires
            count <= stack@.len(),
        ensures
            r@.len() == count,
            names_resolved(*resolver, stack@, r@),
    {
        let mut names: Vec<Option<String>> = Vec::new();
        let mut i: usize = 0;
        while i < count
            invariant
                i <= count <= stack@.len(),
                names@.len() == i,
                names_resolved(*resolver, stack@, names@),
            decreases count - i,
        {
            let name = resolver.resolve_addr(stack[i]);
            let ghost before = names@;
            names.push(name);
            assert forall|j: int| 0 <= j < names@.len() implies #[trigger] resolver.resolves_addr(
                stack@[j],
                names@[j],
            ) by {
                if j < i {
                    assert(names@[j] == before[j]);
                }
            }
            i = i + 1;
        }
        names
    }

    /// The kernel stack's folded line, then the user stack's; the frame labels are what
    /// the resolver gives.
    pub fn format<R: SymbolResolver>(&self, event: &Event, resolver: &R) -> (r: String)
        ensures
            exists|kn: Seq<Option<String>>, un: Seq<Option<String>>|
                kn.len() == folded_count(event.kstack_sz, 16) && un.len() == folded_count(event.ustack_sz, 16)
                    && names_resolved(*resolver, event.kstack@, kn) && names_resolved(
                    *resolver,
                    event.ustack@,
                    un,
                ) && r@ == #[trigger] spec_folded_stack(event.kstack@, event.kstack_sz, opt_names(kn))
                    + #[trigger] spec_folded_stack(event.ustack@, event.ustack_sz, opt_names(un)),
    {
        let kcount: usize = if event.kstack_sz > 0 {
            let n = (event.kstack_sz as usize) / 8;
            if n < 16 { n } else { 16 }
        } else {
            0
        };
        let ucount: usize = if event.ustack_sz > 0 {
            let n = (event.ustack_sz as usize) / 8;
            if n < 16 { n } else { 16 }
        } else {
            0
        };
        let knames = Self::resolve_frames(event.kstack.as_slice(), kcount, resolver);
        let unames = Self::resolve_frames(event.ustack.as_slice(), ucount, resolver);
        let mut out = render_folded_stack(event.kstack.as_slice(), event.kstack_sz, &knames);
        let user = render_folded_stack(event.ustack.as_slice(), event.ustack_sz, &unames);
        out.append(user.as_str());
        assert(kcount == folded_count(event.kstack_sz, 16) && ucount == folded_count(event.ustack_sz, 16));
        assert(out@ == spec_folded_stack(event.kstack@, event.kstack_sz, opt_names(knames@)) + spec_folded_stack(
            event.ustack@,
            event.ustack_sz,
            opt_names(unames@),
        ));
        out
    }
}

} // verus!
