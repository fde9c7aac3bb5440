//! A prefix tree of sampled stacks: each node counts the samples whose stack passes
//! through it.
use vstd::prelude::*;

use crate::text::{push_decimal, push_hex, spec_decimal, spec_hex};


verus! {

/// One frame of the tree with the number of samples through it, and the frames called
/// from it, ordered by address.
#[derive(Debug, Default)]
pub struct StackTreeNode {
    pub stack_addr: u64,
    pub account: u32,
    pub stack_str: String,
    pub children: Vec<StackTreeNode>,
}

/// The position of the child with address `addr`, if any.
pub open spec fn spec_find_child(s: Seq<StackTreeNode>, addr: u64) -> Option<int>
    decreases s.len(),
{
    if s.len() == 0 {
        None
    } else if s.last().stack_addr == addr {
        Some(s.len() - 1)
    } else {
        spec_find_child(s.drop_last(), addr)
    }
}

/// Addresses strictly increase along the children.
pub open spec fn sorted_addrs(s: Seq<StackTreeNode>) -> bool {
    forall|i: int, j: int| 0 <= i < j < s.len() ==> s[i].stack_addr < s[j].stack_addr
}

proof fn lemma_find_child(s: Seq<StackTreeNode>, addr: u64)
    requires
        sorted_addrs(s),
    ensures
        match spec_find_child(s, addr) {
            Some(i) => 0 <= i < s.len() && s[i].stack_addr == addr,
            None => forall|j: int| 0 <= j < s.len() ==> s[j].stack_addr != addr,
        },
        forall|j: int| 0 <= j < s.len() && s[j].stack_addr == addr ==> spec_find_child(s, addr) == Some(j),
    decreases s.len(),
{
    if s.len() > 0 {
        let t = s.drop_last();
        assert(sorted_addrs(t)) by {
            assert forall|i: int, j: int| 0 <= i < j < t.len() implies t[i].stack_addr < t[j].stack_addr by {
                assert(t[i] == s[i] && t[j] == s[j]);
            }
        }
        lemma_find_child(t, addr);
        assert forall|j: int| 0 <= j < s.len() && s[j].stack_addr == addr implies spec_find_child(s, addr) == Some(j) by {
            if j < s.len() - 1 {
                assert(s[j].stack_addr < s[s.len() - 1].stack_addr);
                assert(t[j] == s[j]);
            }
        }
    }
}

/// The number of samples whose stack starts with `path` (counted from this node's
/// children); 0 for the empty path.
pub open spec fn count_at(n: StackTreeNode, path: Seq<u64>) -> nat
    decreases path.len(),
{
    if path.len() == 0 {
        0
    } else {
        match spec_find_child(n.children@, path[0]) {
            None => 0,
            Some(i) => {
                let c = n.children@[i];
                if path.len() == 1 {
                    c.account as nat
                } else {
                    count_at(c, path.drop_first())
                }
            },
        }
    }
}

impl StackTreeNode {
    /// Children are ordered by address, at every depth.
    pub open spec fn wf(self) -> bool
        decreases self,
    {
        &&& sorted_addrs(self.children@)
        &&& forall|i: int| 0 <= i < self.children@.len() ==> (#[trigger] self.children@[i]).wf()
    }

    /// A fresh node for `addr` with no samples.
    pub fn leaf(addr: u64) -> (r: Self)
        ensures
            r.wf(),
            r.stack_addr == addr,
            r.account == 0,
            r.children@.len() == 0,
    {
        StackTreeNode { stack_addr: addr, account: 0, stack_str: String::new(), children: Vec::new() }
    }

    /// Where `addr` is, or where it would be inserted to keep the order.
    fn position(&self, addr: u64) -> (r: (bool, usize))
        requires
            sorted_addrs(self.children@),
        ensures
            r.1 <= self.children@.len(),
            r.0 ==> r.1 < self.children@.len() && self.children@[r.1 as int].stack_addr == addr,
            !r.0 ==> forall|j: int| 0 <= j < self.children@.len() ==> self.children@[j].stack_addr != addr,
            forall|j: int| 0 <= j < r.1 ==> self.children@[j].stack_addr < addr,
            forall|j: int| r.1 <= j < self.children@.len() ==> self.children@[j].stack_addr >= addr,
    {
        let mut i: usize = 0;
        while i < self.children.len()
            invariant
                i <= self.children@.len(),
                sorted_addrs(self.children@),
                forall|j: int| 0 <= j < i ==> self.children@[j].stack_addr < addr,
            decreases self.children@.len() - i,
        {
            let a = self.children[i].stack_addr;
            if a >= addr {
                return (a == addr, i);
            }
            i = i + 1;
        }
        (false, i)
    }

    /// Counts one sample with stack `stack` below this node.
    #[verifier::spinoff_prover]
    #[verifier::rlimit(40)]
    pub fn insert(&mut self, stack: &[u64])
        requires
            old(self).wf(),
            forall|k: int| 1 <= k <= stack@.len() ==> count_at(*old(self), stack@.take(k)) < u32::MAX,
        ensures
            final(self).wf(),
            final(self).stack_addr == old(self).stack_addr,
            final(self).account == old(self).account,
            forall|p: Seq<u64>| #[trigger] count_at(*final(self), p) == count_at(*old(self), p) + (
                if 0 < p.len() <= stack@.len() && p == stack@.take(p.len() as int) { 1nat } else { 0nat }),
        decreases stack@.len(),
    {
        let n = stack.len();
        if n == 0 {
            assert forall|p: Seq<u64>| #[trigger] count_at(*self, p) == count_at(*old(self), p) + (
                if 0 < p.len() <= stack@.len() && p == stack@.take(p.len() as int) { 1nat } else { 0nat }) by {}
            return;
        }
        let addr = stack[0];
        let (found, idx) = self.position(addr);
        let ghost old_children = self.children@;
        let mut child = if found {
            self.children.remove(idx)
        } else {
            StackTreeNode::leaf(addr)
        };
        let ghost child0 = child;
        proof {
            lemma_find_child(old_children, addr);
            assert(stack@.take(1) =~= seq![addr]);
            if found {
                assert(old_children[idx as int].wf());
                assert(count_at(*old(self), stack@.take(1)) == child0.account);
            }
            assert(child0.wf());
        }
        child.account = child.account + 1;
        let rest = &stack[1..n];
        proof {
            assert forall|k: int| 1 <= k <= rest@.len() implies count_at(child0, rest@.take(k)) < u32::MAX by {
                assert(stack@.take(k + 1).drop_first() =~= rest@.take(k));
                assert(stack@.take(k + 1)[0] == addr);
                if !found {
                    assert(count_at(child0, rest@.take(k)) == 0) by {
                        assert(child0.children@.len() == 0);
                    }
                }
            }
        }
        child.insert(rest);
        self.children.insert(idx, child);
        proof {
            let s = self.children@;
            assert(sorted_addrs(s)) by {
                assert forall|i: int, j: int| 0 <= i < j < s.len() implies s[i].stack_addr < s[j].stack_addr by {
                    if found {
                        assert(s == old_children.update(idx as int, child));
                    } else {
                        assert(s == old_children.insert(idx as int, child));
                    }
                }
            }
            assert forall|i: int| 0 <= i < s.len() implies (#[trigger] s[i]).wf() by {
                if found {
                    assert(s == old_children.update(idx as int, child));
                } else {
                    assert(s == old_children.insert(idx as int, child));
                }
            }
            lemma_find_child(s, addr);
            assert forall|p: Seq<u64>| #[trigger] count_at(*self, p) == count_at(*old(self), p) + (
                if 0 < p.len() <= stack@.len() && p == stack@.take(p.len() as int) { 1nat } else { 0nat }) by {
                if p.len() > 0 {
                    lemma_find_child(s, p[0]);
                    lemma_find_child(old_children, p[0]);
                    if p[0] == addr {
                        if p.len() > 1 {
                            let q = p.drop_first();
                            assert(count_at(child, q) == count_at(child0, q) + (
                                if 0 < q.len() <= rest@.len() && q == rest@.take(q.len() as int) { 1nat } else { 0nat }));
                            if 0 < p.len() <= stack@.len() && p == stack@.take(p.len() as int) {
                                assert(q =~= rest@.take(q.len() as int));
                            } else if 0 < q.len() <= rest@.len() && q == rest@.take(q.len() as int) {
                                assert forall|i: int| 0 <= i < p.len() implies p[i] == stack@.take(p.len() as int)[i] by {
                                    if i > 0 {
                                        assert(p[i] == q[i - 1]);
                                    }
                                }
                                assert(p =~= stack@.take(p.len() as int));
                            }
                            if !found {
                                assert(child0.children@.len() == 0);
                            }
                        } else {
                            assert(p =~= stack@.take(1));
                        }
                    } else {
                        if 0 < p.len() <= stack@.len() && p == stack@.take(p.len() as int) {
                            assert(p[0] == stack@[0]);
                        }
                        if found {
                            assert(s == old_children.update(idx as int, child));
                        } else {
                            assert(s == old_children.insert(idx as int, child));
                        }
                        match spec_find_child(old_children, p[0]) {
                            Some(j) => {
                                let j2 = if !found && j >= idx { j + 1 } else { j };
                                assert(s[j2] == old_children[j]);
                                assert(s[j2].stack_addr == p[0]);
                                assert(spec_find_child(s, p[0]) == Some(j2));
                            },
                            None => {
                                assert forall|j: int| 0 <= j < s.len() implies s[j].stack_addr != p[0] by {
                                    if j != idx {
                                        let j0 = if !found && j > idx { j - 1 } else { j };
                                        assert(s[j] == old_children[j0]);
                                    }
                                }
                                assert(spec_find_child(s, p[0]) is None);
                            },
                        }
                    }
                }
            }
        }
    }
}

/// The share of `account` in `total`, in whole percent (0 when there is no total).
pub open spec fn percent(account: u32, total: u32) -> nat {
    if total == 0 {
        0
    } else {
        (account as nat * 100) / total as nat
    }
}

/// How a frame is labelled: its symbol when it has one, its address in hex otherwise.
pub open spec fn frame_label(n: StackTreeNode) -> Seq<char> {
    if n.stack_str@.len() == 0 {
        "0x"@ + spec_hex(n.stack_addr as nat)
    } else {
        n.stack_str@
    }
}

/// The line of one frame: `<count>(<percent>%) <label>`.
pub open spec fn node_line(n: StackTreeNode, total: u32, indent: Seq<char>) -> Seq<char> {
    indent + spec_decimal(n.account as nat) + "("@ + spec_decimal(percent(n.account, total)) + "%) "@
        + frame_label(n) + "\n"@
}

/// The frames `s` and, below each, its children indented two more spaces.
pub open spec fn render_nodes(s: Seq<StackTreeNode>, total: u32, indent: Seq<char>) -> Seq<char>
    decreases s,
{
    if s.len() == 0 {
        Seq::empty()
    } else {
        render_nodes(s.drop_last(), total, indent) + node_line(s.last(), total, indent)
            + render_nodes(s.last().children@, total, indent + "  "@)
    }
}

/// No count in the frames `s` or below them exceeds `bound`.
pub open spec fn accounts_at_most(s: Seq<StackTreeNode>, bound: nat) -> bool
    decreases s,
{
    s.len() == 0 || (accounts_at_most(s.drop_last(), bound) && s.last().account <= bound
        && accounts_at_most(s.last().children@, bound))
}

/// The sum of the counts of the frames `s`.
pub open spec fn sum_accounts(s: Seq<StackTreeNode>) -> nat
    decreases s.len(),
{
    if s.len() == 0 {
        0
    } else {
        sum_accounts(s.drop_last()) + s.last().account as nat
    }
}

proof fn lemma_accounts_prefix(s: Seq<StackTreeNode>, k: int, bound: nat)
    requires
        accounts_at_most(s, bound),
        0 <= k <= s.len(),
    ensures
        accounts_at_most(s.take(k), bound),
    decreases s.len(),
{
    if k == s.len() {
        assert(s.take(k) =~= s);
    } else {
        assert(s.take(k) =~= s.drop_last().take(k));
        lemma_accounts_prefix(s.drop_last(), k, bound);
    }
}

proof fn lemma_sum_prefix(s: Seq<StackTreeNode>, k: int)
    requires
        0 <= k <= s.len(),
    ensures
        sum_accounts(s.take(k)) <= sum_accounts(s),
    decreases s.len(),
{
    if k == s.len() {
        assert(s.take(k) =~= s);
    } else {
        assert(s.take(k) =~= s.drop_last().take(k));
        lemma_sum_prefix(s.drop_last(), k);
    }
}

/// Appends the line of one frame.
fn push_node_line(out: &mut String, n: &StackTreeNode, total: u32, indent: &String)
    requires
        n.account <= u32::MAX / 100,
    ensures
        final(out)@ == old(out)@ + node_line(*n, total, indent@),
{
    let pct: u32 = if total == 0 {
        0
    } else {
        n.account * 100 / total
    };
    out.append(indent.as_str());
    push_decimal(out, n.account as u64);
    proof {
        reveal_strlit("(");
        reveal_strlit("%) ");
        reveal_strlit("0x");
        reveal_strlit("\n");
    }
    out.append("(");
    push_decimal(out, pct as u64);
    out.append("%) ");
    if n.stack_str.as_str().is_empty() {
        out.append("0x");
        push_hex(out, n.stack_addr);
    } else {
        out.append(n.stack_str.as_str());
    }
    out.append("\n");
    assert(out@ =~= old(out)@ + node_line(*n, total, indent@));
}

impl StackTreeNode {
    /// Appends the lines of this node's children (and theirs, further indented).
    pub fn fmt_with_total(&self, out: &mut String, total: u32, indent: &String)
        requires
            accounts_at_most(self.children@, (u32::MAX / 100) as nat),
        ensures
            final(out)@ == old(out)@ + render_nodes(self.children@, total, indent@),
        decreases self,
    {
        let ghost start = out@;
        let mut i: usize = 0;
        while i < self.children.len()
            invariant
                i <= self.children@.len(),
                accounts_at_most(self.children@, (u32::MAX / 100) as nat),
                out@ == start + render_nodes(self.children@.take(i as int), total, indent@),
            decreases self.children@.len() - i,
        {
            let child = &self.children[i];
            let ghost t = self.children@.take(i + 1);
            assert(t.drop_last() =~= self.children@.take(i as int));
            proof { lemma_accounts_prefix(self.children@, i + 1, (u32::MAX / 100) as nat); }
            assert(accounts_at_most(t, (u32::MAX / 100) as nat));
            let ghost before = out@;
            push_node_line(out, child, total, indent);
            let mut deeper = indent.clone();
            deeper.append("  ");
            assert(decreases_to!(*self => self.children@[i as int]));
            child.fmt_with_total(out, total, &deeper);
            assert(out@ =~= start + render_nodes(t, total, indent@));
            i = i + 1;
        }
        assert(self.children@.take(self.children@.len() as int) =~= self.children@);
    }
}

/// The percentage printed for a frame is the whole part of its share of the total, in
/// percent: `p * total <= 100 * account < (p + 1) * total`; it is 0 when there is no total.
pub proof fn law_percent_is_whole_share(account: u32, total: u32)
    ensures
        total == 0 ==> percent(account, total) == 0,
        total > 0 ==> percent(account, total) * total <= 100 * account,
        total > 0 ==> 100 * account < (percent(account, total) + 1) * total,
{
    if total > 0 {
        let a: int = account as int * 100;
        let t: int = total as int;
        assert((a / t) * t <= a < (a / t + 1) * t) by (nonlinear_arith)
            requires
                t > 0,
                a >= 0,
        ;
    }
}

/// A frame holding every sample is printed at 100%: a tree whose only top frame has no
/// callees renders as the single line `<count>(100%) <label>`.
pub proof fn law_sole_frame_renders_whole(root: StackTreeNode)
    requires
        root.children@.len() == 1,
        root.children@[0].account > 0,
        root.children@[0].children@.len() == 0,
    ensures
        render_nodes(root.children@, sum_accounts(root.children@) as u32, Seq::empty()) == spec_decimal(
            root.children@[0].account as nat,
        ) + "(100%) "@ + frame_label(root.children@[0]) + "\n"@,
{
    let s = root.children@;
    let c = s[0];
    let a = c.account;
    assert(s.drop_last() =~= Seq::<StackTreeNode>::empty());
    assert(s.last() == c);
    assert(sum_accounts(s.drop_last()) == 0);
    assert(sum_accounts(s) == a);
    assert((a as nat * 100) / a as nat == 100) by (nonlinear_arith)
        requires
            a > 0,
    ;
    assert(percent(a, a) == 100);
    reveal_with_fuel(spec_decimal, 3);
    assert(spec_decimal(100) =~= seq!['1', '0', '0']);
    reveal_strlit("(");
    reveal_strlit("%) ");
    reveal_strlit("(100%) ");
    assert("("@ + spec_decimal(100) + "%) "@ =~= "(100%) "@);
    assert(render_nodes(c.children@, a, "  "@) =~= Seq::<char>::empty());
    assert(render_nodes(s.drop_last(), a, Seq::empty()) =~= Seq::<char>::empty());
    assert(render_nodes(s, a, Seq::empty()) =~= node_line(c, a, Seq::empty()));
    assert(node_line(c, a, Seq::empty()) =~= spec_decimal(a as nat) + "(100%) "@ + frame_label(c) + "\n"@);
}

/// All sampled stacks, merged by common outermost frames.
#[derive(Debug, Default)]
pub struct StackTree {
    pub root: StackTreeNode,
}

impl StackTree {
    /// An empty tree.
    pub fn new() -> (r: Self)
        ensures
            r.root.wf(),
            forall|p: Seq<u64>| #[trigger] count_at(r.root, p) == 0,
    {
        let r = StackTree { root: StackTreeNode::leaf(0) };
        assert forall|p: Seq<u64>| #[trigger] count_at(r.root, p) == 0 by {}
        r
    }

    /// Counts one sample with stack `stack` (outermost frame first).
    pub fn insert(&mut self, stack: &[u64])
        requires
            old(self).root.wf(),
            forall|k: int| 1 <= k <= stack@.len() ==> count_at(old(self).root, stack@.take(k)) < u32::MAX,
        ensures
            final(self).root.wf(),
            forall|p: Seq<u64>| #[trigger] count_at(final(self).root, p) == count_at(old(self).root, p) + (
                if 0 < p.len() <= stack@.len() && p == stack@.take(p.len() as int) { 1nat } else { 0nat }),
            inserted(old(self).root, final(self).root, stack@),
    {
        self.root.insert(stack);
        assert forall|p: Seq<u64>| #[trigger] count_at(self.root, p) == count_at(old(self).root, p)
            + starts_with(stack@, p) by {}
    }

    /// The tree as text: one line per frame, `<count>(<percent>%) <label>`, children below
    /// their caller indented by two spaces, the percentage taken of all samples.
    pub fn render(&self) -> (r: String)
        requires
            accounts_at_most(self.root.children@, (u32::MAX / 100) as nat),
            sum_accounts(self.root.children@) <= u32::MAX,
        ensures
            r@ == render_nodes(self.root.children@, sum_accounts(self.root.children@) as u32, Seq::empty()),
    {
        let mut total: u32 = 0;
        let mut i: usize = 0;
        while i < self.root.children.len()
            invariant
                i <= self.root.children@.len(),
                sum_accounts(self.root.children@) <= u32::MAX,
                total == sum_accounts(self.root.children@.take(i as int)),
            decreases self.root.children@.len() - i,
        {
            assert(self.root.children@.take(i + 1).drop_last() =~= self.root.children@.take(i as int));
            proof { lemma_sum_prefix(self.root.children@, i + 1); }
            total = total + self.root.children[i].account;
            i = i + 1;
        }
        assert(self.root.children@.take(self.root.children@.len() as int) =~= self.root.children@);
        let mut out = String::new();
        let indent = String::new();
        self.root.fmt_with_total(&mut out, total, &indent);
        out
    }
}

/// One if the non-empty path `p` starts the stack `s`, else zero.
pub open spec fn starts_with(s: Seq<u64>, p: Seq<u64>) -> nat {
    if 0 < p.len() <= s.len() && p == s.take(p.len() as int) {
        1
    } else {
        0
    }
}

/// The number of stacks of `stacks` that the non-empty path `p` starts.
pub open spec fn prefix_count(stacks: Seq<Seq<u64>>, p: Seq<u64>) -> nat
    decreases stacks.len(),
{
    if stacks.len() == 0 {
        0
    } else {
        prefix_count(stacks.drop_last(), p) + starts_with(stacks.last(), p)
    }
}

/// `after` counts what `before` counts, and one more on every non-empty path that starts
/// `s`: what inserting `s` does.
pub open spec fn inserted(before: StackTreeNode, after: StackTreeNode, s: Seq<u64>) -> bool {
    forall|p: Seq<u64>| #[trigger] count_at(after, p) == count_at(before, p) + starts_with(s, p)
}

/// A tree that starts empty and takes the stacks `stacks` one insert after the other
/// (`trees` holding the tree before the first insert and after each) counts, for every
/// path, the stacks that the path starts; the empty path counts nothing.
pub proof fn law_counts_after_inserts(trees: Seq<StackTreeNode>, stacks: Seq<Seq<u64>>)
    requires
        trees.len() == stacks.len() + 1,
        forall|p: Seq<u64>| #[trigger] count_at(trees[0], p) == 0,
        forall|j: int| 0 <= j < stacks.len() ==> #[trigger] inserted(trees[j], trees[j + 1], stacks[j]),
    ensures
        forall|p: Seq<u64>| #[trigger] count_at(trees.last(), p) == prefix_count(stacks, p),
    decreases stacks.len(),
{
    if stacks.len() > 0 {
        let k = stacks.len() as int;
        let t = trees.drop_last();
        let st = stacks.drop_last();
        assert forall|j: int| 0 <= j < st.len() implies #[trigger] inserted(t[j], t[j + 1], st[j]) by {
            assert(inserted(trees[j], trees[j + 1], stacks[j]));
        }
        law_counts_after_inserts(t, st);
        assert(inserted(trees[k - 1], trees[k], stacks[k - 1]));
        assert forall|p: Seq<u64>| #[trigger] count_at(trees.last(), p) == prefix_count(stacks, p) by {
            assert(count_at(t.last(), p) == prefix_count(st, p));
            assert(count_at(trees[k], p) == count_at(trees[k - 1], p) + starts_with(stacks[k - 1], p));
        }
    }
}

/// Inserting the empty stack changes no count.
pub proof fn law_empty_insert_changes_nothing(before: StackTreeNode, after: StackTreeNode)
    requires
        inserted(before, after, Seq::empty()),
    ensures
        forall|p: Seq<u64>| #[trigger] count_at(after, p) == count_at(before, p),
{
    assert forall|p: Seq<u64>| #[trigger] count_at(after, p) == count_at(before, p) by {
        assert(count_at(after, p) == count_at(before, p) + starts_with(Seq::empty(), p));
    }
}

} // verus!
