//! Settings of the CPU profiler.
use vstd::prelude::*;

verus! {

/// What the user asks of the profiler: the process (`pid`) or threads (`tids`) to sample,
/// one of the two; the CPU (`-1` for all); the perf event group; a BTF file to use.
#[derive(Debug, Clone)]
pub struct Config {
    pub pid: i32,
    pub tids: Option<Vec<u32>>,
    pub cpu: i32,
    pub group_id: i32,
    pub custom_btf_path: Option<String>,
}

impl Default for Config {
    /// Everything zero or unset.
    fn default() -> (r: Self)
        ensures
            r.pid == 0,
            r.tids is None,
            r.cpu == 0,
            r.group_id == 0,
            r.custom_btf_path is None,
    {
        Config { pid: 0, tids: None, cpu: 0, group_id: 0, custom_btf_path: None }
    }
}

/// The threads listed for sampling: none when `pid` is negative; else the threads listed
/// for the process, none when they could not be listed.
pub open spec fn listed_tids(pid: i32, threads: Option<Vec<u32>>) -> Seq<u32> {
    if pid < 0 {
        Seq::empty()
    } else {
        match threads {
            Some(t) => t@,
            None => Seq::empty(),
        }
    }
}

/// The threads that get a perf event: each listed thread; when none is listed, the single
/// thread id `-1`, whose event covers every thread.
pub fn perf_event_tids(pid: i32, threads: Option<Vec<u32>>) -> (r: Vec<i32>)
    ensures
        listed_tids(pid, threads).len() == 0 ==> r@ == seq![-1i32],
        listed_tids(pid, threads).len() > 0 ==> r@.len() == listed_tids(pid, threads).len() && forall|i: int|
            0 <= i < r@.len() ==> #[trigger] r@[i] == listed_tids(pid, threads)[i] as i32,
{
    let mut r: Vec<i32> = Vec::new();
    if pid >= 0 {
        if let Some(t) = threads {
            let mut i: usize = 0;
            while i < t.len()
                invariant
                    i <= t@.len(),
                    r@.len() == i,
                    forall|j: int| 0 <= j < i ==> #[trigger] r@[j] == t@[j] as i32,
                decreases t@.len() - i,
            {
                r.push(t[i] as i32);
                i = i + 1;
            }
        }
    }
    if r.len() == 0 {
        r.push(-1);
        assert(r@ =~= seq![-1i32]);
    }
    r
}

} // verus!
