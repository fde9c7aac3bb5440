//! The probes the running kernel offers.
use vstd::prelude::*;

use crate::errors::EbpfError;
use crate::text::{contains_char, spec_trim, str_trim};

verus! {

/// A set of names, each held once.
#[derive(Debug, Clone)]
pub struct NameSet {
    names: Vec<String>,
}

impl NameSet {
    pub closed spec fn view(&self) -> Set<Seq<char>> {
        Set::new(|k: Seq<char>| exists|i: int| 0 <= i < self.names@.len() && self.names@[i]@ == k)
    }

    pub closed spec fn wf(&self) -> bool {
        forall|i: int, j: int| 0 <= i < j < self.names@.len() ==> self.names@[i]@ != self.names@[j]@
    }

    /// An empty set.
    pub fn new() -> (r: Self)
        ensures
            r.wf(),
            r.view() == Set::<Seq<char>>::empty(),
    {
        let r = NameSet { names: Vec::new() };
        assert(r.view() =~= Set::<Seq<char>>::empty());
        r
    }

    /// True when `name` is held.
    pub fn contains(&self, name: &str) -> (r: bool)
        ensures
            r == self.view().contains(name@),
    {
        let key = name.to_owned();
        let mut i: usize = 0;
        while i < self.names.len()
            invariant
                i <= self.names@.len(),
                key@ == name@,
                forall|j: int| 0 <= j < i ==> self.names@[j]@ != name@,
            decreases self.names@.len() - i,
        {
            if self.names[i] == key {
                assert(self.view().contains(name@));
                return true;
            }
            i = i + 1;
        }
        false
    }

    /// Adds `name`.
    pub fn insert(&mut self, name: String)
        requires
            old(self).wf(),
        ensures
            final(self).wf(),
            final(self).view() == old(self).view().insert(name@),
    {
        if self.contains(name.as_str()) {
            assert(self.view() =~= old(self).view().insert(name@));
            return;
        }
        let ghost before = self.names@;
        self.names.push(name);
        assert forall|i: int, j: int| 0 <= i < j < self.names@.len() implies self.names@[i]@ != self.names@[j]@ by {
            if j == before.len() {
                assert(self.names@[i] == before[i]);
            }
        }
        assert forall|k: Seq<char>| self.view().contains(k) == old(self).view().insert(name@).contains(k) by {
            if old(self).view().contains(k) {
                let i = choose|i: int| 0 <= i < before.len() && before[i]@ == k;
                assert(self.names@[i]@ == k);
            }
            if self.view().contains(k) && k != name@ {
                let i = choose|i: int| 0 <= i < self.names@.len() && self.names@[i]@ == k;
                assert(i < before.len());
                assert(before[i]@ == k);
            }
            if k == name@ {
                assert(self.names@[before.len() as int]@ == k);
            }
        }
        assert(self.view() =~= old(self).view().insert(name@));
    }
}

/// The kprobe names listed by lines of `available_filter_functions`: each line trimmed,
/// empty lines left out.
pub open spec fn kprobe_names(lines: Seq<Seq<char>>) -> Set<Seq<char>> {
    Set::new(|k: Seq<char>| exists|i: int| 0 <= i < lines.len() && spec_trim(lines[i]) == k && k.len() > 0)
}

/// The tracepoint names (`group:event`) listed by lines of `available_events`: each line
/// trimmed, lines that are empty or hold no `:` left out.
pub open spec fn tracepoint_names(lines: Seq<Seq<char>>) -> Set<Seq<char>> {
    Set::new(|k: Seq<char>| exists|i: int| 0 <= i < lines.len() && spec_trim(lines[i]) == k && k.len() > 0 && k.contains(':'))
}

/// Lines, by their characters.
pub open spec fn line_views(lines: Seq<String>) -> Seq<Seq<char>> {
    lines.map_values(|l: String| l@)
}

/// The kprobes and tracepoints that can be attached.
#[derive(Debug, Clone)]
pub struct Registry {
    kprobes: NameSet,
    tracepoints: NameSet,
}

impl Registry {
    pub closed spec fn kprobes(&self) -> Set<Seq<char>> {
        self.kprobes.view()
    }

    pub closed spec fn tracepoints(&self) -> Set<Seq<char>> {
        self.tracepoints.view()
    }

    /// Builds the registry from the lines of `available_filter_functions` and of
    /// `available_events`.
    pub fn from_lines(kprobe_lines: &Vec<String>, tracepoint_lines: &Vec<String>) -> (r: Self)
        ensures
            r.kprobes() == kprobe_names(line_views(kprobe_lines@)),
            r.tracepoints() == tracepoint_names(line_views(tracepoint_lines@)),
    {
        let mut kprobes = NameSet::new();
        let mut i: usize = 0;
        while i < kprobe_lines.len()
            invariant
                i <= kprobe_lines@.len(),
                kprobes.wf(),
                kprobes.view() == kprobe_names(line_views(kprobe_lines@.take(i as int))),
            decreases kprobe_lines@.len() - i,
        {
            let name = str_trim(kprobe_lines[i].as_str());
            let ghost prev = kprobes.view();
            if !name.is_empty() {
                kprobes.insert(name.to_owned());
            }
            proof {
                let lv = line_views(kprobe_lines@.take(i + 1));
                let lp = line_views(kprobe_lines@.take(i as int));
                assert forall|k: Seq<char>| kprobes.view().contains(k) == kprobe_names(lv).contains(k) by {
                    if kprobe_names(lp).contains(k) {
                        let j = choose|j: int| 0 <= j < lp.len() && spec_trim(lp[j]) == k && k.len() > 0;
                        assert(lv[j] == lp[j]);
                    }
                    if kprobe_names(lv).contains(k) {
                        let j = choose|j: int| 0 <= j < lv.len() && spec_trim(lv[j]) == k && k.len() > 0;
                        if j < i {
                            assert(lv[j] == lp[j]);
                        }
                    }
                    assert(lv[i as int] == kprobe_lines@[i as int]@);
                }
                assert(kprobes.view() =~= kprobe_names(lv));
            }
            i = i + 1;
        }
        assert(kprobe_lines@.take(kprobe_lines@.len() as int) =~= kprobe_lines@);
        let mut tracepoints = NameSet::new();
        let mut i: usize = 0;
        while i < tracepoint_lines.len()
            invariant
                i <= tracepoint_lines@.len(),
                tracepoints.wf(),
                tracepoints.view() == tracepoint_names(line_views(tracepoint_lines@.take(i as int))),
            decreases tracepoint_lines@.len() - i,
        {
            let name = str_trim(tracepoint_lines[i].as_str());
            if !name.is_empty() && contains_char(name, ':') {
                tracepoints.insert(name.to_owned());
            }
            proof {
                let lv = line_views(tracepoint_lines@.take(i + 1));
                let lp = line_views(tracepoint_lines@.take(i as int));
                assert forall|k: Seq<char>| tracepoints.view().contains(k) == tracepoint_names(lv).contains(k) by {
                    if tracepoint_names(lp).contains(k) {
                        let j = choose|j: int| 0 <= j < lp.len() && spec_trim(lp[j]) == k && k.len() > 0 && k.contains(':');
                        assert(lv[j] == lp[j]);
                    }
                    if tracepoint_names(lv).contains(k) {
                        let j = choose|j: int| 0 <= j < lv.len() && spec_trim(lv[j]) == k && k.len() > 0 && k.contains(':');
                        if j < i {
                            assert(lv[j] == lp[j]);
                        }
                    }
                    assert(lv[i as int] == tracepoint_lines@[i as int]@);
                }
                assert(tracepoints.view() =~= tracepoint_names(lv));
            }
            i = i + 1;
        }
        assert(tracepoint_lines@.take(tracepoint_lines@.len() as int) =~= tracepoint_lines@);
        Registry { kprobes, tracepoints }
    }

    /// Builds the registry from what reading `available_filter_functions` and
    /// `available_events` gave, line by line; the first failed read is the error.
    pub fn try_init(
        kprobe_lines: Result<Vec<String>, EbpfError>,
        tracepoint_lines: Result<Vec<String>, EbpfError>,
    ) -> (r: Result<Self, EbpfError>)
        ensures
            match (kprobe_lines, tracepoint_lines) {
                (Err(e), _) => r == Err::<Self, EbpfError>(e),
                (Ok(_), Err(e)) => r == Err::<Self, EbpfError>(e),
                (Ok(k), Ok(t)) => r matches Ok(reg) && reg.kprobes() == kprobe_names(line_views(k@))
                    && reg.tracepoints() == tracepoint_names(line_views(t@)),
            },
    {
        let kprobes = match kprobe_lines {
            Ok(k) => k,
            Err(e) => return Err(e),
        };
        let tracepoints = match tracepoint_lines {
            Ok(t) => t,
            Err(e) => return Err(e),
        };
        Ok(Self::from_lines(&kprobes, &tracepoints))
    }

    /// True when the kernel offers a kprobe on `kprobe`.
    pub fn kprobe_is_available(&self, kprobe: &str) -> (r: bool)
        ensures
            r == self.kprobes().contains(kprobe@),
    {
        self.kprobes.contains(kprobe)
    }

    /// True when the kernel offers the tracepoint `tp` (`group:event`).
    pub fn tracepoint_is_available(&self, tp: &str) -> (r: bool)
        ensures
            r == self.tracepoints().contains(tp@),
    {
        self.tracepoints.contains(tp)
    }
}

} // verus!
