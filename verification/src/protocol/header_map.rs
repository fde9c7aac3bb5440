//! A string-keyed header table in which a later insertion of a name replaces
//! the earlier value, as in a hash map.
use vstd::prelude::*;

verus! {

/// The map that a list of distinct-keyed entries stands for.
pub open spec fn entries_map(s: Seq<(String, String)>) -> Map<Seq<char>, Seq<char>>
    decreases s.len(),
{
    if s.len() == 0 {
        Map::empty()
    } else {
        entries_map(s.drop_last()).insert(s.last().0@, s.last().1@)
    }
}

/// No two entries share a name.
pub open spec fn distinct_keys(s: Seq<(String, String)>) -> bool {
    forall|i: int, j: int| 0 <= i < j < s.len() ==> s[i].0@ != s[j].0@
}

proof fn lemma_entries_map_dom(s: Seq<(String, String)>)
    ensures
        forall|k: Seq<char>|
            entries_map(s).dom().contains(k) <==> exists|i: int| 0 <= i < s.len() && s[i].0@ == k,
        entries_map(s).dom().finite(),
    decreases s.len(),
{
    if s.len() > 0 {
        lemma_entries_map_dom(s.drop_last());
        assert forall|k: Seq<char>|
            entries_map(s).dom().contains(k) <==> exists|i: int|
                0 <= i < s.len() && s[i].0@ == k by {
            if entries_map(s).dom().contains(k) && k != s.last().0@ {
                let i = choose|i: int| 0 <= i < s.drop_last().len() && s.drop_last()[i].0@ == k;
                assert(s[i].0@ == k);
            }
            if exists|i: int| 0 <= i < s.len() && s[i].0@ == k {
                let i = choose|i: int| 0 <= i < s.len() && s[i].0@ == k;
                if i < s.len() - 1 {
                    assert(s.drop_last()[i].0@ == k);
                }
            }
        }
    }
}

proof fn lemma_entries_map_value(s: Seq<(String, String)>, i: int)
    requires
        distinct_keys(s),
        0 <= i < s.len(),
    ensures
        entries_map(s).dom().contains(s[i].0@),
        entries_map(s)[s[i].0@] == s[i].1@,
    decreases s.len(),
{
    lemma_entries_map_dom(s);
    if i < s.len() - 1 {
        lemma_entries_map_value(s.drop_last(), i);
    }
}

proof fn lemma_entries_map_update(s: Seq<(String, String)>, i: int, e: (String, String))
    requires
        distinct_keys(s),
        0 <= i < s.len(),
        e.0@ == s[i].0@,
    ensures
        entries_map(s.update(i, e)) == entries_map(s).insert(e.0@, e.1@),
    decreases s.len(),
{
    let t = s.update(i, e);
    if i == s.len() - 1 {
        assert(t.drop_last() =~= s.drop_last());
        assert(entries_map(t) =~= entries_map(s).insert(e.0@, e.1@));
    } else {
        assert(t.drop_last() =~= s.drop_last().update(i, e));
        lemma_entries_map_update(s.drop_last(), i, e);
        assert(s.last().0@ != e.0@);
        assert(entries_map(t) =~= entries_map(s).insert(e.0@, e.1@));
    }
}

/// Where `name` is among the names of `entries`, if it is.
fn position_in(entries: &Vec<(String, String)>, name: &String) -> (r: Option<usize>)
    requires
        distinct_keys(entries@),
    ensures
        match r {
            Some(i) => i < entries@.len() && entries@[i as int].0@ == name@,
            None => !entries_map(entries@).contains_key(name@),
        },
{
    let mut i: usize = 0;
    while i < entries.len()
        invariant
            i <= entries@.len(),
            forall|j: int| 0 <= j < i ==> entries@[j].0@ != name@,
        decreases entries@.len() - i,
    {
        if entries[i].0 == *name {
            return Some(i);
        }
        i = i + 1;
    }
    proof { lemma_entries_map_dom(entries@); }
    None
}

/// Header names and values, each name at most once.
#[derive(Debug)]
pub struct HeaderMap {
    entries: Vec<(String, String)>,
}

impl HeaderMap {
    /// The names and values held, as a map.
    pub closed spec fn view(&self) -> Map<Seq<char>, Seq<char>> {
        entries_map(self.entries@)
    }

    pub closed spec fn wf(&self) -> bool {
        distinct_keys(self.entries@)
    }

    /// No name is held twice.
    #[verifier::type_invariant]
    spec fn names_distinct(self) -> bool {
        distinct_keys(self.entries@)
    }

    /// Number of distinct names held.
    pub closed spec fn spec_len(&self) -> nat {
        self.entries@.len()
    }

    pub proof fn lemma_wf_len(&self)
        requires
            self.wf(),
        ensures
            self.view().dom().finite(),
            self.view().dom().len() == self.spec_len(),
            self.spec_len() == 0 <==> self.view() == Map::<Seq<char>, Seq<char>>::empty(),
    {
        lemma_entries_map_dom(self.entries@);
        self.lemma_dom_len(self.entries@);
        if self.spec_len() != 0 {
            lemma_entries_map_value(self.entries@, 0);
        } else {
            assert(self.view() =~= Map::<Seq<char>, Seq<char>>::empty());
        }
    }

    proof fn lemma_dom_len(&self, s: Seq<(String, String)>)
        requires
            distinct_keys(s),
        ensures
            entries_map(s).dom().len() == s.len(),
        decreases s.len(),
    {
        lemma_entries_map_dom(s);
        if s.len() > 0 {
            self.lemma_dom_len(s.drop_last());
            lemma_entries_map_dom(s.drop_last());
            assert(!entries_map(s.drop_last()).dom().contains(s.last().0@)) by {
                if entries_map(s.drop_last()).dom().contains(s.last().0@) {
                    let j = choose|j: int|
                        0 <= j < s.drop_last().len() && s.drop_last()[j].0@ == s.last().0@;
                    assert(s[j].0@ == s[s.len() - 1].0@);
                }
            }
        }
    }

    /// An empty table.
    pub fn new() -> (r: Self)
        ensures
            r.wf(),
            r.view() == Map::<Seq<char>, Seq<char>>::empty(),
            r.spec_len() == 0,
    {
        let r = HeaderMap { entries: Vec::new() };
        assert(r.view() =~= Map::<Seq<char>, Seq<char>>::empty());
        r
    }

    /// Sets the value of `name`, replacing an earlier value of the same name.
    pub fn insert(&mut self, name: String, value: String)
        ensures
            final(self).wf(),
            final(self).view() == old(self).view().insert(name@, value@),
    {
        proof {
            use_type_invariant(&*self);
        }
        let mut entries: Vec<(String, String)> = Vec::new();
        std::mem::swap(&mut entries, &mut self.entries);
        let ghost s = entries@;
        match position_in(&entries, &name) {
            Some(i) => {
                let ghost e = (name, value);
                proof { lemma_entries_map_update(s, i as int, e); }
                entries.set(i, (name, value));
                assert(entries@ == s.update(i as int, e));
            },
            None => {
                proof { lemma_entries_map_dom(s); }
                entries.push((name, value));
                assert(entries@.drop_last() =~= s);
                assert forall|i: int, j: int|
                    0 <= i < j < entries@.len() implies entries@[i].0@ != entries@[j].0@ by {
                    if j == entries@.len() - 1 {
                        assert(s[i].0@ != name@) by {
                            if s[i].0@ == name@ {
                                assert(entries_map(s).dom().contains(name@));
                            }
                        }
                    }
                }
            },
        }
        self.entries = entries;
    }

    /// The value held for `name`.
    pub fn get(&self, name: &str) -> (r: Option<&String>)
        ensures
            match r {
                Some(v) => self.view().contains_key(name@) && v@ == self.view()[name@],
                None => !self.view().contains_key(name@),
            },
    {
        proof {
            use_type_invariant(self);
        }
        let key = name.to_owned();
        match position_in(&self.entries, &key) {
            Some(i) => {
                proof { lemma_entries_map_value(self.entries@, i as int); }
                Some(&self.entries[i].1)
            },
            None => None,
        }
    }

    /// True when `name` is held.
    pub fn contains_key(&self, name: &str) -> (r: bool)
        ensures
            r == self.view().contains_key(name@),
    {
        self.get(name).is_some()
    }

    /// Number of names held.
    pub fn len(&self) -> (r: usize)
        ensures
            r == self.view().dom().len(),
    {
        proof {
            use_type_invariant(self);
            self.lemma_wf_len();
        }
        self.entries.len()
    }

    /// True when no name is held.
    pub fn is_empty(&self) -> (r: bool)
        ensures
            r <==> self.view() == Map::<Seq<char>, Seq<char>>::empty(),
    {
        proof {
            use_type_invariant(self);
            self.lemma_wf_len();
        }
        self.entries.len() == 0
    }

    /// The `i`-th name and value, in insertion order of first appearance.
    pub fn entry_at(&self, i: usize) -> (r: (&String, &String))
        requires
            i < self.spec_len(),
        ensures
            self.view().contains_key(r.0@),
            self.view()[r.0@] == r.1@,
    {
        proof {
            use_type_invariant(self);
            lemma_entries_map_value(self.entries@, i as int);
        }
        (&self.entries[i].0, &self.entries[i].1)
    }
}

} // verus!
