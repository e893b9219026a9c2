//! The route table: a mapping from request targets to content locators.
//!
//! Keys are unique and order carries no meaning, so the table is specified
//! as a `Map` from target to locator. Registering a path that is already
//! present silently overwrites its locator.

use vstd::prelude::*;

verus! {

/// No two entries share a key.
spec fn unique_keys(s: Seq<(String, String)>) -> bool {
    forall|i: int, j: int| 0 <= i < j < s.len() ==> s[i].0@ != s[j].0@
}

/// The mapping a sequence of entries denotes, later entries winning.
spec fn map_of(s: Seq<(String, String)>) -> Map<Seq<char>, Seq<char>>
    decreases s.len(),
{
    if s.len() == 0 {
        Map::empty()
    } else {
        map_of(s.drop_last()).insert(s.last().0@, s.last().1@)
    }
}

proof fn lemma_map_of_contains(s: Seq<(String, String)>, k: Seq<char>)
    ensures
        map_of(s).contains_key(k) <==> exists|i: int| 0 <= i < s.len() && s[i].0@ == k,
    decreases s.len(),
{
    if s.len() > 0 {
        lemma_map_of_contains(s.drop_last(), k);
        if s.last().0@ == k {
            assert(s[s.len() - 1].0@ == k);
        } else if map_of(s).contains_key(k) {
            let i = choose|i: int| 0 <= i < s.drop_last().len() && s.drop_last()[i].0@ == k;
            assert(s[i].0@ == k);
        } else if exists|i: int| 0 <= i < s.len() && s[i].0@ == k {
            let i = choose|i: int| 0 <= i < s.len() && s[i].0@ == k;
            assert(s.drop_last()[i].0@ == k);
        }
    }
}

proof fn lemma_map_of_value(s: Seq<(String, String)>, i: int)
    requires
        unique_keys(s),
        0 <= i < s.len(),
    ensures
        map_of(s).contains_key(s[i].0@),
        map_of(s)[s[i].0@] == s[i].1@,
    decreases s.len(),
{
    if i < s.len() - 1 {
        assert(unique_keys(s.drop_last()));
        lemma_map_of_value(s.drop_last(), i);
        assert(s.last().0@ != s[i].0@);
    }
}

proof fn lemma_map_of_update(s: Seq<(String, String)>, i: int, p: String, l: String)
    requires
        unique_keys(s),
        0 <= i < s.len(),
        s[i].0@ == p@,
    ensures
        map_of(s.update(i, (p, l))) == map_of(s).insert(p@, l@),
    decreases s.len(),
{
    let t = s.update(i, (p, l));
    if i == s.len() - 1 {
        assert(t.drop_last() =~= s.drop_last());
        assert(map_of(t) =~= map_of(s).insert(p@, l@));
    } else {
        assert(t.drop_last() =~= s.drop_last().update(i, (p, l)));
        assert(unique_keys(s.drop_last()));
        lemma_map_of_update(s.drop_last(), i, p, l);
        assert(s.last().0@ != s[i].0@);
        assert(map_of(t) =~= map_of(s).insert(p@, l@));
    }
}

/// A table of routes: request targets mapped to content locators.
#[derive(Debug)]
pub struct RouteTable {
    entries: Vec<(String, String)>,
}

impl View for RouteTable {
    type V = Map<Seq<char>, Seq<char>>;

    closed spec fn view(&self) -> Map<Seq<char>, Seq<char>> {
        map_of(self.entries@)
    }
}

impl RouteTable {
    #[verifier::type_invariant]
    spec fn inv(self) -> bool {
        unique_keys(self.entries@)
    }

    /// An empty table.
    pub fn new() -> (r: RouteTable)
        ensures
            r@ == Map::<Seq<char>, Seq<char>>::empty(),
    {
        RouteTable { entries: Vec::new() }
    }

    /// The position of the entry for `path`, if the table has one.
    fn find_index(&self, path: &String) -> (r: Option<usize>)
        ensures
            match r {
                Some(i) => i < self.entries@.len() && self.entries@[i as int].0@ == path@,
                None => forall|j: int|
                    0 <= j < self.entries@.len() ==> self.entries@[j].0@ != path@,
            },
    {
        let mut i: usize = 0;
        while i < self.entries.len()
            invariant
                i <= self.entries@.len(),
                forall|j: int| 0 <= j < i ==> self.entries@[j].0@ != path@,
            decreases self.entries@.len() - i,
        {
            if self.entries[i].0.eq(path) {
                return Some(i);
            }
            i = i + 1;
        }
        None
    }

    /// Maps `path` to `locator`, silently replacing any locator the path
    /// already had.
    pub fn register(&mut self, path: String, locator: String)
        ensures
            final(self)@ == old(self)@.insert(path@, locator@),
    {
        proof {
            use_type_invariant(&*self);
        }
        match self.find_index(&path) {
            Some(i) => {
                let mut entries: Vec<(String, String)> = Vec::new();
                core::mem::swap(&mut self.entries, &mut entries);
                entries[i] = (path, locator);
                proof {
                    let updated = old(self).entries@.update(i as int, (path, locator));
                    assert forall|a: int, b: int| 0 <= a < b < updated.len() implies updated[a].0@
                        != updated[b].0@ by {
                        assert(old(self).entries@[a].0@ != old(self).entries@[b].0@);
                    }
                    assert(unique_keys(updated));
                }
                core::mem::swap(&mut self.entries, &mut entries);
                proof {
                    lemma_map_of_update(old(self).entries@, i as int, path, locator);
                }
            },
            None => {
                let mut entries: Vec<(String, String)> = Vec::new();
                core::mem::swap(&mut self.entries, &mut entries);
                entries.push((path, locator));
                core::mem::swap(&mut self.entries, &mut entries);
                proof {
                    assert(self.entries@.drop_last() =~= old(self).entries@);
                }
            },
        }
    }

    /// The locator mapped to `path`, if the table has one.
    pub fn lookup(&self, path: &String) -> (r: Option<&String>)
        ensures
            match r {
                Some(locator) => self@.contains_key(path@) && locator@ == self@[path@],
                None => !self@.contains_key(path@),
            },
    {
        proof {
            use_type_invariant(&*self);
        }
        match self.find_index(path) {
            Some(i) => {
                proof {
                    lemma_map_of_value(self.entries@, i as int);
                }
                Some(&self.entries[i].1)
            },
            None => {
                proof {
                    lemma_map_of_contains(self.entries@, path@);
                }
                None
            },
        }
    }

    /// An independent copy of the table, mapping the same targets to the
    /// same locators: the immutable snapshot a starting session takes.
    pub fn snapshot(&self) -> (r: RouteTable)
        ensures
            r@ == self@,
    {
        proof {
            use_type_invariant(&*self);
        }
        let mut entries: Vec<(String, String)> = Vec::new();
        let mut i: usize = 0;
        while i < self.entries.len()
            invariant
                i <= self.entries@.len(),
                entries@ == self.entries@.subrange(0, i as int),
            decreases self.entries@.len() - i,
        {
            let pair = &self.entries[i];
            entries.push((pair.0.clone(), pair.1.clone()));
            assert(entries@ =~= self.entries@.subrange(0, i as int + 1));
            i = i + 1;
        }
        assert(entries@ =~= self.entries@);
        RouteTable { entries }
    }
}

} // verus!
