//! Request headers: a map from header name to value in which a later insert
//! under the same name replaces the earlier value.

use vstd::prelude::*;

verus! {

/// The map that a list of `(name, value)` pairs denotes, later pairs winning.
pub open spec fn pairs_map(s: Seq<(String, String)>) -> Map<Seq<char>, Seq<char>>
    decreases s.len(),
{
    if s.len() == 0 {
        Map::empty()
    } else {
        pairs_map(s.drop_last()).insert(s.last().0@, s.last().1@)
    }
}

/// No name occurs twice.
pub open spec fn distinct_names(s: Seq<(String, String)>) -> bool {
    forall|i: int, j: int| 0 <= i < j < s.len() ==> s[i].0@ != s[j].0@
}

proof fn lemma_pairs_map_lookup(s: Seq<(String, String)>, i: int)
    requires
        distinct_names(s),
        0 <= i < s.len(),
    ensures
        pairs_map(s).contains_key(s[i].0@),
        pairs_map(s)[s[i].0@] == s[i].1@,
    decreases s.len(),
{
    if i < s.len() - 1 {
        let d = s.drop_last();
        assert(distinct_names(d)) by {
            assert forall|a: int, b: int| 0 <= a < b < d.len() implies d[a].0@ != d[b].0@ by {
                assert(s[a].0@ != s[b].0@);
            }
        }
        assert(d[i] == s[i]);
        lemma_pairs_map_lookup(d, i);
        assert(s[i].0@ != s[s.len() - 1].0@);
    }
}

proof fn lemma_pairs_map_absent(s: Seq<(String, String)>, k: Seq<char>)
    requires
        forall|i: int| 0 <= i < s.len() ==> #[trigger] s[i].0@ != k,
    ensures
        !pairs_map(s).contains_key(k),
    decreases s.len(),
{
    if s.len() > 0 {
        let d = s.drop_last();
        assert forall|i: int| 0 <= i < d.len() implies #[trigger] d[i].0@ != k by {
            assert(d[i] == s[i]);
        }
        lemma_pairs_map_absent(d, k);
        assert(s[s.len() - 1].0@ != k);
    }
}

proof fn lemma_pairs_map_update(s: Seq<(String, String)>, i: int, p: (String, String))
    requires
        distinct_names(s),
        0 <= i < s.len(),
        s[i].0@ == p.0@,
    ensures
        pairs_map(s.update(i, p)) =~= pairs_map(s).insert(p.0@, p.1@),
    decreases s.len(),
{
    let t = s.update(i, p);
    let d = s.drop_last();
    if i == s.len() - 1 {
        assert(t.drop_last() =~= d);
    } else {
        assert(t.drop_last() =~= d.update(i, p));
        assert(distinct_names(d)) by {
            assert forall|a: int, b: int| 0 <= a < b < d.len() implies d[a].0@ != d[b].0@ by {
                assert(s[a].0@ != s[b].0@);
            }
        }
        lemma_pairs_map_update(d, i, p);
        assert(s[i].0@ != s[s.len() - 1].0@);
        assert(t.last() == s.last());
    }
}

/// Header names and values, each name at most once.
#[derive(Debug)]
pub struct Headers {
    entries: Vec<(String, String)>,
}

impl View for Headers {
    type V = Map<Seq<char>, Seq<char>>;

    closed spec fn view(&self) -> Map<Seq<char>, Seq<char>> {
        pairs_map(self.entries@)
    }
}

impl Clone for Headers {
    fn clone(&self) -> (c: Self)
        ensures
            c@ == self@,
    {
        proof {
            use_type_invariant(self);
        }
        let mut entries: Vec<(String, String)> = Vec::new();
        let mut i: usize = 0;
        while i < self.entries.len()
            invariant
                i <= self.entries@.len(),
                entries@ == self.entries@.take(i as int),
            decreases self.entries@.len() - i,
        {
            let name = self.entries[i].0.clone();
            let value = self.entries[i].1.clone();
            proof {
                assert(name == self.entries@[i as int].0);
                assert(value == self.entries@[i as int].1);
                assert((name, value) == self.entries@[i as int]);
            }
            entries.push((name, value));
            assert(entries@ =~= self.entries@.take(i + 1));
            i = i + 1;
        }
        assert(entries@ =~= self.entries@);
        Headers { entries }
    }
}

impl Headers {
    /// Each name occurs once.
    #[verifier::type_invariant]
    closed spec fn names_distinct(&self) -> bool {
        distinct_names(self.entries@)
    }

    /// No headers.
    pub fn new() -> (h: Self)
        ensures
            h@ == Map::<Seq<char>, Seq<char>>::empty(),
    {
        Headers { entries: Vec::new() }
    }

    fn position(&self, name: &String) -> (r: Option<usize>)
        ensures
            match r {
                Some(i) => i < self.entries@.len() && self.entries@[i as int].0@ == name@,
                None => forall|i: int|
                    0 <= i < self.entries@.len() ==> #[trigger] self.entries@[i].0@ != name@,
            },
    {
        let mut i: usize = 0;
        while i < self.entries.len()
            invariant
                i <= self.entries@.len(),
                forall|j: int| 0 <= j < i ==> #[trigger] self.entries@[j].0@ != name@,
            decreases self.entries@.len() - i,
        {
            if self.entries[i].0 == *name {
                return Some(i);
            }
            i = i + 1;
        }
        None
    }

    /// Sets `name` to `value`, replacing any value it had.
    pub fn insert(&mut self, name: String, value: String)
        ensures
            final(self)@ == old(self)@.insert(name@, value@),
    {
        proof {
            use_type_invariant(&*self);
        }
        let position = self.position(&name);
        let mut entries: Vec<(String, String)> = Vec::new();
        std::mem::swap(&mut entries, &mut self.entries);
        let ghost before = entries@;
        match position {
            Some(i) => {
                proof {
                    lemma_pairs_map_update(entries@, i as int, (name, value));
                }
                entries.set(i, (name, value));
                assert(distinct_names(entries@)) by {
                    assert forall|a: int, b: int|
                        0 <= a < b < entries@.len() implies entries@[a].0@ != entries@[b].0@ by {
                        assert(before[a].0@ == entries@[a].0@);
                        assert(before[b].0@ == entries@[b].0@);
                    }
                }
            },
            None => {
                entries.push((name, value));
                assert(entries@.drop_last() =~= before);
            },
        }
        self.entries = entries;
    }

    /// The value of `name`, if it is set.
    pub fn get(&self, name: &str) -> (r: Option<&String>)
        ensures
            r is Some == self@.contains_key(name@),
            r matches Some(v) ==> v@ == self@[name@],
    {
        proof {
            use_type_invariant(self);
        }
        let key = String::from_str(name);
        match self.position(&key) {
            Some(i) => {
                proof {
                    lemma_pairs_map_lookup(self.entries@, i as int);
                }
                Some(&self.entries[i].1)
            },
            None => {
                proof {
                    lemma_pairs_map_absent(self.entries@, name@);
                }
                None
            },
        }
    }

    /// The headers as `(name, value)` pairs, each name once.
    pub fn pairs(&self) -> (p: &Vec<(String, String)>)
        ensures
            distinct_names(p@),
            pairs_map(p@) == self@,
    {
        proof {
            use_type_invariant(self);
        }
        &self.entries
    }
}

} // verus!
