//! Key/value context shared across a pipeline run: an ordered map from
//! string keys to string values with insertion-order semantics.

use vstd::prelude::*;

verus! {

/// Abstraction of a pair list as a map from key view to value view;
/// later pairs win over earlier ones.
pub open spec fn map_of_pairs(s: Seq<(String, String)>) -> Map<Seq<char>, Seq<char>>
    decreases s.len(),
{
    if s.len() == 0 {
        Map::empty()
    } else {
        map_of_pairs(s.drop_last()).insert(s.last().0@, s.last().1@)
    }
}

/// Key/value context shared across a pipeline run.
///
/// Keys are unique; insertion of a present key overwrites its value in
/// place, so iteration order is the order of first insertion.
#[derive(Debug, Clone)]
pub struct RunContext {
    pairs: Vec<(String, String)>,
}

impl RunContext {
    /// The underlying sequence of key/value pairs, in iteration order.
    pub closed spec fn kvs(&self) -> Seq<(String, String)> {
        self.pairs@
    }

    /// Well-formed: no key occurs twice.
    pub open spec fn wf(&self) -> bool {
        forall|i: int, j: int|
            0 <= i < j < self.kvs().len() ==> self.kvs()[i].0@ != self.kvs()[j].0@
    }

    /// The context seen as a map from key to value.
    pub open spec fn as_map(&self) -> Map<Seq<char>, Seq<char>> {
        map_of_pairs(self.kvs())
    }

    /// The empty context.
    pub fn new() -> (r: RunContext)
        ensures
            r.wf(),
            r.as_map() == Map::<Seq<char>, Seq<char>>::empty(),
            r.kvs().len() == 0,
    {
        RunContext { pairs: Vec::new() }
    }

    /// How many keys the context holds.
    pub fn len(&self) -> (r: usize)
        ensures
            r == self.kvs().len(),
    {
        self.pairs.len()
    }

    /// True when the context holds no keys.
    pub fn is_empty(&self) -> (r: bool)
        ensures
            r == (self.kvs().len() == 0),
    {
        self.pairs.len() == 0
    }

    /// The pair at iteration position `i`, as owned strings.
    pub fn pair_at(&self, i: usize) -> (r: (String, String))
        requires
            i < self.kvs().len(),
        ensures
            r.0@ == self.kvs()[i as int].0@,
            r.1@ == self.kvs()[i as int].1@,
    {
        let p = &self.pairs[i];
        (p.0.clone(), p.1.clone())
    }

    /// Looks a key up.
    pub fn get(&self, key: &str) -> (r: Option<&String>)
        requires
            self.wf(),
        ensures
            match r {
                Some(v) => self.as_map().contains_key(key@) && v@ == self.as_map()[key@],
                None => !self.as_map().contains_key(key@),
            },
    {
        let n = self.pairs.len();
        let mut i: usize = 0;
        while i < n
            invariant
                self.wf(),
                n == self.kvs().len(),
                i <= n,
                forall|j: int| 0 <= j < i ==> self.kvs()[j].0@ != key@,
            decreases n - i,
        {
            if crate::strutil::str_eq(self.pairs[i].0.as_str(), key) {
                proof {
                    lemma_map_of_pairs_get(self.kvs(), i as int);
                }
                return Some(&self.pairs[i].1);
            }
            i = i + 1;
        }
        proof {
            lemma_map_of_pairs_absent(self.kvs(), key@);
        }
        None
    }

    /// True when the key is present.
    pub fn contains_key(&self, key: &str) -> (r: bool)
        requires
            self.wf(),
        ensures
            r == self.as_map().contains_key(key@),
    {
        match self.get(key) {
            Some(_) => true,
            None => false,
        }
    }

    /// Inserts a key/value pair; a present key keeps its position and
    /// takes the new value.
    pub fn insert(&mut self, key: String, value: String)
        requires
            old(self).wf(),
        ensures
            final(self).wf(),
            final(self).as_map() == old(self).as_map().insert(key@, value@),
            final(self).kvs().len() <= old(self).kvs().len() + 1,
    {
        let n = self.pairs.len();
        let mut i: usize = 0;
        while i < n
            invariant
                *self == *old(self),
                self.wf(),
                n == self.kvs().len(),
                i <= n,
                forall|j: int| 0 <= j < i ==> self.kvs()[j].0@ != key@,
            decreases n - i,
        {
            if crate::strutil::str_eq(self.pairs[i].0.as_str(), key.as_str()) {
                let ghost oldkvs = self.kvs();
                self.pairs.set(i, (key, value));
                proof {
                    lemma_map_of_pairs_set(oldkvs, self.kvs(), i as int);
                }
                return;
            }
            i = i + 1;
        }
        let ghost oldkvs = self.kvs();
        self.pairs.push((key, value));
        proof {
            assert(self.kvs().drop_last() =~= oldkvs);
        }
    }

    /// Inserts every pair of `updates`, in order; the result is this
    /// map overridden by the update map.
    pub fn merge_from(&mut self, updates: &RunContext)
        requires
            old(self).wf(),
            updates.wf(),
        ensures
            final(self).wf(),
            final(self).as_map() == old(self).as_map().union_prefer_right(updates.as_map()),
    {
        let n = updates.len();
        let mut i: usize = 0;
        while i < n
            invariant
                self.wf(),
                updates.wf(),
                n == updates.kvs().len(),
                i <= n,
                self.as_map() == spec_merge(old(self).as_map(), updates.kvs().take(i as int)),
            decreases n - i,
        {
            let (k, v) = updates.pair_at(i);
            proof {
                assert(updates.kvs().take(i + 1).drop_last() =~= updates.kvs().take(i as int));
            }
            self.insert(k, v);
            i = i + 1;
        }
        proof {
            assert(updates.kvs().take(n as int) =~= updates.kvs());
            lemma_merge_is_union(old(self).as_map(), updates.kvs());
        }
    }

    /// An independent copy with the same pairs.
    pub fn duplicate(&self) -> (r: RunContext)
        ensures
            r.kvs().len() == self.kvs().len(),
            forall|i: int|
                0 <= i < self.kvs().len() ==> r.kvs()[i].0@ == self.kvs()[i].0@
                    && r.kvs()[i].1@ == self.kvs()[i].1@,
            r.as_map() == self.as_map(),
            self.wf() ==> r.wf(),
    {
        let n = self.pairs.len();
        let mut pairs: Vec<(String, String)> = Vec::new();
        let mut i: usize = 0;
        while i < n
            invariant
                n == self.kvs().len(),
                i <= n,
                pairs@.len() == i,
                forall|j: int|
                    0 <= j < i ==> pairs@[j].0@ == self.kvs()[j].0@ && pairs@[j].1@
                        == self.kvs()[j].1@,
            decreases n - i,
        {
            let p = &self.pairs[i];
            pairs.push((p.0.clone(), p.1.clone()));
            i = i + 1;
        }
        let r = RunContext { pairs };
        proof {
            lemma_map_of_pairs_congruence(r.kvs(), self.kvs());
        }
        r
    }
}

/// A base map with a pair list folded in by successive insertion.
pub open spec fn spec_merge(
    base: Map<Seq<char>, Seq<char>>,
    pairs: Seq<(String, String)>,
) -> Map<Seq<char>, Seq<char>>
    decreases pairs.len(),
{
    if pairs.len() == 0 {
        base
    } else {
        spec_merge(base, pairs.drop_last()).insert(pairs.last().0@, pairs.last().1@)
    }
}

/// Folding a unique-key pair list into a base map is overriding the
/// base with the list's abstraction.
pub proof fn lemma_merge_is_union(base: Map<Seq<char>, Seq<char>>, pairs: Seq<(String, String)>)
    ensures
        spec_merge(base, pairs) == base.union_prefer_right(map_of_pairs(pairs)),
    decreases pairs.len(),
{
    if pairs.len() == 0 {
        assert(spec_merge(base, pairs) =~= base.union_prefer_right(map_of_pairs(pairs)));
    } else {
        lemma_merge_is_union(base, pairs.drop_last());
        assert(spec_merge(base, pairs) =~= base.union_prefer_right(map_of_pairs(pairs)));
    }
}

/// A key that appears in no pair is not in the abstraction.
proof fn lemma_map_of_pairs_absent(s: Seq<(String, String)>, key: Seq<char>)
    requires
        forall|j: int| 0 <= j < s.len() ==> s[j].0@ != key,
    ensures
        !map_of_pairs(s).contains_key(key),
    decreases s.len(),
{
    if s.len() > 0 {
        lemma_map_of_pairs_absent(s.drop_last(), key);
    }
}

/// If keys are unique, the abstraction maps pair `i`'s key to its value.
proof fn lemma_map_of_pairs_get(s: Seq<(String, String)>, i: int)
    requires
        0 <= i < s.len(),
        forall|p: int, q: int| 0 <= p < q < s.len() ==> s[p].0@ != s[q].0@,
    ensures
        map_of_pairs(s).contains_key(s[i].0@),
        map_of_pairs(s)[s[i].0@] == s[i].1@,
    decreases s.len(),
{
    if i == s.len() - 1 {
    } else {
        lemma_map_of_pairs_get(s.drop_last(), i);
    }
}

/// Overwriting pair `i`'s value updates the abstraction at its key.
proof fn lemma_map_of_pairs_set(s1: Seq<(String, String)>, s2: Seq<(String, String)>, i: int)
    requires
        0 <= i < s1.len(),
        s2.len() == s1.len(),
        forall|j: int| 0 <= j < s1.len() && j != i ==> s2[j] == s1[j],
        s2[i].0@ == s1[i].0@,
        forall|p: int, q: int| 0 <= p < q < s1.len() ==> s1[p].0@ != s1[q].0@,
    ensures
        map_of_pairs(s2) == map_of_pairs(s1).insert(s2[i].0@, s2[i].1@),
    decreases s1.len(),
{
    if s1.len() > 0 {
        if i == s1.len() - 1 {
            assert(s2.drop_last() =~= s1.drop_last());
            assert(map_of_pairs(s2) =~= map_of_pairs(s1).insert(s2[i].0@, s2[i].1@));
        } else {
            lemma_map_of_pairs_set(s1.drop_last(), s2.drop_last(), i);
            assert(s2.last() == s1.last());
            assert(s1[i].0@ != s1.last().0@);
            assert(map_of_pairs(s2) =~= map_of_pairs(s1).insert(s2[i].0@, s2[i].1@));
        }
    }
}

/// Pairwise view-equal pair lists have equal abstractions.
proof fn lemma_map_of_pairs_congruence(a: Seq<(String, String)>, b: Seq<(String, String)>)
    requires
        a.len() == b.len(),
        forall|i: int| 0 <= i < a.len() ==> a[i].0@ == b[i].0@ && a[i].1@ == b[i].1@,
    ensures
        map_of_pairs(a) == map_of_pairs(b),
    decreases a.len(),
{
    if a.len() > 0 {
        lemma_map_of_pairs_congruence(a.drop_last(), b.drop_last());
        assert(map_of_pairs(a) =~= map_of_pairs(b));
    }
}

} // verus!
