//! A string-keyed mapping stored as a vector of key/value pairs.
//!
//! The checksum configuration's two tables are mappings from names to string
//! values. `StringMap` holds such a mapping with each key occurring at most
//! once, and is viewed as a mathematical `Map<Seq<char>, Seq<char>>`.

use vstd::prelude::*;

verus! {

/// The mathematical contents of a sequence of key/value pairs; when a key
/// occurs more than once, the later pair wins.
pub open spec fn pairs_map(s: Seq<(String, String)>) -> Map<Seq<char>, Seq<char>>
    decreases s.len(),
{
    if s.len() == 0 {
        Map::empty()
    } else {
        pairs_map(s.drop_last()).insert(s.last().0@, s.last().1@)
    }
}

/// No two pairs of the sequence share a key.
pub open spec fn pairs_unique(s: Seq<(String, String)>) -> bool {
    forall|i: int, j: int| 0 <= i < j < s.len() ==> s[i].0@ != s[j].0@
}

/// A key is in the contents exactly when some pair carries it.
pub proof fn lemma_pairs_map_contains(s: Seq<(String, String)>, k: Seq<char>)
    ensures
        pairs_map(s).dom().contains(k) <==> (exists|i: int| 0 <= i < s.len() && s[i].0@ == k),
    decreases s.len(),
{
    if s.len() > 0 {
        lemma_pairs_map_contains(s.drop_last(), k);
        if s.last().0@ == k {
            assert(s[s.len() - 1].0@ == k);
        } else {
            if exists|i: int| 0 <= i < s.len() && s[i].0@ == k {
                let i = choose|i: int| 0 <= i < s.len() && s[i].0@ == k;
                assert(s.drop_last()[i].0@ == k);
            }
        }
    }
}

/// Under unique keys, each pair's key maps to that pair's value.
pub proof fn lemma_pairs_map_get(s: Seq<(String, String)>, i: int)
    requires
        pairs_unique(s),
        0 <= i < s.len(),
    ensures
        pairs_map(s).dom().contains(s[i].0@),
        pairs_map(s)[s[i].0@] == s[i].1@,
    decreases s.len(),
{
    if i < s.len() - 1 {
        lemma_pairs_map_get(s.drop_last(), i);
        assert(s.drop_last()[i] == s[i]);
        assert(s.last().0@ != s[i].0@);
    }
}

/// Removing a pair removes exactly its key from the contents.
pub proof fn lemma_pairs_map_remove(s: Seq<(String, String)>, i: int)
    requires
        pairs_unique(s),
        0 <= i < s.len(),
    ensures
        pairs_map(s.remove(i)) == pairs_map(s).remove(s[i].0@),
    decreases s.len(),
{
    if i == s.len() - 1 {
        assert(s.remove(i) =~= s.drop_last());
        lemma_pairs_map_contains(s.drop_last(), s[i].0@);
        assert(forall|j: int|
            0 <= j < s.drop_last().len() ==> s.drop_last()[j].0@ != s[i].0@) by {
            assert(forall|j: int| 0 <= j < s.len() - 1 ==> s[j].0@ != s[i].0@);
        }
        assert(!pairs_map(s.drop_last()).dom().contains(s[i].0@));
        assert(pairs_map(s).remove(s[i].0@) =~= pairs_map(s.drop_last()));
    } else {
        let t = s.remove(i);
        assert(t.drop_last() =~= s.drop_last().remove(i));
        assert(t.last() == s.last());
        assert(pairs_unique(s.drop_last()));
        lemma_pairs_map_remove(s.drop_last(), i);
        assert(s.drop_last()[i] == s[i]);
        assert(s.last().0@ != s[i].0@);
        assert(pairs_map(t) =~= pairs_map(s).remove(s[i].0@));
    }
}

/// Under unique keys, the contents hold exactly one entry per pair.
pub proof fn lemma_pairs_map_len(s: Seq<(String, String)>)
    requires
        pairs_unique(s),
    ensures
        pairs_map(s).dom().finite(),
        pairs_map(s).dom().len() == s.len(),
    decreases s.len(),
{
    if s.len() > 0 {
        lemma_pairs_map_len(s.drop_last());
        lemma_pairs_map_contains(s.drop_last(), s.last().0@);
        assert(forall|j: int|
            0 <= j < s.drop_last().len() ==> s.drop_last()[j].0@ != s.last().0@) by {
            assert(forall|j: int| 0 <= j < s.len() - 1 ==> (#[trigger] s[j]).0@ != s[s.len() - 1].0@);
        }
        assert(!pairs_map(s.drop_last()).dom().contains(s.last().0@));
    }
}

/// Removing a pair keeps the remaining keys unique.
pub proof fn lemma_pairs_unique_remove(s: Seq<(String, String)>, i: int)
    requires
        pairs_unique(s),
        0 <= i < s.len(),
    ensures
        pairs_unique(s.remove(i)),
{
    let t = s.remove(i);
    assert forall|p: int, q: int| 0 <= p < q < t.len() implies t[p].0@ != t[q].0@ by {
        let sp = if p < i { p } else { p + 1 };
        let sq = if q < i { q } else { q + 1 };
        assert(t[p] == s[sp]);
        assert(t[q] == s[sq]);
    }
}

/// A mapping from string keys to string values, with unique keys.
#[derive(Debug)]
pub struct StringMap {
    pairs: Vec<(String, String)>,
}

impl View for StringMap {
    type V = Map<Seq<char>, Seq<char>>;

    closed spec fn view(&self) -> Map<Seq<char>, Seq<char>> {
        pairs_map(self.pairs@)
    }
}

impl StringMap {
    /// Each key occurs in at most one pair.
    pub closed spec fn wf(&self) -> bool {
        pairs_unique(self.pairs@)
    }

    /// An empty mapping.
    pub fn new() -> (r: StringMap)
        ensures
            r.wf(),
            r@ == Map::<Seq<char>, Seq<char>>::empty(),
    {
        StringMap { pairs: Vec::new() }
    }

    /// The mapping holding the given pairs.
    pub fn from_pairs(pairs: Vec<(String, String)>) -> (r: StringMap)
        requires
            pairs_unique(pairs@),
        ensures
            r.wf(),
            r@ == pairs_map(pairs@),
    {
        StringMap { pairs }
    }

    /// The pairs that make up the mapping.
    pub(crate) fn borrow_pairs(&self) -> (r: &Vec<(String, String)>)
        ensures
            pairs_map(r@) == self@,
            self.wf() ==> pairs_unique(r@),
    {
        &self.pairs
    }

    /// Whether the mapping holds no entry at all.
    pub fn is_empty(&self) -> (r: bool)
        requires
            self.wf(),
        ensures
            r <==> self@ == Map::<Seq<char>, Seq<char>>::empty(),
    {
        let r = self.pairs.len() == 0;
        proof {
            if self.pairs@.len() > 0 {
                lemma_pairs_map_get(self.pairs@, 0);
                assert(self@.dom().contains(self.pairs@[0].0@));
            } else {
                assert(self@ =~= Map::<Seq<char>, Seq<char>>::empty());
            }
        }
        r
    }

    /// The number of entries.
    pub fn len(&self) -> (n: usize)
        requires
            self.wf(),
        ensures
            n == self@.dom().len(),
    {
        proof {
            lemma_pairs_map_len(self.pairs@);
        }
        self.pairs.len()
    }

    /// Whether the mapping holds an entry under the given key.
    pub fn contains_key(&self, key: &String) -> (r: bool)
        requires
            self.wf(),
        ensures
            r == self@.dom().contains(key@),
    {
        match self.get(key) {
            Some(_) => true,
            None => false,
        }
    }

    /// The value stored under the given key, if any.
    pub fn get<'a>(&'a self, key: &String) -> (r: Option<&'a String>)
        requires
            self.wf(),
        ensures
            match r {
                Some(v) => self@.dom().contains(key@) && v@ == self@[key@],
                None => !self@.dom().contains(key@),
            },
    {
        let n = self.pairs.len();
        let mut i: usize = 0;
        while i < n
            invariant
                n == self.pairs@.len(),
                i <= n,
                self.wf(),
                forall|j: int| 0 <= j < i ==> self.pairs@[j].0@ != key@,
            decreases n - i,
        {
            if self.pairs[i].0 == *key {
                proof {
                    lemma_pairs_map_get(self.pairs@, i as int);
                }
                return Some(&self.pairs[i].1);
            }
            i += 1;
        }
        proof {
            lemma_pairs_map_contains(self.pairs@, key@);
        }
        None
    }

    /// Remove the entry under the given key; without one, the mapping is
    /// left as it was.
    pub fn remove(&mut self, key: &String)
        requires
            old(self).wf(),
        ensures
            final(self).wf(),
            final(self)@ == old(self)@.remove(key@),
    {
        let n = self.pairs.len();
        let mut i: usize = 0;
        while i < n
            invariant
                n == self.pairs@.len(),
                i <= n,
                self == old(self),
                self.wf(),
                forall|j: int| 0 <= j < i ==> self.pairs@[j].0@ != key@,
            decreases n - i,
        {
            if self.pairs[i].0 == *key {
                proof {
                    lemma_pairs_map_remove(self.pairs@, i as int);
                    lemma_pairs_unique_remove(self.pairs@, i as int);
                }
                self.pairs.remove(i);
                return ;
            }
            i += 1;
        }
        proof {
            lemma_pairs_map_contains(self.pairs@, key@);
            assert(self@ =~= self@.remove(key@));
        }
    }
}

} // verus!
