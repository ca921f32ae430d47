//! Tags: a mapping from tag names to tag values in which every name occurs once.

use vstd::prelude::*;
use crate::text::same_text;

verus! {

/// The mapping that a sequence of name-value pairs stands for; of two pairs
/// with one name the later counts.
pub open spec fn pairs_map(e: Seq<(String, String)>) -> Map<Seq<char>, Seq<char>>
    decreases e.len(),
{
    if e.len() == 0 {
        Map::<Seq<char>, Seq<char>>::empty()
    } else {
        pairs_map(e.drop_last()).insert(e.last().0@, e.last().1@)
    }
}

/// No name occurs in two pairs.
pub open spec fn distinct_keys(e: Seq<(String, String)>) -> bool {
    forall|i: int, j: int| 0 <= i < j < e.len() ==> e[i].0@ != e[j].0@
}

/// The names of a mapping are the names of its pairs.
pub proof fn lemma_pairs_map_dom(e: Seq<(String, String)>, k: Seq<char>)
    ensures
        pairs_map(e).contains_key(k) <==> exists|i: int| 0 <= i < e.len() && #[trigger] e[i].0@ == k,
        pairs_map(e).dom().finite(),
    decreases e.len(),
{
    if e.len() > 0 {
        let front = e.drop_last();
        lemma_pairs_map_dom(front, k);
        if pairs_map(e).contains_key(k) {
            if e.last().0@ == k {
                assert(e[e.len() - 1].0@ == k);
            } else {
                let i = choose|i: int| 0 <= i < front.len() && #[trigger] front[i].0@ == k;
                assert(e[i].0@ == k);
            }
        }
        if exists|i: int| 0 <= i < e.len() && #[trigger] e[i].0@ == k {
            let i = choose|i: int| 0 <= i < e.len() && #[trigger] e[i].0@ == k;
            if i < e.len() - 1 {
                assert(front[i].0@ == k);
            }
        }
    }
}

/// Where names are distinct, each pair gives the value of its name.
pub proof fn lemma_pairs_map_index(e: Seq<(String, String)>, i: int)
    requires
        distinct_keys(e),
        0 <= i < e.len(),
    ensures
        pairs_map(e).contains_key(e[i].0@),
        pairs_map(e)[e[i].0@] == e[i].1@,
    decreases e.len(),
{
    if i < e.len() - 1 {
        let front = e.drop_last();
        assert(distinct_keys(front)) by {
            assert forall|a: int, b: int| 0 <= a < b < front.len() implies front[a].0@
                != front[b].0@ by {
                assert(e[a].0@ != e[b].0@);
            }
        }
        lemma_pairs_map_index(front, i);
        assert(e[i].0@ != e[e.len() - 1].0@);
    }
}

/// Where names are distinct, a new value in the place of a pair is an insert
/// into the mapping.
pub proof fn lemma_pairs_map_update(e: Seq<(String, String)>, i: int, kv: (String, String))
    requires
        distinct_keys(e),
        0 <= i < e.len(),
        kv.0@ == e[i].0@,
    ensures
        pairs_map(e.update(i, kv)) == pairs_map(e).insert(kv.0@, kv.1@),
        distinct_keys(e.update(i, kv)),
    decreases e.len(),
{
    let u = e.update(i, kv);
    let front = e.drop_last();
    assert(distinct_keys(u)) by {
        assert forall|a: int, b: int| 0 <= a < b < u.len() implies u[a].0@ != u[b].0@ by {
            assert(e[a].0@ != e[b].0@);
        }
    }
    if i == e.len() - 1 {
        assert(u.drop_last() =~= front);
        assert(pairs_map(u) =~= pairs_map(e).insert(kv.0@, kv.1@));
    } else {
        assert(distinct_keys(front)) by {
            assert forall|a: int, b: int| 0 <= a < b < front.len() implies front[a].0@
                != front[b].0@ by {
                assert(e[a].0@ != e[b].0@);
            }
        }
        lemma_pairs_map_update(front, i, kv);
        assert(u.drop_last() =~= front.update(i, kv));
        assert(u.last() == e.last());
        assert(e[i].0@ != e[e.len() - 1].0@);
        assert(pairs_map(u) =~= pairs_map(e).insert(kv.0@, kv.1@));
    }
}

/// Where names are distinct, the mapping has as many names as there are pairs.
pub proof fn lemma_pairs_map_len(e: Seq<(String, String)>)
    requires
        distinct_keys(e),
    ensures
        pairs_map(e).dom().finite(),
        pairs_map(e).len() == e.len(),
    decreases e.len(),
{
    if e.len() > 0 {
        let front = e.drop_last();
        assert(distinct_keys(front)) by {
            assert forall|a: int, b: int| 0 <= a < b < front.len() implies front[a].0@
                != front[b].0@ by {
                assert(e[a].0@ != e[b].0@);
            }
        }
        lemma_pairs_map_len(front);
        lemma_pairs_map_dom(front, e.last().0@);
        if pairs_map(front).contains_key(e.last().0@) {
            let i = choose|i: int| 0 <= i < front.len() && #[trigger] front[i].0@ == e.last().0@;
            assert(e[i].0@ != e[e.len() - 1].0@);
        }
    }
}

/// A mapping from tag names to tag values.
#[derive(Debug)]
pub struct Tags {
    entries: Vec<(String, String)>,
}

impl View for Tags {
    type V = Map<Seq<char>, Seq<char>>;

    closed spec fn view(&self) -> Map<Seq<char>, Seq<char>> {
        pairs_map(self.entries@)
    }
}

impl Tags {
    #[verifier::type_invariant]
    spec fn distinct(self) -> bool {
        distinct_keys(self.entries@)
    }

    /// The empty mapping.
    pub fn new() -> (r: Tags)
        ensures
            r@ == Map::<Seq<char>, Seq<char>>::empty(),
    {
        Tags { entries: Vec::new() }
    }

    /// The place of the pair with the name `key`.
    fn position(&self, key: &str) -> (r: Option<usize>)
        ensures
            match r {
                Some(i) => i < self.entries.len() && self.entries[i as int].0@ == key@,
                None => forall|i: int| 0 <= i < self.entries.len() ==> self.entries[i].0@ != key@,
            },
    {
        let mut i: usize = 0;
        while i < self.entries.len()
            invariant
                i <= self.entries.len(),
                forall|k: int| 0 <= k < i ==> self.entries[k].0@ != key@,
            decreases self.entries.len() - i,
        {
            if same_text(self.entries[i].0.as_str(), key) {
                return Some(i);
            }
            i += 1;
        }
        None
    }

    /// Whether a value is set for `key`.
    pub fn contains_key(&self, key: &str) -> (r: bool)
        ensures
            r == self@.contains_key(key@),
    {
        proof {
            lemma_pairs_map_dom(self.entries@, key@);
        }
        self.position(key).is_some()
    }

    /// The value set for `key`, if there is one.
    pub fn get(&self, key: &str) -> (r: Option<&String>)
        ensures
            match r {
                Some(v) => self@.contains_key(key@) && self@[key@] == v@,
                None => !self@.contains_key(key@),
            },
    {
        proof {
            use_type_invariant(self);
            lemma_pairs_map_dom(self.entries@, key@);
        }
        match self.position(key) {
            Some(i) => {
                proof {
                    lemma_pairs_map_index(self.entries@, i as int);
                }
                Some(&self.entries[i].1)
            },
            None => None,
        }
    }

    /// Sets the value for `key`, in place of an earlier one if there was one.
    pub fn insert(&mut self, key: String, value: String)
        ensures
            final(self)@ == old(self)@.insert(key@, value@),
    {
        proof {
            use_type_invariant(&*self);
        }
        let found = self.position(key.as_str());
        let mut entries: Vec<(String, String)> = Vec::new();
        std::mem::swap(&mut entries, &mut self.entries);
        match found {
            Some(i) => {
                proof {
                    lemma_pairs_map_update(entries@, i as int, (key, value));
                }
                entries.set(i, (key, value));
            },
            None => {
                proof {
                    let e = entries@.push((key, value));
                    assert(e.drop_last() =~= entries@);
                }
                entries.push((key, value));
            },
        }
        self.entries = entries;
    }

    /// The number of names.
    pub fn len(&self) -> (r: usize)
        ensures
            self@.dom().finite(),
            r == self@.len(),
    {
        proof {
            use_type_invariant(self);
            lemma_pairs_map_len(self.entries@);
        }
        self.entries.len()
    }

    /// Whether the mapping is empty.
    pub fn is_empty(&self) -> (r: bool)
        ensures
            r == (self@ == Map::<Seq<char>, Seq<char>>::empty()),
    {
        proof {
            if self.entries.len() > 0 {
                lemma_pairs_map_dom(self.entries@, self.entries@[0].0@);
                assert(self@.contains_key(self.entries@[0].0@));
            }
        }
        self.entries.len() == 0
    }

    /// The pairs of the mapping, every name once, in no particular order.
    pub fn to_vec(&self) -> (r: Vec<(String, String)>)
        ensures
            distinct_keys(r@),
            pairs_map(r@) == self@,
    {
        proof {
            use_type_invariant(self);
        }
        let mut out: Vec<(String, String)> = Vec::new();
        let mut i: usize = 0;
        while i < self.entries.len()
            invariant
                i <= self.entries.len(),
                out@ == self.entries@.take(i as int),
            decreases self.entries.len() - i,
        {
            out.push((self.entries[i].0.clone(), self.entries[i].1.clone()));
            i += 1;
            assert(out@ =~= self.entries@.take(i as int));
        }
        assert(out@ =~= self.entries@);
        out
    }

    /// A copy of the mapping.
    pub fn clone(&self) -> (r: Tags)
        ensures
            r@ == self@,
    {
        Tags { entries: self.to_vec() }
    }

    /// Lays `other` over the mapping: every name of `other` gets the value it
    /// has there, the other names keep theirs.
    pub fn extend(&mut self, other: &Tags)
        ensures
            final(self)@ == old(self)@.union_prefer_right(other@),
    {
        let mut i: usize = 0;
        while i < other.entries.len()
            invariant
                i <= other.entries.len(),
                self@ =~= old(self)@.union_prefer_right(pairs_map(other.entries@.take(i as int))),
            decreases other.entries.len() - i,
        {
            proof {
                let next = other.entries@.take(i + 1);
                assert(next.drop_last() =~= other.entries@.take(i as int));
                assert(next.last() == other.entries@[i as int]);
            }
            self.insert(other.entries[i].0.clone(), other.entries[i].1.clone());
            i += 1;
        }
        assert(other.entries@.take(i as int) =~= other.entries@);
    }
}

} // verus!
