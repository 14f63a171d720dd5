//! A small association table from owned string keys to values.
//!
//! Backed by a vector of pairs whose keys are pairwise distinct; viewed as a
//! `Map<Seq<char>, V>`.  Both the user directory and the presence registry
//! are tables of this kind.

use vstd::prelude::*;

verus! {

/// Pairwise-distinct keys, by view.
pub open spec fn keys_distinct<V>(s: Seq<(String, V)>) -> bool {
    forall|i: int, j: int| 0 <= i < j < s.len() ==> s[i].0@ != s[j].0@
}

/// The map a sequence of pairs denotes; a later pair for the same key wins.
pub open spec fn pairs_map<V>(s: Seq<(String, V)>) -> Map<Seq<char>, V>
    decreases s.len(),
{
    if s.len() == 0 {
        Map::empty()
    } else {
        pairs_map(s.drop_last()).insert(s.last().0@, s.last().1)
    }
}

/// A key is in the map exactly when some pair carries it.
pub proof fn lemma_pairs_map_contains<V>(s: Seq<(String, V)>, k: Seq<char>)
    ensures
        pairs_map(s).contains_key(k) <==> exists|i: int| 0 <= i < s.len() && s[i].0@ == k,
    decreases s.len(),
{
    if s.len() > 0 {
        lemma_pairs_map_contains(s.drop_last(), k);
        if s.last().0@ == k {
            assert(s[s.len() - 1].0@ == k);
        } else {
            if exists|i: int| 0 <= i < s.len() && s[i].0@ == k {
                let i = choose|i: int| 0 <= i < s.len() && s[i].0@ == k;
                assert(s.drop_last()[i].0@ == k);
            }
        }
    }
}

/// With distinct keys, each pair is exactly what the map holds for its key.
pub proof fn lemma_pairs_map_index<V>(s: Seq<(String, V)>, i: int)
    requires
        keys_distinct(s),
        0 <= i < s.len(),
    ensures
        pairs_map(s).contains_key(s[i].0@),
        pairs_map(s)[s[i].0@] == s[i].1,
    decreases s.len(),
{
    if i < s.len() - 1 {
        lemma_pairs_map_index(s.drop_last(), i);
        assert(s.drop_last()[i] == s[i]);
        assert(s[i].0@ != s[s.len() - 1].0@);
    }
}

/// With distinct keys, dropping the pair at `i` removes exactly its key.
pub proof fn lemma_pairs_map_remove<V>(s: Seq<(String, V)>, i: int)
    requires
        keys_distinct(s),
        0 <= i < s.len(),
    ensures
        pairs_map(s.remove(i)) == pairs_map(s).remove(s[i].0@),
    decreases s.len(),
{
    let k = s[i].0@;
    if i == s.len() - 1 {
        assert(s.remove(i) =~= s.drop_last());
        lemma_pairs_map_contains(s.drop_last(), k);
        assert(forall|j: int| 0 <= j < s.len() - 1 ==> s.drop_last()[j].0@ != k);
        assert(pairs_map(s.drop_last()) =~= pairs_map(s).remove(k));
    } else {
        lemma_pairs_map_remove(s.drop_last(), i);
        assert(s.remove(i).drop_last() =~= s.drop_last().remove(i));
        assert(s.remove(i).last() == s.last());
        assert(s.drop_last()[i] == s[i]);
        assert(s.last().0@ != k);
        assert(pairs_map(s.drop_last()).remove(k).insert(s.last().0@, s.last().1) =~= pairs_map(
            s.drop_last(),
        ).insert(s.last().0@, s.last().1).remove(k));
        assert(pairs_map(s.remove(i)) == pairs_map(s.drop_last().remove(i)).insert(
            s.last().0@,
            s.last().1,
        ));
    }
}

/// With distinct keys, the map has exactly one entry per pair.
pub proof fn lemma_pairs_map_len<V>(s: Seq<(String, V)>)
    requires
        keys_distinct(s),
    ensures
        pairs_map(s).dom().finite(),
        pairs_map(s).dom().len() == s.len(),
    decreases s.len(),
{
    broadcast use vstd::set::axiom_set_insert_len;

    if s.len() == 0 {
        assert(pairs_map(s).dom() =~= Set::<Seq<char>>::empty());
    } else {
        lemma_pairs_map_len(s.drop_last());
        lemma_pairs_map_contains(s.drop_last(), s.last().0@);
        assert(forall|j: int| 0 <= j < s.len() - 1 ==> s.drop_last()[j].0@ != s.last().0@);
        assert(pairs_map(s).dom() =~= pairs_map(s.drop_last()).dom().insert(s.last().0@));
    }
}

/// An association table with string keys, seen as a map from key views to
/// values.
pub struct Table<V> {
    items: Vec<(String, V)>,
}

impl<V> View for Table<V> {
    type V = Map<Seq<char>, V>;

    closed spec fn view(&self) -> Map<Seq<char>, V> {
        pairs_map(self.items@)
    }
}

impl<V> Table<V> {
    #[verifier::type_invariant]
    spec fn inv(&self) -> bool {
        keys_distinct(self.items@)
    }

    /// The empty table.
    pub fn new() -> (t: Self)
        ensures
            t@ == Map::<Seq<char>, V>::empty(),
    {
        Table { items: Vec::new() }
    }

    fn index_of(&self, name: &String) -> (r: Option<usize>)
        ensures
            match r {
                Some(i) => i < self.items@.len() && self.items@[i as int].0@ == name@,
                None => forall|i: int| 0 <= i < self.items@.len() ==> self.items@[i].0@ != name@,
            },
    {
        let n = self.items.len();
        let mut i: usize = 0;
        while i < n
            invariant
                i <= n,
                n == self.items@.len(),
                forall|j: int| 0 <= j < i ==> self.items@[j].0@ != name@,
            decreases n - i,
        {
            if self.items[i].0 == *name {
                return Some(i);
            }
            i = i + 1;
        }
        None
    }

    /// Whether the table holds an entry for `name`.
    pub fn contains(&self, name: &String) -> (r: bool)
        ensures
            r == self@.contains_key(name@),
    {
        proof {
            use_type_invariant(&*self);
            lemma_pairs_map_contains(self.items@, name@);
        }
        match self.index_of(name) {
            Some(_) => true,
            None => false,
        }
    }

    /// The value stored under `name`, if any.
    pub fn get(&self, name: &String) -> (r: Option<&V>)
        ensures
            match r {
                Some(v) => self@.contains_key(name@) && *v == self@[name@],
                None => !self@.contains_key(name@),
            },
    {
        proof {
            use_type_invariant(&*self);
            lemma_pairs_map_contains(self.items@, name@);
        }
        match self.index_of(name) {
            Some(i) => {
                proof {
                    lemma_pairs_map_index(self.items@, i as int);
                }
                Some(&self.items[i].1)
            },
            None => None,
        }
    }

    /// Stores `value` under `name`, replacing any existing entry.
    pub fn insert(&mut self, name: String, value: V)
        ensures
            final(self)@ == old(self)@.insert(name@, value),
    {
        proof {
            use_type_invariant(&*self);
        }
        let ghost s0 = self.items@;
        let found = self.index_of(&name);
        let mut items: Vec<(String, V)> = Vec::new();
        std::mem::swap(&mut items, &mut self.items);
        match found {
            Some(i) => {
                proof {
                    lemma_pairs_map_remove(s0, i as int);
                    assert(keys_distinct(s0.remove(i as int)));
                }
                items.remove(i);
            },
            None => {
            },
        }
        let ghost s1 = items@;
        proof {
            lemma_pairs_map_contains(s1, name@);
            assert(forall|j: int| 0 <= j < s1.len() ==> s1[j].0@ != name@);
            assert(keys_distinct(s1.push((name, value))));
        }
        items.push((name, value));
        proof {
            assert(items@.drop_last() =~= s1);
            assert(pairs_map(items@) =~= old(self)@.insert(name@, value));
        }
        self.items = items;
    }

    /// Removes the entry under `name`; a no-op when there is none.
    pub fn remove(&mut self, name: &String)
        ensures
            final(self)@ == old(self)@.remove(name@),
    {
        proof {
            use_type_invariant(&*self);
            lemma_pairs_map_contains(self.items@, name@);
        }
        let ghost s0 = self.items@;
        let found = self.index_of(name);
        match found {
            Some(i) => {
                let mut items: Vec<(String, V)> = Vec::new();
                std::mem::swap(&mut items, &mut self.items);
                proof {
                    lemma_pairs_map_remove(s0, i as int);
                    assert(keys_distinct(s0.remove(i as int)));
                }
                items.remove(i);
                self.items = items;
            },
            None => {
                proof {
                    assert(pairs_map(s0) =~= pairs_map(s0).remove(name@));
                }
            },
        }
    }

    /// How many entries the table holds.
    pub fn len(&self) -> (n: usize)
        ensures
            n == self@.dom().len(),
    {
        proof {
            use_type_invariant(&*self);
            lemma_pairs_map_len(self.items@);
        }
        self.items.len()
    }

    /// The backing pairs: one per entry of the map, keys pairwise distinct.
    pub fn entries(&self) -> (r: &Vec<(String, V)>)
        ensures
            keys_distinct(r@),
            r@.len() == self@.dom().len(),
            forall|i: int|
                0 <= i < r@.len() ==> self@.contains_key(#[trigger] r@[i].0@) && self@[r@[i].0@]
                    == r@[i].1,
            forall|k: Seq<char>|
                self@.contains_key(k) ==> exists|i: int| 0 <= i < r@.len() && r@[i].0@ == k,
    {
        proof {
            use_type_invariant(&*self);
            lemma_pairs_map_len(self.items@);
            assert forall|i: int| 0 <= i < self.items@.len() implies self@.contains_key(
                #[trigger] self.items@[i].0@,
            ) && self@[self.items@[i].0@] == self.items@[i].1 by {
                lemma_pairs_map_index(self.items@, i);
            }
            assert forall|k: Seq<char>| self@.contains_key(k) implies exists|i: int|
                0 <= i < self.items@.len() && self.items@[i].0@ == k by {
                lemma_pairs_map_contains(self.items@, k);
            }
        }
        &self.items
    }
}

} // verus!
