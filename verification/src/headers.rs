//! A set of request headers: names with one value each.
use vstd::prelude::*;

verus! {

/// Some entry of `pairs` has the name `key`.
pub open spec fn holds_key(pairs: Seq<(Seq<char>, Seq<char>)>, key: Seq<char>) -> bool {
    exists|i: int| 0 <= i < pairs.len() && (#[trigger] pairs[i]).0 == key
}

/// The index of an entry of `pairs` with the name `key`.
pub open spec fn index_of_key(pairs: Seq<(Seq<char>, Seq<char>)>, key: Seq<char>) -> int {
    choose|i: int| 0 <= i < pairs.len() && (#[trigger] pairs[i]).0 == key
}

/// No two entries of `pairs` have the same name.
pub open spec fn distinct_keys(pairs: Seq<(Seq<char>, Seq<char>)>) -> bool {
    forall|i: int, j: int|
        0 <= i < j < pairs.len() ==> (#[trigger] pairs[i]).0 != (#[trigger] pairs[j]).0
}

/// The mapping from names to values that `pairs` lists.
pub open spec fn pairs_map(pairs: Seq<(Seq<char>, Seq<char>)>) -> Map<Seq<char>, Seq<char>> {
    Map::new(|k: Seq<char>| holds_key(pairs, k), |k: Seq<char>| pairs[index_of_key(pairs, k)].1)
}

/// Where the names are distinct, the mapping gives each entry's name that
/// entry's value.
pub proof fn lemma_pairs_map_at(pairs: Seq<(Seq<char>, Seq<char>)>, i: int)
    requires
        distinct_keys(pairs),
        0 <= i < pairs.len(),
    ensures
        pairs_map(pairs).contains_key(pairs[i].0),
        pairs_map(pairs)[pairs[i].0] == pairs[i].1,
{
    let k = pairs[i].0;
    assert(holds_key(pairs, k));
    let j = index_of_key(pairs, k);
    assert(0 <= j < pairs.len() && pairs[j].0 == k);
    if j < i {
        assert(pairs[j].0 != pairs[i].0);
    } else if i < j {
        assert(pairs[i].0 != pairs[j].0);
    }
}

/// The names and values of a list of entries.
pub open spec fn pairs_of(entries: Seq<(String, String)>) -> Seq<(Seq<char>, Seq<char>)> {
    Seq::new(entries.len(), |i: int| (entries[i].0@, entries[i].1@))
}

/// Request headers, each name held once.
#[derive(Debug)]
pub struct Headers {
    entries: Vec<(String, String)>,
}

impl View for Headers {
    type V = Map<Seq<char>, Seq<char>>;

    open spec fn view(&self) -> Map<Seq<char>, Seq<char>> {
        pairs_map(self.pairs())
    }
}

impl Headers {
    /// The entries as names and values, in the order in which they are held.
    pub closed spec fn pairs(&self) -> Seq<(Seq<char>, Seq<char>)> {
        pairs_of(self.entries@)
    }

    #[verifier::type_invariant]
    spec fn distinct(&self) -> bool {
        distinct_keys(self.pairs())
    }

    /// Makes an empty set of headers.
    pub fn new() -> (h: Headers)
        ensures
            h@ == Map::<Seq<char>, Seq<char>>::empty(),
            h.pairs().len() == 0,
    {
        let h = Headers { entries: Vec::new() };
        assert(h@ =~= Map::<Seq<char>, Seq<char>>::empty());
        h
    }

    /// The number of entries, whose names are distinct.
    pub fn len(&self) -> (n: usize)
        ensures
            n == self.pairs().len(),
            distinct_keys(self.pairs()),
    {
        proof {
            use_type_invariant(self);
        }
        self.entries.len()
    }

    /// The name of the entry at `i`.
    pub fn name_at(&self, i: usize) -> (name: &String)
        requires
            i < self.pairs().len(),
        ensures
            name@ == self.pairs()[i as int].0,
    {
        &self.entries[i].0
    }

    /// The value of the entry at `i`.
    pub fn value_at(&self, i: usize) -> (value: &String)
        requires
            i < self.pairs().len(),
        ensures
            value@ == self.pairs()[i as int].1,
    {
        &self.entries[i].1
    }

    /// Makes a copy with the same entries in the same order.
    pub fn duplicate(&self) -> (h: Headers)
        ensures
            h.pairs() == self.pairs(),
            h@ == self@,
    {
        proof {
            use_type_invariant(self);
        }
        let mut entries: Vec<(String, String)> = Vec::new();
        let mut i: usize = 0;
        while i < self.entries.len()
            invariant
                i <= self.entries@.len(),
                entries@.len() == i,
                pairs_of(entries@) == self.pairs().take(i as int),
            decreases self.entries@.len() - i,
        {
            let ghost prev = entries@;
            let name = self.entries[i].0.clone();
            let value = self.entries[i].1.clone();
            entries.push((name, value));
            i += 1;
            assert forall|j: int| 0 <= j < i implies #[trigger] pairs_of(entries@)[j]
                == self.pairs().take(i as int)[j] by {
                if j < i - 1 {
                    assert(entries@[j] == prev[j]);
                    assert(pairs_of(prev)[j] == self.pairs().take(i - 1)[j]);
                }
            }
            assert(pairs_of(entries@) =~= self.pairs().take(i as int));
        }
        assert(self.pairs().take(i as int) =~= self.pairs());
        Headers { entries }
    }

    fn position(&self, name: &String) -> (r: Option<usize>)
        ensures
            match r {
                Some(i) => i < self.pairs().len() && self.pairs()[i as int].0 == name@,
                None => !holds_key(self.pairs(), name@),
            },
    {
        let mut i: usize = 0;
        while i < self.entries.len()
            invariant
                i <= self.entries@.len(),
                forall|j: int| 0 <= j < i ==> (#[trigger] self.pairs()[j]).0 != name@,
            decreases self.entries@.len() - i,
        {
            if self.entries[i].0 == *name {
                return Some(i);
            }
            i += 1;
        }
        None
    }

    /// The value held under `name`, if there is one.
    pub fn get(&self, name: &str) -> (r: Option<String>)
        ensures
            match r {
                Some(value) => self@.contains_key(name@) && self@[name@] == value@,
                None => !self@.contains_key(name@),
            },
    {
        let key = name.to_owned();
        match self.position(&key) {
            Some(i) => {
                proof {
                    use_type_invariant(self);
                    lemma_pairs_map_at(self.pairs(), i as int);
                }
                Some(self.entries[i].1.clone())
            },
            None => None,
        }
    }

    /// Puts `value` under `name`, in place of the value that was there.
    pub fn insert(&mut self, name: String, value: String)
        ensures
            final(self)@ == old(self)@.insert(name@, value@),
    {
        proof {
            use_type_invariant(&*self);
        }
        let ghost before = self.pairs();
        let ghost k = name@;
        let ghost v = value@;
        let found = self.position(&name);
        let mut taken = Headers { entries: Vec::new() };
        core::mem::swap(self, &mut taken);
        let Headers { entries } = taken;
        let mut entries = entries;
        match found {
            Some(i) => {
                entries.set(i, (name, value));
                proof {
                    lemma_update_pair(before, i as int, v);
                }
                assert(pairs_of(entries@) =~= before.update(i as int, (k, v)));
                *self = Headers { entries };
            },
            None => {
                entries.push((name, value));
                proof {
                    lemma_push_pair(before, k, v);
                }
                assert(pairs_of(entries@) =~= before.push((k, v)));
                *self = Headers { entries };
            },
        }
    }

    /// Takes the entry under `name` out and returns its value.
    pub fn remove(&mut self, name: &str) -> (r: Option<String>)
        ensures
            final(self)@ == old(self)@.remove(name@),
            match r {
                Some(value) => old(self)@.contains_key(name@) && old(self)@[name@] == value@,
                None => !old(self)@.contains_key(name@),
            },
    {
        proof {
            use_type_invariant(&*self);
        }
        let ghost before = self.pairs();
        let key = name.to_owned();
        match self.position(&key) {
            Some(i) => {
                let mut taken = Headers { entries: Vec::new() };
                core::mem::swap(self, &mut taken);
                let Headers { entries } = taken;
                let mut entries = entries;
                let gone = entries.remove(i);
                proof {
                    lemma_pairs_map_at(before, i as int);
                    lemma_remove_pair(before, i as int);
                }
                assert(pairs_of(entries@) =~= before.remove(i as int));
                *self = Headers { entries };
                Some(gone.1)
            },
            None => {
                assert(self@ =~= self@.remove(name@));
                None
            },
        }
    }
}

/// Replacing the value of one entry changes the mapping at that entry's
/// name alone.
pub proof fn lemma_update_pair(pairs: Seq<(Seq<char>, Seq<char>)>, i: int, value: Seq<char>)
    requires
        distinct_keys(pairs),
        0 <= i < pairs.len(),
    ensures
        distinct_keys(pairs.update(i, (pairs[i].0, value))),
        pairs_map(pairs.update(i, (pairs[i].0, value))) == pairs_map(pairs).insert(
            pairs[i].0,
            value,
        ),
{
    let k = pairs[i].0;
    let after = pairs.update(i, (k, value));
    assert(distinct_keys(after)) by {
        assert forall|a: int, b: int| 0 <= a < b < after.len() implies (#[trigger] after[a]).0 != (
        #[trigger] after[b]).0 by {
            assert(after[a].0 == pairs[a].0);
            assert(after[b].0 == pairs[b].0);
        }
    }
    assert forall|q: Seq<char>| holds_key(after, q) == holds_key(pairs, q) by {
        if holds_key(after, q) {
            let j = index_of_key(after, q);
            assert(pairs[j].0 == q);
        }
        if holds_key(pairs, q) {
            let j = index_of_key(pairs, q);
            assert(after[j].0 == q);
        }
    }
    assert(holds_key(pairs, k)) by {
        assert(pairs[i].0 == k);
    }
    assert forall|q: Seq<char>| holds_key(after, q) implies #[trigger] pairs_map(after)[q]
        == pairs_map(pairs).insert(k, value)[q] by {
        let j = index_of_key(after, q);
        lemma_pairs_map_at(after, j);
        if q != k {
            assert(j != i);
            assert(after[j] == pairs[j]);
            lemma_pairs_map_at(pairs, j);
        } else {
            lemma_pairs_map_at(after, i);
        }
    }
    assert(pairs_map(after) =~= pairs_map(pairs).insert(k, value));
}

/// Adding an entry under a new name adds that name to the mapping.
pub proof fn lemma_push_pair(pairs: Seq<(Seq<char>, Seq<char>)>, key: Seq<char>, value: Seq<char>)
    requires
        distinct_keys(pairs),
        !holds_key(pairs, key),
    ensures
        distinct_keys(pairs.push((key, value))),
        pairs_map(pairs.push((key, value))) == pairs_map(pairs).insert(key, value),
{
    let after = pairs.push((key, value));
    let n = pairs.len() as int;
    assert(distinct_keys(after)) by {
        assert forall|a: int, b: int| 0 <= a < b < after.len() implies (#[trigger] after[a]).0 != (
        #[trigger] after[b]).0 by {
            assert(after[a] == pairs[a]);
            if b < n {
                assert(after[b] == pairs[b]);
            } else {
                assert(pairs[a].0 != key);
            }
        }
    }
    assert forall|q: Seq<char>| holds_key(after, q) == (holds_key(pairs, q) || q == key) by {
        if holds_key(after, q) {
            let j = index_of_key(after, q);
            if j < n {
                assert(pairs[j].0 == q);
            }
        }
        if holds_key(pairs, q) {
            let j = index_of_key(pairs, q);
            assert(after[j].0 == q);
        }
        if q == key {
            assert(after[n].0 == q);
        }
    }
    assert forall|q: Seq<char>| holds_key(after, q) implies #[trigger] pairs_map(after)[q]
        == pairs_map(pairs).insert(key, value)[q] by {
        let j = index_of_key(after, q);
        lemma_pairs_map_at(after, j);
        if j < n {
            assert(after[j] == pairs[j]);
            assert(pairs[j].0 != key);
            lemma_pairs_map_at(pairs, j);
        }
    }
    assert(pairs_map(after) =~= pairs_map(pairs).insert(key, value));
}

/// Taking an entry out takes its name out of the mapping.
pub proof fn lemma_remove_pair(pairs: Seq<(Seq<char>, Seq<char>)>, i: int)
    requires
        distinct_keys(pairs),
        0 <= i < pairs.len(),
    ensures
        distinct_keys(pairs.remove(i)),
        pairs_map(pairs.remove(i)) == pairs_map(pairs).remove(pairs[i].0),
{
    let k = pairs[i].0;
    let after = pairs.remove(i);
    assert forall|a: int| 0 <= a < after.len() implies #[trigger] after[a] == pairs[if a < i {
        a
    } else {
        a + 1
    }] by {}
    assert(distinct_keys(after)) by {
        assert forall|a: int, b: int| 0 <= a < b < after.len() implies (#[trigger] after[a]).0 != (
        #[trigger] after[b]).0 by {
            let a2 = if a < i { a } else { a + 1 };
            let b2 = if b < i { b } else { b + 1 };
            assert(after[a] == pairs[a2]);
            assert(after[b] == pairs[b2]);
            assert(pairs[a2].0 != pairs[b2].0);
        }
    }
    assert forall|q: Seq<char>| holds_key(after, q) == (holds_key(pairs, q) && q != k) by {
        if holds_key(after, q) {
            let j = index_of_key(after, q);
            let j2 = if j < i { j } else { j + 1 };
            assert(after[j] == pairs[j2]);
            assert(pairs[j2].0 == q);
            if j2 < i {
                assert(pairs[j2].0 != pairs[i].0);
            } else {
                assert(pairs[i].0 != pairs[j2].0);
            }
        }
        if holds_key(pairs, q) && q != k {
            let j = index_of_key(pairs, q);
            let j1 = if j < i { j } else { j - 1 };
            assert(after[j1] == pairs[j]);
            assert(after[j1].0 == q);
        }
    }
    assert forall|q: Seq<char>| holds_key(after, q) implies #[trigger] pairs_map(after)[q]
        == pairs_map(pairs).remove(k)[q] by {
        let j = index_of_key(after, q);
        let j2 = if j < i { j } else { j + 1 };
        lemma_pairs_map_at(after, j);
        assert(after[j] == pairs[j2]);
        lemma_pairs_map_at(pairs, j2);
    }
    assert(pairs_map(after) =~= pairs_map(pairs).remove(k));
}

} // verus!
