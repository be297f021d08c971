//! An insertion-ordered map keyed by text.
//!
//! The map is modelled twice: as the sequence of its `(key, value)` pairs in
//! insertion order, in which no key occurs twice, and as the mathematical map
//! that this sequence denotes.

use vstd::prelude::*;

verus! {

/// Whether some pair of `pairs` is keyed by `key`.
pub open spec fn has_key<V>(pairs: Seq<(Seq<char>, V)>, key: Seq<char>) -> bool {
    exists|i: int| 0 <= i < pairs.len() && (#[trigger] pairs[i]).0 == key
}

/// An index at which `key` occurs in `pairs`, if it occurs at all.
pub open spec fn key_index<V>(pairs: Seq<(Seq<char>, V)>, key: Seq<char>) -> int {
    choose|i: int| 0 <= i < pairs.len() && (#[trigger] pairs[i]).0 == key
}

/// No key occurs in two pairs.
pub open spec fn distinct_keys<V>(pairs: Seq<(Seq<char>, V)>) -> bool {
    forall|i: int, j: int|
        0 <= i < pairs.len() && 0 <= j < pairs.len() && i != j ==> (#[trigger] pairs[i]).0 != (
        #[trigger] pairs[j]).0
}

/// The map that a sequence of pairs denotes.
pub open spec fn pairs_map<V>(pairs: Seq<(Seq<char>, V)>) -> Map<Seq<char>, V> {
    Map::new(|k: Seq<char>| has_key(pairs, k), |k: Seq<char>| pairs[key_index(pairs, k)].1)
}

/// The pair at `i` is what the map holds under its key.
pub proof fn lemma_pair_in_map<V>(pairs: Seq<(Seq<char>, V)>, i: int)
    requires
        distinct_keys(pairs),
        0 <= i < pairs.len(),
    ensures
        pairs_map(pairs).contains_key(pairs[i].0),
        pairs_map(pairs)[pairs[i].0] == pairs[i].1,
{
    let k = pairs[i].0;
    assert(has_key(pairs, k));
    let j = key_index(pairs, k);
    assert(0 <= j < pairs.len() && pairs[j].0 == k);
    assert(j == i);
}

/// Appending a pair under a fresh key inserts it into the map.
pub proof fn lemma_push_pair<V>(pairs: Seq<(Seq<char>, V)>, key: Seq<char>, value: V)
    requires
        distinct_keys(pairs),
        !has_key(pairs, key),
    ensures
        distinct_keys(pairs.push((key, value))),
        pairs_map(pairs.push((key, value))) == pairs_map(pairs).insert(key, value),
{
    let grown = pairs.push((key, value));
    assert forall|i: int, j: int|
        0 <= i < grown.len() && 0 <= j < grown.len() && i != j implies (#[trigger] grown[i]).0 != (
    #[trigger] grown[j]).0 by {
        if i < pairs.len() {
            assert(grown[i] == pairs[i]);
        }
        if j < pairs.len() {
            assert(grown[j] == pairs[j]);
        }
    }
    assert forall|k: Seq<char>| has_key(grown, k) <==> (k == key || has_key(pairs, k)) by {
        if has_key(grown, k) {
            let i = key_index(grown, k);
            if i < pairs.len() {
                assert(pairs[i].0 == k);
            }
        }
        if k == key {
            assert(grown[pairs.len() as int].0 == k);
        }
        if has_key(pairs, k) {
            let i = key_index(pairs, k);
            assert(grown[i].0 == k);
        }
    }
    assert forall|k: Seq<char>| has_key(grown, k) implies #[trigger] pairs_map(grown)[k]
        == pairs_map(pairs).insert(key, value)[k] by {
        let i = key_index(grown, k);
        if k != key {
            assert(i < pairs.len());
            assert(pairs[i].0 == k);
            lemma_pair_in_map(pairs, i);
        }
    }
    assert(pairs_map(grown) =~= pairs_map(pairs).insert(key, value));
}

/// Replacing the value of the pair at `i` replaces it in the map.
pub proof fn lemma_update_pair<V>(pairs: Seq<(Seq<char>, V)>, i: int, value: V)
    requires
        distinct_keys(pairs),
        0 <= i < pairs.len(),
    ensures
        distinct_keys(pairs.update(i, (pairs[i].0, value))),
        pairs_map(pairs.update(i, (pairs[i].0, value))) == pairs_map(pairs).insert(
            pairs[i].0,
            value,
        ),
{
    let key = pairs[i].0;
    let changed = pairs.update(i, (key, value));
    assert forall|a: int, b: int|
        0 <= a < changed.len() && 0 <= b < changed.len() && a != b implies (
    #[trigger] changed[a]).0 != (#[trigger] changed[b]).0 by {
        assert(changed[a].0 == pairs[a].0);
        assert(changed[b].0 == pairs[b].0);
    }
    assert forall|k: Seq<char>| has_key(changed, k) <==> has_key(pairs, k) by {
        if has_key(changed, k) {
            let a = key_index(changed, k);
            assert(pairs[a].0 == k);
        }
        if has_key(pairs, k) {
            let a = key_index(pairs, k);
            assert(changed[a].0 == k);
        }
    }
    assert(has_key(pairs, key));
    assert forall|k: Seq<char>| has_key(changed, k) implies #[trigger] pairs_map(changed)[k]
        == pairs_map(pairs).insert(key, value)[k] by {
        let a = key_index(changed, k);
        lemma_pair_in_map(changed, a);
        if k != key {
            assert(a != i);
            assert(pairs[a].0 == k);
            lemma_pair_in_map(pairs, a);
        }
    }
    assert(pairs_map(changed) =~= pairs_map(pairs).insert(key, value));
}

/// Taking the pair at `i` out of the sequence removes its key from the map.
pub proof fn lemma_remove_pair<V>(pairs: Seq<(Seq<char>, V)>, i: int)
    requires
        distinct_keys(pairs),
        0 <= i < pairs.len(),
    ensures
        distinct_keys(pairs.remove(i)),
        pairs_map(pairs.remove(i)) == pairs_map(pairs).remove(pairs[i].0),
{
    let key = pairs[i].0;
    let rest = pairs.remove(i);
    assert forall|a: int| 0 <= a < rest.len() implies #[trigger] rest[a] == pairs[if a < i {
        a
    } else {
        a + 1
    }] by {}
    assert forall|a: int, b: int|
        0 <= a < rest.len() && 0 <= b < rest.len() && a != b implies (#[trigger] rest[a]).0 != (
    #[trigger] rest[b]).0 by {
        let a2 = if a < i { a } else { a + 1 };
        let b2 = if b < i { b } else { b + 1 };
        assert(rest[a] == pairs[a2]);
        assert(rest[b] == pairs[b2]);
    }
    assert forall|k: Seq<char>| has_key(rest, k) <==> (k != key && has_key(pairs, k)) by {
        if has_key(rest, k) {
            let a = key_index(rest, k);
            let a2 = if a < i { a } else { a + 1 };
            assert(rest[a] == pairs[a2]);
            assert(pairs[a2].0 == k);
        }
        if k != key && has_key(pairs, k) {
            let a = key_index(pairs, k);
            let a2 = if a < i { a } else { a - 1 };
            assert(rest[a2] == pairs[a]);
            assert(rest[a2].0 == k);
        }
    }
    assert forall|k: Seq<char>| has_key(rest, k) implies #[trigger] pairs_map(rest)[k]
        == pairs_map(pairs).remove(key)[k] by {
        let a = key_index(rest, k);
        let a2 = if a < i { a } else { a + 1 };
        assert(rest[a] == pairs[a2]);
        lemma_pair_in_map(rest, a);
        lemma_pair_in_map(pairs, a2);
    }
    assert(pairs_map(rest) =~= pairs_map(pairs).remove(key));
}

/// A sequence of pairs with distinct keys denotes a finite map of its length.
pub proof fn lemma_map_len<V>(pairs: Seq<(Seq<char>, V)>)
    requires
        distinct_keys(pairs),
    ensures
        pairs_map(pairs).dom().finite(),
        pairs_map(pairs).len() == pairs.len(),
    decreases pairs.len(),
{
    if pairs.len() == 0 {
        assert(pairs_map(pairs).dom() =~= Set::<Seq<char>>::empty());
    } else {
        let front = pairs.drop_last();
        let last = pairs.last();
        assert forall|i: int, j: int|
            0 <= i < front.len() && 0 <= j < front.len() && i != j implies (
        #[trigger] front[i]).0 != (#[trigger] front[j]).0 by {
            assert(front[i] == pairs[i]);
            assert(front[j] == pairs[j]);
        }
        lemma_map_len(front);
        if has_key(front, last.0) {
            let i = key_index(front, last.0);
            assert(front[i] == pairs[i]);
            assert(pairs[pairs.len() - 1] == last);
        }
        lemma_push_pair(front, last.0, last.1);
        assert(front.push((last.0, last.1)) =~= pairs);
    }
}

/// Two sequences of pairs that hold the same keys at the same places.
pub open spec fn same_keys<V, W>(left: Seq<(Seq<char>, V)>, right: Seq<(Seq<char>, W)>) -> bool {
    &&& left.len() == right.len()
    &&& forall|i: int| 0 <= i < left.len() ==> (#[trigger] left[i]).0 == right[i].0
}

/// Sequences with the same keys at the same places agree on which keys they
/// hold, on whether a key occurs twice, and on where a key stands.
pub proof fn lemma_same_keys<V, W>(
    left: Seq<(Seq<char>, V)>,
    right: Seq<(Seq<char>, W)>,
    key: Seq<char>,
)
    requires
        same_keys(left, right),
        distinct_keys(left),
    ensures
        distinct_keys(right),
        has_key(left, key) == has_key(right, key),
        has_key(left, key) ==> key_index(left, key) == key_index(right, key),
{
    assert forall|i: int, j: int|
        0 <= i < right.len() && 0 <= j < right.len() && i != j implies (#[trigger] right[i]).0 != (
    #[trigger] right[j]).0 by {
        assert(left[i].0 == right[i].0);
        assert(left[j].0 == right[j].0);
    }
    if has_key(left, key) {
        let i = key_index(left, key);
        assert(right[i].0 == key);
        let j = key_index(right, key);
        assert(left[j].0 == right[j].0);
    }
    if has_key(right, key) {
        let j = key_index(right, key);
        assert(left[j].0 == key);
    }
}

/// The pairs with each value replaced by what `f` makes of it.
pub open spec fn mapped_pairs<V, W>(pairs: Seq<(Seq<char>, V)>, f: spec_fn(V) -> W) -> Seq<
    (Seq<char>, W),
> {
    pairs.map_values(|pair: (Seq<char>, V)| (pair.0, f(pair.1)))
}

/// Replacing the values of the pairs replaces the values of the map.
pub proof fn lemma_mapped_pairs<V, W>(pairs: Seq<(Seq<char>, V)>, f: spec_fn(V) -> W)
    requires
        distinct_keys(pairs),
    ensures
        same_keys(pairs, mapped_pairs(pairs, f)),
        distinct_keys(mapped_pairs(pairs, f)),
        pairs_map(mapped_pairs(pairs, f)) == pairs_map(pairs).map_values(f),
{
    let mapped = mapped_pairs(pairs, f);
    assert(same_keys(pairs, mapped));
    lemma_same_keys(pairs, mapped, Seq::empty());
    assert forall|key: Seq<char>| #[trigger]
        pairs_map(mapped).contains_key(key) == pairs_map(pairs).contains_key(key) by {
        lemma_same_keys(pairs, mapped, key);
    }
    assert forall|key: Seq<char>| #[trigger] pairs_map(mapped).contains_key(key) implies pairs_map(
        mapped,
    )[key] == f(pairs_map(pairs)[key]) by {
        lemma_same_keys(pairs, mapped, key);
    }
    assert(pairs_map(mapped) =~= pairs_map(pairs).map_values(f));
}

/// A map from text to `V` that remembers the order in which keys came in.
#[derive(Debug)]
pub struct TextMap<V> {
    entries: Vec<(String, V)>,
}

impl<V> View for TextMap<V> {
    type V = Map<Seq<char>, V>;

    open spec fn view(&self) -> Map<Seq<char>, V> {
        pairs_map(self.pairs())
    }
}

impl<V> TextMap<V> {
    /// The pairs of the map in insertion order, keys taken as character sequences.
    pub closed spec fn pairs(&self) -> Seq<(Seq<char>, V)> {
        self.entries@.map_values(|e: (String, V)| (e.0@, e.1))
    }

    #[verifier::type_invariant]
    spec fn well_formed(&self) -> bool {
        distinct_keys(self.pairs())
    }

    /// Creates an empty map.
    pub fn new() -> (map: Self)
        ensures
            map.pairs() == Seq::<(Seq<char>, V)>::empty(),
            map@ == Map::<Seq<char>, V>::empty(),
            distinct_keys(map.pairs()),
    {
        let map = TextMap { entries: Vec::new() };
        assert(map.pairs() =~= Seq::<(Seq<char>, V)>::empty());
        assert(map@ =~= Map::<Seq<char>, V>::empty());
        map
    }

    /// The number of keys.
    pub fn len(&self) -> (n: usize)
        ensures
            n == self.pairs().len(),
            n == self@.len(),
            self@.dom().finite(),
            distinct_keys(self.pairs()),
    {
        proof {
            use_type_invariant(self);
            lemma_map_len(self.pairs());
        }
        self.entries.len()
    }

    /// The position of `key` in the insertion order, if it is in the map.
    fn find(&self, key: &str) -> (found: Option<usize>)
        ensures
            distinct_keys(self.pairs()),
            match found {
                Some(i) => i < self.pairs().len() && self.pairs()[i as int].0 == key@,
                None => !has_key(self.pairs(), key@),
            },
    {
        proof {
            use_type_invariant(self);
        }
        let wanted: String = key.to_owned();
        let mut i: usize = 0;
        while i < self.entries.len()
            invariant
                i <= self.entries.len(),
                wanted@ == key@,
                distinct_keys(self.pairs()),
                forall|j: int| 0 <= j < i ==> (#[trigger] self.pairs()[j]).0 != key@,
            decreases self.entries.len() - i,
        {
            if self.entries[i].0 == wanted {
                return Some(i);
            }
            i += 1;
        }
        None
    }

    /// Whether `key` is in the map.
    pub fn contains_key(&self, key: &str) -> (present: bool)
        ensures
            present == self@.contains_key(key@),
            distinct_keys(self.pairs()),
    {
        self.find(key).is_some()
    }

    /// The value stored under `key`, if there is one.
    pub fn get(&self, key: &str) -> (value: Option<&V>)
        ensures
            distinct_keys(self.pairs()),
            match value {
                Some(v) => self@.contains_key(key@) && *v == self@[key@],
                None => !self@.contains_key(key@),
            },
    {
        match self.find(key) {
            Some(i) => {
                proof {
                    lemma_pair_in_map(self.pairs(), i as int);
                }
                Some(&self.entries[i].1)
            },
            None => None,
        }
    }

    /// The pair at position `i` of the insertion order, if the map has that many.
    pub fn entry_at(&self, i: usize) -> (entry: Option<(&str, &V)>)
        ensures
            distinct_keys(self.pairs()),
            match entry {
                Some((key, value)) => i < self.pairs().len() && key@ == self.pairs()[i as int].0
                    && *value == self.pairs()[i as int].1,
                None => i >= self.pairs().len(),
            },
    {
        proof {
            use_type_invariant(self);
        }
        if i < self.entries.len() {
            Some((self.entries[i].0.as_str(), &self.entries[i].1))
        } else {
            None
        }
    }

    /// Stores `value` under `key` and hands back what was stored there before.
    ///
    /// A key that is already present keeps its place in the order; a new key
    /// goes to the end.
    pub fn insert(&mut self, key: String, value: V) -> (previous: Option<V>)
        ensures
            distinct_keys(old(self).pairs()),
            distinct_keys(final(self).pairs()),
            final(self)@ == old(self)@.insert(key@, value),
            previous == (if old(self)@.contains_key(key@) {
                Some(old(self)@[key@])
            } else {
                None::<V>
            }),
            final(self).pairs() == (if old(self)@.contains_key(key@) {
                old(self).pairs().update(key_index(old(self).pairs(), key@), (key@, value))
            } else {
                old(self).pairs().push((key@, value))
            }),
    {
        let ghost before = self.pairs();
        let found = self.find(key.as_str());
        let mut entries: Vec<(String, V)> = Vec::new();
        std::mem::swap(&mut entries, &mut self.entries);
        match found {
            Some(i) => {
                proof {
                    lemma_pair_in_map(before, i as int);
                    lemma_update_pair(before, i as int, value);
                    assert(key_index(before, key@) == i);
                }
                let replaced = entries.remove(i);
                entries.insert(i, (key, value));
                assert(entries@.map_values(|e: (String, V)| (e.0@, e.1)) =~= before.update(
                    i as int,
                    (key@, value),
                ));
                self.entries = entries;
                Some(replaced.1)
            },
            None => {
                proof {
                    lemma_push_pair(before, key@, value);
                }
                entries.push((key, value));
                assert(entries@.map_values(|e: (String, V)| (e.0@, e.1)) =~= before.push(
                    (key@, value),
                ));
                self.entries = entries;
                None
            },
        }
    }

    /// Takes `key` out of the map and hands back what was stored under it.
    pub fn remove(&mut self, key: &str) -> (removed: Option<V>)
        ensures
            distinct_keys(old(self).pairs()),
            distinct_keys(final(self).pairs()),
            final(self)@ == old(self)@.remove(key@),
            removed == (if old(self)@.contains_key(key@) {
                Some(old(self)@[key@])
            } else {
                None::<V>
            }),
            final(self).pairs() == (if old(self)@.contains_key(key@) {
                old(self).pairs().remove(key_index(old(self).pairs(), key@))
            } else {
                old(self).pairs()
            }),
    {
        let ghost before = self.pairs();
        match self.find(key) {
            Some(i) => {
                proof {
                    lemma_pair_in_map(before, i as int);
                    lemma_remove_pair(before, i as int);
                    assert(key_index(before, key@) == i);
                }
                let mut entries: Vec<(String, V)> = Vec::new();
                std::mem::swap(&mut entries, &mut self.entries);
                let taken = entries.remove(i);
                assert(entries@.map_values(|e: (String, V)| (e.0@, e.1)) =~= before.remove(
                    i as int,
                ));
                self.entries = entries;
                Some(taken.1)
            },
            None => {
                assert(old(self)@.remove(key@) =~= old(self)@);
                None
            },
        }
    }
}

} // verus!
