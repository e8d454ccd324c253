//! A small map keyed by text, kept as a list of pairs with unique keys.
use vstd::prelude::*;

use crate::text::same_text;

verus! {

/// A map from texts to values.
pub struct TextMap<V> {
    entries: Vec<(String, V)>,
}

/// The map that a list of pairs with unique keys stands for.
pub open spec fn pairs_map<V>(entries: Seq<(String, V)>) -> Map<Seq<char>, V> {
    Map::new(
        |k: Seq<char>| exists|i: int| 0 <= i < entries.len() && (#[trigger] entries[i]).0@ == k,
        |k: Seq<char>|
            entries[choose|i: int| 0 <= i < entries.len() && (#[trigger] entries[i]).0@ == k].1,
    )
}

/// No key appears twice.
pub open spec fn keys_unique<V>(entries: Seq<(String, V)>) -> bool {
    forall|i: int, j: int|
        0 <= i < entries.len() && 0 <= j < entries.len() && i != j ==> (#[trigger] entries[i]).0@
            != (#[trigger] entries[j]).0@
}

impl<V> View for TextMap<V> {
    type V = Map<Seq<char>, V>;

    closed spec fn view(&self) -> Map<Seq<char>, V> {
        pairs_map(self.entries@)
    }
}

proof fn lemma_update<V>(before: Seq<(String, V)>, i: int, key: String, value: V)
    requires
        keys_unique(before),
        0 <= i < before.len(),
        before[i].0@ == key@,
    ensures
        keys_unique(before.update(i, (key, value))),
        pairs_map(before.update(i, (key, value))) == pairs_map(before).insert(key@, value),
{
    let after = before.update(i, (key, value));
    assert forall|k: Seq<char>|
        #![auto]
        pairs_map(after).contains_key(k) implies pairs_map(before).insert(key@, value).contains_key(k)
            && pairs_map(after)[k] == pairs_map(before).insert(key@, value)[k] by {
        let a = choose|a: int| 0 <= a < after.len() && (#[trigger] after[a]).0@ == k;
        if k != key@ {
            let b = choose|b: int| 0 <= b < before.len() && (#[trigger] before[b]).0@ == k;
            assert(a == b);
        } else {
            assert(a == i);
        }
    }
    assert forall|k: Seq<char>|
        #![auto]
        pairs_map(before).insert(key@, value).contains_key(k) implies pairs_map(after).contains_key(k) by {
        if k != key@ {
            let b = choose|b: int| 0 <= b < before.len() && (#[trigger] before[b]).0@ == k;
            assert(after[b] == before[b]);
        } else {
            assert(after[i].0@ == k);
        }
    }
    assert(pairs_map(after) =~= pairs_map(before).insert(key@, value));
}

proof fn lemma_push<V>(before: Seq<(String, V)>, key: String, value: V)
    requires
        keys_unique(before),
        forall|j: int| 0 <= j < before.len() ==> (#[trigger] before[j]).0@ != key@,
    ensures
        keys_unique(before.push((key, value))),
        pairs_map(before.push((key, value))) == pairs_map(before).insert(key@, value),
{
    let after = before.push((key, value));
    let n = before.len() as int;
    assert forall|k: Seq<char>|
        #![auto]
        pairs_map(after).contains_key(k) implies pairs_map(before).insert(key@, value).contains_key(k)
            && pairs_map(after)[k] == pairs_map(before).insert(key@, value)[k] by {
        let a = choose|a: int| 0 <= a < after.len() && (#[trigger] after[a]).0@ == k;
        if k != key@ {
            assert(a != n);
            assert(after[a] == before[a]);
            let b = choose|b: int| 0 <= b < before.len() && (#[trigger] before[b]).0@ == k;
            assert(after[b] == before[b]);
            assert(a == b);
        } else {
            assert(a == n);
        }
    }
    assert forall|k: Seq<char>|
        #![auto]
        pairs_map(before).insert(key@, value).contains_key(k) implies pairs_map(after).contains_key(k) by {
        if k != key@ {
            let b = choose|b: int| 0 <= b < before.len() && (#[trigger] before[b]).0@ == k;
            assert(after[b] == before[b]);
        } else {
            assert(after[n].0@ == k);
        }
    }
    assert(pairs_map(after) =~= pairs_map(before).insert(key@, value));
}

proof fn lemma_remove<V>(before: Seq<(String, V)>, i: int)
    requires
        keys_unique(before),
        0 <= i < before.len(),
    ensures
        keys_unique(before.remove(i)),
        pairs_map(before.remove(i)) == pairs_map(before).remove(before[i].0@),
{
    let after = before.remove(i);
    let key = before[i].0@;
    assert forall|a: int, b: int|
        0 <= a < after.len() && 0 <= b < after.len() && a != b implies (#[trigger] after[a]).0@
            != (#[trigger] after[b]).0@ by {
        let a2 = if a < i { a } else { a + 1 };
        let b2 = if b < i { b } else { b + 1 };
        assert(after[a] == before[a2]);
        assert(after[b] == before[b2]);
    }
    assert forall|k: Seq<char>|
        #![auto]
        pairs_map(after).contains_key(k) implies pairs_map(before).remove(key).contains_key(k)
            && pairs_map(after)[k] == pairs_map(before).remove(key)[k] by {
        let a = choose|a: int| 0 <= a < after.len() && (#[trigger] after[a]).0@ == k;
        let a2 = if a < i { a } else { a + 1 };
        assert(after[a] == before[a2]);
        assert(a2 != i);
        let b = choose|b: int| 0 <= b < before.len() && (#[trigger] before[b]).0@ == k;
        assert(a2 == b);
    }
    assert forall|k: Seq<char>|
        #![auto]
        pairs_map(before).remove(key).contains_key(k) implies pairs_map(after).contains_key(k) by {
        let b = choose|b: int| 0 <= b < before.len() && (#[trigger] before[b]).0@ == k;
        assert(b != i);
        let b2 = if b < i { b } else { b - 1 };
        assert(after[b2] == before[b]);
    }
    assert(pairs_map(after) =~= pairs_map(before).remove(key));
}

impl<V> TextMap<V> {
    /// Keys are unique.
    pub closed spec fn wf(&self) -> bool {
        keys_unique(self.entries@)
    }

    /// An empty map.
    pub fn new() -> (r: Self)
        ensures
            r.wf(),
            r@ == Map::<Seq<char>, V>::empty(),
    {
        let r = TextMap { entries: Vec::new() };
        assert(r@ =~= Map::<Seq<char>, V>::empty());
        r
    }

    fn position(&self, key: &str) -> (r: Option<usize>)
        ensures
            r is Some ==> r->0 < self.entries@.len() && self.entries@[r->0 as int].0@ == key@,
            r is None ==> forall|j: int|
                0 <= j < self.entries@.len() ==> (#[trigger] self.entries@[j]).0@ != key@,
    {
        let mut i: usize = 0;
        while i < self.entries.len()
            invariant
                i <= self.entries@.len(),
                forall|j: int| 0 <= j < i ==> (#[trigger] self.entries@[j]).0@ != key@,
            decreases self.entries@.len() - i,
        {
            if same_text(self.entries[i].0.as_str(), key) {
                return Some(i);
            }
            i = i + 1;
        }
        None
    }

    /// The value stored under `key`, if any.
    pub fn get(&self, key: &str) -> (r: Option<&V>)
        requires
            self.wf(),
        ensures
            self@.contains_key(key@) ==> r is Some && *r->0 == self@[key@],
            !self@.contains_key(key@) ==> r is None,
    {
        match self.position(key) {
            Some(i) => {
                proof {
                    let k = choose|k: int|
                        0 <= k < self.entries@.len() && (#[trigger] self.entries@[k]).0@ == key@;
                    assert(k == i as int);
                }
                Some(&self.entries[i].1)
            },
            None => None,
        }
    }

    /// Stores `value` under `key`, replacing what was there.
    pub fn insert(&mut self, key: &str, value: V)
        requires
            old(self).wf(),
        ensures
            final(self).wf(),
            final(self)@ == old(self)@.insert(key@, value),
    {
        let k = key.to_owned();
        match self.position(key) {
            Some(i) => {
                proof {
                    lemma_update(self.entries@, i as int, k, value);
                }
                self.entries.set(i, (k, value));
            },
            None => {
                proof {
                    lemma_push(self.entries@, k, value);
                }
                self.entries.push((k, value));
            },
        }
    }

    /// Removes `key`, returning its value if it was there.
    pub fn remove(&mut self, key: &str) -> (r: Option<V>)
        requires
            old(self).wf(),
        ensures
            final(self).wf(),
            final(self)@ == old(self)@.remove(key@),
            old(self)@.contains_key(key@) ==> r is Some && r->0 == old(self)@[key@],
            !old(self)@.contains_key(key@) ==> r is None,
    {
        match self.position(key) {
            Some(i) => {
                proof {
                    lemma_remove(self.entries@, i as int);
                    let k = choose|k: int|
                        0 <= k < self.entries@.len() && (#[trigger] self.entries@[k]).0@ == key@;
                    assert(k == i as int);
                }
                let (_, v) = self.entries.remove(i);
                Some(v)
            },
            None => {
                assert(self@ =~= self@.remove(key@));
                None
            },
        }
    }

    /// Removes every entry.
    pub fn clear(&mut self)
        ensures
            final(self).wf(),
            final(self)@ == Map::<Seq<char>, V>::empty(),
    {
        self.entries.clear();
        assert(self@ =~= Map::<Seq<char>, V>::empty());
    }
}

} // verus!
