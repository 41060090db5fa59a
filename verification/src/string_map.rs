//! A map with text keys, kept as a list of entries.
use crate::text::text_eq;
use vstd::prelude::*;

verus! {

/// A map from texts to values.
pub struct StringMap<V> {
    entries: Vec<(String, V)>,
}

/// The index of the first entry with the given key, or the number of entries if
/// there is none.
spec fn index_of_key<V>(entries: Seq<(String, V)>, key: Seq<char>) -> int
    decreases entries.len(),
{
    if entries.len() == 0 || entries[0].0@ == key {
        0
    } else {
        1 + index_of_key(entries.skip(1), key)
    }
}

proof fn lemma_index_of_key<V>(entries: Seq<(String, V)>, key: Seq<char>)
    ensures
        0 <= index_of_key(entries, key) <= entries.len(),
        forall|k: int| 0 <= k < index_of_key(entries, key) ==> (#[trigger] entries[k]).0@ != key,
        index_of_key(entries, key) < entries.len() ==> entries[index_of_key(entries, key)].0@ == key,
    decreases entries.len(),
{
    if entries.len() > 0 && entries[0].0@ != key {
        let rest = entries.skip(1);
        lemma_index_of_key(rest, key);
        assert forall|k: int| 0 <= k < index_of_key(entries, key) implies (
        #[trigger] entries[k]).0@ != key by {
            if k > 0 {
                assert(rest[k - 1] == entries[k]);
            }
        }
    }
}

proof fn lemma_index_of_key_unique<V>(entries: Seq<(String, V)>, key: Seq<char>, n: int)
    requires
        0 <= n <= entries.len(),
        forall|k: int| 0 <= k < n ==> (#[trigger] entries[k]).0@ != key,
        n < entries.len() ==> entries[n].0@ == key,
    ensures
        index_of_key(entries, key) == n,
{
    lemma_index_of_key(entries, key);
    let m = index_of_key(entries, key);
    if m < n {
        assert(entries[m].0@ == key);
    } else if n < m {
        assert(entries[n].0@ == key);
    }
}

/// The map that a list of entries stands for: the first entry of a key counts.
spec fn map_of<V>(entries: Seq<(String, V)>) -> Map<Seq<char>, V> {
    Map::new(
        |key: Seq<char>| index_of_key(entries, key) < entries.len(),
        |key: Seq<char>| entries[index_of_key(entries, key)].1,
    )
}

/// Replacing the first entry of a key sets the key's value.
proof fn lemma_update_entry<V>(entries: Seq<(String, V)>, i: int, entry: (String, V))
    requires
        0 <= i < entries.len(),
        i == index_of_key(entries, entry.0@),
    ensures
        map_of(entries.update(i, entry)) == map_of(entries).insert(entry.0@, entry.1),
{
    let after = entries.update(i, entry);
    let key = entry.0@;
    lemma_index_of_key(entries, key);
    assert forall|q: Seq<char>| index_of_key(after, q) == index_of_key(entries, q) by {
        lemma_index_of_key(entries, q);
        let n = index_of_key(entries, q);
        assert forall|m: int| 0 <= m < n implies (#[trigger] after[m]).0@ != q by {
            assert(entries[m].0@ != q);
        }
        lemma_index_of_key_unique(after, q, n);
    }
    assert forall|q: Seq<char>| q != key && index_of_key(entries, q) < entries.len() implies
        after[index_of_key(after, q)] == entries[index_of_key(entries, q)] by {
        lemma_index_of_key(entries, q);
        assert(entries[index_of_key(entries, q)].0@ == q);
    }
    assert(map_of(after) == map_of(entries).insert(key, entry.1));
}

impl<V> View for StringMap<V> {
    type V = Map<Seq<char>, V>;

    closed spec fn view(&self) -> Map<Seq<char>, V> {
        map_of(self.entries@)
    }
}

impl<V> StringMap<V> {
    /// A map without entries.
    pub fn new() -> (r: Self)
        ensures
            r@ == Map::<Seq<char>, V>::empty(),
    {
        let r: StringMap<V> = StringMap { entries: Vec::new() };
        assert(r@ == Map::<Seq<char>, V>::empty());
        r
    }

    fn position(&self, key: &str) -> (r: usize)
        ensures
            r == index_of_key(self.entries@, key@),
            r <= self.entries@.len(),
    {
        let mut i: usize = 0;
        while i < self.entries.len()
            invariant
                i <= self.entries@.len(),
                forall|k: int| 0 <= k < i ==> (#[trigger] self.entries@[k]).0@ != key@,
            decreases self.entries@.len() - i,
        {
            if text_eq(self.entries[i].0.as_str(), key) {
                proof {
                    lemma_index_of_key_unique(self.entries@, key@, i as int);
                }
                return i;
            }
            i += 1;
        }
        proof {
            lemma_index_of_key_unique(self.entries@, key@, i as int);
        }
        i
    }

    /// The value of a key.
    pub fn get(&self, key: &str) -> (r: Option<&V>)
        ensures
            match r {
                Some(v) => self@.contains_key(key@) && *v == self@[key@],
                None => !self@.contains_key(key@),
            },
    {
        let i: usize = self.position(key);
        if i < self.entries.len() {
            Some(&self.entries[i].1)
        } else {
            None
        }
    }

    /// Sets the value of a key, and returns the one that it had.
    pub fn insert(&mut self, key: String, value: V) -> (r: Option<V>)
        ensures
            final(self)@ == old(self)@.insert(key@, value),
            match r {
                Some(v) => old(self)@.contains_key(key@) && v == old(self)@[key@],
                None => !old(self)@.contains_key(key@),
            },
    {
        let i: usize = self.position(key.as_str());
        let ghost before = self.entries@;
        let ghost k = key@;
        proof {
            lemma_index_of_key(before, k);
        }
        if i < self.entries.len() {
            self.entries.push((key, value));
            let prior: (String, V) = self.entries.swap_remove(i);
            proof {
                assert(self.entries@ == before.update(i as int, (key, value)));
                lemma_update_entry(before, i as int, (key, value));
            }
            Some(prior.1)
        } else {
            self.entries.push((key, value));
            proof {
                let after = self.entries@;
                assert forall|q: Seq<char>| q != k implies (if index_of_key(before, q)
                    < before.len() {
                    index_of_key(after, q) == index_of_key(before, q)
                } else {
                    index_of_key(after, q) == after.len()
                }) by {
                    lemma_index_of_key(before, q);
                    let n = index_of_key(before, q);
                    assert forall|m: int| 0 <= m < n implies (#[trigger] after[m]).0@ != q by {
                        assert(after[m] == before[m]);
                    }
                    if n < before.len() {
                        lemma_index_of_key_unique(after, q, n);
                    } else {
                        lemma_index_of_key_unique(after, q, n + 1);
                    }
                }
                assert forall|m: int| 0 <= m < before.len() implies (#[trigger] after[m]).0@ != k by {
                    assert(after[m] == before[m]);
                }
                lemma_index_of_key_unique(after, k, before.len() as int);
                assert forall|q: Seq<char>| q != k && index_of_key(before, q) < before.len() implies
                    after[index_of_key(after, q)] == before[index_of_key(before, q)] by {
                    lemma_index_of_key(before, q);
                }
                assert(self@ == old(self)@.insert(k, value));
            }
            None
        }
    }

    /// The value of a key, to be changed in place.
    pub fn get_mut(&mut self, key: &str) -> (r: Option<&mut V>)
        ensures
            match r {
                Some(v) => {
                    &&& old(self)@.contains_key(key@)
                    &&& *v == old(self)@[key@]
                    &&& final(self)@ == old(self)@.insert(key@, *final(v))
                },
                None => !old(self)@.contains_key(key@) && final(self)@ == old(self)@,
            },
    {
        let i: usize = self.position(key);
        proof {
            let entries = self.entries@;
            lemma_index_of_key(entries, key@);
            assert forall|entry: (String, V)|
                i < entries.len() && entry.0@ == key@ implies #[trigger] map_of(
                entries.update(i as int, entry),
            ) == map_of(entries).insert(key@, entry.1) by {
                lemma_update_entry(entries, i as int, entry);
            }
        }
        if i < self.entries.len() {
            Some(&mut self.entries[i].1)
        } else {
            None
        }
    }
}

} // verus!
