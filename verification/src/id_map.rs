//! A small map keyed by string ids, as the run bookkeeping needs it: what was replaced, and
//! the text accumulated so far, per message or tool call.
use vstd::prelude::*;
use crate::text::str_eq;

verus! {

/// The value stored under `key` in `entries` from position `k` on: the first entry with that
/// key.
pub open spec fn lookup_from<T>(entries: Seq<(String, T)>, key: Seq<char>, k: int) -> Option<T>
    decreases entries.len() - k,
{
    if k < 0 || k >= entries.len() {
        None
    } else if entries[k].0@ == key {
        Some(entries[k].1)
    } else {
        lookup_from(entries, key, k + 1)
    }
}

proof fn lemma_lookup_push<T>(entries: Seq<(String, T)>, x: (String, T), key: Seq<char>, k: int)
    requires
        0 <= k <= entries.len(),
    ensures
        lookup_from(entries.push(x), key, k) == match lookup_from(entries, key, k) {
            Some(v) => Some(v),
            None => if x.0@ == key {
                Some(x.1)
            } else {
                None
            },
        },
    decreases entries.len() - k,
{
    if k < entries.len() {
        assert(entries.push(x)[k] == entries[k]);
        lemma_lookup_push(entries, x, key, k + 1);
    } else {
        assert(entries.push(x)[k] == x);
        assert(lookup_from(entries.push(x), key, k + 1) is None);
    }
}

proof fn lemma_lookup_update<T>(
    entries: Seq<(String, T)>,
    i: int,
    v: T,
    key: Seq<char>,
    k: int,
)
    requires
        0 <= k <= entries.len(),
        k <= i < entries.len(),
        forall|j: int| k <= j < i ==> (#[trigger] entries[j]).0@ != entries[i].0@,
    ensures
        lookup_from(entries.update(i, (entries[i].0, v)), key, k) == if key == entries[i].0@ {
            Some(v)
        } else {
            lookup_from(entries, key, k)
        },
    decreases entries.len() - k,
{
    let e2 = entries.update(i, (entries[i].0, v));
    if k < i {
        assert(e2[k] == entries[k]);
        lemma_lookup_update(entries, i, v, key, k + 1);
    } else {
        assert(e2[k] == (entries[i].0, v));
        if key != entries[i].0@ {
            lemma_lookup_same_tail(entries, e2, key, k + 1);
        }
    }
}

proof fn lemma_lookup_same_tail<T>(a: Seq<(String, T)>, b: Seq<(String, T)>, key: Seq<char>, k: int)
    requires
        a.len() == b.len(),
        0 <= k,
        forall|j: int| k <= j < a.len() ==> a[j] == b[j],
    ensures
        lookup_from(a, key, k) == lookup_from(b, key, k),
    decreases a.len() - k,
{
    if k < a.len() {
        lemma_lookup_same_tail(a, b, key, k + 1);
    }
}

/// The entries without those whose key is `key`.
pub open spec fn without_key<T>(entries: Seq<(String, T)>, key: Seq<char>) -> Seq<(String, T)>
    decreases entries.len(),
{
    if entries.len() == 0 {
        entries
    } else {
        let rest = without_key(entries.drop_last(), key);
        if entries.last().0@ == key {
            rest
        } else {
            rest.push(entries.last())
        }
    }
}

proof fn lemma_lookup_without<T>(entries: Seq<(String, T)>, key: Seq<char>, other: Seq<char>)
    ensures
        lookup_from(without_key(entries, key), other, 0) == if other == key {
            None
        } else {
            lookup_from(entries, other, 0)
        },
    decreases entries.len(),
{
    if entries.len() > 0 {
        let init = entries.drop_last();
        lemma_lookup_without(init, key, other);
        let rest = without_key(init, key);
        assert(entries == init.push(entries.last()));
        lemma_lookup_push(init, entries.last(), other, 0);
        if entries.last().0@ != key {
            lemma_lookup_push(rest, entries.last(), other, 0);
        }
    }
}

/// A map from string ids to values. Its view is `get`: what is stored under each id.
pub struct IdMap<T> {
    entries: Vec<(String, T)>,
}

impl<T> IdMap<T> {
    /// What is stored under `key`.
    pub closed spec fn get(&self, key: Seq<char>) -> Option<T> {
        lookup_from(self.entries@, key, 0)
    }

    /// The empty map.
    pub fn new() -> (r: Self)
        ensures
            forall|key: Seq<char>| r.get(key) is None,
    {
        IdMap { entries: Vec::new() }
    }

    /// The position of the first entry with the given key.
    fn position(&self, key: &str) -> (r: Option<usize>)
        ensures
            match r {
                Some(i) => i < self.entries@.len() && self.entries@[i as int].0@ == key@ && forall|
                    j: int,
                | 0 <= j < i ==> (#[trigger] self.entries@[j]).0@ != key@,
                None => forall|j: int|
                    0 <= j < self.entries@.len() ==> (#[trigger] self.entries@[j]).0@ != key@,
            },
    {
        let mut i: usize = 0;
        while i < self.entries.len()
            invariant
                i <= self.entries@.len(),
                forall|j: int| 0 <= j < i ==> (#[trigger] self.entries@[j]).0@ != key@,
            decreases self.entries.len() - i,
        {
            if str_eq(self.entries[i].0.as_str(), key) {
                return Some(i);
            }
            i += 1;
        }
        None
    }

    proof fn lemma_position_lookup(&self, key: Seq<char>, i: int)
        requires
            0 <= i <= self.entries@.len(),
            forall|j: int| 0 <= j < i ==> (#[trigger] self.entries@[j]).0@ != key,
        ensures
            self.get(key) == lookup_from(self.entries@, key, i),
        decreases i,
    {
        if i > 0 {
            self.lemma_position_lookup(key, i - 1);
        }
    }

    /// The value stored under `key`, if any.
    pub fn lookup(&self, key: &str) -> (r: Option<&T>)
        ensures
            match r {
                Some(v) => self.get(key@) == Some(*v),
                None => self.get(key@) is None,
            },
    {
        match self.position(key) {
            Some(i) => {
                proof {
                    self.lemma_position_lookup(key@, i as int);
                }
                Some(&self.entries[i].1)
            },
            None => {
                proof {
                    self.lemma_position_lookup(key@, self.entries@.len() as int);
                }
                None
            },
        }
    }

    /// Stores `value` under `key`, in place of what was stored there.
    pub fn insert(&mut self, key: String, value: T)
        ensures
            forall|k: Seq<char>| #[trigger]
                final(self).get(k) == if k == key@ {
                    Some(value)
                } else {
                    old(self).get(k)
                },
    {
        match self.position(key.as_str()) {
            Some(i) => {
                proof {
                    assert forall|k: Seq<char>| #[trigger]
                        lookup_from(
                            self.entries@.update(i as int, (self.entries@[i as int].0, value)),
                            k,
                            0,
                        ) == if k == key@ {
                            Some(value)
                        } else {
                            self.get(k)
                        } by {
                        lemma_lookup_update(self.entries@, i as int, value, k, 0);
                    }
                }
                let old_key = self.entries[i].0.clone();
                self.entries.set(i, (old_key, value));
            },
            None => {
                let ghost before = self.entries@;
                proof {
                    self.lemma_position_lookup(key@, self.entries@.len() as int);
                }
                self.entries.push((key, value));
                proof {
                    assert forall|k: Seq<char>| #[trigger]
                        lookup_from(self.entries@, k, 0) == if k == key@ {
                            Some(value)
                        } else {
                            lookup_from(before, k, 0)
                        } by {
                        lemma_lookup_push(before, (key, value), k, 0);
                    }
                }
            },
        }
    }

    /// Removes what is stored under `key`.
    pub fn remove(&mut self, key: &str)
        ensures
            forall|k: Seq<char>| #[trigger]
                final(self).get(k) == if k == key@ {
                    None
                } else {
                    old(self).get(k)
                },
    {
        let mut entries: Vec<(String, T)> = Vec::new();
        std::mem::swap(&mut entries, &mut self.entries);
        let ghost orig = entries@;
        let mut kept: Vec<(String, T)> = Vec::new();
        for x in it: entries.into_iter()
            invariant
                it.seq() == orig,
                kept@ == without_key(orig.take(it.index() as int), key@),
        {
            let ghost idx = it.index();
            assert(x == orig[idx as int]);
            assert(orig.take(idx + 1).drop_last() =~= orig.take(idx as int));
            if !str_eq(x.0.as_str(), key) {
                kept.push(x);
            }
        }
        assert(orig.take(orig.len() as int) =~= orig);
        self.entries = kept;
        proof {
            assert forall|k: Seq<char>| #[trigger]
                lookup_from(self.entries@, k, 0) == if k == key@ {
                    None
                } else {
                    lookup_from(orig, k, 0)
                } by {
                lemma_lookup_without(orig, key@, k);
            }
        }
    }
}

} // verus!
