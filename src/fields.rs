//! Flat field maps: the key/value form of one feed entry before it becomes a
//! typed record.

use vstd::prelude::*;

verus! {

/// The value that the last of the first `n` entries with key `key` holds,
/// `None` when no entry has that key.
pub open spec fn lookup(entries: Seq<(String, Option<String>)>, n: int, key: Seq<char>) -> Option<
    Option<String>,
>
    decreases n,
{
    if n <= 0 || n > entries.len() {
        None
    } else if entries[n - 1].0@ == key {
        Some(entries[n - 1].1)
    } else {
        lookup(entries, n - 1, key)
    }
}

#[derive(Clone, Debug)]
/// Field names mapped to optional text values. Entries are kept in the order
/// in which they were inserted, and a later entry for a key hides earlier
/// ones.
pub struct FieldMap {
    pub entries: Vec<(String, Option<String>)>,
}

/// An entry's key and optional text.
pub open spec fn entry_view(e: (String, Option<String>)) -> (Seq<char>, Option<Seq<char>>) {
    (e.0@, crate::text::opt_view(e.1))
}

impl FieldMap {
    /// The entries as keys and optional texts, in insertion order.
    pub open spec fn entries_view(&self) -> Seq<(Seq<char>, Option<Seq<char>>)> {
        self.entries@.map_values(|e: (String, Option<String>)| entry_view(e))
    }
    /// The text held under `key`: `None` when the key is absent or holds no
    /// text.
    pub open spec fn value_of(&self, key: Seq<char>) -> Option<Seq<char>> {
        match lookup(self.entries@, self.entries@.len() as int, key) {
            Some(Some(v)) => Some(v@),
            _ => None,
        }
    }

    pub fn new() -> (r: FieldMap)
        ensures
            r.entries@.len() == 0,
            forall|key: Seq<char>| r.value_of(key) is None,
    {
        FieldMap { entries: Vec::new() }
    }

    /// Sets `key` to `value`, hiding what it held before.
    pub fn insert(&mut self, key: String, value: Option<String>)
        ensures
            final(self).entries@ == old(self).entries@.push((key, value)),
            final(self).value_of(key@) == crate::text::opt_view(value),
            forall|k: Seq<char>| k != key@ ==> final(self).value_of(k) == old(self).value_of(k),
    {
        self.entries.push((key, value));
        proof {
            let e = self.entries@;
            assert(e[e.len() - 1] == (key, value));
            assert forall|k: Seq<char>| k != key@ implies lookup(e, e.len() as int, k) == lookup(
                old(self).entries@,
                old(self).entries@.len() as int,
                k,
            ) by {
                lemma_lookup_prefix(old(self).entries@, e, k, old(self).entries@.len() as int);
            }
        }
    }

    /// The text held under `key`.
    pub fn get(&self, key: &str) -> (r: Option<&String>)
        ensures
            match r {
                Some(v) => self.value_of(key@) == Some(v@),
                None => self.value_of(key@) is None,
            },
    {
        let k = String::from_str(key);
        let mut i: usize = self.entries.len();
        while i > 0
            invariant
                i <= self.entries.len(),
                k@ == key@,
                lookup(self.entries@, self.entries@.len() as int, key@) == lookup(
                    self.entries@,
                    i as int,
                    key@,
                ),
            decreases i,
        {
            if self.entries[i - 1].0 == k {
                return match &self.entries[i - 1].1 {
                    Some(v) => Some(v),
                    None => None,
                };
            }
            i = i - 1;
        }
        None
    }
}

proof fn lemma_lookup_prefix(
    a: Seq<(String, Option<String>)>,
    b: Seq<(String, Option<String>)>,
    key: Seq<char>,
    n: int,
)
    requires
        0 <= n <= a.len(),
        a.len() <= b.len(),
        forall|i: int| 0 <= i < a.len() ==> a[i] == b[i],
    ensures
        lookup(a, n, key) == lookup(b, n, key),
    decreases n,
{
    if n > 0 {
        lemma_lookup_prefix(a, b, key, n - 1);
    }
}

} // verus!
