//! Structured fields attached to a single log event: an ordered-by-key
//! mapping from field name to field value, with unique keys. A later insert
//! for an existing key overwrites its value.

use vstd::prelude::*;
use crate::strutil::{str_lt, str_eq, str_lt_exec, lemma_str_lt_trichotomy, lemma_str_lt_transitive};
use vstd::string::StringExecFns;

verus! {

/// Structured fields for one log event. Values are stored pre-stringified;
/// the entries are kept sorted by key, with no duplicate keys.
pub struct Fields {
    entries: Vec<(String, String)>,
}

impl View for Fields {
    type V = Seq<(Seq<char>, Seq<char>)>;

    closed spec fn view(&self) -> Seq<(Seq<char>, Seq<char>)> {
        self.entries@.map_values(|e: (String, String)| (e.0@, e.1@))
    }
}

/// The entries of a field list are strictly sorted by key.
pub open spec fn fields_sorted(s: Seq<(Seq<char>, Seq<char>)>) -> bool {
    forall|i: int, j: int| 0 <= i < j < s.len() ==> str_lt(#[trigger] s[i].0, #[trigger] s[j].0)
}

/// The value stored for `k`, if any.
pub open spec fn fields_lookup(s: Seq<(Seq<char>, Seq<char>)>, k: Seq<char>) -> Option<Seq<char>>
    decreases s.len(),
{
    if s.len() == 0 {
        Option::None
    } else if s[0].0 == k {
        Option::Some(s[0].1)
    } else {
        fields_lookup(s.drop_first(), k)
    }
}

/// Lookup after an update at some index: the updated key reads back the new
/// value, every other key is unaffected.
proof fn lemma_lookup_update(s: Seq<(Seq<char>, Seq<char>)>, i: int, k: Seq<char>, v: Seq<char>)
    requires
        0 <= i < s.len(),
        s[i].0 == k,
        forall|j: int| 0 <= j < i ==> s[j].0 != k,
    ensures
        fields_lookup(s.update(i, (k, v)), k) == Option::Some(v),
        forall|k2: Seq<char>|
            k2 != k ==> fields_lookup(s.update(i, (k, v)), k2) == fields_lookup(s, k2),
    decreases s.len(),
{
    let t = s.update(i, (k, v));
    if i == 0 {
        assert(t.drop_first() =~= s.drop_first());
        assert(fields_lookup(t, k) == Option::Some(v));
        assert forall|k2: Seq<char>| k2 != k implies fields_lookup(t, k2) == fields_lookup(
            s,
            k2,
        ) by {
            assert(t[0].0 == k);
            assert(s[0].0 == k);
        }
    } else {
        assert(t[0] == s[0]);
        assert(t.drop_first() =~= s.drop_first().update(i - 1, (k, v)));
        lemma_lookup_update(s.drop_first(), i - 1, k, v);
        assert forall|k2: Seq<char>| k2 != k implies fields_lookup(t, k2) == fields_lookup(
            s,
            k2,
        ) by {
            if t[0].0 != k2 {
                assert(fields_lookup(t, k2) == fields_lookup(t.drop_first(), k2));
                assert(fields_lookup(s, k2) == fields_lookup(s.drop_first(), k2));
            }
        }
    }
}

/// Lookup after an insertion at some index where the key was absent.
proof fn lemma_lookup_insert(s: Seq<(Seq<char>, Seq<char>)>, i: int, k: Seq<char>, v: Seq<char>)
    requires
        0 <= i <= s.len(),
        forall|j: int| 0 <= j < s.len() ==> (#[trigger] s[j].0) != k,
    ensures
        fields_lookup(s.insert(i, (k, v)), k) == Option::Some(v),
        forall|k2: Seq<char>|
            k2 != k ==> fields_lookup(s.insert(i, (k, v)), k2) == fields_lookup(s, k2),
    decreases s.len(),
{
    let t = s.insert(i, (k, v));
    s.insert_ensures(i, (k, v));
    if i == 0 {
        assert(t[0] == (k, v));
        assert(t.drop_first() =~= s);
        assert forall|k2: Seq<char>| k2 != k implies fields_lookup(t, k2) == fields_lookup(
            s,
            k2,
        ) by {
            assert(fields_lookup(t, k2) == fields_lookup(t.drop_first(), k2));
        }
    } else {
        assert(t[0] == s[0]);
        assert(t.drop_first() =~= s.drop_first().insert(i - 1, (k, v)));
        lemma_lookup_insert(s.drop_first(), i - 1, k, v);
        assert(s[0].0 != k);
        assert forall|k2: Seq<char>| k2 != k implies fields_lookup(t, k2) == fields_lookup(
            s,
            k2,
        ) by {
            if t[0].0 != k2 {
                assert(fields_lookup(t, k2) == fields_lookup(t.drop_first(), k2));
                assert(fields_lookup(s, k2) == fields_lookup(s.drop_first(), k2));
            }
        }
    }
}

impl Fields {
    /// Well-formed fields: keys strictly sorted (hence unique).
    pub open spec fn wf(&self) -> bool {
        fields_sorted(self@)
    }

    /// An empty field list.
    pub fn new() -> (r: Fields)
        ensures
            r.wf(),
            r@ =~= Seq::<(Seq<char>, Seq<char>)>::empty(),
    {
        Fields { entries: Vec::new() }
    }

    /// Wraps entries that are already sorted by key.
    pub(crate) fn from_entries(entries: Vec<(String, String)>) -> (r: Fields)
        requires
            fields_sorted(entries@.map_values(|e: (String, String)| (e.0@, e.1@))),
        ensures
            r.wf(),
            r@ == entries@.map_values(|e: (String, String)| (e.0@, e.1@)),
    {
        Fields { entries }
    }

    pub fn len(&self) -> (r: usize)
        ensures
            r == self@.len(),
    {
        self.entries.len()
    }

    pub fn is_empty(&self) -> (r: bool)
        ensures
            r == (self@.len() == 0),
    {
        self.entries.len() == 0
    }

    /// The key of the entry at position `i`.
    pub fn key_at(&self, i: usize) -> (r: &String)
        requires
            i < self@.len(),
        ensures
            r@ == self@[i as int].0,
    {
        &self.entries[i].0
    }

    /// The value of the entry at position `i`.
    pub fn value_at(&self, i: usize) -> (r: &String)
        requires
            i < self@.len(),
        ensures
            r@ == self@[i as int].1,
    {
        &self.entries[i].1
    }

    /// Looks the key up and returns a copy of its value, if present.
    pub fn get(&self, key: &str) -> (r: Option<String>)
        requires
            self.wf(),
        ensures
            match r {
                Option::Some(v) => fields_lookup(self@, key@) == Option::Some(v@),
                Option::None => fields_lookup(self@, key@) == Option::<Seq<char>>::None,
            },
    {
        let n = self.entries.len();
        let mut i: usize = 0;
        while i < n
            invariant
                n == self@.len(),
                i <= n,
                self.wf(),
                forall|j: int| 0 <= j < i ==> (#[trigger] self@[j].0) != key@,
            decreases n - i,
        {
            if str_eq(self.entries[i].0.as_str(), key) {
                proof {
                    lemma_lookup_prefix_miss(self@, i as int, key@);
                }
                return Option::Some(self.entries[i].1.clone());
            }
            i = i + 1;
        }
        proof {
            lemma_lookup_all_miss(self@, key@);
        }
        Option::None
    }

    /// Inserts `key -> value`; an existing entry for `key` is overwritten.
    /// Entries stay sorted by key.
    pub fn insert(&mut self, key: &str, value: &str)
        requires
            old(self).wf(),
        ensures
            final(self).wf(),
            fields_lookup(final(self)@, key@) == Option::Some(value@),
            forall|k2: Seq<char>|
                k2 != key@ ==> fields_lookup(final(self)@, k2) == fields_lookup(old(self)@, k2),
            final(self)@.len() == old(self)@.len() + (
                if fields_lookup(old(self)@, key@) is Some { 0int } else { 1int }
            ),
    {
        let n = self.entries.len();
        let mut i: usize = 0;
        while i < n && str_lt_exec(self.entries[i].0.as_str(), key)
            invariant
                n == self@.len(),
                i <= n,
                self.wf(),
                forall|j: int| 0 <= j < i ==> str_lt(#[trigger] self@[j].0, key@),
            decreases n - i,
    {
            i = i + 1;
        }
        let ghost prev = self@;
        proof {
            assert forall|j: int| 0 <= j < i implies (#[trigger] prev[j].0) != key@ by {
                lemma_str_lt_trichotomy(prev[j].0, key@);
            }
        }
        if i < n && str_eq(self.entries[i].0.as_str(), key) {
            // Overwrite in place.
            let pair = (self.entries[i].0.clone(), String::from_str(value));
            self.entries.remove(i);
            self.entries.insert(i, pair);
            proof {
                assert(self@ =~= prev.update(i as int, (key@, value@)));
                lemma_lookup_update(prev, i as int, key@, value@);
                lemma_lookup_prefix_miss_found(prev, i as int, key@);
                // Keys are unchanged position by position, so order is kept.
                let s = self@;
                assert forall|j: int| 0 <= j < s.len() implies (#[trigger] s[j].0) == prev[j].0 by {
                    if j != i {
                        assert(s[j] == prev[j]);
                    }
                }
            }
        } else {
            // Insert at the sorted position. Every key at or after the
            // position is strictly above the new key.
            proof {
                if (i as int) < n {
                    lemma_str_lt_trichotomy(prev[i as int].0, key@);
                }
                assert forall|j: int| i <= j < prev.len() implies str_lt(
                    key@,
                    #[trigger] prev[j].0,
                ) by {
                    if j > i {
                        lemma_str_lt_transitive(key@, prev[i as int].0, prev[j].0);
                    }
                }
                assert forall|j: int| 0 <= j < prev.len() implies (#[trigger] prev[j].0)
                    != key@ by {
                    if j < i {
                    } else {
                        lemma_str_lt_trichotomy(key@, prev[j].0);
                    }
                }
                lemma_lookup_all_miss(prev, key@);
            }
            let pair = (String::from_str(key), String::from_str(value));
            self.entries.insert(i, pair);
            proof {
                prev.insert_ensures(i as int, (key@, value@));
                assert(self@ =~= prev.insert(i as int, (key@, value@)));
                lemma_lookup_insert(prev, i as int, key@, value@);
                // Sortedness of the new list.
                let s = self@;
                assert forall|x: int, y: int| 0 <= x < y < s.len() implies str_lt(
                    #[trigger] s[x].0,
                    #[trigger] s[y].0,
                ) by {
                    if y < i {
                        assert(s[x] == prev[x] && s[y] == prev[y]);
                    } else if x > i {
                        assert(s[x] == prev[x - 1] && s[y] == prev[y - 1]);
                    } else if x < i && y == i {
                        assert(s[x] == prev[x] && s[y] == (key@, value@));
                    } else if x < i && y > i {
                        assert(s[x] == prev[x] && s[y] == prev[y - 1]);
                        lemma_str_lt_transitive(s[x].0, key@, prev[y - 1].0);
                    } else if x == i && y > i {
                        assert(s[x] == (key@, value@) && s[y] == prev[y - 1]);
                    }
                }
            }
        }
    }
}

/// If the first `i` keys miss `k` and entry `i` carries `k`, the lookup in a
/// list updated at `i` is unaffected for other positions; helper for `get`.
proof fn lemma_lookup_prefix_miss(s: Seq<(Seq<char>, Seq<char>)>, i: int, k: Seq<char>)
    requires
        0 <= i < s.len(),
        s[i].0 == k,
        forall|j: int| 0 <= j < i ==> (#[trigger] s[j].0) != k,
    ensures
        fields_lookup(s, k) == Option::Some(s[i].1),
    decreases s.len(),
{
    if i > 0 {
        lemma_lookup_prefix_miss(s.drop_first(), i - 1, k);
    }
}

/// Same fact, phrased for the overwrite branch of `insert`.
proof fn lemma_lookup_prefix_miss_found(s: Seq<(Seq<char>, Seq<char>)>, i: int, k: Seq<char>)
    requires
        0 <= i < s.len(),
        s[i].0 == k,
        forall|j: int| 0 <= j < i ==> (#[trigger] s[j].0) != k,
    ensures
        fields_lookup(s, k) is Some,
    decreases s.len(),
{
    lemma_lookup_prefix_miss(s, i, k);
}

/// If no key matches, the lookup misses.
proof fn lemma_lookup_all_miss(s: Seq<(Seq<char>, Seq<char>)>, k: Seq<char>)
    requires
        forall|j: int| 0 <= j < s.len() ==> (#[trigger] s[j].0) != k,
    ensures
        fields_lookup(s, k) == Option::<Seq<char>>::None,
    decreases s.len(),
{
    if s.len() > 0 {
        lemma_lookup_all_miss(s.drop_first(), k);
    }
}

} // verus!
