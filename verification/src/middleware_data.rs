//! Data stored by middleware, keyed by middleware name.
use vstd::prelude::*;
use vstd::string::StringExecFns;

use crate::text::str_equal;

verus! {

/// A JSON value as stored by middleware.
#[verifier::external_type_specification]
#[verifier::external_body]
pub struct ExJsonValue(serde_json::Value);

/// A copy of a JSON value.
///
/// Calls `serde_json::Value::clone` (a derived, structural clone); the contract
/// claims that the copy is the same value.
#[verifier::external_body]
fn clone_json_value(value: &serde_json::Value) -> (r: serde_json::Value)
    ensures
        r == *value,
{
    value.clone()
}

/// Data stored by middleware: one JSON value per key.
#[derive(Debug)]
pub struct MiddlewareData {
    entries: Vec<(String, serde_json::Value)>,
}

/// Whether some entry of `entries` has key `k`.
pub open spec fn has_key(entries: Seq<(String, serde_json::Value)>, k: Seq<char>) -> bool {
    exists|i: int| 0 <= i < entries.len() && (#[trigger] entries[i]).0@ == k
}

/// The map made by a list of entries with distinct keys.
pub open spec fn entries_map(entries: Seq<(String, serde_json::Value)>) -> Map<
    Seq<char>,
    serde_json::Value,
> {
    Map::new(
        |k: Seq<char>| has_key(entries, k),
        |k: Seq<char>|
            entries[choose|i: int| 0 <= i < entries.len() && (#[trigger] entries[i]).0@ == k].1,
    )
}

/// No two entries share a key.
pub open spec fn distinct_keys(entries: Seq<(String, serde_json::Value)>) -> bool {
    forall|i: int, j: int|
        0 <= i < entries.len() && 0 <= j < entries.len() && i != j ==> (#[trigger] entries[i]).0@
            != (#[trigger] entries[j]).0@
}

proof fn lemma_entry_value(entries: Seq<(String, serde_json::Value)>, i: int)
    requires
        distinct_keys(entries),
        0 <= i < entries.len(),
    ensures
        entries_map(entries).contains_key(entries[i].0@),
        entries_map(entries)[entries[i].0@] == entries[i].1,
{
    let k = entries[i].0@;
    assert(has_key(entries, k));
    let j = choose|j: int| 0 <= j < entries.len() && (#[trigger] entries[j]).0@ == k;
    assert(j == i);
}

impl View for MiddlewareData {
    type V = Map<Seq<char>, serde_json::Value>;

    closed spec fn view(&self) -> Map<Seq<char>, serde_json::Value> {
        entries_map(self.entries@)
    }
}

impl MiddlewareData {
    #[verifier::type_invariant]
    closed spec fn keys_distinct(self) -> bool {
        distinct_keys(self.entries@)
    }

    /// An empty store.
    pub fn new() -> (r: Self)
        ensures
            r@ == Map::<Seq<char>, serde_json::Value>::empty(),
    {
        let r = MiddlewareData { entries: Vec::new() };
        assert(r@ =~= Map::<Seq<char>, serde_json::Value>::empty());
        r
    }

    /// The index of the entry with key `key`, if any.
    fn find(&self, key: &str) -> (r: Option<usize>)
        ensures
            match r {
                Some(i) => i < self.entries@.len() && self.entries@[i as int].0@ == key@,
                None => !has_key(self.entries@, key@),
            },
    {
        let n = self.entries.len();
        let mut i: usize = 0;
        while i < n
            invariant
                n == self.entries@.len(),
                i <= n,
                forall|j: int| 0 <= j < i ==> (#[trigger] self.entries@[j]).0@ != key@,
            decreases n - i,
        {
            if str_equal(self.entries[i].0.as_str(), key) {
                return Some(i);
            }
            i = i + 1;
        }
        None
    }

    /// The value stored under `key`, if any.
    pub fn get(&self, key: &str) -> (r: Option<&serde_json::Value>)
        ensures
            match r {
                Some(v) => self@.contains_key(key@) && *v == self@[key@],
                None => !self@.contains_key(key@),
            },
    {
        proof {
            use_type_invariant(self);
        }
        match self.find(key) {
            Some(i) => {
                proof {
                    lemma_entry_value(self.entries@, i as int);
                }
                Some(&self.entries[i].1)
            },
            None => None,
        }
    }

    /// Stores `value` under `key`, replacing any value stored there.
    pub fn set(&mut self, key: &str, value: serde_json::Value)
        ensures
            final(self)@ == old(self)@.insert(key@, value),
    {
        proof {
            use_type_invariant(&*self);
        }
        let ghost old_entries = self.entries@;
        let owned = String::from_str(key);
        let found = self.find(key);
        let mut entries: Vec<(String, serde_json::Value)> = Vec::new();
        std::mem::swap(&mut entries, &mut self.entries);
        match found {
            Some(i) => {
                entries.set(i, (owned, value));
                proof {
                    let e = entries@;
                    assert(e == old_entries.update(i as int, (owned, value)));
                    assert forall|a: int, b: int|
                        0 <= a < e.len() && 0 <= b < e.len() && a != b implies (#[trigger] e[a]).0@
                        != (#[trigger] e[b]).0@ by {
                        if a != i as int && b != i as int {
                            assert(e[a] == old_entries[a]);
                            assert(e[b] == old_entries[b]);
                        } else if a == i as int {
                            assert(e[b] == old_entries[b]);
                            assert(old_entries[a].0@ == key@);
                        } else {
                            assert(e[a] == old_entries[a]);
                            assert(old_entries[b].0@ == key@);
                        }
                    }
                    assert forall|k: Seq<char>| has_key(e, k) <==> has_key(old_entries, k) by {
                        if has_key(e, k) {
                            let j = choose|j: int| 0 <= j < e.len() && (#[trigger] e[j]).0@ == k;
                            assert(old_entries[j].0@ == k);
                        }
                        if has_key(old_entries, k) {
                            let j = choose|j: int|
                                0 <= j < old_entries.len() && (#[trigger] old_entries[j]).0@ == k;
                            assert(e[j].0@ == k);
                        }
                    }
                    assert forall|k: Seq<char>| #[trigger]
                        entries_map(e).contains_key(k) && k != key@ implies entries_map(e)[k]
                        == entries_map(old_entries)[k] by {
                        let j = choose|j: int| 0 <= j < e.len() && (#[trigger] e[j]).0@ == k;
                        lemma_entry_value(e, j);
                        lemma_entry_value(old_entries, j);
                    }
                    lemma_entry_value(e, i as int);
                    lemma_entry_value(old_entries, i as int);
                    assert(entries_map(e) =~= entries_map(old_entries).insert(key@, value));
                }
            },
            None => {
                entries.push((owned, value));
                proof {
                    let e = entries@;
                    let n = old_entries.len() as int;
                    assert(e == old_entries.push((owned, value)));
                    assert forall|a: int, b: int|
                        0 <= a < e.len() && 0 <= b < e.len() && a != b implies (#[trigger] e[a]).0@
                        != (#[trigger] e[b]).0@ by {
                        if a < n && b < n {
                            assert(e[a] == old_entries[a]);
                            assert(e[b] == old_entries[b]);
                        } else if a == n {
                            assert(e[b] == old_entries[b]);
                            assert(old_entries[b].0@ != key@);
                        } else {
                            assert(e[a] == old_entries[a]);
                            assert(old_entries[a].0@ != key@);
                        }
                    }
                    assert forall|k: Seq<char>| has_key(e, k) <==> (has_key(old_entries, k) || k
                        == key@) by {
                        if has_key(e, k) {
                            let j = choose|j: int| 0 <= j < e.len() && (#[trigger] e[j]).0@ == k;
                            if j < n {
                                assert(old_entries[j].0@ == k);
                            }
                        }
                        if has_key(old_entries, k) {
                            let j = choose|j: int|
                                0 <= j < old_entries.len() && (#[trigger] old_entries[j]).0@ == k;
                            assert(e[j].0@ == k);
                        }
                        if k == key@ {
                            assert(e[n].0@ == k);
                        }
                    }
                    assert forall|k: Seq<char>| #[trigger]
                        entries_map(e).contains_key(k) && k != key@ implies entries_map(e)[k]
                        == entries_map(old_entries)[k] by {
                        let j = choose|j: int| 0 <= j < e.len() && (#[trigger] e[j]).0@ == k;
                        lemma_entry_value(e, j);
                        lemma_entry_value(old_entries, j);
                    }
                    lemma_entry_value(e, n);
                    assert(entries_map(e) =~= entries_map(old_entries).insert(key@, value));
                }
            },
        }
        self.entries = entries;
    }
}

impl Clone for MiddlewareData {
    /// A copy holding the same values under the same keys.
    fn clone(&self) -> (r: Self)
        ensures
            r@ == self@,
    {
        proof {
            use_type_invariant(self);
        }
        let n = self.entries.len();
        let mut entries: Vec<(String, serde_json::Value)> = Vec::new();
        let mut i: usize = 0;
        while i < n
            invariant
                n == self.entries@.len(),
                i <= n,
                entries@.len() == i,
                distinct_keys(self.entries@),
                forall|j: int|
                    0 <= j < i ==> (#[trigger] entries@[j]).0@ == self.entries@[j].0@
                        && entries@[j].1 == self.entries@[j].1,
            decreases n - i,
        {
            let key = String::from_str(self.entries[i].0.as_str());
            let value = clone_json_value(&self.entries[i].1);
            entries.push((key, value));
            i = i + 1;
        }
        proof {
            let e = entries@;
            let o = self.entries@;
            assert forall|a: int, b: int|
                0 <= a < e.len() && 0 <= b < e.len() && a != b implies (#[trigger] e[a]).0@
                != (#[trigger] e[b]).0@ by {
                assert(o[a].0@ != o[b].0@);
            }
            assert forall|k: Seq<char>| has_key(e, k) <==> has_key(o, k) by {
                if has_key(e, k) {
                    let j = choose|j: int| 0 <= j < e.len() && (#[trigger] e[j]).0@ == k;
                    assert(o[j].0@ == k);
                }
                if has_key(o, k) {
                    let j = choose|j: int| 0 <= j < o.len() && (#[trigger] o[j]).0@ == k;
                    assert(e[j].0@ == k);
                }
            }
            assert forall|k: Seq<char>| #[trigger]
                entries_map(e).contains_key(k) implies entries_map(e)[k] == entries_map(o)[k] by {
                let j = choose|j: int| 0 <= j < e.len() && (#[trigger] e[j]).0@ == k;
                lemma_entry_value(e, j);
                lemma_entry_value(o, j);
            }
            assert(entries_map(e) =~= entries_map(o));
        }
        MiddlewareData { entries }
    }
}

impl Default for MiddlewareData {
    fn default() -> (r: Self)
        ensures
            r@ == Map::<Seq<char>, serde_json::Value>::empty(),
    {
        MiddlewareData::new()
    }
}

/// Reading a key gives back what the last write to it stored, and a write leaves
/// every other key as it was.
pub proof fn lemma_get_after_set(
    data: Map<Seq<char>, serde_json::Value>,
    key: Seq<char>,
    value: serde_json::Value,
    other: Seq<char>,
)
    ensures
        data.insert(key, value).contains_key(key),
        data.insert(key, value)[key] == value,
        other != key ==> (data.insert(key, value).contains_key(other) <==> data.contains_key(
            other,
        )),
        other != key && data.contains_key(other) ==> data.insert(key, value)[other] == data[other],
{
}

/// Writing the same key twice keeps only the second value.
pub proof fn lemma_set_twice(
    data: Map<Seq<char>, serde_json::Value>,
    key: Seq<char>,
    first: serde_json::Value,
    second: serde_json::Value,
)
    ensures
        data.insert(key, first).insert(key, second) == data.insert(key, second),
{
    assert(data.insert(key, first).insert(key, second) =~= data.insert(key, second));
}

} // verus!
