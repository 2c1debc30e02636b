//! The preference store: a document of keys and JSON values.
//!
//! The store is held in memory here. The host reads it from durable
//! storage at startup and writes its entries out after a change; a write
//! that fails loses that change and nothing else.

use vstd::prelude::*;

verus! {

/// The value under `key`, if the document has one.
pub open spec fn lookup(document: Map<Seq<char>, serde_json::Value>, key: Seq<char>) -> Option<
    serde_json::Value,
> {
    if document.contains_key(key) {
        Some(document[key])
    } else {
        None
    }
}

/// The preference store. Each key occurs once.
pub struct PreferenceStore {
    entries: Vec<(String, serde_json::Value)>,
}

impl View for PreferenceStore {
    type V = Map<Seq<char>, serde_json::Value>;

    closed spec fn view(&self) -> Map<Seq<char>, serde_json::Value> {
        document_of(self.entries@)
    }
}

spec fn has_key(entries: Seq<(String, serde_json::Value)>, key: Seq<char>) -> bool {
    exists|i: int| 0 <= i < entries.len() && #[trigger] entries[i].0@ == key
}

spec fn index_of(entries: Seq<(String, serde_json::Value)>, key: Seq<char>) -> int {
    choose|i: int| 0 <= i < entries.len() && #[trigger] entries[i].0@ == key
}

spec fn distinct_keys(entries: Seq<(String, serde_json::Value)>) -> bool {
    forall|i: int, j: int|
        0 <= i < j < entries.len() ==> #[trigger] entries[i].0@ != #[trigger] entries[j].0@
}

spec fn document_of(entries: Seq<(String, serde_json::Value)>) -> Map<
    Seq<char>,
    serde_json::Value,
> {
    Map::new(
        |key: Seq<char>| has_key(entries, key),
        |key: Seq<char>| entries[index_of(entries, key)].1,
    )
}

proof fn lemma_index_of(entries: Seq<(String, serde_json::Value)>, key: Seq<char>, i: int)
    requires
        distinct_keys(entries),
        0 <= i < entries.len(),
        entries[i].0@ == key,
    ensures
        has_key(entries, key),
        index_of(entries, key) == i,
{
    let j = index_of(entries, key);
    assert(0 <= j < entries.len() && entries[j].0@ == key);
    if j < i {
        assert(entries[j].0@ != entries[i].0@);
    } else if i < j {
        assert(entries[i].0@ != entries[j].0@);
    }
}

proof fn lemma_drop_last_is_distinct(entries: Seq<(String, serde_json::Value)>)
    requires
        distinct_keys(entries),
        entries.len() > 0,
    ensures
        distinct_keys(entries.drop_last()),
        !has_key(entries.drop_last(), entries.last().0@),
{
    let rest = entries.drop_last();
    assert forall|i: int, j: int| 0 <= i < j < rest.len() implies #[trigger] rest[i].0@
        != #[trigger] rest[j].0@ by {
        assert(entries[i].0@ != entries[j].0@);
    }
    if has_key(rest, entries.last().0@) {
        let j = index_of(rest, entries.last().0@);
        assert(entries[j].0@ != entries[entries.len() - 1].0@);
    }
}

proof fn lemma_append(
    before: Seq<(String, serde_json::Value)>,
    key: String,
    value: serde_json::Value,
)
    requires
        distinct_keys(before),
        !has_key(before, key@),
    ensures
        distinct_keys(before.push((key, value))),
        document_of(before.push((key, value))) == document_of(before).insert(key@, value),
{
    let after = before.push((key, value));
    assert forall|a: int, b: int| 0 <= a < b < after.len() implies #[trigger] after[a].0@
        != #[trigger] after[b].0@ by {
        if b < before.len() {
            assert(before[a].0@ != before[b].0@);
        } else {
            assert(after[a] == before[a]);
        }
    }
    assert forall|k: Seq<char>| has_key(after, k) <==> has_key(before, k) || k == key@ by {
        if has_key(before, k) {
            assert(after[index_of(before, k)].0@ == k);
        }
        if k == key@ {
            assert(after[before.len() as int].0@ == k);
        }
        if has_key(after, k) && index_of(after, k) < before.len() {
            assert(before[index_of(after, k)].0@ == k);
        }
    }
    assert forall|k: Seq<char>| has_key(after, k) implies #[trigger] document_of(after)[k]
        == document_of(before).insert(key@, value)[k] by {
        let j = index_of(after, k);
        if j < before.len() {
            lemma_index_of(before, k, j);
        }
    }
    assert(document_of(after) =~= document_of(before).insert(key@, value));
}

proof fn lemma_replace(
    before: Seq<(String, serde_json::Value)>,
    i: int,
    key: String,
    value: serde_json::Value,
)
    requires
        distinct_keys(before),
        0 <= i < before.len(),
        before[i].0@ == key@,
    ensures
        distinct_keys(before.update(i, (key, value))),
        document_of(before.update(i, (key, value))) == document_of(before).insert(key@, value),
{
    let after = before.update(i, (key, value));
    assert forall|a: int, b: int| 0 <= a < b < after.len() implies #[trigger] after[a].0@
        != #[trigger] after[b].0@ by {
        assert(before[a].0@ != before[b].0@);
    }
    assert forall|k: Seq<char>| has_key(after, k) <==> has_key(before, k) by {
        if has_key(before, k) {
            assert(after[index_of(before, k)].0@ == k);
        }
        if has_key(after, k) {
            assert(before[index_of(after, k)].0@ == k);
        }
    }
    lemma_index_of(before, key@, i);
    assert forall|k: Seq<char>| has_key(after, k) implies #[trigger] document_of(after)[k]
        == document_of(before).insert(key@, value)[k] by {
        let j = index_of(after, k);
        assert(before[j].0@ == k);
        lemma_index_of(before, k, j);
    }
    assert(document_of(after) =~= document_of(before).insert(key@, value));
}

proof fn lemma_domain_size(entries: Seq<(String, serde_json::Value)>)
    requires
        distinct_keys(entries),
    ensures
        document_of(entries).dom().finite(),
        document_of(entries).dom().len() == entries.len(),
    decreases entries.len(),
{
    if entries.len() == 0 {
        assert(document_of(entries).dom() =~= Set::<Seq<char>>::empty());
    } else {
        let rest = entries.drop_last();
        lemma_drop_last_is_distinct(entries);
        lemma_domain_size(rest);
        assert(entries =~= rest.push(entries.last()));
        lemma_append(rest, entries.last().0, entries.last().1);
        assert(document_of(entries).dom() =~= document_of(rest).dom().insert(entries.last().0@));
    }
}

impl PreferenceStore {
    #[verifier::type_invariant]
    spec fn keys_occur_once(&self) -> bool {
        distinct_keys(self.entries@)
    }

    /// A store without entries.
    pub fn new() -> (store: PreferenceStore)
        ensures
            store@ == Map::<Seq<char>, serde_json::Value>::empty(),
    {
        let store = PreferenceStore { entries: Vec::new() };
        assert(store@ =~= Map::<Seq<char>, serde_json::Value>::empty());
        store
    }

    fn position(&self, key: &String) -> (r: Option<usize>)
        ensures
            match r {
                Some(i) => i < self.entries@.len() && self.entries@[i as int].0@ == key@,
                None => !has_key(self.entries@, key@),
            },
    {
        let mut i: usize = 0;
        while i < self.entries.len()
            invariant
                i <= self.entries@.len(),
                forall|j: int| 0 <= j < i ==> (#[trigger] self.entries@[j]).0@ != key@,
            decreases self.entries@.len() - i,
        {
            if self.entries[i].0 == *key {
                return Some(i);
            }
            i += 1;
        }
        None
    }

    /// The value kept under `key`, by reference.
    pub(crate) fn peek(&self, key: &str) -> (r: Option<&serde_json::Value>)
        ensures
            r matches Some(value) ==> lookup(self@, key@) == Some(*value),
            r is None ==> lookup(self@, key@) is None,
    {
        let owned = key.to_owned();
        match self.position(&owned) {
            Some(i) => {
                proof {
                    use_type_invariant(self);
                    lemma_index_of(self.entries@, key@, i as int);
                }
                Some(&self.entries[i].1)
            },
            None => None,
        }
    }

    /// The value kept under `key`, or nothing where the store has no such
    /// key.
    pub fn get(&self, key: &str) -> (r: Option<serde_json::Value>)
        ensures
            r == lookup(self@, key@),
    {
        match self.peek(key) {
            Some(value) => Some(value.clone()),
            None => None,
        }
    }

    /// Puts `value` under `key`, in place of what was kept there.
    pub fn set(&mut self, key: String, value: serde_json::Value)
        ensures
            final(self)@ == old(self)@.insert(key@, value),
    {
        proof {
            use_type_invariant(&*self);
        }
        let found = self.position(&key);
        let mut entries: Vec<(String, serde_json::Value)> = Vec::new();
        core::mem::swap(&mut self.entries, &mut entries);
        match found {
            Some(i) => {
                proof {
                    lemma_replace(entries@, i as int, key, value);
                }
                entries.set(i, (key, value));
            },
            None => {
                proof {
                    lemma_append(entries@, key, value);
                }
                entries.push((key, value));
            },
        }
        core::mem::swap(&mut self.entries, &mut entries);
    }

    /// The number of keys.
    pub fn len(&self) -> (n: usize)
        ensures
            self@.dom().finite(),
            n == self@.dom().len(),
    {
        proof {
            use_type_invariant(self);
            lemma_domain_size(self.entries@);
        }
        self.entries.len()
    }

    /// The keys with their values, for the host to write out. Each key of
    /// the store comes once, with the value kept under it.
    pub fn entries(&self) -> (list: Vec<(String, serde_json::Value)>)
        ensures
            list@.len() == self@.dom().len(),
            forall|i: int|
                0 <= i < list@.len() ==> lookup(self@, (#[trigger] list@[i]).0@) == Some(
                    list@[i].1,
                ),
            forall|i: int, j: int|
                0 <= i < j < list@.len() ==> (#[trigger] list@[i]).0@ != (#[trigger] list@[j]).0@,
    {
        proof {
            use_type_invariant(self);
            lemma_domain_size(self.entries@);
        }
        let mut list: Vec<(String, serde_json::Value)> = Vec::new();
        let mut i: usize = 0;
        while i < self.entries.len()
            invariant
                i <= self.entries@.len(),
                list@.len() == i,
                forall|j: int|
                    0 <= j < i ==> (#[trigger] list@[j]).0@ == self.entries@[j].0@ && list@[j].1
                        == self.entries@[j].1,
            decreases self.entries@.len() - i,
        {
            list.push((self.entries[i].0.clone(), self.entries[i].1.clone()));
            i += 1;
        }
        proof {
            assert forall|j: int| 0 <= j < list@.len() implies lookup(
                self@,
                (#[trigger] list@[j]).0@,
            ) == Some(list@[j].1) by {
                lemma_index_of(self.entries@, self.entries@[j].0@, j);
            }
            assert forall|a: int, b: int| 0 <= a < b < list@.len() implies (#[trigger] list@[a]).0@
                != (#[trigger] list@[b]).0@ by {
                assert(self.entries@[a].0@ != self.entries@[b].0@);
            }
        }
        list
    }
}

/// Round-trip law: a value that was put under a key is the value found
/// under that key, and what is kept under every other key stays as it was.
pub proof fn lemma_set_then_get(
    document: Map<Seq<char>, serde_json::Value>,
    key: Seq<char>,
    value: serde_json::Value,
)
    ensures
        lookup(document.insert(key, value), key) == Some(value),
        forall|other: Seq<char>|
            other != key ==> lookup(document.insert(key, value), other) == lookup(document, other),
{
}

/// A key that the document does not have has no value, and the empty
/// document has none for any key.
pub proof fn lemma_absent_key_has_no_value(
    document: Map<Seq<char>, serde_json::Value>,
    key: Seq<char>,
)
    ensures
        !document.contains_key(key) ==> lookup(document, key) is None,
        lookup(Map::<Seq<char>, serde_json::Value>::empty(), key) is None,
{
}

} // verus!
