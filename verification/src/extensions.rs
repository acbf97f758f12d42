//! Extensions: values that middleware attaches to a request or a response,
//! each under a key of its own.
//!
//! A key is a string and a value is bytes, so that what a message carries
//! can be said and compared: a map from types to values of any type has no
//! content that a contract could speak of.

use crate::text::str_eq;
use vstd::prelude::*;

verus! {

/// A map from keys to values that travels with a message.
#[derive(Debug)]
pub struct Extensions {
    entries: Vec<(String, Vec<u8>)>,
}

/// What an extension map holds.
pub type ExtensionEntries = Map<Seq<char>, Seq<u8>>;

/// The place of `key` among `entries`, if it is there.
pub open spec fn place(entries: Seq<(String, Vec<u8>)>, key: Seq<char>) -> Option<int> {
    if exists|i: int| 0 <= i < entries.len() && (#[trigger] entries[i]).0@ == key {
        Some(choose|i: int| 0 <= i < entries.len() && (#[trigger] entries[i]).0@ == key)
    } else {
        None
    }
}

/// The map that a list of entries with distinct keys stands for.
pub open spec fn entries_map(entries: Seq<(String, Vec<u8>)>) -> ExtensionEntries {
    Map::new(
        |key: Seq<char>| place(entries, key) is Some,
        |key: Seq<char>| entries[place(entries, key)->Some_0].1@,
    )
}

/// Whether no key occurs twice.
pub open spec fn distinct_keys(entries: Seq<(String, Vec<u8>)>) -> bool {
    forall|i: int, j: int|
        0 <= i < j < entries.len() ==> (#[trigger] entries[i]).0@ != (#[trigger] entries[j]).0@
}

/// Two lists with the same keys and values at the same places stand for
/// the same map.
proof fn lemma_same_entries(a: Seq<(String, Vec<u8>)>, b: Seq<(String, Vec<u8>)>)
    requires
        distinct_keys(a),
        a.len() == b.len(),
        forall|k: int| 0 <= k < a.len() ==> (#[trigger] b[k]).0@ == a[k].0@ && b[k].1@ == a[k].1@,
    ensures
        entries_map(a) == entries_map(b),
        distinct_keys(b),
{
    assert forall|k: Seq<char>| #[trigger] place(b, k) is Some == place(a, k) is Some by {
        if place(b, k) is Some {
            assert(a[place(b, k)->Some_0].0@ == k);
        }
        if place(a, k) is Some {
            assert(b[place(a, k)->Some_0].0@ == k);
        }
    }
    assert forall|k: Seq<char>| place(b, k) is Some implies #[trigger] entries_map(b)[k]
        == entries_map(a)[k] by {
        let p = place(b, k)->Some_0;
        let q = place(a, k)->Some_0;
        assert(a[p].0@ == k && a[q].0@ == k);
    }
    assert(entries_map(a) =~= entries_map(b));
}

/// Replacing the value at the place of a key gives the map with that key
/// set anew.
proof fn lemma_same_keys(
    before: Seq<(String, Vec<u8>)>,
    after: Seq<(String, Vec<u8>)>,
    i: int,
    key: Seq<char>,
    value: Seq<u8>,
)
    requires
        distinct_keys(before),
        0 <= i < before.len(),
        before[i].0@ == key,
        after.len() == before.len(),
        after[i].0@ == key,
        after[i].1@ == value,
        forall|k: int| 0 <= k < before.len() && k != i ==> #[trigger] after[k] == before[k],
    ensures
        entries_map(after) == entries_map(before).insert(key, value),
        distinct_keys(after),
{
    assert forall|k: Seq<char>| #[trigger] place(after, k) is Some == (place(before, k) is Some
        || k == key) by {
        if place(after, k) is Some {
            let p = place(after, k)->Some_0;
            assert(after[p].0@ == k);
            if p != i {
                assert(before[p].0@ == k);
            }
        }
        if place(before, k) is Some {
            let p = place(before, k)->Some_0;
            assert(after[p].0@ == k);
        }
        if k == key {
            assert(after[i].0@ == k);
        }
    }
    assert forall|k: Seq<char>| place(after, k) is Some implies #[trigger] entries_map(after)[k]
        == entries_map(before).insert(key, value)[k] by {
        let p = place(after, k)->Some_0;
        assert(after[p].0@ == k);
        if k == key {
            assert(p == i);
        } else {
            let q = place(before, k)->Some_0;
            assert(before[p].0@ == k && before[q].0@ == k);
        }
    }
    assert(entries_map(after) =~= entries_map(before).insert(key, value));
}

/// Adding an entry with a key that is not there gives the map with that
/// key set.
proof fn lemma_new_key(
    before: Seq<(String, Vec<u8>)>,
    after: Seq<(String, Vec<u8>)>,
    key: Seq<char>,
    value: Seq<u8>,
)
    requires
        distinct_keys(before),
        forall|k: int| 0 <= k < before.len() ==> (#[trigger] before[k]).0@ != key,
        after.len() == before.len() + 1,
        after.last().0@ == key,
        after.last().1@ == value,
        forall|k: int| 0 <= k < before.len() ==> #[trigger] after[k] == before[k],
    ensures
        entries_map(after) == entries_map(before).insert(key, value),
        distinct_keys(after),
{
    let n = before.len() as int;
    assert forall|k: Seq<char>| #[trigger] place(after, k) is Some == (place(before, k) is Some
        || k == key) by {
        if place(after, k) is Some {
            let p = place(after, k)->Some_0;
            assert(after[p].0@ == k);
            if p != n {
                assert(before[p].0@ == k);
            }
        }
        if place(before, k) is Some {
            let p = place(before, k)->Some_0;
            assert(after[p].0@ == k);
        }
        if k == key {
            assert(after[n].0@ == k);
        }
    }
    assert forall|k: Seq<char>| place(after, k) is Some implies #[trigger] entries_map(after)[k]
        == entries_map(before).insert(key, value)[k] by {
        let p = place(after, k)->Some_0;
        assert(after[p].0@ == k);
        if k == key {
            assert(p == n);
        } else {
            let q = place(before, k)->Some_0;
            assert(before[p].0@ == k && before[q].0@ == k);
        }
    }
    assert(entries_map(after) =~= entries_map(before).insert(key, value));
}

impl View for Extensions {
    type V = ExtensionEntries;

    closed spec fn view(&self) -> ExtensionEntries {
        entries_map(self.entries@)
    }
}

impl Extensions {
    #[verifier::type_invariant]
    spec fn well_formed(self) -> bool {
        distinct_keys(self.entries@)
    }

    /// An empty map.
    pub fn new() -> (ext: Self)
        ensures
            ext@ == Map::<Seq<char>, Seq<u8>>::empty(),
    {
        Extensions { entries: Vec::new() }
    }

    /// Where `key` stands.
    fn find(&self, key: &str) -> (found: Option<usize>)
        ensures
            found is Some <==> self@.contains_key(key@),
            found matches Some(i) ==> i < self.entries.len() && self.entries[i as int].0@ == key@
                && self.entries[i as int].1@ == self@[key@],
            found is None ==> forall|i: int|
                0 <= i < self.entries.len() ==> (#[trigger] self.entries[i]).0@ != key@,
    {
        proof {
            use_type_invariant(self);
        }
        let mut i: usize = 0;
        while i < self.entries.len()
            invariant
                i <= self.entries.len(),
                distinct_keys(self.entries@),
                forall|k: int| 0 <= k < i ==> (#[trigger] self.entries[k]).0@ != key@,
            decreases self.entries.len() - i,
        {
            if str_eq(self.entries[i].0.as_str(), key) {
                return Some(i);
            }
            i += 1;
        }
        None
    }

    /// The value under `key`.
    pub fn get(&self, key: &str) -> (value: Option<Vec<u8>>)
        ensures
            value is Some <==> self@.contains_key(key@),
            value matches Some(v) ==> v@ == self@[key@],
    {
        match self.find(key) {
            Some(i) => Some(self.entries[i].1.clone()),
            None => None,
        }
    }

    /// Whether there is a value under `key`.
    pub fn contains(&self, key: &str) -> (yes: bool)
        ensures
            yes == self@.contains_key(key@),
    {
        self.find(key).is_some()
    }

    /// Puts `value` under `key`, and hands back the value that was there.
    pub fn insert(&mut self, key: &str, value: Vec<u8>) -> (previous: Option<Vec<u8>>)
        ensures
            final(self)@ == old(self)@.insert(key@, value@),
            previous is Some <==> old(self)@.contains_key(key@),
            previous matches Some(v) ==> v@ == old(self)@[key@],
    {
        proof {
            use_type_invariant(&*self);
        }
        let ghost before = self.entries@;
        let found = self.find(key);
        let mut taken = Extensions { entries: Vec::new() };
        std::mem::swap(self, &mut taken);
        let mut entries = taken.entries;
        match found {
            Some(i) => {
                let previous = entries[i].1.clone();
                entries.set(i, (String::from_str(key), value));
                proof {
                    lemma_same_keys(before, entries@, i as int, key@, value@);
                }
                *self = Extensions { entries };
                Some(previous)
            },
            None => {
                entries.push((String::from_str(key), value));
                proof {
                    lemma_new_key(before, entries@, key@, value@);
                }
                *self = Extensions { entries };
                None
            },
        }
    }

    /// A copy of this map.
    pub fn duplicate(&self) -> (copy: Self)
        ensures
            copy@ == self@,
    {
        proof {
            use_type_invariant(self);
        }
        let mut entries: Vec<(String, Vec<u8>)> = Vec::new();
        let mut i: usize = 0;
        while i < self.entries.len()
            invariant
                i <= self.entries.len(),
                entries.len() == i,
                forall|k: int|
                    0 <= k < i ==> (#[trigger] entries[k]).0@ == self.entries[k].0@ && entries[k].1@
                        == self.entries[k].1@,
            decreases self.entries.len() - i,
        {
            entries.push((self.entries[i].0.clone(), self.entries[i].1.clone()));
            i += 1;
        }
        proof {
            lemma_same_entries(self.entries@, entries@);
        }
        Extensions { entries }
    }
}

impl Clone for Extensions {
    fn clone(&self) -> (copy: Self)
        ensures
            copy@ == self@,
    {
        self.duplicate()
    }
}

} // verus!
