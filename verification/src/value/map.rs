//! The ordered map that map values and keyword arguments hold, and what
//! it means to look a key up in a sequence of entries.

use vstd::prelude::*;
use crate::text::str_eq;
use crate::value::{Value, ValueView};

verus! {

/// An ordered mapping from string keys to values.
///
/// Entries keep the order in which their keys were first inserted, and
/// every key occurs once ([`ValueMap::wf`]): a map built through
/// [`ValueMap::new`] and [`ValueMap::insert`] is such a map, and only such
/// a map becomes a value.
pub struct ValueMap<X> {
    pub entries: Vec<(String, Value<X>)>,
}

/// The keys and the views of the values of a sequence of entries, in order.
pub open spec fn entries_view<X>(entries: Seq<(String, Value<X>)>) -> Seq<(Seq<char>, ValueView<X>)> {
    Seq::new(entries.len(), |i: int| (entries[i].0@, entries[i].1@))
}

impl<X> View for ValueMap<X> {
    type V = Seq<(Seq<char>, ValueView<X>)>;

    open spec fn view(&self) -> Seq<(Seq<char>, ValueView<X>)> {
        entries_view(self.entries@)
    }
}

/// Whether `i` is the place of the first entry with the key `name`.
pub open spec fn is_first_key<V>(entries: Seq<(Seq<char>, V)>, name: Seq<char>, i: int) -> bool {
    &&& 0 <= i < entries.len()
    &&& entries[i].0 == name
    &&& forall|j: int| 0 <= j < i ==> (#[trigger] entries[j]).0 != name
}

/// Whether some entry has the key `name`.
pub open spec fn has_key<V>(entries: Seq<(Seq<char>, V)>, name: Seq<char>) -> bool {
    exists|i: int| is_first_key(entries, name, i)
}

/// The place of the first entry with the key `name`.
pub open spec fn key_place<V>(entries: Seq<(Seq<char>, V)>, name: Seq<char>) -> int {
    choose|i: int| is_first_key(entries, name, i)
}

/// The value of the first entry with the key `name`.
pub open spec fn lookup<V>(entries: Seq<(Seq<char>, V)>, name: Seq<char>) -> Option<V> {
    if has_key(entries, name) {
        Some(entries[key_place(entries, name)].1)
    } else {
        None
    }
}

/// The entries after `value` is put under `name`: a key that is present
/// keeps its place and gets the new value, a new key goes to the end.
pub open spec fn inserted<V>(entries: Seq<(Seq<char>, V)>, name: Seq<char>, value: V) -> Seq<
    (Seq<char>, V),
> {
    if has_key(entries, name) {
        entries.update(key_place(entries, name), (name, value))
    } else {
        entries.push((name, value))
    }
}

/// Whether every key occurs once.
pub open spec fn unique_keys<V>(entries: Seq<(Seq<char>, V)>) -> bool {
    forall|i: int, j: int|
        0 <= i < j < entries.len() ==> (#[trigger] entries[i]).0 != (#[trigger] entries[j]).0
}

/// The first entry with the key `name` is at one place only, and `lookup`
/// finds its value.
pub proof fn lemma_lookup_found<V>(entries: Seq<(Seq<char>, V)>, name: Seq<char>, i: int)
    requires
        is_first_key(entries, name, i),
    ensures
        has_key(entries, name),
        key_place(entries, name) == i,
        lookup(entries, name) == Some(entries[i].1),
{
    // Of two first places, neither lies before the other.
    assert(is_first_key(entries, name, key_place(entries, name)));
}

/// Where no entry has the key `name`, `lookup` finds nothing.
pub proof fn lemma_lookup_missing<V>(entries: Seq<(Seq<char>, V)>, name: Seq<char>)
    requires
        forall|j: int| 0 <= j < entries.len() ==> (#[trigger] entries[j]).0 != name,
    ensures
        !has_key(entries, name),
        lookup(entries, name) is None,
{
}

/// Where an entry has the key `name`, some entry is the first to have it.
pub proof fn lemma_some_first_key<V>(entries: Seq<(Seq<char>, V)>, name: Seq<char>, j: int)
    requires
        0 <= j < entries.len(),
        entries[j].0 == name,
    ensures
        has_key(entries, name),
    decreases j,
{
    if exists|k: int| 0 <= k < j && (#[trigger] entries[k]).0 == name {
        let k = choose|k: int| 0 <= k < j && (#[trigger] entries[k]).0 == name;
        lemma_some_first_key(entries, name, k);
    } else {
        assert(is_first_key(entries, name, j));
    }
}

/// After `value` is put under `name`, `lookup` finds it there, and every
/// key still occurs once where it did before.
pub proof fn lemma_inserted<V>(entries: Seq<(Seq<char>, V)>, name: Seq<char>, value: V)
    ensures
        lookup(inserted(entries, name, value), name) == Some(value),
        unique_keys(entries) ==> unique_keys(inserted(entries, name, value)),
        forall|other: Seq<char>|
            other != name ==> #[trigger] lookup(inserted(entries, name, value), other) == lookup(
                entries,
                other,
            ),
{
    let after = inserted(entries, name, value);
    if has_key(entries, name) {
        let i = key_place(entries, name);
        assert(is_first_key(after, name, i)) by {
            assert forall|j: int| 0 <= j < i implies (#[trigger] after[j]).0 != name by {
                assert(after[j] == entries[j]);
            }
        }
        lemma_lookup_found(after, name, i);
        if unique_keys(entries) {
            assert forall|a: int, b: int| 0 <= a < b < after.len() implies (#[trigger] after[a]).0
                != (#[trigger] after[b]).0 by {
                assert(after[a].0 == entries[a].0 && after[b].0 == entries[b].0);
            }
        }
    } else {
        let n = entries.len() as int;
        assert(is_first_key(after, name, n)) by {
            assert forall|j: int| 0 <= j < n implies (#[trigger] after[j]).0 != name by {
                if entries[j].0 == name {
                    lemma_some_first_key(entries, name, j);
                }
            }
        }
        lemma_lookup_found(after, name, n);
        if unique_keys(entries) {
            assert forall|a: int, b: int| 0 <= a < b < after.len() implies (#[trigger] after[a]).0
                != (#[trigger] after[b]).0 by {
                if b == n && entries[a].0 == name {
                    lemma_some_first_key(entries, name, a);
                }
            }
        }
    }
    assert forall|other: Seq<char>| other != name implies #[trigger] lookup(after, other)
        == lookup(entries, other) by {
        lemma_inserted_elsewhere(entries, name, value, other);
    }
}

/// Putting a value under `name` changes nothing under any other key.
proof fn lemma_inserted_elsewhere<V>(
    entries: Seq<(Seq<char>, V)>,
    name: Seq<char>,
    value: V,
    other: Seq<char>,
)
    requires
        other != name,
    ensures
        lookup(inserted(entries, name, value), other) == lookup(entries, other),
{
    let after = inserted(entries, name, value);
    // The keys other than `name` stand where they stood, with their values.
    assert forall|i: int| 0 <= i < entries.len() && entries[i].0 != name implies #[trigger] after[i]
        == entries[i] by {}
    if has_key(entries, other) {
        let i = key_place(entries, other);
        assert(is_first_key(after, other, i)) by {
            assert forall|j: int| 0 <= j < i implies (#[trigger] after[j]).0 != other by {
                assert(after[j].0 == entries[j].0);
            }
        }
        lemma_lookup_found(after, other, i);
    } else {
        assert forall|j: int| 0 <= j < after.len() implies (#[trigger] after[j]).0 != other by {
            if j < entries.len() && entries[j].0 == other {
                lemma_some_first_key(entries, other, j);
            }
        }
        lemma_lookup_missing(after, other);
    }
}

impl<X> ValueMap<X> {
    /// Whether every key occurs once.
    pub open spec fn wf(&self) -> bool {
        unique_keys(self@)
    }

    /// The empty map.
    pub fn new() -> (m: ValueMap<X>)
        ensures
            m@ == Seq::<(Seq<char>, ValueView<X>)>::empty(),
            m.wf(),
    {
        let m = ValueMap { entries: Vec::new() };
        m
    }

    /// Whether every key occurs once.
    pub fn has_unique_keys(&self) -> (r: bool)
        ensures
            r == self.wf(),
    {
        let mut i: usize = 0;
        while i < self.entries.len()
            invariant
                i <= self.entries@.len(),
                forall|a: int, b: int|
                    0 <= a < b < i ==> (#[trigger] self@[a]).0 != (#[trigger] self@[b]).0,
            decreases self.entries@.len() - i,
        {
            let key = self.entries[i].0.as_str();
            assert(self@[i as int].0 == key@);
            match self.position(key) {
                Some(first) => {
                    if first != i {
                        // The key of the entry at `i` occurs before it.
                        assert(self@[first as int].0 == self@[i as int].0);
                        return false;
                    }
                },
                None => {
                    proof {
                        lemma_some_first_key(self@, key@, i as int);
                    }
                    return false;
                },
            }
            i += 1;
        }
        true
    }

    /// The number of entries.
    pub fn len(&self) -> (n: usize)
        ensures
            n == self@.len(),
    {
        self.entries.len()
    }

    /// The place of the first entry with the key `key`.
    pub fn position(&self, key: &str) -> (r: Option<usize>)
        ensures
            match r {
                Some(i) => is_first_key(self@, key@, i as int),
                None => !has_key(self@, key@),
            },
    {
        let mut i: usize = 0;
        while i < self.entries.len()
            invariant
                i <= self.entries@.len(),
                forall|j: int| 0 <= j < i ==> (#[trigger] self@[j]).0 != key@,
            decreases self.entries@.len() - i,
        {
            if str_eq(self.entries[i].0.as_str(), key) {
                return Some(i);
            }
            i += 1;
        }
        proof {
            lemma_lookup_missing(self@, key@);
        }
        None
    }

    /// The value under the key `key`.
    pub fn get(&self, key: &str) -> (r: Option<&Value<X>>)
        ensures
            match r {
                Some(v) => lookup(self@, key@) == Some(v@),
                None => lookup(self@, key@) is None,
            },
    {
        match self.position(key) {
            Some(i) => {
                proof {
                    lemma_lookup_found(self@, key@, i as int);
                }
                Some(&self.entries[i].1)
            },
            None => None,
        }
    }

    /// Puts `value` under `key`. A key that is already present keeps its
    /// place and gets the new value; a new key goes to the end.
    pub fn insert(&mut self, key: String, value: Value<X>)
        ensures
            final(self)@ == inserted(old(self)@, key@, value@),
            lookup(final(self)@, key@) == Some(value@),
            old(self).wf() ==> final(self).wf(),
    {
        proof {
            lemma_inserted(self@, key@, value@);
        }
        match self.position(key.as_str()) {
            Some(i) => {
                proof {
                    lemma_lookup_found(self@, key@, i as int);
                }
                self.entries.set(i, (key, value));
            },
            None => {
                self.entries.push((key, value));
            },
        }
    }
}

} // verus!
