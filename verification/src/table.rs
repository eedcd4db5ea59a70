//! Name tables: lists of named entries in which the first entry of a name
//! is the one that counts. Their model is a map from names to values.

use vstd::prelude::*;

verus! {

/// A table of values by name. `insert` overwrites the entry of a name that
/// is present, so a table built by `new` and `insert` alone holds each name
/// once; whatever the entries, a name stands for its first entry.
#[derive(Debug, PartialEq)]
pub struct Table<V> {
    pub entries: Vec<(String, V)>,
}

/// Whether `i` is the place of the first entry named `key`.
pub open spec fn is_first<V>(entries: Seq<(String, V)>, key: Seq<char>, i: int) -> bool {
    &&& 0 <= i < entries.len()
    &&& entries[i].0@ == key
    &&& forall|j: int| 0 <= j < i ==> (#[trigger] entries[j]).0@ != key
}

/// The place of the first entry named `key`, or the number of entries when
/// there is none.
pub open spec fn first_index<V>(entries: Seq<(String, V)>, key: Seq<char>) -> int
    decreases entries.len(),
{
    if entries.len() == 0 {
        0
    } else if entries[0].0@ == key {
        0
    } else {
        1 + first_index(entries.drop_first(), key)
    }
}

/// The map that a list of entries stands for, each value seen through `f`.
pub open spec fn entries_map<V, M>(entries: Seq<(String, V)>, f: spec_fn(V) -> M) -> Map<
    Seq<char>,
    M,
> {
    Map::new(
        |key: Seq<char>| first_index(entries, key) < entries.len(),
        |key: Seq<char>| f(entries[first_index(entries, key)].1),
    )
}

/// `first_index` is in range and finds the first entry of the name, if any.
pub proof fn lemma_first_index<V>(entries: Seq<(String, V)>, key: Seq<char>)
    ensures
        0 <= first_index(entries, key) <= entries.len(),
        first_index(entries, key) < entries.len() ==> is_first(
            entries,
            key,
            first_index(entries, key),
        ),
        first_index(entries, key) == entries.len() ==> forall|j: int|
            0 <= j < entries.len() ==> (#[trigger] entries[j]).0@ != key,
    decreases entries.len(),
{
    if entries.len() == 0 {
    } else if entries[0].0@ == key {
    } else {
        let rest = entries.drop_first();
        lemma_first_index(rest, key);
        let i = first_index(rest, key);
        assert forall|j: int| 0 <= j < 1 + i && j < entries.len() implies (#[trigger] entries[j]).0@
            != key by {
            if j > 0 {
                assert(entries[j] == rest[j - 1]);
            }
        }
        if i < rest.len() {
            assert(entries[1 + i] == rest[i]);
        }
    }
}

/// The first entry of a name is where `first_index` points.
pub proof fn lemma_first_is_index<V>(entries: Seq<(String, V)>, key: Seq<char>, i: int)
    requires
        is_first(entries, key, i),
    ensures
        first_index(entries, key) == i,
{
    lemma_first_index(entries, key);
    let k = first_index(entries, key);
    if k < i {
        assert(entries[k].0@ == key);
    } else if k > i {
        assert(entries[i].0@ == key);
    }
}

/// No entry of the name: `first_index` is the number of entries.
pub proof fn lemma_absent_index<V>(entries: Seq<(String, V)>, key: Seq<char>)
    requires
        forall|j: int| 0 <= j < entries.len() ==> (#[trigger] entries[j]).0@ != key,
    ensures
        first_index(entries, key) == entries.len(),
{
    lemma_first_index(entries, key);
    let k = first_index(entries, key);
    if k < entries.len() {
        assert(entries[k].0@ == key);
    }
}

proof fn lemma_index_after_update<V>(
    entries: Seq<(String, V)>,
    i: int,
    entry: (String, V),
    key: Seq<char>,
)
    requires
        is_first(entries, entry.0@, i),
    ensures
        first_index(entries.update(i, entry), key) == first_index(entries, key),
{
    let after = entries.update(i, entry);
    lemma_first_index(entries, key);
    let k = first_index(entries, key);
    if k < entries.len() {
        assert forall|j: int| 0 <= j < k implies (#[trigger] after[j]).0@ != key by {
            assert(entries[j].0@ != key);
        }
        lemma_first_is_index(after, key, k);
    } else {
        assert forall|j: int| 0 <= j < after.len() implies (#[trigger] after[j]).0@ != key by {
            assert(entries[j].0@ != key);
        }
        lemma_absent_index(after, key);
    }
}

proof fn lemma_index_after_push<V>(entries: Seq<(String, V)>, entry: (String, V), key: Seq<char>)
    requires
        first_index(entries, entry.0@) == entries.len(),
    ensures
        first_index(entries.push(entry), key) == (if key == entry.0@ {
            entries.len() as int
        } else if first_index(entries, key) < entries.len() {
            first_index(entries, key)
        } else {
            entries.len() as int + 1
        }),
{
    let after = entries.push(entry);
    lemma_first_index(entries, key);
    let k = first_index(entries, key);
    if k < entries.len() {
        assert forall|j: int| 0 <= j < k implies (#[trigger] after[j]).0@ != key by {
            assert(entries[j].0@ != key);
        }
        assert(after[k] == entries[k]);
        lemma_first_is_index(after, key, k);
    } else if key == entry.0@ {
        assert forall|j: int| 0 <= j < entries.len() implies (#[trigger] after[j]).0@ != key by {
            assert(entries[j].0@ != key);
        }
        lemma_first_is_index(after, key, entries.len() as int);
    } else {
        assert forall|j: int| 0 <= j < after.len() implies (#[trigger] after[j]).0@ != key by {
            if j < entries.len() {
                assert(entries[j].0@ != key);
            }
        }
        lemma_absent_index(after, key);
    }
}

/// Overwriting the first entry named `key` changes the map at `key` alone.
pub proof fn lemma_update_map<V, M>(
    entries: Seq<(String, V)>,
    i: int,
    entry: (String, V),
    f: spec_fn(V) -> M,
)
    requires
        is_first(entries, entry.0@, i),
    ensures
        entries_map(entries.update(i, entry), f) == entries_map(entries, f).insert(
            entry.0@,
            f(entry.1),
        ),
{
    let after = entries.update(i, entry);
    let left = entries_map(after, f);
    let right = entries_map(entries, f).insert(entry.0@, f(entry.1));
    lemma_first_is_index(entries, entry.0@, i);
    assert forall|key: Seq<char>| #[trigger] left.contains_key(key) == right.contains_key(key) by {
        lemma_index_after_update(entries, i, entry, key);
    }
    assert forall|key: Seq<char>| #[trigger] left.contains_key(key) implies left[key]
        == right[key] by {
        lemma_index_after_update(entries, i, entry, key);
        lemma_first_index(entries, key);
        let k = first_index(entries, key);
        if key == entry.0@ {
            assert(after[i] == entry);
        } else {
            assert(after[k] == entries[k]);
        }
    }
    assert(left =~= right);
}

/// Appending an entry under a name that is absent adds that name to the map
/// and changes nothing else.
pub proof fn lemma_push_map<V, M>(
    entries: Seq<(String, V)>,
    entry: (String, V),
    f: spec_fn(V) -> M,
)
    requires
        first_index(entries, entry.0@) == entries.len(),
    ensures
        entries_map(entries.push(entry), f) == entries_map(entries, f).insert(
            entry.0@,
            f(entry.1),
        ),
{
    let after = entries.push(entry);
    let left = entries_map(after, f);
    let right = entries_map(entries, f).insert(entry.0@, f(entry.1));
    assert forall|key: Seq<char>| #[trigger] left.contains_key(key) == right.contains_key(key) by {
        lemma_index_after_push(entries, entry, key);
    }
    assert forall|key: Seq<char>| #[trigger] left.contains_key(key) implies left[key]
        == right[key] by {
        lemma_index_after_push(entries, entry, key);
        lemma_first_index(entries, key);
        let k = first_index(entries, key);
        if key == entry.0@ {
            assert(after[entries.len() as int] == entry);
        } else {
            assert(after[k] == entries[k]);
        }
    }
    assert(left =~= right);
}

impl<V> View for Table<V> {
    type V = Map<Seq<char>, V>;

    /// The table as a map from names to values.
    open spec fn view(&self) -> Map<Seq<char>, V> {
        entries_map(self.entries@, |v: V| v)
    }
}

impl<V> Table<V> {
    /// The entries that a call of `insert` leaves: the first entry of the
    /// name overwritten, or a new last entry.
    pub open spec fn inserted(self, key: String, value: V) -> Seq<(String, V)> {
        let i = first_index(self.entries@, key@);
        if i < self.entries@.len() {
            self.entries@.update(i, (key, value))
        } else {
            self.entries@.push((key, value))
        }
    }

    /// The empty table.
    pub fn new() -> (table: Self)
        ensures
            table.entries@ == Seq::<(String, V)>::empty(),
            table@ == Map::<Seq<char>, V>::empty(),
    {
        let table = Table { entries: Vec::new() };
        assert(table@ =~= Map::<Seq<char>, V>::empty());
        table
    }

    /// The place of the entry that `key` stands for, if it has one.
    pub fn position(&self, key: &str) -> (place: Option<usize>)
        ensures
            match place {
                Some(i) => i < self.entries@.len() && first_index(self.entries@, key@) == i,
                None => first_index(self.entries@, key@) == self.entries@.len(),
            },
    {
        let mut i: usize = 0;
        while i < self.entries.len()
            invariant
                i <= self.entries.len(),
                forall|j: int| 0 <= j < i ==> (#[trigger] self.entries@[j]).0@ != key@,
            decreases self.entries.len() - i,
        {
            if crate::text::same_text(self.entries[i].0.as_str(), key) {
                proof {
                    lemma_first_is_index(self.entries@, key@, i as int);
                }
                return Some(i);
            }
            i += 1;
        }
        proof {
            lemma_absent_index(self.entries@, key@);
        }
        None
    }

    /// The value that `key` stands for, if it has one.
    pub fn get(&self, key: &str) -> (found: Option<&V>)
        ensures
            match found {
                Some(value) => self@.contains_key(key@) && self@[key@] == *value,
                None => !self@.contains_key(key@),
            },
            match found {
                Some(value) => first_index(self.entries@, key@) < self.entries@.len()
                    && *value == self.entries@[first_index(self.entries@, key@)].1,
                None => first_index(self.entries@, key@) == self.entries@.len(),
            },
    {
        match self.position(key) {
            Some(i) => Some(&self.entries[i].1),
            None => None,
        }
    }

    /// Binds `key` to `value`, overwriting what it stood for.
    pub fn insert(&mut self, key: String, value: V)
        ensures
            final(self)@ == old(self)@.insert(key@, value),
            final(self).entries@ == old(self).inserted(key, value),
    {
        proof {
            lemma_inserted_map(*self, key, value, |v: V| v);
        }
        match self.position(key.as_str()) {
            Some(i) => {
                self.entries.set(i, (key, value));
            },
            None => {
                self.entries.push((key, value));
            },
        }
    }
}

/// Whether no two entries have the same name.
pub open spec fn distinct_names<V>(entries: Seq<(String, V)>) -> bool {
    forall|i: int, j: int|
        0 <= i < j < entries.len() ==> (#[trigger] entries[i]).0@ != (#[trigger] entries[j]).0@
}

/// `insert` keeps the names of a table distinct: a table made by `new` and
/// `insert` alone holds each name once.
pub proof fn law_insert_keeps_names_distinct<V>(table: Table<V>, key: String, value: V)
    requires
        distinct_names(table.entries@),
    ensures
        distinct_names(table.inserted(key, value)),
{
    let entries = table.entries@;
    let after = table.inserted(key, value);
    let k = first_index(entries, key@);
    lemma_first_index(entries, key@);
    assert forall|i: int, j: int| 0 <= i < j < after.len() implies (#[trigger] after[i]).0@ != (
    #[trigger] after[j]).0@ by {
        if k < entries.len() {
            assert(entries[i].0@ != entries[j].0@);
        } else if j < entries.len() {
            assert(entries[i].0@ != entries[j].0@);
        } else {
            assert(entries[i].0@ != key@);
        }
    }
}

/// What `insert` does to the map of a table, whatever the values are seen
/// through: the name is bound to the new value and no other name changes.
pub proof fn lemma_inserted_map<V, M>(table: Table<V>, key: String, value: V, f: spec_fn(V) -> M)
    ensures
        entries_map(table.inserted(key, value), f) == entries_map(table.entries@, f).insert(
            key@,
            f(value),
        ),
{
    let i = first_index(table.entries@, key@);
    lemma_first_index(table.entries@, key@);
    if i < table.entries@.len() {
        lemma_update_map(table.entries@, i, (key, value), f);
    } else {
        lemma_push_map(table.entries@, (key, value), f);
    }
}

} // verus!
