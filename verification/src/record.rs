//! One marshaled row: column names with their values, in column order.

use vstd::prelude::*;
use indexmap::IndexMap;
use crate::value::{Value, ValueView};

verus! {

/// `indexmap::IndexMap`, a hash map that keeps its pairs in insertion order.
/// Nothing inside it is visible here: what it holds is named by
/// [`index_map_entries`].
#[verifier::external_type_specification]
#[verifier::external_body]
#[verifier::reject_recursive_types(K)]
#[verifier::reject_recursive_types(V)]
#[verifier::reject_recursive_types(S)]
pub struct ExIndexMap<K, V, S>(IndexMap<K, V, S>);

/// The key-value pairs that an `IndexMap` holds, in its order.
pub uninterp spec fn index_map_entries(map: IndexMap<String, Value>) -> Seq<(String, Value)>;

/// The position of the pair whose key reads `key`, where there is one.
pub open spec fn position_of(entries: Seq<(Seq<char>, ValueView)>, key: Seq<char>) -> Option<int> {
    if exists|i: int| 0 <= i < entries.len() && entries[i].0 == key {
        Some(choose|i: int| 0 <= i < entries.len() && entries[i].0 == key)
    } else {
        None
    }
}

/// The value stored under `key`, where there is one.
pub open spec fn lookup(entries: Seq<(Seq<char>, ValueView)>, key: Seq<char>) -> Option<
    ValueView,
> {
    match position_of(entries, key) {
        Some(i) => Some(entries[i].1),
        None => None,
    }
}

/// The integer stored under `key`, where an integer is stored there.
pub open spec fn integer_at(entries: Seq<(Seq<char>, ValueView)>, key: Seq<char>) -> Option<i64> {
    match lookup(entries, key) {
        Some(ValueView::Integer(number)) => Some(number),
        _ => None,
    }
}

/// The text stored under `key`, where a text is stored there.
pub open spec fn text_at(entries: Seq<(Seq<char>, ValueView)>, key: Seq<char>) -> Option<
    Seq<char>,
> {
    match lookup(entries, key) {
        Some(ValueView::Text(text)) => Some(text),
        _ => None,
    }
}

/// `entries` after `value` was stored under `key`: where the key is present
/// its value is replaced and its position kept, else the pair comes last.
pub open spec fn upsert(entries: Seq<(Seq<char>, ValueView)>, key: Seq<char>, value: ValueView) -> Seq<
    (Seq<char>, ValueView),
> {
    match position_of(entries, key) {
        Some(i) => entries.update(i, (key, value)),
        None => entries.push((key, value)),
    }
}

/// No two pairs of `entries` have the same key.
pub open spec fn distinct_keys(entries: Seq<(Seq<char>, ValueView)>) -> bool {
    forall|i: int, j: int|
        0 <= i < entries.len() && 0 <= j < entries.len() && i != j ==> entries[i].0 != entries[j].0
}

/// The pairs of `entries`, each key and value by its view.
pub open spec fn entry_views(entries: Seq<(String, Value)>) -> Seq<(Seq<char>, ValueView)> {
    Seq::new(entries.len(), |i: int| (entries[i].0@, entries[i].1@))
}

/// Calls `IndexMap::new`, which makes an empty map.
#[verifier::external_body]
fn map_new() -> (map: IndexMap<String, Value>)
    ensures
        index_map_entries(map) == Seq::<(String, Value)>::empty(),
{
    IndexMap::new()
}

/// Calls `IndexMap::insert`. Where an equal key is present, the key stays in
/// its place and its value is replaced; else the pair is inserted last.
#[verifier::external_body]
fn map_insert(map: &mut IndexMap<String, Value>, key: String, value: Value)
    ensures
        entry_views(index_map_entries(*final(map))) == upsert(
            entry_views(index_map_entries(*old(map))),
            key@,
            value@,
        ),
{
    map.insert(key, value);
}

/// Calls `IndexMap::get`, which gives the value stored under an equal key, or
/// nothing where no key is equal.
#[verifier::external_body]
fn map_get<'a>(map: &'a IndexMap<String, Value>, key: &str) -> (value: Option<&'a Value>)
    ensures
        match value {
            Some(found) => exists|i: int|
                0 <= i < index_map_entries(*map).len() && (#[trigger] index_map_entries(
                    *map,
                )[i]).0@ == key@ && index_map_entries(*map)[i].1 == *found,
            None => forall|i: int|
                0 <= i < index_map_entries(*map).len() ==> (#[trigger] index_map_entries(
                    *map,
                )[i]).0@ != key@,
        },
{
    map.get(key)
}

/// Calls `IndexMap::len`, the number of pairs in the map.
#[verifier::external_body]
fn map_len(map: &IndexMap<String, Value>) -> (count: usize)
    ensures
        count == index_map_entries(*map).len(),
{
    map.len()
}

/// Calls `IndexMap::get_index`, which gives the pair at a position, or nothing
/// where the position is past the last pair.
#[verifier::external_body]
fn map_get_index<'a>(map: &'a IndexMap<String, Value>, index: usize) -> (pair: Option<
    (&'a String, &'a Value),
>)
    ensures
        match pair {
            Some((key, value)) => index < index_map_entries(*map).len() && index_map_entries(
                *map,
            )[index as int] == (*key, *value),
            None => index >= index_map_entries(*map).len(),
        },
{
    map.get_index(index)
}

/// An ordered mapping from column name to value. Columns keep the order in
/// which they were first inserted, and a name occurs once: inserting under a
/// name that is present replaces its value.
#[derive(Debug)]
pub struct Record {
    fields: IndexMap<String, Value>,
}

impl View for Record {
    type V = Seq<(Seq<char>, ValueView)>;

    closed spec fn view(&self) -> Seq<(Seq<char>, ValueView)> {
        entry_views(index_map_entries(self.fields))
    }
}

impl Record {
    #[verifier::type_invariant]
    spec fn names_are_distinct(self) -> bool {
        distinct_keys(entry_views(index_map_entries(self.fields)))
    }

    /// A record without columns.
    pub fn new() -> (record: Record)
        ensures
            record@ == Seq::<(Seq<char>, ValueView)>::empty(),
            distinct_keys(record@),
    {
        let fields = map_new();
        assert(entry_views(index_map_entries(fields)) =~= Seq::empty());
        Record { fields }
    }

    /// Stores `value` under `name`. A column of that name keeps its place and
    /// takes the new value; a new name becomes the last column.
    pub fn insert(&mut self, name: String, value: Value)
        ensures
            final(self)@ == upsert(old(self)@, name@, value@),
            distinct_keys(old(self)@),
            distinct_keys(final(self)@),
    {
        proof {
            use_type_invariant(&*self);
            lemma_upsert_keeps_keys_distinct(self@, name@, value@);
        }
        // The map leaves the record while it changes, so that the record holds
        // a valid map at every moment.
        let mut fields = map_new();
        assert(entry_views(index_map_entries(fields)) =~= Seq::empty());
        std::mem::swap(&mut self.fields, &mut fields);
        map_insert(&mut fields, name, value);
        std::mem::swap(&mut self.fields, &mut fields);
    }

    /// The value of the column called `name`, if there is such a column.
    pub fn get(&self, name: &str) -> (value: Option<&Value>)
        ensures
            match value {
                Some(found) => lookup(self@, name@) == Some(found@),
                None => lookup(self@, name@) is None,
            },
            distinct_keys(self@),
    {
        proof {
            use_type_invariant(self);
        }
        let value = map_get(&self.fields, name);
        proof {
            match value {
                Some(found) => {
                    let i = choose|i: int|
                        0 <= i < index_map_entries(self.fields).len() && (
                        #[trigger] index_map_entries(self.fields)[i]).0@ == name@
                            && index_map_entries(self.fields)[i].1 == *found;
                    assert(self@[i].0 == name@);
                    lemma_lookup_at(self@, i);
                },
                None => {
                    assert forall|i: int| 0 <= i < self@.len() implies self@[i].0 != name@ by {
                        assert(index_map_entries(self.fields)[i].0@ != name@);
                    }
                },
            }
        }
        value
    }

    /// The integer in the column called `name`; nothing where there is no
    /// such column or where it holds no integer.
    pub fn integer(&self, name: &str) -> (number: Option<i64>)
        ensures
            number == integer_at(self@, name@),
    {
        match self.get(name) {
            Some(value) => value.as_integer(),
            None => None,
        }
    }

    /// The text in the column called `name`; nothing where there is no such
    /// column or where it holds no text.
    pub fn text(&self, name: &str) -> (text: Option<&str>)
        ensures
            match text {
                Some(held) => text_at(self@, name@) == Some(held@),
                None => text_at(self@, name@) is None,
            },
    {
        match self.get(name) {
            Some(value) => value.as_text(),
            None => None,
        }
    }

    /// The number of columns.
    pub fn len(&self) -> (count: usize)
        ensures
            count == self@.len(),
    {
        map_len(&self.fields)
    }

    /// The name and the value of the column at `index`, if there are that
    /// many columns.
    pub fn get_index(&self, index: usize) -> (column: Option<(&String, &Value)>)
        ensures
            match column {
                Some((name, value)) => index < self@.len() && self@[index as int] == (
                    name@,
                    value@,
                ),
                None => index >= self@.len(),
            },
    {
        map_get_index(&self.fields, index)
    }
}

/// Where keys are distinct, the pair at position `i` is the one that a lookup
/// of its key finds.
pub proof fn lemma_lookup_at(entries: Seq<(Seq<char>, ValueView)>, i: int)
    requires
        distinct_keys(entries),
        0 <= i < entries.len(),
    ensures
        position_of(entries, entries[i].0) == Some(i),
        lookup(entries, entries[i].0) == Some(entries[i].1),
{
}

/// A value that was stored is the one that a lookup of its key finds, and
/// every other key keeps what it had: the last write wins.
pub proof fn lemma_upsert_lookup(
    entries: Seq<(Seq<char>, ValueView)>,
    key: Seq<char>,
    value: ValueView,
    other: Seq<char>,
)
    requires
        distinct_keys(entries),
    ensures
        lookup(upsert(entries, key, value), key) == Some(value),
        other != key ==> lookup(upsert(entries, key, value), other) == lookup(entries, other),
{
    let after = upsert(entries, key, value);
    lemma_upsert_keeps_keys_distinct(entries, key, value);
    match position_of(entries, key) {
        Some(i) => {
            assert(after[i] == (key, value));
            lemma_lookup_at(after, i);
        },
        None => {
            assert(after[entries.len() as int] == (key, value));
            lemma_lookup_at(after, entries.len() as int);
        },
    }
    if other != key {
        match position_of(entries, other) {
            Some(j) => {
                assert(after[j] == entries[j]);
                lemma_lookup_at(after, j);
            },
            None => {
                assert forall|j: int| 0 <= j < after.len() implies after[j].0 != other by {
                    if j < entries.len() {
                        assert(after[j].0 == entries[j].0);
                    }
                }
            },
        }
    }
}

/// Storing a value moves no column: the names that were there keep their
/// positions, and a new name comes last.
pub proof fn lemma_upsert_keeps_order(
    entries: Seq<(Seq<char>, ValueView)>,
    key: Seq<char>,
    value: ValueView,
)
    ensures
        upsert(entries, key, value).len() == if position_of(entries, key) is Some {
            entries.len()
        } else {
            entries.len() + 1
        },
        forall|i: int|
            0 <= i < entries.len() ==> (#[trigger] upsert(entries, key, value)[i]).0
                == entries[i].0,
        position_of(entries, key) is None ==> upsert(entries, key, value).last() == (key, value),
{
}

/// Storing a value keeps the keys distinct.
pub proof fn lemma_upsert_keeps_keys_distinct(
    entries: Seq<(Seq<char>, ValueView)>,
    key: Seq<char>,
    value: ValueView,
)
    requires
        distinct_keys(entries),
    ensures
        distinct_keys(upsert(entries, key, value)),
{
}

} // verus!
