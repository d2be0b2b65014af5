//! A map keyed by text that keeps its entries in code-point order of the keys.

use crate::text::{precedes, precedes_irreflexive, precedes_total, precedes_transitive, same_text, text_precedes, views};
use vstd::prelude::*;

verus! {

/// A value that can be duplicated with its view kept.
pub trait Duplicate: View + Sized {
    /// A second value with the same view.
    fn duplicate(&self) -> (copy: Self)
        ensures
            copy@ == self@,
    ;
}

impl Duplicate for String {
    fn duplicate(&self) -> (copy: Self) {
        self.clone()
    }
}

/// Duplicates every element of a list.
pub fn duplicate_all<T: Duplicate>(items: &Vec<T>) -> (copies: Vec<T>)
    ensures
        views(copies@) == views(items@),
{
    let mut copies: Vec<T> = Vec::new();
    let mut i: usize = 0;
    while i < items.len()
        invariant
            0 <= i <= items@.len(),
            views(copies@) == views(items@).take(i as int),
        decreases items@.len() - i,
    {
        let ghost earlier = copies@;
        copies.push(items[i].duplicate());
        assert(views(copies@) =~= views(earlier).push(items@[i as int]@));
        assert(views(items@).take(i + 1) =~= views(items@).take(i as int).push(items@[i as int]@));
        i = i + 1;
    }
    assert(views(items@).take(i as int) =~= views(items@));
    copies
}

/// A value that can be compared by its view.
pub trait Comparable: View + Sized {
    /// Tells whether both values have the same view.
    fn same_as(&self, other: &Self) -> (same: bool)
        ensures
            same == (self@ == other@),
    ;
}

impl Comparable for String {
    fn same_as(&self, other: &Self) -> (same: bool) {
        same_text(self, other)
    }
}

/// Compares two lists element by element.
pub fn same_all<T: Comparable>(left: &Vec<T>, right: &Vec<T>) -> (same: bool)
    ensures
        same == (views(left@) == views(right@)),
{
    if left.len() != right.len() {
        assert(views(left@).len() != views(right@).len());
        return false;
    }
    let mut i: usize = 0;
    while i < left.len()
        invariant
            0 <= i <= left@.len(),
            left@.len() == right@.len(),
            forall|j: int| 0 <= j < i ==> views(left@)[j] == views(right@)[j],
        decreases left@.len() - i,
    {
        if !left[i].same_as(&right[i]) {
            assert(views(left@)[i as int] != views(right@)[i as int]);
            return false;
        }
        i = i + 1;
    }
    assert(views(left@) =~= views(right@));
    true
}

/// Tells whether a list holds a text.
pub fn contains_text(items: &Vec<String>, text: &str) -> (found: bool)
    ensures
        found == views(items@).contains(text@),
{
    let mut i: usize = 0;
    while i < items.len()
        invariant
            0 <= i <= items@.len(),
            forall|j: int| 0 <= j < i ==> views(items@)[j] != text@,
        decreases items@.len() - i,
    {
        if same_text(&items[i], text) {
            assert(views(items@)[i as int] == text@);
            return true;
        }
        i = i + 1;
    }
    false
}

/// The value stored under a key.
pub open spec fn lookup<V>(entries: Seq<(Seq<char>, V)>, key: Seq<char>) -> Option<V>
    decreases entries.len(),
{
    if entries.len() == 0 {
        None
    } else if entries[0].0 == key {
        Some(entries[0].1)
    } else {
        lookup(entries.drop_first(), key)
    }
}

/// The entries once `key` holds `value`: an entry of that key is replaced, otherwise a new one
/// stands before the first larger key.
pub open spec fn inserted<V>(entries: Seq<(Seq<char>, V)>, key: Seq<char>, value: V) -> Seq<
    (Seq<char>, V),
>
    decreases entries.len(),
{
    if entries.len() == 0 || precedes(key, entries[0].0) {
        seq![(key, value)] + entries
    } else if entries[0].0 == key {
        entries.update(0, (key, value))
    } else {
        seq![entries[0]] + inserted(entries.drop_first(), key, value)
    }
}

/// Whether the keys strictly increase, so that no key occurs twice.
pub open spec fn keys_increase<V>(entries: Seq<(Seq<char>, V)>) -> bool {
    forall|i: int, j: int| 0 <= i < j < entries.len() ==> precedes(#[trigger] entries[i].0, #[trigger] entries[j].0)
}

/// Where an insertion takes place: behind the smaller keys.
proof fn inserted_at<V>(entries: Seq<(Seq<char>, V)>, key: Seq<char>, value: V, i: int)
    requires
        0 <= i <= entries.len(),
        forall|j: int|
            0 <= j < i ==> (#[trigger] entries[j]).0 != key && !precedes(key, entries[j].0),
        i < entries.len() ==> entries[i].0 == key || precedes(key, entries[i].0),
    ensures
        inserted(entries, key, value) == if i < entries.len() && entries[i].0 == key {
            entries.update(i, (key, value))
        } else {
            entries.insert(i, (key, value))
        },
    decreases i,
{
    precedes_irreflexive(key);
    if i == 0 {
        assert(seq![(key, value)] + entries =~= entries.insert(0, (key, value)));
    } else {
        let rest = entries.drop_first();
        assert forall|j: int| 0 <= j < i - 1 implies (#[trigger] rest[j]).0 != key && !precedes(
            key,
            rest[j].0,
        ) by {
            assert(rest[j] == entries[j + 1]);
        }
        inserted_at(rest, key, value, i - 1);
        if i < entries.len() && entries[i].0 == key {
            assert(seq![entries[0]] + rest.update(i - 1, (key, value)) =~= entries.update(
                i,
                (key, value),
            ));
        } else {
            assert(seq![entries[0]] + rest.insert(i - 1, (key, value)) =~= entries.insert(
                i,
                (key, value),
            ));
        }
    }
}

/// An insertion adds no entry but its own.
pub proof fn inserted_entries<V>(entries: Seq<(Seq<char>, V)>, key: Seq<char>, value: V, i: int)
    requires
        0 <= i < inserted(entries, key, value).len(),
    ensures
        inserted(entries, key, value)[i] == (key, value) || exists|j: int|
            0 <= j < entries.len() && #[trigger] entries[j] == inserted(entries, key, value)[i],
    decreases entries.len(),
{
    let result = inserted(entries, key, value);
    if entries.len() == 0 || precedes(key, entries[0].0) {
        if i > 0 {
            assert(result[i] == entries[i - 1]);
        }
    } else if entries[0].0 == key {
        if i > 0 {
            assert(result[i] == entries[i]);
        }
    } else {
        if i == 0 {
            assert(result[i] == entries[0]);
        } else {
            let rest = entries.drop_first();
            inserted_entries(rest, key, value, i - 1);
            assert(result[i] == inserted(rest, key, value)[i - 1]);
            if result[i] != (key, value) {
                let j = choose|j: int|
                    0 <= j < rest.len() && #[trigger] rest[j] == inserted(rest, key, value)[i - 1];
                assert(entries[j + 1] == rest[j]);
            }
        }
    }
}

/// An insertion keeps the keys strictly increasing.
pub proof fn inserted_keeps_order<V>(entries: Seq<(Seq<char>, V)>, key: Seq<char>, value: V)
    requires
        keys_increase(entries),
    ensures
        keys_increase(inserted(entries, key, value)),
    decreases entries.len(),
{
    let result = inserted(entries, key, value);
    if entries.len() == 0 {
    } else if precedes(key, entries[0].0) {
        assert forall|i: int, j: int| 0 <= i < j < result.len() implies precedes(
            #[trigger] result[i].0,
            #[trigger] result[j].0,
        ) by {
            assert(result[j] == entries[j - 1]);
            if i > 0 {
                assert(result[i] == entries[i - 1]);
            } else if j > 1 {
                precedes_transitive(key, entries[0].0, entries[j - 1].0);
            }
        }
    } else if entries[0].0 == key {
        assert forall|i: int, j: int| 0 <= i < j < result.len() implies precedes(
            #[trigger] result[i].0,
            #[trigger] result[j].0,
        ) by {
            assert(result[i].0 == entries[i].0);
            assert(result[j].0 == entries[j].0);
        }
    } else {
        let rest = entries.drop_first();
        assert(keys_increase(rest)) by {
            assert forall|i: int, j: int| 0 <= i < j < rest.len() implies precedes(
                #[trigger] rest[i].0,
                #[trigger] rest[j].0,
            ) by {
                assert(rest[i] == entries[i + 1] && rest[j] == entries[j + 1]);
            }
        }
        inserted_keeps_order(rest, key, value);
        precedes_total(key, entries[0].0);
        let tail = inserted(rest, key, value);
        assert forall|i: int, j: int| 0 <= i < j < result.len() implies precedes(
            #[trigger] result[i].0,
            #[trigger] result[j].0,
        ) by {
            assert(result[j] == tail[j - 1]);
            if i > 0 {
                assert(result[i] == tail[i - 1]);
            } else {
                inserted_entries(rest, key, value, j - 1);
                if tail[j - 1] != (key, value) {
                    let k = choose|k: int| 0 <= k < rest.len() && #[trigger] rest[k] == tail[j - 1];
                    assert(rest[k] == entries[k + 1]);
                }
            }
        }
    }
}

/// A key behind all others goes to the end.
pub proof fn inserted_last<V>(entries: Seq<(Seq<char>, V)>, key: Seq<char>, value: V)
    requires
        forall|i: int| 0 <= i < entries.len() ==> precedes((#[trigger] entries[i]).0, key),
    ensures
        inserted(entries, key, value) == entries.push((key, value)),
{
    assert forall|j: int| 0 <= j < entries.len() implies (#[trigger] entries[j]).0 != key
        && !precedes(key, entries[j].0) by {
        precedes_irreflexive(key);
        if precedes(key, entries[j].0) {
            precedes_transitive(key, entries[j].0, key);
        }
    }
    inserted_at(entries, key, value, entries.len() as int);
    assert(entries.insert(entries.len() as int, (key, value)) =~= entries.push((key, value)));
}

/// An insertion under a new key puts its entry somewhere between the others.
pub proof fn inserted_between<V>(entries: Seq<(Seq<char>, V)>, key: Seq<char>, value: V) -> (i: int)
    requires
        lookup(entries, key) is None,
    ensures
        0 <= i <= entries.len(),
        inserted(entries, key, value) == entries.insert(i, (key, value)),
    decreases entries.len(),
{
    if entries.len() == 0 || precedes(key, entries[0].0) {
        assert(inserted(entries, key, value) =~= entries.insert(0, (key, value)));
        0
    } else {
        let i = 1 + inserted_between(entries.drop_first(), key, value);
        assert(inserted(entries, key, value) =~= entries.insert(i, (key, value)));
        i
    }
}

/// After an insertion its key holds the value and every other key holds what it held before.
pub proof fn lookup_after_insert<V>(
    entries: Seq<(Seq<char>, V)>,
    key: Seq<char>,
    value: V,
    other: Seq<char>,
)
    ensures
        lookup(inserted(entries, key, value), other) == if other == key {
            Some(value)
        } else {
            lookup(entries, other)
        },
    decreases entries.len(),
{
    let result = inserted(entries, key, value);
    if entries.len() == 0 || precedes(key, entries[0].0) {
        assert(result.drop_first() =~= entries);
    } else if entries[0].0 == key {
        assert(result.drop_first() =~= entries.drop_first());
    } else {
        lookup_after_insert(entries.drop_first(), key, value, other);
        assert(result.drop_first() =~= inserted(entries.drop_first(), key, value));
    }
}

/// In increasing entries the value at a position is found under its key.
pub proof fn lookup_entry<V>(entries: Seq<(Seq<char>, V)>, i: int)
    requires
        keys_increase(entries),
        0 <= i < entries.len(),
    ensures
        lookup(entries, entries[i].0) == Some(entries[i].1),
    decreases entries.len(),
{
    if i > 0 {
        precedes_irreflexive(entries[i].0);
        assert(entries[0].0 != entries[i].0);
        let rest = entries.drop_first();
        assert forall|a: int, b: int| 0 <= a < b < rest.len() implies precedes(
            #[trigger] rest[a].0,
            #[trigger] rest[b].0,
        ) by {
            assert(rest[a] == entries[a + 1] && rest[b] == entries[b + 1]);
        }
        lookup_entry(rest, i - 1);
    }
}

/// What is found stands at some position.
pub proof fn lookup_position<V>(entries: Seq<(Seq<char>, V)>, key: Seq<char>) -> (i: int)
    requires
        lookup(entries, key) is Some,
    ensures
        0 <= i < entries.len(),
        entries[i].0 == key,
        lookup(entries, key) == Some(entries[i].1),
    decreases entries.len(),
{
    if entries[0].0 == key {
        0
    } else {
        1 + lookup_position(entries.drop_first(), key)
    }
}

/// What is not found stands at no position.
pub proof fn lookup_absent<V>(entries: Seq<(Seq<char>, V)>, key: Seq<char>)
    requires
        lookup(entries, key) is None,
    ensures
        forall|i: int| 0 <= i < entries.len() ==> (#[trigger] entries[i]).0 != key,
    decreases entries.len(),
{
    if entries.len() > 0 {
        let rest = entries.drop_first();
        lookup_absent(rest, key);
        assert forall|i: int| 0 <= i < entries.len() implies (#[trigger] entries[i]).0 != key by {
            if i > 0 {
                assert(rest[i - 1] == entries[i]);
            }
        }
    }
}

/// Entries with keys and values taken by their views.
pub open spec fn entries_view<V: View>(entries: Seq<(String, V)>) -> Seq<(Seq<char>, V::V)> {
    Seq::new(entries.len(), |i: int| (entries[i].0@, entries[i].1@))
}

/// Map from text to values of one type, iterated in order of the keys.
#[derive(Debug, PartialEq)]
pub struct TextMap<V: View> {
    entries: Vec<(String, V)>,
}

impl<V: View> View for TextMap<V> {
    type V = Seq<(Seq<char>, V::V)>;

    closed spec fn view(&self) -> Self::V {
        entries_view(self.entries@)
    }
}

impl<V: View> TextMap<V> {
    #[verifier::type_invariant]
    spec fn ordered(self) -> bool {
        keys_increase(self@)
    }

    /// A map without entries.
    pub fn new() -> (map: Self)
        ensures
            map@ == Seq::<(Seq<char>, V::V)>::empty(),
    {
        let map = TextMap { entries: Vec::new() };
        assert(map@ =~= Seq::<(Seq<char>, V::V)>::empty());
        map
    }

    /// How many entries there are; their keys strictly increase.
    pub fn len(&self) -> (count: usize)
        ensures
            count == self@.len(),
            keys_increase(self@),
    {
        proof {
            use_type_invariant(self);
        }
        self.entries.len()
    }

    /// Tells whether there are no entries.
    pub fn is_empty(&self) -> (empty: bool)
        ensures
            empty == (self@.len() == 0),
    {
        self.entries.len() == 0
    }

    /// The key at a position.
    pub fn key_at(&self, i: usize) -> (key: &String)
        requires
            i < self@.len(),
        ensures
            key@ == self@[i as int].0,
    {
        &self.entries[i].0
    }

    /// The value at a position.
    pub fn value_at(&self, i: usize) -> (value: &V)
        requires
            i < self@.len(),
        ensures
            value@ == self@[i as int].1,
    {
        &self.entries[i].1
    }

    /// The value under a key.
    pub fn get(&self, key: &str) -> (value: Option<&V>)
        ensures
            match value {
                Some(value) => lookup(self@, key@) == Some(value@),
                None => lookup(self@, key@) is None,
            },
    {
        let mut i: usize = 0;
        assert(self@.skip(0) =~= self@);
        while i < self.entries.len()
            invariant
                0 <= i <= self@.len(),
                self@.len() == self.entries@.len(),
                lookup(self@.skip(i as int), key@) == lookup(self@, key@),
            decreases self.entries@.len() - i,
        {
            if same_text(&self.entries[i].0, key) {
                return Some(&self.entries[i].1);
            }
            assert(self@.skip(i as int).drop_first() =~= self@.skip(i + 1));
            i = i + 1;
        }
        None
    }

    /// Tells whether a key has a value.
    pub fn contains_key(&self, key: &str) -> (found: bool)
        ensures
            found == (lookup(self@, key@) is Some),
    {
        self.get(key).is_some()
    }

    /// Puts a value under a key, in place of the value that was there.
    pub fn insert(&mut self, key: String, value: V)
        ensures
            final(self)@ == inserted(old(self)@, key@, value@),
    {
        proof {
            use_type_invariant(&*self);
        }
        let ghost before = self@;
        let ghost new_entry = (key@, value@);
        let mut entries: Vec<(String, V)> = Vec::new();
        std::mem::swap(&mut entries, &mut self.entries);
        let i: usize = Self::position(&entries, &key);
        proof {
            assert(entries_view(entries@) =~= before);
            inserted_at(before, new_entry.0, new_entry.1, i as int);
            inserted_keeps_order(before, new_entry.0, new_entry.1);
        }
        if i < entries.len() && same_text(&entries[i].0, &key) {
            entries.set(i, (key, value));
            assert(entries_view(entries@) =~= before.update(i as int, new_entry));
        } else {
            entries.insert(i, (key, value));
            assert(entries_view(entries@) =~= before.insert(i as int, new_entry));
        }
        self.entries = entries;
    }

    /// Where a key stands, or where it belongs when it is absent.
    fn position(entries: &Vec<(String, V)>, key: &str) -> (i: usize)
        ensures
            i <= entries@.len(),
            forall|j: int|
                0 <= j < i ==> (#[trigger] entries_view(entries@)[j]).0 != key@ && !precedes(
                    key@,
                    entries_view(entries@)[j].0,
                ),
            i < entries@.len() ==> entries_view(entries@)[i as int].0 == key@ || precedes(
                key@,
                entries_view(entries@)[i as int].0,
            ),
    {
        let mut i: usize = 0;
        while i < entries.len() && !same_text(&entries[i].0, key) && !text_precedes(
            key,
            &entries[i].0,
        )
            invariant
                0 <= i <= entries@.len(),
                forall|j: int|
                    0 <= j < i ==> (#[trigger] entries_view(entries@)[j]).0 != key@ && !precedes(
                        key@,
                        entries_view(entries@)[j].0,
                    ),
            decreases entries@.len() - i,
        {
            i = i + 1;
        }
        i
    }
}

impl<V: Duplicate> Duplicate for TextMap<V> {
    fn duplicate(&self) -> (copy: Self) {
        proof {
            use_type_invariant(self);
        }
        let mut entries: Vec<(String, V)> = Vec::new();
        let mut i: usize = 0;
        while i < self.entries.len()
            invariant
                0 <= i <= self.entries@.len(),
                entries@.len() == i,
                forall|j: int|
                    0 <= j < i ==> (#[trigger] entries@[j]).0@ == self.entries@[j].0@
                        && entries@[j].1@ == self.entries@[j].1@,
            decreases self.entries@.len() - i,
        {
            entries.push((self.entries[i].0.clone(), self.entries[i].1.duplicate()));
            i = i + 1;
        }
        assert(entries_view(entries@) =~= self@);
        TextMap { entries }
    }
}

impl<V: Comparable> Comparable for TextMap<V> {
    fn same_as(&self, other: &Self) -> (same: bool) {
        if self.entries.len() != other.entries.len() {
            assert(self@.len() != other@.len());
            return false;
        }
        let mut i: usize = 0;
        while i < self.entries.len()
            invariant
                0 <= i <= self.entries@.len(),
                self.entries@.len() == other.entries@.len(),
                forall|j: int| 0 <= j < i ==> self@[j] == other@[j],
            decreases self.entries@.len() - i,
        {
            if !self.entries[i].0.same_as(&other.entries[i].0) || !self.entries[i].1.same_as(
                &other.entries[i].1,
            ) {
                assert(self@[i as int] != other@[i as int]);
                return false;
            }
            i = i + 1;
        }
        assert(self@ =~= other@);
        true
    }
}

impl<V: Duplicate> Clone for TextMap<V> {
    fn clone(&self) -> (copy: Self)
        ensures
            copy@ == self@,
    {
        self.duplicate()
    }
}

} // verus!
