//! Maps kept as lists of entries, and what the clients of the bus own in a map.

use std::collections::HashMap;
use vstd::prelude::*;

use crate::text::same_text;

verus! {

/// What can be a key of an [`Assoc`]: values that can be compared and copied.
pub trait Key: View + Sized {
    /// Whether both keys are the same.
    fn same(&self, other: &Self) -> (r: bool)
        ensures
            r == (self@ == other@),
    ;

    /// The same key once more.
    fn duplicate(&self) -> (r: Self)
        ensures
            r@ == self@,
    ;
}

impl Key for String {
    fn same(&self, other: &String) -> (r: bool) {
        *self == *other
    }

    fn duplicate(&self) -> (r: String) {
        self.clone()
    }
}

impl Key for Vec<u8> {
    fn same(&self, other: &Vec<u8>) -> (r: bool) {
        if self.len() != other.len() {
            return false;
        }
        for i in 0..self.len()
            invariant
                self@.len() == other@.len(),
                forall|j: int| 0 <= j < i ==> self@[j] == other@[j],
        {
            if self[i] != other[i] {
                return false;
            }
        }
        assert(self@ =~= other@);
        true
    }

    fn duplicate(&self) -> (r: Vec<u8>) {
        self.clone()
    }
}

/// What belongs to a client of the bus.
pub trait Owned {
    /// Whether the client with this name owns it.
    spec fn owned_by(&self, owner: Seq<char>) -> bool;

    /// Whether the client with this name owns it.
    fn belongs_to(&self, owner: &str) -> (r: bool)
        ensures
            r == self.owned_by(owner@),
    ;
}

/// A name stands for what the client with that name owns.
impl Owned for String {
    open spec fn owned_by(&self, owner: Seq<char>) -> bool {
        self@ == owner
    }

    fn belongs_to(&self, owner: &str) -> (r: bool) {
        same_text(self.as_str(), owner)
    }
}

/// Says of a key whether the client with this name owns its value.
spec fn owned_in<Q, V: Owned>(map: Map<Q, V>, owner: Seq<char>) -> spec_fn(Q) -> bool {
    |key: Q| map.contains_key(key) && map[key].owned_by(owner)
}

/// Whether `keys` names each key once whose value the client with this name owns, in some order.
pub open spec fn lists_owned<Q, V: Owned>(
    keys: Seq<Q>,
    map: Map<Q, V>,
    owner: Seq<char>,
) -> bool {
    &&& keys.no_duplicates()
    &&& forall|key: Q| #[trigger]
        keys.contains(key) <==> map.contains_key(key) && map[key].owned_by(owner)
}

/// What is left of a map without what the client with this name owns.
pub open spec fn without_owned<Q, V: Owned>(map: Map<Q, V>, owner: Seq<char>) -> Map<Q, V> {
    Map::new(
        |key: Q| map.contains_key(key) && !map[key].owned_by(owner),
        |key: Q| map[key],
    )
}

/// The part of a list without repetitions that a condition picks has none either, and holds what
/// meets the condition.
proof fn picked_part<Q>(list: Seq<Q>, condition: spec_fn(Q) -> bool)
    requires
        list.no_duplicates(),
    ensures
        list.filter(condition).no_duplicates(),
        forall|key: Q| #[trigger]
            list.filter(condition).contains(key) <==> list.contains(key) && condition(key),
    decreases list.len(),
{
    reveal(Seq::filter);
    if list.len() > 0 {
        let head = list.drop_last();
        let last = list.last();
        let part = list.filter(condition);
        assert(list =~= head.push(last));
        picked_part(head, condition);
        assert(!head.contains(last)) by {
            if head.contains(last) {
                let i = choose|i: int| 0 <= i < head.len() && head[i] == last;
                assert(list[i] == list[list.len() - 1]);
            }
        }
        assert forall|key: Q| #[trigger]
            part.contains(key) <==> list.contains(key) && condition(key) by {
            vstd::seq_lib::lemma_seq_contains_after_push(head, last, key);
            if condition(last) {
                vstd::seq_lib::lemma_seq_contains_after_push(head.filter(condition), last, key);
            }
        }
        if condition(last) {
            assert(!head.filter(condition).contains(last));
        }
    }
}

proof fn picking_goes_on<Q>(list: Seq<Q>, condition: spec_fn(Q) -> bool, i: int)
    requires
        0 <= i < list.len(),
    ensures
        list.take(i + 1).filter(condition) == (if condition(list[i]) {
            list.take(i).filter(condition).push(list[i])
        } else {
            list.take(i).filter(condition)
        }),
{
    reveal(Seq::filter);
    assert(list.take(i + 1).drop_last() =~= list.take(i));
}

/// The keys of a map whose values the client with this name owns.
pub fn owned_keys<V: Owned>(map: &HashMap<u64, V>, owner: &str) -> (owned: Vec<u64>)
    ensures
        lists_owned(owned@, map@, owner@),
{
    broadcast use vstd::std_specs::hash::group_hash_axioms;

    let mut owned: Vec<u64> = Vec::new();
    let ghost condition = owned_in(map@, owner@);
    proof {
        reveal(Seq::filter);
    }
    for key in it: map.keys()
        invariant
            condition == owned_in(map@, owner@),
            it.seq().unref().to_set() == map@.dom(),
            owned@ == it.seq().unref().take(it.index() as int).filter(condition),
    {
        proof {
            let all = it.seq().unref();
            picking_goes_on(all, condition, it.index() as int);
            assert(all.to_set().contains(all[it.index() as int]));
        }
        match map.get(key) {
            Some(value) => {
                if value.belongs_to(owner) {
                    owned.push(*key);
                }
            },
            None => {},
        }
    }
    proof {
        let walk = vstd::std_specs::hash::spec_keys_iter(map);
        let all = vstd::std_specs::iter::IteratorSpec::remaining(&walk).unref();
        assert(all.take(all.len() as int) =~= all);
        picked_part(all, condition);
        assert forall|key: u64| all.contains(key) <==> map@.contains_key(key) by {
            assert(all.to_set().contains(key) <==> map@.dom().contains(key));
        }
    }
    owned
}

/// The keys of a list as mathematical values.
pub open spec fn names<K: Key>(keys: Seq<K>) -> Seq<K::V> {
    Seq::new(keys.len(), |i: int| keys[i]@)
}

/// A map from keys to values, as a list without a repeated key.
#[derive(Debug)]
pub struct Assoc<K, V> {
    entries: Vec<(K, V)>,
}

spec fn holds<K: Key, V>(entries: Seq<(K, V)>, key: K::V, i: int) -> bool {
    0 <= i < entries.len() && entries[i].0@ == key
}

spec fn find<K: Key, V>(entries: Seq<(K, V)>, key: K::V) -> int {
    choose|i: int| holds(entries, key, i)
}

spec fn mapping<K: Key, V>(entries: Seq<(K, V)>) -> Map<K::V, V> {
    Map::new(
        |key: K::V| exists|i: int| holds(entries, key, i),
        |key: K::V| entries[find(entries, key)].1,
    )
}

spec fn keys_distinct<K: Key, V>(entries: Seq<(K, V)>) -> bool {
    forall|i: int, j: int|
        0 <= i < j < entries.len() ==> (#[trigger] entries[i]).0@ != (#[trigger] entries[j]).0@
}

impl<K: Key, V> View for Assoc<K, V> {
    type V = Map<K::V, V>;

    closed spec fn view(&self) -> Map<K::V, V> {
        mapping(self.entries@)
    }
}

proof fn entry_is_mapped<K: Key, V>(entries: Seq<(K, V)>, i: int)
    requires
        keys_distinct(entries),
        0 <= i < entries.len(),
    ensures
        mapping(entries).contains_key(entries[i].0@),
        mapping(entries)[entries[i].0@] == entries[i].1,
{
    assert(holds(entries, entries[i].0@, i));
    let j = find(entries, entries[i].0@);
    assert(holds(entries, entries[i].0@, j));
    assert(j == i);
}

proof fn mapped_key_has_an_entry<K: Key, V>(entries: Seq<(K, V)>, key: K::V) -> (i: int)
    requires
        mapping(entries).contains_key(key),
    ensures
        0 <= i < entries.len(),
        entries[i].0@ == key,
        mapping(entries)[key] == entries[i].1,
{
    let i = find(entries, key);
    assert(holds(entries, key, i));
    i
}

proof fn removal_unmaps_one_key<K: Key, V>(entries: Seq<(K, V)>, i: int)
    requires
        keys_distinct(entries),
        0 <= i < entries.len(),
    ensures
        keys_distinct(entries.remove(i)),
        mapping(entries.remove(i)) == mapping(entries).remove(entries[i].0@),
{
    let less = entries.remove(i);
    let gone = entries[i].0@;
    assert(keys_distinct(less)) by {
        assert forall|a: int, b: int| 0 <= a < b < less.len() implies (#[trigger] less[a]).0@ != (
        #[trigger] less[b]).0@ by {
            let a0 = if a < i { a } else { a + 1 };
            let b0 = if b < i { b } else { b + 1 };
            assert(less[a] == entries[a0] && less[b] == entries[b0]);
        }
    }
    assert forall|key: K::V|
        mapping(less).contains_key(key) == mapping(entries).remove(gone).contains_key(key) by {
        if mapping(less).contains_key(key) {
            let j = mapped_key_has_an_entry(less, key);
            let j0 = if j < i { j } else { j + 1 };
            assert(less[j] == entries[j0]);
            entry_is_mapped(entries, j0);
            assert(entries[j0].0@ != gone);
        }
        if mapping(entries).contains_key(key) && key != gone {
            let j = mapped_key_has_an_entry(entries, key);
            let j1 = if j < i { j } else { j - 1 };
            assert(less[j1] == entries[j]);
            entry_is_mapped(less, j1);
        }
    }
    assert forall|key: K::V| mapping(less).contains_key(key) implies mapping(less)[key] == mapping(
        entries,
    )[key] by {
        let j = mapped_key_has_an_entry(less, key);
        let j0 = if j < i { j } else { j + 1 };
        assert(less[j] == entries[j0]);
        entry_is_mapped(entries, j0);
    }
    assert(mapping(less) =~= mapping(entries).remove(gone));
}

proof fn addition_maps_one_key<K: Key, V>(entries: Seq<(K, V)>, entry: (K, V))
    requires
        keys_distinct(entries),
        !mapping(entries).contains_key(entry.0@),
    ensures
        keys_distinct(entries.push(entry)),
        mapping(entries.push(entry)) == mapping(entries).insert(entry.0@, entry.1),
{
    let more = entries.push(entry);
    assert(keys_distinct(more)) by {
        assert forall|a: int, b: int| 0 <= a < b < more.len() implies (#[trigger] more[a]).0@ != (
        #[trigger] more[b]).0@ by {
            entry_is_mapped(entries, a);
            if b < entries.len() {
                assert(entries[a].0@ != entries[b].0@);
            }
        }
    }
    let goal = mapping(entries).insert(entry.0@, entry.1);
    assert forall|key: K::V| mapping(more).contains_key(key) == goal.contains_key(key) by {
        if mapping(more).contains_key(key) {
            let j = mapped_key_has_an_entry(more, key);
            if j < entries.len() {
                entry_is_mapped(entries, j);
            }
        }
        if mapping(entries).contains_key(key) {
            let j = mapped_key_has_an_entry(entries, key);
            assert(more[j] == entries[j]);
            entry_is_mapped(more, j);
        }
        if key == entry.0@ {
            assert(more[entries.len() as int] == entry);
            entry_is_mapped(more, entries.len() as int);
        }
    }
    assert forall|key: K::V| mapping(more).contains_key(key) implies mapping(more)[key]
        == goal[key] by {
        let j = mapped_key_has_an_entry(more, key);
        if j < entries.len() {
            entry_is_mapped(entries, j);
            assert(key != entry.0@);
        }
    }
    assert(mapping(more) =~= goal);
}

spec fn keys_in<K: Key, V>(entries: Seq<(K, V)>) -> Seq<K::V> {
    Seq::new(entries.len(), |i: int| entries[i].0@)
}

proof fn keys_are_the_domain<K: Key, V>(entries: Seq<(K, V)>)
    requires
        keys_distinct(entries),
    ensures
        keys_in(entries).no_duplicates(),
        forall|key: K::V| #[trigger]
            keys_in(entries).contains(key) <==> mapping(entries).contains_key(key),
{
    let list = keys_in(entries);
    assert forall|key: K::V| #[trigger]
        list.contains(key) <==> mapping(entries).contains_key(key) by {
        if mapping(entries).contains_key(key) {
            let i = mapped_key_has_an_entry(entries, key);
            assert(list[i] == key);
        }
        if list.contains(key) {
            let i = choose|i: int| 0 <= i < list.len() && list[i] == key;
            entry_is_mapped(entries, i);
        }
    }
    assert forall|i: int, j: int|
        0 <= i < list.len() && 0 <= j < list.len() && i != j implies list[i] != list[j] by {
        if i < j {
            assert(entries[i].0@ != entries[j].0@);
        } else {
            assert(entries[j].0@ != entries[i].0@);
        }
    }
}

impl<K: Key, V> Assoc<K, V> {
    /// No key is repeated.
    pub closed spec fn wf(self) -> bool {
        keys_distinct(self.entries@)
    }

    /// The empty map.
    pub fn new() -> (map: Self)
        ensures
            map.wf(),
            map@ == Map::<K::V, V>::empty(),
    {
        let map = Assoc { entries: Vec::new() };
        assert(map@ =~= Map::<K::V, V>::empty());
        map
    }

    fn position(&self, key: &K) -> (r: Option<usize>)
        requires
            self.wf(),
        ensures
            match r {
                Some(i) => i < self.entries@.len() && self.entries@[i as int].0@ == key@
                    && self@.contains_key(key@) && self@[key@] == self.entries@[i as int].1,
                None => !self@.contains_key(key@),
            },
    {
        for i in 0..self.entries.len()
            invariant
                self.wf(),
                forall|j: int| 0 <= j < i ==> (#[trigger] self.entries@[j]).0@ != key@,
        {
            if self.entries[i].0.same(key) {
                proof {
                    entry_is_mapped(self.entries@, i as int);
                }
                return Some(i);
            }
        }
        proof {
            if self@.contains_key(key@) {
                let j = mapped_key_has_an_entry(self.entries@, key@);
            }
        }
        None
    }

    /// Whether `key` has a value.
    pub fn contains_key(&self, key: &K) -> (r: bool)
        requires
            self.wf(),
        ensures
            r == self@.contains_key(key@),
    {
        self.position(key).is_some()
    }

    /// The value of `key`.
    pub fn get(&self, key: &K) -> (r: Option<&V>)
        requires
            self.wf(),
        ensures
            match r {
                Some(value) => self@.contains_key(key@) && *value == self@[key@],
                None => !self@.contains_key(key@),
            },
    {
        match self.position(key) {
            Some(i) => Some(&self.entries[i].1),
            None => None,
        }
    }

    /// Takes `key` and its value out of the map.
    pub fn remove(&mut self, key: &K) -> (r: Option<V>)
        requires
            old(self).wf(),
        ensures
            final(self).wf(),
            final(self)@ == old(self)@.remove(key@),
            match r {
                Some(value) => old(self)@.contains_key(key@) && value == old(self)@[key@],
                None => !old(self)@.contains_key(key@),
            },
    {
        match self.position(key) {
            Some(i) => {
                proof {
                    removal_unmaps_one_key(self.entries@, i as int);
                }
                let (_, value) = self.entries.remove(i);
                Some(value)
            },
            None => {
                assert(self@.remove(key@) =~= self@);
                None
            },
        }
    }

    /// Gives `key` the value `value`.
    pub fn insert(&mut self, key: K, value: V)
        requires
            old(self).wf(),
        ensures
            final(self).wf(),
            final(self)@ == old(self)@.insert(key@, value),
    {
        let ghost k = key@;
        let _ = self.remove(&key);
        proof {
            addition_maps_one_key(self.entries@, (key, value));
        }
        self.entries.push((key, value));
        assert(old(self)@.remove(k).insert(k, value) =~= old(self)@.insert(k, value));
    }

    /// Empties the map.
    pub fn clear(&mut self)
        ensures
            final(self).wf(),
            final(self)@ == Map::<K::V, V>::empty(),
    {
        self.entries = Vec::new();
        assert(self@ =~= Map::<K::V, V>::empty());
    }

    /// The keys whose values the client with this name owns.
    pub fn keys_of(&self, owner: &str) -> (keys: Vec<K>)
        where
            V: Owned,
        requires
            self.wf(),
        ensures
            lists_owned(names(keys@), self@, owner@),
    {
        let mut keys: Vec<K> = Vec::new();
        let ghost all = keys_in(self.entries@);
        let ghost condition = owned_in(self@, owner@);
        proof {
            reveal(Seq::filter);
            assert(names(keys@) =~= all.take(0).filter(condition));
        }
        for i in 0..self.entries.len()
            invariant
                self.wf(),
                all == keys_in(self.entries@),
                condition == owned_in(self@, owner@),
                names(keys@) == all.take(i as int).filter(condition),
        {
            proof {
                entry_is_mapped(self.entries@, i as int);
                picking_goes_on(all, condition, i as int);
            }
            if self.entries[i].1.belongs_to(owner) {
                let ghost before = keys@;
                keys.push(self.entries[i].0.duplicate());
                assert(names(keys@) =~= names(before).push(all[i as int]));
            }
        }
        proof {
            assert(all.take(all.len() as int) =~= all);
            keys_are_the_domain(self.entries@);
            picked_part(all, condition);
        }
        keys
    }

    /// Drops what the client with this name owns.
    pub fn remove_owned(&mut self, owner: &str)
        where
            V: Owned,
        requires
            old(self).wf(),
        ensures
            final(self).wf(),
            final(self)@ == without_owned(old(self)@, owner@),
    {
        let mut i: usize = 0;
        while i < self.entries.len()
            invariant
                self.wf(),
                i <= self.entries@.len(),
                forall|j: int|
                    0 <= j < i ==> !(#[trigger] self.entries@[j]).1.owned_by(owner@),
                without_owned(self@, owner@) == without_owned(old(self)@, owner@),
            decreases self.entries@.len() - i,
        {
            proof {
                entry_is_mapped(self.entries@, i as int);
            }
            if self.entries[i].1.belongs_to(owner) {
                let ghost before = self@;
                proof {
                    removal_unmaps_one_key(self.entries@, i as int);
                }
                let _ = self.entries.remove(i);
                assert(without_owned(self@, owner@) =~= without_owned(before, owner@));
            } else {
                i = i + 1;
            }
        }
        assert(without_owned(self@, owner@) =~= self@) by {
            assert forall|key: K::V| self@.contains_key(key) implies !self@[key].owned_by(
                owner@,
            ) by {
                let j = mapped_key_has_an_entry(self.entries@, key);
            }
        }
    }
}

} // verus!
