//! A small ordered table keyed by text.
//!
//! Entity definitions, JSON objects and claim sets are all tables from names to
//! values.  [`KeyedList`] keeps such a table as a list of entries in which no
//! name occurs twice.  As a value it is the map from names to values; the order
//! of the entries is the order in which a walk over the table meets them.
use crate::text::same;
use vstd::prelude::*;

verus! {

/// A table from names to values: a list of entries in which no name occurs twice.
pub struct KeyedList<V> {
    entries: Vec<(String, V)>,
}

/// No name occurs twice among the entries.
pub open spec fn distinct_keys<V>(entries: Seq<(String, V)>) -> bool {
    forall|i: int, j: int|
        0 <= i < j < entries.len() ==> (#[trigger] entries[i]).0@ != (#[trigger] entries[j]).0@
}

/// The map that a list of entries stands for.
pub open spec fn map_of<V>(entries: Seq<(String, V)>) -> Map<Seq<char>, V>
    decreases entries.len(),
{
    if entries.len() == 0 {
        Map::empty()
    } else {
        map_of(entries.drop_last()).insert(entries.last().0@, entries.last().1)
    }
}

/// One more entry is one more insertion into the map.
pub proof fn lemma_map_of_take<V>(entries: Seq<(String, V)>, i: int)
    requires
        0 <= i < entries.len(),
    ensures
        map_of(entries.take(i + 1)) == map_of(entries.take(i)).insert(entries[i].0@, entries[i].1),
{
    assert(entries.take(i + 1).drop_last() =~= entries.take(i));
}

/// The map holds exactly the entries of a list without repeated names.
pub proof fn lemma_map_of<V>(entries: Seq<(String, V)>)
    requires
        distinct_keys(entries),
    ensures
        forall|i: int| #![trigger entries[i]]
            0 <= i < entries.len() ==> map_of(entries).contains_key(entries[i].0@) && map_of(
                entries,
            )[entries[i].0@] == entries[i].1,
        forall|k: Seq<char>| #[trigger]
            map_of(entries).contains_key(k) ==> exists|i: int|
                0 <= i < entries.len() && (#[trigger] entries[i]).0@ == k,
        map_of(entries).dom().finite(),
    decreases entries.len(),
{
    if entries.len() > 0 {
        let init = entries.drop_last();
        lemma_map_of(init);
        assert forall|i: int| #![trigger entries[i]] 0 <= i < entries.len() implies map_of(
            entries,
        ).contains_key(entries[i].0@) && map_of(entries)[entries[i].0@] == entries[i].1 by {
            if i < entries.len() - 1 {
                assert(init[i] == entries[i]);
                assert(entries[i].0@ != entries[entries.len() - 1].0@);
            }
        }
        assert forall|k: Seq<char>| #[trigger] map_of(entries).contains_key(k) implies exists|
            i: int,
        |
            0 <= i < entries.len() && (#[trigger] entries[i]).0@ == k by {
            if k == entries.last().0@ {
                assert(entries[entries.len() - 1].0@ == k);
            } else {
                assert(map_of(init).contains_key(k));
                let i = choose|i: int| 0 <= i < init.len() && (#[trigger] init[i]).0@ == k;
                assert(entries[i].0@ == k);
            }
        }
    }
}

/// A name further on in the list is not among the names before it.
pub proof fn lemma_fresh_key<V>(entries: Seq<(String, V)>, i: int)
    requires
        distinct_keys(entries),
        0 <= i < entries.len(),
    ensures
        !map_of(entries.take(i)).contains_key(entries[i].0@),
        map_of(entries.take(i + 1)) == map_of(entries.take(i)).insert(
            entries[i].0@,
            entries[i].1,
        ),
{
    let before = entries.take(i);
    assert(distinct_keys(before)) by {
        assert forall|a: int, b: int| 0 <= a < b < before.len() implies (#[trigger] before[a]).0@
            != (#[trigger] before[b]).0@ by {
            assert(before[a] == entries[a] && before[b] == entries[b]);
        }
    }
    lemma_map_of(before);
    lemma_map_of_take(entries, i);
    if map_of(before).contains_key(entries[i].0@) {
        let j = choose|j: int| 0 <= j < before.len() && (#[trigger] before[j]).0@ == entries[i].0@;
        assert(before[j] == entries[j]);
    }
}

impl<V> View for KeyedList<V> {
    type V = Map<Seq<char>, V>;

    open spec fn view(&self) -> Map<Seq<char>, V> {
        map_of(self.entries())
    }
}

impl<V> KeyedList<V> {
    /// The entries, in order.
    pub closed spec fn entries(&self) -> Seq<(String, V)> {
        self.entries@
    }

    #[verifier::type_invariant]
    spec fn unique(&self) -> bool {
        distinct_keys(self.entries@)
    }

    /// A table is above its entries in the order by which recursion ends.
    pub proof fn lemma_entries_decrease(self)
        ensures
            decreases_to!(self => self.entries()),
    {
    }

    /// The empty table.
    pub fn new() -> (r: Self)
        ensures
            r.entries() == Seq::<(String, V)>::empty(),
            r@ == Map::<Seq<char>, V>::empty(),
    {
        KeyedList { entries: Vec::new() }
    }

    /// How many entries there are.
    pub fn len(&self) -> (r: usize)
        ensures
            r == self.entries().len(),
            distinct_keys(self.entries()),
    {
        proof {
            use_type_invariant(self);
        }
        self.entries.len()
    }

    /// The entry at position `i`.
    pub fn entry(&self, i: usize) -> (r: &(String, V))
        requires
            i < self.entries().len(),
        ensures
            *r == self.entries()[i as int],
    {
        &self.entries[i]
    }

    /// The position of the entry named `key`, or the number of entries.
    fn find(&self, key: &str) -> (r: usize)
        ensures
            r <= self.entries().len(),
            r < self.entries().len() ==> self.entries()[r as int].0@ == key@ && self@.contains_key(
                key@,
            ) && self@[key@] == self.entries()[r as int].1,
            r == self.entries().len() ==> !self@.contains_key(key@),
    {
        proof {
            use_type_invariant(self);
            lemma_map_of(self.entries@);
        }
        let mut i: usize = 0;
        while i < self.entries.len() && !same(self.entries[i].0.as_str(), key)
            invariant
                i <= self.entries.len(),
                forall|j: int| 0 <= j < i ==> (#[trigger] self.entries@[j]).0@ != key@,
            decreases self.entries.len() - i,
        {
            i = i + 1;
        }
        i
    }

    /// The value named `key`.
    pub fn get(&self, key: &str) -> (r: Option<&V>)
        ensures
            r == (if self@.contains_key(key@) {
                Some(&self@[key@])
            } else {
                None
            }),
    {
        let i: usize = self.find(key);
        if i < self.entries.len() {
            Some(&self.entries[i].1)
        } else {
            None
        }
    }

    /// Whether there is a value named `key`.
    pub fn contains_key(&self, key: &str) -> (r: bool)
        ensures
            r == self@.contains_key(key@),
    {
        self.find(key) < self.entries.len()
    }

    /// Makes `value` the value named `key`: in place where the name is taken,
    /// else behind the other entries.
    pub fn insert(&mut self, key: String, value: V)
        ensures
            final(self)@ == old(self)@.insert(key@, value),
            !old(self)@.contains_key(key@) ==> final(self).entries() == old(self).entries().push(
                (key, value),
            ),
            old(self)@.contains_key(key@) ==> exists|i: int|
                0 <= i < old(self).entries().len() && (#[trigger] old(self).entries()[i]).0@ == key@
                    && final(self).entries() == old(self).entries().update(
                    i,
                    (old(self).entries()[i].0, value),
                ),
    {
        let i: usize = self.find(key.as_str());
        proof {
            use_type_invariant(&*self);
            lemma_map_of(self.entries@);
        }
        let ghost before = self.entries@;
        let mut entries: Vec<(String, V)> = Vec::new();
        std::mem::swap(&mut entries, &mut self.entries);
        if i < entries.len() {
            let kept = entries[i].0.clone();
            entries.set(i, (kept, value));
            proof {
                let after = entries@;
                assert(before[i as int].0@ == key@);
                assert forall|a: int, b: int| 0 <= a < b < after.len() implies (
                #[trigger] after[a]).0@ != (#[trigger] after[b]).0@ by {
                    assert(after[a].0@ == before[a].0@);
                    assert(after[b].0@ == before[b].0@);
                }
                lemma_map_of(after);
                lemma_update(before, i as int, after);
            }
        } else {
            entries.push((key, value));
            proof {
                let after = entries@;
                assert(after.drop_last() =~= before);
                assert forall|a: int, b: int| 0 <= a < b < after.len() implies (
                #[trigger] after[a]).0@ != (#[trigger] after[b]).0@ by {
                    assert(after[a] == before[a]);
                    if b < before.len() {
                        assert(after[b] == before[b]);
                    } else {
                        assert(before[a].0@ != key@);
                    }
                }
            }
        }
        self.entries = entries;
    }

    /// The table with `value` named `key`.
    pub fn with(self, key: &str, value: V) -> (r: Self)
        ensures
            r@ == self@.insert(key@, value),
    {
        let mut list = self;
        list.insert(key.to_owned(), value);
        list
    }
}

/// Changing the value of one entry is an insertion into the map.
proof fn lemma_update<V>(before: Seq<(String, V)>, i: int, after: Seq<(String, V)>)
    requires
        distinct_keys(before),
        distinct_keys(after),
        0 <= i < before.len(),
        after.len() == before.len(),
        after[i].0@ == before[i].0@,
        forall|j: int| 0 <= j < before.len() && j != i ==> after[j] == before[j],
    ensures
        map_of(after) == map_of(before).insert(after[i].0@, after[i].1),
{
    lemma_map_of(before);
    lemma_map_of(after);
    let want = map_of(before).insert(after[i].0@, after[i].1);
    assert forall|k: Seq<char>| map_of(after).contains_key(k) == want.contains_key(k) by {
        if map_of(after).contains_key(k) {
            let j = choose|j: int| 0 <= j < after.len() && (#[trigger] after[j]).0@ == k;
            assert(before[j].0@ == k);
        }
        if want.contains_key(k) && k != after[i].0@ {
            let j = choose|j: int| 0 <= j < before.len() && (#[trigger] before[j]).0@ == k;
            assert(after[j].0@ == k);
        }
    }
    assert forall|k: Seq<char>| #[trigger] map_of(after).contains_key(k) implies map_of(after)[k]
        == want[k] by {
        let j = choose|j: int| 0 <= j < after.len() && (#[trigger] after[j]).0@ == k;
        if j != i {
            assert(before[j] == after[j]);
            assert(before[i].0@ != before[j].0@) by {
                if i < j {
                } else {
                    assert(before[j].0@ != before[i].0@);
                }
            }
        }
    }
    assert(map_of(after) =~= want);
}

} // verus!
