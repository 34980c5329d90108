//! A small map, kept as a list of entries.

use vstd::prelude::*;

verus! {

/// What a [`Table`] can be keyed by.
pub trait TableKey: Sized {
    /// What tells two keys apart.
    type Id;

    spec fn id(&self) -> Self::Id;

    fn same_key(&self, other: &Self) -> (r: bool)
        ensures
            r == (self.id() == other.id()),
    ;

    fn copy_key(&self) -> (r: Self)
        ensures
            r == *self,
    ;
}

impl TableKey for String {
    type Id = Seq<char>;

    open spec fn id(&self) -> Seq<char> {
        self@
    }

    fn same_key(&self, other: &String) -> (r: bool) {
        crate::text::same(self.as_str(), other.as_str())
    }

    fn copy_key(&self) -> (r: String) {
        self.clone()
    }
}

impl TableKey for u32 {
    type Id = u32;

    open spec fn id(&self) -> u32 {
        *self
    }

    fn same_key(&self, other: &u32) -> (r: bool) {
        *self == *other
    }

    fn copy_key(&self) -> (r: u32) {
        *self
    }
}

/// A map from keys to values.
#[derive(Debug)]
pub struct Table<K: TableKey, V> {
    entries: Vec<(K, V)>,
}

/// What a list of entries maps each key to: a later entry wins over an earlier one.
pub open spec fn mapping<K: TableKey, V>(entries: Seq<(K, V)>) -> Map<K::Id, V>
    decreases entries.len(),
{
    if entries.len() == 0 {
        Map::empty()
    } else {
        mapping(entries.drop_last()).insert(entries.last().0.id(), entries.last().1)
    }
}

/// Taking an entry out changes nothing for other keys.
proof fn other_keys_stay_mapped<K: TableKey, V>(entries: Seq<(K, V)>, at: int)
    requires
        0 <= at < entries.len(),
    ensures
        mapping(entries.remove(at)).remove(entries[at].0.id()) == mapping(entries).remove(
            entries[at].0.id(),
        ),
    decreases entries.len(),
{
    let id = entries[at].0.id();
    if at < entries.len() - 1 {
        other_keys_stay_mapped(entries.drop_last(), at);
        assert(entries.remove(at).drop_last() == entries.drop_last().remove(at));
        assert(mapping(entries.remove(at)).remove(id) =~= mapping(
            entries.drop_last().remove(at),
        ).remove(id).insert(entries.last().0.id(), entries.last().1).remove(id)) by {
            assert(entries.remove(at).last() == entries.last());
        }
        assert(mapping(entries).remove(id) =~= mapping(entries.drop_last()).remove(id).insert(
            entries.last().0.id(),
            entries.last().1,
        ).remove(id));
    } else {
        assert(entries.remove(at) == entries.drop_last());
        assert(mapping(entries).remove(id) =~= mapping(entries.drop_last()).remove(id));
    }
}

proof fn mapped_by_last_entry<K: TableKey, V>(entries: Seq<(K, V)>, at: int)
    requires
        0 <= at < entries.len(),
        forall|i: int| at < i < entries.len() ==> (#[trigger] entries[i]).0.id() != entries[at].0.id(),
    ensures
        mapping(entries).dom().contains(entries[at].0.id()),
        mapping(entries)[entries[at].0.id()] == entries[at].1,
    decreases entries.len(),
{
    if at < entries.len() - 1 {
        mapped_by_last_entry(entries.drop_last(), at);
        assert(entries[entries.len() - 1] == entries.last());
    }
}

proof fn unmapped_without_entry<K: TableKey, V>(entries: Seq<(K, V)>, id: K::Id)
    requires
        forall|i: int| 0 <= i < entries.len() ==> (#[trigger] entries[i]).0.id() != id,
    ensures
        !mapping(entries).dom().contains(id),
    decreases entries.len(),
{
    if entries.len() > 0 {
        assert(entries[entries.len() - 1] == entries.last());
        unmapped_without_entry(entries.drop_last(), id);
    }
}

/// Some entry is for the key.
spec fn has_entry<K: TableKey, V>(entries: Seq<(K, V)>, id: K::Id) -> bool {
    exists|i: int| 0 <= i < entries.len() && (#[trigger] entries[i]).0.id() == id
}

/// Exactly the keys with an entry are mapped.
proof fn mapped_means_entry<K: TableKey, V>(entries: Seq<(K, V)>, id: K::Id)
    ensures
        mapping(entries).dom().contains(id) <==> has_entry(entries, id),
    decreases entries.len(),
{
    if entries.len() > 0 {
        let rest = entries.drop_last();
        mapped_means_entry(rest, id);
        if has_entry(rest, id) {
            let i = choose|i: int| 0 <= i < rest.len() && (#[trigger] rest[i]).0.id() == id;
            assert(entries[i].0.id() == id);
        }
        if entries.last().0.id() == id {
            assert(entries[entries.len() - 1].0.id() == id);
        } else if has_entry(entries, id) {
            let i = choose|i: int| 0 <= i < entries.len() && (#[trigger] entries[i]).0.id() == id;
            assert(rest[i].0.id() == id);
        }
    }
}

/// The key is in the list.
pub open spec fn key_listed<K: TableKey>(keys: Seq<K>, id: K::Id) -> bool {
    exists|i: int| 0 <= i < keys.len() && (#[trigger] keys[i]).id() == id
}

fn lists_key<K: TableKey>(keys: &Vec<K>, key: &K) -> (r: bool)
    ensures
        r == key_listed(keys@, key.id()),
{
    for i in 0..keys.len()
        invariant
            forall|j: int| 0 <= j < i ==> (#[trigger] keys@[j]).id() != key.id(),
    {
        if keys[i].same_key(key) {
            assert(keys@[i as int].id() == key.id());
            return true;
        }
    }
    false
}

impl<K: TableKey, V> Table<K, V> {
    pub closed spec fn map(self) -> Map<K::Id, V> {
        mapping(self.entries@)
    }

    pub fn new() -> (r: Table<K, V>)
        ensures
            r@ == Map::<K::Id, V>::empty(),
    {
        Table { entries: Vec::new() }
    }

    /// The index after the last entry for the key: zero where there is none.
    fn position(&self, key: &K) -> (r: usize)
        ensures
            r <= self.entries@.len(),
            r == 0 <==> !self@.dom().contains(key.id()),
            r > 0 ==> self.entries@[r - 1].0.id() == key.id() && self@[key.id()] == self.entries@[r
                - 1].1,
            forall|i: int| r <= i < self.entries@.len() ==> (#[trigger] self.entries@[i]).0.id() != key.id(),
    {
        let mut at: usize = self.entries.len();
        while at > 0
            invariant
                at <= self.entries@.len(),
                forall|i: int|
                    at <= i < self.entries@.len() ==> (#[trigger] self.entries@[i]).0.id()
                        != key.id(),
            decreases at,
        {
            if self.entries[at - 1].0.same_key(key) {
                proof {
                    mapped_by_last_entry(self.entries@, at - 1);
                }
                return at;
            }
            at -= 1;
        }
        proof {
            unmapped_without_entry(self.entries@, key.id());
        }
        0
    }

    pub fn contains(&self, key: &K) -> (r: bool)
        ensures
            r == self@.dom().contains(key.id()),
    {
        self.position(key) > 0
    }

    pub fn get(&self, key: &K) -> (r: Option<&V>)
        ensures
            r == (if self@.dom().contains(key.id()) {
                Some(&self@[key.id()])
            } else {
                None
            }),
    {
        let at = self.position(key);
        if at > 0 {
            Some(&self.entries[at - 1].1)
        } else {
            None
        }
    }

    pub fn remove(&mut self, key: &K)
        ensures
            final(self)@ == old(self)@.remove(key.id()),
    {
        let mut at = self.position(key);
        while at > 0
            invariant
                at <= self.entries@.len(),
                at == 0 <==> !self@.dom().contains(key.id()),
                at > 0 ==> self.entries@[at - 1].0.id() == key.id(),
                self@.remove(key.id()) == old(self)@.remove(key.id()),
            decreases self.entries@.len(),
        {
            proof {
                other_keys_stay_mapped(self.entries@, at - 1);
            }
            self.entries.remove(at - 1);
            at = self.position(key);
        }
        assert(self@.remove(key.id()) =~= self@);
    }

    pub fn insert(&mut self, key: K, value: V)
        ensures
            final(self)@ == old(self)@.insert(key.id(), value),
    {
        self.remove(&key);
        let ghost before = self.entries@;
        self.entries.push((key, value));
        assert(self.entries@.drop_last() == before);
        assert(self@ =~= old(self)@.insert(key.id(), value));
    }

    pub fn clear(&mut self)
        ensures
            final(self)@ == Map::<K::Id, V>::empty(),
    {
        self.entries = Vec::new();
    }

    /// Every key that is mapped, each once.
    pub fn keys(&self) -> (r: Vec<K>)
        ensures
            forall|id: K::Id| #[trigger] key_listed(r@, id) <==> self@.dom().contains(id),
            forall|i: int, j: int|
                0 <= i < j < r@.len() ==> (#[trigger] r@[i]).id() != (#[trigger] r@[j]).id(),
    {
        let mut keys: Vec<K> = Vec::new();
        for at in 0..self.entries.len()
            invariant
                forall|id: K::Id| #[trigger]
                    key_listed(keys@, id) <==> has_entry(self.entries@.take(at as int), id),
                forall|i: int, j: int|
                    0 <= i < j < keys@.len() ==> (#[trigger] keys@[i]).id() != (#[trigger] keys@[j]).id(),
        {
            let ghost before = keys@;
            let known = lists_key(&keys, &self.entries[at].0);
            if !known {
                keys.push(self.entries[at].0.copy_key());
            }
            proof {
                listing_one_more(self.entries@, at as int, before, keys@);
            }
        }
        proof {
            assert(self.entries@.take(self.entries@.len() as int) == self.entries@);
            assert forall|id: K::Id| #[trigger] key_listed(keys@, id) <==> self@.dom().contains(id) by {
                mapped_means_entry(self.entries@, id);
            }
        }
        keys
    }
}

proof fn listing_one_more<K: TableKey, V>(
    entries: Seq<(K, V)>,
    at: int,
    before: Seq<K>,
    after: Seq<K>,
)
    requires
        0 <= at < entries.len(),
        forall|id: K::Id| #[trigger] key_listed(before, id) <==> has_entry(entries.take(at), id),
        after == if key_listed(before, entries[at].0.id()) {
            before
        } else {
            before.push(entries[at].0)
        },
    ensures
        forall|id: K::Id| #[trigger] key_listed(after, id) <==> has_entry(entries.take(at + 1), id),
{
    assert forall|id: K::Id| #[trigger] key_listed(after, id) <==> has_entry(
        entries.take(at + 1),
        id,
    ) by {
        let shorter = entries.take(at);
        let longer = entries.take(at + 1);
        assert(key_listed(before, id) <==> has_entry(shorter, id));
        if has_entry(longer, id) {
            let i = choose|i: int| 0 <= i < longer.len() && (#[trigger] longer[i]).0.id() == id;
            if i < at {
                assert(shorter[i].0.id() == id);
                let k = choose|k: int| 0 <= k < before.len() && (#[trigger] before[k]).id() == id;
                assert(after[k].id() == id);
            } else if key_listed(before, id) {
                let k = choose|k: int| 0 <= k < before.len() && (#[trigger] before[k]).id() == id;
                assert(after[k].id() == id);
            } else {
                assert(after[after.len() - 1].id() == id);
            }
        }
        if key_listed(after, id) {
            let k = choose|k: int| 0 <= k < after.len() && (#[trigger] after[k]).id() == id;
            if k < before.len() {
                assert(before[k].id() == id);
                let i = choose|i: int| 0 <= i < shorter.len() && (#[trigger] shorter[i]).0.id() == id;
                assert(longer[i].0.id() == id);
            } else {
                assert(longer[at].0.id() == id);
            }
        }
    }
}

impl<K: TableKey, V> View for Table<K, V> {
    type V = Map<K::Id, V>;

    closed spec fn view(&self) -> Map<K::Id, V> {
        self.map()
    }
}

} // verus!
