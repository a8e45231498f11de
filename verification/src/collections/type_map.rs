//! A map from type tags to values, one value per tag.

use vstd::prelude::*;

verus! {

/// The hash table of a `TypeMap`: for each tag, the slot that holds its value.
#[verifier::external_body]
pub struct TagIndex {
    inner: hashbrown::HashMap<u64, usize>,
}

/// What a `TagIndex` holds: the slot of each tag in it.
pub uninterp spec fn index_entries(index: TagIndex) -> Map<u64, usize>;

/// The index with no tag in it.
pub open spec fn no_entries() -> Map<u64, usize> {
    Map::empty()
}

/// The slot of `id` in `entries`, if it has one.
pub open spec fn entry_at(entries: Map<u64, usize>, id: u64) -> Option<usize> {
    if entries.contains_key(id) {
        Some(entries[id])
    } else {
        None
    }
}

/// `hashbrown::HashMap::new`: the new table holds nothing.
#[verifier::external_body]
fn index_new() -> (index: TagIndex)
    ensures
        index_entries(index) == no_entries(),
{
    TagIndex { inner: hashbrown::HashMap::new() }
}

/// `hashbrown::HashMap::insert`: afterwards `id` has `slot`, every other tag
/// what it had, and the slot that `id` had before is returned.
#[verifier::external_body]
fn index_insert(index: &mut TagIndex, id: u64, slot: usize) -> (previous: Option<usize>)
    ensures
        index_entries(*final(index)) == index_entries(*old(index)).insert(id, slot),
        previous == entry_at(index_entries(*old(index)), id),
{
    index.inner.insert(id, slot)
}

/// `hashbrown::HashMap::get`: the slot of `id`, or `None` where the table
/// does not hold `id`.
#[verifier::external_body]
fn index_get(index: &TagIndex, id: u64) -> (slot: Option<usize>)
    ensures
        slot == entry_at(index_entries(*index), id),
{
    index.inner.get(&id).copied()
}

/// `hashbrown::HashMap::contains_key`: whether the table holds `id`.
#[verifier::external_body]
fn index_contains(index: &TagIndex, id: u64) -> (present: bool)
    ensures
        present == index_entries(*index).contains_key(id),
{
    index.inner.contains_key(&id)
}

/// A map from tags to values. A tag stands for a type: whoever uses the map
/// gives each type that it stores a tag of its own.
///
/// The values lie in `slots`; `index` says which slot belongs to which tag.
pub struct TypeMap<V> {
    index: TagIndex,
    slots: Vec<V>,
}

impl<V> View for TypeMap<V> {
    type V = Map<u64, V>;

    closed spec fn view(&self) -> Map<u64, V> {
        Map::new(
            |id: u64| index_entries(self.index).contains_key(id),
            |id: u64| self.slots@[index_entries(self.index)[id] as int],
        )
    }
}

impl<V> TypeMap<V> {
    /// Every tag has a slot that exists, and no two tags share one.
    #[verifier::type_invariant]
    closed spec fn slots_match(&self) -> bool {
        let entries = index_entries(self.index);
        &&& forall|id: u64| #[trigger]
            entries.contains_key(id) ==> entries[id] < self.slots@.len()
        &&& forall|a: u64, b: u64|
            entries.contains_key(a) && entries.contains_key(b) && a != b ==> #[trigger] entries[a]
                != #[trigger] entries[b]
    }

    /// The empty map.
    pub fn new() -> (map: Self)
        ensures
            map@ == Map::<u64, V>::empty(),
    {
        let map = TypeMap { index: index_new(), slots: Vec::new() };
        assert(map@ =~= Map::<u64, V>::empty());
        map
    }

    /// The map with `value` under `id`, whatever was there before.
    pub fn with_id(self, id: u64, value: V) -> (map: Self)
        ensures
            map@ == self@.insert(id, value),
    {
        let mut map = self;
        map.set_by_id(id, value);
        map
    }

    /// Puts `value` under `id`, in place of what was there.
    pub fn set_by_id(&mut self, id: u64, value: V)
        ensures
            final(self)@ == old(self)@.insert(id, value),
    {
        let mut taken = TypeMap { index: index_new(), slots: Vec::new() };
        core::mem::swap(self, &mut taken);
        proof {
            use_type_invariant(&taken);
        }
        let TypeMap { mut index, mut slots } = taken;
        match index_get(&index, id) {
            Some(slot) => {
                slots[slot] = value;
            },
            None => {
                let slot = slots.len();
                slots.push(value);
                index_insert(&mut index, id, slot);
            },
        }
        *self = TypeMap { index, slots };
        assert(self@ =~= old(self)@.insert(id, value));
    }

    /// Whether a value lies under `id`.
    pub fn contains_id(&self, id: u64) -> (present: bool)
        ensures
            present == self@.contains_key(id),
    {
        index_contains(&self.index, id)
    }

    /// Puts `value` under `id` unless a value lies there already.
    pub fn add_by_id(&mut self, id: u64, value: V)
        ensures
            old(self)@.contains_key(id) ==> final(self)@ == old(self)@,
            !old(self)@.contains_key(id) ==> final(self)@ == old(self)@.insert(id, value),
    {
        if !self.contains_id(id) {
            self.set_by_id(id, value);
        }
    }

    /// The value under `id`, if there is one.
    pub fn get_by_id(&self, id: u64) -> (value: Option<&V>)
        ensures
            value.is_some() == self@.contains_key(id),
            value.is_some() ==> *value.unwrap() == self@[id],
    {
        proof {
            use_type_invariant(self);
        }
        match index_get(&self.index, id) {
            Some(slot) => Some(&self.slots[slot]),
            None => None,
        }
    }

    /// The value under `id`, which the caller says is there.
    pub fn require(&self, id: u64) -> (value: &V)
        requires
            self@.contains_key(id),
        ensures
            *value == self@[id],
    {
        proof {
            use_type_invariant(self);
        }
        let slot = index_get(&self.index, id).unwrap();
        &self.slots[slot]
    }

    /// The value under `id`, if there is one, to be changed in place.
    pub fn get_mut_by_id(&mut self, id: u64) -> (value: Option<&mut V>)
        ensures
            value.is_some() == old(self)@.contains_key(id),
            match value {
                Some(place) => *place == old(self)@[id] && final(self)@ =~= old(self)@.insert(
                    id,
                    *final(place),
                ),
                None => final(self)@ == old(self)@,
            },
    {
        proof {
            use_type_invariant(&*self);
        }
        match index_get(&self.index, id) {
            Some(slot) => {
                Some(&mut self.slots[slot])
            },
            None => None,
        }
    }

    /// The value under `id`, which the caller says is there, to be changed
    /// in place.
    pub fn require_mut(&mut self, id: u64) -> (value: &mut V)
        requires
            old(self)@.contains_key(id),
        ensures
            *value == old(self)@[id],
            final(self)@ =~= old(self)@.insert(id, *final(value)),
    {
        proof {
            use_type_invariant(&*self);
        }
        let slot = index_get(&self.index, id).unwrap();
        &mut self.slots[slot]
    }
}

impl<V: Default> TypeMap<V> {
    /// The map with the default value under `id`, whatever was there before.
    pub fn with_default(self, id: u64) -> (map: Self)
        ensures
            exists|value: V| map@ == self@.insert(id, value),
    {
        self.with_id(id, V::default())
    }

    /// Puts the default value under `id`, in place of what was there.
    pub fn set_default(&mut self, id: u64)
        ensures
            exists|value: V| final(self)@ == old(self)@.insert(id, value),
    {
        self.set_by_id(id, V::default());
    }

    /// Puts the default value under `id` unless a value lies there already.
    pub fn add_default(&mut self, id: u64)
        ensures
            old(self)@.contains_key(id) ==> final(self)@ == old(self)@,
            !old(self)@.contains_key(id) ==> exists|value: V|
                final(self)@ == old(self)@.insert(id, value),
    {
        self.add_by_id(id, V::default());
    }

    /// The value under `id`, after the default value was put there if there
    /// was none.
    pub fn get_defaulted(&mut self, id: u64) -> (value: &V)
        ensures
            old(self)@.contains_key(id) ==> final(self)@ == old(self)@,
            final(self)@ == old(self)@.insert(id, *value),
    {
        self.add_default(id);
        assert(self@ =~= old(self)@.insert(id, self@[id]));
        self.require(id)
    }

    /// The value under `id`, to be changed in place, after the default value
    /// was put there if there was none.
    pub fn get_mut_defaulted(&mut self, id: u64) -> (value: &mut V)
        ensures
            old(self)@.contains_key(id) ==> *value == old(self)@[id],
            final(self)@ =~= old(self)@.insert(id, *final(value)),
    {
        self.add_default(id);
        self.require_mut(id)
    }
}

} // verus!
