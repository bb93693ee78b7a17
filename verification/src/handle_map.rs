//! A map from asset identities to values.
//!
//! Where a value lies is kept in a hash map of the engine's utility crate;
//! the identities and the values themselves lie in two vectors, side by side.

use vstd::prelude::*;
use crate::handle::HandleId;

verus! {

impl HandleId {
    /// The identity as a tuple of numbers, under which it is hashed.
    pub open spec fn spec_key(self) -> (u8, u128, u64) {
        match self {
            HandleId::Id(type_id, id) => (0u8, type_id, id),
            HandleId::AssetPathId(source, label) => (1u8, source as u128, label),
        }
    }

    /// The identity as a tuple of numbers, under which it is hashed.
    pub fn key(&self) -> (key: (u8, u128, u64))
        ensures
            key == self.spec_key(),
    {
        match self {
            HandleId::Id(type_id, id) => (0u8, *type_id, *id),
            HandleId::AssetPathId(source, label) => (1u8, *source as u128, *label),
        }
    }
}

/// Different identities have different tuples.
pub proof fn lemma_key_injective(a: HandleId, b: HandleId)
    requires
        a.spec_key() == b.spec_key(),
    ensures
        a == b,
{
}

/// Positions by identity: `bevy_utils::HashMap`, which is hashbrown's
/// `HashMap` with a hasher of its own.
#[verifier::external_body]
pub struct HandleIndex {
    slots: bevy_utils::HashMap<(u8, u128, u64), usize>,
}

/// What a [`HandleIndex`] holds: the position under each tuple.
pub uninterp spec fn index_slots(index: HandleIndex) -> Map<(u8, u128, u64), usize>;

/// `HashMap::default`: a map that holds nothing.
#[verifier::external_body]
fn index_new() -> (index: HandleIndex)
    ensures
        index_slots(index) == (Map::<(u8, u128, u64), usize>::empty()),
{
    HandleIndex { slots: bevy_utils::HashMap::default() }
}

/// `HashMap::get`: the position kept under `key`, if there is one.
#[verifier::external_body]
fn index_get(index: &HandleIndex, key: &(u8, u128, u64)) -> (slot: Option<usize>)
    ensures
        slot == (if index_slots(*index).contains_key(*key) {
            Some(index_slots(*index)[*key])
        } else {
            None
        }),
{
    index.slots.get(key).copied()
}

/// `HashMap::insert`: afterwards `slot` is kept under `key`, in place of
/// what was kept there before, which is returned; other keys are untouched.
#[verifier::external_body]
fn index_insert(index: &mut HandleIndex, key: (u8, u128, u64), slot: usize) -> (before: Option<
    usize,
>)
    ensures
        index_slots(*final(index)) == index_slots(*old(index)).insert(key, slot),
        before == (if index_slots(*old(index)).contains_key(key) {
            Some(index_slots(*old(index))[key])
        } else {
            None
        }),
{
    index.slots.insert(key, slot)
}

/// `HashMap::remove`: afterwards nothing is kept under `key`; what was kept
/// there is returned; other keys are untouched.
#[verifier::external_body]
fn index_remove(index: &mut HandleIndex, key: &(u8, u128, u64)) -> (before: Option<usize>)
    ensures
        index_slots(*final(index)) == index_slots(*old(index)).remove(*key),
        before == (if index_slots(*old(index)).contains_key(*key) {
            Some(index_slots(*old(index))[*key])
        } else {
            None
        }),
{
    index.slots.remove(key)
}

/// The three parts of a map, with no invariant of their own.
struct Table<T> {
    index: HandleIndex,
    handles: Vec<HandleId>,
    values: Vec<T>,
}

impl<T> Table<T> {
    /// The index and the vectors agree: each identity in the vector is
    /// indexed by its position, and each indexed position holds the identity
    /// it is indexed under.
    spec fn wf(self) -> bool {
        &&& self.handles.len() == self.values.len()
        &&& forall|i: int|
            0 <= i < self.handles.len() ==> {
                &&& index_slots(self.index).contains_key(#[trigger] self.handles[i].spec_key())
                &&& index_slots(self.index)[self.handles[i].spec_key()] == i
            }
        &&& forall|k: (u8, u128, u64)| #[trigger]
            index_slots(self.index).contains_key(k) ==> {
                &&& index_slots(self.index)[k] < self.handles.len()
                &&& self.handles[index_slots(self.index)[k] as int].spec_key() == k
            }
    }

    spec fn model(self) -> Map<HandleId, T> {
        Map::new(
            |h: HandleId| index_slots(self.index).contains_key(h.spec_key()),
            |h: HandleId| self.values[index_slots(self.index)[h.spec_key()] as int],
        )
    }

    fn new() -> (table: Self)
        ensures
            table.wf(),
            table.model() == (Map::<HandleId, T>::empty()),
    {
        let table = Table { index: index_new(), handles: Vec::new(), values: Vec::new() };
        assert(table.model() =~= Map::<HandleId, T>::empty());
        table
    }

    fn position(&self, handle: &HandleId) -> (slot: Option<usize>)
        requires
            self.wf(),
        ensures
            slot is Some <==> self.model().contains_key(*handle),
            slot is Some ==> {
                &&& slot->0 < self.values.len()
                &&& self.handles[slot->0 as int] == *handle
                &&& self.values[slot->0 as int] == self.model()[*handle]
                &&& index_slots(self.index)[handle.spec_key()] == slot->0
            },
    {
        let key = handle.key();
        let slot = index_get(&self.index, &key);
        proof {
            if slot is Some {
                lemma_key_injective(self.handles[slot->0 as int], *handle);
            }
        }
        slot
    }

    fn insert(&mut self, handle: HandleId, value: T)
        requires
            old(self).wf(),
        ensures
            final(self).wf(),
            final(self).model() == old(self).model().insert(handle, value),
    {
        let found = self.position(&handle);
        match found {
            Some(slot) => {
                self.values.set(slot, value);
                assert(self.model() =~= old(self).model().insert(handle, value)) by {
                    assert forall|h: HandleId| #[trigger]
                        self.model().contains_key(h) && h != handle implies self.model()[h]
                        == old(self).model()[h] by {
                        if index_slots(self.index)[h.spec_key()] == slot {
                            lemma_key_injective(h, handle);
                        }
                    }
                }
            },
            None => {
                let slot: usize = self.handles.len();
                self.handles.push(handle);
                self.values.push(value);
                let key = handle.key();
                let _ = index_insert(&mut self.index, key, slot);
                assert(self.wf());
                assert(self.model() =~= old(self).model().insert(handle, value)) by {
                    assert forall|h: HandleId| #[trigger]
                        self.model().contains_key(h) && h != handle implies old(
                        self,
                    ).model().contains_key(h) && self.model()[h] == old(self).model()[h] by {
                        if h.spec_key() == handle.spec_key() {
                            lemma_key_injective(h, handle);
                        }
                    }
                }
            },
        }
    }

    fn remove(&mut self, handle: &HandleId)
        requires
            old(self).wf(),
        ensures
            final(self).wf(),
            final(self).model() == old(self).model().remove(*handle),
    {
        let found = self.position(handle);
        match found {
            Some(slot) => {
                let last: usize = self.handles.len() - 1;
                let moved: HandleId = self.handles[last];
                let key = handle.key();
                let _ = index_remove(&mut self.index, &key);
                let _ = self.handles.swap_remove(slot);
                let _ = self.values.swap_remove(slot);
                if slot != last {
                    let moved_key = moved.key();
                    let _ = index_insert(&mut self.index, moved_key, slot);
                }
                assert(self.wf());
                assert(self.model() =~= old(self).model().remove(*handle)) by {
                    assert forall|h: HandleId| h != *handle && #[trigger] old(
                        self,
                    ).model().contains_key(h) implies self.model().contains_key(h)
                        && self.model()[h] == old(self).model()[h] by {
                        if h.spec_key() == handle.spec_key() {
                            lemma_key_injective(h, *handle);
                        }
                    }
                    assert forall|h: HandleId| #[trigger]
                        self.model().contains_key(h) implies h != *handle && old(
                        self,
                    ).model().contains_key(h) by {}
                }
            },
            None => {
                assert(self.model() =~= old(self).model().remove(*handle));
            },
        }
    }
}

/// A map from asset identities to values of type `T`.
pub struct HandleMap<T> {
    table: Table<T>,
}

impl<T> View for HandleMap<T> {
    type V = Map<HandleId, T>;

    closed spec fn view(&self) -> Map<HandleId, T> {
        self.table.model()
    }
}

impl<T> HandleMap<T> {
    #[verifier::type_invariant]
    spec fn inv(self) -> bool {
        self.table.wf()
    }

    /// A map that holds nothing.
    pub fn new() -> (map: Self)
        ensures
            map@ == (Map::<HandleId, T>::empty()),
    {
        HandleMap { table: Table::new() }
    }

    /// The value kept under `handle`, if there is one.
    pub fn get(&self, handle: &HandleId) -> (value: Option<&T>)
        ensures
            value is Some <==> self@.contains_key(*handle),
            value is Some ==> *value->0 == self@[*handle],
    {
        proof {
            use_type_invariant(self);
        }
        match self.table.position(handle) {
            Some(slot) => Some(&self.table.values[slot]),
            None => None,
        }
    }

    /// Whether a value is kept under `handle`.
    pub fn contains_key(&self, handle: &HandleId) -> (found: bool)
        ensures
            found == self@.contains_key(*handle),
    {
        proof {
            use_type_invariant(self);
        }
        self.table.position(handle).is_some()
    }

    /// Keeps `value` under `handle`, in place of what was kept there.
    pub fn insert(&mut self, handle: HandleId, value: T)
        ensures
            final(self)@ == old(self)@.insert(handle, value),
    {
        proof {
            use_type_invariant(&*self);
        }
        let mut table = Table::new();
        std::mem::swap(&mut table, &mut self.table);
        table.insert(handle, value);
        self.table = table;
    }

    /// Forgets what was kept under `handle`.
    pub fn remove(&mut self, handle: &HandleId)
        ensures
            final(self)@ == old(self)@.remove(*handle),
    {
        proof {
            use_type_invariant(&*self);
        }
        let mut table = Table::new();
        std::mem::swap(&mut table, &mut self.table);
        table.remove(handle);
        self.table = table;
    }
}

} // verus!
