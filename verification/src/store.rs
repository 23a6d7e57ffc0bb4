//! Generational handle store.
//!
//! A [`Store`] owns values and hands out a [`Handle`] for each. The handles are
//! issued by a slot map, which versions every slot: once a value is removed its
//! handle stays dead, also when the slot is occupied again.

use slotmap::{DefaultKey, SlotMap};
use vstd::prelude::*;

verus! {

/// The key type of the slot map. Verus sees nothing inside a key.
#[verifier::external_type_specification]
#[verifier::external_body]
pub struct ExDefaultKey(DefaultKey);

/// An opaque, copyable, generational reference to a value in a [`Store`].
///
/// Two handles are equal when they name the same slot in the same generation.
#[derive(Clone, Copy, Debug, PartialEq, Eq, Hash)]
pub struct Handle {
    key: DefaultKey,
}

/// The slot map that issues the handles of one store: a `slotmap::SlotMap`
/// that maps every live handle to the position of its value. Verus sees
/// nothing inside it.
#[verifier::external_body]
pub struct SlotIndex {
    map: SlotMap<DefaultKey, usize>,
}

/// The live handles of a slot map, each with the position stored for it.
pub uninterp spec fn index_entries(ix: SlotIndex) -> Map<Handle, usize>;

/// The handles last removed from the slots of a slot map that are vacant now:
/// for each vacant slot the handle that its latest occupant had.
pub uninterp spec fn index_vacated(ix: SlotIndex) -> Set<Handle>;

/// The live handles of a slot map in the order in which the slot map walks
/// them.
pub uninterp spec fn index_order(ix: SlotIndex) -> Seq<Handle>;

/// The largest number of values that a slot map holds at a time.
pub const MAX_ENTRIES: usize = 0xFFFF_FFFE;

/// `SlotMap::new`: a slot map without entries, in which no slot was ever
/// vacated.
#[verifier::external_body]
fn index_new() -> (ix: SlotIndex)
    ensures
        index_entries(ix).dom() == Set::<Handle>::empty(),
        index_vacated(ix) == Set::<Handle>::empty(),
{
    SlotIndex { map: SlotMap::new() }
}

/// `SlotMap::len`: the number of live entries.
#[verifier::external_body]
fn index_len(ix: &SlotIndex) -> (n: usize)
    ensures
        n == index_entries(*ix).dom().len(),
{
    ix.map.len()
}

/// `SlotMap::insert`: stores `position` under a key that is neither live nor
/// the latest one removed from a vacant slot, and vacates no slot. The slot map
/// panics when it is full, which the bound on the number of entries excludes.
#[verifier::external_body]
fn index_insert(ix: &mut SlotIndex, position: usize) -> (h: Handle)
    requires
        index_entries(*old(ix)).dom().finite(),
        index_entries(*old(ix)).dom().len() < MAX_ENTRIES,
    ensures
        !index_entries(*old(ix)).contains_key(h),
        !index_vacated(*old(ix)).contains(h),
        index_entries(*final(ix)) == index_entries(*old(ix)).insert(h, position),
        index_vacated(*final(ix)).subset_of(index_vacated(*old(ix))),
{
    Handle { key: ix.map.insert(position) }
}

/// `SlotMap::get`: the position stored under a live key, nothing for any other
/// key.
#[verifier::external_body]
fn index_get(ix: &SlotIndex, h: Handle) -> (r: Option<usize>)
    ensures
        r == (if index_entries(*ix).contains_key(h) {
            Some(index_entries(*ix)[h])
        } else {
            None
        }),
{
    ix.map.get(h.key).copied()
}

/// `SlotMap::remove`: takes a live key out, hands back what was stored under it
/// and leaves its slot vacant; any other key changes nothing.
#[verifier::external_body]
fn index_remove(ix: &mut SlotIndex, h: Handle) -> (r: Option<usize>)
    ensures
        index_entries(*old(ix)).contains_key(h) ==> {
            &&& r == Some(index_entries(*old(ix))[h])
            &&& index_entries(*final(ix)) == index_entries(*old(ix)).remove(h)
            &&& index_vacated(*final(ix)) == index_vacated(*old(ix)).insert(h)
        },
        !index_entries(*old(ix)).contains_key(h) ==> {
            &&& r.is_none()
            &&& index_entries(*final(ix)) == index_entries(*old(ix))
            &&& index_vacated(*final(ix)) == index_vacated(*old(ix))
        },
{
    ix.map.remove(h.key)
}

/// `SlotMap::keys`: every live key, each once, in the order in which the slot
/// map walks its slots.
#[verifier::external_body]
fn index_keys(ix: &SlotIndex) -> (keys: Vec<Handle>)
    ensures
        keys@ == index_order(*ix),
        keys@.no_duplicates(),
        keys@.to_set() == index_entries(*ix).dom(),
{
    ix.map.keys().map(|key| Handle { key }).collect()
}

/// A store of values of one kind, each reached through the handle that was
/// issued for it.
pub struct Store<V> {
    index: SlotIndex,
    values: Vec<Option<V>>,
    free: Vec<usize>,
}

impl<V> Store<V> {
    /// Whether the store is consistent: every live handle has its value, and no
    /// two of them share one.
    pub closed spec fn wf(&self) -> bool {
        let entries = index_entries(self.index);
        &&& entries.dom().finite()
        &&& forall|h: Handle| #[trigger]
            entries.contains_key(h) ==> entries[h] < self.values.len()
                && self.values[entries[h] as int].is_some()
        &&& forall|h1: Handle, h2: Handle|
            entries.contains_key(h1) && entries.contains_key(h2) && h1 != h2
                ==> #[trigger] entries[h1] != #[trigger] entries[h2]
        &&& forall|i: int|
            0 <= i < self.free.len() ==> (#[trigger] self.free[i]) < self.values.len()
                && self.values[self.free[i] as int].is_none()
        &&& forall|i: int, j: int|
            0 <= i < j < self.free.len() ==> #[trigger] self.free[i] != #[trigger] self.free[j]
    }

    /// The live handles, each with its value.
    pub closed spec fn view(&self) -> Map<Handle, V> {
        Map::new(
            |h: Handle| index_entries(self.index).contains_key(h),
            |h: Handle| self.values[index_entries(self.index)[h] as int].unwrap(),
        )
    }

    /// The handles that were removed and whose slots have stayed vacant since.
    pub closed spec fn retired(&self) -> Set<Handle> {
        index_vacated(self.index)
    }

    /// The live handles in the order in which the store lists them. The order
    /// stays the same as long as the store is not changed.
    pub closed spec fn order(&self) -> Seq<Handle> {
        index_order(self.index)
    }

    /// An empty store.
    pub fn new() -> (s: Self)
        ensures
            s.wf(),
            s@ == Map::<Handle, V>::empty(),
            s.retired() == Set::<Handle>::empty(),
    {
        let s = Store { index: index_new(), values: Vec::new(), free: Vec::new() };
        assert(s@ =~= Map::<Handle, V>::empty());
        s
    }

    /// The number of live values.
    pub fn len(&self) -> (n: usize)
        requires
            self.wf(),
        ensures
            self@.dom().finite(),
            n == self@.len(),
    {
        proof {
            assert(self@.dom() =~= index_entries(self.index).dom());
        }
        index_len(&self.index)
    }

    /// Whether `h` is live in this store.
    pub fn contains(&self, h: Handle) -> (b: bool)
        ensures
            b == self@.contains_key(h),
    {
        index_get(&self.index, h).is_some()
    }

    /// The value that `h` refers to, if `h` is live in this store.
    pub fn get(&self, h: Handle) -> (r: Option<&V>)
        requires
            self.wf(),
        ensures
            r == (if self@.contains_key(h) {
                Some(&self@[h])
            } else {
                None
            }),
    {
        match index_get(&self.index, h) {
            Some(p) => self.values[p].as_ref(),
            None => None,
        }
    }

    /// The value that `h` refers to, for changing it in place, if `h` is live
    /// in this store. Nothing else in the store changes.
    pub fn get_mut(&mut self, h: Handle) -> (r: Option<&mut V>)
        requires
            old(self).wf(),
        ensures
            final(self).wf(),
            old(self)@.contains_key(h) ==> r.is_some() && *r.unwrap() == old(self)@[h]
                && final(self)@ == old(self)@.insert(h, *final(r.unwrap())),
            !old(self)@.contains_key(h) ==> r.is_none() && final(self)@ == old(self)@,
            final(self).retired() == old(self).retired(),
            final(self).order() == old(self).order(),
    {
        match index_get(&self.index, h) {
            Some(p) => {
                self.values[p].as_mut()
            },
            None => None,
        }
    }

    /// Puts `value` into the store and issues a handle for it. The handle is
    /// new: it is not live, and it is none of the retired handles.
    pub fn insert(&mut self, value: V) -> (h: Handle)
        requires
            old(self).wf(),
            old(self)@.len() < MAX_ENTRIES,
        ensures
            final(self).wf(),
            !old(self)@.contains_key(h),
            !old(self).retired().contains(h),
            final(self)@ == old(self)@.insert(h, value),
            final(self).retired().subset_of(old(self).retired()),
    {
        proof {
            assert(self@.dom() =~= index_entries(self.index).dom());
        }
        let position = match self.free.pop() {
            Some(p) => {
                self.values[p] = Some(value);
                p
            },
            None => {
                self.values.push(Some(value));
                self.values.len() - 1
            },
        };
        let h = index_insert(&mut self.index, position);
        proof {
            assert(final(self)@ =~= old(self)@.insert(h, value));
        }
        h
    }

    /// Takes the value that `h` refers to out of the store, if `h` is live in
    /// it, and retires `h`. Any other handle changes nothing.
    pub fn remove(&mut self, h: Handle) -> (r: Option<V>)
        requires
            old(self).wf(),
        ensures
            final(self).wf(),
            old(self)@.contains_key(h) ==> r == Some(old(self)@[h])
                && final(self).retired() == old(self).retired().insert(h),
            !old(self)@.contains_key(h) ==> r.is_none()
                && final(self).retired() == old(self).retired(),
            final(self)@ == old(self)@.remove(h),
    {
        match index_remove(&mut self.index, h) {
            Some(p) => {
                let value = self.values[p].take();
                self.free.push(p);
                proof {
                    assert(final(self)@ =~= old(self)@.remove(h));
                }
                value
            },
            None => {
                proof {
                    assert(final(self)@ =~= old(self)@.remove(h));
                }
                None
            },
        }
    }

    /// The live handles, each once. Their order is that of the store, which
    /// says nothing about when a value was put in.
    pub fn handles(&self) -> (hs: Vec<Handle>)
        ensures
            hs@ == self.order(),
            hs@.no_duplicates(),
            hs@.to_set() == self@.dom(),
    {
        proof {
            assert(self@.dom() =~= index_entries(self.index).dom());
        }
        index_keys(&self.index)
    }
}

/// A removed handle stays dead. Let `vacated` be the store `before` after
/// `remove(h)` for a live `h`, and `refilled` be `vacated` after
/// `insert(value)`, which issued `fresh`. Then `h` refers to nothing in
/// either, `fresh` differs from `h`, and `fresh` refers to `value`: this holds
/// also where the new value went into the slot that `h` had.
pub proof fn lemma_removed_handle_stays_dead<V>(
    before: Store<V>,
    h: Handle,
    vacated: Store<V>,
    value: V,
    fresh: Handle,
    refilled: Store<V>,
)
    requires
        before@.contains_key(h),
        vacated@ == before@.remove(h),
        vacated.retired() == before.retired().insert(h),
        !vacated@.contains_key(fresh),
        !vacated.retired().contains(fresh),
        refilled@ == vacated@.insert(fresh, value),
    ensures
        !vacated@.contains_key(h),
        fresh != h,
        !refilled@.contains_key(h),
        refilled@.contains_key(fresh) && refilled@[fresh] == value,
{
}

/// Inserting and removing leave every other handle alone: a handle that is
/// live before `insert` still refers to the same value after it, and a live
/// handle other than the removed one still refers to the same value after
/// `remove`.
pub proof fn lemma_other_handles_keep_their_values<V>(
    before: Store<V>,
    other: Handle,
    value: V,
    fresh: Handle,
    grown: Store<V>,
    removed: Handle,
    shrunk: Store<V>,
)
    requires
        before@.contains_key(other),
        !before@.contains_key(fresh),
        grown@ == before@.insert(fresh, value),
        shrunk@ == before@.remove(removed),
        other != removed,
    ensures
        grown@.contains_key(other) && grown@[other] == before@[other],
        shrunk@.contains_key(other) && shrunk@[other] == before@[other],
{
}

} // verus!
