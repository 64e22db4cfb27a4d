//! Generational arena: a slot table handing out `(index, version)` handles.
//!
//! A handle resolves only while the slot's stored version matches the
//! handle's version. Removal bumps the version, so every handle to the
//! removed value turns into an ordinary lookup miss — even after the slot
//! is reused by a later insertion.

use vstd::prelude::*;

verus! {

/// Opaque reference to an arena slot. Equality is value equality on
/// both fields.
#[derive(Clone, Copy, Debug, PartialEq, Eq, Hash, Structural)]
pub struct ArenaId {
    pub index: usize,
    pub version: u32,
}

/// One slot: its current version and its value, present exactly while
/// the slot is occupied.
pub struct ArenaEntry<T> {
    pub version: u32,
    pub value: Option<T>,
}

/// Slot-table allocator with O(1) insert, remove and lookup and safe
/// slot reuse via versioning.
pub struct Arena<T> {
    pub items: Vec<ArenaEntry<T>>,
    pub free_indices: Vec<usize>,
}

impl<T> Arena<T> {
    /// What a handle currently resolves to: the stored value if the
    /// handle's slot exists, matches in version, and is occupied.
    pub open spec fn spec_get(self, id: ArenaId) -> Option<T> {
        if id.index < self.items@.len() && self.items@[id.index as int].version == id.version {
            self.items@[id.index as int].value
        } else {
            None
        }
    }

    /// The slot outlived the handle: its version has moved past the
    /// handle's. A retired handle never resolves again.
    pub open spec fn retired(self, id: ArenaId) -> bool {
        id.index < self.items@.len() && self.items@[id.index as int].version > id.version
    }

    /// Structural invariant: the free pool lists valid, distinct, empty
    /// slots, and an occupied slot's version is below the ceiling so
    /// removal can still bump it.
    pub open spec fn wf(self) -> bool {
        &&& forall|k: int|
            0 <= k < self.free_indices@.len() ==> (#[trigger] self.free_indices@[k])
                < self.items@.len()
        &&& forall|k1: int, k2: int|
            0 <= k1 < k2 < self.free_indices@.len() ==> self.free_indices@[k1]
                != self.free_indices@[k2]
        &&& forall|k: int|
            0 <= k < self.free_indices@.len() ==> self.items@[#[trigger] self.free_indices@[k] as int].value is None
                && self.items@[self.free_indices@[k] as int].version < u32::MAX
        &&& forall|i: int|
            0 <= i < self.items@.len() ==> ((#[trigger] self.items@[i]).value is Some
                ==> self.items@[i].version < u32::MAX)
    }

    pub fn new() -> (r: Arena<T>)
        ensures
            r.wf(),
            r.items@.len() == 0,
            r.free_indices@.len() == 0,
            forall|j: ArenaId| r.spec_get(j) is None,
    {
        Arena { items: Vec::new(), free_indices: Vec::new() }
    }

    /// Stores a value and hands back a live handle to it. Reuses the most
    /// recently freed slot if one exists, else appends a fresh slot with
    /// version 0.
    pub fn insert(&mut self, value: T) -> (id: ArenaId)
        requires
            old(self).wf(),
        ensures
            final(self).wf(),
            final(self).spec_get(id) == Some(value),
            old(self).spec_get(id) is None,
            forall|j: ArenaId| j != id ==> final(self).spec_get(j) == old(self).spec_get(j),
            forall|j: ArenaId| old(self).retired(j) ==> final(self).retired(j),
            old(self).free_indices@.len() > 0 ==> {
                &&& id.index == old(self).free_indices@.last()
                &&& id.version == old(self).items@[id.index as int].version
                &&& final(self).items@.len() == old(self).items@.len()
                &&& final(self).free_indices@ == old(self).free_indices@.drop_last()
            },
            old(self).free_indices@.len() == 0 ==> {
                &&& id.index == old(self).items@.len()
                &&& id.version == 0
                &&& final(self).items@.len() == old(self).items@.len() + 1
                &&& final(self).free_indices@ == old(self).free_indices@
            },
    {
        if let Some(index) = self.free_indices.pop() {
            let version: u32 = self.items[index].version;
            self.items[index].value = Some(value);
            ArenaId { index, version }
        } else {
            let index: usize = self.items.len();
            self.items.push(ArenaEntry { version: 0, value: Some(value) });
            ArenaId { index, version: 0 }
        }
    }

    /// Returns the stored value and frees the slot iff the handle is
    /// live; a stale or unknown handle is an ordinary miss, never a
    /// fault. On success the slot's version is bumped, retiring every
    /// handle to the removed value for good.
    pub fn remove(&mut self, id: ArenaId) -> (r: Option<T>)
        requires
            old(self).wf(),
        ensures
            final(self).wf(),
            r == old(self).spec_get(id),
            final(self).spec_get(id) is None,
            forall|j: ArenaId| j != id ==> final(self).spec_get(j) == old(self).spec_get(j),
            forall|j: ArenaId| old(self).retired(j) ==> final(self).retired(j),
            r is Some ==> final(self).retired(id),
            r is Some ==> final(self).items@[id.index as int].version == id.version + 1,
            r is Some && id.version + 1 < u32::MAX ==> final(self).free_indices@ == old(
                self,
            ).free_indices@.push(id.index),
            r is Some && id.version + 1 == u32::MAX ==> final(self).free_indices@ == old(
                self,
            ).free_indices@,
            r is None ==> *final(self) == *old(self),
            final(self).items@.len() == old(self).items@.len(),
    {
        if id.index >= self.items.len() {
            return None;
        }
        if self.items[id.index].version == id.version && self.items[id.index].value.is_some() {
            let entry = &mut self.items[id.index];
            let value: Option<T> = entry.value.take();
            entry.version = entry.version + 1;
            let new_version: u32 = entry.version;
            proof {
                assert(forall|k: int|
                    0 <= k < self.free_indices@.len() ==> self.free_indices@[k]
                        != id.index);
            }
            if new_version < u32::MAX {
                self.free_indices.push(id.index);
            }
            value
        } else {
            None
        }
    }

    /// Borrow the value a live handle refers to; stale handles miss.
    pub fn get(&self, id: ArenaId) -> (r: Option<&T>)
        ensures
            match r {
                Some(v) => self.spec_get(id) == Some(*v),
                None => self.spec_get(id) is None,
            },
    {
        if id.index >= self.items.len() {
            return None;
        }
        let entry = &self.items[id.index];
        if entry.version == id.version {
            entry.value.as_ref()
        } else {
            None
        }
    }

    /// Mutably borrow the value a live handle refers to; stale handles
    /// miss and leave the arena untouched.
    pub fn get_mut(&mut self, id: ArenaId) -> (r: Option<&mut T>)
        requires
            old(self).wf(),
        ensures
            final(self).wf(),
            match r {
                Some(v) => {
                    &&& old(self).spec_get(id) == Some(*v)
                    &&& final(self).spec_get(id) == Some(*final(v))
                    &&& final(self).items@ == old(self).items@.update(
                        id.index as int,
                        ArenaEntry { version: id.version, value: Some(*final(v)) },
                    )
                    &&& final(self).free_indices@ == old(self).free_indices@
                },
                None => {
                    &&& old(self).spec_get(id) is None
                    &&& final(self).items@ == old(self).items@
                    &&& final(self).free_indices@ == old(self).free_indices@
                },
            },
            forall|j: ArenaId| j != id ==> final(self).spec_get(j) == old(self).spec_get(j),
    {
        if id.index >= self.items.len() {
            return None;
        }
        let entry = &mut self.items[id.index];
        if entry.version == id.version {
            entry.value.as_mut()
        } else {
            None
        }
    }

    /// Handles of all currently occupied slots, in slot-index order.
    pub fn iter(&self) -> (r: Vec<ArenaId>)
        ensures
            forall|k: int|
                0 <= k < r@.len() ==> self.spec_get(#[trigger] r@[k]) == self.items@[r@[k].index as int].value
                    && r@[k].index < self.items@.len()
                    && self.items@[r@[k].index as int].value is Some,
            forall|k1: int, k2: int| 0 <= k1 < k2 < r@.len() ==> r@[k1].index < r@[k2].index,
            forall|i: int|
                0 <= i < self.items@.len() && (#[trigger] self.items@[i]).value is Some
                    ==> exists|k: int| 0 <= k < r@.len() && (#[trigger] r@[k]).index == i,
    {
        let mut out: Vec<ArenaId> = Vec::new();
        let mut i: usize = 0;
        while i < self.items.len()
            invariant
                i <= self.items@.len(),
                forall|k: int|
                    0 <= k < out@.len() ==> self.spec_get(#[trigger] out@[k])
                        == self.items@[out@[k].index as int].value
                        && out@[k].index < i
                        && self.items@[out@[k].index as int].value is Some,
                forall|k1: int, k2: int| 0 <= k1 < k2 < out@.len() ==> out@[k1].index < out@[k2].index,
                forall|j: int|
                    0 <= j < i && (#[trigger] self.items@[j]).value is Some
                        ==> exists|k: int| 0 <= k < out@.len() && (#[trigger] out@[k]).index == j,
            decreases self.items@.len() - i,
        {
            let entry = &self.items[i];
            if entry.value.is_some() {
                let ghost prev = out@;
                out.push(ArenaId { index: i, version: entry.version });
                proof {
                    assert forall|j: int|
                        0 <= j < i as int + 1 && (#[trigger] self.items@[j]).value is Some
                            implies exists|k: int|
                            0 <= k < out@.len() && (#[trigger] out@[k]).index == j by {
                        if j == i as int {
                            assert(out@[out@.len() - 1].index == j);
                        } else {
                            let k = choose|k: int|
                                0 <= k < prev.len() && (#[trigger] prev[k]).index == j;
                            assert(out@[k].index == j);
                        }
                    }
                }
            }
            i = i + 1;
        }
        out
    }
}

/// One arena operation, for stating laws over whole operation
/// sequences.
pub enum ArenaOp<T> {
    Insert(T),
    Remove(ArenaId),
}

/// Handle lifecycle over an arbitrary operation sequence: a handle
/// returned by `insert` keeps resolving to exactly the inserted value
/// through any further insertions and removals, until a removal with
/// that very handle succeeds — and never resolves again afterwards,
/// even if the slot is reused. The returned flag says whether the
/// sequence removed the handle.
pub fn handle_lifecycle<T>(arena: &mut Arena<T>, value: T, ops: Vec<ArenaOp<T>>) -> (r: (
    ArenaId,
    bool,
))
    requires
        old(arena).wf(),
    ensures
        final(arena).wf(),
        r.1 ==> final(arena).spec_get(r.0) is None && final(arena).retired(r.0),
        !r.1 ==> final(arena).spec_get(r.0) == Some(value),
{
    let id = arena.insert(value);
    let mut removed = false;
    let mut ops = ops;
    while ops.len() > 0
        invariant
            arena.wf(),
            removed ==> arena.spec_get(id) is None && arena.retired(id),
            !removed ==> arena.spec_get(id) == Some(value),
        decreases ops@.len(),
    {
        let op = ops.remove(0);
        match op {
            ArenaOp::Insert(v) => {
                let _fresh = arena.insert(v);
            },
            ArenaOp::Remove(h) => {
                let taken = arena.remove(h);
                if h == id && taken.is_some() {
                    removed = true;
                }
            },
        }
    }
    (id, removed)
}

/// Removal is idempotent per handle: of two removals in a row with one
/// handle, only the first can return the value; the second always
/// misses.
pub fn remove_twice<T>(arena: &mut Arena<T>, id: ArenaId) -> (r: (Option<T>, Option<T>))
    requires
        old(arena).wf(),
    ensures
        final(arena).wf(),
        r.0 == old(arena).spec_get(id),
        r.1 is None,
        final(arena).spec_get(id) is None,
{
    let first = arena.remove(id);
    let second = arena.remove(id);
    (first, second)
}

/// A retired handle never resolves: once `remove` has succeeded on a
/// handle, `get` misses for it forever, through any later sequence of
/// insertions and removals (those preserve retirement).
pub proof fn lemma_retired_never_resolves<T>(a: Arena<T>, id: ArenaId)
    requires
        a.retired(id),
    ensures
        a.spec_get(id) is None,
{
}

} // verus!
