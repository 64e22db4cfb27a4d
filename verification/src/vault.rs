//! Resource vault: a name-indexed, type-heterogeneous asset store built
//! on one generational arena.
//!
//! Every operation is total: a stale handle or a mismatched type is an
//! ordinary "nothing found", never a fault. The name index is kept
//! consistent with the arena at every observable point — a removed entry
//! is never reachable by name, and a name is never bound to a stale
//! handle.

use vstd::prelude::*;
use crate::arena::{Arena, ArenaId};
use crate::asset::{Asset, Downcast};
use crate::assoc::{assoc_find, lemma_assoc_absent, lemma_assoc_present, lemma_assoc_push, lemma_assoc_remove};

verus! {

/// Opaque reference to a vault entry. Equality is value equality on
/// both fields.
#[derive(Clone, Copy, Debug, PartialEq, Eq, Hash, Structural)]
pub struct AssetId {
    pub index: usize,
    pub version: u32,
}

impl AssetId {
    /// The arena handle this vault handle stands for.
    pub open spec fn spec_to_arena(self) -> ArenaId {
        ArenaId { index: self.index, version: self.version }
    }

    fn to_arena(self) -> (r: ArenaId)
        ensures
            r == self.spec_to_arena(),
    {
        ArenaId { index: self.index, version: self.version }
    }
}

/// One stored asset together with the name it was registered under.
pub struct VaultEntry {
    pub name: String,
    pub value: Asset,
}

/// Name-indexed store of type-erased assets with generational handles.
pub struct Vault {
    pub assets: Arena<VaultEntry>,
    pub lookup: Vec<(String, AssetId)>,
}

impl Vault {
    /// The entry a handle currently resolves to.
    pub open spec fn spec_entry(self, id: AssetId) -> Option<VaultEntry> {
        self.assets.spec_get(id.spec_to_arena())
    }

    /// The asset a handle currently resolves to.
    pub open spec fn spec_asset(self, id: AssetId) -> Option<Asset> {
        match self.spec_entry(id) {
            Some(e) => Some(e.value),
            None => None,
        }
    }

    /// The name the entry behind a live handle was registered under.
    pub open spec fn spec_name_of(self, id: AssetId) -> Option<Seq<char>> {
        match self.spec_entry(id) {
            Some(e) => Some(e.name@),
            None => None,
        }
    }

    /// The handle a name currently resolves to.
    pub open spec fn spec_search(self, name: Seq<char>) -> Option<AssetId> {
        assoc_find(self.lookup@, name)
    }

    /// Handles retired by the backing arena never resolve again.
    pub open spec fn retired(self, id: AssetId) -> bool {
        self.assets.retired(id.spec_to_arena())
    }

    /// Invariant: the arena is well formed, bound names are distinct, and
    /// every binding points at a live entry registered under that name.
    pub open spec fn wf(self) -> bool {
        &&& self.assets.wf()
        &&& forall|k1: int, k2: int|
            0 <= k1 < k2 < self.lookup@.len() ==> (#[trigger] self.lookup@[k1]).0@ != (
            #[trigger] self.lookup@[k2]).0@
        &&& forall|k: int|
            0 <= k < self.lookup@.len() ==> {
                let b = #[trigger] self.lookup@[k];
                &&& self.spec_entry(b.1) is Some
                &&& self.spec_entry(b.1).unwrap().name@ == b.0@
            }
    }

    pub fn new() -> (r: Vault)
        ensures
            r.wf(),
            forall|j: AssetId| r.spec_asset(j) is None,
            forall|n: Seq<char>| r.spec_search(n) is None,
    {
        Vault { assets: Arena::new(), lookup: Vec::new() }
    }

    /// Drop the binding for `name`, if there is one. Touches only the
    /// name index, never the stored entries.
    fn unbind(&mut self, name: &String)
        requires
            old(self).wf(),
        ensures
            final(self).wf(),
            final(self).assets == old(self).assets,
            final(self).spec_search(name@) is None,
            forall|n: Seq<char>| n != name@ ==> final(self).spec_search(n) == old(self).spec_search(n),
            forall|k: int|
                0 <= k < final(self).lookup@.len() ==> (#[trigger] final(self).lookup@[k]).0@ != name@,
    {
        let ghost s = self.lookup@;
        proof {
            assert(s == old(self).lookup@);
        }
        let mut i: usize = 0;
        while i < self.lookup.len()
            invariant
                old(self).wf(),
                self.lookup@ == s,
                s == old(self).lookup@,
                self.assets == old(self).assets,
                i <= s.len(),
                forall|j: int| 0 <= j < i ==> (#[trigger] s[j]).0@ != name@,
            decreases s.len() - i,
        {
            if self.lookup[i].0 == *name {
                proof {
                    assert(s[i as int].0@ == name@);
                    assert forall|j: int|
                        0 <= j < s.len() && j != i as int implies (#[trigger] s[j]).0@ != name@ by {
                        if j > i as int {
                            assert(s[i as int].0@ != s[j].0@);
                        }
                    }
                }
                self.lookup.remove(i);
                proof {
                    let ghost t = self.lookup@;
                    assert(t == s.remove(i as int));
                    lemma_assoc_remove(s, i as int, name@);
                    assert forall|n: Seq<char>| n != name@ implies assoc_find(t, n) == assoc_find(
                        s,
                        n,
                    ) by {
                        lemma_assoc_remove(s, i as int, n);
                    }
                    assert forall|k: int| 0 <= k < t.len() implies (#[trigger] t[k]).0@
                        != name@ by {
                        if k < i as int {
                            assert(t[k] == s[k]);
                        } else {
                            assert(t[k] == s[k + 1]);
                            assert(s[i as int].0@ != s[k + 1].0@);
                        }
                    }
                    assert forall|k1: int, k2: int| 0 <= k1 < k2 < t.len() implies (
                    #[trigger] t[k1]).0@ != (#[trigger] t[k2]).0@ by {
                        let a1: int = if k1 < i as int {
                            k1
                        } else {
                            k1 + 1
                        };
                        let a2: int = if k2 < i as int {
                            k2
                        } else {
                            k2 + 1
                        };
                        assert(t[k1] == s[a1]);
                        assert(t[k2] == s[a2]);
                        assert(s[a1].0@ != s[a2].0@);
                    }
                    assert forall|k: int| 0 <= k < t.len() implies {
                        let b = #[trigger] t[k];
                        &&& self.spec_entry(b.1) is Some
                        &&& self.spec_entry(b.1).unwrap().name@ == b.0@
                    } by {
                        let a: int = if k < i as int {
                            k
                        } else {
                            k + 1
                        };
                        assert(t[k] == s[a]);
                        assert(old(self).spec_entry(s[a].1) is Some);
                        assert(old(self).spec_entry(s[a].1).unwrap().name@ == s[a].0@);
                    }
                }
                return;
            }
            i = i + 1;
        }
        proof {
            lemma_assoc_absent(s, name@);
        }
    }

    /// Store an asset under `name`. Any previous binding for the name is
    /// replaced — the previously bound entry stays in the arena and keeps
    /// resolving by its own handle, it just loses its name routing.
    pub fn add<A: Downcast>(&mut self, name: &str, value: A) -> (id: AssetId)
        requires
            old(self).wf(),
        ensures
            final(self).wf(),
            final(self).spec_asset(id) == Some(value.wrap()),
            final(self).spec_name_of(id) == Some(name@),
            old(self).spec_asset(id) is None,
            forall|j: AssetId|
                j != id ==> final(self).spec_asset(j) == old(self).spec_asset(j)
                    && final(self).spec_name_of(j) == old(self).spec_name_of(j),
            final(self).spec_search(name@) == Some(id),
            forall|n: Seq<char>| n != name@ ==> final(self).spec_search(n) == old(self).spec_search(n),
            forall|j: AssetId| old(self).retired(j) ==> final(self).retired(j),
    {
        let owned_name: String = name.to_owned();
        let entry = VaultEntry { name: owned_name, value: value.into_asset() };
        let aid = self.assets.insert(entry);
        let id = AssetId { index: aid.index, version: aid.version };
        proof {
            assert(id.spec_to_arena() == aid);
            assert(self.lookup@ == old(self).lookup@);
            assert forall|k: int| 0 <= k < self.lookup@.len() implies {
                let b = #[trigger] self.lookup@[k];
                &&& self.spec_entry(b.1) is Some
                &&& self.spec_entry(b.1).unwrap().name@ == b.0@
            } by {
                assert(old(self).spec_entry(self.lookup@[k].1) is Some);
                if self.lookup@[k].1 == id {
                    assert(old(self).assets.spec_get(aid) is None);
                    assert(false);
                }
            }
            assert(self.wf());
        }
        let ghost mid = *self;
        let key: String = name.to_owned();
        proof {
            assert(key@ == name@);
        }
        self.unbind(&key);
        let ghost after_unbind = *self;
        let ghost unbound = self.lookup@;
        self.lookup.push((key, id));
        proof {
            lemma_assoc_absent(unbound, key@);
            lemma_assoc_push(unbound, (key, id), key@);
            assert(assoc_find(self.lookup@, name@) == Some(id));
            assert forall|n: Seq<char>| n != name@ implies assoc_find(self.lookup@, n) == assoc_find(
                old(self).lookup@,
                n,
            ) by {
                assert(n != key@);
                lemma_assoc_push(unbound, (key, id), n);
                assert(assoc_find(self.lookup@, n) == assoc_find(unbound, n));
                assert(after_unbind.spec_search(n) == mid.spec_search(n));
                assert(after_unbind.lookup@ == unbound);
                assert(mid.lookup@ == old(self).lookup@);
            }
        }
        id
    }

    /// Remove the entry behind a live handle: drop its name binding, take
    /// the asset out, and let the asset release the entry it privately
    /// owns. A stale handle changes nothing and reports `false`.
    fn remove_entry(&mut self, id: AssetId) -> (r: Option<Asset>)
        requires
            old(self).wf(),
        ensures
            final(self).wf(),
            r == old(self).spec_asset(id),
            final(self).spec_asset(id) is None,
            forall|j: AssetId|
                j != id ==> final(self).spec_asset(j) == old(self).spec_asset(j)
                    && final(self).spec_name_of(j) == old(self).spec_name_of(j),
            r is Some ==> final(self).spec_search(old(self).spec_name_of(id).unwrap()) is None,
            r is Some ==> forall|n: Seq<char>|
                n != old(self).spec_name_of(id).unwrap() ==> final(self).spec_search(n) == old(self).spec_search(n),
            r is None ==> final(self).assets.items@ == old(self).assets.items@
                && final(self).assets.free_indices@ == old(self).assets.free_indices@
                && final(self).lookup@ == old(self).lookup@,
            forall|j: AssetId| old(self).retired(j) ==> final(self).retired(j),
            r is Some ==> final(self).retired(id),
    {
        let aid = id.to_arena();
        let name_found: Option<String> = match self.assets.get(aid) {
            Some(e) => Some(e.name.clone()),
            None => None,
        };
        match name_found {
            Some(entry_name) => {
                proof {
                    assert(old(self).spec_name_of(id) == Some(entry_name@));
                }
                self.unbind(&entry_name);
                let ghost mid = *self;
                let removed = self.assets.remove(aid);
                proof {
                    assert forall|k: int| 0 <= k < self.lookup@.len() implies {
                        let b = #[trigger] self.lookup@[k];
                        &&& self.spec_entry(b.1) is Some
                        &&& self.spec_entry(b.1).unwrap().name@ == b.0@
                    } by {
                        let b = self.lookup@[k];
                        assert(mid.spec_entry(b.1) is Some);
                        assert(mid.spec_entry(b.1).unwrap().name@ == b.0@);
                        if b.1.spec_to_arena() == aid {
                            assert(mid.spec_entry(b.1).unwrap().name@ == entry_name@);
                            assert(b.0@ != entry_name@);
                            assert(false);
                        }
                    }
                }
                match removed {
                    Some(e) => Some(e.value),
                    None => None,
                }
            },
            None => None,
        }
    }

    /// Remove the asset behind a live handle. On success the handle is
    /// retired, the entry's name stops resolving, and the removed asset's
    /// privately owned entry (a font's atlas texture) is removed the same
    /// way. Returns whether removal occurred.
    pub fn remove(&mut self, id: AssetId) -> (r: bool)
        requires
            old(self).wf(),
        ensures
            final(self).wf(),
            r == (old(self).spec_asset(id) is Some),
            final(self).spec_asset(id) is None,
            !r ==> final(self).assets.items@ == old(self).assets.items@
                && final(self).assets.free_indices@ == old(self).assets.free_indices@
                && final(self).lookup@ == old(self).lookup@,
            r ==> final(self).spec_search(old(self).spec_name_of(id).unwrap()) is None,
            r ==> final(self).retired(id),
            r ==> match old(self).spec_asset(id).unwrap().release_target() {
                Some(tid) => {
                    &&& final(self).spec_asset(tid) is None
                    &&& (tid != id && old(self).spec_asset(tid) is Some ==> final(self).spec_search(old(self).spec_name_of(tid).unwrap()) is None)
                    &&& forall|j: AssetId|
                        j != id && j != tid ==> final(self).spec_asset(j) == old(self).spec_asset(j) && final(self).spec_name_of(j) == old(self).spec_name_of(j)
                    &&& forall|n: Seq<char>|
                        Some(n) != old(self).spec_name_of(id) && Some(n) != old(self).spec_name_of(tid) ==> final(self).spec_search(n) == old(self).spec_search(
                            n,
                        )
                },
                None => {
                    &&& forall|j: AssetId|
                        j != id ==> final(self).spec_asset(j) == old(self).spec_asset(j) && final(self).spec_name_of(j) == old(self).spec_name_of(j)
                    &&& forall|n: Seq<char>|
                        Some(n) != old(self).spec_name_of(id) ==> final(self).spec_search(n) == old(self).spec_search(n)
                },
            },
            forall|j: AssetId| old(self).retired(j) ==> final(self).retired(j),
    {
        match self.remove_entry(id) {
            Some(asset) => {
                match asset {
                    Asset::Font(f) => {
                        let _removed = self.remove_entry(f.texture_id);
                    },
                    _ => {},
                }
                true
            },
            None => false,
        }
    }

    /// Name-resolution consistency, exercised end to end: storing a
    /// value under a name and then removing it by the returned handle
    /// leaves the name resolving to nothing.
    pub fn add_then_remove<A: Downcast>(&mut self, name: &str, value: A)
        requires
            old(self).wf(),
        ensures
            final(self).wf(),
            final(self).spec_search(name@) is None,
    {
        let id = self.add(name, value);
        let _removed = self.remove(id);
    }

    /// Pure lookup of a name's current binding.
    pub fn search(&self, name: &str) -> (r: Option<AssetId>)
        ensures
            r == self.spec_search(name@),
    {
        let key: String = name.to_owned();
        let mut i: usize = 0;
        while i < self.lookup.len()
            invariant
                key@ == name@,
                i <= self.lookup@.len(),
                forall|j: int| 0 <= j < i ==> (#[trigger] self.lookup@[j]).0@ != key@,
            decreases self.lookup@.len() - i,
        {
            if self.lookup[i].0 == key {
                proof {
                    assert(key@ == name@);
                    lemma_assoc_present(self.lookup@, key@, i as int);
                    assert(assoc_find(self.lookup@, name@) == Some(self.lookup@[i as int].1));
                }
                return Some(self.lookup[i].1);
            }
            i = i + 1;
        }
        proof {
            assert(key@ == name@);
            lemma_assoc_absent(self.lookup@, key@);
        }
        None
    }

    /// Borrow the asset behind a live handle as concrete type `A`. A
    /// stale handle or a stored value of another type is an ordinary
    /// miss.
    pub fn get<A: Downcast>(&self, id: AssetId) -> (r: Option<&A>)
        ensures
            match r {
                Some(v) => self.spec_asset(id) is Some && A::spec_downcast(
                    self.spec_asset(id).unwrap(),
                ) == Some(*v),
                None => self.spec_asset(id) is None || A::spec_downcast(
                    self.spec_asset(id).unwrap(),
                ) is None,
            },
    {
        match self.assets.get(id.to_arena()) {
            Some(entry) => A::from_asset(&entry.value),
            None => None,
        }
    }

    /// Mutably borrow the asset behind a live handle as concrete type
    /// `A`; a miss leaves the vault untouched. The entry's name and every
    /// other entry are unaffected.
    pub fn get_mut<A: Downcast>(&mut self, id: AssetId) -> (r: Option<&mut A>)
        requires
            old(self).wf(),
        ensures
            final(self).wf(),
            match r {
                Some(v) => {
                    &&& old(self).spec_asset(id) is Some
                    &&& A::spec_downcast(old(self).spec_asset(id).unwrap()) == Some(*v)
                    &&& final(self).spec_asset(id) == Some((*final(v)).wrap())
                    &&& final(self).spec_name_of(id) == old(self).spec_name_of(id)
                },
                None => {
                    &&& (old(self).spec_asset(id) is None || A::spec_downcast(
                        old(self).spec_asset(id).unwrap(),
                    ) is None)
                    &&& final(self).assets.items@ == old(self).assets.items@
                    &&& final(self).assets.free_indices@ == old(self).assets.free_indices@
                },
            },
            final(self).lookup@ == old(self).lookup@,
            forall|j: AssetId|
                j != id ==> final(self).spec_asset(j) == old(self).spec_asset(j) && final(self).spec_name_of(j) == old(self).spec_name_of(j),
    {
        match self.assets.get_mut(id.to_arena()) {
            Some(entry) => A::from_asset_mut(&mut entry.value),
            None => None,
        }
    }
}

} // verus!
