//! The table of loaded modules, keyed by plugin identity. A module, once
//! loaded, stays for the rest of the process; loading an identity that is
//! already present keeps the module already there.

use vstd::prelude::*;
use crate::types::CubeMelonUUID;

verus! {

/// Loaded modules of handle type `M`, at most one per identity.
pub struct ModuleRegistry<M> {
    entries: Vec<(CubeMelonUUID, M)>,
}

impl<M> ModuleRegistry<M> {
    /// Identities of the loaded modules, in load order.
    pub closed spec fn uuids(&self) -> Seq<CubeMelonUUID> {
        self.entries@.map_values(|e: (CubeMelonUUID, M)| e.0)
    }

    /// The loaded modules with their identities, in load order.
    pub closed spec fn modules(&self) -> Seq<(CubeMelonUUID, M)> {
        self.entries@
    }

    pub open spec fn spec_is_loaded(&self, uuid: CubeMelonUUID) -> bool {
        self.uuids().contains(uuid)
    }

    /// No identity appears twice.
    pub closed spec fn wf(&self) -> bool {
        forall|i: int, j: int|
            0 <= i < j < self.entries@.len() ==> self.entries@[i].0 != self.entries@[j].0
    }

    pub fn new() -> (r: Self)
        ensures
            r.wf(),
            r.uuids() == Seq::<CubeMelonUUID>::empty(),
    {
        let r = ModuleRegistry { entries: Vec::new() };
        assert(r.uuids() =~= Seq::<CubeMelonUUID>::empty());
        r
    }

    fn position(&self, uuid: CubeMelonUUID) -> (r: Option<usize>)
        ensures
            r is None <==> !self.spec_is_loaded(uuid),
            r matches Some(i) ==> i < self.uuids().len() && self.uuids()[i as int] == uuid,
    {
        let mut i: usize = 0;
        while i < self.entries.len()
            invariant
                i <= self.entries@.len(),
                forall|j: int| 0 <= j < i ==> self.entries@[j].0 != uuid,
            decreases self.entries@.len() - i,
        {
            if self.entries[i].0 == uuid {
                assert(self.uuids()[i as int] == uuid);
                return Some(i);
            }
            i = i + 1;
        }
        assert forall|j: int| 0 <= j < self.uuids().len() implies self.uuids()[j] != uuid by {
            assert(self.uuids()[j] == self.entries@[j].0);
        }
        None
    }

    /// Whether a module with identity `uuid` is loaded.
    pub fn is_loaded(&self, uuid: CubeMelonUUID) -> (r: bool)
        ensures
            r == self.spec_is_loaded(uuid),
    {
        self.position(uuid).is_some()
    }

    /// The module loaded for `uuid`.
    pub fn get(&self, uuid: CubeMelonUUID) -> (r: Option<&M>)
        ensures
            r is Some <==> self.spec_is_loaded(uuid),
            r matches Some(m) ==> exists|i: int|
                0 <= i < self.modules().len() && self.modules()[i] == (uuid, *m),
    {
        match self.position(uuid) {
            Some(i) => {
                assert(self.uuids()[i as int] == self.entries@[i as int].0);
                assert(self.modules()[i as int] == (uuid, self.entries@[i as int].1));
                Some(&self.entries[i].1)
            },
            None => None,
        }
    }

    /// Registers `module` under `uuid` unless that identity is loaded
    /// already, in which case the existing module stays and `module` is
    /// handed back.
    pub fn insert(&mut self, uuid: CubeMelonUUID, module: M) -> (r: Option<M>)
        requires
            old(self).wf(),
        ensures
            final(self).wf(),
            old(self).spec_is_loaded(uuid) ==> r == Some(module) && final(self).modules() == old(self).modules(),
            !old(self).spec_is_loaded(uuid) ==> r is None && final(self).modules() == old(self).modules().push(
                (uuid, module),
            ),
            final(self).uuids() == final(self).modules().map_values(|e: (CubeMelonUUID, M)| e.0),
            old(self).spec_is_loaded(uuid) ==> final(self).uuids() == old(self).uuids(),
            !old(self).spec_is_loaded(uuid) ==> final(self).uuids() == old(self).uuids().push(uuid),
    {
        if self.is_loaded(uuid) {
            return Some(module);
        }
        let ghost before = self.uuids();
        self.entries.push((uuid, module));
        assert(self.uuids() =~= before.push(uuid));
        assert forall|i: int, j: int| 0 <= i < j < self.entries@.len() implies self.entries@[i].0
            != self.entries@[j].0 by {
            if j == self.entries@.len() - 1 {
                assert(before[i] == self.entries@[i].0);
            }
        }
        None
    }

    /// The number of loaded modules.
    pub fn len(&self) -> (r: usize)
        ensures
            r == self.uuids().len(),
    {
        self.entries.len()
    }
}

} // verus!
