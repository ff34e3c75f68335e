//! The entity registry: the owned set of named records, the duplicate
//! guard, and the create and rename mutations.
//!
//! A record's handle is its position in the registry, taken as a `u64`.
//! Records are never removed, so handles are stable and never reused.

use vstd::prelude::*;

use crate::events::RejectReason;

verus! {

/// A named record. The handle is assigned at creation and never changes;
/// the name is non-empty and unique across the registry.
pub struct Npc {
    /// Stable handle of the record.
    pub id: u64,
    /// Current name, as ASCII bytes.
    pub name: Vec<u8>,
}

/// The set of all records, in creation order.
pub struct Registry {
    /// The records; the record with handle `i` sits at position `i`.
    pub npcs: Vec<Npc>,
}

impl Registry {
    /// Well-formedness: handles equal positions, names are non-empty, and
    /// no two records share a name.
    pub open spec fn wf(self) -> bool {
        &&& forall|i: int| 0 <= i < self.npcs@.len() ==> (#[trigger] self.npcs@[i]).id == i as u64
        &&& forall|i: int| 0 <= i < self.npcs@.len() ==> (#[trigger] self.npcs@[i]).name@.len() > 0
        &&& forall|i: int, j: int|
            0 <= i < j < self.npcs@.len() ==> self.npcs@[i].name@ != self.npcs@[j].name@
    }

    /// Whether `id` is the handle of a record.
    pub open spec fn has_id(self, id: u64) -> bool {
        id < self.npcs@.len()
    }

    /// The name of the record with handle `id`.
    pub open spec fn spec_name_of(self, id: u64) -> Seq<u8> {
        self.npcs@[id as int].name@
    }

    /// Whether some record carries `name`.
    pub open spec fn has_name(self, name: Seq<u8>) -> bool {
        exists|i: int| 0 <= i < self.npcs@.len() && (#[trigger] self.npcs@[i]).name@ == name
    }

    /// The duplicate guard: whether some record other than `exclude`
    /// carries `name`.
    pub open spec fn spec_is_duplicate(self, name: Seq<u8>, exclude: Option<u64>) -> bool {
        exists|i: int|
            0 <= i < self.npcs@.len() && (#[trigger] self.npcs@[i]).name@ == name && (match exclude {
                Some(e) => self.npcs@[i].id != e,
                None => true,
            })
    }

    /// An empty registry.
    pub fn new() -> (r: Registry)
        ensures
            r.wf(),
            r.npcs@.len() == 0,
    {
        Registry { npcs: Vec::new() }
    }

    /// The number of records.
    pub fn count(&self) -> (r: usize)
        ensures
            r == self.npcs@.len(),
    {
        self.npcs.len()
    }

    /// The name of the record with handle `id`, if there is one.
    pub fn name_of(&self, id: u64) -> (r: Option<&Vec<u8>>)
        ensures
            match r {
                Some(name) => self.has_id(id) && name@ == self.spec_name_of(id),
                None => !self.has_id(id),
            },
    {
        if id < self.npcs.len() as u64 {
            Some(&self.npcs[id as usize].name)
        } else {
            None
        }
    }

    /// The duplicate guard of the creation and rename handlers: whether a
    /// record other than `exclude` already carries `name`. `exclude` is
    /// absent for creation and is the renaming record's own handle for a
    /// rename, so that renaming a record to its current name is not a
    /// collision with itself.
    pub fn is_duplicate(&self, name: &Vec<u8>, exclude: Option<u64>) -> (r: bool)
        ensures
            r == self.spec_is_duplicate(name@, exclude),
    {
        let mut i: usize = 0;
        while i < self.npcs.len()
            invariant
                i <= self.npcs@.len(),
                forall|k: int|
                    0 <= k < i ==> !((#[trigger] self.npcs@[k]).name@ == name@ && (match exclude {
                        Some(e) => self.npcs@[k].id != e,
                        None => true,
                    })),
            decreases self.npcs@.len() - i,
        {
            let excluded = match exclude {
                Some(e) => self.npcs[i].id == e,
                None => false,
            };
            if !excluded && bytes_eq(&self.npcs[i].name, name) {
                return true;
            }
            i += 1;
        }
        false
    }

    /// Look a record up by its exact name.
    pub fn lookup(&self, name: &Vec<u8>) -> (r: Option<u64>)
        requires
            self.wf(),
        ensures
            match r {
                Some(id) => self.has_id(id) && self.spec_name_of(id) == name@,
                None => !self.has_name(name@),
            },
    {
        let mut i: usize = 0;
        while i < self.npcs.len()
            invariant
                self.wf(),
                i <= self.npcs@.len(),
                forall|k: int| 0 <= k < i ==> (#[trigger] self.npcs@[k]).name@ != name@,
            decreases self.npcs@.len() - i,
        {
            if bytes_eq(&self.npcs[i].name, name) {
                let id = self.npcs[i].id;
                proof {
                    assert(self.npcs@[i as int].id == i as u64);
                    assert(self.has_id(id));
                    assert(self.spec_name_of(id) == self.npcs@[i as int].name@);
                }
                return Some(id);
            }
            i += 1;
        }
        None
    }

    /// Insert a new record carrying `name` under a fresh handle, unless a
    /// record with that name already exists. Succeeds if and only if the
    /// name is not yet taken; on success the new handle is returned and
    /// every existing record is untouched.
    pub fn create(&mut self, name: Vec<u8>) -> (r: Result<u64, RejectReason>)
        requires
            old(self).wf(),
            name@.len() > 0,
        ensures
            final(self).wf(),
            match r {
                Ok(id) => !old(self).has_name(name@) && id == old(self).npcs@.len()
                    && final(self).npcs@.len() == old(self).npcs@.len() + 1
                    && final(self).spec_name_of(id) == name@ && forall|k: int|
                    0 <= k < old(self).npcs@.len() ==> final(self).npcs@[k] == old(self).npcs@[k],
                Err(reason) => old(self).has_name(name@) && reason == RejectReason::DuplicateName
                    && *final(self) == *old(self),
            },
    {
        if self.is_duplicate(&name, None) {
            proof {
                assert(self.has_name(name@));
            }
            return Err(RejectReason::DuplicateName);
        }
        proof {
            assert forall|i: int|
                0 <= i < self.npcs@.len() implies (#[trigger] self.npcs@[i]).name@ != name@ by {
                if self.npcs@[i].name@ == name@ {
                    assert(self.spec_is_duplicate(name@, None));
                }
            }
        }
        let id = self.npcs.len() as u64;
        self.npcs.push(Npc { id, name });
        Ok(id)
    }

    /// Change the name of the record with handle `id` to `name`, unless
    /// another record already carries that name. Succeeds if and only if
    /// no other record carries the name (renaming a record to its current
    /// name is an accepted no-op); on success only that record's name
    /// changes, and its handle stays as it was.
    pub fn rename(&mut self, id: u64, name: Vec<u8>) -> (r: Result<(), RejectReason>)
        requires
            old(self).wf(),
            old(self).has_id(id),
            name@.len() > 0,
        ensures
            final(self).wf(),
            final(self).npcs@.len() == old(self).npcs@.len(),
            match r {
                Ok(_) => !old(self).spec_is_duplicate(name@, Some(id))
                    && final(self).spec_name_of(id) == name@ && final(self).npcs@[id as int].id
                    == id && forall|k: int|
                    0 <= k < old(self).npcs@.len() && k != id as int ==> final(self).npcs@[k]
                        == old(self).npcs@[k],
                Err(reason) => old(self).spec_is_duplicate(name@, Some(id)) && reason
                    == RejectReason::DuplicateName && *final(self) == *old(self),
            },
    {
        let n = self.npcs.len();
        if self.is_duplicate(&name, Some(id)) {
            return Err(RejectReason::DuplicateName);
        }
        proof {
            assert(self.npcs@.len() == n);
            assert forall|i: int|
                0 <= i < self.npcs@.len() && i != id as int implies (
                #[trigger] self.npcs@[i]).name@ != name@ by {
                if self.npcs@[i].name@ == name@ {
                    assert(0 <= i < n);
                    assert(self.npcs@[i].id == i as u64);
                    assert(self.npcs@[i].id != id);
                    assert(self.spec_is_duplicate(name@, Some(id)));
                }
            }
        }
        let idx = id as usize;
        let old_npc = &self.npcs[idx];
        let updated = Npc { id: old_npc.id, name };
        self.npcs.set(idx, updated);
        Ok(())
    }
}

/// Whether two byte strings are equal, byte for byte.
pub fn bytes_eq(a: &Vec<u8>, b: &Vec<u8>) -> (r: bool)
    ensures
        r == (a@ == b@),
{
    if a.len() != b.len() {
        return false;
    }
    let mut i: usize = 0;
    while i < a.len()
        invariant
            a@.len() == b@.len(),
            i <= a@.len(),
            forall|k: int| 0 <= k < i ==> a@[k] == b@[k],
        decreases a@.len() - i,
    {
        if a[i] != b[i] {
            return false;
        }
        i += 1;
    }
    proof {
        assert(a@ =~= b@);
    }
    true
}

} // verus!
