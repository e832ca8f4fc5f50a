use vstd::prelude::*;

use crate::error::HyperlightError;
use crate::shared_mem::{splice, SharedMemory};

verus! {

/// A shared memory block together with a copy of its bytes taken earlier.
#[derive(Debug)]
pub struct SharedMemorySnapshot {
    snapshot: Vec<u8>,
    shared_mem: SharedMemory,
}

impl SharedMemorySnapshot {
    /// The bytes of the last snapshot.
    pub closed spec fn taken(&self) -> Seq<u8> {
        self.snapshot@
    }

    /// The bytes the memory holds now.
    pub closed spec fn memory(&self) -> Seq<u8> {
        self.shared_mem@
    }

    /// Take a snapshot of `shared_mem` and keep both.
    pub fn new(shared_mem: SharedMemory) -> (r: Result<SharedMemorySnapshot, HyperlightError>)
        ensures
            r is Ok,
            r->Ok_0.taken() == shared_mem@,
            r->Ok_0.memory() == shared_mem@,
    {
        let snapshot = match shared_mem.copy_all_to_vec() {
            Ok(v) => v,
            Err(e) => return Err(e),
        };
        Ok(SharedMemorySnapshot { snapshot, shared_mem })
    }

    /// The memory the snapshot belongs to.
    pub fn shared_mem(&self) -> (r: &SharedMemory)
        ensures
            r@ == self.memory(),
    {
        &self.shared_mem
    }

    /// The memory the snapshot belongs to, for writing; the snapshot itself
    /// is left as it is.
    pub fn shared_mem_mut(&mut self) -> (r: &mut SharedMemory)
        ensures
            r@ == old(self).memory(),
            final(self).memory() == final(r)@,
            final(self).taken() == old(self).taken(),
    {
        &mut self.shared_mem
    }

    /// Take a new snapshot of the memory, replacing the old one.
    pub fn replace_snapshot(&mut self) -> (r: Result<(), HyperlightError>)
        ensures
            r is Ok,
            final(self).taken() == old(self).memory(),
            final(self).memory() == old(self).memory(),
    {
        let new_snapshot = match self.shared_mem.copy_all_to_vec() {
            Ok(v) => v,
            Err(e) => return Err(e),
        };
        self.snapshot = new_snapshot;
        Ok(())
    }

    /// Copy the snapshot back over the start of the memory; fails, changing
    /// nothing, when the snapshot is longer than the memory.
    pub fn restore_from_snapshot(&mut self) -> (r: Result<(), HyperlightError>)
        ensures
            r is Ok <==> old(self).taken().len() <= old(self).memory().len(),
            r is Ok ==> final(self).memory() == splice(old(self).memory(), 0, old(self).taken()),
            r is Err ==> final(self).memory() == old(self).memory(),
            final(self).taken() == old(self).taken(),
    {
        self.shared_mem.copy_from_slice(self.snapshot.as_slice(), 0)
    }
}

/// A restore brings memory of the snapshot's size back to the bytes the
/// snapshot holds, whatever was written in between, and a second restore
/// changes nothing.
pub proof fn lemma_restore_is_idempotent(taken: Seq<u8>, mutated: Seq<u8>)
    requires
        mutated.len() == taken.len(),
    ensures
        splice(mutated, 0, taken) == taken,
        splice(splice(mutated, 0, taken), 0, taken) == splice(mutated, 0, taken),
{
    assert(splice(mutated, 0, taken) =~= taken);
    assert(splice(taken, 0, taken) =~= taken);
}

} // verus!
