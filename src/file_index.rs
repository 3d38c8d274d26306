//! The per-worker table from chunk number to the slot of its open file in the
//! kernel's fixed-file table.
use std::collections::HashMap;

use vstd::prelude::*;

verus! {

broadcast use vstd::std_specs::hash::group_hash_axioms;

/// Number of slots of the fixed-file table registered with the kernel.
pub const FIXED_FILE_SLOTS: u32 = 400_000;

/// Chunk numbers and their fixed-file slots. Slot 0 belongs to the
/// per-device character device; chunk files take slots from 1 on, densely.
pub struct FileIndexes {
    slots: HashMap<u32, u32>,
}

/// Slots are given out densely from 1 and never twice.
pub open spec fn dense_injective(m: Map<u32, u32>) -> bool {
    &&& m.dom().finite()
    &&& forall|k: u32| #[trigger] m.contains_key(k) ==> 1 <= m[k] <= m.len()
    &&& forall|k1: u32, k2: u32|
        #[trigger] m.contains_key(k1) && #[trigger] m.contains_key(k2) && k1 != k2 ==> m[k1] != m[k2]
}

impl FileIndexes {
    pub closed spec fn view(&self) -> Map<u32, u32> {
        self.slots@
    }

    pub closed spec fn wf(&self) -> bool {
        &&& dense_injective(self.slots@)
        &&& self.slots@.len() < FIXED_FILE_SLOTS
    }

    /// An empty table.
    pub fn new() -> (r: FileIndexes)
        ensures
            r.wf(),
            r@ == Map::<u32, u32>::empty(),
    {
        FileIndexes { slots: HashMap::new() }
    }

    /// The number of chunk files in the table.
    pub fn len(&self) -> (r: usize)
        requires
            self.wf(),
        ensures
            r == self@.len(),
    {
        self.slots.len()
    }

    /// The slot of chunk `chunk`, if its file is open.
    pub fn get(&self, chunk: u32) -> (r: Option<u32>)
        requires
            self.wf(),
        ensures
            r == (if self@.contains_key(chunk) { Some(self@[chunk]) } else { None }),
    {
        match self.slots.get(&chunk) {
            Some(v) => Some(*v),
            None => None,
        }
    }

    /// The slot the next new chunk file takes, or `None` where the table is full.
    pub fn next_slot(&self) -> (r: Option<u32>)
        requires
            self.wf(),
        ensures
            r == (if self@.len() + 1 < FIXED_FILE_SLOTS { Some((self@.len() + 1) as u32) } else { None }),
    {
        let n = self.slots.len();
        if n + 1 < FIXED_FILE_SLOTS as usize {
            Some((n + 1) as u32)
        } else {
            None
        }
    }

    /// Records that chunk `chunk`'s file is open at the next slot.
    pub fn insert(&mut self, chunk: u32) -> (r: u32)
        requires
            old(self).wf(),
            !old(self)@.contains_key(chunk),
            old(self)@.len() + 1 < FIXED_FILE_SLOTS,
        ensures
            final(self).wf(),
            r == old(self)@.len() + 1,
            final(self)@ == old(self)@.insert(chunk, r),
    {
        let slot = (self.slots.len() + 1) as u32;
        let ghost before = self.slots@;
        self.slots.insert(chunk, slot);
        proof {
            let after = self.slots@;
            assert(after.len() == before.len() + 1);
            assert forall|k: u32| #[trigger] after.contains_key(k) implies 1 <= after[k] <= after.len() by {
                if k != chunk {
                    assert(before.contains_key(k));
                }
            }
            assert forall|k1: u32, k2: u32|
                #[trigger] after.contains_key(k1) && #[trigger] after.contains_key(k2) && k1 != k2 implies after[k1]
                != after[k2] by {
                if k1 != chunk && k2 != chunk {
                    assert(before.contains_key(k1) && before.contains_key(k2));
                } else if k1 == chunk {
                    assert(before.contains_key(k2));
                } else {
                    assert(before.contains_key(k1));
                }
            }
        }
        slot
    }
}

/// Distinct chunks never share a slot, and no chunk takes slot 0.
pub proof fn lemma_slots_injective(t: &FileIndexes, c1: u32, c2: u32)
    requires
        t.wf(),
        t@.contains_key(c1),
        t@.contains_key(c2),
        c1 != c2,
    ensures
        t@[c1] != t@[c2],
        t@[c1] >= 1,
{
}

} // verus!
