//! Handles to shape buckets that survive the buckets' moves and never alias a later bucket.
use vstd::prelude::*;

use crate::error::{fail, Error, Fault};
use crate::runtime::owned_run::PreparedBucketId;

verus! {

/// One slot of the table: the generation of its current handle, and the bucket behind it.
#[derive(Debug, Clone, Copy, PartialEq, Eq, Structural)]
pub struct PreparedBucketSlot {
    pub generation: u32,
    pub bucket_index: Option<usize>,
}

/// The table of handles.
#[derive(Debug)]
pub struct PreparedSlots {
    entries: Vec<PreparedBucketSlot>,
    free: Vec<u32>,
}

impl PreparedSlots {
    /// The slots.
    pub closed spec fn table(self) -> Seq<PreparedBucketSlot> {
        self.entries@
    }

    /// The slots that can be used again.
    pub closed spec fn free_slots(self) -> Seq<u32> {
        self.free@
    }

    /// Every slot has a number, and generations count from one. The free slots are distinct and hold no
    /// bucket, and a slot that holds no bucket is free unless its generations are used up.
    pub open spec fn wf(self) -> bool {
        &&& self.table().len() <= u32::MAX + 1
        &&& forall|s: int|
            0 <= s < self.table().len() ==> (#[trigger] self.table()[s]).generation >= 1
        &&& forall|i: int|
            0 <= i < self.free_slots().len() ==> {
                &&& #[trigger] self.free_slots()[i] < self.table().len()
                &&& self.table()[self.free_slots()[i] as int].bucket_index is None
            }
        &&& forall|i: int, j: int|
            0 <= i < j < self.free_slots().len() ==> #[trigger] self.free_slots()[i]
                != #[trigger] self.free_slots()[j]
        &&& forall|s: int|
            0 <= s < self.table().len() && (#[trigger] self.table()[s]).bucket_index is None ==> {
                ||| self.free_slots().contains(s as u32)
                ||| self.table()[s].generation == u32::MAX
            }
    }

    /// The bucket behind a handle.
    pub open spec fn resolve(self, id: PreparedBucketId) -> Option<usize> {
        if id.slot < self.table().len() && self.table()[id.slot as int].generation
            == id.generation {
            self.table()[id.slot as int].bucket_index
        } else {
            None
        }
    }

    /// The handle was given out at some time.
    pub open spec fn issued(self, id: PreparedBucketId) -> bool {
        &&& id.slot < self.table().len()
        &&& id.generation >= 1
        &&& {
            ||| id.generation < self.table()[id.slot as int].generation
            ||| id.generation == self.table()[id.slot as int].generation
                && !self.free_slots().contains(id.slot)
        }
    }

    /// The handle was given out, and its bucket is gone.
    pub open spec fn stale(self, id: PreparedBucketId) -> bool {
        self.issued(id) && self.resolve(id) is None
    }

    /// An empty table.
    pub fn new() -> (slots: PreparedSlots)
        ensures
            slots.wf(),
            slots.table() == Seq::<PreparedBucketSlot>::empty(),
            slots.free_slots() == Seq::<u32>::empty(),
    {
        PreparedSlots { entries: Vec::new(), free: Vec::new() }
    }

    /// The bucket behind a handle.
    pub fn bucket_index(&self, id: PreparedBucketId) -> (index: Option<usize>)
        ensures
            index == self.resolve(id),
    {
        if id.slot as usize >= self.entries.len() {
            return None;
        }
        let entry: PreparedBucketSlot = self.entries[id.slot as usize];
        if entry.generation == id.generation {
            entry.bucket_index
        } else {
            None
        }
    }

    /// The handle that the next bucket gets.
    pub open spec fn next_id(self) -> Option<PreparedBucketId> {
        if self.free_slots().len() > 0 {
            Some(
                PreparedBucketId {
                    slot: self.free_slots().last(),
                    generation: self.table()[self.free_slots().last() as int].generation,
                },
            )
        } else if self.table().len() <= u32::MAX {
            Some(PreparedBucketId { slot: self.table().len() as u32, generation: 1 })
        } else {
            None
        }
    }

    /// Give a bucket a handle: one that was never given out before. All other handles keep
    /// resolving as they did, and stale ones stay stale.
    pub fn allocate(&mut self, bucket_index: usize) -> (result: Result<PreparedBucketId, Error>)
        requires
            old(self).wf(),
        ensures
            final(self).wf(),
            match old(self).next_id() {
                None => {
                    &&& result == Err::<PreparedBucketId, Error>(
                        Error::Fault(Fault::SlotSpaceExhausted),
                    )
                    &&& *final(self) == *old(self)
                },
                Some(id) => {
                    &&& result == Ok::<PreparedBucketId, Error>(id)
                    &&& !old(self).issued(id)
                    &&& if old(self).free_slots().len() > 0 {
                        &&& final(self).table() == old(self).table().update(
                            id.slot as int,
                            (PreparedBucketSlot {
                                generation: id.generation,
                                bucket_index: Some(bucket_index),
                            }),
                        )
                        &&& final(self).free_slots() == old(self).free_slots().drop_last()
                    } else {
                        &&& final(self).table() == old(self).table().push(
                            (PreparedBucketSlot {
                                generation: id.generation,
                                bucket_index: Some(bucket_index),
                            }),
                        )
                        &&& final(self).free_slots() == old(self).free_slots()
                    }
                    &&& forall|other: PreparedBucketId| #[trigger]
                        final(self).resolve(other) == (if other == id {
                            Some(bucket_index)
                        } else {
                            old(self).resolve(other)
                        })
                    &&& forall|other: PreparedBucketId| #[trigger]
                        final(self).issued(other) == (other == id || old(self).issued(other))
                    &&& forall|other: PreparedBucketId|
                        old(self).stale(other) ==> #[trigger] final(self).stale(other)
                },
            },
    {
        let ghost before = *self;
        if self.free.len() > 0 {
            proof {
                let i = self.free_slots().len() - 1;
                assert(self.free_slots()[i] < self.table().len());
            }
            match self.free.pop() {
                None => fail(Fault::FreeSlotInvalid),
                Some(slot) => {
                    let mut entry: PreparedBucketSlot = self.entries[slot as usize];
                    entry.bucket_index = Some(bucket_index);
                    self.entries.set(slot as usize, entry);
                    let id = PreparedBucketId { slot, generation: entry.generation };
                    proof {
                        assert(before.free_slots().contains(slot)) by {
                            assert(before.free_slots()[before.free_slots().len() - 1] == slot);
                        }
                        assert(self.free_slots() =~= before.free_slots().drop_last());
                        assert forall|i: int| 0 <= i < self.free_slots().len() implies {
                            &&& #[trigger] self.free_slots()[i] < self.table().len()
                            &&& self.table()[self.free_slots()[i] as int].bucket_index is None
                        } by {
                            assert(before.free_slots()[i] != before.free_slots()[before.free_slots().len() - 1]);
                        }
                        assert forall|s: int|
                            0 <= s < self.table().len() && (
                            #[trigger] self.table()[s]).bucket_index is None implies {
                            ||| self.free_slots().contains(s as u32)
                            ||| self.table()[s].generation == u32::MAX
                        } by {
                            assert(before.table()[s] == self.table()[s]);
                            if before.free_slots().contains(s as u32) {
                                let i = before.free_slots().index_of(s as u32);
                                assert(self.free_slots()[i] == s as u32);
                            }
                        }
                        assert forall|other: PreparedBucketId| #[trigger]
                            self.issued(other) == (other == id || before.issued(other)) by {
                            if other.slot < self.table().len() {
                                if before.free_slots().contains(other.slot) && other.slot != slot {
                                    let i = choose|i: int|
                                        0 <= i < before.free_slots().len() && before.free_slots()[i]
                                            == other.slot;
                                    assert(i < self.free_slots().len());
                                    assert(self.free_slots()[i] == other.slot);
                                }
                                if self.free_slots().contains(other.slot) {
                                    let i = choose|i: int|
                                        0 <= i < self.free_slots().len() && self.free_slots()[i]
                                            == other.slot;
                                    assert(before.free_slots()[i] == other.slot);
                                    assert(before.free_slots()[i] != before.free_slots()[before.free_slots().len() - 1]);
                                }
                            }
                        }
                        assert forall|other: PreparedBucketId| before.stale(other) implies #[trigger] self.stale(
                            other,
                        ) by {
                            assert(self.issued(other));
                        }
                    }
                    Ok(id)
                },
            }
        } else {
            if self.entries.len() > u32::MAX as usize {
                return fail(Fault::SlotSpaceExhausted);
            }
            let slot: u32 = self.entries.len() as u32;
            self.entries.push(
                PreparedBucketSlot { generation: 1, bucket_index: Some(bucket_index) },
            );
            let id = PreparedBucketId { slot, generation: 1 };
            proof {
                assert(self.free_slots() =~= before.free_slots());
                assert forall|other: PreparedBucketId| before.stale(other) implies #[trigger] self.stale(
                    other,
                ) by {
                    assert(self.issued(other));
                }
            }
            Ok(id)
        }
    }

    /// Take a bucket's handle back. It never resolves again, and no other handle changes. The slot is
    /// free for a handle of the next generation, unless there is none.
    pub fn retire(&mut self, id: PreparedBucketId)
        requires
            old(self).wf(),
        ensures
            final(self).wf(),
            match old(self).resolve(id) {
                None => *final(self) == *old(self),
                Some(_) => if id.generation < u32::MAX {
                    &&& final(self).table() == old(self).table().update(
                        id.slot as int,
                        (PreparedBucketSlot {
                            generation: (id.generation + 1) as u32,
                            bucket_index: None,
                        }),
                    )
                    &&& final(self).free_slots() == old(self).free_slots().push(id.slot)
                } else {
                    &&& final(self).table() == old(self).table().update(
                        id.slot as int,
                        (PreparedBucketSlot { generation: id.generation, bucket_index: None }),
                    )
                    &&& final(self).free_slots() == old(self).free_slots()
                },
            },
            forall|other: PreparedBucketId| #[trigger]
                final(self).resolve(other) == (if other == id {
                    None
                } else {
                    old(self).resolve(other)
                }),
            forall|other: PreparedBucketId| #[trigger]
                final(self).issued(other) == old(self).issued(other),
            forall|other: PreparedBucketId|
                old(self).stale(other) ==> #[trigger] final(self).stale(other),
    {
        let ghost before = *self;
        if id.slot as usize >= self.entries.len() {
            return;
        }
        let mut entry: PreparedBucketSlot = self.entries[id.slot as usize];
        if entry.generation != id.generation || entry.bucket_index.is_none() {
            return;
        }
        entry.bucket_index = None;
        let reusable: bool = entry.generation < u32::MAX;
        if reusable {
            entry.generation = entry.generation + 1;
        }
        self.entries.set(id.slot as usize, entry);
        proof {
            assert(!before.free_slots().contains(id.slot)) by {
                if before.free_slots().contains(id.slot) {
                    let i = choose|i: int|
                        0 <= i < before.free_slots().len() && before.free_slots()[i] == id.slot;
                    assert(before.table()[before.free_slots()[i] as int].bucket_index is None);
                }
            }
            assert forall|i: int| 0 <= i < before.free_slots().len() implies #[trigger] before.free_slots()[i]
                != id.slot by {
                assert(before.free_slots().contains(before.free_slots()[i]));
            }
        }
        if reusable {
            self.free.push(id.slot);
        }
        proof {
            assert forall|s: int|
                0 <= s < self.table().len() && (
                #[trigger] self.table()[s]).bucket_index is None implies {
                ||| self.free_slots().contains(s as u32)
                ||| self.table()[s].generation == u32::MAX
            } by {
                if s == id.slot {
                    assert(reusable ==> self.free_slots()[before.free_slots().len() as int]
                        == id.slot);
                } else {
                    assert(before.table()[s] == self.table()[s]);
                    if before.free_slots().contains(s as u32) {
                        let i = before.free_slots().index_of(s as u32);
                        assert(self.free_slots()[i] == s as u32);
                    }
                }
            }
            assert forall|other: PreparedBucketId| #[trigger]
                self.issued(other) == before.issued(other) by {
                if reusable {
                    assert(self.free_slots() =~= before.free_slots().push(id.slot));
                    assert(self.free_slots()[before.free_slots().len() as int] == id.slot);
                    if before.free_slots().contains(other.slot) {
                        let i = choose|i: int|
                            0 <= i < before.free_slots().len() && before.free_slots()[i]
                                == other.slot;
                        assert(self.free_slots()[i] == other.slot);
                    }
                    if self.free_slots().contains(other.slot) && other.slot != id.slot {
                        let i = choose|i: int|
                            0 <= i < self.free_slots().len() && self.free_slots()[i] == other.slot;
                        assert(before.free_slots()[i] == other.slot);
                    }
                } else {
                    assert(self.free_slots() =~= before.free_slots());
                }
            }
            assert forall|other: PreparedBucketId| before.stale(other) implies #[trigger] self.stale(
                other,
            ) by {
                assert(self.issued(other));
            }
        }
    }

    /// Point a live handle at its bucket's new place.
    pub fn repair(&mut self, id: PreparedBucketId, bucket_index: usize)
        requires
            old(self).wf(),
            old(self).resolve(id) is Some,
        ensures
            final(self).wf(),
            final(self).table() == old(self).table().update(
                id.slot as int,
                (PreparedBucketSlot {
                    generation: id.generation,
                    bucket_index: Some(bucket_index),
                }),
            ),
            final(self).free_slots() == old(self).free_slots(),
            forall|other: PreparedBucketId| #[trigger]
                final(self).resolve(other) == (if other == id {
                    Some(bucket_index)
                } else {
                    old(self).resolve(other)
                }),
            forall|other: PreparedBucketId| #[trigger]
                final(self).issued(other) == old(self).issued(other),
            forall|other: PreparedBucketId|
                old(self).stale(other) ==> #[trigger] final(self).stale(other),
    {
        let ghost before = *self;
        let mut entry: PreparedBucketSlot = self.entries[id.slot as usize];
        entry.bucket_index = Some(bucket_index);
        self.entries.set(id.slot as usize, entry);
        proof {
            assert(self.free_slots() =~= before.free_slots());
            assert forall|i: int| 0 <= i < before.free_slots().len() implies #[trigger] before.free_slots()[i]
                != id.slot by {
                assert(before.table()[before.free_slots()[i] as int].bucket_index is None);
            }
            assert forall|other: PreparedBucketId| before.stale(other) implies #[trigger] self.stale(
                other,
            ) by {
                assert(self.issued(other));
            }
        }
    }
}

} // verus!
