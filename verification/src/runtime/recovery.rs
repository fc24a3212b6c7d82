//! Fixed slots through which dropped runs hand their lanes back.
use vstd::prelude::*;

verus! {

/// A cell that holds at most one value until it is taken.
#[derive(Debug)]
pub struct RecoveryCell<T> {
    value: Option<T>,
}

impl<T> View for RecoveryCell<T> {
    type V = Option<T>;

    closed spec fn view(&self) -> Option<T> {
        self.value
    }
}

impl<T> RecoveryCell<T> {
    /// A cell without a value.
    pub fn empty() -> (cell: RecoveryCell<T>)
        ensures
            cell@ is None,
    {
        RecoveryCell { value: None }
    }

    /// Put a value into an empty cell. An occupied cell keeps its value and hands the new one
    /// back.
    pub fn publish(&mut self, value: T) -> (result: Result<(), T>)
        ensures
            match old(self)@ {
                None => result is Ok && final(self)@ == Some(value),
                Some(_) => result == Err::<(), T>(value) && final(self)@ == old(self)@,
            },
    {
        if self.value.is_some() {
            return Err(value);
        }
        self.value = Some(value);
        Ok(())
    }

    /// Empty the cell.
    pub fn take(&mut self) -> (value: Option<T>)
        ensures
            value == old(self)@,
            final(self)@ is None,
    {
        self.value.take()
    }
}

/// What became of a value that was to be recovered.
#[derive(Debug)]
pub enum Recovery<T> {
    /// It waits in its slot.
    Queued,
    /// There is no such slot.
    OutOfRange(T),
    /// Its slot still holds another value.
    Occupied(T),
}

/// Preallocated slots and a stack of those that hold a recovered value.
pub struct RecoverySlots<T> {
    slots: Vec<RecoveryCell<T>>,
    ready_head: usize,
    ready_next: Vec<usize>,
    ready: Ghost<Seq<usize>>,
}

impl<T> View for RecoverySlots<T> {
    type V = Seq<(usize, T)>;

    /// The slots that hold a value, with it, in the order in which they were filled.
    closed spec fn view(&self) -> Seq<(usize, T)> {
        Seq::new(
            self.ready@.len(),
            |i: int| (self.ready@[i], self.slots@[self.ready@[i] as int]@->Some_0),
        )
    }
}

/// Some entry is of this slot.
pub open spec fn has_slot<T>(entries: Seq<(usize, T)>, slot: usize) -> bool {
    exists|i: int| 0 <= i < entries.len() && (#[trigger] entries[i]).0 == slot
}

impl<T> RecoverySlots<T> {
    /// The number of slots.
    pub closed spec fn capacity(self) -> nat {
        self.slots@.len()
    }

    /// The stack links the occupied slots and only those.
    pub closed spec fn wf(self) -> bool {
        let ready = self.ready@;
        let slots = self.slots@;
        let next = self.ready_next@;
        &&& next.len() == slots.len()
        &&& forall|i: int| 0 <= i < ready.len() ==> (#[trigger] ready[i]) < slots.len()
        &&& forall|i: int, j: int| 0 <= i < j < ready.len() ==> #[trigger] ready[i] != #[trigger] ready[j]
        &&& forall|i: int| 0 <= i < ready.len() ==> slots[#[trigger] ready[i] as int]@ is Some
        &&& forall|k: int|
            0 <= k < slots.len() && (#[trigger] slots[k])@ is Some ==> exists|i: int|
                0 <= i < ready.len() && #[trigger] ready[i] == k
        &&& self.ready_head == (if ready.len() == 0 {
            usize::MAX
        } else {
            ready.last()
        })
        &&& forall|i: int|
            0 <= i < ready.len() ==> #[trigger] next[ready[i] as int] == (if i == 0 {
                usize::MAX
            } else {
                ready[i - 1]
            })
    }

    /// Empty slots.
    pub fn new(capacity: usize) -> (slots: RecoverySlots<T>)
        ensures
            slots.wf(),
            slots.capacity() == capacity,
            slots@ == Seq::<(usize, T)>::empty(),
    {
        let mut slots: Vec<RecoveryCell<T>> = Vec::new();
        let mut ready_next: Vec<usize> = Vec::new();
        let mut i: usize = 0;
        while i < capacity
            invariant
                0 <= i <= capacity,
                slots@.len() == i,
                ready_next@.len() == i,
                forall|k: int| 0 <= k < i ==> (#[trigger] slots@[k])@ is None,
            decreases capacity - i,
        {
            slots.push(RecoveryCell::empty());
            ready_next.push(usize::MAX);
            i = i + 1;
        }
        let out = RecoverySlots {
            slots,
            ready_head: usize::MAX,
            ready_next,
            ready: Ghost(Seq::empty()),
        };
        assert(out@ =~= Seq::<(usize, T)>::empty());
        out
    }

    /// Queue a value in its slot.
    ///
    /// A slot takes its next value only after the last one has been popped, so that each waits in
    /// the stack at most once. A refused value is handed back.
    pub fn recover(&mut self, slot: usize, value: T) -> (recovery: Recovery<T>)
        requires
            old(self).wf(),
        ensures
            final(self).wf(),
            final(self).capacity() == old(self).capacity(),
            if slot >= old(self).capacity() {
                recovery == Recovery::OutOfRange(value) && final(self)@ == old(self)@
            } else if has_slot(old(self)@, slot) {
                recovery == Recovery::Occupied(value) && final(self)@ == old(self)@
            } else {
                recovery is Queued && final(self)@ == old(self)@.push((slot, value))
            },
    {
        if slot >= self.slots.len() {
            return Recovery::OutOfRange(value);
        }
        let ghost before = *self;
        proof {
            if self.slots@[slot as int]@ is Some {
                let i = choose|i: int| 0 <= i < self.ready@.len() && #[trigger] self.ready@[i] == slot;
                assert(self@[i].0 == slot);
            }
            if has_slot(self@, slot) {
                let i = choose|i: int| 0 <= i < self@.len() && (#[trigger] self@[i]).0 == slot;
                assert(self.ready@[i] == slot);
            }
        }
        match self.slots[slot].publish(value) {
            Err(value) => {
                assert(self.slots@ =~= before.slots@);
                assert(self@ =~= before@);
                Recovery::Occupied(value)
            },
            Ok(()) => {
                self.ready_next.set(slot, self.ready_head);
                self.ready_head = slot;
                proof {
                    self.ready@ = self.ready@.push(slot);
                    let ready = self.ready@;
                    let old_ready = before.ready@;
                    assert forall|i: int| 0 <= i < ready.len() implies #[trigger] self.ready_next@[ready[i] as int]
                        == (if i == 0 {
                        usize::MAX
                    } else {
                        ready[i - 1]
                    }) by {
                        if i < old_ready.len() {
                            assert(ready[i] == old_ready[i]);
                        }
                    }
                    assert forall|k: int|
                        0 <= k < self.slots@.len() && (#[trigger] self.slots@[k])@ is Some implies exists|
                        i: int,
                    |
                        0 <= i < ready.len() && #[trigger] ready[i] == k by {
                        if k == slot {
                            assert(ready[old_ready.len() as int] == k);
                        } else {
                            assert(before.slots@[k]@ is Some);
                            let i = choose|i: int|
                                0 <= i < old_ready.len() && #[trigger] old_ready[i] == k;
                            assert(ready[i] == k);
                        }
                    }
                    assert(self@ =~= before@.push((slot, value)));
                }
                Recovery::Queued
            },
        }
    }

    /// Take the value that was queued last.
    pub fn pop_ready(&mut self) -> (popped: Option<(usize, T)>)
        requires
            old(self).wf(),
        ensures
            final(self).wf(),
            final(self).capacity() == old(self).capacity(),
            if old(self)@.len() == 0 {
                popped is None && final(self)@ == old(self)@
            } else {
                popped == Some(old(self)@.last()) && final(self)@ == old(self)@.drop_last()
            },
    {
        let head: usize = self.ready_head;
        if head == usize::MAX {
            proof {
                if self.ready@.len() > 0 {
                    assert(self.ready@[self.ready@.len() - 1] < self.slots@.len());
                    assert(self.slots@.len() == self.slots.len());
                }
            }
            return None;
        }
        let ghost before = *self;
        let ghost top = self.ready@.len() - 1;
        assert(self.ready@[top] == head);
        let next: usize = self.ready_next[head];
        self.ready_head = next;
        match self.slots[head].take() {
            None => {
                assert(false);
                None
            },
            Some(value) => {
                proof {
                    self.ready@ = self.ready@.drop_last();
                    let ready = self.ready@;
                    let old_ready = before.ready@;
                    assert forall|i: int| 0 <= i < ready.len() implies self.slots@[#[trigger] ready[i] as int]@ is Some by {
                        assert(ready[i] == old_ready[i]);
                        assert(old_ready[i] != old_ready[top]);
                    }
                    assert forall|k: int|
                        0 <= k < self.slots@.len() && (#[trigger] self.slots@[k])@ is Some implies exists|
                        i: int,
                    |
                        0 <= i < ready.len() && #[trigger] ready[i] == k by {
                        assert(before.slots@[k]@ is Some);
                        let i = choose|i: int|
                            0 <= i < old_ready.len() && #[trigger] old_ready[i] == k;
                        assert(ready[i] == k);
                    }
                    assert(self@ =~= before@.drop_last()) by {
                        assert forall|i: int| 0 <= i < ready.len() implies self@[i]
                            == before@.drop_last()[i] by {
                            assert(ready[i] == old_ready[i]);
                            assert(old_ready[i] != old_ready[top]);
                        }
                    }
                }
                Some((head, value))
            },
        }
    }

    /// The number of slots.
    pub fn len(&self) -> (len: usize)
        ensures
            len == self.capacity(),
    {
        self.slots.len()
    }
}

/// At most as many values wait as there are slots.
pub proof fn waiting_values_fit<T>(slots: RecoverySlots<T>)
    requires
        slots.wf(),
    ensures
        slots@.len() <= slots.capacity(),
{
    let ready = slots.ready@;
    let places = ready.map_values(|slot: usize| slot as int);
    let range = vstd::set_lib::set_int_range(0, slots.capacity() as int);
    assert(places.no_duplicates()) by {
        assert forall|i: int, j: int|
            0 <= i < places.len() && 0 <= j < places.len() && i != j implies places[i]
            != places[j] by {
            if i < j {
                assert(ready[i] != ready[j]);
            } else {
                assert(ready[j] != ready[i]);
            }
        }
    }
    assert forall|place: int| places.to_set().contains(place) implies range.contains(place) by {
        let i = choose|i: int| 0 <= i < places.len() && places[i] == place;
        assert(ready[i] < slots.slots@.len());
    }
    vstd::set_lib::lemma_int_range(0, slots.capacity() as int);
    vstd::set_lib::lemma_len_subset(places.to_set(), range);
    places.unique_seq_to_set();
}

/// What is queued is what is popped: after a value is queued, the next pop gives it back with its
/// slot and leaves the entries as they were before.
pub proof fn pop_undoes_recover<T>(entries: Seq<(usize, T)>, slot: usize, value: T)
    ensures
        entries.push((slot, value)).last() == (slot, value),
        entries.push((slot, value)).drop_last() == entries,
{
    assert(entries.push((slot, value)).drop_last() =~= entries);
}

} // verus!
