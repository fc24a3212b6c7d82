//! A pool of lanes that are handed out one at a time.
use vstd::prelude::*;

use crate::element::TensorElement;
use crate::error::{fail, Error, Fault};
use crate::runtime::lane::ServingLane;

verus! {

/// The lanes of a pool that are not checked out.
#[derive(Debug)]
pub struct ServingLanePool<
    I: TensorElement,
    O: TensorElement,
    const INPUTS: usize,
    const OUTPUTS: usize,
> {
    idle: Vec<ServingLane<I, O, INPUTS, OUTPUTS>>,
    total: usize,
}

impl<I: TensorElement, O: TensorElement, const INPUTS: usize, const OUTPUTS: usize> View for ServingLanePool<
    I,
    O,
    INPUTS,
    OUTPUTS,
> {
    type V = Seq<ServingLane<I, O, INPUTS, OUTPUTS>>;

    /// The idle lanes; the last one is handed out next.
    closed spec fn view(&self) -> Seq<ServingLane<I, O, INPUTS, OUTPUTS>> {
        self.idle@
    }
}

impl<I: TensorElement, O: TensorElement, const INPUTS: usize, const OUTPUTS: usize> ServingLanePool<
    I,
    O,
    INPUTS,
    OUTPUTS,
> {
    /// The number of lanes that the pool was built with.
    pub closed spec fn capacity(self) -> nat {
        self.total as nat
    }

    /// The pool has at least one lane, and no more are idle than it has.
    pub open spec fn wf(self) -> bool {
        self@.len() <= self.capacity() && self.capacity() > 0
    }

    /// A pool of prebuilt lanes, all of them idle.
    pub fn from_lanes(lanes: Vec<ServingLane<I, O, INPUTS, OUTPUTS>>) -> (result: Result<
        Self,
        Error,
    >)
        ensures
            if lanes@.len() == 0 {
                result == Err::<Self, Error>(Error::Fault(Fault::PoolWithoutLanes))
            } else {
                result matches Ok(pool) && pool.wf() && pool@ == lanes@ && pool.capacity()
                    == lanes@.len()
            },
    {
        if lanes.len() == 0 {
            return fail(Fault::PoolWithoutLanes);
        }
        let total: usize = lanes.len();
        Ok(ServingLanePool { idle: lanes, total })
    }

    /// The number of lanes that the pool was built with.
    pub fn len(&self) -> (len: usize)
        ensures
            len == self.capacity(),
    {
        self.total
    }

    /// Whether the pool was built without lanes.
    pub fn is_empty(&self) -> (empty: bool)
        ensures
            empty == (self.capacity() == 0),
            self.wf() ==> !empty,
    {
        self.total == 0
    }

    /// The number of idle lanes.
    pub fn idle_count(&self) -> (count: usize)
        ensures
            count == self@.len(),
    {
        self.idle.len()
    }

    /// Check a lane out, if one is idle.
    pub fn try_checkout(&mut self) -> (lane: Option<ServingLane<I, O, INPUTS, OUTPUTS>>)
        requires
            old(self).wf(),
        ensures
            final(self).wf(),
            final(self).capacity() == old(self).capacity(),
            if old(self)@.len() == 0 {
                lane is None && final(self)@ == old(self)@
            } else {
                lane == Some(old(self)@.last()) && final(self)@ == old(self)@.drop_last()
            },
    {
        self.idle.pop()
    }

    /// Check a lane in again, after waiting for it as far as possible.
    pub fn check_in(&mut self, lane: ServingLane<I, O, INPUTS, OUTPUTS>)
        requires
            old(self).wf(),
            old(self)@.len() < old(self).capacity(),
        ensures
            final(self).wf(),
            final(self).capacity() == old(self).capacity(),
            final(self)@ == old(self)@.push(lane),
    {
        self.idle.push(lane);
    }
}

/// A lane that is checked in is the next one that is checked out, and the pool is then what it
/// was before.
pub proof fn checkout_undoes_check_in<
    I: TensorElement,
    O: TensorElement,
    const INPUTS: usize,
    const OUTPUTS: usize,
>(
    idle: Seq<ServingLane<I, O, INPUTS, OUTPUTS>>,
    lane: ServingLane<I, O, INPUTS, OUTPUTS>,
)
    ensures
        idle.push(lane).last() == lane,
        idle.push(lane).drop_last() == idle,
{
    assert(idle.push(lane).drop_last() =~= idle);
}

} // verus!
