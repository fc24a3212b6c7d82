//! Lists of engine calls that are made in order, up to the first failure.
use vstd::prelude::*;

use crate::error::Error;

verus! {

/// Calls that are made one after the other. The first that fails ends the list.
#[derive(Debug)]
pub struct CallPlan<C> {
    calls: Vec<C>,
    done: usize,
}

impl<C> CallPlan<C> {
    /// All calls, in order.
    pub closed spec fn all(self) -> Seq<C> {
        self.calls@
    }

    /// How many have been made.
    pub closed spec fn made(self) -> int {
        self.done as int
    }

    /// No more calls have been made than there are.
    pub open spec fn wf(self) -> bool {
        0 <= self.made() <= self.all().len()
    }

    /// No call has been made.
    pub open spec fn fresh(self, calls: Seq<C>) -> bool {
        self.wf() && self.all() == calls && self.made() == 0
    }

    /// `after` is this plan once its next call has succeeded.
    pub open spec fn advanced(self, after: CallPlan<C>) -> bool {
        &&& self.made() < self.all().len()
        &&& after.wf()
        &&& after.all() == self.all()
        &&& after.made() == self.made() + 1
    }

    /// The calls, of which none has been made.
    pub fn new(calls: Vec<C>) -> (plan: CallPlan<C>)
        ensures
            plan.fresh(calls@),
    {
        CallPlan { calls, done: 0 }
    }

    /// The next call, or none where all have been made.
    pub fn next(&self) -> (call: Option<&C>)
        requires
            self.wf(),
        ensures
            call == if self.made() < self.all().len() {
                Some(&self.all()[self.made()])
            } else {
                None
            },
    {
        if self.done < self.calls.len() {
            Some(&self.calls[self.done])
        } else {
            None
        }
    }

    /// The engine's answer to the next call. Where it failed, no further call is made.
    pub fn answer(self, reply: Result<(), Error>) -> (plan: Result<CallPlan<C>, Error>)
        requires
            self.wf(),
            self.made() < self.all().len(),
        ensures
            match reply {
                Ok(()) => plan matches Ok(plan) && self.advanced(plan),
                Err(error) => plan == Err::<CallPlan<C>, Error>(error),
            },
    {
        match reply {
            Ok(()) => {
                assert(self.done < self.calls.len());
                Ok(CallPlan { calls: self.calls, done: self.done + 1 })
            },
            Err(error) => Err(error),
        }
    }
}

/// The plans that follow each other while all calls succeed.
pub open spec fn is_progress<C>(plans: Seq<CallPlan<C>>) -> bool {
    forall|i: int| 0 < i < plans.len() ==> (#[trigger] plans[i - 1]).advanced(plans[i])
}

/// While calls succeed, each call of the list is made exactly once and in order: after as many
/// answers as there are calls, none is left.
pub proof fn calls_are_made_in_order<C>(calls: Seq<C>, plans: Seq<CallPlan<C>>)
    requires
        plans.len() > 0,
        plans[0].fresh(calls),
        is_progress(plans),
    ensures
        plans.len() <= calls.len() + 1,
        plans.last().made() == plans.len() - 1,
        plans.last().all() == calls,
    decreases plans.len(),
{
    if plans.len() > 1 {
        let fewer = plans.drop_last();
        assert forall|i: int| 0 < i < fewer.len() implies (#[trigger] fewer[i - 1]).advanced(
            fewer[i],
        ) by {
            assert(plans[i - 1].advanced(plans[i]));
        }
        calls_are_made_in_order(calls, fewer);
        assert(plans[plans.len() - 2].advanced(plans[plans.len() - 1]));
    }
}

/// Runs that are repeated before a lane serves, up to the first failure.
#[derive(Debug)]
pub struct Repeats {
    left: usize,
}

impl Repeats {
    /// How many runs are left.
    pub closed spec fn spec_left(self) -> usize {
        self.left
    }

    /// A number of runs.
    pub fn new(runs: usize) -> (repeats: Repeats)
        ensures
            repeats.spec_left() == runs,
    {
        Repeats { left: runs }
    }

    /// Whether a run is to be made.
    pub fn is_due(&self) -> (due: bool)
        ensures
            due == (self.spec_left() > 0),
    {
        self.left > 0
    }

    /// What came of a run. Where it failed, no further run is made.
    pub fn answer(self, reply: Result<(), Error>) -> (repeats: Result<Repeats, Error>)
        requires
            self.spec_left() > 0,
        ensures
            match reply {
                Ok(()) => repeats matches Ok(repeats) && repeats.spec_left() == self.spec_left()
                    - 1,
                Err(error) => repeats == Err::<Repeats, Error>(error),
            },
    {
        match reply {
            Ok(()) => Ok(Repeats { left: self.left - 1 }),
            Err(error) => Err(error),
        }
    }
}

} // verus!
