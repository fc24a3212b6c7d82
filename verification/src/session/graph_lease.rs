//! Captured graphs: runs hold a lease on theirs, and a graph is released only when none does.
use vstd::prelude::*;

use crate::error::{fail, Error, Fault};
use std::collections::HashMap;

verus! {

/// How many runs hold a lease, and whether its graph is being released.
#[derive(Debug, Clone, Copy, PartialEq, Eq, Structural)]
pub struct CapturedGraphLease {
    /// A release has begun and not ended.
    pub releasing: bool,
    /// The runs that have begun and not ended.
    pub active: usize,
}

/// What an attempt on a lease leads to.
#[derive(Debug, Clone, Copy, PartialEq, Eq, Structural)]
pub enum LeaseAttempt {
    /// It succeeded.
    Granted,
    /// A release is under way: wait for its end and try again.
    Wait,
}

/// What the end of a run asks for.
#[derive(Debug, Clone, Copy, PartialEq, Eq, Structural)]
pub enum RunEnd {
    /// Nothing.
    Done,
    /// The last run of a graph that is being released has ended: wake the release.
    WakeRelease,
    /// No run was counted: the lease is left as it was.
    Unaccounted,
}

/// What happens to a lease.
#[derive(Debug, Clone, Copy, PartialEq, Eq, Structural)]
pub enum LeaseEvent {
    /// A run asks to begin.
    BeginRun,
    /// A run ends.
    EndRun,
    /// A release asks to begin.
    BeginRelease,
    /// A release ends.
    EndRelease,
}

/// The greatest number of runs that can be counted: one bit of the word is the release's.
pub open spec fn max_active() -> int {
    usize::MAX as int / 2
}

impl CapturedGraphLease {
    /// The lease after an event. While a release is under way neither a run nor another release
    /// begins.
    pub open spec fn after(self, event: LeaseEvent) -> CapturedGraphLease {
        match event {
            LeaseEvent::BeginRun => if self.releasing {
                self
            } else {
                CapturedGraphLease { active: (self.active + 1) as usize, ..self }
            },
            LeaseEvent::EndRun => if self.active == 0 {
                self
            } else {
                CapturedGraphLease { active: (self.active - 1) as usize, ..self }
            },
            LeaseEvent::BeginRelease => CapturedGraphLease { releasing: true, ..self },
            LeaseEvent::EndRelease => CapturedGraphLease { releasing: false, active: 0 },
        }
    }

    /// What an attempt to begin a run or a release leads to.
    pub open spec fn attempt(self) -> LeaseAttempt {
        if self.releasing {
            LeaseAttempt::Wait
        } else {
            LeaseAttempt::Granted
        }
    }

    /// What the end of a run asks for.
    pub open spec fn run_end(self) -> RunEnd {
        if self.active == 0 {
            RunEnd::Unaccounted
        } else if self.releasing && self.active == 1 {
            RunEnd::WakeRelease
        } else {
            RunEnd::Done
        }
    }

    /// No run and no release.
    pub fn new() -> (lease: CapturedGraphLease)
        ensures
            lease == (CapturedGraphLease { releasing: false, active: 0 }),
    {
        CapturedGraphLease { releasing: false, active: 0 }
    }

    /// Begin a run, unless a release is under way.
    pub fn begin_run(&mut self) -> (attempt: LeaseAttempt)
        requires
            old(self).releasing || old(self).active < max_active(),
        ensures
            attempt == old(self).attempt(),
            *final(self) == old(self).after(LeaseEvent::BeginRun),
    {
        if self.releasing {
            return LeaseAttempt::Wait;
        }
        self.active = self.active + 1;
        LeaseAttempt::Granted
    }

    /// End a run.
    pub fn end_run(&mut self) -> (end: RunEnd)
        ensures
            end == old(self).run_end(),
            *final(self) == old(self).after(LeaseEvent::EndRun),
    {
        if self.active == 0 {
            return RunEnd::Unaccounted;
        }
        let last: bool = self.active == 1;
        self.active = self.active - 1;
        if self.releasing && last {
            RunEnd::WakeRelease
        } else {
            RunEnd::Done
        }
    }

    /// Begin a release, unless another is under way. No run begins from then on.
    pub fn begin_release(&mut self) -> (attempt: LeaseAttempt)
        ensures
            attempt == old(self).attempt(),
            *final(self) == old(self).after(LeaseEvent::BeginRelease),
    {
        if self.releasing {
            return LeaseAttempt::Wait;
        }
        self.releasing = true;
        LeaseAttempt::Granted
    }

    /// Whether all runs have ended, so that a release may go on.
    pub fn is_drained(&self) -> (drained: bool)
        ensures
            drained == (self.active == 0),
    {
        self.active == 0
    }

    /// End a release: runs may begin again.
    pub fn end_release(&mut self)
        requires
            old(self).active == 0,
        ensures
            *final(self) == old(self).after(LeaseEvent::EndRelease),
    {
        self.releasing = false;
        self.active = 0;
    }
}

/// A release waits for all runs and blocks new ones: until it ends, it stays under way, a run that
/// asks to begin changes nothing, and the number of runs never grows.
pub proof fn releases_drain(lease: CapturedGraphLease, event: LeaseEvent)
    requires
        lease.releasing,
        event != LeaseEvent::EndRelease,
    ensures
        lease.after(event).releasing,
        lease.after(event).active <= lease.active,
        event == LeaseEvent::BeginRun ==> lease.attempt() == LeaseAttempt::Wait && lease.after(event)
            == lease,
{
}

/// The end of a run undoes its beginning, as far as nothing else happened.
pub proof fn end_run_undoes_begin_run(lease: CapturedGraphLease)
    requires
        !lease.releasing,
        lease.active < max_active(),
    ensures
        lease.after(LeaseEvent::BeginRun).after(LeaseEvent::EndRun) == lease,
{
}

/// The leases of a session's captured graphs.
#[derive(Debug)]
pub struct GraphLeases {
    leases: HashMap<i32, CapturedGraphLease>,
}

impl View for GraphLeases {
    type V = Map<i32, CapturedGraphLease>;

    closed spec fn view(&self) -> Map<i32, CapturedGraphLease> {
        self.leases@
    }
}

impl GraphLeases {
    /// The lease of a graph. One that was never asked for has no run and no release.
    pub open spec fn lease_of(self, id: i32) -> CapturedGraphLease {
        if self@.contains_key(id) {
            self@[id]
        } else {
            CapturedGraphLease { releasing: false, active: 0 }
        }
    }

    /// No lease was asked for.
    pub fn new() -> (leases: GraphLeases)
        ensures
            leases@ == Map::<i32, CapturedGraphLease>::empty(),
    {
        GraphLeases { leases: HashMap::new() }
    }

    /// The lease of a graph.
    pub fn captured_graph_lease(&mut self, id: i32) -> (lease: CapturedGraphLease)
        ensures
            lease == old(self).lease_of(id),
            final(self)@ == old(self)@.insert(id, lease),
    {
        broadcast use vstd::std_specs::hash::group_hash_axioms;

        let lease: CapturedGraphLease = match self.leases.get(&id) {
            Some(lease) => *lease,
            None => CapturedGraphLease::new(),
        };
        self.leases.insert(id, lease);
        lease
    }

    fn put(&mut self, id: i32, lease: CapturedGraphLease)
        ensures
            final(self)@ == old(self)@.insert(id, lease),
    {
        broadcast use vstd::std_specs::hash::group_hash_axioms;

        self.leases.insert(id, lease);
    }

    /// Begin a run of a graph, unless its release is under way.
    pub fn begin_run(&mut self, id: i32) -> (attempt: LeaseAttempt)
        requires
            old(self).lease_of(id).releasing || old(self).lease_of(id).active < max_active(),
        ensures
            attempt == old(self).lease_of(id).attempt(),
            final(self)@ == old(self)@.insert(
                id,
                old(self).lease_of(id).after(LeaseEvent::BeginRun),
            ),
    {
        let mut lease: CapturedGraphLease = self.captured_graph_lease(id);
        let attempt: LeaseAttempt = lease.begin_run();
        self.put(id, lease);
        assert(self@ =~= old(self)@.insert(id, lease));
        attempt
    }

    /// End a run of a graph.
    pub fn end_run(&mut self, id: i32) -> (end: RunEnd)
        ensures
            end == old(self).lease_of(id).run_end(),
            final(self)@ == old(self)@.insert(id, old(self).lease_of(id).after(LeaseEvent::EndRun)),
    {
        let mut lease: CapturedGraphLease = self.captured_graph_lease(id);
        let end: RunEnd = lease.end_run();
        self.put(id, lease);
        assert(self@ =~= old(self)@.insert(id, lease));
        end
    }

    /// Begin the release of a graph, unless another is under way. The engine may be asked to
    /// release it once [`Self::is_drained`] says so.
    pub fn begin_release(&mut self, id: i32) -> (attempt: LeaseAttempt)
        ensures
            attempt == old(self).lease_of(id).attempt(),
            final(self)@ == old(self)@.insert(
                id,
                old(self).lease_of(id).after(LeaseEvent::BeginRelease),
            ),
    {
        let mut lease: CapturedGraphLease = self.captured_graph_lease(id);
        let attempt: LeaseAttempt = lease.begin_release();
        self.put(id, lease);
        assert(self@ =~= old(self)@.insert(id, lease));
        attempt
    }

    /// Whether all runs of a graph have ended.
    pub fn is_drained(&self, id: i32) -> (drained: bool)
        ensures
            drained == (self.lease_of(id).active == 0),
    {
        broadcast use vstd::std_specs::hash::group_hash_axioms;

        match self.leases.get(&id) {
            Some(lease) => lease.is_drained(),
            None => true,
        }
    }

    /// End the release of a graph.
    pub fn end_release(&mut self, id: i32)
        requires
            old(self).lease_of(id).active == 0,
        ensures
            final(self)@ == old(self)@.insert(
                id,
                old(self).lease_of(id).after(LeaseEvent::EndRelease),
            ),
    {
        let mut lease: CapturedGraphLease = self.captured_graph_lease(id);
        lease.end_release();
        self.put(id, lease);
        assert(self@ =~= old(self)@.insert(id, lease));
    }
}

/// What happens to the lease of one graph leaves that of every other graph as it was.
pub proof fn leases_do_not_couple(
    before: GraphLeases,
    after: GraphLeases,
    id: i32,
    other: i32,
    lease: CapturedGraphLease,
)
    requires
        id != other,
        after@ == before@.insert(id, lease),
    ensures
        after.lease_of(other) == before.lease_of(other),
        after.lease_of(id) == lease,
{
}

/// The annotations that captured graphs are given: one after the other, and none twice.
#[derive(Debug)]
pub struct GraphIds {
    next: i32,
}

impl GraphIds {
    /// The annotation that is given next.
    pub closed spec fn spec_next(self) -> i32 {
        self.next
    }

    /// The first annotation is one.
    pub open spec fn wf(self) -> bool {
        self.spec_next() >= 1
    }

    /// The annotation was given.
    pub open spec fn given(self, id: i32) -> bool {
        1 <= id < self.spec_next()
    }

    /// None was given.
    pub fn new() -> (ids: GraphIds)
        ensures
            ids.wf(),
            ids.spec_next() == 1,
    {
        GraphIds { next: 1 }
    }

    /// Give the next annotation, until there is none left. It was never given before.
    pub fn allocate_captured_graph_id(&mut self) -> (id: Result<i32, Error>)
        requires
            old(self).wf(),
        ensures
            final(self).wf(),
            if old(self).spec_next() == i32::MAX {
                &&& id == Err::<i32, Error>(Error::Fault(Fault::GraphIdsExhausted))
                &&& *final(self) == *old(self)
            } else {
                &&& id == Ok::<i32, Error>(old(self).spec_next())
                &&& final(self).spec_next() == old(self).spec_next() + 1
                &&& !old(self).given(old(self).spec_next())
                &&& forall|other: i32| #[trigger]
                    final(self).given(other) == (other == old(self).spec_next() || old(self).given(
                        other,
                    ))
            },
    {
        let id: i32 = self.next;
        if id == i32::MAX {
            return fail(Fault::GraphIdsExhausted);
        }
        self.next = id + 1;
        Ok(id)
    }
}

} // verus!
