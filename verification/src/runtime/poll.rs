//! One nonblocking pass over a batch of pending runs, and audits of all cached buckets.
use vstd::prelude::*;

use crate::element::TensorElement;
use crate::error::{fail, Error, Fault};
use crate::runtime::audit::LaneHotPathAudit;
use crate::runtime::bucket::BucketView;
use crate::runtime::dynamic::DynamicIoRuntime;
use crate::runtime::lane::CompletionStatus;
use crate::runtime::lane_state::LaneCall;
use crate::runtime::owned_run::OwnedDynamicIoRun;
use crate::runtime::static_io::LaneAddresses;

verus! {

/// Why one of the first `n` runs cannot be polled on a device: the first reason. A pending run
/// needs a completion event of that device.
pub open spec fn poll_fault<
    I: TensorElement,
    O: TensorElement,
    const INPUTS: usize,
    const OUTPUTS: usize,
>(runs: Seq<OwnedDynamicIoRun<I, O, INPUTS, OUTPUTS>>, device_id: i32, n: int) -> Option<Error>
    decreases n,
{
    if n <= 0 {
        None
    } else {
        match poll_fault(runs, device_id, n - 1) {
            Some(error) => Some(error),
            None => {
                let lane = runs[n - 1].held();
                if !lane.in_flight() {
                    None
                } else if !lane.lane_state().completion_event_recorded
                    || lane.lane_state().cuda_device is None {
                    Some(Error::Fault(Fault::PollNeedsEvents))
                } else if lane.lane_state().cuda_device != Some(device_id) {
                    Some(Error::Fault(Fault::PollDeviceMismatch))
                } else {
                    None
                }
            },
        }
    }
}

proof fn lemma_poll_fault_first<
    I: TensorElement,
    O: TensorElement,
    const INPUTS: usize,
    const OUTPUTS: usize,
>(runs: Seq<OwnedDynamicIoRun<I, O, INPUTS, OUTPUTS>>, device_id: i32, n: int, m: int)
    requires
        0 <= n <= m,
        poll_fault(runs, device_id, n) is Some,
    ensures
        poll_fault(runs, device_id, m) == poll_fault(runs, device_id, n),
    decreases m - n,
{
    if n < m {
        lemma_poll_fault_first(runs, device_id, n, m - 1);
    }
}

proof fn lemma_pollable<I: TensorElement, O: TensorElement, const INPUTS: usize, const OUTPUTS: usize>(
    runs: Seq<OwnedDynamicIoRun<I, O, INPUTS, OUTPUTS>>,
    device_id: i32,
    n: int,
    k: int,
)
    requires
        0 <= k < n,
        poll_fault(runs, device_id, n) is None,
    ensures
        runs[k].held().in_flight() ==> runs[k].held().lane_state().completion_event_recorded,
    decreases n,
{
    if k < n - 1 {
        lemma_pollable(runs, device_id, n - 1, k);
    }
}

/// Some run is pending.
pub open spec fn any_pending<
    I: TensorElement,
    O: TensorElement,
    const INPUTS: usize,
    const OUTPUTS: usize,
>(runs: Seq<OwnedDynamicIoRun<I, O, INPUTS, OUTPUTS>>) -> bool {
    exists|k: int| 0 <= k < runs.len() && (#[trigger] runs[k]).held().in_flight()
}

/// What a pass makes of one run: an idle one is ready, and a pending one is discharged where its
/// event has completed.
pub open spec fn polled<I: TensorElement, O: TensorElement, const INPUTS: usize, const OUTPUTS: usize>(
    before: OwnedDynamicIoRun<I, O, INPUTS, OUTPUTS>,
    complete: bool,
    after: OwnedDynamicIoRun<I, O, INPUTS, OUTPUTS>,
    status: CompletionStatus,
    call: Option<LaneCall>,
) -> bool {
    &&& after.source() == before.source()
    &&& after.held().wf()
    &&& if !before.held().in_flight() {
        after == before && status == CompletionStatus::Ready && call is None
    } else {
        before.held().completed(complete, after.held(), (status, call))
    }
}

/// The runs are sound and have no operation under way.
pub open spec fn runs_wf<I: TensorElement, O: TensorElement, const INPUTS: usize, const OUTPUTS: usize>(
    runs: Seq<OwnedDynamicIoRun<I, O, INPUTS, OUTPUTS>>,
) -> bool {
    forall|k: int|
        0 <= k < runs.len() ==> (#[trigger] runs[k]).held().wf() && runs[k].held().at_rest()
}

impl<I: TensorElement, O: TensorElement, const INPUTS: usize, const OUTPUTS: usize> DynamicIoRuntime<
    I,
    O,
    INPUTS,
    OUTPUTS,
> {
    /// Check that runs can be polled on a device, with room for so many results: whether any of
    /// them is pending, so that the device must be the calling thread's current one.
    pub fn check_poll(
        &self,
        device_id: i32,
        runs: &Vec<OwnedDynamicIoRun<I, O, INPUTS, OUTPUTS>>,
        room: usize,
    ) -> (result: Result<bool, Error>)
        ensures
            if room < runs@.len() {
                result == Err::<bool, Error>(Error::Fault(Fault::PollBufferTooSmall))
            } else {
                match poll_fault(runs@, device_id, runs@.len() as int) {
                    Some(error) => result == Err::<bool, Error>(error),
                    None => result == Ok::<bool, Error>(any_pending(runs@)),
                }
            },
    {
        if room < runs.len() {
            return fail(Fault::PollBufferTooSmall);
        }
        let mut pending: bool = false;
        let mut k: usize = 0;
        while k < runs.len()
            invariant
                k <= runs@.len() <= room,
                poll_fault(runs@, device_id, k as int) is None,
                pending == (exists|j: int| 0 <= j < k && (#[trigger] runs@[j]).held().in_flight()),
            decreases runs@.len() - k,
        {
            let run: &OwnedDynamicIoRun<I, O, INPUTS, OUTPUTS> = &runs[k];
            let idle: bool = run.lane().is_ok();
            if !idle {
                assert(runs@[k as int].held().in_flight());
                let found: Option<i32> = run.completion_event();
                if found != Some(device_id) {
                    proof {
                        lemma_poll_fault_first(runs@, device_id, k + 1, runs@.len() as int);
                    }
                    return match found {
                        None => fail(Fault::PollNeedsEvents),
                        Some(_) => fail(Fault::PollDeviceMismatch),
                    };
                }
                pending = true;
            }
            k = k + 1;
        }
        Ok(pending)
    }

    /// One pass over runs, from the device's answers: `current` says whether the device is the
    /// calling thread's current one, `complete` which events have completed, and `failure` is the
    /// first query that failed. The runs before it are discharged where they completed; their
    /// guards are to be given back by the calls that come back with them.
    pub fn poll_owned_runs(
        &self,
        device_id: i32,
        runs: &mut Vec<OwnedDynamicIoRun<I, O, INPUTS, OUTPUTS>>,
        statuses: &mut Vec<CompletionStatus>,
        current: Result<(), Error>,
        complete: &[bool],
        failure: Option<(usize, Error)>,
    ) -> (result: (Vec<Option<LaneCall>>, Result<(), Error>))
        requires
            runs_wf(old(runs)@),
            complete@.len() == old(runs)@.len(),
            failure matches Some((k, _)) ==> k < old(runs)@.len(),
        ensures
            final(runs)@.len() == old(runs)@.len(),
            final(statuses)@.len() == old(statuses)@.len(),
            ({
                let refused = if old(statuses)@.len() < old(runs)@.len() {
                    Some(Error::Fault(Fault::PollBufferTooSmall))
                } else {
                    match poll_fault(old(runs)@, device_id, old(runs)@.len() as int) {
                        Some(error) => Some(error),
                        None => match current {
                            Err(error) if any_pending(old(runs)@) => Some(error),
                            _ => None,
                        },
                    }
                };
                match refused {
                    Some(error) => {
                        &&& result.1 == Err::<(), Error>(error)
                        &&& result.0@.len() == 0
                        &&& final(runs)@ == old(runs)@
                        &&& final(statuses)@ == old(statuses)@
                    },
                    None => {
                        let stop = match failure {
                            Some((k, _)) => k as int,
                            None => old(runs)@.len() as int,
                        };
                        &&& result.1 == match failure {
                            Some((_, error)) => Err::<(), Error>(error),
                            None => Ok(()),
                        }
                        &&& result.0@.len() == stop
                        &&& forall|k: int|
                            0 <= k < stop ==> polled(
                                old(runs)@[k],
                                complete@[k],
                                #[trigger] final(runs)@[k],
                                final(statuses)@[k],
                                result.0@[k],
                            )
                        &&& forall|k: int|
                            stop <= k < old(runs)@.len() ==> #[trigger] final(runs)@[k] == old(
                                runs,
                            )@[k]
                        &&& forall|k: int|
                            stop <= k < old(statuses)@.len() ==> #[trigger] final(statuses)@[k]
                                == old(statuses)@[k]
                    },
                }
            }),
    {
        let mut calls: Vec<Option<LaneCall>> = Vec::new();
        match self.check_poll(device_id, runs, statuses.len()) {
            Err(error) => return (calls, Err(error)),
            Ok(pending) => {
                if pending {
                    if let Err(error) = current {
                        return (calls, Err(error));
                    }
                }
            },
        }
        let (stop, failed): (usize, Option<Error>) = match failure {
            Some((k, error)) => (k, Some(error)),
            None => (runs.len(), None),
        };
        let ghost asked = runs@;
        let ghost room = statuses@;
        let mut k: usize = 0;
        while k < stop
            invariant
                k <= stop <= asked.len() <= room.len(),
                runs@.len() == asked.len(),
                statuses@.len() == room.len(),
                calls@.len() == k,
                complete@.len() == asked.len(),
                runs_wf(asked),
                poll_fault(asked, device_id, asked.len() as int) is None,
                forall|j: int|
                    0 <= j < k ==> polled(
                        asked[j],
                        complete@[j],
                        #[trigger] runs@[j],
                        statuses@[j],
                        calls@[j],
                    ),
                forall|j: int| k <= j < asked.len() ==> #[trigger] runs@[j] == asked[j],
                forall|j: int| k <= j < room.len() ==> #[trigger] statuses@[j] == room[j],
            decreases stop - k,
        {
            let ghost before = runs@;
            assert(before[k as int] == asked[k as int]);
            assert(asked[k as int].held().wf());
            let idle: bool = runs[k].lane().is_ok();
            if idle {
                statuses.set(k, CompletionStatus::Ready);
                calls.push(None);
            } else {
                proof {
                    lemma_pollable(asked, device_id, asked.len() as int, k as int);
                }
                let (status, call) = runs[k].try_complete(complete[k]);
                statuses.set(k, status);
                calls.push(call);
            }
            k = k + 1;
        }
        match failed {
            Some(error) => (calls, Err(error)),
            None => (calls, Ok(())),
        }
    }

    /// The addresses of all buckets' buffers are as many as their lanes and buffers.
    pub open spec fn addresses_fit(self, addresses: Seq<Vec<LaneAddresses>>) -> bool {
        &&& addresses.len() == self@.buckets.len()
        &&& forall|i: int|
            0 <= i < addresses.len() ==> lane_addresses_fit::<INPUTS, OUTPUTS>(
                (#[trigger] addresses[i])@,
                self@.buckets[i].lanes.len() as int,
            )
    }

    /// Every bucket is sound.
    pub open spec fn buckets_wf(self) -> bool {
        forall|i: int| 0 <= i < self@.buckets.len() ==> (#[trigger] self@.buckets[i]).wf()
    }

    /// Snapshots of all cached buckets, or the first failure.
    pub fn audit_cached_hot_paths(&self, addresses: &[Vec<LaneAddresses>]) -> (result: Result<
        Vec<Vec<LaneHotPathAudit>>,
        Error,
    >)
        requires
            self.buckets_wf(),
            self.addresses_fit(addresses@),
        ensures
            match result {
                Ok(audits) => {
                    &&& audits@.len() == self@.buckets.len()
                    &&& forall|i: int|
                        0 <= i < audits@.len() ==> crate::runtime::static_io::audits_of(
                            Ok(#[trigger] audits@[i]),
                            self@.buckets[i].lanes,
                            addresses@[i]@,
                        )
                },
                Err(error) => exists|i: int|
                    0 <= i < self@.buckets.len() && crate::runtime::static_io::audits_of(
                        Err(error),
                        (#[trigger] self@.buckets[i]).lanes,
                        addresses@[i]@,
                    ),
            },
    {
        let mut audits: Vec<Vec<LaneHotPathAudit>> = Vec::new();
        let buckets = self.buckets();
        let mut i: usize = 0;
        while i < buckets.len()
            invariant
                i <= buckets@.len(),
                crate::runtime::dynamic::views(buckets@) == self@.buckets,
                self.buckets_wf(),
                self.addresses_fit(addresses@),
                audits@.len() == i,
                forall|k: int|
                    0 <= k < i ==> crate::runtime::static_io::audits_of(
                        Ok(#[trigger] audits@[k]),
                        self@.buckets[k].lanes,
                        addresses@[k]@,
                    ),
            decreases buckets@.len() - i,
        {
            assert(buckets@[i as int]@ == self@.buckets[i as int]);
            assert(lane_addresses_fit::<INPUTS, OUTPUTS>(
                addresses@[i as int]@,
                self@.buckets[i as int].lanes.len() as int,
            ));
            match buckets[i].audit_hot_path(addresses[i].as_slice()) {
                Err(error) => return Err(error),
                Ok(audit) => {
                    audits.push(audit);
                },
            }
            i = i + 1;
        }
        Ok(audits)
    }

    /// Check that the engine reads and writes the own host memory of every cached lane.
    pub fn assert_cached_zero_copy_plan(&self, addresses: &[Vec<LaneAddresses>]) -> (result: Result<
        (),
        Error,
    >)
        requires
            self.buckets_wf(),
            self.addresses_fit(addresses@),
        ensures
            match cache_zero_copy_fault(
                self@.buckets,
                addresses@,
                self@.buckets.len() as int,
            ) {
                Some(error) => result == Err::<(), Error>(error),
                None => result is Ok,
            },
    {
        let buckets = self.buckets();
        let mut i: usize = 0;
        while i < buckets.len()
            invariant
                i <= buckets@.len(),
                crate::runtime::dynamic::views(buckets@) == self@.buckets,
                self.buckets_wf(),
                self.addresses_fit(addresses@),
                cache_zero_copy_fault(self@.buckets, addresses@, i as int) is None,
            decreases buckets@.len() - i,
        {
            assert(buckets@[i as int]@ == self@.buckets[i as int]);
            assert(lane_addresses_fit::<INPUTS, OUTPUTS>(
                addresses@[i as int]@,
                self@.buckets[i as int].lanes.len() as int,
            ));
            match buckets[i].assert_zero_copy_plan(addresses[i].as_slice()) {
                Err(error) => {
                    proof {
                        lemma_cache_zero_copy_first(
                            self@.buckets,
                            addresses@,
                            i + 1,
                            self@.buckets.len() as int,
                        );
                    }
                    return Err(error);
                },
                Ok(()) => {},
            }
            i = i + 1;
        }
        Ok(())
    }
}

/// The addresses of one bucket's buffers are as many as its lanes and their buffers.
pub open spec fn lane_addresses_fit<const INPUTS: usize, const OUTPUTS: usize>(
    addresses: Seq<LaneAddresses>,
    lanes: int,
) -> bool {
    &&& addresses.len() == lanes
    &&& forall|k: int|
        0 <= k < addresses.len() ==> (#[trigger] addresses[k]).inputs@.len() == INPUTS
            && addresses[k].outputs@.len() == OUTPUTS
}

/// Why the engine does not read and write the own host memory of a lane of the first `n`
/// buckets: the first reason.
pub open spec fn cache_zero_copy_fault<
    I: TensorElement,
    O: TensorElement,
    const INPUTS: usize,
    const OUTPUTS: usize,
>(
    buckets: Seq<BucketView<I, O, INPUTS, OUTPUTS>>,
    addresses: Seq<Vec<LaneAddresses>>,
    n: int,
) -> Option<Error>
    decreases n,
{
    if n <= 0 {
        None
    } else {
        match cache_zero_copy_fault(buckets, addresses, n - 1) {
            Some(error) => Some(error),
            None => crate::runtime::static_io::set_zero_copy_fault(
                buckets[n - 1].lanes,
                addresses[n - 1]@,
                buckets[n - 1].lanes.len() as int,
            ),
        }
    }
}

proof fn lemma_cache_zero_copy_first<
    I: TensorElement,
    O: TensorElement,
    const INPUTS: usize,
    const OUTPUTS: usize,
>(
    buckets: Seq<BucketView<I, O, INPUTS, OUTPUTS>>,
    addresses: Seq<Vec<LaneAddresses>>,
    n: int,
    m: int,
)
    requires
        0 <= n <= m,
        cache_zero_copy_fault(buckets, addresses, n) is Some,
    ensures
        cache_zero_copy_fault(buckets, addresses, m) == cache_zero_copy_fault(
            buckets,
            addresses,
            n,
        ),
    decreases m - n,
{
    if n < m {
        lemma_cache_zero_copy_first(buckets, addresses, n, m - 1);
    }
}

} // verus!
