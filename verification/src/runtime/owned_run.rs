//! Runs that own their lane: what may be borrowed while one is pending, and what becomes of the
//! lane when it ends.
use vstd::prelude::*;

use crate::element::TensorElement;
use crate::error::{fail, Error, Fault};
use crate::runtime::lane::{CompletionQuery, CompletionStatus, LaneProgress, ServingLane};
use crate::runtime::lane_state::LaneCall;
use crate::runtime::options::CudaStream;
use crate::runtime::recovery::{Recovery, RecoverySlots};
use crate::tensor::allocated::AllocatedTensor;

verus! {

/// A handle to one prebuilt shape bucket, checked by generation.
#[derive(Debug, Clone, Copy, PartialEq, Eq, Structural)]
pub struct PreparedBucketId {
    pub slot: u32,
    pub generation: u32,
}

/// What is done with a lane that nobody owns any more.
#[derive(Debug)]
pub enum Disposal<T> {
    /// Nothing is pending: destroy it.
    Destroy(T),
    /// Provider work may still reach its resources: never free them.
    Leak(T),
}

/// A lane that failed to enqueue, with the failure.
#[derive(Debug)]
pub struct LaneEnqueueError<
    I: TensorElement,
    O: TensorElement,
    const INPUTS: usize,
    const OUTPUTS: usize,
> {
    pub error: Error,
    pub lane: ServingLane<I, O, INPUTS, OUTPUTS>,
}

/// A pending run that owns its lane.
#[derive(Debug)]
pub struct InFlightRun<I: TensorElement, O: TensorElement, const INPUTS: usize, const OUTPUTS: usize> {
    lane: ServingLane<I, O, INPUTS, OUTPUTS>,
}

impl<I: TensorElement, O: TensorElement, const INPUTS: usize, const OUTPUTS: usize> ServingLane<
    I,
    O,
    INPUTS,
    OUTPUTS,
> {
    /// Move the lane into its pending run, where `queued` is the outcome of the enqueued run that
    /// was just made. A failure hands the lane back.
    pub fn enqueue(self, queued: Result<(), Error>) -> (result: Result<
        InFlightRun<I, O, INPUTS, OUTPUTS>,
        LaneEnqueueError<I, O, INPUTS, OUTPUTS>,
    >)
        ensures
            match queued {
                Ok(()) => result matches Ok(run) && run.held() == self,
                Err(error) => result matches Err(failure) && failure.error == error
                    && failure.lane == self,
            },
    {
        match queued {
            Ok(()) => Ok(InFlightRun { lane: self }),
            Err(error) => Err(LaneEnqueueError { error, lane: self }),
        }
    }

    /// What is done with a lane that is given up, after waiting for it as far as possible.
    pub fn dispose(self) -> (disposal: Disposal<Self>)
        ensures
            disposal == (if self.in_flight() {
                Disposal::Leak(self)
            } else {
                Disposal::Destroy(self)
            }),
    {
        if self.is_in_flight() {
            Disposal::Leak(self)
        } else {
            Disposal::Destroy(self)
        }
    }
}

impl<I: TensorElement, O: TensorElement, const INPUTS: usize, const OUTPUTS: usize> InFlightRun<
    I,
    O,
    INPUTS,
    OUTPUTS,
> {
    /// The lane of the run.
    pub closed spec fn held(self) -> ServingLane<I, O, INPUTS, OUTPUTS> {
        self.lane
    }

    /// What a nonblocking completion query needs.
    pub fn completion_query(&self) -> (query: Result<CompletionQuery, Error>)
        ensures
            query == self.held().spec_completion_query(),
    {
        self.lane.completion_query()
    }

    /// Take the completion event's answer and keep the lane.
    pub fn try_complete(&mut self, complete: bool) -> (result: (
        CompletionStatus,
        Option<LaneCall>,
    ))
        requires
            old(self).held().wf(),
            old(self).held().at_rest(),
            old(self).held().lane_state().completion_event_recorded,
        ensures
            final(self).held().wf(),
            old(self).held().completed(complete, final(self).held(), result),
    {
        self.lane.try_complete(complete)
    }

    /// Start waiting for the run.
    pub fn start_synchronize(&mut self) -> (progress: LaneProgress)
        requires
            old(self).held().wf(),
            old(self).held().at_rest(),
        ensures
            final(self).held().wf(),
            old(self).held().progressed(
                old(self).held().wait_step(),
                None,
                final(self).held(),
                progress,
            ),
    {
        self.lane.synchronize_outputs()
    }

    /// Take the answer to the last call and go on.
    pub fn answer(&mut self, reply: Result<(), Error>) -> (progress: LaneProgress)
        requires
            old(self).held().wf(),
            !old(self).held().at_rest(),
        ensures
            final(self).held().wf(),
            old(self).held().progressed(
                old(self).held().lane_state().spec_advance(reply is Ok),
                old(self).held().failure_after(reply),
                final(self).held(),
                progress,
            ),
    {
        self.lane.answer(reply)
    }

    /// Take the outcome of the wait: the lane comes back after a success. After a failure it is
    /// given up, and leaked where no fence succeeded.
    pub fn synchronize(self, waited: Result<(), Error>) -> (result: Result<
        ServingLane<I, O, INPUTS, OUTPUTS>,
        (Error, Disposal<ServingLane<I, O, INPUTS, OUTPUTS>>),
    >)
        ensures
            match waited {
                Ok(()) => result matches Ok(lane) && lane == self.held(),
                Err(error) => {
                    &&& result matches Err((failure, disposal))
                    &&& failure == error
                    &&& disposal == (if self.held().in_flight() {
                        Disposal::Leak(self.held())
                    } else {
                        Disposal::Destroy(self.held())
                    })
                },
            },
    {
        match waited {
            Ok(()) => Ok(self.lane),
            Err(error) => Err((error, self.lane.dispose())),
        }
    }
}

/// A pending run detached from its shape bucket, which it remembers.
#[derive(Debug)]
pub struct OwnedDynamicIoRun<
    I: TensorElement,
    O: TensorElement,
    const INPUTS: usize,
    const OUTPUTS: usize,
> {
    lane: ServingLane<I, O, INPUTS, OUTPUTS>,
    bucket_id: PreparedBucketId,
}

/// A lane that its run gave back on being dropped.
#[derive(Debug)]
pub struct RecoveredDynamicLane<
    I: TensorElement,
    O: TensorElement,
    const INPUTS: usize,
    const OUTPUTS: usize,
> {
    pub lane: ServingLane<I, O, INPUTS, OUTPUTS>,
    pub bucket_id: PreparedBucketId,
}

/// A chain that could not be established before downstream work was exposed.
#[derive(Debug)]
pub struct GpuChainEnqueueError<
    I: TensorElement,
    O: TensorElement,
    const INPUTS: usize,
    const OUTPUTS: usize,
> {
    pub error: Error,
    pub run: OwnedDynamicIoRun<I, O, INPUTS, OUTPUTS>,
}

/// How queueing downstream work ended.
#[derive(Debug, PartialEq, Eq)]
pub enum ChainEnqueue {
    /// It returned.
    Returned(Result<(), Error>),
    /// It unwound. `fenced` says whether the work that it may have queued was waited for.
    Unwound { fenced: bool },
}

/// What a chain attempt leads to.
#[derive(Debug)]
pub enum ChainOutcome<I: TensorElement, O: TensorElement, const INPUTS: usize, const OUTPUTS: usize> {
    /// Downstream work is queued, and its token owns the run.
    Chained(GpuChainedDynamicIoRun<I, O, INPUTS, OUTPUTS>),
    /// Resume unwinding with a completed run; its guard is to be given back.
    Unwind(OwnedDynamicIoRun<I, O, INPUTS, OUTPUTS>, LaneProgress),
    /// Resume unwinding and never free the run's resources.
    LeakAndUnwind(OwnedDynamicIoRun<I, O, INPUTS, OUTPUTS>),
}

impl<
    I: TensorElement,
    O: TensorElement,
    const INPUTS: usize,
    const OUTPUTS: usize,
> OwnedDynamicIoRun<I, O, INPUTS, OUTPUTS> {
    /// The lane of the run.
    pub closed spec fn held(self) -> ServingLane<I, O, INPUTS, OUTPUTS> {
        self.lane
    }

    /// The bucket that the lane came from.
    pub closed spec fn source(self) -> PreparedBucketId {
        self.bucket_id
    }

    /// A run of a lane of one bucket.
    pub fn new(lane: ServingLane<I, O, INPUTS, OUTPUTS>, bucket_id: PreparedBucketId) -> (run: Self)
        ensures
            run.held() == lane,
            run.source() == bucket_id,
    {
        OwnedDynamicIoRun { lane, bucket_id }
    }

    /// The bucket that the lane came from.
    pub fn bucket_id(&self) -> (id: PreparedBucketId)
        ensures
            id == self.source(),
    {
        self.bucket_id
    }

    /// Take the run apart.
    pub(crate) fn into_parts(self) -> (parts: (
        ServingLane<I, O, INPUTS, OUTPUTS>,
        PreparedBucketId,
    ))
        ensures
            parts == (self.held(), self.source()),
    {
        (self.lane, self.bucket_id)
    }

    /// What a nonblocking completion query needs.
    pub fn completion_query(&self) -> (query: Result<CompletionQuery, Error>)
        ensures
            query == self.held().spec_completion_query(),
    {
        self.lane.completion_query()
    }

    /// Take the completion event's answer and keep the lane.
    pub fn try_complete(&mut self, complete: bool) -> (result: (
        CompletionStatus,
        Option<LaneCall>,
    ))
        requires
            old(self).held().wf(),
            old(self).held().at_rest(),
            old(self).held().lane_state().completion_event_recorded,
        ensures
            final(self).held().wf(),
            final(self).source() == old(self).source(),
            old(self).held().completed(complete, final(self).held(), result),
    {
        self.lane.try_complete(complete)
    }

    /// The device of the completion event that stands behind the run.
    pub fn completion_event(&self) -> (event: Option<i32>)
        ensures
            event == (if self.held().in_flight()
                && self.held().lane_state().completion_event_recorded {
                self.held().lane_state().cuda_device
            } else {
                None
            }),
    {
        self.lane.completion_event()
    }

    /// Start waiting for the run while keeping the lane.
    pub fn synchronize(&mut self) -> (progress: LaneProgress)
        requires
            old(self).held().wf(),
            old(self).held().at_rest(),
        ensures
            final(self).held().wf(),
            final(self).source() == old(self).source(),
            old(self).held().progressed(
                old(self).held().wait_step(),
                None,
                final(self).held(),
                progress,
            ),
    {
        self.lane.synchronize_outputs()
    }

    /// Take the answer to the last call and go on.
    pub fn answer(&mut self, reply: Result<(), Error>) -> (progress: LaneProgress)
        requires
            old(self).held().wf(),
            !old(self).held().at_rest(),
        ensures
            final(self).held().wf(),
            final(self).source() == old(self).source(),
            old(self).held().progressed(
                old(self).held().lane_state().spec_advance(reply is Ok),
                old(self).held().failure_after(reply),
                final(self).held(),
                progress,
            ),
    {
        self.lane.answer(reply)
    }

    /// The lane, once nothing is pending.
    pub fn lane(&self) -> (lane: Result<&ServingLane<I, O, INPUTS, OUTPUTS>, Error>)
        ensures
            if self.held().in_flight() {
                lane == Err::<&ServingLane<I, O, INPUTS, OUTPUTS>, Error>(
                    Error::Fault(Fault::OwnedRunNotSynchronized),
                )
            } else {
                lane == Ok::<&ServingLane<I, O, INPUTS, OUTPUTS>, Error>(&self.held())
            },
    {
        if self.lane.is_in_flight() {
            return fail(Fault::OwnedRunNotSynchronized);
        }
        Ok(&self.lane)
    }

    /// The lane, to be changed, once nothing is pending.
    pub fn lane_mut(&mut self) -> (lane: Result<&mut ServingLane<I, O, INPUTS, OUTPUTS>, Error>)
        ensures
            final(self).source() == old(self).source(),
            if old(self).held().in_flight() {
                &&& *final(self) == *old(self)
                &&& lane is Err
                &&& lane->Err_0 == Error::Fault(Fault::OwnedRunNotSynchronizedMut)
            } else {
                &&& lane is Ok
                &&& *(lane->Ok_0) == old(self).held()
                &&& final(self).held() == *final(lane->Ok_0)
            },
    {
        if self.lane.is_in_flight() {
            return Err(Error::Fault(Fault::OwnedRunNotSynchronizedMut));
        }
        Ok(&mut self.lane)
    }

    /// Why downstream work cannot be chained to the run.
    pub open spec fn chain_fault(self, downstream: CudaStream, waited: Result<(), Error>) -> Option<
        Error,
    > {
        if self.held().parts().device_outputs is None {
            Some(Error::Fault(Fault::ChainNeedsDeviceOutputs))
        } else if !self.held().in_flight()
            || !self.held().lane_state().completion_event_recorded {
            Some(Error::Fault(Fault::ChainNeedsCompletionEvent))
        } else if self.held().lane_state().cuda_device != Some(downstream.device_id) {
            Some(Error::Fault(Fault::ChainDeviceMismatch))
        } else {
            match waited {
                Err(error) => Some(error),
                Ok(()) => None,
            }
        }
    }

    /// Check that downstream work can be chained, before the wait for the run is queued on its
    /// stream: the device outputs that it reads.
    pub fn check_chain(&self, downstream: CudaStream) -> (outputs: Result<
        &[AllocatedTensor<O>],
        Error,
    >)
        ensures
            match self.chain_fault(downstream, Ok(())) {
                Some(error) => outputs == Err::<&[AllocatedTensor<O>], Error>(error),
                None => outputs matches Ok(tensors) && tensors@
                    == self.held().parts().device_outputs->Some_0,
            },
    {
        match self.lane.device_outputs_for_chain() {
            Err(error) => Err(error),
            Ok(tensors) => match self.lane.queue_completion_wait(downstream) {
                Err(error) => Err(error),
                Ok(()) => Ok(tensors),
            },
        }
    }

    /// Whether the event behind downstream work was recorded: it needs an event.
    pub open spec fn chain_record(self, recorded: Result<(), Error>) -> Result<(), Error> {
        if self.held().parts().downstream_event is None {
            Err(Error::Fault(Fault::NoDownstreamEvent))
        } else {
            recorded
        }
    }

    /// Chain downstream work to the run, from the engine's answers: queueing the wait for the run
    /// on the downstream stream, queueing the work, and recording the event behind it.
    pub fn chain_on_stream(
        self,
        downstream: CudaStream,
        waited: Result<(), Error>,
        enqueued: ChainEnqueue,
        recorded: Result<(), Error>,
    ) -> (result: Result<
        ChainOutcome<I, O, INPUTS, OUTPUTS>,
        GpuChainEnqueueError<I, O, INPUTS, OUTPUTS>,
    >)
        requires
            self.held().wf(),
            self.held().at_rest(),
        ensures
            match self.chain_fault(downstream, waited) {
                Some(error) => result matches Err(failure) && failure.error == error && failure.run
                    == self,
                None => match enqueued {
                    ChainEnqueue::Unwound { fenced } => if self.chain_record(recorded) is Ok
                        && fenced {
                        &&& result matches Ok(ChainOutcome::Unwind(run, progress))
                        &&& run.source() == self.source()
                        &&& run.held().wf()
                        &&& !run.held().in_flight()
                        &&& self.held().progressed(
                            self.held().lane_state().spec_cleared(
                                self.held().lane_state().in_flight_graph_guard,
                            ),
                            None,
                            run.held(),
                            progress,
                        )
                    } else {
                        result matches Ok(ChainOutcome::LeakAndUnwind(run)) && run == self
                    },
                    ChainEnqueue::Returned(work) => {
                        &&& result matches Ok(ChainOutcome::Chained(chain))
                        &&& chain.inner() == self
                        &&& chain.downstream() == downstream
                        &&& !chain.is_complete()
                        &&& chain.recorded() == (self.chain_record(recorded) is Ok)
                        &&& chain.failure() == match self.chain_record(recorded) {
                            Err(error) => Some(error),
                            Ok(()) => match work {
                                Err(error) => Some(error),
                                Ok(()) => None,
                            },
                        }
                    },
                },
            },
    {
        match self.check_chain(downstream) {
            Err(error) => return Err(GpuChainEnqueueError { error, run: self }),
            Ok(_) => {},
        }
        if let Err(error) = waited {
            return Err(GpuChainEnqueueError { error, run: self });
        }
        let record = match self.lane.downstream_completion_event() {
            Err(error) => Err(error),
            Ok(_) => recorded,
        };
        match enqueued {
            ChainEnqueue::Unwound { fenced } => {
                if record.is_ok() && fenced {
                    let mut run = self;
                    let progress: LaneProgress = run.lane.mark_complete_after_gpu_chain();
                    Ok(ChainOutcome::Unwind(run, progress))
                } else {
                    Ok(ChainOutcome::LeakAndUnwind(self))
                }
            },
            ChainEnqueue::Returned(work) => {
                let downstream_event_recorded: bool = record.is_ok();
                let failure: Option<Error> = match record {
                    Err(error) => Some(error),
                    Ok(()) => match work {
                        Err(error) => Some(error),
                        Ok(()) => None,
                    },
                };
                Ok(
                    ChainOutcome::Chained(
                        GpuChainedDynamicIoRun {
                            run: self,
                            downstream_event_recorded,
                            downstream_stream: downstream,
                            failure,
                            complete: false,
                        },
                    ),
                )
            },
        }
    }

    /// Give a dropped run's lane back, after waiting for it as far as possible: into its slot, or
    /// out again where it must be leaked.
    pub fn release(
        self,
        recovery: &mut RecoverySlots<RecoveredDynamicLane<I, O, INPUTS, OUTPUTS>>,
    ) -> (leaked: Option<ServingLane<I, O, INPUTS, OUTPUTS>>)
        requires
            old(recovery).wf(),
        ensures
            final(recovery).wf(),
            final(recovery).capacity() == old(recovery).capacity(),
            if !self.held().in_flight() && self.held().slot() is Some
                && self.held().slot()->Some_0 < old(recovery).capacity()
                && !crate::runtime::recovery::has_slot(
                old(recovery)@,
                self.held().slot()->Some_0,
            ) {
                &&& leaked is None
                &&& final(recovery)@ == old(recovery)@.push(
                    (
                        self.held().slot()->Some_0,
                        RecoveredDynamicLane { lane: self.held(), bucket_id: self.source() },
                    ),
                )
            } else {
                leaked == Some(self.held()) && final(recovery)@ == old(recovery)@
            },
    {
        if self.lane.is_in_flight() {
            return Some(self.lane);
        }
        match self.lane.recovery_slot() {
            None => Some(self.lane),
            Some(slot) => {
                let recovered = RecoveredDynamicLane { lane: self.lane, bucket_id: self.bucket_id };
                match recovery.recover(slot, recovered) {
                    Recovery::Queued => None,
                    Recovery::OutOfRange(recovered) => Some(recovered.lane),
                    Recovery::Occupied(recovered) => Some(recovered.lane),
                }
            },
        }
    }
}

/// A run whose device outputs are read by work queued on another stream.
#[derive(Debug)]
pub struct GpuChainedDynamicIoRun<
    I: TensorElement,
    O: TensorElement,
    const INPUTS: usize,
    const OUTPUTS: usize,
> {
    run: OwnedDynamicIoRun<I, O, INPUTS, OUTPUTS>,
    downstream_event_recorded: bool,
    downstream_stream: CudaStream,
    failure: Option<Error>,
    complete: bool,
}

/// What completes a chain.
#[derive(Debug, Clone, Copy, PartialEq, Eq, Structural)]
pub enum ChainFence {
    /// Nothing: it is complete.
    Complete,
    /// The event behind the downstream work.
    Event,
    /// The whole downstream stream.
    Stream(CudaStream),
}

/// What is done with a chain that nobody owns any more.
#[derive(Debug)]
pub enum ChainDisposal<I: TensorElement, O: TensorElement, const INPUTS: usize, const OUTPUTS: usize> {
    /// The run is complete: answer its progress and release it.
    Release(OwnedDynamicIoRun<I, O, INPUTS, OUTPUTS>, LaneProgress),
    /// Downstream work may still read the outputs: never free them.
    Leak(OwnedDynamicIoRun<I, O, INPUTS, OUTPUTS>),
}

impl<
    I: TensorElement,
    O: TensorElement,
    const INPUTS: usize,
    const OUTPUTS: usize,
> GpuChainedDynamicIoRun<I, O, INPUTS, OUTPUTS> {
    /// The run that the chain owns.
    pub closed spec fn inner(self) -> OwnedDynamicIoRun<I, O, INPUTS, OUTPUTS> {
        self.run
    }

    /// The stream of the downstream work.
    pub closed spec fn downstream(self) -> CudaStream {
        self.downstream_stream
    }

    /// Whether the event stands behind the downstream work.
    pub closed spec fn recorded(self) -> bool {
        self.downstream_event_recorded
    }

    /// The failure to report once the downstream work has ended.
    pub closed spec fn failure(self) -> Option<Error> {
        self.failure
    }

    /// Whether the downstream work has ended.
    pub closed spec fn is_complete(self) -> bool {
        self.complete
    }

    /// The lane of the run is sound.
    pub open spec fn wf(self) -> bool {
        self.inner().held().wf()
    }

    /// The lane after the downstream work has ended.
    pub open spec fn discharged(
        self,
        after: OwnedDynamicIoRun<I, O, INPUTS, OUTPUTS>,
        progress: LaneProgress,
    ) -> bool {
        &&& after.source() == self.inner().source()
        &&& after.held().wf()
        &&& self.inner().held().progressed(
            self.inner().held().lane_state().spec_cleared(
                self.inner().held().lane_state().in_flight_graph_guard,
            ),
            None,
            after.held(),
            progress,
        )
    }

    /// What the chain waits for.
    pub fn fence(&self) -> (fence: ChainFence)
        ensures
            fence == (if self.is_complete() {
                ChainFence::Complete
            } else if self.recorded() {
                ChainFence::Event
            } else {
                ChainFence::Stream(self.downstream())
            }),
    {
        if self.complete {
            ChainFence::Complete
        } else if self.downstream_event_recorded {
            ChainFence::Event
        } else {
            ChainFence::Stream(self.downstream_stream)
        }
    }

    /// Check that completion can be asked for without blocking.
    pub fn completion_query(&self) -> (query: Result<CompletionQuery, Error>)
        ensures
            query == (if self.is_complete() {
                Ok::<CompletionQuery, Error>(CompletionQuery::Ready)
            } else if self.recorded() {
                Ok(CompletionQuery::AskEvent)
            } else {
                Err(Error::Fault(Fault::ChainEventMissing))
            }),
    {
        if self.complete {
            Ok(CompletionQuery::Ready)
        } else if self.downstream_event_recorded {
            Ok(CompletionQuery::AskEvent)
        } else {
            fail(Fault::ChainEventMissing)
        }
    }

    /// Take the downstream event's answer: a completed chain discharges its run.
    pub fn try_complete(&mut self, complete: Result<bool, Error>) -> (result: Result<
        (CompletionStatus, LaneProgress),
        Error,
    >)
        requires
            old(self).wf(),
            old(self).inner().held().at_rest(),
            !old(self).is_complete(),
            old(self).recorded(),
        ensures
            final(self).wf(),
            match complete {
                Err(error) => *final(self) == *old(self) && result == Err::<
                    (CompletionStatus, LaneProgress),
                    Error,
                >(error),
                Ok(false) => *final(self) == *old(self) && result == Ok::<
                    (CompletionStatus, LaneProgress),
                    Error,
                >((CompletionStatus::Pending, LaneProgress::Done(Ok(())))),
                Ok(true) => {
                    &&& result matches Ok((status, progress))
                    &&& status == CompletionStatus::Ready
                    &&& old(self).discharged(final(self).inner(), progress)
                    &&& final(self).is_complete()
                    &&& final(self).recorded()
                    &&& final(self).downstream() == old(self).downstream()
                    &&& final(self).failure() == old(self).failure()
                },
            },
    {
        match complete {
            Err(error) => Err(error),
            Ok(false) => Ok((CompletionStatus::Pending, LaneProgress::Done(Ok(())))),
            Ok(true) => {
                let progress: LaneProgress = self.run.lane.mark_complete_after_gpu_chain();
                self.complete = true;
                Ok((CompletionStatus::Ready, progress))
            },
        }
    }

    /// Take the answer to the last call of the run's lane and go on.
    pub fn answer(&mut self, reply: Result<(), Error>) -> (progress: LaneProgress)
        requires
            old(self).wf(),
            !old(self).inner().held().at_rest(),
        ensures
            final(self).wf(),
            final(self).inner().source() == old(self).inner().source(),
            final(self).is_complete() == old(self).is_complete(),
            final(self).recorded() == old(self).recorded(),
            final(self).downstream() == old(self).downstream(),
            final(self).failure() == old(self).failure(),
            old(self).inner().held().progressed(
                old(self).inner().held().lane_state().spec_advance(reply is Ok),
                old(self).inner().held().failure_after(reply),
                final(self).inner().held(),
                progress,
            ),
    {
        self.run.answer(reply)
    }

    /// Take the outcome of waiting for the fence: what the chain reports, and what becomes of its
    /// run. A failed fence proves nothing, so the chain stays as it was and is given back.
    pub fn synchronize(self, fenced: Result<(), Error>) -> (result: Result<
        (OwnedDynamicIoRun<I, O, INPUTS, OUTPUTS>, LaneProgress, Option<Error>),
        (Error, Self),
    >)
        requires
            self.wf(),
            self.inner().held().at_rest(),
        ensures
            if self.is_complete() && self.recorded() {
                result == Ok::<
                    (OwnedDynamicIoRun<I, O, INPUTS, OUTPUTS>, LaneProgress, Option<Error>),
                    (Error, Self),
                >((self.inner(), LaneProgress::Done(Ok(())), self.failure()))
            } else {
                match fenced {
                    Err(error) => result == Err::<
                        (OwnedDynamicIoRun<I, O, INPUTS, OUTPUTS>, LaneProgress, Option<Error>),
                        (Error, Self),
                    >((error, self)),
                    Ok(()) => {
                        &&& result matches Ok((run, progress, failure))
                        &&& self.discharged(run, progress)
                        &&& failure == (if !self.recorded() && self.failure() is None {
                            Some(Error::Fault(Fault::ChainEventMissing))
                        } else {
                            self.failure()
                        })
                    },
                }
            },
    {
        if self.complete && self.downstream_event_recorded {
            return Ok((self.run, LaneProgress::Done(Ok(())), self.failure));
        }
        if let Err(error) = fenced {
            return Err((error, self));
        }
        let mut run = self.run;
        let progress: LaneProgress = run.lane.mark_complete_after_gpu_chain();
        let failure: Option<Error> = match self.failure {
            Some(error) => Some(error),
            None => {
                if self.downstream_event_recorded {
                    None
                } else {
                    Some(Error::Fault(Fault::ChainEventMissing))
                }
            },
        };
        Ok((run, progress, failure))
    }

    /// What becomes of a chain that is given up: its run is released once the event behind the
    /// downstream work or, failing that, the whole stream was waited for.
    pub fn dispose(self, event_synchronized: bool, stream_synchronized: bool) -> (disposal:
        ChainDisposal<I, O, INPUTS, OUTPUTS>)
        requires
            self.wf(),
            self.inner().held().at_rest(),
        ensures
            if self.is_complete() {
                disposal == ChainDisposal::Release(self.inner(), LaneProgress::Done(Ok(())))
            } else if (self.recorded() && event_synchronized) || stream_synchronized {
                &&& disposal matches ChainDisposal::Release(run, progress)
                &&& self.discharged(run, progress)
            } else {
                disposal == ChainDisposal::Leak(self.inner())
            },
    {
        if self.complete {
            return ChainDisposal::Release(self.run, LaneProgress::Done(Ok(())));
        }
        if (self.downstream_event_recorded && event_synchronized) || stream_synchronized {
            let mut run = self.run;
            let progress: LaneProgress = run.lane.mark_complete_after_gpu_chain();
            ChainDisposal::Release(run, progress)
        } else {
            ChainDisposal::Leak(self.run)
        }
    }
}

/// Downstream work that ended leaves nothing pending: a chain that was discharged has a lane that
/// may be reused.
pub proof fn discharged_chain_is_idle<
    I: TensorElement,
    O: TensorElement,
    const INPUTS: usize,
    const OUTPUTS: usize,
>(
    chain: GpuChainedDynamicIoRun<I, O, INPUTS, OUTPUTS>,
    after: OwnedDynamicIoRun<I, O, INPUTS, OUTPUTS>,
    progress: LaneProgress,
)
    requires
        chain.wf(),
        chain.discharged(after, progress),
    ensures
        !after.held().in_flight(),
        after.held().lane_state().in_flight_graph_guard is None,
        after.held().same_parts(chain.inner().held()),
{
}

} // verus!
