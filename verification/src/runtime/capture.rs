//! How the lanes of a new bucket capture their graphs, before the bucket can serve.
//!
//! A lane captures its graph with its first run, and a capture must not overlap a replay. So every
//! lane of a new bucket is run once while nothing else is, one after the other.
use vstd::prelude::*;

use crate::element::TensorElement;
use crate::error::Error;
use crate::runtime::dynamic::DynamicIoRuntime;
use crate::runtime::lane::{LaneProgress, ServingLane};
use crate::runtime::lane_state::{LaneCall, LaneState, Phase, RunMode};
use crate::runtime::static_io::StaticIoRuntime;

verus! {

/// The run of a lane leads to a captured graph, or has failed.
pub open spec fn leads_to_capture(lane: LaneState, failure: Option<Error>) -> bool {
    ||| failure is Some
    ||| lane.graph_captured
    ||| lane.event_path() && match lane.phase {
        Phase::Preparing { mode, .. } => mode == RunMode::Synchronized,
        Phase::Beginning { mode } => mode == RunMode::Synchronized,
        Phase::Launching { mode, .. } => mode == RunMode::Synchronized,
        Phase::Recording { mode, .. } => mode == RunMode::Synchronized,
        _ => false,
    }
}

/// A run that leads to a captured graph still does after every answer.
proof fn lemma_leads_on(lane: LaneState, ok: bool, before: Option<Error>, after: Option<Error>)
    requires
        lane.inv(),
        leads_to_capture(lane, before),
        before is Some ==> after is Some,
        !ok && !(lane.phase is Ending) ==> after is Some,
    ensures
        leads_to_capture(lane.spec_advance(ok).0, after),
{
    crate::runtime::lane_state::runs_keep_the_setup(lane, ok);
}

/// The lanes of a new bucket, of which one after the other is run.
#[derive(Debug)]
pub struct BucketCapture<
    I: TensorElement,
    O: TensorElement,
    const INPUTS: usize,
    const OUTPUTS: usize,
> {
    lanes: Vec<ServingLane<I, O, INPUTS, OUTPUTS>>,
    at: usize,
}

/// What comes next of the capture.
#[derive(Debug)]
pub enum CaptureStep<I: TensorElement, O: TensorElement, const INPUTS: usize, const OUTPUTS: usize> {
    /// A call on behalf of a lane, to be answered.
    Call(BucketCapture<I, O, INPUTS, OUTPUTS>, usize, LaneCall),
    /// Every lane has captured its graph.
    Captured(Vec<ServingLane<I, O, INPUTS, OUTPUTS>>),
    /// A lane failed; its bucket is not created.
    Failed(Error),
}

/// A lane that can capture: it is sound and idle, and has an annotation and device inputs.
pub open spec fn can_capture<
    I: TensorElement,
    O: TensorElement,
    const INPUTS: usize,
    const OUTPUTS: usize,
>(lane: ServingLane<I, O, INPUTS, OUTPUTS>) -> bool {
    lane.wf() && lane.at_rest() && !lane.in_flight() && lane.lane_state().event_path()
}

/// A lane that has captured its graph, and that no operation is under way on.
pub open spec fn has_captured<
    I: TensorElement,
    O: TensorElement,
    const INPUTS: usize,
    const OUTPUTS: usize,
>(lane: ServingLane<I, O, INPUTS, OUTPUTS>) -> bool {
    lane.wf() && lane.at_rest() && lane.lane_state().graph_captured
}

impl<I: TensorElement, O: TensorElement, const INPUTS: usize, const OUTPUTS: usize> BucketCapture<
    I,
    O,
    INPUTS,
    OUTPUTS,
> {
    /// The lanes.
    pub closed spec fn members(self) -> Seq<ServingLane<I, O, INPUTS, OUTPUTS>> {
        self.lanes@
    }

    /// The lane that is run.
    pub closed spec fn running(self) -> int {
        self.at as int
    }

    /// The lanes before the one that is run have captured, and those behind it can.
    pub open spec fn wf(self) -> bool {
        &&& 0 <= self.running() < self.members().len()
        &&& forall|k: int|
            0 <= k < self.running() ==> has_captured(#[trigger] self.members()[k])
        &&& forall|k: int|
            self.running() < k < self.members().len() ==> can_capture(#[trigger] self.members()[k])
        &&& self.members()[self.running()].wf()
        &&& !self.members()[self.running()].at_rest()
        &&& leads_to_capture(
            self.members()[self.running()].lane_state(),
            self.members()[self.running()].pending_failure(),
        )
    }

    /// `step` starts the next lane's run, behind the first `at` lanes.
    pub open spec fn goes_on(
        step: CaptureStep<I, O, INPUTS, OUTPUTS>,
        lanes: Seq<ServingLane<I, O, INPUTS, OUTPUTS>>,
        at: int,
    ) -> bool {
        if at == lanes.len() {
            step matches CaptureStep::Captured(captured) && captured@ == lanes
        } else {
            &&& step matches CaptureStep::Call(capture, lane, call)
            &&& capture.wf()
            &&& capture.running() == at
            &&& lane == at
            &&& capture.members() == lanes.update(at, capture.members()[at])
            &&& lanes[at].started(
                RunMode::Synchronized,
                capture.members()[at],
                Ok::<LaneCall, Error>(call),
            )
        }
    }

    fn go_on(lanes: Vec<ServingLane<I, O, INPUTS, OUTPUTS>>, at: usize) -> (step: CaptureStep<
        I,
        O,
        INPUTS,
        OUTPUTS,
    >)
        requires
            at <= lanes@.len(),
            forall|k: int| 0 <= k < at ==> has_captured(#[trigger] lanes@[k]),
            forall|k: int| at <= k < lanes@.len() ==> can_capture(#[trigger] lanes@[k]),
        ensures
            Self::goes_on(step, lanes@, at as int),
    {
        if at == lanes.len() {
            return CaptureStep::Captured(lanes);
        }
        let ghost before = lanes@;
        assert(can_capture(before[at as int]));
        let mut lanes = lanes;
        let started = lanes[at].run();
        assert(lanes@ =~= before.update(at as int, lanes@[at as int]));
        match started {
            Ok(call) => {
                let capture = BucketCapture { lanes, at };
                proof {
                    assert forall|k: int| 0 <= k < at implies has_captured(
                        #[trigger] capture.members()[k],
                    ) by {
                        assert(has_captured(before[k]));
                    }
                    assert forall|k: int| at < k < before.len() implies can_capture(
                        #[trigger] capture.members()[k],
                    ) by {
                        assert(can_capture(before[k]));
                    }
                }
                CaptureStep::Call(capture, at, call)
            },
            Err(error) => CaptureStep::Failed(error),
        }
    }

    /// Begin to capture the graphs of lanes that can.
    pub fn begin(lanes: Vec<ServingLane<I, O, INPUTS, OUTPUTS>>) -> (step: CaptureStep<
        I,
        O,
        INPUTS,
        OUTPUTS,
    >)
        requires
            forall|k: int| 0 <= k < lanes@.len() ==> can_capture(#[trigger] lanes@[k]),
        ensures
            Self::goes_on(step, lanes@, 0),
    {
        Self::go_on(lanes, 0)
    }

    /// `step` is what an answer makes of the capture: the lane's next call, the next lane, or the
    /// lane's failure, which names it.
    pub open spec fn answered(
        self,
        reply: Result<(), Error>,
        step: CaptureStep<I, O, INPUTS, OUTPUTS>,
    ) -> bool {
        let at = self.running();
        let before = self.members()[at];
        exists|after: ServingLane<I, O, INPUTS, OUTPUTS>, progress: LaneProgress|
            #[trigger] before.progressed(
                before.lane_state().spec_advance(reply is Ok),
                before.failure_after(reply),
                after,
                progress,
            ) && match progress {
                LaneProgress::Call(call) => {
                    &&& step matches CaptureStep::Call(capture, lane, next)
                    &&& capture.wf()
                    &&& capture.running() == at
                    &&& capture.members() == self.members().update(at, after)
                    &&& lane == at
                    &&& next == call
                },
                LaneProgress::Done(Ok(())) => Self::goes_on(
                    step,
                    self.members().update(at, after),
                    at + 1,
                ),
                LaneProgress::Done(Err(error)) => {
                    &&& step matches CaptureStep::Failed(failure)
                    &&& failure matches Error::CaptureFailed { lane, cause }
                    &&& lane == at
                    &&& *cause == error
                },
            }
    }

    /// The answer to the last call.
    pub fn answer(self, reply: Result<(), Error>) -> (step: CaptureStep<I, O, INPUTS, OUTPUTS>)
        requires
            self.wf(),
        ensures
            self.answered(reply, step),
    {
        let ghost all = self.members();
        let ghost before = all[self.running()];
        let at: usize = self.at;
        let mut lanes = self.lanes;
        proof {
            assert(before.wf() && !before.at_rest());
            lemma_leads_on(
                before.lane_state(),
                reply is Ok,
                before.pending_failure(),
                before.failure_after(reply),
            );
        }
        let progress = lanes[at].answer(reply);
        let ghost after = lanes@[at as int];
        assert(lanes@ =~= all.update(at as int, after));
        assert(before.progressed(
            before.lane_state().spec_advance(reply is Ok),
            before.failure_after(reply),
            after,
            progress,
        ));
        proof {
            assert forall|k: int| 0 <= k < at implies has_captured(#[trigger] lanes@[k]) by {
                assert(has_captured(all[k]));
            }
            assert forall|k: int| at < k < all.len() implies can_capture(#[trigger] lanes@[k]) by {
                assert(can_capture(all[k]));
            }
        }
        match progress {
            LaneProgress::Call(call) => {
                let capture = BucketCapture { lanes, at };
                CaptureStep::Call(capture, at, call)
            },
            LaneProgress::Done(Ok(())) => {
                assert(has_captured(after));
                assert(at < lanes.len());
                Self::go_on(lanes, at + 1)
            },
            LaneProgress::Done(Err(error)) => CaptureStep::Failed(
                Error::CaptureFailed { lane: at, cause: Box::new(error) },
            ),
        }
    }
}

/// A bucket of captured graphs is only created once every one of its lanes has captured.
pub proof fn buckets_are_captured_whole<
    I: TensorElement,
    O: TensorElement,
    const INPUTS: usize,
    const OUTPUTS: usize,
>(
    capture: BucketCapture<I, O, INPUTS, OUTPUTS>,
    reply: Result<(), Error>,
    lanes: Vec<ServingLane<I, O, INPUTS, OUTPUTS>>,
)
    requires
        capture.wf(),
        capture.answered(reply, CaptureStep::Captured(lanes)),
    ensures
        lanes@.len() == capture.members().len(),
        forall|k: int| 0 <= k < lanes@.len() ==> has_captured(#[trigger] lanes@[k]),
{
    let at = capture.running();
    let before = capture.members()[at];
    let (after, progress) = choose|
        after: ServingLane<I, O, INPUTS, OUTPUTS>,
        progress: LaneProgress,
    |
        #[trigger] before.progressed(
            before.lane_state().spec_advance(reply is Ok),
            before.failure_after(reply),
            after,
            progress,
        ) && match progress {
            LaneProgress::Done(Ok(())) => BucketCapture::<I, O, INPUTS, OUTPUTS>::goes_on(
                CaptureStep::Captured(lanes),
                capture.members().update(at, after),
                at + 1,
            ),
            _ => false,
        };
    lemma_leads_on(
        before.lane_state(),
        reply is Ok,
        before.pending_failure(),
        before.failure_after(reply),
    );
    assert(lanes@ == capture.members().update(at, after));
    assert forall|k: int| 0 <= k < lanes@.len() implies has_captured(#[trigger] lanes@[k]) by {
        if k < at {
            assert(has_captured(capture.members()[k]));
        }
    }
}

/// A capture that goes on has the same number of lanes, and is sound.
pub(crate) proof fn lemma_capture_keeps_lanes<
    I: TensorElement,
    O: TensorElement,
    const INPUTS: usize,
    const OUTPUTS: usize,
>(
    capture: BucketCapture<I, O, INPUTS, OUTPUTS>,
    reply: Result<(), Error>,
    next: BucketCapture<I, O, INPUTS, OUTPUTS>,
    lane: usize,
    call: LaneCall,
)
    requires
        capture.wf(),
        capture.answered(reply, CaptureStep::Call(next, lane, call)),
    ensures
        next.wf(),
        next.members().len() == capture.members().len(),
{
}

impl<I: TensorElement, O: TensorElement, const INPUTS: usize, const OUTPUTS: usize> DynamicIoRuntime<
    I,
    O,
    INPUTS,
    OUTPUTS,
> {
    /// `annotated` is what comes of giving the lanes of a new bucket one annotation.
    pub open spec fn annotation_outcome(
        cuda_graph: bool,
        before: Seq<ServingLane<I, O, INPUTS, OUTPUTS>>,
        id: Result<i32, Error>,
        refused: Option<(usize, Error)>,
        annotated: Result<(Vec<ServingLane<I, O, INPUTS, OUTPUTS>>, Option<i32>), Error>,
    ) -> bool {
        if !cuda_graph {
            annotated matches Ok((lanes, None)) && lanes@ == before
        } else {
            match id {
                Err(error) => annotated == Err::<
                    (Vec<ServingLane<I, O, INPUTS, OUTPUTS>>, Option<i32>),
                    Error,
                >(error),
                Ok(id) => match StaticIoRuntime::<I, O, INPUTS, OUTPUTS>::assign_fault(
                    before,
                    before.len() as int,
                ) {
                    Some(error) => annotated == Err::<
                        (Vec<ServingLane<I, O, INPUTS, OUTPUTS>>, Option<i32>),
                        Error,
                    >(error),
                    None => match refused {
                        Some((_, error)) => annotated == Err::<
                            (Vec<ServingLane<I, O, INPUTS, OUTPUTS>>, Option<i32>),
                            Error,
                        >(error),
                        None => {
                            &&& annotated matches Ok((lanes, Some(graph_id)))
                            &&& graph_id == id
                            &&& lanes@.len() == before.len()
                            &&& forall|k: int|
                                0 <= k < lanes@.len() ==> {
                                    &&& StaticIoRuntime::<I, O, INPUTS, OUTPUTS>::annotated(
                                        #[trigger] lanes@[k],
                                        before[k],
                                        id,
                                    )
                                    &&& can_capture(lanes@[k])
                                }
                        },
                    },
                },
            }
        }
    }

    /// Give the lanes of a new bucket one annotation, in a runtime of captured graphs. `id` is a
    /// fresh annotation, and `refused` is the first lane whose run options the engine did not take.
    pub fn annotate_lane_set(
        &self,
        set: StaticIoRuntime<I, O, INPUTS, OUTPUTS>,
        id: Result<i32, Error>,
        refused: Option<(usize, Error)>,
    ) -> (annotated: Result<(Vec<ServingLane<I, O, INPUTS, OUTPUTS>>, Option<i32>), Error>)
        requires
            set.wf(),
            refused matches Some((lane, _)) ==> lane < set.members().len(),
        ensures
            Self::annotation_outcome(
                self.spec_setup().options.cuda_graph,
                set.members(),
                id,
                refused,
                annotated,
            ),
    {
        let ghost before = set.members();
        if !self.options().cuda_graph {
            return Ok((set.into_lanes(), None));
        }
        let id: i32 = match id {
            Ok(id) => id,
            Err(error) => return Err(error),
        };
        let mut set = set;
        match set.set_gpu_graph_id(id, refused) {
            Err(error) => return Err(error),
            Ok(()) => {},
        }
        let lanes = set.into_lanes();
        proof {
            assert forall|k: int| 0 <= k < lanes@.len() implies {
                &&& StaticIoRuntime::<I, O, INPUTS, OUTPUTS>::annotated(
                    #[trigger] lanes@[k],
                    before[k],
                    id,
                )
                &&& can_capture(lanes@[k])
            } by {
                crate::runtime::static_io::annotation_is_all_or_nothing(before, k);
                assert(before[k].wf());
            }
        }
        Ok((lanes, Some(id)))
    }
}

} // verus!
