//! How a request comes to its bucket.
//!
//! A request that misses goes through fixed steps: room is made by an eviction, the lanes are built,
//! those of captured graphs are annotated and capture, and the bucket goes into the cache. Each
//! step says what the engine has to do before the next one.
use vstd::prelude::*;

use crate::element::TensorElement;
use crate::error::{Error, Fault};
use crate::runtime::capture::{BucketCapture, CaptureStep};
use crate::runtime::dynamic::{DynamicIoRuntime, Lookup, Retirement, RuntimeSetup};
use crate::runtime::lane::ServingLane;
use crate::runtime::lane_state::LaneCall;
use crate::runtime::static_io::{SetCalls, StaticIoRuntime};

verus! {

/// How far a request has come.
#[derive(Debug)]
pub enum Access<I: TensorElement, O: TensorElement, const INPUTS: usize, const OUTPUTS: usize> {
    /// It has its bucket.
    Ready(usize),
    /// It is refused.
    Failed(Error),
    /// The lanes of this bucket are to be waited for, as far as possible, before it is evicted.
    Evict(usize),
    /// These calls are to be made for these lanes.
    Build(StaticIoRuntime<I, O, INPUTS, OUTPUTS>, SetCalls),
    /// These lanes are to be annotated.
    Annotate(StaticIoRuntime<I, O, INPUTS, OUTPUTS>),
    /// This call of the capture of graphs, for this annotation, is to be made for this lane.
    Capture(BucketCapture<I, O, INPUTS, OUTPUTS>, i32, usize, LaneCall),
}

/// How far a request has come that has found this.
pub open spec fn placed<
    I: TensorElement,
    O: TensorElement,
    const INPUTS: usize,
    const OUTPUTS: usize,
>(result: Result<usize, Error>) -> Access<I, O, INPUTS, OUTPUTS> {
    match result {
        Ok(i) => Access::Ready(i),
        Err(error) => Access::Failed(error),
    }
}

/// The lanes are those of one bucket.
pub open spec fn set_fits<
    I: TensorElement,
    O: TensorElement,
    const INPUTS: usize,
    const OUTPUTS: usize,
>(setup: RuntimeSetup, set: StaticIoRuntime<I, O, INPUTS, OUTPUTS>) -> bool {
    set.wf() && set.members().len() == setup.lane_count
}

impl<I: TensorElement, O: TensorElement, const INPUTS: usize, const OUTPUTS: usize> DynamicIoRuntime<
    I,
    O,
    INPUTS,
    OUTPUTS,
> {
    /// There is room for a bucket for these shapes, and none as yet.
    pub open spec fn room_for(self, inputs: Seq<Seq<i64>>, outputs: Seq<Seq<i64>>) -> bool {
        &&& self.wf()
        &&& !self@.has_bucket(inputs, outputs)
        &&& self@.buckets.len() < self.spec_setup().options.max_buckets
    }

    /// The runtime is as a request that has come so far leaves it.
    pub open spec fn awaits(
        self,
        inputs: Seq<Seq<i64>>,
        outputs: Seq<Seq<i64>>,
        access: Access<I, O, INPUTS, OUTPUTS>,
    ) -> bool {
        &&& self.wf()
        &&& match access {
            Access::Ready(i) => self@.is_bucket(i as int, inputs, outputs),
            Access::Failed(_) => true,
            Access::Evict(victim) => !self@.has_bucket(inputs, outputs) && victim
                < self@.buckets.len(),
            Access::Build(set, _) => self.room_for(inputs, outputs) && set_fits(
                self.spec_setup(),
                set,
            ),
            Access::Annotate(set) => {
                &&& self.room_for(inputs, outputs)
                &&& set_fits(self.spec_setup(), set)
                &&& self.spec_setup().options.cuda_graph
            },
            Access::Capture(capture, _, _, _) => {
                &&& self.room_for(inputs, outputs)
                &&& capture.wf()
                &&& capture.members().len() == self.spec_setup().lane_count
                &&& self.spec_setup().options.cuda_graph
            },
        }
    }

    /// `access` is how far a request has come once its lanes are planned.
    pub open spec fn lanes_planned(
        setup: RuntimeSetup,
        inputs: Seq<Seq<i64>>,
        outputs: Seq<Seq<i64>>,
        access: Access<I, O, INPUTS, OUTPUTS>,
    ) -> bool {
        exists|
            built: Result<(StaticIoRuntime<I, O, INPUTS, OUTPUTS>, SetCalls), Error>,
            result: Result<(StaticIoRuntime<I, O, INPUTS, OUTPUTS>, SetCalls), Error>,
        |
            Self::lane_set_built(setup, built, inputs, outputs)
                && #[trigger] Self::rebinding_chosen(
                built,
                result,
                setup.options.rebind_inputs_each_run,
            ) && access == match result {
                Err(error) => Access::Failed(error),
                Ok((set, calls)) => Access::Build(set, calls),
            }
    }

    /// `access` is how far a request has come that has found this in the cache.
    pub open spec fn found(
        setup: RuntimeSetup,
        inputs: Seq<Seq<i64>>,
        outputs: Seq<Seq<i64>>,
        found: Result<Lookup, Error>,
        access: Access<I, O, INPUTS, OUTPUTS>,
    ) -> bool {
        match found {
            Err(error) => access == Access::<I, O, INPUTS, OUTPUTS>::Failed(error),
            Ok(Lookup::Hit(i)) => access == Access::<I, O, INPUTS, OUTPUTS>::Ready(i),
            Ok(Lookup::Miss(Some(victim))) => access == Access::<I, O, INPUTS, OUTPUTS>::Evict(
                victim,
            ),
            Ok(Lookup::Miss(None)) => Self::lanes_planned(setup, inputs, outputs, access),
        }
    }

    fn plan_lanes(&self, input_shapes: [&[i64]; INPUTS], output_shapes: [&[i64]; OUTPUTS]) -> (access:
        Access<I, O, INPUTS, OUTPUTS>)
        requires
            self.room_for(
                crate::shape::slice_shapes(input_shapes@),
                crate::shape::slice_shapes(output_shapes@),
            ),
        ensures
            Self::lanes_planned(
                self.spec_setup(),
                crate::shape::slice_shapes(input_shapes@),
                crate::shape::slice_shapes(output_shapes@),
                access,
            ),
            self.awaits(
                crate::shape::slice_shapes(input_shapes@),
                crate::shape::slice_shapes(output_shapes@),
                access,
            ),
    {
        let result = self.build_lane_set(input_shapes, output_shapes);
        let ghost inputs = crate::shape::slice_shapes(input_shapes@);
        let ghost outputs = crate::shape::slice_shapes(output_shapes@);
        let ghost built = choose|
            built: Result<(StaticIoRuntime<I, O, INPUTS, OUTPUTS>, SetCalls), Error>,
        |
            #[trigger] Self::lane_set_built(self.spec_setup(), built, inputs, outputs)
                && Self::rebinding_chosen(
                built,
                result,
                self.spec_setup().options.rebind_inputs_each_run,
            );
        proof {
            crate::runtime::dynamic::lemma_setup_fits(*self);
            assert(Self::rebinding_chosen(
                built,
                result,
                self.spec_setup().options.rebind_inputs_each_run,
            ));
        }
        match result {
            Err(error) => Access::Failed(error),
            Ok((set, calls)) => Access::Build(set, calls),
        }
    }

    /// Begin a request: its bucket, or what has to be done before it has one. The lanes of dropped
    /// runs are taken back first; those that no bucket took must be leaked.
    pub fn begin_access(
        &mut self,
        input_shapes: [&[i64]; INPUTS],
        output_shapes: [&[i64]; OUTPUTS],
        allow_create: bool,
    ) -> (result: (Vec<ServingLane<I, O, INPUTS, OUTPUTS>>, Access<I, O, INPUTS, OUTPUTS>))
        requires
            old(self).wf(),
        ensures
            final(self).same_frame(*old(self)),
            result.0@ == crate::runtime::dynamic::reclaim(
                old(self)@.buckets,
                old(self).handles(),
                old(self)@.waiting,
            ).leaked,
            exists|found: Result<Lookup, Error>|
                #[trigger] old(self)@.reclaimed(old(self).handles()).looked_up(
                    old(self).spec_setup(),
                    crate::shape::slice_shapes(input_shapes@),
                    crate::shape::slice_shapes(output_shapes@),
                    allow_create,
                    final(self)@,
                    found,
                ) && Self::found(
                    old(self).spec_setup(),
                    crate::shape::slice_shapes(input_shapes@),
                    crate::shape::slice_shapes(output_shapes@),
                    found,
                    result.1,
                ),
            final(self).awaits(
                crate::shape::slice_shapes(input_shapes@),
                crate::shape::slice_shapes(output_shapes@),
                result.1,
            ),
    {
        let (leaked, found) = self.lookup(input_shapes, output_shapes, allow_create);
        let ghost inputs = crate::shape::slice_shapes(input_shapes@);
        let ghost outputs = crate::shape::slice_shapes(output_shapes@);
        proof {
            crate::runtime::dynamic::cache_is_bounded(*self);
            let base = old(self)@.reclaimed(old(self).handles());
            assert(found matches Ok(Lookup::Miss(_)) ==> self@.buckets == base.buckets
                && !base.has_bucket(inputs, outputs));
            if found matches Ok(Lookup::Miss(_)) && self@.has_bucket(inputs, outputs) {
                let i = choose|i: int| #[trigger] self@.is_bucket(i, inputs, outputs);
                assert(base.is_bucket(i, inputs, outputs));
            }
        }
        let access: Access<I, O, INPUTS, OUTPUTS> = match found {
            Err(error) => Access::Failed(error),
            Ok(Lookup::Hit(i)) => {
                assert(self@.is_bucket(i as int, inputs, outputs));
                Access::Ready(i)
            },
            Ok(Lookup::Miss(Some(victim))) => Access::Evict(victim),
            Ok(Lookup::Miss(None)) => self.plan_lanes(input_shapes, output_shapes),
        };
        proof {
            assert(Self::found(old(self).spec_setup(), inputs, outputs, found, access));
        }
        (leaked, access)
    }

    /// Make room by evicting a bucket whose lanes were waited for, as far as possible, and plan the
    /// lanes. What becomes of the bucket is to be seen to by the caller.
    pub fn evict_for(
        &mut self,
        victim: usize,
        input_shapes: [&[i64]; INPUTS],
        output_shapes: [&[i64]; OUTPUTS],
    ) -> (result: (Retirement<I, O, INPUTS, OUTPUTS>, Access<I, O, INPUTS, OUTPUTS>))
        requires
            old(self).awaits(
                crate::shape::slice_shapes(input_shapes@),
                crate::shape::slice_shapes(output_shapes@),
                Access::Evict(victim),
            ),
        ensures
            final(self).spec_setup() == old(self).spec_setup(),
            old(self).retired_at(victim as int, *final(self), result.0),
            match result.0 {
                Retirement::Refused => result.1 == Access::<I, O, INPUTS, OUTPUTS>::Failed(
                    Error::Fault(Fault::EvictionRefused),
                ),
                _ => Self::lanes_planned(
                    old(self).spec_setup(),
                    crate::shape::slice_shapes(input_shapes@),
                    crate::shape::slice_shapes(output_shapes@),
                    result.1,
                ),
            },
            final(self).awaits(
                crate::shape::slice_shapes(input_shapes@),
                crate::shape::slice_shapes(output_shapes@),
                result.1,
            ),
    {
        let ghost inputs = crate::shape::slice_shapes(input_shapes@);
        let ghost outputs = crate::shape::slice_shapes(output_shapes@);
        proof {
            crate::runtime::dynamic::cache_is_bounded(*self);
        }
        let retirement = self.retire_bucket_at(victim);
        if let Err(error) = retirement.evicted() {
            return (retirement, Access::Failed(error));
        }
        proof {
            if self@.has_bucket(inputs, outputs) {
                let i = choose|i: int| #[trigger] self@.is_bucket(i, inputs, outputs);
                let from = if i == victim { old(self)@.buckets.len() - 1 } else { i };
                assert(self@.buckets[i] == old(self)@.buckets[from]);
                assert(old(self)@.is_bucket(from, inputs, outputs));
            }
        }
        let access = self.plan_lanes(input_shapes, output_shapes);
        (retirement, access)
    }

    fn place_lanes(
        &mut self,
        input_shapes: [&[i64]; INPUTS],
        output_shapes: [&[i64]; OUTPUTS],
        lanes: Vec<ServingLane<I, O, INPUTS, OUTPUTS>>,
        graph_id: Option<i32>,
    ) -> (access: Access<I, O, INPUTS, OUTPUTS>)
        requires
            old(self).room_for(
                crate::shape::slice_shapes(input_shapes@),
                crate::shape::slice_shapes(output_shapes@),
            ),
            Self::lanes_ready(old(self).spec_setup(), lanes@, graph_id),
        ensures
            final(self).spec_setup() == old(self).spec_setup(),
            exists|result: Result<usize, Error>|
                #[trigger] old(self).installed(
                    crate::shape::slice_shapes(input_shapes@),
                    crate::shape::slice_shapes(output_shapes@),
                    lanes@,
                    graph_id,
                    *final(self),
                    result,
                ) && access == placed::<I, O, INPUTS, OUTPUTS>(result),
            final(self).awaits(
                crate::shape::slice_shapes(input_shapes@),
                crate::shape::slice_shapes(output_shapes@),
                access,
            ),
    {
        let result = self.install_bucket(input_shapes, output_shapes, lanes, graph_id);
        match result {
            Ok(i) => {
                assert(self@.is_bucket(
                    i as int,
                    crate::shape::slice_shapes(input_shapes@),
                    crate::shape::slice_shapes(output_shapes@),
                ));
                Access::Ready(i)
            },
            Err(error) => Access::Failed(error),
        }
    }

    /// The engine's answer to building the lanes. Those of captured graphs are annotated; others
    /// serve at once.
    pub fn lanes_built(
        &mut self,
        input_shapes: [&[i64]; INPUTS],
        output_shapes: [&[i64]; OUTPUTS],
        set: StaticIoRuntime<I, O, INPUTS, OUTPUTS>,
        reply: Result<(), Error>,
    ) -> (access: Access<I, O, INPUTS, OUTPUTS>)
        requires
            old(self).room_for(
                crate::shape::slice_shapes(input_shapes@),
                crate::shape::slice_shapes(output_shapes@),
            ),
            set_fits(old(self).spec_setup(), set),
        ensures
            final(self).spec_setup() == old(self).spec_setup(),
            match reply {
                Err(error) => access == Access::<I, O, INPUTS, OUTPUTS>::Failed(error)
                    && *final(self) == *old(self),
                Ok(()) => if old(self).spec_setup().options.cuda_graph {
                    access == Access::Annotate(set) && *final(self) == *old(self)
                } else {
                    exists|result: Result<usize, Error>|
                        #[trigger] old(self).installed(
                            crate::shape::slice_shapes(input_shapes@),
                            crate::shape::slice_shapes(output_shapes@),
                            set.members(),
                            None,
                            *final(self),
                            result,
                        ) && access == placed::<I, O, INPUTS, OUTPUTS>(result)
                },
            },
            final(self).awaits(
                crate::shape::slice_shapes(input_shapes@),
                crate::shape::slice_shapes(output_shapes@),
                access,
            ),
    {
        if let Err(error) = reply {
            return Access::Failed(error);
        }
        if self.options().cuda_graph {
            return Access::Annotate(set);
        }
        self.place_lanes(input_shapes, output_shapes, set.into_lanes(), None)
    }

    /// `access` is how far a request has come whose lanes begin to capture.
    pub open spec fn capture_begun(
        lanes: Seq<ServingLane<I, O, INPUTS, OUTPUTS>>,
        graph_id: i32,
        access: Access<I, O, INPUTS, OUTPUTS>,
    ) -> bool {
        &&& access matches Access::Capture(capture, id, lane, call)
        &&& id == graph_id
        &&& BucketCapture::goes_on(CaptureStep::Call(capture, lane, call), lanes, 0)
    }

    /// Annotate the lanes of a bucket of captured graphs, and begin to capture. `id` is a fresh
    /// annotation, and `refused` is the first lane whose run options the engine did not take.
    pub fn annotate_lanes(
        &self,
        set: StaticIoRuntime<I, O, INPUTS, OUTPUTS>,
        id: Result<i32, Error>,
        refused: Option<(usize, Error)>,
    ) -> (access: Access<I, O, INPUTS, OUTPUTS>)
        requires
            self.wf(),
            set_fits(self.spec_setup(), set),
            self.spec_setup().options.cuda_graph,
            refused matches Some((lane, _)) ==> lane < set.members().len(),
        ensures
            exists|
                annotated: Result<(Vec<ServingLane<I, O, INPUTS, OUTPUTS>>, Option<i32>), Error>,
            |
                #[trigger] Self::annotation_outcome(true, set.members(), id, refused, annotated)
                    && match annotated {
                    Err(error) => access == Access::<I, O, INPUTS, OUTPUTS>::Failed(error),
                    Ok((lanes, graph_id)) => graph_id matches Some(graph_id)
                        && Self::capture_begun(lanes@, graph_id, access),
                },
            forall|inputs: Seq<Seq<i64>>, outputs: Seq<Seq<i64>>|
                self.room_for(inputs, outputs) ==> #[trigger] self.awaits(inputs, outputs, access),
    {
        proof {
            crate::runtime::dynamic::lemma_setup_fits(*self);
        }
        let ghost before = set.members();
        let annotated = self.annotate_lane_set(set, id, refused);
        let ghost outcome = annotated;
        assert(Self::annotation_outcome(true, before, id, refused, outcome));
        match annotated {
            Err(error) => Access::Failed(error),
            Ok((lanes, graph_id)) => {
                let graph_id: i32 = match graph_id {
                    Some(graph_id) => graph_id,
                    None => 0,
                };
                proof {
                    assert forall|k: int| 0 <= k < lanes@.len() implies
                        crate::runtime::capture::can_capture(#[trigger] lanes@[k]) by {
                        assert(StaticIoRuntime::<I, O, INPUTS, OUTPUTS>::annotated(
                            lanes@[k],
                            before[k],
                            graph_id,
                        ));
                    }
                }
                match BucketCapture::begin(lanes) {
                    CaptureStep::Call(capture, lane, call) => Access::Capture(
                        capture,
                        graph_id,
                        lane,
                        call,
                    ),
                    CaptureStep::Failed(error) => Access::Failed(error),
                    CaptureStep::Captured(_) => Access::Failed(
                        Error::Fault(Fault::StaticWithoutLanes),
                    ),
                }
            },
        }
    }

    /// The answer to the last call of the capture of graphs. Once every lane has captured, the
    /// bucket goes into the cache.
    pub fn capture_answered(
        &mut self,
        input_shapes: [&[i64]; INPUTS],
        output_shapes: [&[i64]; OUTPUTS],
        capture: BucketCapture<I, O, INPUTS, OUTPUTS>,
        graph_id: i32,
        reply: Result<(), Error>,
    ) -> (access: Access<I, O, INPUTS, OUTPUTS>)
        requires
            old(self).room_for(
                crate::shape::slice_shapes(input_shapes@),
                crate::shape::slice_shapes(output_shapes@),
            ),
            old(self).spec_setup().options.cuda_graph,
            capture.wf(),
            capture.members().len() == old(self).spec_setup().lane_count,
        ensures
            final(self).spec_setup() == old(self).spec_setup(),
            exists|step: CaptureStep<I, O, INPUTS, OUTPUTS>|
                #[trigger] capture.answered(reply, step) && match step {
                    CaptureStep::Call(next, lane, call) => access == Access::Capture(
                        next,
                        graph_id,
                        lane,
                        call,
                    ) && *final(self) == *old(self),
                    CaptureStep::Failed(error) => access == Access::<
                        I,
                        O,
                        INPUTS,
                        OUTPUTS,
                    >::Failed(error) && *final(self) == *old(self),
                    CaptureStep::Captured(lanes) => exists|result: Result<usize, Error>|
                        #[trigger] old(self).installed(
                            crate::shape::slice_shapes(input_shapes@),
                            crate::shape::slice_shapes(output_shapes@),
                            lanes@,
                            Some(graph_id),
                            *final(self),
                            result,
                        ) && access == placed::<I, O, INPUTS, OUTPUTS>(result),
                },
            final(self).awaits(
                crate::shape::slice_shapes(input_shapes@),
                crate::shape::slice_shapes(output_shapes@),
                access,
            ),
    {
        let ghost before = capture;
        let step = capture.answer(reply);
        let ghost answered = step;
        assert(before.answered(reply, answered));
        match step {
            CaptureStep::Call(next, lane, call) => {
                proof {
                    crate::runtime::capture::lemma_capture_keeps_lanes(
                        before,
                        reply,
                        next,
                        lane,
                        call,
                    );
                }
                Access::Capture(next, graph_id, lane, call)
            },
            CaptureStep::Failed(error) => Access::Failed(error),
            CaptureStep::Captured(lanes) => {
                proof {
                    crate::runtime::capture::buckets_are_captured_whole(before, reply, lanes);
                    assert forall|k: int| 0 <= k < lanes@.len() implies (#[trigger] lanes@[k]).wf()
                        && lanes@[k].at_rest() && lanes@[k].lane_state().graph_captured by {
                        assert(crate::runtime::capture::has_captured(lanes@[k]));
                    }
                }
                self.place_lanes(input_shapes, output_shapes, lanes, Some(graph_id))
            },
        }
    }
}

} // verus!
