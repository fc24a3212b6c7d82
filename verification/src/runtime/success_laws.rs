//! Where the operations of a runtime succeed.
use vstd::prelude::*;

use crate::element::TensorElement;
use crate::error::{Error, Fault};
use crate::memory::MemoryInfo;
use crate::runtime::access::Access;
use crate::runtime::audit::LaneHotPathAudit;
use crate::runtime::capture::{BucketCapture, CaptureStep};
use crate::runtime::dynamic::{
    DynamicIoRuntime, DynamicSessions, Lookup, RuntimeSetup, RuntimeView,
};
use crate::runtime::host_lane::{Lane, Runtime};
use crate::runtime::lane::{LaneRecipe, Placement, ServingLane};
use crate::runtime::lane_state::{LaneCall, RunMode};
use crate::runtime::options::{CudaStream, DynamicIoOptions, RuntimeMode};
use crate::runtime::owned_run::{Disposal, PreparedBucketId};
use crate::runtime::static_io::{LaneAddresses, LaneStreams, SetCalls, StaticIoRuntime};
use crate::session::session::Session;
use crate::tensor::buffer::{BufferReplies, BufferSpec, TensorBuffer};

verus! {

/// A lane is placed exactly where it can be built and, on a device, where it has a stream of that device that
/// its session keeps.
pub proof fn lanes_are_placed_where_they_fit<
    I: TensorElement,
    O: TensorElement,
    const INPUTS: usize,
    const OUTPUTS: usize,
>(
    session: Session,
    recipe: LaneRecipe,
    stream: Option<CudaStream>,
    input_shapes: Seq<Seq<i64>>,
    output_shapes: Seq<Seq<i64>>,
)
    ensures
        ServingLane::<I, O, INPUTS, OUTPUTS>::place_fault(
            session,
            recipe,
            stream,
            input_shapes,
            output_shapes,
        ) is None <==> {
            &&& ServingLane::<I, O, INPUTS, OUTPUTS>::build_fault(
                session,
                *recipe.input_memory,
                *recipe.output_memory,
                input_shapes,
                output_shapes,
                recipe.staging_policy(),
                recipe.output_policy,
            ) is None
            &&& match recipe.placement {
                Placement::Host => true,
                Placement::DeviceInputs(id) | Placement::DeviceIo(id) => stream is Some
                    && stream->Some_0.device_id == id && session.streams().contains(stream->Some_0),
            }
        },
{
}

/// A set is built exactly where it has a lane and each of its lanes can be placed on its session and stream,
/// of which there must be one each where they are not shared.
pub proof fn sets_are_built_where_they_fit<
    I: TensorElement,
    O: TensorElement,
    const INPUTS: usize,
    const OUTPUTS: usize,
>(
    shared: Result<(StaticIoRuntime<I, O, INPUTS, OUTPUTS>, SetCalls), Error>,
    replicated: Result<(StaticIoRuntime<I, O, INPUTS, OUTPUTS>, SetCalls), Error>,
    session: Session,
    sessions: Seq<Session>,
    count: int,
    streams: LaneStreams,
    recipe: LaneRecipe,
    input_shapes: Seq<Seq<i64>>,
    output_shapes: Seq<Seq<i64>>,
)
    requires
        0 <= count,
        StaticIoRuntime::shared_outcome(
            shared,
            session,
            count,
            streams,
            recipe,
            input_shapes,
            output_shapes,
        ),
        StaticIoRuntime::replicated_outcome(
            replicated,
            sessions,
            streams,
            recipe,
            input_shapes,
            output_shapes,
        ),
    ensures
        shared is Ok <==> count > 0 && forall|k: int|
            0 <= k < count ==> ServingLane::<I, O, INPUTS, OUTPUTS>::place_fault(
                session,
                recipe,
                #[trigger] streams.at(k),
                input_shapes,
                output_shapes,
            ) is None,
        replicated is Ok <==> {
            &&& sessions.len() > 0
            &&& streams matches LaneStreams::PerLane(own) ==> own@.len() == sessions.len()
            &&& forall|k: int|
                0 <= k < sessions.len() ==> ServingLane::<I, O, INPUTS, OUTPUTS>::place_fault(
                    sessions[k],
                    recipe,
                    #[trigger] streams.at(k),
                    input_shapes,
                    output_shapes,
                ) is None
        },
        shared matches Ok((set, _)) ==> set.arrangement() == RuntimeMode::SharedSession,
        replicated matches Ok((set, _)) ==> set.arrangement() == RuntimeMode::ReplicatedSessions,
{
    crate::runtime::set_laws::sets_are_built_where_every_lane_is::<I, O, INPUTS, OUTPUTS>(
        seq![session],
        RuntimeMode::SharedSession,
        streams,
        recipe,
        input_shapes,
        output_shapes,
        count,
    );
    crate::runtime::set_laws::sets_are_built_where_every_lane_is::<I, O, INPUTS, OUTPUTS>(
        sessions,
        RuntimeMode::ReplicatedSessions,
        streams,
        recipe,
        input_shapes,
        output_shapes,
        sessions.len() as int,
    );
}

/// A host set is built exactly where it has a lane and each of its lanes can be built on its session.
pub proof fn host_sets_are_built_where_they_fit<T: TensorElement>(
    result: Result<(Runtime<T>, SetCalls), Error>,
    sessions: Seq<Session>,
    mode: RuntimeMode,
    count: int,
    memory: MemoryInfo,
    input_shapes: Seq<Seq<i64>>,
    output_shapes: Seq<Seq<i64>>,
    policy: BufferSpec,
)
    requires
        Runtime::<T>::set_outcome(
            result,
            sessions,
            mode,
            count,
            memory,
            input_shapes,
            output_shapes,
            policy,
        ),
        0 <= count,
        mode is ReplicatedSessions ==> count == sessions.len(),
    ensures
        result is Ok <==> count > 0 && forall|k: int|
            0 <= k < count ==> #[trigger] host_lane_fits::<T>(
                sessions,
                mode,
                memory,
                input_shapes,
                output_shapes,
                policy,
                k,
            ),
        result matches Ok((set, _)) ==> set.arrangement() == mode,
{
    lemma_host_set::<T>(sessions, mode, memory, input_shapes, output_shapes, policy, count);
}

/// Lane `k` of a host set can be built on its session.
pub open spec fn host_lane_fits<T: TensorElement>(
    sessions: Seq<Session>,
    mode: RuntimeMode,
    memory: MemoryInfo,
    input_shapes: Seq<Seq<i64>>,
    output_shapes: Seq<Seq<i64>>,
    policy: BufferSpec,
    k: int,
) -> bool {
    Lane::<T>::build_fault(
        if mode is ReplicatedSessions {
            sessions[k]
        } else {
            sessions[0]
        },
        memory,
        input_shapes,
        output_shapes,
        policy,
    ) is None
}

proof fn lemma_host_set<T: TensorElement>(
    sessions: Seq<Session>,
    mode: RuntimeMode,
    memory: MemoryInfo,
    input_shapes: Seq<Seq<i64>>,
    output_shapes: Seq<Seq<i64>>,
    policy: BufferSpec,
    n: int,
)
    requires
        0 <= n,
        mode is ReplicatedSessions ==> n <= sessions.len(),
    ensures
        Runtime::<T>::set_fault(sessions, mode, memory, input_shapes, output_shapes, policy, n) is None
            <==> forall|k: int|
            0 <= k < n ==> #[trigger] host_lane_fits::<T>(
                sessions,
                mode,
                memory,
                input_shapes,
                output_shapes,
                policy,
                k,
            ),
    decreases n,
{
    if n > 0 {
        let last: int = n - 1;
        lemma_host_set::<T>(sessions, mode, memory, input_shapes, output_shapes, policy, last);
        let rest = Runtime::<T>::set_fault(
            sessions,
            mode,
            memory,
            input_shapes,
            output_shapes,
            policy,
            last,
        );
        let fault = Runtime::<T>::set_fault(
            sessions,
            mode,
            memory,
            input_shapes,
            output_shapes,
            policy,
            n,
        );
        assert(fault is None <==> rest is None && host_lane_fits::<T>(
            sessions,
            mode,
            memory,
            input_shapes,
            output_shapes,
            policy,
            last,
        ));
        if fault is None {
            assert forall|k: int| 0 <= k < n implies #[trigger] host_lane_fits::<T>(
                sessions,
                mode,
                memory,
                input_shapes,
                output_shapes,
                policy,
                k,
            ) by {
                assert(k == last || k < last);
            }
        } else if rest is Some {
            let k = choose|k: int|
                0 <= k < last && !#[trigger] host_lane_fits::<T>(
                    sessions,
                    mode,
                    memory,
                    input_shapes,
                    output_shapes,
                    policy,
                    k,
                );
            assert(0 <= k < n && !host_lane_fits::<T>(
                sessions,
                mode,
                memory,
                input_shapes,
                output_shapes,
                policy,
                k,
            ));
        }
    }
}

/// A set of sessions that a factory makes is built on all of them, and fails as the factory does.
pub proof fn factories_serve_every_lane<T: TensorElement>(
    result: Result<(Runtime<T>, SetCalls), Error>,
    lanes: usize,
    made: Result<Vec<Session>, Error>,
    memory: MemoryInfo,
    input_shapes: Seq<Seq<i64>>,
    output_shapes: Seq<Seq<i64>>,
    policy: BufferSpec,
)
    requires
        Runtime::<T>::factory_outcome(
            result,
            lanes,
            made,
            memory,
            input_shapes,
            output_shapes,
            policy,
        ),
    ensures
        lanes == 0 ==> result is Err,
        lanes > 0 ==> (made matches Err(error) ==> result == Err::<(Runtime<T>, SetCalls), Error>(error)),
        lanes > 0 ==> (made matches Ok(sessions) ==> (result is Ok <==> sessions@.len() > 0 && forall|k: int|
            0 <= k < sessions@.len() ==> Lane::<T>::build_fault(
                #[trigger] sessions@[k],
                memory,
                input_shapes,
                output_shapes,
                policy,
            ) is None)),
        result matches Ok((set, _)) ==> set.members().len() == made->Ok_0@.len() && set.arrangement()
            == RuntimeMode::ReplicatedSessions,
{
    if lanes > 0 && made is Ok {
        let sessions = made->Ok_0@;
        let mode = RuntimeMode::ReplicatedSessions;
        let count = sessions.len() as int;
        lemma_host_set::<T>(sessions, mode, memory, input_shapes, output_shapes, policy, count);
        if forall|k: int|
            0 <= k < sessions.len() ==> Lane::<T>::build_fault(
                #[trigger] sessions[k],
                memory,
                input_shapes,
                output_shapes,
                policy,
            ) is None {
            assert forall|k: int| 0 <= k < count implies #[trigger] host_lane_fits::<T>(
                sessions,
                mode,
                memory,
                input_shapes,
                output_shapes,
                policy,
                k,
            ) by {
                assert(Lane::<T>::build_fault(
                    sessions[k],
                    memory,
                    input_shapes,
                    output_shapes,
                    policy,
                ) is None);
            }
        } else {
            let k = choose|k: int|
                0 <= k < sessions.len() && Lane::<T>::build_fault(
                    #[trigger] sessions[k],
                    memory,
                    input_shapes,
                    output_shapes,
                    policy,
                ) is Some;
            assert(!host_lane_fits::<T>(
                sessions,
                mode,
                memory,
                input_shapes,
                output_shapes,
                policy,
                k,
            ));
        }
    }
}

/// The host lanes of a bucket are built wherever each of them can be.
pub proof fn host_buckets_are_built_where_they_fit<
    I: TensorElement,
    O: TensorElement,
    const INPUTS: usize,
    const OUTPUTS: usize,
>(
    setup: RuntimeSetup,
    built: Result<(StaticIoRuntime<I, O, INPUTS, OUTPUTS>, SetCalls), Error>,
    session: Session,
    inputs: Seq<Seq<i64>>,
    outputs: Seq<Seq<i64>>,
)
    requires
        DynamicIoRuntime::lane_set_built(setup, built, inputs, outputs),
        setup.sessions == DynamicSessions::Shared(session),
        setup.lane_count > 0,
        setup.options.device_id is None,
    ensures
        built is Ok <==> ServingLane::<I, O, INPUTS, OUTPUTS>::build_fault(
            session,
            setup.input_memory,
            setup.output_memory,
            inputs,
            outputs,
            setup.options.input_policy,
            setup.options.output_policy,
        ) is None,
{
    let recipe = LaneRecipe {
        input_memory: &setup.input_memory,
        output_memory: &setup.output_memory,
        input_policy: setup.options.input_policy,
        output_policy: setup.options.output_policy,
        placement: Placement::Host,
    };
    let count = setup.lane_count as int;
    crate::runtime::set_laws::sets_are_built_where_every_lane_is::<I, O, INPUTS, OUTPUTS>(
        seq![session],
        RuntimeMode::SharedSession,
        LaneStreams::Unused,
        recipe,
        inputs,
        outputs,
        count,
    );
    crate::runtime::build_laws::recipes_place_as_they_say(recipe);
    let first = LaneStreams::Unused.at(0);
    lanes_are_placed_where_they_fit::<I, O, INPUTS, OUTPUTS>(session, recipe, first, inputs, outputs);
    if built is Err {
        let k = choose|k: int|
            0 <= k < count && ServingLane::<I, O, INPUTS, OUTPUTS>::place_fault(
                session,
                recipe,
                #[trigger] LaneStreams::Unused.at(k),
                inputs,
                outputs,
            ) is Some;
        assert(LaneStreams::Unused.at(k) == first);
    }
}

/// The device lanes of a bucket are built wherever each of them can be and the session keeps the stream that
/// the options name.
pub proof fn device_buckets_are_built_where_they_fit<
    I: TensorElement,
    O: TensorElement,
    const INPUTS: usize,
    const OUTPUTS: usize,
>(
    setup: RuntimeSetup,
    built: Result<(StaticIoRuntime<I, O, INPUTS, OUTPUTS>, SetCalls), Error>,
    session: Session,
    stream: CudaStream,
    inputs: Seq<Seq<i64>>,
    outputs: Seq<Seq<i64>>,
)
    requires
        DynamicIoRuntime::lane_set_built(setup, built, inputs, outputs),
        setup.sessions == DynamicSessions::Shared(session),
        setup.lane_count > 0,
        setup.options.device_id == Some(stream.device_id),
        setup.options.stream == Some(stream),
        !setup.options.device_outputs,
    ensures
        built is Ok <==> session.streams().contains(stream) && ServingLane::<
            I,
            O,
            INPUTS,
            OUTPUTS,
        >::build_fault(
            session,
            setup.input_memory,
            setup.output_memory,
            inputs,
            outputs,
            setup.options.input_policy.spec_or_if_auto(BufferSpec::CudaPinned),
            setup.options.output_policy,
        ) is None,
{
    let recipe = LaneRecipe {
        input_memory: &setup.input_memory,
        output_memory: &setup.output_memory,
        input_policy: setup.options.input_policy,
        output_policy: setup.options.output_policy,
        placement: Placement::DeviceInputs(stream.device_id),
    };
    let streams = LaneStreams::Shared(stream);
    let count = setup.lane_count as int;
    crate::runtime::set_laws::sets_are_built_where_every_lane_is::<I, O, INPUTS, OUTPUTS>(
        seq![session],
        RuntimeMode::SharedSession,
        streams,
        recipe,
        inputs,
        outputs,
        count,
    );
    crate::runtime::build_laws::recipes_place_as_they_say(recipe);
    crate::memory_laws::chosen_policies_are_kept(setup.options.input_policy, BufferSpec::CudaPinned);
    let first = streams.at(0);
    lanes_are_placed_where_they_fit::<I, O, INPUTS, OUTPUTS>(session, recipe, first, inputs, outputs);
    if built is Err {
        let k = choose|k: int|
            0 <= k < count && ServingLane::<I, O, INPUTS, OUTPUTS>::place_fault(
                session,
                recipe,
                #[trigger] streams.at(k),
                inputs,
                outputs,
            ) is Some;
        assert(streams.at(k) == first);
    }
}

/// Choosing whether to rebind fails exactly where building failed, and with the same error.
pub proof fn rebinding_never_fails_by_itself<
    I: TensorElement,
    O: TensorElement,
    const INPUTS: usize,
    const OUTPUTS: usize,
>(
    built: Result<(StaticIoRuntime<I, O, INPUTS, OUTPUTS>, SetCalls), Error>,
    result: Result<(StaticIoRuntime<I, O, INPUTS, OUTPUTS>, SetCalls), Error>,
    enabled: bool,
)
    requires
        DynamicIoRuntime::rebinding_chosen(built, result, enabled),
    ensures
        result is Ok <==> built is Ok,
        built is Err ==> result->Err_0 == built->Err_0,
{
}

/// New lanes get their bucket wherever there is a handle left for it and places for its lanes to come back to.
pub proof fn new_buckets_are_installed_where_there_is_room<
    I: TensorElement,
    O: TensorElement,
    const INPUTS: usize,
    const OUTPUTS: usize,
>(
    before: DynamicIoRuntime<I, O, INPUTS, OUTPUTS>,
    inputs: Seq<Seq<i64>>,
    outputs: Seq<Seq<i64>>,
    lanes: Seq<ServingLane<I, O, INPUTS, OUTPUTS>>,
    graph_id: Option<i32>,
    after: DynamicIoRuntime<I, O, INPUTS, OUTPUTS>,
    result: Result<usize, Error>,
)
    requires
        before.installed(inputs, outputs, lanes, graph_id, after, result),
    ensures
        result is Ok <==> before.handles().next_id() is Some && before.handles().next_id()->Some_0.slot
            * before.spec_setup().lane_count + before.spec_setup().lane_count <= usize::MAX,
        result is Err ==> after@.buckets == before@.buckets && after@.retired == before@.retired,
        before.handles().next_id() is None ==> result == Err::<usize, Error>(
            Error::Fault(Fault::SlotSpaceExhausted),
        ),
{
}

/// A lane is taken back exactly where the bucket that its handle names misses one.
pub proof fn lanes_are_taken_back_where_one_is_missing<
    I: TensorElement,
    O: TensorElement,
    const INPUTS: usize,
    const OUTPUTS: usize,
>(
    before: DynamicIoRuntime<I, O, INPUTS, OUTPUTS>,
    id: PreparedBucketId,
    lane: ServingLane<I, O, INPUTS, OUTPUTS>,
    after: DynamicIoRuntime<I, O, INPUTS, OUTPUTS>,
    result: Result<(), (Error, Disposal<ServingLane<I, O, INPUTS, OUTPUTS>>)>,
    i: int,
)
    requires
        before.wf(),
        before.lane_returned(id, lane, after, result),
        0 <= i < before@.buckets.len(),
        before@.buckets[i].id == id,
    ensures
        result is Ok <==> before@.buckets[i].detached > 0 && before@.buckets[i].lanes.len()
            < before.spec_setup().lane_count,
        result matches Err((error, disposal)) ==> error == Error::Fault(Fault::LaneAccountingInconsistent)
            && disposal == Disposal::Leak(lane),
{
    crate::runtime::dynamic::handles_name_their_buckets(before, id, i);
    crate::runtime::dynamic::cache_is_bounded(before);
}

/// A run starts exactly where the lane is idle and can make such a run.
pub proof fn idle_lanes_start<
    I: TensorElement,
    O: TensorElement,
    const INPUTS: usize,
    const OUTPUTS: usize,
>(
    before: ServingLane<I, O, INPUTS, OUTPUTS>,
    mode: RunMode,
    after: ServingLane<I, O, INPUTS, OUTPUTS>,
    result: Result<LaneCall, Error>,
)
    requires
        before.started(mode, after, result),
    ensures
        result is Ok <==> {
            let lane = before.lane_state();
            &&& !lane.in_flight
            &&& mode is EventProfiled ==> lane.device_inputs && lane.graph_id is Some
            &&& mode is Unsynchronized ==> !lane.device_inputs && lane.graph_id is None
        },
        before.lane_state().in_flight ==> result == Err::<LaneCall, Error>(
            Error::Fault(Fault::LaneInFlight),
        ),
{
}

/// A runtime is made exactly where its options can be served. It then has no bucket, and what it was given.
pub proof fn runtimes_start_empty<
    I: TensorElement,
    O: TensorElement,
    const INPUTS: usize,
    const OUTPUTS: usize,
>(
    result: Result<DynamicIoRuntime<I, O, INPUTS, OUTPUTS>, Error>,
    sessions: DynamicSessions,
    lanes: usize,
    input_memory: MemoryInfo,
    output_memory: MemoryInfo,
    options: DynamicIoOptions,
)
    requires
        DynamicIoRuntime::made(result, sessions, lanes, input_memory, output_memory, options),
    ensures
        result is Ok <==> {
            &&& lanes > 0
            &&& options.fault() is None
            &&& options.mode_fault(
                if sessions is Shared {
                    RuntimeMode::SharedSession
                } else {
                    RuntimeMode::ReplicatedSessions
                },
                lanes,
            ) is None
            &&& options.max_buckets * lanes <= usize::MAX
        },
        result matches Ok(runtime) ==> {
            &&& runtime@.buckets.len() == 0
            &&& runtime@.retired.len() == 0
            &&& runtime@.waiting.len() == 0
            &&& runtime.spec_setup().sessions == sessions
            &&& runtime.spec_setup().lane_count == lanes
            &&& runtime.spec_setup().input_memory == input_memory
            &&& runtime.spec_setup().output_memory == output_memory
            &&& runtime.spec_setup().options == options
            &&& runtime.spec_setup().shape_plan is None
        },
{
}

/// Where graphs are captured, a request that has no bucket is refused only for a bucket that is not quiet or
/// for want of room.
pub proof fn graph_misses_need_quiet_buckets<
    I: TensorElement,
    O: TensorElement,
    const INPUTS: usize,
    const OUTPUTS: usize,
>(
    before: RuntimeView<I, O, INPUTS, OUTPUTS>,
    setup: RuntimeSetup,
    inputs: Seq<Seq<i64>>,
    outputs: Seq<Seq<i64>>,
    after: RuntimeView<I, O, INPUTS, OUTPUTS>,
    result: Result<Lookup, Error>,
)
    requires
        before.looked_up(setup, inputs, outputs, true, after, result),
        setup.planned_fault(inputs, outputs) is None,
        setup.options.cuda_graph,
        before.buckets.len() <= usize::MAX,
    ensures
        result is Err ==> before.buckets.len() >= setup.options.max_buckets || exists|i: int|
            0 <= i < before.buckets.len() && !#[trigger] crate::runtime::cache_laws::is_quiet(
                before.buckets[i],
            ),
        result matches Ok(Lookup::Miss(evict)) ==> evict is None && forall|i: int|
            0 <= i < before.buckets.len() ==> #[trigger] crate::runtime::cache_laws::is_quiet(
                before.buckets[i],
            ),
        after.buckets.len() == before.buckets.len(),
{
    crate::runtime::cache_laws::captures_need_quiet_buckets(before.buckets, before.buckets.len() as int);
}

/// Lanes that capture are taken in order, and the lane that is named is the one under way.
pub proof fn captures_name_the_lane_under_way<
    I: TensorElement,
    O: TensorElement,
    const INPUTS: usize,
    const OUTPUTS: usize,
>(
    capture: BucketCapture<I, O, INPUTS, OUTPUTS>,
    reply: Result<(), Error>,
    step: CaptureStep<I, O, INPUTS, OUTPUTS>,
)
    requires
        capture.wf(),
        capture.answered(reply, step),
    ensures
        match step {
            CaptureStep::Call(next, lane, call) => {
                &&& lane == next.running()
                &&& if next.running() == capture.running() {
                    capture.members()[capture.running()].lane_state().spec_advance(reply is Ok).1 == Some(call)
                } else {
                    capture.members()[next.running()].lane_state().spec_start(RunMode::Synchronized).1
                        == Some(call)
                }
                &&& capture.running() <= next.running() <= capture.running() + 1
                &&& next.members().len() == capture.members().len()
                &&& forall|k: int|
                    0 <= k < capture.members().len() && k != capture.running() && k != next.running()
                        ==> #[trigger] next.members()[k] == capture.members()[k]
            },
            CaptureStep::Captured(lanes) => {
                &&& capture.running() == capture.members().len() - 1
                &&& lanes@.len() == capture.members().len()
                &&& forall|k: int|
                    0 <= k < capture.running() ==> #[trigger] lanes@[k] == capture.members()[k]
            },
            CaptureStep::Failed(error) => {
                &&& error matches Error::CaptureFailed { lane, cause } && lane == capture.running()
                &&& match capture.members()[capture.running()].pending_failure() {
                    Some(first) => *(error->cause) == first,
                    None => reply == Err::<(), Error>(*(error->cause)),
                }
            },
        },
{
}

/// A zeroed buffer is built exactly where nothing is refused.
pub proof fn zeroed_buffers_are_built_where_nothing_is_refused<T: TensorElement>(
    result: Result<TensorBuffer<T>, Error>,
    shape: Seq<i64>,
    memory: MemoryInfo,
    spec: BufferSpec,
    replies: BufferReplies,
)
    requires
        TensorBuffer::<T>::zeros_outcome(result, shape, memory, spec, replies),
    ensures
        TensorBuffer::<T>::zeros_fault(shape, memory, spec) is None && replies.created is Ok
            && replies.locked is Ok ==> result is Ok,
        result is Ok ==> TensorBuffer::<T>::zeros_fault(shape, memory, spec) is None && replies.created is Ok,
{
}

/// Without captured graphs lanes stay as they were built. With them every lane of a bucket gets the one new
/// graph, or the bucket fails with the first thing that stood against it.
pub proof fn new_graphs_reach_every_lane<
    I: TensorElement,
    O: TensorElement,
    const INPUTS: usize,
    const OUTPUTS: usize,
>(
    cuda_graph: bool,
    before: Seq<ServingLane<I, O, INPUTS, OUTPUTS>>,
    id: Result<i32, Error>,
    refused: Option<(usize, Error)>,
    annotated: Result<(Vec<ServingLane<I, O, INPUTS, OUTPUTS>>, Option<i32>), Error>,
)
    requires
        DynamicIoRuntime::annotation_outcome(cuda_graph, before, id, refused, annotated),
    ensures
        annotated is Ok <==> !cuda_graph || (id is Ok && refused is None && StaticIoRuntime::<
            I,
            O,
            INPUTS,
            OUTPUTS,
        >::assign_fault(before, before.len() as int) is None),
        annotated matches Ok((lanes, graph_id)) ==> {
            &&& lanes@.len() == before.len()
            &&& graph_id is Some <==> cuda_graph
            &&& graph_id is None ==> lanes@ == before
            &&& graph_id matches Some(graph) ==> id == Ok::<i32, Error>(graph) && forall|k: int|
                0 <= k < before.len() ==> {
                    &&& (#[trigger] lanes@[k]).lane_state().graph_id == Some(graph)
                    &&& lanes@[k].lane_state().graph_lease == Some(graph)
                    &&& lanes@[k].parts() == before[k].parts()
                    &&& !lanes@[k].lane_state().in_flight
                }
        },
        cuda_graph ==> (id matches Err(error) ==> annotated == Err::<
            (Vec<ServingLane<I, O, INPUTS, OUTPUTS>>, Option<i32>),
            Error,
        >(error)),
{
}

/// Lanes of a set can be given a graph exactly where each of them can.
pub proof fn sets_are_annotated_where_every_lane_can_be<
    I: TensorElement,
    O: TensorElement,
    const INPUTS: usize,
    const OUTPUTS: usize,
>(
    lanes: Seq<ServingLane<I, O, INPUTS, OUTPUTS>>,
    n: int,
)
    requires
        0 <= n <= lanes.len(),
        forall|k: int| 0 <= k < lanes.len() ==> (#[trigger] lanes[k]).wf(),
    ensures
        StaticIoRuntime::<I, O, INPUTS, OUTPUTS>::assign_fault(lanes, n) is None <==> forall|k: int|
            0 <= k < n ==> !(#[trigger] lanes[k]).lane_state().in_flight
                && lanes[k].lane_state().device_inputs,
    decreases n,
{
    if n > 0 {
        let last: int = n - 1;
        sets_are_annotated_where_every_lane_can_be(lanes, last);
        crate::runtime::build_laws::annotations_need_idle_device_lanes(lanes[last], Ok(()));
        let rest = StaticIoRuntime::<I, O, INPUTS, OUTPUTS>::assign_fault(lanes, last);
        let fault = StaticIoRuntime::<I, O, INPUTS, OUTPUTS>::assign_fault(lanes, n);
        if fault is None {
            assert forall|k: int| 0 <= k < n implies !(#[trigger] lanes[k]).lane_state().in_flight
                && lanes[k].lane_state().device_inputs by {
                assert(k == last || k < last);
            }
        } else if rest is Some {
            let k = choose|k: int|
                0 <= k < last && ((#[trigger] lanes[k]).lane_state().in_flight
                    || !lanes[k].lane_state().device_inputs);
            assert(0 <= k < n);
        } else {
            assert(lanes[last].lane_state().in_flight || !lanes[last].lane_state().device_inputs);
        }
    }
}

/// A request that found its bucket has it, one that must make room is told which bucket goes, and one that has
/// room is told what to build: lanes that rebind as the options say.
pub proof fn requests_go_on_as_they_were_found<
    I: TensorElement,
    O: TensorElement,
    const INPUTS: usize,
    const OUTPUTS: usize,
>(
    setup: RuntimeSetup,
    inputs: Seq<Seq<i64>>,
    outputs: Seq<Seq<i64>>,
    found: Result<Lookup, Error>,
    access: Access<I, O, INPUTS, OUTPUTS>,
)
    requires
        DynamicIoRuntime::found(setup, inputs, outputs, found, access),
    ensures
        found matches Err(error) ==> (access matches Access::Failed(failed) && failed == error),
        found matches Ok(Lookup::Hit(i)) ==> (access matches Access::Ready(at) && at == i),
        found matches Ok(Lookup::Miss(Some(victim))) ==> (access matches Access::Evict(at) && at == victim),
        found == Ok::<Lookup, Error>(Lookup::Miss(None)) ==> access is Failed || access is Build,
        found == Ok::<Lookup, Error>(Lookup::Miss(None)) ==> (access matches Access::Build(set, calls)
            ==> exists|before: StaticIoRuntime<I, O, INPUTS, OUTPUTS>| {
            &&& #[trigger] DynamicIoRuntime::lane_set_built(setup, Ok((before, calls)), inputs, outputs)
            &&& set.members().len() == before.members().len()
            &&& forall|k: int|
                0 <= k < set.members().len() ==> {
                    &&& (#[trigger] set.members()[k]).lane_state().rebind_inputs_each_run
                        == setup.options.rebind_inputs_each_run
                    &&& set.members()[k].parts() == before.members()[k].parts()
                }
        }),
{
    match access {
        Access::Build(set, calls) => {
            if found == Ok::<Lookup, Error>(Lookup::Miss(None)) {
                let (built, result) = choose|
                    built: Result<(StaticIoRuntime<I, O, INPUTS, OUTPUTS>, SetCalls), Error>,
                    result: Result<(StaticIoRuntime<I, O, INPUTS, OUTPUTS>, SetCalls), Error>,
                |
                    DynamicIoRuntime::lane_set_built(setup, built, inputs, outputs)
                        && #[trigger] DynamicIoRuntime::rebinding_chosen(
                        built,
                        result,
                        setup.options.rebind_inputs_each_run,
                    ) && access == match result {
                        Err(error) => Access::Failed(error),
                        Ok((set, calls)) => Access::Build(set, calls),
                    };
                assert(result == Ok::<
                    (StaticIoRuntime<I, O, INPUTS, OUTPUTS>, SetCalls),
                    Error,
                >((set, calls)));
                let before = built->Ok_0.0;
                assert(built == Ok::<(StaticIoRuntime<I, O, INPUTS, OUTPUTS>, SetCalls), Error>(
                    (before, calls),
                ));
                assert(DynamicIoRuntime::lane_set_built(setup, Ok((before, calls)), inputs, outputs));
            }
        },
        _ => {},
    }
}

/// What was placed is ready where it is, and what was not failed as it did.
pub proof fn placed_requests_are_ready<
    I: TensorElement,
    O: TensorElement,
    const INPUTS: usize,
    const OUTPUTS: usize,
>(result: Result<usize, Error>)
    ensures
        result matches Ok(i) ==> (crate::runtime::access::placed::<I, O, INPUTS, OUTPUTS>(
            result,
        ) matches Access::Ready(at) && at == i),
        result matches Err(error) ==> (crate::runtime::access::placed::<I, O, INPUTS, OUTPUTS>(
            result,
        ) matches Access::Failed(failed) && failed == error),
{
}

/// A set is described lane by lane, in order, or with the first lane that cannot be.
pub proof fn sets_are_described_lane_by_lane<
    I: TensorElement,
    O: TensorElement,
    const INPUTS: usize,
    const OUTPUTS: usize,
>(
    audits: Vec<LaneHotPathAudit>,
    lanes: Seq<ServingLane<I, O, INPUTS, OUTPUTS>>,
    addresses: Seq<LaneAddresses>,
    k: int,
)
    requires
        crate::runtime::static_io::audits_of(Ok(audits), lanes, addresses),
        0 <= k < lanes.len(),
        lanes[k].wf(),
        addresses[k].inputs@.len() == INPUTS,
        addresses[k].outputs@.len() == OUTPUTS,
    ensures
        audits@.len() == lanes.len(),
        audits@[k].inputs@.len() == INPUTS && audits@[k].outputs@.len() == OUTPUTS,
        audits@[k].rebind_inputs_each_run == lanes[k].lane_state().rebind_inputs_each_run,
        forall|i: int|
            0 <= i < INPUTS ==> (#[trigger] audits@[k].inputs@[i]).rust_ptr
                == addresses[k].inputs@[i].rust_ptr && audits@[k].inputs@[i].ort_ptr
                == addresses[k].inputs@[i].ort_ptr,
        forall|i: int|
            0 <= i < OUTPUTS ==> (#[trigger] audits@[k].outputs@[i]).rust_ptr
                == addresses[k].outputs@[i].rust_ptr && audits@[k].outputs@[i].ort_ptr
                == addresses[k].outputs@[i].ort_ptr,
{
    let audit = audits@[k];
    assert(lanes[k].audited(Ok(audit), addresses[k].inputs@, addresses[k].outputs@));
    crate::runtime::set_laws::snapshots_describe_every_buffer(
        lanes[k],
        audit,
        addresses[k].inputs@,
        addresses[k].outputs@,
    );
}

} // verus!
