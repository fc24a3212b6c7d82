//! What the lanes of a set are built from, and where they are refused.
use vstd::prelude::*;

use crate::element::TensorElement;
use crate::error::{Error, Side};
use crate::memory::MemoryInfo;
use crate::runtime::bucket::BucketView;
use crate::runtime::dynamic::{DynamicIoRuntime, RuntimeSetup};
use crate::runtime::host_lane::{Lane, Runtime};
use crate::runtime::lane::{LaneRecipe, ServingLane};
use crate::runtime::options::RuntimeMode;
use crate::runtime::owned_run::PreparedBucketId;
use crate::runtime::prepared::PreparedSlots;
use crate::runtime::static_io::{LaneAddresses, LaneStreams, SetCalls, StaticIoRuntime};
use crate::session::session::Session;
use crate::tensor::buffer::{BufferSpec, TensorBuffer};

verus! {

/// The buffers of a side are built exactly where each of them is.
pub proof fn sides_are_built_where_every_buffer_is<T: TensorElement>(
    shapes: Seq<Seq<i64>>,
    memory: MemoryInfo,
    spec: BufferSpec,
)
    ensures
        crate::runtime::lane_build::buffers_fault::<T>(shapes, memory, spec) is None <==> forall|i: int|
            0 <= i < shapes.len() ==> TensorBuffer::<T>::zeros_fault(
                #[trigger] shapes[i],
                memory,
                spec,
            ) is None,
        crate::runtime::lane_build::buffers_fault::<T>(shapes, memory, spec) is Some ==> exists|i: int|
            0 <= i < shapes.len() && TensorBuffer::<T>::zeros_fault(#[trigger] shapes[i], memory, spec)
                == crate::runtime::lane_build::buffers_fault::<T>(shapes, memory, spec) && forall|j: int|
                0 <= j < i ==> TensorBuffer::<T>::zeros_fault(#[trigger] shapes[j], memory, spec) is None,
    decreases shapes.len(),
{
    if shapes.len() > 0 {
        let front = shapes.drop_last();
        let last: int = shapes.len() - 1;
        sides_are_built_where_every_buffer_is::<T>(front, memory, spec);
        let rest = crate::runtime::lane_build::buffers_fault::<T>(front, memory, spec);
        assert forall|i: int| 0 <= i < last implies #[trigger] shapes[i] == front[i] by {}
        if rest is Some {
            let i = choose|i: int|
                0 <= i < front.len() && TensorBuffer::<T>::zeros_fault(#[trigger] front[i], memory, spec)
                    == rest && forall|j: int|
                    0 <= j < i ==> TensorBuffer::<T>::zeros_fault(#[trigger] front[j], memory, spec) is None;
            assert(shapes[i] == front[i]);
            assert forall|j: int| 0 <= j < i implies TensorBuffer::<T>::zeros_fault(
                #[trigger] shapes[j],
                memory,
                spec,
            ) is None by {
                assert(front[j] == shapes[j]);
            }
        } else {
            assert forall|j: int| 0 <= j < last implies TensorBuffer::<T>::zeros_fault(
                #[trigger] shapes[j],
                memory,
                spec,
            ) is None by {
                assert(front[j] == shapes[j]);
            }
            assert(shapes[last] == shapes.last());
        }
    }
}

/// The tensors of a side are allocated exactly where each of them can be counted.
pub proof fn sides_are_allocated_where_every_tensor_counts(shapes: Seq<Seq<i64>>, n: int)
    requires
        0 <= n <= shapes.len(),
    ensures
        crate::runtime::lane_build::allocated_fault(shapes, n) is None <==> forall|i: int|
            0 <= i < n ==> crate::shape::count_fault(#[trigger] shapes[i]) is None,
    decreases n,
{
    if n > 0 {
        let last: int = n - 1;
        sides_are_allocated_where_every_tensor_counts(shapes, last);
        let rest = crate::runtime::lane_build::allocated_fault(shapes, last);
        let fault = crate::runtime::lane_build::allocated_fault(shapes, n);
        assert(fault is None <==> rest is None && crate::shape::count_fault(shapes[last]) is None);
        if fault is None {
            assert forall|i: int| 0 <= i < n implies crate::shape::count_fault(
                #[trigger] shapes[i],
            ) is None by {
                assert(i == last || i < last);
            }
        } else if rest is Some {
            let i = choose|i: int| 0 <= i < last && crate::shape::count_fault(#[trigger] shapes[i]) is Some;
            assert(crate::shape::count_fault(shapes[i]) is Some);
        }
    }
}

/// A name can be bound: it is text, and an input's holds no zero byte.
pub open spec fn is_bindable(name: Seq<u8>, side: Side) -> bool {
    vstd::utf8::valid_utf8(name) && (side == Side::Input ==> !name.contains(0u8))
}

/// The names of a side are bound exactly where each of them can be.
pub proof fn sides_are_bound_where_every_name_is(names: Seq<Vec<u8>>, side: Side, n: int)
    requires
        0 <= n <= names.len(),
    ensures
        crate::runtime::lane_build::binding_names_fault(names, side, n) is None <==> forall|i: int|
            0 <= i < n ==> is_bindable((#[trigger] names[i])@, side),
    decreases n,
{
    if n > 0 {
        let last: int = n - 1;
        sides_are_bound_where_every_name_is(names, side, last);
        let rest = crate::runtime::lane_build::binding_names_fault(names, side, last);
        let fault = crate::runtime::lane_build::binding_names_fault(names, side, n);
        assert(fault is None <==> rest is None && is_bindable(names[last]@, side));
        if fault is None {
            assert forall|i: int| 0 <= i < n implies is_bindable((#[trigger] names[i])@, side) by {
                assert(i == last || i < last);
            }
        } else if rest is Some {
            let i = choose|i: int| 0 <= i < last && !is_bindable((#[trigger] names[i])@, side);
            assert(!is_bindable(names[i]@, side));
        }
    }
}

/// A lane is built exactly where it has the session's inputs and outputs, all its buffers are built, and all
/// names can be bound.
pub proof fn lanes_fit_their_session<
    I: TensorElement,
    O: TensorElement,
    const INPUTS: usize,
    const OUTPUTS: usize,
>(
    session: Session,
    input_memory: MemoryInfo,
    output_memory: MemoryInfo,
    input_shapes: Seq<Seq<i64>>,
    output_shapes: Seq<Seq<i64>>,
    input_policy: BufferSpec,
    output_policy: BufferSpec,
)
    ensures
        ServingLane::<I, O, INPUTS, OUTPUTS>::build_fault(
            session,
            input_memory,
            output_memory,
            input_shapes,
            output_shapes,
            input_policy,
            output_policy,
        ) is None <==> {
            &&& session.inputs().len() == INPUTS
            &&& session.outputs().len() == OUTPUTS
            &&& forall|i: int|
                0 <= i < input_shapes.len() ==> TensorBuffer::<I>::zeros_fault(
                    #[trigger] input_shapes[i],
                    input_memory,
                    input_policy,
                ) is None
            &&& forall|i: int|
                0 <= i < output_shapes.len() ==> TensorBuffer::<O>::zeros_fault(
                    #[trigger] output_shapes[i],
                    output_memory,
                    output_policy,
                ) is None
            &&& forall|i: int|
                0 <= i < INPUTS ==> is_bindable((#[trigger] session.inputs()[i])@, Side::Input)
            &&& forall|i: int|
                0 <= i < OUTPUTS ==> is_bindable((#[trigger] session.outputs()[i])@, Side::Output)
        },
{
    sides_are_built_where_every_buffer_is::<I>(input_shapes, input_memory, input_policy);
    sides_are_built_where_every_buffer_is::<O>(output_shapes, output_memory, output_policy);
    if session.inputs().len() == INPUTS && session.outputs().len() == OUTPUTS {
        sides_are_bound_where_every_name_is(session.inputs(), Side::Input, INPUTS as int);
        sides_are_bound_where_every_name_is(session.outputs(), Side::Output, OUTPUTS as int);
    }
}

/// A set is built exactly where each of its lanes is, on its own session and stream.
pub proof fn sets_are_built_where_every_lane_is<
    I: TensorElement,
    O: TensorElement,
    const INPUTS: usize,
    const OUTPUTS: usize,
>(
    sessions: Seq<Session>,
    mode: RuntimeMode,
    streams: LaneStreams,
    recipe: LaneRecipe,
    input_shapes: Seq<Seq<i64>>,
    output_shapes: Seq<Seq<i64>>,
    n: int,
)
    requires
        0 <= n,
        mode is ReplicatedSessions ==> n <= sessions.len(),
    ensures
        StaticIoRuntime::<I, O, INPUTS, OUTPUTS>::set_fault(
            sessions,
            mode,
            streams,
            recipe,
            input_shapes,
            output_shapes,
            n,
        ) is None <==> forall|k: int|
            0 <= k < n ==> ServingLane::<I, O, INPUTS, OUTPUTS>::place_fault(
                if mode is ReplicatedSessions {
                    sessions[k]
                } else {
                    sessions[0]
                },
                recipe,
                #[trigger] streams.at(k),
                input_shapes,
                output_shapes,
            ) is None,
    decreases n,
{
    if n > 0 {
        let last: int = n - 1;
        sets_are_built_where_every_lane_is::<I, O, INPUTS, OUTPUTS>(
            sessions,
            mode,
            streams,
            recipe,
            input_shapes,
            output_shapes,
            last,
        );
        let held = streams.at(last);
        let fault = StaticIoRuntime::<I, O, INPUTS, OUTPUTS>::set_fault(
            sessions,
            mode,
            streams,
            recipe,
            input_shapes,
            output_shapes,
            n,
        );
        let rest = StaticIoRuntime::<I, O, INPUTS, OUTPUTS>::set_fault(
            sessions,
            mode,
            streams,
            recipe,
            input_shapes,
            output_shapes,
            last,
        );
        let session = if mode is ReplicatedSessions {
            sessions[last]
        } else {
            sessions[0]
        };
        assert(crate::runtime::static_io::session_of(sessions, mode, last) == session);
        assert(fault is None <==> rest is None && ServingLane::<I, O, INPUTS, OUTPUTS>::place_fault(
            session,
            recipe,
            held,
            input_shapes,
            output_shapes,
        ) is None);
        if fault is None {
            assert forall|k: int| 0 <= k < n implies ServingLane::<I, O, INPUTS, OUTPUTS>::place_fault(
                if mode is ReplicatedSessions {
                    sessions[k]
                } else {
                    sessions[0]
                },
                recipe,
                #[trigger] streams.at(k),
                input_shapes,
                output_shapes,
            ) is None by {
                assert(k == last || k < last);
            }
        } else if rest is Some {
            let k = choose|k: int|
                0 <= k < last && ServingLane::<I, O, INPUTS, OUTPUTS>::place_fault(
                    if mode is ReplicatedSessions {
                        sessions[k]
                    } else {
                        sessions[0]
                    },
                    recipe,
                    #[trigger] streams.at(k),
                    input_shapes,
                    output_shapes,
                ) is Some;
            assert(0 <= k < n);
        }
    }
}

/// A host lane is built exactly where it has a shape for every input and output of the session, all its
/// buffers are built, and all names are text.
pub proof fn host_lanes_fit_their_session<T: TensorElement>(
    session: Session,
    memory: MemoryInfo,
    input_shapes: Seq<Seq<i64>>,
    output_shapes: Seq<Seq<i64>>,
    policy: BufferSpec,
)
    ensures
        Lane::<T>::build_fault(session, memory, input_shapes, output_shapes, policy) is None <==> {
            &&& session.inputs().len() == input_shapes.len()
            &&& session.outputs().len() == output_shapes.len()
            &&& forall|i: int|
                0 <= i < input_shapes.len() ==> TensorBuffer::<T>::zeros_fault(
                    #[trigger] input_shapes[i],
                    memory,
                    policy,
                ) is None
            &&& forall|i: int|
                0 <= i < output_shapes.len() ==> TensorBuffer::<T>::zeros_fault(
                    #[trigger] output_shapes[i],
                    memory,
                    policy,
                ) is None
            &&& forall|i: int|
                0 <= i < session.inputs().len() ==> vstd::utf8::valid_utf8(
                    (#[trigger] session.inputs()[i])@,
                )
            &&& forall|i: int|
                0 <= i < session.outputs().len() ==> vstd::utf8::valid_utf8(
                    (#[trigger] session.outputs()[i])@,
                )
        },
{
    sides_are_built_where_every_buffer_is::<T>(input_shapes, memory, policy);
    sides_are_built_where_every_buffer_is::<T>(output_shapes, memory, policy);
    crate::session::session_laws::names_are_text_or_refused(
        session.inputs(),
        Side::Input,
        session.inputs().len() as int,
    );
    crate::session::session_laws::names_are_text_or_refused(
        session.outputs(),
        Side::Output,
        session.outputs().len() as int,
    );
}

/// Every host lane of a set has its session and a zeroed buffer of every shape, in order.
pub proof fn host_lanes_have_every_buffer<T: TensorElement>(
    set: Runtime<T>,
    calls: SetCalls,
    sessions: Seq<Session>,
    mode: RuntimeMode,
    count: int,
    memory: MemoryInfo,
    input_shapes: Seq<Seq<i64>>,
    output_shapes: Seq<Seq<i64>>,
    policy: BufferSpec,
    k: int,
)
    requires
        Runtime::<T>::set_outcome(
            Ok((set, calls)),
            sessions,
            mode,
            count,
            memory,
            input_shapes,
            output_shapes,
            policy,
        ),
        0 <= k < count,
        mode is ReplicatedSessions ==> count == sessions.len(),
    ensures
        set.members().len() == count,
        set.members()[k].spec_session() == (if mode is ReplicatedSessions {
            sessions[k]
        } else {
            sessions[0]
        }).spec_handle(),
        set.members()[k].input_buffers().len() == input_shapes.len(),
        set.members()[k].output_buffers().len() == output_shapes.len(),
        forall|i: int|
            0 <= i < input_shapes.len() ==> {
                let buffer = #[trigger] set.members()[k].input_buffers()[i];
                &&& buffer.dims() == input_shapes[i]
                &&& buffer.spec_memory() == memory
                &&& buffer@.len() == crate::shape::product(input_shapes[i]) as nat
                &&& forall|j: int| 0 <= j < buffer@.len() ==> #[trigger] buffer@[j] == T::spec_zero()
            },
        forall|i: int|
            0 <= i < output_shapes.len() ==> {
                let buffer = #[trigger] set.members()[k].output_buffers()[i];
                &&& buffer.dims() == output_shapes[i]
                &&& buffer.spec_memory() == memory
                &&& buffer@.len() == crate::shape::product(output_shapes[i]) as nat
                &&& forall|j: int| 0 <= j < buffer@.len() ==> #[trigger] buffer@[j] == T::spec_zero()
            },
{
}

/// Writing one buffer of a lane leaves all the others as they were.
pub proof fn writes_reach_one_buffer<T: TensorElement>(
    before: Seq<TensorBuffer<T>>,
    after: Seq<TensorBuffer<T>>,
    i: int,
    elements: Seq<T>,
    j: int,
)
    requires
        crate::runtime::host_lane::written(before, after, i, elements),
        0 <= i < before.len(),
        0 <= j < before.len(),
    ensures
        after.len() == before.len(),
        j == i ==> after[j]@ == elements,
        j != i ==> after[j] == before[j],
        after[j].dims() == before[j].dims(),
        after[j].spec_memory() == before[j].spec_memory(),
{
}

/// A host set passes as shared exactly where every buffer of every lane does.
pub proof fn shared_host_sets_share_every_buffer<T: TensorElement>(
    set: Runtime<T>,
    addresses: Seq<LaneAddresses>,
    n: int,
)
    requires
        set.addresses_fit(addresses),
        0 <= n <= addresses.len(),
    ensures
        set.zero_copy_fault(addresses, n) is None <==> forall|k: int|
            0 <= k < n ==> #[trigger] host_lane_is_shared(set.members()[k], addresses[k]),
    decreases n,
{
    if n > 0 {
        let last: int = n - 1;
        shared_host_sets_share_every_buffer(set, addresses, last);
        let lane = set.members()[last];
        let held = addresses[last];
        crate::runtime::runtime_laws::shared_sides_share_every_buffer(
            crate::error::Slot::LaneInput,
            lane.input_buffers(),
            held.inputs@,
            lane.input_buffers().len() as int,
        );
        crate::runtime::runtime_laws::shared_sides_share_every_buffer(
            crate::error::Slot::LaneOutput,
            lane.output_buffers(),
            held.outputs@,
            lane.output_buffers().len() as int,
        );
        let rest = set.zero_copy_fault(addresses, last);
        let fault = set.zero_copy_fault(addresses, n);
        assert(lane.zero_copy_fault(held.inputs@, held.outputs@) is None <==> host_lane_is_shared(
            lane,
            held,
        ));
        assert(fault is None <==> rest is None && host_lane_is_shared(lane, held));
        if fault is None {
            assert forall|k: int| 0 <= k < n implies #[trigger] host_lane_is_shared(
                set.members()[k],
                addresses[k],
            ) by {
                assert(k == last || k < last);
            }
        } else if rest is Some {
            let k = choose|k: int|
                0 <= k < last && !#[trigger] host_lane_is_shared(set.members()[k], addresses[k]);
            assert(0 <= k < n && !host_lane_is_shared(set.members()[k], addresses[k]));
        }
    }
}

/// The engine reads every buffer of the lane where the host has it.
pub open spec fn host_lane_is_shared<T: TensorElement>(lane: Lane<T>, addresses: LaneAddresses) -> bool {
    &&& forall|i: int|
        0 <= i < lane.input_buffers().len() ==> #[trigger] crate::runtime::runtime_laws::is_shared(
            lane.input_buffers()[i],
            addresses.inputs@[i],
        )
    &&& forall|i: int|
        0 <= i < lane.output_buffers().len() ==> #[trigger] crate::runtime::runtime_laws::is_shared(
            lane.output_buffers()[i],
            addresses.outputs@[i],
        )
}

/// A cache passes as shared exactly where every lane of every bucket does.
pub proof fn shared_caches_share_every_bucket<
    I: TensorElement,
    O: TensorElement,
    const INPUTS: usize,
    const OUTPUTS: usize,
>(
    buckets: Seq<BucketView<I, O, INPUTS, OUTPUTS>>,
    addresses: Seq<Vec<LaneAddresses>>,
    n: int,
)
    requires
        0 <= n <= buckets.len(),
        n <= addresses.len(),
    ensures
        crate::runtime::poll::cache_zero_copy_fault(buckets, addresses, n) is None <==> forall|i: int|
            0 <= i < n ==> crate::runtime::static_io::set_zero_copy_fault(
                (#[trigger] buckets[i]).lanes,
                addresses[i]@,
                buckets[i].lanes.len() as int,
            ) is None,
    decreases n,
{
    if n > 0 {
        let last: int = n - 1;
        shared_caches_share_every_bucket(buckets, addresses, last);
        let rest = crate::runtime::poll::cache_zero_copy_fault(buckets, addresses, last);
        let fault = crate::runtime::poll::cache_zero_copy_fault(buckets, addresses, n);
        if fault is None {
            assert forall|i: int| 0 <= i < n implies crate::runtime::static_io::set_zero_copy_fault(
                (#[trigger] buckets[i]).lanes,
                addresses[i]@,
                buckets[i].lanes.len() as int,
            ) is None by {
                assert(i == last || i < last);
            }
        } else if rest is Some {
            let i = choose|i: int|
                0 <= i < last && crate::runtime::static_io::set_zero_copy_fault(
                    (#[trigger] buckets[i]).lanes,
                    addresses[i]@,
                    buckets[i].lanes.len() as int,
                ) is Some;
            assert(0 <= i < n);
        } else {
            assert(buckets[last].lanes == buckets[last].lanes);
        }
    }
}

/// The lanes of a new bucket bind their inputs anew exactly where that was chosen, and are otherwise as they
/// were built.
pub proof fn new_lanes_rebind_as_chosen<
    I: TensorElement,
    O: TensorElement,
    const INPUTS: usize,
    const OUTPUTS: usize,
>(
    before: StaticIoRuntime<I, O, INPUTS, OUTPUTS>,
    made: SetCalls,
    set: StaticIoRuntime<I, O, INPUTS, OUTPUTS>,
    calls: SetCalls,
    enabled: bool,
    k: int,
)
    requires
        DynamicIoRuntime::rebinding_chosen(Ok((before, made)), Ok((set, calls)), enabled),
        0 <= k < set.members().len(),
    ensures
        set.members().len() == before.members().len(),
        set.members()[k].lane_state().rebind_inputs_each_run == enabled,
        set.members()[k].lane_state().cuda_device == before.members()[k].lane_state().cuda_device,
        set.members()[k].lane_state().in_flight == before.members()[k].lane_state().in_flight,
        set.members()[k].parts() == before.members()[k].parts(),
        calls == made,
{
}

/// A new bucket of a runtime of captured graphs has a graph, whose every lane has captured its own. Without
/// captured graphs a bucket has none.
pub proof fn new_buckets_have_their_graph<
    I: TensorElement,
    O: TensorElement,
    const INPUTS: usize,
    const OUTPUTS: usize,
>(
    setup: RuntimeSetup,
    lanes: Seq<ServingLane<I, O, INPUTS, OUTPUTS>>,
    graph_id: Option<i32>,
    k: int,
)
    requires
        DynamicIoRuntime::lanes_ready(setup, lanes, graph_id),
        0 <= k < lanes.len(),
    ensures
        lanes.len() == setup.lane_count,
        graph_id is Some <==> setup.options.cuda_graph,
        graph_id is Some ==> lanes[k].lane_state().graph_captured,
{
}

/// A new handle was never given out before, and it names no bucket until it is.
pub proof fn handles_are_never_given_out_twice(slots: PreparedSlots, id: PreparedBucketId)
    requires
        slots.wf(),
        slots.next_id() == Some(id),
    ensures
        !slots.issued(id),
        slots.resolve(id) is None,
{
    if slots.free_slots().len() > 0 {
        let last: int = slots.free_slots().len() - 1;
        assert(slots.free_slots()[last] == id.slot);
        assert(slots.free_slots().contains(id.slot));
    }
}

/// Handles run out only where every slot has been used as often as it can be told apart.
pub proof fn handles_run_out_last(slots: PreparedSlots, s: int)
    requires
        slots.wf(),
        slots.next_id() is None,
        0 <= s < slots.table().len(),
    ensures
        slots.table().len() == u32::MAX + 1,
        slots.table()[s].bucket_index is Some || slots.table()[s].generation == u32::MAX,
{
    if slots.table()[s].bucket_index is None {
        assert(!slots.free_slots().contains(s as u32));
    }
}

/// A handle names a bucket only while the slot's own generation is the handle's.
pub proof fn one_handle_per_slot_resolves(slots: PreparedSlots, one: PreparedBucketId, two: PreparedBucketId)
    requires
        slots.resolve(one) is Some,
        slots.resolve(two) is Some,
        one.slot == two.slot,
    ensures
        one.generation == two.generation,
        slots.resolve(one) == slots.resolve(two),
        slots.resolve(one) == slots.table()[one.slot as int].bucket_index,
{
}

/// Writing one input of a lane changes the elements of that input alone.
pub proof fn input_writes_reach_one_buffer<
    I: TensorElement,
    O: TensorElement,
    const INPUTS: usize,
    const OUTPUTS: usize,
>(
    after: ServingLane<I, O, INPUTS, OUTPUTS>,
    before: ServingLane<I, O, INPUTS, OUTPUTS>,
    i: int,
    elements: Seq<I>,
    j: int,
)
    requires
        after.input_written(before, i, elements),
        0 <= i < before.parts().inputs.len(),
        0 <= j < before.parts().inputs.len(),
    ensures
        after.parts().inputs.len() == before.parts().inputs.len(),
        j == i ==> after.parts().inputs[j]@ == elements,
        j != i ==> after.parts().inputs[j] == before.parts().inputs[j],
        after.parts().inputs[j].dims() == before.parts().inputs[j].dims(),
        after.parts().outputs == before.parts().outputs,
        after.parts().device_inputs == before.parts().device_inputs,
        after.parts().device_outputs == before.parts().device_outputs,
        after.parts().session == before.parts().session,
        after.parts().stream == before.parts().stream,
        after.lane_state() == before.lane_state(),
        after.slot() == before.slot(),
{
}

/// Writing one output of a lane changes the elements of that output alone.
pub proof fn output_writes_reach_one_buffer<
    I: TensorElement,
    O: TensorElement,
    const INPUTS: usize,
    const OUTPUTS: usize,
>(
    after: ServingLane<I, O, INPUTS, OUTPUTS>,
    before: ServingLane<I, O, INPUTS, OUTPUTS>,
    i: int,
    elements: Seq<O>,
    j: int,
)
    requires
        after.output_written(before, i, elements),
        0 <= i < before.parts().outputs.len(),
        0 <= j < before.parts().outputs.len(),
    ensures
        after.parts().outputs.len() == before.parts().outputs.len(),
        j == i ==> after.parts().outputs[j]@ == elements,
        j != i ==> after.parts().outputs[j] == before.parts().outputs[j],
        after.parts().outputs[j].dims() == before.parts().outputs[j].dims(),
        after.parts().inputs == before.parts().inputs,
        after.parts().device_inputs == before.parts().device_inputs,
        after.parts().device_outputs == before.parts().device_outputs,
        after.parts().session == before.parts().session,
        after.parts().stream == before.parts().stream,
        after.lane_state() == before.lane_state(),
        after.slot() == before.slot(),
{
}

/// A placed lane knows the names of the session's inputs, in order.
pub proof fn lanes_know_their_input_names<
    I: TensorElement,
    O: TensorElement,
    const INPUTS: usize,
    const OUTPUTS: usize,
>(
    lane: ServingLane<I, O, INPUTS, OUTPUTS>,
    session: Session,
    recipe: LaneRecipe,
    stream: Option<crate::runtime::options::CudaStream>,
    input_shapes: Seq<Seq<i64>>,
    output_shapes: Seq<Seq<i64>>,
    i: int,
)
    requires
        lane.is_placed(session, recipe, stream, input_shapes, output_shapes),
        0 <= i < INPUTS,
    ensures
        lane.parts().input_names.len() == INPUTS,
        vstd::utf8::encode_utf8(lane.parts().input_names[i]) == session.inputs()[i]@,
        lane.parts().session == session.spec_handle(),
        !lane.lane_state().in_flight && lane.at_rest(),
        lane.slot() is None,
{
    let name = lane.parts().input_names[i];
}

/// A run that is started asks for its first call, and one that is refused changes nothing.
pub proof fn lanes_start_or_stay<
    I: TensorElement,
    O: TensorElement,
    const INPUTS: usize,
    const OUTPUTS: usize,
>(
    before: ServingLane<I, O, INPUTS, OUTPUTS>,
    mode: crate::runtime::lane_state::RunMode,
    after: ServingLane<I, O, INPUTS, OUTPUTS>,
    result: Result<crate::runtime::lane_state::LaneCall, Error>,
)
    requires
        before.started(mode, after, result),
        before.wf(),
        before.at_rest(),
    ensures
        before.lane_state().in_flight ==> result is Err,
        result is Err ==> after == before,
        result matches Ok(call) ==> {
            &&& crate::runtime::lane_laws::run_calls(before.lane_state(), mode).len() > 0
            &&& call == crate::runtime::lane_laws::run_calls(before.lane_state(), mode)[0]
            &&& after.parts() == before.parts()
            &&& after.slot() == before.slot()
            &&& !after.at_rest()
            &&& after.pending_failure() is None
        },
{
    reveal_with_fuel(crate::runtime::lane_laws::granted_calls, 2);
}

/// A snapshot of a lane describes every buffer of either side at its own place.
pub proof fn snapshots_describe_every_buffer<
    I: TensorElement,
    O: TensorElement,
    const INPUTS: usize,
    const OUTPUTS: usize,
>(
    lane: ServingLane<I, O, INPUTS, OUTPUTS>,
    audit: crate::runtime::audit::LaneHotPathAudit,
    inputs: Seq<crate::runtime::audit::BufferAddress>,
    outputs: Seq<crate::runtime::audit::BufferAddress>,
)
    requires
        lane.wf(),
        lane.audited(Ok(audit), inputs, outputs),
    ensures
        audit.input_count == INPUTS && audit.inputs@.len() == INPUTS,
        audit.output_count == OUTPUTS && audit.outputs@.len() == OUTPUTS,
        audit.rebind_inputs_each_run == lane.lane_state().rebind_inputs_each_run,
        forall|i: int|
            0 <= i < INPUTS ==> {
                &&& (#[trigger] audit.inputs@[i]).index == i
                &&& audit.inputs@[i].direction is Input
                &&& audit.inputs@[i].rust_ptr == inputs[i].rust_ptr
                &&& audit.inputs@[i].ort_ptr == inputs[i].ort_ptr
                &&& audit.inputs@[i].pointer_identity <==> inputs[i].rust_ptr == inputs[i].ort_ptr
                &&& audit.inputs@[i].element_count == lane.parts().inputs[i]@.len()
            },
        forall|i: int|
            0 <= i < OUTPUTS ==> {
                &&& (#[trigger] audit.outputs@[i]).index == i
                &&& audit.outputs@[i].direction is Output
                &&& audit.outputs@[i].rust_ptr == outputs[i].rust_ptr
                &&& audit.outputs@[i].ort_ptr == outputs[i].ort_ptr
                &&& audit.outputs@[i].pointer_identity <==> outputs[i].rust_ptr == outputs[i].ort_ptr
                &&& audit.outputs@[i].element_count == lane.parts().outputs[i]@.len()
            },
{
}

/// Every bucket is primed in turn, with the runs that were asked for and in the way that was asked for, and is
/// done once its runs are.
pub proof fn buckets_are_primed_as_asked(
    warming: crate::runtime::warm::Warming,
    lanes: usize,
    priming: crate::runtime::warm::SetPriming,
)
    requires
        warming.wf(),
        warming.done < warming.buckets,
    ensures
        warming.opened(lanes).lanes == lanes,
        warming.opened(lanes).runs == warming.runs,
        warming.opened(lanes).enqueued == warming.enqueued,
        warming.opened(lanes).lane == 0 && warming.opened(lanes).run == 0 && !warming.opened(lanes).queued,
        warming.opened(lanes).pending() is None <==> lanes == 0 || warming.runs == 0,
        warming.priming is None ==> warming.pending() == Some(
            crate::runtime::warm::WarmCall::Bucket(warming.done),
        ),
        warming.with_runs(priming).runs == warming.runs,
        warming.with_runs(priming).enqueued == warming.enqueued,
        warming.with_runs(priming).buckets == warming.buckets,
        priming.pending() is Some ==> {
            &&& warming.with_runs(priming).priming == Some(priming)
            &&& warming.with_runs(priming).done == warming.done
            &&& warming.with_runs(priming).pending() == Some(
                crate::runtime::warm::WarmCall::Prime(warming.done, priming.pending()->Some_0),
            )
        },
        priming.pending() is None ==> {
            &&& warming.with_runs(priming).priming is None
            &&& warming.with_runs(priming).done == warming.done + 1
        },
{
}

} // verus!
