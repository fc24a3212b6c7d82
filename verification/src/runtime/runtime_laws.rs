//! What options, audits, chains, polls and primings amount to.
use vstd::prelude::*;

use crate::element::TensorElement;
use crate::error::{Error, Side, Slot};
use crate::runtime::audit::{BufferAddress, IoDirection, TensorBufferAudit};
use crate::runtime::lane::{CompletionStatus, ServingLane};
use crate::runtime::lane_build::BuildCall;
use crate::runtime::lane_state::LaneCall;
use crate::runtime::options::{CudaStream, DynamicIoOptions, RuntimeMode};
use crate::runtime::owned_run::OwnedDynamicIoRun;
use crate::runtime::static_io::{LaneAddresses, LaneSessions, LaneStreams};
use crate::runtime::warm::{PrimeCall, SetPriming};
use crate::session::lanes::Place;
use crate::tensor::buffer::TensorBuffer;

verus! {

/// The options of a cache are admitted exactly where they fit together: there is room for a bucket, graphs are
/// replayed over device inputs that are bound once, device outputs go with device inputs, and device inputs
/// are bound once, on CUDA, behind a stream.
pub proof fn options_fit_together(options: DynamicIoOptions)
    ensures
        options.fault() is None <==> {
            &&& options.max_buckets > 0
            &&& options.cuda_graph ==> options.device_id is Some
            &&& options.device_outputs ==> options.device_id is Some
            &&& options.device_id is Some ==> {
                &&& !options.rebind_inputs_each_run
                &&& options.cuda
                &&& options.stream is Some || options.lane_streams@.len() > 0
            }
        },
{
}

/// An arrangement of lanes is admitted exactly where lanes that share a session replay no graphs side by side,
/// and streams for each lane come with a session for each lane, one for each.
pub proof fn arrangements_fit_the_options(
    options: DynamicIoOptions,
    mode: RuntimeMode,
    lane_count: usize,
)
    ensures
        options.mode_fault(mode, lane_count) is None <==> {
            &&& options.cuda_graph && lane_count > 1 ==> mode is ReplicatedSessions
            &&& options.cuda && options.lane_streams@.len() > 0 ==> mode is ReplicatedSessions
                && options.lane_streams@.len() == lane_count
        },
{
}

/// An audit tells where a buffer lies for both sides, how long it is, and that it is shared exactly where both
/// addresses are the same.
pub proof fn audits_compare_both_addresses<T: TensorElement>(
    audit: TensorBufferAudit,
    direction: IoDirection,
    index: usize,
    buffer: TensorBuffer<T>,
    address: BufferAddress,
)
    requires
        audit.describes(direction, index, buffer, address),
    ensures
        audit.pointer_identity <==> audit.rust_ptr == audit.ort_ptr,
        audit.rust_ptr == address.rust_ptr,
        audit.ort_ptr == address.ort_ptr,
        audit.element_count == buffer@.len(),
        audit.byte_len == audit.element_count * T::spec_size(),
        audit.element_type == T::spec_elem(),
        audit.direction == direction && audit.index == index,
        audit.memory_info == buffer.spec_memory(),
{
}

/// A buffer passes as shared exactly where its bytes can be counted, the engine reads it where the host has
/// it, and the host can reach it.
pub proof fn shared_buffers_have_one_address<T: TensorElement>(
    what: Slot,
    index: usize,
    buffer: TensorBuffer<T>,
    address: BufferAddress,
)
    ensures
        crate::runtime::audit::zero_copy_fault(what, index, buffer, address) is None <==> {
            &&& buffer@.len() * T::spec_size() <= usize::MAX
            &&& address.rust_ptr == address.ort_ptr
            &&& buffer.spec_memory().host_accessible
        },
{
}

/// The bytes of the buffer can be counted, the engine reads it where the host has it, and the host can
/// reach it.
pub open spec fn is_shared<T: TensorElement>(buffer: TensorBuffer<T>, address: BufferAddress) -> bool {
    &&& buffer@.len() * T::spec_size() <= usize::MAX
    &&& address.rust_ptr == address.ort_ptr
    &&& buffer.spec_memory().host_accessible
}

/// Buffers pass as shared exactly where each of them does.
pub proof fn shared_sides_share_every_buffer<T: TensorElement>(
    what: Slot,
    buffers: Seq<TensorBuffer<T>>,
    addresses: Seq<BufferAddress>,
    n: int,
)
    requires
        0 <= n <= buffers.len(),
        n <= addresses.len(),
    ensures
        crate::runtime::audit::side_zero_copy_fault(what, buffers, addresses, n) is None <==> forall|
            i: int,
        |
            0 <= i < n ==> #[trigger] is_shared(buffers[i], addresses[i]),
    decreases n,
{
    if n > 0 {
        let last: int = n - 1;
        let rest = crate::runtime::audit::side_zero_copy_fault(what, buffers, addresses, last);
        let fault = crate::runtime::audit::side_zero_copy_fault(what, buffers, addresses, n);
        shared_sides_share_every_buffer(what, buffers, addresses, last);
        assert(fault is None <==> rest is None && is_shared(buffers[last], addresses[last]));
        if fault is None {
            assert forall|i: int| 0 <= i < n implies #[trigger] is_shared(
                buffers[i],
                addresses[i],
            ) by {
                assert(i == last || i < last);
            }
        } else if rest is Some {
            let i = choose|i: int| 0 <= i < last && !#[trigger] is_shared(buffers[i], addresses[i]);
            assert(0 <= i < n && !is_shared(buffers[i], addresses[i]));
        }
    }
}

/// A lane passes as shared exactly where all its inputs and all its outputs do.
pub proof fn shared_lanes_share_both_sides<
    I: TensorElement,
    O: TensorElement,
    const INPUTS: usize,
    const OUTPUTS: usize,
>(
    lane: ServingLane<I, O, INPUTS, OUTPUTS>,
    inputs: Seq<BufferAddress>,
    outputs: Seq<BufferAddress>,
)
    requires
        lane.wf(),
        inputs.len() == INPUTS,
        outputs.len() == OUTPUTS,
    ensures
        lane.zero_copy_fault(inputs, outputs) is None ==> {
            &&& forall|i: int|
                0 <= i < INPUTS ==> (#[trigger] inputs[i]).rust_ptr == inputs[i].ort_ptr
            &&& forall|i: int|
                0 <= i < OUTPUTS ==> (#[trigger] outputs[i]).rust_ptr == outputs[i].ort_ptr
        },
        (exists|i: int| 0 <= i < INPUTS && (#[trigger] inputs[i]).rust_ptr != inputs[i].ort_ptr)
            ==> lane.zero_copy_fault(inputs, outputs) is Some,
        (exists|i: int| 0 <= i < OUTPUTS && (#[trigger] outputs[i]).rust_ptr != outputs[i].ort_ptr)
            ==> lane.zero_copy_fault(inputs, outputs) is Some,
{
    let parts = lane.parts();
    shared_sides_share_every_buffer(Slot::StaticInput, parts.inputs, inputs, INPUTS as int);
    shared_sides_share_every_buffer(Slot::StaticOutput, parts.outputs, outputs, OUTPUTS as int);
    assert forall|i: int| 0 <= i < INPUTS && lane.zero_copy_fault(inputs, outputs) is None implies (
    #[trigger] inputs[i]).rust_ptr == inputs[i].ort_ptr by {
        assert(is_shared(parts.inputs[i], inputs[i]));
    }
    assert forall|i: int| 0 <= i < OUTPUTS && lane.zero_copy_fault(inputs, outputs) is None implies (
    #[trigger] outputs[i]).rust_ptr == outputs[i].ort_ptr by {
        assert(is_shared(parts.outputs[i], outputs[i]));
    }
}

/// A set of lanes passes as shared exactly where each of its lanes does.
pub proof fn shared_sets_share_every_lane<
    I: TensorElement,
    O: TensorElement,
    const INPUTS: usize,
    const OUTPUTS: usize,
>(lanes: Seq<ServingLane<I, O, INPUTS, OUTPUTS>>, addresses: Seq<LaneAddresses>, n: int)
    requires
        0 <= n <= lanes.len(),
        n <= addresses.len(),
    ensures
        crate::runtime::static_io::set_zero_copy_fault(lanes, addresses, n) is None <==> forall|k: int|
            0 <= k < n ==> (#[trigger] lanes[k]).zero_copy_fault(
                addresses[k].inputs@,
                addresses[k].outputs@,
            ) is None,
    decreases n,
{
    if n > 0 {
        shared_sets_share_every_lane(lanes, addresses, n - 1);
        assert(lanes[n - 1] == lanes[n - 1]);
    }
}

/// A run is chained exactly where its outputs are on the device of the downstream stream, its completion event
/// stands behind pending work, and the downstream stream could be made to wait. It is only recorded where
/// there is an event for it.
pub proof fn chains_wait_for_the_completion_event<
    I: TensorElement,
    O: TensorElement,
    const INPUTS: usize,
    const OUTPUTS: usize,
>(
    run: OwnedDynamicIoRun<I, O, INPUTS, OUTPUTS>,
    downstream: CudaStream,
    waited: Result<(), Error>,
    recorded: Result<(), Error>,
)
    ensures
        run.chain_fault(downstream, waited) is None <==> {
            &&& run.held().parts().device_outputs is Some
            &&& run.held().lane_state().in_flight
            &&& run.held().lane_state().completion_event_recorded
            &&& run.held().lane_state().cuda_device == Some(downstream.device_id)
            &&& waited is Ok
        },
        run.chain_record(recorded) is Ok <==> run.held().parts().downstream_event is Some
            && recorded is Ok,
{
}

/// Runs are polled together exactly where each that is pending has its completion event recorded, on the device
/// that is polled.
pub proof fn polls_ask_one_device<
    I: TensorElement,
    O: TensorElement,
    const INPUTS: usize,
    const OUTPUTS: usize,
>(runs: Seq<OwnedDynamicIoRun<I, O, INPUTS, OUTPUTS>>, device_id: i32, n: int)
    requires
        0 <= n <= runs.len(),
    ensures
        crate::runtime::poll::poll_fault(runs, device_id, n) is None <==> forall|k: int|
            0 <= k < n && (#[trigger] runs[k]).held().lane_state().in_flight ==> {
                &&& runs[k].held().lane_state().completion_event_recorded
                &&& runs[k].held().lane_state().cuda_device == Some(device_id)
            },
    decreases n,
{
    if n > 0 {
        polls_ask_one_device(runs, device_id, n - 1);
        assert(runs[n - 1] == runs[n - 1]);
    }
}

/// A polled run is ready exactly where nothing was pending or its event says so. A run that is found complete
/// is idle, and one that is not stays as it was.
pub proof fn polled_runs_are_ready_when_complete<
    I: TensorElement,
    O: TensorElement,
    const INPUTS: usize,
    const OUTPUTS: usize,
>(
    before: OwnedDynamicIoRun<I, O, INPUTS, OUTPUTS>,
    complete: bool,
    after: OwnedDynamicIoRun<I, O, INPUTS, OUTPUTS>,
    status: CompletionStatus,
    call: Option<LaneCall>,
)
    requires
        crate::runtime::poll::polled(before, complete, after, status, call),
    ensures
        status is Ready <==> !before.held().lane_state().in_flight || complete,
        status is Ready ==> !after.held().lane_state().in_flight,
        status is Pending ==> after.held().lane_state() == before.held().lane_state() && call is None,
        call matches Some(LaneCall::EndGraphRun(guard)) ==> Some(guard)
            == before.held().lane_state().in_flight_graph_guard,
        after.source() == before.source(),
{
}

/// The number of the call that a priming makes next.
pub open spec fn prime_position(priming: SetPriming) -> int {
    let run = priming.lane * priming.runs + priming.run;
    if priming.enqueued {
        2 * run + (if priming.queued {
            1int
        } else {
            0
        })
    } else {
        run
    }
}

/// A priming runs lane by lane, each lane as often as was asked for, and waits behind every queued run: each
/// good answer leads to the next call, which is on the lane whose turn it is, until all lanes have had all
/// their runs.
pub proof fn primings_take_lanes_in_turn(priming: SetPriming)
    requires
        priming.wf(),
    ensures
        match priming.pending() {
            None => priming.lane == priming.lanes || priming.runs == 0,
            Some(call) => {
                let turn = priming.lane as int;
                let first = turn * priming.runs * (if priming.enqueued {
                    2int
                } else {
                    1
                });
                let next = (turn + 1) * priming.runs * (if priming.enqueued {
                    2int
                } else {
                    1
                });
                &&& turn < priming.lanes
                &&& first <= prime_position(priming) < next
                &&& prime_position(priming.advanced()) == prime_position(priming) + 1
                &&& priming.advanced().lanes == priming.lanes
                &&& priming.advanced().runs == priming.runs
                &&& priming.advanced().enqueued == priming.enqueued
                &&& call == if !priming.enqueued {
                    PrimeCall::Run(priming.lane)
                } else if (prime_position(priming) - first) % 2 == 0 {
                    PrimeCall::RunEnqueued(priming.lane)
                } else {
                    PrimeCall::Synchronize(priming.lane)
                }
            },
        },
{
    let lane = priming.lane as int;
    let runs = priming.runs as int;
    assert((lane + 1) * runs == lane * runs + runs) by (nonlinear_arith);
    assert(lane * runs * 2 == 2 * (lane * runs)) by (nonlinear_arith);
    assert((lane + 1) * runs * 2 == 2 * ((lane + 1) * runs)) by (nonlinear_arith);
}

/// The tensors of a lane are made before the binding, those of the inputs first, and bound behind it, every one
/// once and in order. What the engine allocates during a run is not made before.
pub proof fn session_lanes_bind_every_tensor_once(inputs: Place, n: nat, outputs: Place, m: nat)
    ensures
        ({
            let calls = crate::session::lanes::lane_calls(inputs, n, outputs, m);
            let made_in: int = if inputs is Memory {
                0
            } else {
                n as int
            };
            let made_out: int = if outputs is Memory {
                0
            } else {
                m as int
            };
            let bound = made_in + made_out + 1;
            &&& calls.len() == bound + n + m
            &&& forall|i: int|
                0 <= i < made_in ==> #[trigger] calls[i] == if inputs is Host {
                    BuildCall::CreateHostValue(Side::Input, i as usize)
                } else {
                    BuildCall::AllocateDevice(Side::Input, i as usize)
                }
            &&& forall|i: int|
                0 <= i < made_out ==> #[trigger] calls[made_in + i] == if outputs is Host {
                    BuildCall::CreateHostValue(Side::Output, i as usize)
                } else {
                    BuildCall::AllocateDevice(Side::Output, i as usize)
                }
            &&& calls[bound - 1] == BuildCall::CreateBinding
            &&& forall|i: int|
                0 <= i < n ==> #[trigger] calls[bound + i] == match inputs {
                    Place::Host => BuildCall::BindHost(Side::Input, i as usize),
                    Place::Allocated => BuildCall::BindDevice(Side::Input, i as usize),
                    Place::Memory => BuildCall::BindMemory(Side::Input, i as usize),
                }
            &&& forall|i: int|
                0 <= i < m ==> #[trigger] calls[bound + n + i] == match outputs {
                    Place::Host => BuildCall::BindHost(Side::Output, i as usize),
                    Place::Allocated => BuildCall::BindDevice(Side::Output, i as usize),
                    Place::Memory => BuildCall::BindMemory(Side::Output, i as usize),
                }
        }),
{
}

/// Lanes that share a session all have it, and lanes with a session of their own have one each, in order.
pub proof fn lanes_have_their_session<'a>(sessions: LaneSessions<'a>, k: int)
    requires
        0 <= k,
        sessions matches LaneSessions::Replicated(all) ==> k < all@.len(),
    ensures
        ({
            let session = crate::runtime::static_io::session_of(sessions.all(), sessions.mode(), k);
            match sessions {
                LaneSessions::Shared(shared) => session == *shared,
                LaneSessions::Replicated(all) => session == all@[k],
            }
        }),
{
}

/// Every lane is refreshed on the shared stream, or on its own where each has one.
pub proof fn lanes_have_their_stream<'a>(streams: LaneStreams<'a>, k: int)
    ensures
        match streams {
            LaneStreams::Unused => streams.at(k) is None,
            LaneStreams::Shared(stream) => streams.at(k) == Some(stream),
            LaneStreams::PerLane(all) => 0 <= k < all@.len() ==> streams.at(k) == Some(all@[k]),
        },
{
}

} // verus!
