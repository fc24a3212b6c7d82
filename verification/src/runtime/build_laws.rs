//! What building and annotating a lane amounts to.
use vstd::prelude::*;

use crate::element::TensorElement;
use crate::error::{Error, Fault, Side};
use crate::runtime::lane::{
    CompletionQuery, CompletionStatus, LaneProgress, LaneRecipe, Placement, ServingLane,
};
use crate::runtime::lane_build::BuildCall;
use crate::runtime::lane_state::{LaneCall, Phase, RunOptions};
use crate::runtime::options::CudaStream;
use crate::session::session::Session;
use crate::tensor::buffer::BufferSpec;

verus! {

/// A serving lane is built in a fixed order: every host buffer is wrapped as a value of its own, the binding
/// is made, every input is bound once and then every output, the run options are frozen as those of queued
/// runs, and the events of device lanes are made. A side on a device has all its tensors allocated before
/// the first of them is bound, and binds no host buffer.
pub proof fn lanes_bind_every_tensor_once(
    inputs: nat,
    outputs: nat,
    device: Option<i32>,
    device_output: Option<i32>,
)
    ensures
        ({
            let calls = crate::runtime::lane_build::serving_lane_calls(
                inputs,
                outputs,
                device,
                device_output,
            );
            let bound = inputs + outputs + 1;
            let input_calls = if device is Some {
                2 * inputs
            } else {
                inputs
            };
            let outs = bound + input_calls;
            let output_calls = if device_output is Some {
                2 * outputs
            } else {
                outputs
            };
            let last: int = (outs + output_calls) as int;
            &&& forall|i: int|
                0 <= i < inputs ==> #[trigger] calls[i] == BuildCall::CreateHostValue(
                    Side::Input,
                    i as usize,
                )
            &&& forall|i: int|
                0 <= i < outputs ==> #[trigger] calls[inputs + i] == BuildCall::CreateHostValue(
                    Side::Output,
                    i as usize,
                )
            &&& calls[bound - 1] == BuildCall::CreateBinding
            &&& forall|i: int|
                0 <= i < inputs ==> #[trigger] calls[bound + i] == if device is Some {
                    BuildCall::AllocateDevice(Side::Input, i as usize)
                } else {
                    BuildCall::BindHost(Side::Input, i as usize)
                }
            &&& device is Some ==> forall|i: int|
                0 <= i < inputs ==> #[trigger] calls[bound + inputs + i] == BuildCall::BindDevice(
                    Side::Input,
                    i as usize,
                )
            &&& forall|i: int|
                0 <= i < outputs ==> #[trigger] calls[outs + i] == if device_output is Some {
                    BuildCall::AllocateDevice(Side::Output, i as usize)
                } else {
                    BuildCall::BindHost(Side::Output, i as usize)
                }
            &&& device_output is Some ==> forall|i: int|
                0 <= i < outputs ==> #[trigger] calls[outs + outputs + i] == BuildCall::BindDevice(
                    Side::Output,
                    i as usize,
                )
            &&& calls[last] == BuildCall::FreezeRunOptions(
                RunOptions { graph_id: None, disable_ep_sync: true, sync_stream: None },
            )
            &&& device matches Some(id) ==> calls[last + 1] == BuildCall::CreateCompletionEvent(id)
            &&& device_output matches Some(id) ==> calls.last() == BuildCall::CreateDownstreamEvent(
                id,
            )
            &&& calls.len() == last + 1 + (if device is Some {
                1int
            } else {
                0
            }) + (if device_output is Some {
                1int
            } else {
                0
            })
        }),
{
}

/// A lane of host buffers is built in the same order, without device tensors, run options and events.
pub proof fn host_lanes_bind_every_tensor_once(inputs: nat, outputs: nat)
    ensures
        ({
            let calls = crate::runtime::lane_build::host_lane_calls(inputs, outputs);
            let bound = inputs + outputs + 1;
            &&& calls.len() == 2 * bound - 1
            &&& forall|i: int|
                0 <= i < inputs ==> #[trigger] calls[i] == BuildCall::CreateHostValue(
                    Side::Input,
                    i as usize,
                )
            &&& forall|i: int|
                0 <= i < outputs ==> #[trigger] calls[inputs + i] == BuildCall::CreateHostValue(
                    Side::Output,
                    i as usize,
                )
            &&& calls[bound - 1] == BuildCall::CreateBinding
            &&& forall|i: int|
                0 <= i < inputs ==> #[trigger] calls[bound + i] == BuildCall::BindHost(
                    Side::Input,
                    i as usize,
                )
            &&& forall|i: int|
                0 <= i < outputs ==> #[trigger] calls[bound + inputs + i] == BuildCall::BindHost(
                    Side::Output,
                    i as usize,
                )
        }),
{
}

/// A recipe places inputs and outputs where it says: both on the host, the inputs on a device, or both on
/// the same device. The staging of device inputs is page-locked unless another policy was chosen, and a
/// chosen policy is kept.
pub proof fn recipes_place_as_they_say(recipe: LaneRecipe)
    ensures
        recipe.device() is None <==> recipe.placement is Host,
        recipe.device_output() is Some ==> recipe.device_output() == recipe.device(),
        recipe.placement matches Placement::DeviceInputs(id) ==> recipe.device() == Some(id)
            && recipe.device_output() is None,
        recipe.placement matches Placement::DeviceIo(id) ==> recipe.device() == Some(id)
            && recipe.device_output() == Some(id),
        recipe.input_policy != BufferSpec::Auto ==> recipe.staging_policy() == recipe.input_policy,
        recipe.input_policy == BufferSpec::Auto ==> recipe.staging_policy() == if recipe.device() is Some {
            BufferSpec::CudaPinned
        } else {
            BufferSpec::Auto
        },
{
}

/// A lane on a device is only placed behind a stream of that device that its session keeps. A lane on the
/// host needs no stream.
pub proof fn device_lanes_need_a_stream_of_their_session<
    I: TensorElement,
    O: TensorElement,
    const INPUTS: usize,
    const OUTPUTS: usize,
>(
    session: Session,
    recipe: LaneRecipe,
    stream: Option<CudaStream>,
    input_shapes: Seq<Seq<i64>>,
    output_shapes: Seq<Seq<i64>>,
)
    ensures
        ({
            let fault = ServingLane::<I, O, INPUTS, OUTPUTS>::place_fault(
                session,
                recipe,
                stream,
                input_shapes,
                output_shapes,
            );
            let fits = match recipe.placement {
                Placement::Host => true,
                Placement::DeviceInputs(id) | Placement::DeviceIo(id) => stream matches Some(held)
                    && held.device_id == id && session.streams().contains(held),
            };
            &&& !fits ==> fault == Some(Error::Fault(Fault::SessionStreamMismatch))
            &&& fault is None ==> fits && session.inputs().len() == INPUTS
                && session.outputs().len() == OUTPUTS
        }),
{
}

/// A fresh lane is idle and has nothing pending, no graph and no lease. It makes its inputs ready on the
/// device that it was built for, and its queued runs return without waiting for the providers.
pub proof fn fresh_lanes_are_idle<
    I: TensorElement,
    O: TensorElement,
    const INPUTS: usize,
    const OUTPUTS: usize,
>(device: Option<i32>)
    ensures
        ({
            let lane = ServingLane::<I, O, INPUTS, OUTPUTS>::fresh_state(device);
            &&& lane.inv()
            &&& lane.phase is Rest
            &&& !lane.in_flight
            &&& !lane.completion_event_recorded
            &&& lane.in_flight_graph_guard is None
            &&& lane.input_count == INPUTS
            &&& lane.cuda_device == device
            &&& lane.device_inputs <==> device is Some
            &&& !lane.rebind_inputs_each_run
            &&& lane.graph_id is None && lane.graph_lease is None && !lane.graph_captured
            &&& lane.run_options is None
            &&& lane.enqueued_run_options.disable_ep_sync
            &&& lane.enqueued_run_options.graph_id is None
            &&& lane.enqueued_run_options.sync_stream is None
        }),
{
}

/// An annotation reaches everything that names the graph: both kinds of run carry it on the lane's stream,
/// the lane takes guards of its lease, and the graph is yet to be captured. Only queued runs return without
/// waiting for the providers. Nothing else of the lane changes.
pub proof fn annotations_reach_every_run<
    I: TensorElement,
    O: TensorElement,
    const INPUTS: usize,
    const OUTPUTS: usize,
>(lane: ServingLane<I, O, INPUTS, OUTPUTS>, id: i32)
    ensures
        ({
            let before = lane.lane_state();
            let after = lane.with_graph_id(id);
            &&& after.graph_id == Some(id)
            &&& after.graph_lease == Some(id)
            &&& !after.graph_captured
            &&& after.run_options matches Some(options) && options.graph_id == Some(id)
                && !options.disable_ep_sync && options.sync_stream == lane.parts().sync_stream
            &&& after.enqueued_run_options.graph_id == Some(id)
            &&& after.enqueued_run_options.disable_ep_sync
            &&& after.enqueued_run_options.sync_stream == lane.parts().sync_stream
            &&& after.input_count == before.input_count
            &&& after.device_inputs == before.device_inputs
            &&& after.cuda_device == before.cuda_device
            &&& after.rebind_inputs_each_run == before.rebind_inputs_each_run
            &&& after.in_flight == before.in_flight
            &&& after.in_flight_graph_guard == before.in_flight_graph_guard
            &&& after.completion_event_recorded == before.completion_event_recorded
            &&& after.phase == before.phase
        }),
{
}

/// A lane takes an annotation exactly where it is idle, has device inputs and the options could be frozen.
pub proof fn annotations_need_idle_device_lanes<
    I: TensorElement,
    O: TensorElement,
    const INPUTS: usize,
    const OUTPUTS: usize,
>(lane: ServingLane<I, O, INPUTS, OUTPUTS>, frozen: Result<(), Error>)
    requires
        lane.wf(),
    ensures
        lane.graph_id_fault(frozen) is None <==> !lane.lane_state().in_flight
            && lane.lane_state().device_inputs && frozen is Ok,
        !lane.lane_state().in_flight && lane.lane_state().device_inputs ==> (frozen matches Err(
            error,
        ) ==> lane.graph_id_fault(frozen) == Some(error)),
{
}

/// An operation ends in success only if every answer that it was given was good, but for the giving back of
/// a guard, and in failure with the first answer that was not.
pub proof fn operations_report_their_first_failure<
    I: TensorElement,
    O: TensorElement,
    const INPUTS: usize,
    const OUTPUTS: usize,
>(
    lane: ServingLane<I, O, INPUTS, OUTPUTS>,
    reply: Result<(), Error>,
    after: ServingLane<I, O, INPUTS, OUTPUTS>,
    progress: LaneProgress,
)
    requires
        lane.wf(),
        !lane.at_rest(),
        lane.progressed(
            lane.lane_state().spec_advance(reply is Ok),
            lane.failure_after(reply),
            after,
            progress,
        ),
    ensures
        match progress {
            LaneProgress::Done(Ok(())) => lane.pending_failure() is None && (reply is Ok
                || lane.lane_state().phase is Ending),
            LaneProgress::Done(Err(error)) => match lane.pending_failure() {
                Some(first) => error == first,
                None => reply == Err::<(), Error>(error),
            },
            LaneProgress::Call(_) => match lane.pending_failure() {
                Some(first) => after.pending_failure() == Some(first),
                None => reply matches Err(error) ==> after.pending_failure() == Some(error)
                    || lane.lane_state().phase is Ending,
            },
        },
        progress is Done <==> after.at_rest(),
        reply is Ok && lane.pending_failure() is None ==> !(progress matches LaneProgress::Done(Err(_))),
        after.parts() == lane.parts(),
        after.slot() == lane.slot(),
{
}

/// Waiting for a lane asks for a fence exactly where something is pending: the completion event where one
/// was recorded, and else the bound outputs.
pub proof fn pending_lanes_are_waited_for<
    I: TensorElement,
    O: TensorElement,
    const INPUTS: usize,
    const OUTPUTS: usize,
>(lane: ServingLane<I, O, INPUTS, OUTPUTS>)
    requires
        lane.wf(),
        lane.at_rest(),
    ensures
        ({
            let step = lane.wait_step();
            &&& !lane.lane_state().in_flight ==> step.1 is None && step.0 == lane.lane_state()
            &&& lane.lane_state().in_flight ==> {
                &&& step.1 == Some(
                    if lane.lane_state().completion_event_recorded {
                        LaneCall::SynchronizeCompletion
                    } else {
                        LaneCall::SynchronizeOutputs
                    },
                )
                &&& step.0.in_flight
                &&& !step.0.spec_advance(true).0.in_flight
            }
        }),
{
}

/// A lane is found complete without waiting only where nothing is pending or its completion event has been
/// recorded. What the event says decides: a complete run leaves the lane idle and its guard to be given
/// back, and a pending one leaves all as it was.
pub proof fn completion_is_decided_by_the_event<
    I: TensorElement,
    O: TensorElement,
    const INPUTS: usize,
    const OUTPUTS: usize,
>(
    lane: ServingLane<I, O, INPUTS, OUTPUTS>,
    complete: bool,
    after: ServingLane<I, O, INPUTS, OUTPUTS>,
    result: (CompletionStatus, Option<LaneCall>),
)
    requires
        lane.completed(complete, after, result),
    ensures
        lane.spec_completion_query() matches Ok(CompletionQuery::Ready) <==> !lane.lane_state().in_flight,
        lane.spec_completion_query() matches Ok(CompletionQuery::AskEvent) <==> (
        lane.lane_state().in_flight && lane.lane_state().completion_event_recorded),
        result.0 is Ready <==> complete,
        complete ==> {
            &&& !after.lane_state().in_flight
            &&& !after.lane_state().completion_event_recorded
            &&& after.lane_state().in_flight_graph_guard is None
            &&& match lane.lane_state().in_flight_graph_guard {
                Some(guard) => result.1 == Some(LaneCall::EndGraphRun(guard)),
                None => result.1 is None && after.lane_state().phase is Rest,
            }
        },
        !complete ==> result.1 is None && after.lane_state() == lane.lane_state(),
        after.parts() == lane.parts(),
{
}

/// A run that returned is settled by what it returned: a failed one is fenced before its guard goes back, a
/// good one keeps its guard while its work is pending or gives it back at once.
pub proof fn guards_are_settled_by_the_outcome<
    I: TensorElement,
    O: TensorElement,
    const INPUTS: usize,
    const OUTPUTS: usize,
>(lane: ServingLane<I, O, INPUTS, OUTPUTS>, guard: Option<i32>, ok: bool, retain: bool)
    ensures
        ({
            let step = lane.settle_step(guard, ok, retain);
            &&& !ok ==> step.1 == Some(LaneCall::SynchronizeOutputs) && step.0.phase == (
            Phase::Fencing { guard })
            &&& ok && retain ==> step.1 is None && step.0.in_flight && step.0.in_flight_graph_guard
                == guard
            &&& ok && !retain ==> !step.0.in_flight && step.0.in_flight_graph_guard is None
                && match guard {
                Some(id) => step.1 == Some(LaneCall::EndGraphRun(id)),
                None => step.1 is None,
            }
        }),
{
}

} // verus!
