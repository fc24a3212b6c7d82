//! Where the operations of a session succeed.
use vstd::prelude::*;

use crate::calls::CallPlan;
use crate::element::TensorElement;
use crate::error::{Count, Error, Fault};
use crate::memory::MemoryInfo;
use crate::runtime::lane_build::BuildCall;
use crate::runtime::options::CudaStream;
use crate::session::async_run::AsyncState;
use crate::session::binding::BindingCall;
use crate::session::copy::{HostCopy, HostPair, PairStep};
use crate::session::create::{Initializers, PathPlan};
use crate::session::lanes::{
    AllocatedOutputTensorIoLane, AllocatedTensorIoLane, DeviceOutputTensorIoLane,
    StaticTensorIoLane, TensorIoLane,
};
use crate::session::run::RunArrays;
use crate::session::session::{Session, SetupReplies};
use crate::session_options::SessionOptions;
use crate::tensor::buffer::{BufferSpec, TensorBuffer};
use crate::tensor::value::OwnedValue;

verus! {

/// A run is made ready exactly where it has a handle for every input and a place for every output, and its
/// stream, where it has one, is of the session's environment.
pub proof fn fitting_runs_are_made_ready(
    session: Session,
    arrays: Result<RunArrays, Error>,
    inputs: Seq<u64>,
    slots: nat,
    stream_environment: Option<u64>,
)
    requires
        session.run_outcome(arrays, inputs, slots, stream_environment),
        session.inputs().len() <= usize::MAX,
        session.outputs().len() <= usize::MAX,
        inputs.len() <= usize::MAX,
        slots <= usize::MAX,
    ensures
        arrays is Ok <==> {
            &&& stream_environment is None || stream_environment == Some(session.spec_environment())
            &&& inputs.len() == session.inputs().len()
            &&& slots == session.outputs().len()
        },
        arrays matches Err(Error::CountMismatch { what, expected, got }) ==> {
            ||| what == Count::Input && expected == session.inputs().len() && got == inputs.len()
            ||| what == Count::OutputSlot && expected == session.outputs().len() && got == slots
        },
{
}

/// An asynchronous run is made ready exactly where it has a handle for every input. It then holds them in
/// order and an empty place for every output of the session, and nothing has been delivered.
pub proof fn fitting_async_runs_are_made_ready<V>(
    session: Session,
    state: Result<AsyncState<V>, Error>,
    in_handles: Seq<u64>,
    owned_inputs: Option<Vec<OwnedValue>>,
)
    requires
        session.async_outcome(state, in_handles, owned_inputs),
    ensures
        state is Ok <==> in_handles.len() == session.inputs().len(),
        state matches Ok(fresh) ==> {
            &&& fresh.inputs() == in_handles
            &&& fresh.outputs().len() == session.outputs().len()
            &&& forall|i: int| 0 <= i < fresh.outputs().len() ==> #[trigger] fresh.outputs()[i] == 0
            &&& fresh.owned() == owned_inputs
            &&& !fresh.spec_done()
            &&& fresh.spec_result() is None
            &&& !fresh.waiting()
        },
{
}

/// A binding is run exactly where it is of the session, and its calls are those of a run, none of them made.
pub proof fn own_bindings_are_run(
    session: Session,
    plan: Result<CallPlan<BindingCall>, Error>,
    binding: u64,
    stream_environment: Option<u64>,
    synchronized: bool,
)
    requires
        session.plans_binding(plan, binding, stream_environment, synchronized),
    ensures
        plan is Ok <==> binding == session.spec_handle() && (stream_environment is None
            || stream_environment == Some(session.spec_environment())),
        plan matches Ok(calls) ==> {
            &&& calls.made() == 0
            &&& calls.all().len() == (if synchronized {
                3int
            } else {
                1
            })
            &&& calls.all()[if synchronized {
                1int
            } else {
                0
            }] is Run
            &&& synchronized ==> calls.all()[0] is SynchronizeInputs && calls.all()[2] is SynchronizeOutputs
        },
        binding != session.spec_handle() ==> plan == Err::<CallPlan<BindingCall>, Error>(
            Error::Fault(Fault::BindingSessionMismatch),
        ),
{
}

/// A session is planned from a file exactly where its path holds no zero byte. The path is kept, and creating
/// the session is the last call.
pub proof fn paths_are_planned_as_they_are(
    made: Result<PathPlan, Error>,
    path: Seq<char>,
    shared_threads: bool,
    options: SessionOptions,
    initializers: Initializers,
    prepacked: bool,
)
    requires
        PathPlan::is_planned(made, path, shared_threads, options, initializers, prepacked),
    ensures
        made is Ok <==> !vstd::utf8::encode_utf8(path).contains(0u8),
        made matches Ok(plan) ==> {
            &&& plan.path@ == path
            &&& plan.files@.len() == 0
            &&& plan.calls.made() == 0
            &&& plan.calls.all().last() == crate::session::create::CreateCall::Create(
                crate::session::create::ModelSource::Path,
                prepacked,
            )
        },
        made matches Err(error) ==> error == Error::Fault(Fault::ModelPathNul),
{
}

/// A session that nobody shares is described anew exactly where the engine answered everything. Otherwise it
/// stays as it was.
pub proof fn answered_sessions_are_described(
    before: Session,
    after: Session,
    shared: bool,
    replies: SetupReplies,
    result: Result<(), Error>,
)
    requires
        before.refreshed(after, shared, replies, result),
    ensures
        result is Ok <==> !shared && replies.fault() is None,
        result is Err ==> after == before,
        after.spec_handle() == before.spec_handle(),
        after.streams() == before.streams(),
{
}

/// Lanes on the host are prepared exactly where nothing stands against it.
pub proof fn fitting_lanes_are_prepared<T: TensorElement>(
    session: Session,
    memory: MemoryInfo,
    output_memory: MemoryInfo,
    inputs: Seq<Seq<i64>>,
    outputs: Seq<Seq<i64>>,
    policy: BufferSpec,
    lanes: usize,
    host: Result<(TensorIoLane<T>, CallPlan<BuildCall>), Error>,
    several: Result<Vec<(TensorIoLane<T>, CallPlan<BuildCall>)>, Error>,
    with_outputs: Result<(AllocatedOutputTensorIoLane<T>, CallPlan<BuildCall>), Error>,
)
    requires
        TensorIoLane::prepare_outcome(host, session, memory, inputs, outputs, policy),
        crate::session::lanes::lanes_outcome(
            several,
            session,
            memory,
            inputs,
            outputs,
            lanes,
            policy,
        ),
        AllocatedOutputTensorIoLane::prepare_outcome(
            with_outputs,
            session,
            memory,
            output_memory,
            inputs,
            outputs,
            policy,
        ),
    ensures
        host is Ok <==> TensorIoLane::<T>::prepare_fault(session, memory, inputs, outputs, policy) is None,
        several is Ok <==> lanes == 0 || host is Ok,
        with_outputs is Ok <==> AllocatedOutputTensorIoLane::<T>::prepare_fault(
            session,
            memory,
            inputs,
            outputs,
            policy,
        ) is None,
{
}

/// Lanes of known counts are prepared exactly where lanes of any counts are.
pub proof fn fitting_static_lanes_are_prepared<
    T: TensorElement,
    const INPUTS: usize,
    const OUTPUTS: usize,
>(
    session: Session,
    memory: MemoryInfo,
    inputs: Seq<Seq<i64>>,
    outputs: Seq<Seq<i64>>,
    policy: BufferSpec,
    prepared: Result<(StaticTensorIoLane<T, INPUTS, OUTPUTS>, CallPlan<BuildCall>), Error>,
)
    requires
        StaticTensorIoLane::prepare_outcome(prepared, session, memory, inputs, outputs, policy),
    ensures
        prepared is Ok <==> TensorIoLane::<T>::prepare_fault(session, memory, inputs, outputs, policy)
            is None,
{
}

/// Lanes whose outputs the engine allocates are prepared exactly where there is a shape for every input, the
/// input buffers can be built, and all names are text.
pub proof fn fitting_device_lanes_are_prepared<T: TensorElement>(
    session: Session,
    memory: MemoryInfo,
    output_memory: MemoryInfo,
    inputs: Seq<Seq<i64>>,
    policy: BufferSpec,
    prepared: Result<(DeviceOutputTensorIoLane<T>, CallPlan<BuildCall>), Error>,
)
    requires
        DeviceOutputTensorIoLane::prepare_outcome(
            prepared,
            session,
            memory,
            output_memory,
            inputs,
            policy,
        ),
    ensures
        prepared is Ok <==> {
            &&& inputs.len() == session.inputs().len()
            &&& forall|i: int|
                0 <= i < inputs.len() ==> TensorBuffer::<T>::zeros_fault(
                    #[trigger] inputs[i],
                    memory,
                    policy,
                ) is None
            &&& crate::session::io_lane_laws::names_are_text(session)
        },
{
    crate::session::io_lane_laws::sessions_are_bound_by_text(session);
    crate::runtime::set_laws::sides_are_built_where_every_buffer_is::<T>(inputs, memory, policy);
}

/// Lanes of allocated tensors are prepared exactly where there is a shape for every input and output, all of
/// them can be counted, and all names are text.
pub proof fn fitting_allocated_lanes_are_prepared<T: TensorElement>(
    session: Session,
    input_memory: MemoryInfo,
    output_memory: MemoryInfo,
    inputs: Seq<Seq<i64>>,
    outputs: Seq<Seq<i64>>,
    prepared: Result<(AllocatedTensorIoLane<T>, CallPlan<BuildCall>), Error>,
)
    requires
        AllocatedTensorIoLane::prepare_outcome(
            prepared,
            session,
            input_memory,
            output_memory,
            inputs,
            outputs,
        ),
    ensures
        prepared is Ok <==> {
            &&& inputs.len() == session.inputs().len()
            &&& outputs.len() == session.outputs().len()
            &&& forall|i: int|
                0 <= i < inputs.len() ==> crate::shape::count_fault(#[trigger] inputs[i]) is None
            &&& forall|i: int|
                0 <= i < outputs.len() ==> crate::shape::count_fault(#[trigger] outputs[i]) is None
            &&& crate::session::io_lane_laws::names_are_text(session)
        },
{
    crate::session::io_lane_laws::sessions_are_bound_by_text(session);
    crate::runtime::set_laws::sides_are_allocated_where_every_tensor_counts(
        inputs,
        inputs.len() as int,
    );
    crate::runtime::set_laws::sides_are_allocated_where_every_tensor_counts(
        outputs,
        outputs.len() as int,
    );
}

/// Copying on the host ends well exactly where every pair could be copied, says so where some tensor is out of
/// reach, and fails as the first pair does that cannot be copied.
pub proof fn host_copies_say_how_they_ended(copy: HostCopy, pairs: Seq<HostPair>)
    requires
        copy.copies(pairs),
    ensures
        copy.outcome == Ok::<bool, Error>(true) <==> forall|i: int|
            0 <= i < pairs.len() ==> (#[trigger] pairs[i]).spec_step() is Copy,
        copy.outcome == Ok::<bool, Error>(true) ==> copy.copied == pairs.len(),
        copy.outcome == Ok::<bool, Error>(false) ==> copy.copied < pairs.len()
            && pairs[copy.copied as int].spec_step() is Unreachable,
        copy.outcome matches Err(error) ==> copy.copied < pairs.len()
            && pairs[copy.copied as int].spec_step() == PairStep::Fail(error),
        forall|i: int| 0 <= i < copy.copied ==> (#[trigger] pairs[i]).spec_step() is Copy,
{
    crate::session::session_laws::hosts_copy_a_prefix(pairs);
}

/// A session that keeps more streams is otherwise as it was, and keeps no stream twice.
pub proof fn keeping_streams_keeps_the_session(
    before: Session,
    after: Session,
    streams: Seq<CudaStream>,
    stream: CudaStream,
)
    requires
        before.retains(after, streams),
        before.streams().no_duplicates(),
    ensures
        after.spec_handle() == before.spec_handle(),
        after.spec_environment() == before.spec_environment(),
        after.inputs() == before.inputs(),
        after.outputs() == before.outputs(),
        after.input_types() == before.input_types(),
        after.output_types() == before.output_types(),
        after.streams().contains(stream) <==> before.streams().contains(stream) || streams.contains(stream),
        after.streams().no_duplicates(),
{
    crate::session::create::finalizing_keeps_streams(before, after, streams);
}

} // verus!
