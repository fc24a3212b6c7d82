//! What the lanes of a session hold, and where they are refused.
use vstd::prelude::*;

use crate::calls::CallPlan;
use crate::element::TensorElement;
use crate::error::{Count, Error, Side};
use crate::memory::MemoryInfo;
use crate::runtime::audit::{BufferAddress, IoDirection, TensorBufferAudit};
use crate::runtime::lane_build::BuildCall;
use crate::session::lanes::{
    AllocatedOutputTensorIoLane, AllocatedTensorIoLane, DeviceOutputTensorIoLane,
    StaticTensorIoLane, TensorIoLane,
};
use crate::session::run::RunArrays;
use crate::session::session::Session;
use crate::tensor::allocated::AllocatedTensor;
use crate::tensor::buffer::{BufferSpec, TensorBuffer};
use crate::tensor::value::Introspection;

verus! {

/// Every name of the session is text.
pub open spec fn names_are_text(session: Session) -> bool {
    &&& forall|i: int|
        0 <= i < session.inputs().len() ==> vstd::utf8::valid_utf8((#[trigger] session.inputs()[i])@)
    &&& forall|i: int|
        0 <= i < session.outputs().len() ==> vstd::utf8::valid_utf8((#[trigger] session.outputs()[i])@)
}

/// The names of a session are taken exactly where all of them are text.
pub proof fn sessions_are_bound_by_text(session: Session)
    ensures
        session.names_fault() is None <==> names_are_text(session),
{
    crate::session::session_laws::names_are_text_or_refused(
        session.inputs(),
        Side::Input,
        session.inputs().len() as int,
    );
    crate::session::session_laws::names_are_text_or_refused(
        session.outputs(),
        Side::Output,
        session.outputs().len() as int,
    );
}

/// A lane on the host is prepared exactly where it has a shape for every input and output, all its buffers can
/// be built, and all names are text.
pub proof fn io_lanes_fit_their_session<T: TensorElement>(
    session: Session,
    memory: MemoryInfo,
    inputs: Seq<Seq<i64>>,
    outputs: Seq<Seq<i64>>,
    policy: BufferSpec,
)
    ensures
        TensorIoLane::<T>::prepare_fault(session, memory, inputs, outputs, policy) is None <==> {
            &&& inputs.len() == session.inputs().len()
            &&& outputs.len() == session.outputs().len()
            &&& forall|i: int|
                0 <= i < inputs.len() ==> TensorBuffer::<T>::zeros_fault(
                    #[trigger] inputs[i],
                    memory,
                    policy,
                ) is None
            &&& forall|i: int|
                0 <= i < outputs.len() ==> TensorBuffer::<T>::zeros_fault(
                    #[trigger] outputs[i],
                    memory,
                    policy,
                ) is None
            &&& names_are_text(session)
        },
        AllocatedOutputTensorIoLane::<T>::prepare_fault(session, memory, inputs, outputs, policy) is None
            <==> {
            &&& inputs.len() == session.inputs().len()
            &&& outputs.len() == session.outputs().len()
            &&& forall|i: int|
                0 <= i < inputs.len() ==> TensorBuffer::<T>::zeros_fault(
                    #[trigger] inputs[i],
                    memory,
                    policy,
                ) is None
            &&& forall|i: int|
                0 <= i < outputs.len() ==> crate::shape::count_fault(#[trigger] outputs[i]) is None
            &&& names_are_text(session)
        },
{
    sessions_are_bound_by_text(session);
    crate::runtime::set_laws::sides_are_built_where_every_buffer_is::<T>(inputs, memory, policy);
    crate::runtime::set_laws::sides_are_built_where_every_buffer_is::<T>(outputs, memory, policy);
    crate::runtime::set_laws::sides_are_allocated_where_every_tensor_counts(
        outputs,
        outputs.len() as int,
    );
}

/// The first count that does not fit is the one that is named, with what the session has and what was given.
pub proof fn counts_are_named_as_they_are(session: Session, got: nat, what: Count)
    requires
        session.inputs().len() <= usize::MAX,
        session.outputs().len() <= usize::MAX,
        got <= usize::MAX,
    ensures
        session.input_count_fault(got) is None <==> got == session.inputs().len(),
        session.input_count_fault(got) matches Some(error) ==> (error matches Error::CountMismatch {
            what: named,
            expected,
            got: given,
        } && named == Count::Input && expected == session.inputs().len() && given == got),
        session.output_count_fault(got, what) is None <==> got == session.outputs().len(),
        session.output_count_fault(got, what) matches Some(error) ==> (error matches Error::CountMismatch {
            what: named,
            expected,
            got: given,
        } && named == what && expected == session.outputs().len() && given == got),
{
}

/// The buffers have the shapes, in order, in that memory, and hold zeros only.
pub open spec fn are_zeroed<T: TensorElement>(
    buffers: Seq<TensorBuffer<T>>,
    shapes: Seq<Seq<i64>>,
    memory: MemoryInfo,
) -> bool {
    &&& buffers.len() == shapes.len()
    &&& forall|i: int|
        0 <= i < shapes.len() ==> {
            &&& (#[trigger] buffers[i]).dims() == shapes[i]
            &&& buffers[i].spec_memory() == memory
            &&& buffers[i]@.len() == crate::shape::product(shapes[i]) as nat
            &&& forall|j: int| 0 <= j < buffers[i]@.len() ==> #[trigger] buffers[i]@[j] == T::spec_zero()
        }
}

/// The tensors have the shapes, in order, in that memory.
pub open spec fn are_allocated<T: TensorElement>(
    tensors: Seq<AllocatedTensor<T>>,
    shapes: Seq<Seq<i64>>,
    memory: MemoryInfo,
) -> bool {
    &&& tensors.len() == shapes.len()
    &&& forall|i: int|
        0 <= i < shapes.len() ==> (#[trigger] tensors[i]).dims() == shapes[i]
            && tensors[i].spec_memory() == memory && tensors[i].spec_len() == crate::shape::product(
            shapes[i],
        )
}

proof fn lemma_zeroed<T: TensorElement>(
    buffers: Seq<TensorBuffer<T>>,
    shapes: Seq<Seq<i64>>,
    memory: MemoryInfo,
    policy: BufferSpec,
)
    requires
        crate::runtime::lane_build::zeroed_buffers(buffers, shapes, memory, policy),
    ensures
        are_zeroed(buffers, shapes, memory),
{
}

/// A prepared lane belongs to its session and has a zeroed host buffer of every shape.
pub proof fn prepared_lanes_have_every_buffer<T: TensorElement>(
    lane: TensorIoLane<T>,
    plan: CallPlan<BuildCall>,
    session: Session,
    memory: MemoryInfo,
    inputs: Seq<Seq<i64>>,
    outputs: Seq<Seq<i64>>,
    policy: BufferSpec,
)
    requires
        TensorIoLane::prepare_outcome(Ok((lane, plan)), session, memory, inputs, outputs, policy),
    ensures
        lane.spec_session() == session.spec_handle(),
        are_zeroed(lane.input_tensors(), inputs, memory),
        are_zeroed(lane.output_tensors(), outputs, memory),
        plan.made() == 0,
        plan.all().len() == 2 * (inputs.len() + outputs.len()) + 1,
{
    lemma_zeroed(lane.input_tensors(), inputs, memory, policy);
    lemma_zeroed(lane.output_tensors(), outputs, memory, policy);
}

/// A prepared lane of known counts belongs to its session and has a zeroed host buffer of every shape.
pub proof fn prepared_static_lanes_have_every_buffer<
    T: TensorElement,
    const INPUTS: usize,
    const OUTPUTS: usize,
>(
    lane: StaticTensorIoLane<T, INPUTS, OUTPUTS>,
    plan: CallPlan<BuildCall>,
    session: Session,
    memory: MemoryInfo,
    inputs: Seq<Seq<i64>>,
    outputs: Seq<Seq<i64>>,
    policy: BufferSpec,
)
    requires
        StaticTensorIoLane::prepare_outcome(
            Ok((lane, plan)),
            session,
            memory,
            inputs,
            outputs,
            policy,
        ),
    ensures
        lane.spec_session() == session.spec_handle(),
        are_zeroed(lane.input_tensors(), inputs, memory),
        are_zeroed(lane.output_tensors(), outputs, memory),
        plan.made() == 0,
        plan.all().len() == 2 * (inputs.len() + outputs.len()) + 1,
{
    lemma_zeroed(lane.input_tensors(), inputs, memory, policy);
    lemma_zeroed(lane.output_tensors(), outputs, memory, policy);
}

/// A prepared lane with allocated outputs has a zeroed host buffer for every input and a tensor of its own
/// memory for every output.
pub proof fn prepared_output_lanes_have_every_tensor<T: TensorElement>(
    lane: AllocatedOutputTensorIoLane<T>,
    plan: CallPlan<BuildCall>,
    session: Session,
    input_memory: MemoryInfo,
    output_memory: MemoryInfo,
    inputs: Seq<Seq<i64>>,
    outputs: Seq<Seq<i64>>,
    policy: BufferSpec,
)
    requires
        AllocatedOutputTensorIoLane::prepare_outcome(
            Ok((lane, plan)),
            session,
            input_memory,
            output_memory,
            inputs,
            outputs,
            policy,
        ),
    ensures
        lane.spec_session() == session.spec_handle(),
        are_zeroed(lane.input_tensors(), inputs, input_memory),
        are_allocated(lane.output_tensors(), outputs, output_memory),
{
    lemma_zeroed(lane.input_tensors(), inputs, input_memory, policy);
}

/// A prepared lane with outputs that the engine allocates has a zeroed host buffer for every input, knows the
/// memory of the outputs, and has none of them yet. Every output of the session is bound to that memory.
pub proof fn prepared_device_lanes_await_their_outputs<T: TensorElement>(
    lane: DeviceOutputTensorIoLane<T>,
    plan: CallPlan<BuildCall>,
    session: Session,
    memory: MemoryInfo,
    output_memory: MemoryInfo,
    inputs: Seq<Seq<i64>>,
    policy: BufferSpec,
)
    requires
        DeviceOutputTensorIoLane::prepare_outcome(
            Ok((lane, plan)),
            session,
            memory,
            output_memory,
            inputs,
            policy,
        ),
    ensures
        inputs.len() == session.inputs().len(),
        lane.spec_session() == session.spec_handle(),
        are_zeroed(lane.input_tensors(), inputs, memory),
        lane.spec_output_memory() == output_memory,
        lane.output_tensors().len() == 0,
        forall|i: int|
            0 <= i < session.outputs().len() ==> #[trigger] plan.all()[2 * inputs.len() + 1 + i]
                == BuildCall::BindMemory(Side::Output, i as usize),
{
    lemma_zeroed(lane.input_tensors(), inputs, memory, policy);
    crate::runtime::runtime_laws::session_lanes_bind_every_tensor_once(
        crate::session::lanes::Place::Host,
        inputs.len(),
        crate::session::lanes::Place::Memory,
        session.outputs().len(),
    );
    let calls = crate::session::lanes::lane_calls(
        crate::session::lanes::Place::Host,
        inputs.len(),
        crate::session::lanes::Place::Memory,
        session.outputs().len(),
    );
    assert forall|i: int| 0 <= i < session.outputs().len() implies #[trigger] plan.all()[2 * inputs.len() + 1
        + i] == BuildCall::BindMemory(Side::Output, i as usize) by {
        assert(calls[inputs.len() + 1 + inputs.len() + i] == BuildCall::BindMemory(
            Side::Output,
            i as usize,
        ));
    }
}

/// A prepared lane of allocated tensors has one of every shape, on either side in the side's own memory.
pub proof fn prepared_allocated_lanes_have_every_tensor<T: TensorElement>(
    lane: AllocatedTensorIoLane<T>,
    plan: CallPlan<BuildCall>,
    session: Session,
    input_memory: MemoryInfo,
    output_memory: MemoryInfo,
    inputs: Seq<Seq<i64>>,
    outputs: Seq<Seq<i64>>,
)
    requires
        AllocatedTensorIoLane::prepare_outcome(
            Ok((lane, plan)),
            session,
            input_memory,
            output_memory,
            inputs,
            outputs,
        ),
    ensures
        inputs.len() == session.inputs().len(),
        outputs.len() == session.outputs().len(),
        lane.spec_session() == session.spec_handle(),
        are_allocated(lane.input_tensors(), inputs, input_memory),
        are_allocated(lane.output_tensors(), outputs, output_memory),
{
}

/// Lanes are prepared all or none, as many as were asked for, and all alike.
pub proof fn lanes_are_prepared_alike<T: TensorElement>(
    made: Vec<(TensorIoLane<T>, CallPlan<BuildCall>)>,
    session: Session,
    memory: MemoryInfo,
    inputs: Seq<Seq<i64>>,
    outputs: Seq<Seq<i64>>,
    lanes: usize,
    policy: BufferSpec,
    k: int,
)
    requires
        crate::session::lanes::lanes_outcome(
            Ok(made),
            session,
            memory,
            inputs,
            outputs,
            lanes,
            policy,
        ),
        0 <= k < lanes,
    ensures
        made@.len() == lanes,
        made@[k].0.spec_session() == session.spec_handle(),
        are_zeroed(made@[k].0.input_tensors(), inputs, memory),
        are_zeroed(made@[k].0.output_tensors(), outputs, memory),
{
    assert(TensorIoLane::<T>::prepare_outcome(
        Ok(made@[k]),
        session,
        memory,
        inputs,
        outputs,
        policy,
    ));
    prepared_lanes_have_every_buffer(
        made@[k].0,
        made@[k].1,
        session,
        memory,
        inputs,
        outputs,
        policy,
    );
}

/// Overwriting one tensor of a lane leaves all the others as they were.
pub proof fn overwrites_reach_one_tensor<T: TensorElement>(
    before: Seq<AllocatedTensor<T>>,
    after: Seq<AllocatedTensor<T>>,
    i: int,
    elements: Seq<T>,
    j: int,
)
    requires
        crate::session::lanes::overwritten(before, after, i, elements),
        0 <= i < before.len(),
        0 <= j < before.len(),
    ensures
        after.len() == before.len(),
        j == i ==> after[j].contents() == elements,
        j != i ==> after[j] == before[j],
        after[j].dims() == before[j].dims(),
        after[j].spec_memory() == before[j].spec_memory(),
{
}

/// A run hands the engine the handles of its inputs in order, and an empty place for every output.
pub proof fn runs_hand_over_every_handle(
    session: Session,
    arrays: RunArrays,
    inputs: Seq<u64>,
    slots: nat,
    stream_environment: Option<u64>,
)
    requires
        session.run_outcome(Ok(arrays), inputs, slots, stream_environment),
    ensures
        session.run_fault(inputs.len(), slots, stream_environment) is None,
        arrays.inputs@.len() == inputs.len(),
        forall|i: int| 0 <= i < inputs.len() ==> #[trigger] arrays.inputs@[i] == inputs[i],
        arrays.outputs@.len() == slots,
        forall|i: int| 0 <= i < slots ==> #[trigger] arrays.outputs@[i] == 0,
{
}

/// The name of an input or output is given exactly where there is one at the index and it is text.
pub proof fn names_are_given_at_their_index(
    name: Result<&str, Error>,
    names: Seq<Vec<u8>>,
    side: Side,
    i: usize,
)
    requires
        crate::session::session::name_outcome(name, names, side, i),
    ensures
        name is Ok <==> i < names.len() && vstd::utf8::valid_utf8(names[i as int]@),
        name matches Ok(text) ==> vstd::utf8::encode_utf8(text@) == names[i as int]@,
        name matches Err(error) ==> if i < names.len() {
            error == (Error::NameNotUtf8 { side, index: i })
        } else {
            error == (Error::SessionIndexOutOfRange { side, index: i, count: names.len() as usize })
        },
{
}

/// Values are bound exactly where there is one for every input and output and all names are text.
pub proof fn values_are_bound_where_they_fit(session: Session, inputs: nat, outputs: nat)
    ensures
        session.bind_values_fault(inputs, outputs) is None <==> {
            &&& inputs == session.inputs().len()
            &&& outputs == session.outputs().len()
            &&& names_are_text(session)
        },
{
    sessions_are_bound_by_text(session);
}

/// Every buffer of a side is audited at its own index, against its own address, or none is.
pub proof fn audits_cover_every_buffer<T: TensorElement>(
    audits: Vec<TensorBufferAudit>,
    direction: IoDirection,
    buffers: Seq<TensorBuffer<T>>,
    addresses: Seq<BufferAddress>,
    i: int,
)
    requires
        crate::runtime::audit::audits_outcome(Ok(audits), direction, buffers, addresses),
        0 <= i < buffers.len() <= usize::MAX,
    ensures
        audits@.len() == buffers.len(),
        audits@[i].index == i,
        audits@[i].direction == direction,
        audits@[i].rust_ptr == addresses[i].rust_ptr,
        audits@[i].ort_ptr == addresses[i].ort_ptr,
        audits@[i].element_count == buffers[i]@.len(),
        audits@[i].byte_len == buffers[i]@.len() * T::spec_size(),
        audits@[i].memory_info == buffers[i].spec_memory(),
{
}

/// The handles of values are theirs, in order.
pub proof fn values_have_their_own_handles(values: Seq<Introspection>, i: int)
    requires
        0 <= i < values.len(),
    ensures
        crate::tensor::value::handles_of(values).len() == values.len(),
        crate::tensor::value::handles_of(values)[i] == values[i].value,
{
}

/// Values are told apart up to the first that the engine cannot describe.
pub proof fn the_first_undescribed_value_is_named(values: Seq<Introspection>, n: int)
    requires
        0 <= n <= values.len(),
    ensures
        match crate::tensor::value::first_failure(values, n) {
            None => forall|i: int| 0 <= i < n ==> (#[trigger] values[i]).outcome() is Ok,
            Some(at) => {
                &&& 0 <= at < n
                &&& values[at].outcome() is Err
                &&& forall|i: int| 0 <= i < at ==> (#[trigger] values[i]).outcome() is Ok
            },
        },
    decreases n,
{
    if n > 0 {
        the_first_undescribed_value_is_named(values, n - 1);
        if crate::tensor::value::first_failure(values, n) is None {
            assert forall|i: int| 0 <= i < n implies (#[trigger] values[i]).outcome() is Ok by {
                assert(i == n - 1 || i < n - 1);
            }
        }
    }
}

} // verus!
