//! Serving lanes: owned buffers and a binding for one fixed shape, run one at a time.
use vstd::prelude::*;

use crate::element::TensorElement;
use crate::error::{fail, Count, Error, Fault, Side, Slot};
use crate::memory::MemoryInfo;
use crate::runtime::audit::{
    assert_side_zero_copy, audit_buffers, BufferAddress, IoDirection, LaneHotPathAudit, TensorBufferAudit,
};
use crate::runtime::lane_build::{
    build_buffers, build_device_tensors, check_output_names, input_binding_names, plan_serving_lane, BuildCall,
};
use crate::runtime::lane_state::{LaneCall, LaneState, Phase, RunMode, RunOptions, Step};
use crate::runtime::options::CudaStream;
use crate::session::async_run::AsyncState;
use crate::session::session::Session;
use crate::tensor::allocated::AllocatedTensor;
use crate::tensor::buffer::{BufferSpec, TensorBuffer};

verus! {

/// Result of a nonblocking completion query.
#[derive(Debug, Clone, Copy, PartialEq, Eq, Structural)]
pub enum CompletionStatus {
    /// Provider work is still using the lane's resources.
    Pending,
    /// The lane is complete and its resources are safe to access or reuse.
    Ready,
}

/// How an operation goes on.
#[derive(Debug, PartialEq, Eq)]
pub enum LaneProgress {
    /// Make this call and answer it.
    Call(LaneCall),
    /// The operation is over.
    Done(Result<(), Error>),
}

/// What a nonblocking completion query needs.
#[derive(Debug, Clone, Copy, PartialEq, Eq, Structural)]
pub enum CompletionQuery {
    /// Nothing is pending.
    Ready,
    /// Ask the completion event.
    AskEvent,
}

/// Where a lane's inputs and outputs lie while it runs.
#[derive(Debug, Clone, Copy, PartialEq, Eq, Structural)]
pub enum Placement {
    /// Host inputs and outputs are bound directly.
    Host,
    /// Inputs of one device are bound, refreshed from host staging.
    DeviceInputs(i32),
    /// Inputs and outputs of one device are bound.
    DeviceIo(i32),
}

/// How a lane's buffers are made and placed.
#[derive(Debug, Clone, Copy)]
pub struct LaneRecipe<'a> {
    pub input_memory: &'a MemoryInfo,
    pub output_memory: &'a MemoryInfo,
    pub input_policy: BufferSpec,
    pub output_policy: BufferSpec,
    pub placement: Placement,
}

impl<'a> LaneRecipe<'a> {
    /// The device whose inputs are bound.
    pub open spec fn device(self) -> Option<i32> {
        match self.placement {
            Placement::Host => None,
            Placement::DeviceInputs(id) => Some(id),
            Placement::DeviceIo(id) => Some(id),
        }
    }

    /// The device whose outputs are bound.
    pub open spec fn device_output(self) -> Option<i32> {
        match self.placement {
            Placement::DeviceIo(id) => Some(id),
            _ => None,
        }
    }

    /// How the host inputs are made: staging for device inputs is page-locked by default.
    pub open spec fn staging_policy(self) -> BufferSpec {
        if self.placement is Host {
            self.input_policy
        } else {
            self.input_policy.spec_or_if_auto(BufferSpec::CudaPinned)
        }
    }
}

/// One exclusive lane with fixed shapes, typed inputs and typed outputs.
#[derive(Debug)]
pub struct ServingLane<I: TensorElement, O: TensorElement, const INPUTS: usize, const OUTPUTS: usize> {
    inputs: Vec<TensorBuffer<I>>,
    outputs: Vec<TensorBuffer<O>>,
    device_inputs: Option<Vec<AllocatedTensor<I>>>,
    device_outputs: Option<Vec<AllocatedTensor<O>>>,
    input_names: Vec<String>,
    session: u64,
    sync_stream: Option<u64>,
    stream: Option<CudaStream>,
    downstream_event: Option<i32>,
    recovery_slot: Option<usize>,
    state: LaneState,
    failure: Option<Error>,
}

/// What a lane is built from.
pub struct LaneParts<I: TensorElement, O: TensorElement> {
    pub inputs: Seq<TensorBuffer<I>>,
    pub outputs: Seq<TensorBuffer<O>>,
    pub device_inputs: Option<Seq<AllocatedTensor<I>>>,
    pub device_outputs: Option<Seq<AllocatedTensor<O>>>,
    pub input_names: Seq<Seq<char>>,
    pub session: u64,
    pub sync_stream: Option<u64>,
    pub stream: Option<CudaStream>,
    pub downstream_event: Option<i32>,
}

impl<I: TensorElement, O: TensorElement, const INPUTS: usize, const OUTPUTS: usize> ServingLane<
    I,
    O,
    INPUTS,
    OUTPUTS,
> {
    /// The buffers, the placement and the session of the lane.
    pub closed spec fn parts(self) -> LaneParts<I, O> {
        LaneParts {
            inputs: self.inputs@,
            outputs: self.outputs@,
            device_inputs: match self.device_inputs {
                Some(tensors) => Some(tensors@),
                None => None,
            },
            device_outputs: match self.device_outputs {
                Some(tensors) => Some(tensors@),
                None => None,
            },
            input_names: Seq::new(self.input_names@.len(), |i: int| self.input_names@[i]@),
            session: self.session,
            sync_stream: self.sync_stream,
            stream: self.stream,
            downstream_event: self.downstream_event,
        }
    }

    /// What decides the lane's engine calls.
    pub closed spec fn lane_state(self) -> LaneState {
        self.state
    }

    /// The failure of the operation under way.
    pub closed spec fn pending_failure(self) -> Option<Error> {
        self.failure
    }

    /// The lane's slot for recovery.
    pub closed spec fn slot(self) -> Option<usize> {
        self.recovery_slot
    }

    /// Whether every input's name is held.
    pub open spec fn names_cached(self) -> bool {
        self.parts().input_names.len() == INPUTS
    }

    /// The names that are held are those of the session's inputs.
    pub open spec fn names_inputs_of(self, session: Session) -> bool {
        &&& self.names_cached()
        &&& forall|i: int|
            0 <= i < INPUTS ==> vstd::utf8::encode_utf8(#[trigger] self.parts().input_names[i])
                == session.inputs()[i]@
    }

    /// Whether provider work may still be pending.
    pub open spec fn in_flight(self) -> bool {
        self.lane_state().in_flight
    }

    /// Whether no operation is under way.
    pub open spec fn at_rest(self) -> bool {
        self.lane_state().phase is Rest
    }

    /// The lane's state is one that its operations lead to, its buffers are as many as its types
    /// say, and it has device inputs where its state says so.
    pub open spec fn wf(self) -> bool {
        &&& self.lane_state().inv()
        &&& self.lane_state().input_count == INPUTS
        &&& self.parts().inputs.len() == INPUTS
        &&& self.parts().outputs.len() == OUTPUTS
        &&& self.lane_state().device_inputs == (self.parts().device_inputs is Some)
        &&& self.parts().device_inputs matches Some(tensors) ==> tensors.len() == INPUTS
        &&& self.parts().device_outputs matches Some(tensors) ==> tensors.len() == OUTPUTS
        &&& self.at_rest() ==> self.pending_failure() is None
    }

    /// The lane is the other one but for its state and the failure of its operation.
    pub open spec fn same_parts(self, other: Self) -> bool {
        &&& self.parts() == other.parts()
        &&& self.slot() == other.slot()
    }

    /// The state of a lane that was just built.
    pub open spec fn fresh_state(device: Option<i32>) -> LaneState {
        LaneState {
            input_count: INPUTS,
            device_inputs: device is Some,
            cuda_device: device,
            rebind_inputs_each_run: false,
            run_options: None,
            enqueued_run_options: RunOptions::enqueued(None, None),
            graph_id: None,
            graph_captured: false,
            graph_lease: None,
            in_flight_graph_guard: None,
            completion_event_recorded: false,
            in_flight: false,
            phase: Phase::Rest,
        }
    }

    /// Why a lane cannot be built.
    pub open spec fn build_fault(
        session: Session,
        input_memory: MemoryInfo,
        output_memory: MemoryInfo,
        input_shapes: Seq<Seq<i64>>,
        output_shapes: Seq<Seq<i64>>,
        input_policy: BufferSpec,
        output_policy: BufferSpec,
    ) -> Option<Error> {
        if INPUTS != session.inputs().len() {
            Some(
                Error::CountMismatch {
                    what: Count::StaticInput,
                    expected: session.inputs().len() as usize,
                    got: INPUTS,
                },
            )
        } else if OUTPUTS != session.outputs().len() {
            Some(
                Error::CountMismatch {
                    what: Count::StaticOutput,
                    expected: session.outputs().len() as usize,
                    got: OUTPUTS,
                },
            )
        } else {
            match crate::runtime::lane_build::buffers_fault::<I>(input_shapes, input_memory, input_policy) {
                Some(error) => Some(error),
                None => match crate::runtime::lane_build::buffers_fault::<O>(output_shapes, output_memory, output_policy) {
                    Some(error) => Some(error),
                    None => match crate::runtime::lane_build::binding_names_fault(
                        session.inputs(),
                        Side::Input,
                        INPUTS as int,
                    ) {
                        Some(error) => Some(error),
                        None => crate::runtime::lane_build::binding_names_fault(
                            session.outputs(),
                            Side::Output,
                            OUTPUTS as int,
                        ),
                    },
                },
            }
        }
    }

    /// This is the lane that a build makes.
    pub open spec fn is_built(
        self,
        session: Session,
        input_memory: MemoryInfo,
        output_memory: MemoryInfo,
        input_shapes: Seq<Seq<i64>>,
        output_shapes: Seq<Seq<i64>>,
        input_policy: BufferSpec,
        output_policy: BufferSpec,
        device: Option<i32>,
        stream: Option<CudaStream>,
        device_output: Option<i32>,
    ) -> bool {
        &&& self.wf()
        &&& self.lane_state() == Self::fresh_state(device)
        &&& self.slot() is None
        &&& self.names_inputs_of(session)
        &&& self.parts().session == session.spec_handle()
        &&& self.parts().sync_stream is None
        &&& self.parts().stream == stream
        &&& self.parts().downstream_event == device_output
        &&& crate::runtime::lane_build::zeroed_buffers(self.parts().inputs, input_shapes, input_memory, input_policy)
        &&& crate::runtime::lane_build::zeroed_buffers(self.parts().outputs, output_shapes, output_memory, output_policy)
        &&& match device {
            Some(id) => self.parts().device_inputs matches Some(tensors) && crate::runtime::lane_build::device_tensors(
                tensors,
                input_shapes,
                id,
            ),
            None => self.parts().device_inputs is None,
        }
        &&& match device_output {
            Some(id) => self.parts().device_outputs matches Some(tensors) && crate::runtime::lane_build::device_tensors(
                tensors,
                output_shapes,
                id,
            ),
            None => self.parts().device_outputs is None,
        }
    }

    /// `result` is the outcome of building a lane.
    pub open spec fn build_outcome(
        result: Result<(Self, Vec<BuildCall>), Error>,
        session: Session,
        input_memory: MemoryInfo,
        output_memory: MemoryInfo,
        input_shapes: Seq<Seq<i64>>,
        output_shapes: Seq<Seq<i64>>,
        input_policy: BufferSpec,
        output_policy: BufferSpec,
        device: Option<i32>,
        stream: Option<CudaStream>,
        device_output: Option<i32>,
    ) -> bool {
        match Self::build_fault(
            session,
            input_memory,
            output_memory,
            input_shapes,
            output_shapes,
            input_policy,
            output_policy,
        ) {
            Some(error) => result == Err::<(Self, Vec<BuildCall>), Error>(error),
            None => {
                &&& result matches Ok((lane, calls))
                &&& lane.is_built(
                    session,
                    input_memory,
                    output_memory,
                    input_shapes,
                    output_shapes,
                    input_policy,
                    output_policy,
                    device,
                    stream,
                    device_output,
                )
                &&& calls@ == crate::runtime::lane_build::serving_lane_calls(
                    INPUTS as nat,
                    OUTPUTS as nat,
                    device,
                    device_output,
                )
            },
        }
    }

    /// Build a lane and say which engine calls make it: host inputs are bound directly, or are
    /// staging for device inputs where a device is given.
    fn build(
        session: &Session,
        input_memory: &MemoryInfo,
        output_memory: &MemoryInfo,
        input_shapes: [&[i64]; INPUTS],
        output_shapes: [&[i64]; OUTPUTS],
        input_policy: BufferSpec,
        output_policy: BufferSpec,
        device: Option<i32>,
        stream: Option<CudaStream>,
        device_output: Option<i32>,
    ) -> (result: Result<(Self, Vec<BuildCall>), Error>)
        ensures
            Self::build_outcome(
                result,
                *session,
                *input_memory,
                *output_memory,
                crate::shape::slice_shapes(input_shapes@),
                crate::shape::slice_shapes(output_shapes@),
                input_policy,
                output_policy,
                device,
                stream,
                device_output,
            ),
    {
        if INPUTS != session.input_count() {
            return Err(
                Error::CountMismatch {
                    what: Count::StaticInput,
                    expected: session.input_count(),
                    got: INPUTS,
                },
            );
        }
        if OUTPUTS != session.output_count() {
            return Err(
                Error::CountMismatch {
                    what: Count::StaticOutput,
                    expected: session.output_count(),
                    got: OUTPUTS,
                },
            );
        }
        let inputs: Vec<TensorBuffer<I>> = match build_buffers(
            input_shapes.as_slice(),
            input_memory,
            input_policy,
        ) {
            Err(error) => {
                return Err(error);
            },
            Ok(buffers) => buffers,
        };
        let outputs: Vec<TensorBuffer<O>> = match build_buffers(
            output_shapes.as_slice(),
            output_memory,
            output_policy,
        ) {
            Err(error) => {
                return Err(error);
            },
            Ok(buffers) => buffers,
        };
        let input_names: Vec<String> = match input_binding_names(session) {
            Err(error) => {
                return Err(error);
            },
            Ok(names) => names,
        };
        match check_output_names(session) {
            Err(error) => {
                return Err(error);
            },
            Ok(()) => {},
        }
        proof {
            let ins = crate::shape::slice_shapes(input_shapes@);
            let outs = crate::shape::slice_shapes(output_shapes@);
            assert forall|i: int| 0 <= i < input_shapes@.len() implies crate::shape::count_fault(
                (#[trigger] input_shapes@[i])@,
            ) is None by {
                assert(inputs@[i].wf());
                assert(ins[i] == input_shapes@[i]@);
            }
            assert forall|i: int| 0 <= i < output_shapes@.len() implies crate::shape::count_fault(
                (#[trigger] output_shapes@[i])@,
            ) is None by {
                assert(outputs@[i].wf());
                assert(outs[i] == output_shapes@[i]@);
            }
        }
        let device_inputs: Option<Vec<AllocatedTensor<I>>> = match device {
            None => None,
            Some(id) => match build_device_tensors(session, id, input_shapes.as_slice()) {
                Err(error) => {
                    return Err(error);
                },
                Ok(tensors) => Some(tensors),
            },
        };
        let device_outputs: Option<Vec<AllocatedTensor<O>>> = match device_output {
            None => None,
            Some(id) => match build_device_tensors(session, id, output_shapes.as_slice()) {
                Err(error) => {
                    return Err(error);
                },
                Ok(tensors) => Some(tensors),
            },
        };
        let calls: Vec<BuildCall> = plan_serving_lane(INPUTS, OUTPUTS, device, device_output);
        let state = LaneState {
            input_count: INPUTS,
            device_inputs: device.is_some(),
            cuda_device: device,
            rebind_inputs_each_run: false,
            run_options: None,
            enqueued_run_options: RunOptions {
                graph_id: None,
                disable_ep_sync: true,
                sync_stream: None,
            },
            graph_id: None,
            graph_captured: false,
            graph_lease: None,
            in_flight_graph_guard: None,
            completion_event_recorded: false,
            in_flight: false,
            phase: Phase::Rest,
        };
        Ok(
            (
                ServingLane {
                    inputs,
                    outputs,
                    device_inputs,
                    device_outputs,
                    input_names,
                    session: session.handle(),
                    sync_stream: None,
                    stream,
                    downstream_event: device_output,
                    recovery_slot: None,
                    state,
                    failure: None,
                },
                calls,
            ),
        )
    }

    /// Why a lane of this recipe cannot be built. Device inputs need a stream of their device
    /// that the session itself runs on.
    pub open spec fn place_fault(
        session: Session,
        recipe: LaneRecipe,
        stream: Option<CudaStream>,
        input_shapes: Seq<Seq<i64>>,
        output_shapes: Seq<Seq<i64>>,
    ) -> Option<Error> {
        if recipe.device() is Some && (stream is None || Some(stream->Some_0.device_id)
            != recipe.device() || !session.streams().contains(stream->Some_0)) {
            Some(Error::Fault(Fault::SessionStreamMismatch))
        } else {
            Self::build_fault(
                session,
                *recipe.input_memory,
                *recipe.output_memory,
                input_shapes,
                output_shapes,
                recipe.staging_policy(),
                recipe.output_policy,
            )
        }
    }

    /// This is the lane of a recipe.
    pub open spec fn is_placed(
        self,
        session: Session,
        recipe: LaneRecipe,
        stream: Option<CudaStream>,
        input_shapes: Seq<Seq<i64>>,
        output_shapes: Seq<Seq<i64>>,
    ) -> bool {
        self.is_built(
            session,
            *recipe.input_memory,
            *recipe.output_memory,
            input_shapes,
            output_shapes,
            recipe.staging_policy(),
            recipe.output_policy,
            recipe.device(),
            if recipe.device() is Some {
                stream
            } else {
                None
            },
            recipe.device_output(),
        )
    }

    /// The engine calls that make the lane of a recipe.
    pub open spec fn place_calls(recipe: LaneRecipe) -> Seq<BuildCall> {
        crate::runtime::lane_build::serving_lane_calls(
            INPUTS as nat,
            OUTPUTS as nat,
            recipe.device(),
            recipe.device_output(),
        )
    }

    /// `result` is the outcome of building the lane of a recipe.
    pub open spec fn place_outcome(
        result: Result<(Self, Vec<BuildCall>), Error>,
        session: Session,
        recipe: LaneRecipe,
        stream: Option<CudaStream>,
        input_shapes: Seq<Seq<i64>>,
        output_shapes: Seq<Seq<i64>>,
    ) -> bool {
        match Self::place_fault(session, recipe, stream, input_shapes, output_shapes) {
            Some(error) => result == Err::<(Self, Vec<BuildCall>), Error>(error),
            None => {
                &&& result matches Ok((lane, calls))
                &&& lane.is_placed(session, recipe, stream, input_shapes, output_shapes)
                &&& calls@ == Self::place_calls(recipe)
            },
        }
    }

    /// Build the lane of a recipe.
    pub fn place(
        session: &Session,
        recipe: LaneRecipe,
        stream: Option<CudaStream>,
        input_shapes: [&[i64]; INPUTS],
        output_shapes: [&[i64]; OUTPUTS],
    ) -> (result: Result<(Self, Vec<BuildCall>), Error>)
        ensures
            Self::place_outcome(
                result,
                *session,
                recipe,
                stream,
                crate::shape::slice_shapes(input_shapes@),
                crate::shape::slice_shapes(output_shapes@),
            ),
    {
        let (device, device_output): (Option<i32>, Option<i32>) = match recipe.placement {
            Placement::Host => (None, None),
            Placement::DeviceInputs(id) => (Some(id), None),
            Placement::DeviceIo(id) => (Some(id), Some(id)),
        };
        match device {
            None => Self::build(
                session,
                recipe.input_memory,
                recipe.output_memory,
                input_shapes,
                output_shapes,
                recipe.input_policy,
                recipe.output_policy,
                None,
                None,
                None,
            ),
            Some(id) => match stream {
                None => fail(Fault::SessionStreamMismatch),
                Some(used) => {
                    if used.device_id != id || !session.uses_cuda_stream(used) {
                        return fail(Fault::SessionStreamMismatch);
                    }
                    Self::build(
                        session,
                        recipe.input_memory,
                        recipe.output_memory,
                        input_shapes,
                        output_shapes,
                        recipe.input_policy.or_if_auto(BufferSpec::CudaPinned),
                        recipe.output_policy,
                        device,
                        stream,
                        device_output,
                    )
                },
            },
        }
    }

    /// Build a lane over host buffers, with one memory for inputs and outputs.
    pub fn new(
        session: &Session,
        memory: &MemoryInfo,
        input_shapes: [&[i64]; INPUTS],
        output_shapes: [&[i64]; OUTPUTS],
    ) -> (result: Result<(Self, Vec<BuildCall>), Error>)
        ensures
            Self::place_outcome(
                result,
                *session,
                LaneRecipe {
                    input_memory: memory,
                    output_memory: memory,
                    input_policy: BufferSpec::Auto,
                    output_policy: BufferSpec::Auto,
                    placement: Placement::Host,
                },
                None,
                crate::shape::slice_shapes(input_shapes@),
                crate::shape::slice_shapes(output_shapes@),
            ),
    {
        Self::with_memory(session, memory, memory, input_shapes, output_shapes)
    }

    /// Build a lane over host buffers, with separate memories for inputs and outputs.
    pub fn with_memory(
        session: &Session,
        input_memory: &MemoryInfo,
        output_memory: &MemoryInfo,
        input_shapes: [&[i64]; INPUTS],
        output_shapes: [&[i64]; OUTPUTS],
    ) -> (result: Result<(Self, Vec<BuildCall>), Error>)
        ensures
            Self::place_outcome(
                result,
                *session,
                LaneRecipe {
                    input_memory,
                    output_memory,
                    input_policy: BufferSpec::Auto,
                    output_policy: BufferSpec::Auto,
                    placement: Placement::Host,
                },
                None,
                crate::shape::slice_shapes(input_shapes@),
                crate::shape::slice_shapes(output_shapes@),
            ),
    {
        Self::with_buffer_policy(
            session,
            input_memory,
            output_memory,
            input_shapes,
            output_shapes,
            BufferSpec::Auto,
            BufferSpec::Auto,
        )
    }

    /// Build a lane over host buffers with explicit policies.
    pub fn with_buffer_policy(
        session: &Session,
        input_memory: &MemoryInfo,
        output_memory: &MemoryInfo,
        input_shapes: [&[i64]; INPUTS],
        output_shapes: [&[i64]; OUTPUTS],
        input_policy: BufferSpec,
        output_policy: BufferSpec,
    ) -> (result: Result<(Self, Vec<BuildCall>), Error>)
        ensures
            Self::place_outcome(
                result,
                *session,
                LaneRecipe {
                    input_memory,
                    output_memory,
                    input_policy,
                    output_policy,
                    placement: Placement::Host,
                },
                None,
                crate::shape::slice_shapes(input_shapes@),
                crate::shape::slice_shapes(output_shapes@),
            ),
    {
        let recipe = LaneRecipe {
            input_memory,
            output_memory,
            input_policy,
            output_policy,
            placement: Placement::Host,
        };
        Self::place(session, recipe, None, input_shapes, output_shapes)
    }

    /// Build a lane with device-resident inputs, refreshed from host staging before each run on
    /// the very stream that the session replays on.
    pub fn with_device_inputs(
        session: &Session,
        input_memory: &MemoryInfo,
        output_memory: &MemoryInfo,
        input_shapes: [&[i64]; INPUTS],
        output_shapes: [&[i64]; OUTPUTS],
        input_policy: BufferSpec,
        output_policy: BufferSpec,
        device_id: i32,
        stream: CudaStream,
    ) -> (result: Result<(Self, Vec<BuildCall>), Error>)
        ensures
            Self::place_outcome(
                result,
                *session,
                LaneRecipe {
                    input_memory,
                    output_memory,
                    input_policy,
                    output_policy,
                    placement: Placement::DeviceInputs(device_id),
                },
                Some(stream),
                crate::shape::slice_shapes(input_shapes@),
                crate::shape::slice_shapes(output_shapes@),
            ),
    {
        let recipe = LaneRecipe {
            input_memory,
            output_memory,
            input_policy,
            output_policy,
            placement: Placement::DeviceInputs(device_id),
        };
        Self::place(session, recipe, Some(stream), input_shapes, output_shapes)
    }

    /// Build a lane with device-resident inputs and outputs. Its host outputs are placeholders
    /// in ordinary host memory.
    pub fn with_device_io(
        session: &Session,
        input_memory: &MemoryInfo,
        input_shapes: [&[i64]; INPUTS],
        output_shapes: [&[i64]; OUTPUTS],
        input_policy: BufferSpec,
        device_id: i32,
        stream: CudaStream,
    ) -> (result: Result<(Self, Vec<BuildCall>), Error>)
        ensures
            exists|host: MemoryInfo| #[trigger]
                host.is_cpu() && Self::place_outcome(
                    result,
                    *session,
                    LaneRecipe {
                        input_memory,
                        output_memory: &host,
                        input_policy,
                        output_policy: BufferSpec::Auto,
                        placement: Placement::DeviceIo(device_id),
                    },
                    Some(stream),
                    crate::shape::slice_shapes(input_shapes@),
                    crate::shape::slice_shapes(output_shapes@),
                ),
    {
        let host: MemoryInfo = MemoryInfo::cpu();
        let recipe = LaneRecipe {
            input_memory,
            output_memory: &host,
            input_policy,
            output_policy: BufferSpec::Auto,
            placement: Placement::DeviceIo(device_id),
        };
        let result = Self::place(session, recipe, Some(stream), input_shapes, output_shapes);
        assert(host.is_cpu());
        result
    }

    /// Whether provider work may still be pending.
    pub fn is_in_flight(&self) -> (is: bool)
        ensures
            is == self.in_flight(),
    {
        self.state.in_flight
    }

    /// Check that nothing is pending.
    pub fn ensure_idle(&self) -> (result: Result<(), Error>)
        ensures
            if self.in_flight() {
                result == Err::<(), Error>(Error::Fault(Fault::LaneInFlight))
            } else {
                result is Ok
            },
    {
        if self.state.in_flight {
            fail(Fault::LaneInFlight)
        } else {
            Ok(())
        }
    }

    /// `result` and `after` are what starting a run makes of the lane.
    pub open spec fn started(
        self,
        mode: RunMode,
        after: Self,
        result: Result<LaneCall, Error>,
    ) -> bool {
        match self.lane_state().start_fault(mode) {
            Some(fault) => after == self && result == Err::<LaneCall, Error>(Error::Fault(fault)),
            None => {
                &&& after.same_parts(self)
                &&& after.pending_failure() is None
                &&& after.lane_state() == self.lane_state().spec_start(mode).0
                &&& self.lane_state().spec_start(mode).1 is Some
                &&& result == Ok::<LaneCall, Error>(
                    self.lane_state().spec_start(mode).1->Some_0,
                )
                &&& !after.at_rest()
            },
        }
    }

    fn start(&mut self, mode: RunMode) -> (result: Result<LaneCall, Error>)
        requires
            old(self).wf(),
            old(self).at_rest(),
        ensures
            final(self).wf(),
            old(self).started(mode, *final(self), result),
    {
        match self.state.start(mode) {
            Err(fault) => fail(fault),
            Ok((state, call)) => {
                self.state = state;
                match call {
                    Some(call) => Ok(call),
                    None => fail(Fault::LaneInFlight),
                }
            },
        }
    }

    /// Start a run that waits for its outputs. The first call is to be made and answered.
    pub fn run(&mut self) -> (result: Result<LaneCall, Error>)
        requires
            old(self).wf(),
            old(self).at_rest(),
        ensures
            final(self).wf(),
            old(self).started(RunMode::Synchronized, *final(self), result),
    {
        self.start(RunMode::Synchronized)
    }

    /// Start a run that leaves the lane in flight once its work is queued.
    pub fn run_enqueued(&mut self) -> (result: Result<LaneCall, Error>)
        requires
            old(self).wf(),
            old(self).at_rest(),
        ensures
            final(self).wf(),
            old(self).started(RunMode::Enqueued, *final(self), result),
    {
        self.start(RunMode::Enqueued)
    }

    /// Start a run whose phases are synchronized one by one.
    pub fn run_profiled(&mut self) -> (result: Result<LaneCall, Error>)
        requires
            old(self).wf(),
            old(self).at_rest(),
        ensures
            final(self).wf(),
            old(self).started(RunMode::Profiled, *final(self), result),
    {
        self.start(RunMode::Profiled)
    }

    /// Start a graph replay that is fenced by its completion event.
    pub fn run_event_profiled(&mut self) -> (result: Result<LaneCall, Error>)
        requires
            old(self).wf(),
            old(self).at_rest(),
        ensures
            final(self).wf(),
            old(self).started(RunMode::EventProfiled, *final(self), result),
    {
        self.start(RunMode::EventProfiled)
    }

    /// Prepare an asynchronous run, unless one is pending. `session` is the lane's session, and
    /// `handles` are the engine's values of the lane's inputs.
    pub fn run_async<V>(&mut self, session: &Session, handles: Vec<u64>) -> (state: Result<
        AsyncState<V>,
        Error,
    >)
        ensures
            *final(self) == *old(self),
            if old(self).in_flight() {
                state == Err::<AsyncState<V>, Error>(Error::Fault(Fault::LaneInFlight))
            } else {
                session.async_outcome(state, handles@, None)
            },
    {
        if let Err(error) = self.ensure_idle() {
            return Err(error);
        }
        session.run_async_owned(handles, None)
    }

    /// Start a run without any synchronization. Lanes with device inputs or a captured graph
    /// refuse it.
    pub fn run_unsynchronized(&mut self) -> (result: Result<LaneCall, Error>)
        requires
            old(self).wf(),
            old(self).at_rest(),
        ensures
            final(self).wf(),
            old(self).started(RunMode::Unsynchronized, *final(self), result),
    {
        self.start(RunMode::Unsynchronized)
    }

    /// The failure after an answer: the first one that an operation met. Giving a guard back
    /// cannot fail an operation.
    pub open spec fn failure_after(self, reply: Result<(), Error>) -> Option<Error> {
        match self.pending_failure() {
            Some(error) => Some(error),
            None => match reply {
                Err(error) => if self.lane_state().phase is Ending {
                    None
                } else {
                    Some(error)
                },
                Ok(()) => None,
            },
        }
    }

    /// `after` and `progress` are what a step of the state makes of the lane.
    pub open spec fn progressed(
        self,
        step: Step,
        failure: Option<Error>,
        after: Self,
        progress: LaneProgress,
    ) -> bool {
        &&& after.same_parts(self)
        &&& after.lane_state() == step.0
        &&& match step.1 {
            Some(call) => progress == LaneProgress::Call(call) && after.pending_failure()
                == failure,
            None => {
                &&& after.pending_failure() is None
                &&& progress == LaneProgress::Done(
                    match failure {
                        Some(error) => Err(error),
                        None => Ok(()),
                    },
                )
            },
        }
    }

    fn progress(&mut self, step: Step) -> (progress: LaneProgress)
        requires
            old(self).wf(),
            step.0.inv(),
            step.0.input_count == old(self).lane_state().input_count,
            step.0.device_inputs == old(self).lane_state().device_inputs,
            step.1 is None <==> step.0.phase is Rest,
        ensures
            final(self).wf(),
            old(self).progressed(step, old(self).pending_failure(), *final(self), progress),
    {
        let (state, call): Step = step;
        self.state = state;
        match call {
            Some(call) => LaneProgress::Call(call),
            None => match self.failure.take() {
                Some(error) => LaneProgress::Done(Err(error)),
                None => LaneProgress::Done(Ok(())),
            },
        }
    }

    /// Take the answer to the last call and go on.
    pub fn answer(&mut self, reply: Result<(), Error>) -> (progress: LaneProgress)
        requires
            old(self).wf(),
            !old(self).at_rest(),
        ensures
            final(self).wf(),
            old(self).progressed(
                old(self).lane_state().spec_advance(reply is Ok),
                old(self).failure_after(reply),
                *final(self),
                progress,
            ),
    {
        let ending: bool = matches!(self.state.phase, Phase::Ending { .. });
        let ok: bool = reply.is_ok();
        if self.failure.is_none() && !ending {
            if let Err(error) = reply {
                self.failure = Some(error);
            }
        }
        proof {
            crate::runtime::lane_state::runs_keep_the_setup(self.state, ok);
        }
        let step: Step = self.state.advance(ok);
        let (state, call): Step = step;
        self.state = state;
        match call {
            Some(call) => LaneProgress::Call(call),
            None => match self.failure.take() {
                Some(error) => LaneProgress::Done(Err(error)),
                None => LaneProgress::Done(Ok(())),
            },
        }
    }

    /// The first step of waiting for what is pending.
    pub open spec fn wait_step(self) -> Step {
        if self.in_flight() {
            self.lane_state().spec_start_wait()
        } else {
            self.lane_state().spec_finish()
        }
    }

    /// Wait for the pending run, if there is one. Whatever the outcome, the lane is reusable
    /// afterwards if and only if a fence succeeded.
    pub fn synchronize_outputs(&mut self) -> (progress: LaneProgress)
        requires
            old(self).wf(),
            old(self).at_rest(),
        ensures
            final(self).wf(),
            old(self).progressed(old(self).wait_step(), None, *final(self), progress),
    {
        if !self.state.in_flight {
            return LaneProgress::Done(Ok(()));
        }
        let step: Step = self.state.start_wait();
        self.progress(step)
    }

    /// Wait for the pending run on teardown, where no failure can be reported.
    pub fn finish_in_flight_best_effort(&mut self) -> (progress: LaneProgress)
        requires
            old(self).wf(),
            old(self).at_rest(),
        ensures
            final(self).wf(),
            old(self).progressed(old(self).wait_step(), None, *final(self), progress),
    {
        self.synchronize_outputs()
    }

    /// The first step of settling a run guard after a run returned.
    pub open spec fn settle_step(
        self,
        guard: Option<i32>,
        ok: bool,
        retain_on_success: bool,
    ) -> Step {
        if !ok {
            self.lane_state().spec_wait_for(Phase::Fencing { guard }, LaneCall::SynchronizeOutputs)
        } else if retain_on_success {
            self.lane_state().spec_retained(guard).spec_finish()
        } else {
            self.lane_state().spec_cleared(guard)
        }
    }

    /// Settle a run guard after a run returned: keep it with the pending run, give it back, or
    /// fence what a failed run may have left before it is given back.
    pub fn settle_graph_run(
        &mut self,
        guard: Option<i32>,
        result: Result<(), Error>,
        retain_on_success: bool,
    ) -> (progress: LaneProgress)
        requires
            old(self).wf(),
            old(self).at_rest(),
            !old(self).in_flight(),
        ensures
            final(self).wf(),
            old(self).progressed(
                old(self).settle_step(guard, result is Ok, retain_on_success),
                match result {
                    Ok(()) => None,
                    Err(error) => Some(error),
                },
                *final(self),
                progress,
            ),
    {
        match result {
            Err(error) => {
                self.failure = Some(error);
                self.state.phase = Phase::Fencing { guard };
                LaneProgress::Call(LaneCall::SynchronizeOutputs)
            },
            Ok(()) => {
                if retain_on_success {
                    self.state.in_flight_graph_guard = guard;
                    self.state.in_flight = true;
                    LaneProgress::Done(Ok(()))
                } else {
                    let step: Step = self.state.clear_in_flight(guard);
                    self.progress(step)
                }
            },
        }
    }

    /// What a nonblocking completion query needs.
    pub open spec fn spec_completion_query(self) -> Result<CompletionQuery, Error> {
        if !self.in_flight() {
            Ok(CompletionQuery::Ready)
        } else if self.lane_state().completion_event_recorded {
            Ok(CompletionQuery::AskEvent)
        } else {
            Err(Error::Fault(Fault::NoCompletionEvent))
        }
    }

    /// What a nonblocking completion query needs: nothing where nothing is pending, the
    /// completion event where one stands behind the run. Elsewhere there is no sound answer.
    pub fn completion_query(&self) -> (query: Result<CompletionQuery, Error>)
        ensures
            query == self.spec_completion_query(),
    {
        if !self.state.in_flight {
            Ok(CompletionQuery::Ready)
        } else if self.state.completion_event_recorded {
            Ok(CompletionQuery::AskEvent)
        } else {
            fail(Fault::NoCompletionEvent)
        }
    }

    /// `after` and `result` are what the completion event's answer makes of the lane.
    pub open spec fn completed(
        self,
        complete: bool,
        after: Self,
        result: (CompletionStatus, Option<LaneCall>),
    ) -> bool {
        &&& after.same_parts(self)
        &&& after.pending_failure() is None
        &&& if complete {
            let step = self.lane_state().spec_cleared(self.lane_state().in_flight_graph_guard);
            &&& after.lane_state() == step.0
            &&& result == (CompletionStatus::Ready, step.1)
        } else {
            &&& after.lane_state() == self.lane_state()
            &&& result == (CompletionStatus::Pending, None::<LaneCall>)
        }
    }

    /// Take the completion event's answer: a complete run is discharged, and its guard is to be
    /// given back.
    pub fn try_complete(&mut self, complete: bool) -> (result: (
        CompletionStatus,
        Option<LaneCall>,
    ))
        requires
            old(self).wf(),
            old(self).at_rest(),
            old(self).lane_state().completion_event_recorded,
        ensures
            final(self).wf(),
            old(self).completed(complete, *final(self), result),
    {
        if !complete {
            return (CompletionStatus::Pending, None);
        }
        let (state, call): Step = self.state.clear_in_flight(self.state.in_flight_graph_guard);
        self.state = state;
        (CompletionStatus::Ready, call)
    }

    /// Discharge the pending run after a downstream consumer of its outputs has completed.
    pub fn mark_complete_after_gpu_chain(&mut self) -> (progress: LaneProgress)
        requires
            old(self).wf(),
            old(self).at_rest(),
        ensures
            final(self).wf(),
            old(self).progressed(
                old(self).lane_state().spec_cleared(old(self).lane_state().in_flight_graph_guard),
                None,
                *final(self),
                progress,
            ),
    {
        let step: Step = self.state.clear_in_flight(self.state.in_flight_graph_guard);
        self.progress(step)
    }

    /// Check that a downstream stream can wait for the pending run.
    pub fn queue_completion_wait(&self, downstream: CudaStream) -> (result: Result<(), Error>)
        ensures
            if !self.in_flight() || !self.lane_state().completion_event_recorded {
                result == Err::<(), Error>(Error::Fault(Fault::ChainNeedsCompletionEvent))
            } else if self.lane_state().cuda_device != Some(downstream.device_id) {
                result == Err::<(), Error>(Error::Fault(Fault::ChainDeviceMismatch))
            } else {
                result is Ok
            },
    {
        if !self.state.in_flight || !self.state.completion_event_recorded {
            return fail(Fault::ChainNeedsCompletionEvent);
        }
        match self.state.cuda_device {
            Some(device) => {
                if device != downstream.device_id {
                    fail(Fault::ChainDeviceMismatch)
                } else {
                    Ok(())
                }
            },
            None => fail(Fault::ChainDeviceMismatch),
        }
    }

    /// The device outputs that a downstream consumer reads.
    pub fn device_outputs_for_chain(&self) -> (result: Result<&[AllocatedTensor<O>], Error>)
        ensures
            match self.parts().device_outputs {
                Some(tensors) => result matches Ok(slice) && slice@ == tensors,
                None => result == Err::<&[AllocatedTensor<O>], Error>(
                    Error::Fault(Fault::ChainNeedsDeviceOutputs),
                ),
            },
    {
        match &self.device_outputs {
            Some(tensors) => Ok(tensors.as_slice()),
            None => fail(Fault::ChainNeedsDeviceOutputs),
        }
    }

    /// The event behind a downstream consumer: its device.
    pub fn downstream_completion_event(&self) -> (result: Result<i32, Error>)
        ensures
            match self.parts().downstream_event {
                Some(device) => result == Ok::<i32, Error>(device),
                None => result == Err::<i32, Error>(Error::Fault(Fault::NoDownstreamEvent)),
            },
    {
        match self.downstream_event {
            Some(device) => Ok(device),
            None => fail(Fault::NoDownstreamEvent),
        }
    }

    /// The device of the completion event that stands behind the pending run.
    pub fn completion_event(&self) -> (event: Option<i32>)
        ensures
            event == (if self.in_flight() && self.lane_state().completion_event_recorded {
                self.lane_state().cuda_device
            } else {
                None
            }),
    {
        if self.state.in_flight && self.state.completion_event_recorded {
            self.state.cuda_device
        } else {
            None
        }
    }

    /// The host-resident input buffers.
    pub fn inputs(&self) -> (inputs: &[TensorBuffer<I>])
        ensures
            inputs@ == self.parts().inputs,
    {
        self.inputs.as_slice()
    }

    /// The host-resident outputs, which lanes with device outputs do not bind.
    pub fn outputs(&self) -> (outputs: Result<&[TensorBuffer<O>], Error>)
        ensures
            if self.parts().device_outputs is Some {
                outputs == Err::<&[TensorBuffer<O>], Error>(Error::Fault(Fault::OutputsOnDevice))
            } else {
                outputs matches Ok(buffers) && buffers@ == self.parts().outputs
            },
    {
        if self.device_outputs.is_some() {
            return fail(Fault::OutputsOnDevice);
        }
        Ok(self.outputs.as_slice())
    }

    /// The lane is the other one but for the elements of input `i`, which are `elements`.
    pub open spec fn input_written(self, other: Self, i: int, elements: Seq<I>) -> bool {
        &&& self.lane_state() == other.lane_state()
        &&& self.pending_failure() == other.pending_failure()
        &&& self.slot() == other.slot()
        &&& self.parts() == (LaneParts { inputs: self.parts().inputs, ..other.parts() })
        &&& self.parts().inputs == other.parts().inputs.update(i, self.parts().inputs[i])
        &&& self.parts().inputs[i]@ == elements
        &&& self.parts().inputs[i].dims() == other.parts().inputs[i].dims()
        &&& self.parts().inputs[i].spec_memory() == other.parts().inputs[i].spec_memory()
        &&& self.parts().inputs[i].spec_backing() == other.parts().inputs[i].spec_backing()
    }

    /// The lane is the other one but for the elements of output `i`, which are `elements`.
    pub open spec fn output_written(self, other: Self, i: int, elements: Seq<O>) -> bool {
        &&& self.lane_state() == other.lane_state()
        &&& self.pending_failure() == other.pending_failure()
        &&& self.slot() == other.slot()
        &&& self.parts() == (LaneParts { outputs: self.parts().outputs, ..other.parts() })
        &&& self.parts().outputs == other.parts().outputs.update(i, self.parts().outputs[i])
        &&& self.parts().outputs[i]@ == elements
        &&& self.parts().outputs[i].dims() == other.parts().outputs[i].dims()
        &&& self.parts().outputs[i].spec_memory() == other.parts().outputs[i].spec_memory()
        &&& self.parts().outputs[i].spec_backing() == other.parts().outputs[i].spec_backing()
    }

    /// The input buffers, to be written. A lane in flight refuses, since a pending copy may still
    /// read them.
    pub fn inputs_mut(&mut self) -> (inputs: Result<&mut [TensorBuffer<I>], Error>)
        ensures
            if old(self).in_flight() {
                &&& *final(self) == *old(self)
                &&& inputs is Err
                &&& inputs->Err_0 == Error::Fault(Fault::LaneInFlight)
            } else {
                &&& inputs is Ok
                &&& inputs->Ok_0@ == old(self).parts().inputs
                &&& final(self).parts() == (LaneParts {
                    inputs: final(inputs->Ok_0)@,
                    ..old(self).parts()
                })
                &&& final(self).slot() == old(self).slot()
                &&& final(self).lane_state() == old(self).lane_state()
                &&& final(self).pending_failure() == old(self).pending_failure()
            },
    {
        if self.state.in_flight {
            return Err(Error::Fault(Fault::LaneInFlight));
        }
        Ok(self.inputs.as_mut_slice())
    }

    /// The host-resident output buffers, to be written. A lane in flight refuses, since a pending
    /// copy may still write them; so does a lane with device outputs, which does not bind them.
    pub fn outputs_mut(&mut self) -> (outputs: Result<&mut [TensorBuffer<O>], Error>)
        ensures
            if old(self).in_flight() {
                &&& *final(self) == *old(self)
                &&& outputs is Err
                &&& outputs->Err_0 == Error::Fault(Fault::LaneInFlight)
            } else if old(self).parts().device_outputs is Some {
                &&& *final(self) == *old(self)
                &&& outputs is Err
                &&& outputs->Err_0 == Error::Fault(Fault::OutputsOnDevice)
            } else {
                &&& outputs is Ok
                &&& outputs->Ok_0@ == old(self).parts().outputs
                &&& final(self).parts() == (LaneParts {
                    outputs: final(outputs->Ok_0)@,
                    ..old(self).parts()
                })
                &&& final(self).slot() == old(self).slot()
                &&& final(self).lane_state() == old(self).lane_state()
                &&& final(self).pending_failure() == old(self).pending_failure()
            },
    {
        if self.state.in_flight {
            return Err(Error::Fault(Fault::LaneInFlight));
        }
        if self.device_outputs.is_some() {
            return fail(Fault::OutputsOnDevice);
        }
        Ok(self.outputs.as_mut_slice())
    }

    /// The elements of one input.
    pub fn input(&self, i: usize) -> (input: Result<&[I], Error>)
        ensures
            if i < self.parts().inputs.len() {
                input matches Ok(elements) && elements@ == self.parts().inputs[i as int]@
            } else {
                input == Err::<&[I], Error>(
                    Error::IndexOutOfRange { what: Slot::StaticInput, index: i },
                )
            },
    {
        if i < self.inputs.len() {
            Ok(self.inputs[i].as_slice())
        } else {
            Err(Error::IndexOutOfRange { what: Slot::StaticInput, index: i })
        }
    }

    /// The elements of one input, to be written. A lane in flight refuses, since a pending copy
    /// may still read them.
    pub fn input_mut(&mut self, i: usize) -> (input: Result<&mut [I], Error>)
        ensures
            if old(self).in_flight() {
                &&& *final(self) == *old(self)
                &&& input is Err
                &&& input->Err_0 == Error::Fault(Fault::LaneInFlight)
            } else if i >= old(self).parts().inputs.len() {
                &&& *final(self) == *old(self)
                &&& input is Err
                &&& input->Err_0 == (Error::IndexOutOfRange { what: Slot::StaticInput, index: i })
            } else {
                &&& input is Ok
                &&& input->Ok_0@ == old(self).parts().inputs[i as int]@
                &&& final(self).input_written(*old(self), i as int, final(input->Ok_0)@)
            },
    {
        if self.state.in_flight {
            return Err(Error::Fault(Fault::LaneInFlight));
        }
        if i < self.inputs.len() {
            Ok(self.inputs[i].as_mut_slice())
        } else {
            Err(Error::IndexOutOfRange { what: Slot::StaticInput, index: i })
        }
    }

    /// The elements of one host-resident output.
    pub fn output(&self, i: usize) -> (output: Result<&[O], Error>)
        ensures
            if self.parts().device_outputs is Some {
                output == Err::<&[O], Error>(Error::Fault(Fault::OutputOnDevice))
            } else if i < self.parts().outputs.len() {
                output matches Ok(elements) && elements@ == self.parts().outputs[i as int]@
            } else {
                output == Err::<&[O], Error>(
                    Error::IndexOutOfRange { what: Slot::StaticOutput, index: i },
                )
            },
    {
        if self.device_outputs.is_some() {
            return fail(Fault::OutputOnDevice);
        }
        if i < self.outputs.len() {
            Ok(self.outputs[i].as_slice())
        } else {
            Err(Error::IndexOutOfRange { what: Slot::StaticOutput, index: i })
        }
    }

    /// The elements of one host-resident output, to be written. A lane in flight refuses, since a
    /// pending copy may still write them.
    pub fn output_mut(&mut self, i: usize) -> (output: Result<&mut [O], Error>)
        ensures
            if old(self).in_flight() {
                &&& *final(self) == *old(self)
                &&& output is Err
                &&& output->Err_0 == Error::Fault(Fault::LaneInFlight)
            } else if old(self).parts().device_outputs is Some {
                &&& *final(self) == *old(self)
                &&& output is Err
                &&& output->Err_0 == Error::Fault(Fault::OutputOnDevice)
            } else if i >= old(self).parts().outputs.len() {
                &&& *final(self) == *old(self)
                &&& output is Err
                &&& output->Err_0 == (Error::IndexOutOfRange { what: Slot::StaticOutput, index: i })
            } else {
                &&& output is Ok
                &&& output->Ok_0@ == old(self).parts().outputs[i as int]@
                &&& final(self).output_written(*old(self), i as int, final(output->Ok_0)@)
            },
    {
        if self.state.in_flight {
            return Err(Error::Fault(Fault::LaneInFlight));
        }
        if self.device_outputs.is_some() {
            return Err(Error::Fault(Fault::OutputOnDevice));
        }
        if i < self.outputs.len() {
            Ok(self.outputs[i].as_mut_slice())
        } else {
            Err(Error::IndexOutOfRange { what: Slot::StaticOutput, index: i })
        }
    }

    /// The elements of one input, by a constant index, to be written.
    pub fn input_mut_at<const IDX: usize>(&mut self) -> (input: Result<&mut [I], Error>)
        ensures
            if old(self).in_flight() {
                &&& *final(self) == *old(self)
                &&& input is Err
                &&& input->Err_0 == Error::Fault(Fault::LaneInFlight)
            } else if IDX >= old(self).parts().inputs.len() {
                &&& *final(self) == *old(self)
                &&& input is Err
                &&& input->Err_0 == (Error::IndexOutOfRange { what: Slot::StaticInput, index: IDX })
            } else {
                &&& input is Ok
                &&& input->Ok_0@ == old(self).parts().inputs[IDX as int]@
                &&& final(self).input_written(*old(self), IDX as int, final(input->Ok_0)@)
            },
    {
        self.input_mut(IDX)
    }

    /// The elements of one host-resident output, by a constant index.
    pub fn output_at<const IDX: usize>(&self) -> (output: Result<&[O], Error>)
        ensures
            if self.parts().device_outputs is Some {
                output == Err::<&[O], Error>(Error::Fault(Fault::OutputOnDevice))
            } else if IDX < self.parts().outputs.len() {
                output matches Ok(elements) && elements@ == self.parts().outputs[IDX as int]@
            } else {
                output == Err::<&[O], Error>(
                    Error::IndexOutOfRange { what: Slot::StaticOutput, index: IDX },
                )
            },
    {
        self.output(IDX)
    }

    /// A completed device-resident output.
    pub fn device_output(&self, i: usize) -> (output: Result<&AllocatedTensor<O>, Error>)
        ensures
            if self.in_flight() {
                output == Err::<&AllocatedTensor<O>, Error>(
                    Error::Fault(Fault::DeviceOutputPending),
                )
            } else {
                match self.parts().device_outputs {
                    Some(tensors) => if i < tensors.len() {
                        output == Ok::<&AllocatedTensor<O>, Error>(&tensors[i as int])
                    } else {
                        output == Err::<&AllocatedTensor<O>, Error>(
                            Error::Fault(Fault::NoDeviceOutput),
                        )
                    },
                    None => output == Err::<&AllocatedTensor<O>, Error>(
                        Error::Fault(Fault::NoDeviceOutput),
                    ),
                }
            },
    {
        if self.state.in_flight {
            return fail(Fault::DeviceOutputPending);
        }
        match &self.device_outputs {
            Some(tensors) => {
                if i < tensors.len() {
                    Ok(&tensors[i])
                } else {
                    fail(Fault::NoDeviceOutput)
                }
            },
            None => fail(Fault::NoDeviceOutput),
        }
    }

    /// One input buffer.
    pub fn input_buffer(&self, i: usize) -> (input: Result<&TensorBuffer<I>, Error>)
        ensures
            input == (if i < self.parts().inputs.len() {
                Ok::<&TensorBuffer<I>, Error>(&self.parts().inputs[i as int])
            } else {
                Err(Error::IndexOutOfRange { what: Slot::StaticInput, index: i })
            }),
    {
        if i < self.inputs.len() {
            Ok(&self.inputs[i])
        } else {
            Err(Error::IndexOutOfRange { what: Slot::StaticInput, index: i })
        }
    }

    /// One host-resident output buffer.
    pub fn output_buffer(&self, i: usize) -> (output: Result<&TensorBuffer<O>, Error>)
        ensures
            output == (if self.parts().device_outputs is Some {
                Err::<&TensorBuffer<O>, Error>(Error::Fault(Fault::OutputOnDevice))
            } else if i < self.parts().outputs.len() {
                Ok(&self.parts().outputs[i as int])
            } else {
                Err(Error::IndexOutOfRange { what: Slot::StaticOutput, index: i })
            }),
    {
        if self.device_outputs.is_some() {
            return fail(Fault::OutputOnDevice);
        }
        if i < self.outputs.len() {
            Ok(&self.outputs[i])
        } else {
            Err(Error::IndexOutOfRange { what: Slot::StaticOutput, index: i })
        }
    }

    /// The handle of the lane's session.
    pub fn session(&self) -> (session: u64)
        ensures
            session == self.parts().session,
    {
        self.session
    }

    /// The name that an input is bound under, each time that it is bound again.
    pub fn input_binding_name(&self, i: usize) -> (name: Option<&str>)
        ensures
            if i < self.parts().input_names.len() {
                name matches Some(text) && text@ == self.parts().input_names[i as int]
            } else {
                name is None
            },
    {
        if i < self.input_names.len() {
            Some(self.input_names[i].as_str())
        } else {
            None
        }
    }

    /// The user-owned stream that the device inputs are refreshed on.
    pub fn stream(&self) -> (stream: Option<CudaStream>)
        ensures
            stream == self.parts().stream,
    {
        self.stream
    }

    /// `result` is the outcome of a snapshot of the lane's buffers.
    pub open spec fn audited(
        self,
        result: Result<LaneHotPathAudit, Error>,
        input_addresses: Seq<BufferAddress>,
        output_addresses: Seq<BufferAddress>,
    ) -> bool {
        exists|inputs: Result<Vec<TensorBufferAudit>, Error>|
            #[trigger] crate::runtime::audit::audits_outcome(
                inputs,
                IoDirection::Input,
                self.parts().inputs,
                input_addresses,
            ) && match inputs {
                Err(error) => result == Err::<LaneHotPathAudit, Error>(error),
                Ok(inputs) => exists|outputs: Result<Vec<TensorBufferAudit>, Error>|
                    #[trigger] crate::runtime::audit::audits_outcome(
                        outputs,
                        IoDirection::Output,
                        self.parts().outputs,
                        output_addresses,
                    ) && match outputs {
                        Err(error) => result == Err::<LaneHotPathAudit, Error>(error),
                        Ok(outputs) => result == Ok::<LaneHotPathAudit, Error>(
                            LaneHotPathAudit {
                                input_count: INPUTS,
                                output_count: OUTPUTS,
                                rebind_inputs_each_run: self.lane_state().rebind_inputs_each_run,
                                input_names_cached: self.names_cached(),
                                inputs,
                                outputs,
                            },
                        ),
                    },
            }
    }

    /// A snapshot of the lane's buffers succeeds.
    pub open spec fn auditable(
        self,
        input_addresses: Seq<BufferAddress>,
        output_addresses: Seq<BufferAddress>,
    ) -> bool {
        exists|audit: LaneHotPathAudit| #[trigger]
            self.audited(Ok(audit), input_addresses, output_addresses)
    }

    /// A snapshot of the lane's buffers, as the engine addresses them.
    pub fn audit_hot_path(
        &self,
        input_addresses: &[BufferAddress],
        output_addresses: &[BufferAddress],
    ) -> (result: Result<LaneHotPathAudit, Error>)
        requires
            self.wf(),
            input_addresses@.len() == INPUTS,
            output_addresses@.len() == OUTPUTS,
        ensures
            self.audited(result, input_addresses@, output_addresses@),
    {
        let inputs = audit_buffers(IoDirection::Input, &self.inputs, input_addresses);
        match inputs {
            Err(error) => Err(error),
            Ok(inputs) => {
                let outputs = audit_buffers(IoDirection::Output, &self.outputs, output_addresses);
                match outputs {
                    Err(error) => Err(error),
                    Ok(outputs) => Ok(
                        LaneHotPathAudit {
                            input_count: INPUTS,
                            output_count: OUTPUTS,
                            rebind_inputs_each_run: self.state.rebind_inputs_each_run,
                            input_names_cached: self.input_names.len() == INPUTS,
                            inputs,
                            outputs,
                        },
                    ),
                }
            },
        }
    }

    /// Why the engine does not read and write the lane's own host memory.
    pub open spec fn zero_copy_fault(
        self,
        input_addresses: Seq<BufferAddress>,
        output_addresses: Seq<BufferAddress>,
    ) -> Option<Error> {
        match crate::runtime::audit::side_zero_copy_fault(
            Slot::StaticInput,
            self.parts().inputs,
            input_addresses,
            INPUTS as int,
        ) {
            Some(error) => Some(error),
            None => crate::runtime::audit::side_zero_copy_fault(
                Slot::StaticOutput,
                self.parts().outputs,
                output_addresses,
                OUTPUTS as int,
            ),
        }
    }

    /// Check that the engine reads and writes the lane's own host memory.
    pub fn assert_zero_copy_plan(
        &self,
        input_addresses: &[BufferAddress],
        output_addresses: &[BufferAddress],
    ) -> (result: Result<(), Error>)
        requires
            self.wf(),
            input_addresses@.len() == INPUTS,
            output_addresses@.len() == OUTPUTS,
        ensures
            match self.zero_copy_fault(input_addresses@, output_addresses@) {
                Some(error) => result == Err::<(), Error>(error),
                None => result is Ok,
            },
    {
        match assert_side_zero_copy(Slot::StaticInput, &self.inputs, input_addresses) {
            Err(error) => Err(error),
            Ok(()) => assert_side_zero_copy(Slot::StaticOutput, &self.outputs, output_addresses),
        }
    }

    /// Choose whether inputs are bound anew before every run.
    pub fn set_rebind_inputs_each_run(&mut self, enabled: bool)
        requires
            old(self).wf(),
            old(self).at_rest(),
        ensures
            final(self).wf(),
            final(self).same_parts(*old(self)),
            final(self).pending_failure() == old(self).pending_failure(),
            final(self).lane_state() == (LaneState {
                rebind_inputs_each_run: enabled,
                ..old(self).lane_state()
            }),
    {
        self.state.rebind_inputs_each_run = enabled;
    }

    /// Whether a run has completed with the current captured-graph annotation.
    pub fn graph_captured(&self) -> (captured: bool)
        ensures
            captured == self.lane_state().graph_captured,
    {
        self.state.graph_captured
    }

    /// Check that the lane can replay captured graphs: it needs device inputs, since a graph that
    /// was captured over host inputs replays stale ones.
    pub fn ensure_graph_id_assignable(&self) -> (result: Result<(), Error>)
        ensures
            if self.parts().device_inputs is None {
                result == Err::<(), Error>(Error::Fault(Fault::GraphIdNeedsDeviceInputs))
            } else {
                result is Ok
            },
    {
        if self.device_inputs.is_none() {
            fail(Fault::GraphIdNeedsDeviceInputs)
        } else {
            Ok(())
        }
    }

    /// The options of synchronized and of enqueued runs with one annotation and one stream. They
    /// are materialized together, before either is installed.
    pub fn materialize_run_options(graph_id: Option<i32>, sync_stream: Option<u64>) -> (options: (
        RunOptions,
        RunOptions,
    ))
        ensures
            options.0 == RunOptions::synchronized(graph_id, sync_stream),
            options.1 == RunOptions::enqueued(graph_id, sync_stream),
    {
        (
            RunOptions { graph_id, disable_ep_sync: false, sync_stream },
            RunOptions { graph_id, disable_ep_sync: true, sync_stream },
        )
    }

    /// Why an annotation cannot be assigned.
    pub open spec fn graph_id_fault(self, frozen: Result<(), Error>) -> Option<Error> {
        if self.in_flight() {
            Some(Error::Fault(Fault::LaneInFlight))
        } else if self.parts().device_inputs is None {
            Some(Error::Fault(Fault::GraphIdNeedsDeviceInputs))
        } else {
            match frozen {
                Err(error) => Some(error),
                Ok(()) => None,
            }
        }
    }

    /// The state with a captured-graph annotation.
    pub open spec fn with_graph_id(self, id: i32) -> LaneState {
        LaneState {
            run_options: Some(RunOptions::synchronized(Some(id), self.parts().sync_stream)),
            enqueued_run_options: RunOptions::enqueued(Some(id), self.parts().sync_stream),
            graph_lease: Some(id),
            graph_id: Some(id),
            graph_captured: false,
            ..self.lane_state()
        }
    }

    /// Assign a captured-graph annotation. `frozen` says whether the engine took both sets of run
    /// options; a refusal leaves the lane as it was.
    pub fn set_gpu_graph_id(&mut self, id: i32, frozen: Result<(), Error>) -> (result: Result<
        (),
        Error,
    >)
        requires
            old(self).wf(),
            old(self).at_rest(),
        ensures
            final(self).wf(),
            match old(self).graph_id_fault(frozen) {
                Some(error) => *final(self) == *old(self) && result == Err::<(), Error>(error),
                None => {
                    &&& result is Ok
                    &&& final(self).same_parts(*old(self))
                    &&& final(self).pending_failure() is None
                    &&& final(self).lane_state() == old(self).with_graph_id(id)
                },
            },
    {
        match self.ensure_idle() {
            Err(error) => return Err(error),
            Ok(()) => {},
        }
        match self.ensure_graph_id_assignable() {
            Err(error) => return Err(error),
            Ok(()) => {},
        }
        match frozen {
            Err(error) => return Err(error),
            Ok(()) => {},
        }
        let (synchronized, enqueued) = Self::materialize_run_options(Some(id), self.sync_stream);
        self.state.run_options = Some(synchronized);
        self.state.enqueued_run_options = enqueued;
        self.state.graph_lease = Some(id);
        self.state.graph_id = Some(id);
        self.state.graph_captured = false;
        Ok(())
    }

    /// Attach a sync stream that runs are launched on. `frozen` says whether the engine took both
    /// sets of run options; a refusal leaves the lane as it was.
    pub fn set_sync_stream(
        &mut self,
        session: &Session,
        stream: u64,
        stream_environment: u64,
        frozen: Result<(), Error>,
    ) -> (result: Result<(), Error>)
        requires
            old(self).wf(),
            old(self).at_rest(),
            session.spec_handle() == old(self).parts().session,
        ensures
            final(self).wf(),
            if old(self).in_flight() {
                *final(self) == *old(self) && result == Err::<(), Error>(
                    Error::Fault(Fault::LaneInFlight),
                )
            } else if stream_environment != session.spec_environment() {
                *final(self) == *old(self) && result == Err::<(), Error>(
                    Error::Fault(Fault::StreamEnvironmentMismatch),
                )
            } else if frozen is Err {
                *final(self) == *old(self) && result == frozen
            } else {
                &&& result is Ok
                &&& final(self).slot() == old(self).slot()
                &&& final(self).pending_failure() is None
                &&& final(self).parts() == (LaneParts {
                    sync_stream: Some(stream),
                    ..old(self).parts()
                })
                &&& final(self).lane_state() == (LaneState {
                    run_options: Some(
                        RunOptions::synchronized(old(self).lane_state().graph_id, Some(stream)),
                    ),
                    enqueued_run_options: RunOptions::enqueued(
                        old(self).lane_state().graph_id,
                        Some(stream),
                    ),
                    ..old(self).lane_state()
                })
            },
    {
        match self.ensure_idle() {
            Err(error) => return Err(error),
            Ok(()) => {},
        }
        match session.check_sync_stream(stream_environment) {
            Err(error) => return Err(error),
            Ok(()) => {},
        }
        match frozen {
            Err(error) => return Err(error),
            Ok(()) => {},
        }
        let (synchronized, enqueued) = Self::materialize_run_options(
            self.state.graph_id,
            Some(stream),
        );
        self.state.run_options = Some(synchronized);
        self.state.enqueued_run_options = enqueued;
        self.sync_stream = Some(stream);
        Ok(())
    }

    /// The captured-graph annotation of the lane.
    pub fn gpu_graph_id(&self) -> (id: Option<i32>)
        ensures
            id == self.lane_state().graph_id,
    {
        self.state.graph_id
    }

    /// The lane's slot for recovery.
    pub fn recovery_slot(&self) -> (slot: Option<usize>)
        ensures
            slot == self.slot(),
    {
        self.recovery_slot
    }

    /// Give the lane its slot for recovery.
    pub(crate) fn set_recovery_slot(&mut self, slot: usize)
        requires
            old(self).wf(),
        ensures
            final(self).wf(),
            final(self).parts() == old(self).parts(),
            final(self).lane_state() == old(self).lane_state(),
            final(self).pending_failure() == old(self).pending_failure(),
            final(self).slot() == Some(slot),
    {
        self.recovery_slot = Some(slot);
    }
}

/// The runs that prepare a lane before it serves.
#[derive(Debug, Clone, Copy, PartialEq, Eq, Structural)]
pub struct Priming {
    /// How many runs are left.
    pub remaining: usize,
    /// Whether runs are enqueued and then waited for.
    pub enqueued: bool,
    /// Whether an enqueued run is to be waited for.
    pub queued: bool,
}

/// What a priming does next.
#[derive(Debug, PartialEq, Eq)]
pub enum PrimeStep {
    /// Run the lane.
    Run,
    /// Run the lane and leave it in flight.
    RunEnqueued,
    /// Wait for the run.
    Synchronize,
    /// The priming is over.
    Done(Result<(), Error>),
}

impl Priming {
    /// Run a lane `runs` times.
    pub fn prime(runs: usize) -> (priming: Priming)
        ensures
            priming == (Priming { remaining: runs, enqueued: false, queued: false }),
    {
        Priming { remaining: runs, enqueued: false, queued: false }
    }

    /// Run a lane `runs` times the way enqueued traffic runs it.
    pub fn prime_enqueued(runs: usize) -> (priming: Priming)
        ensures
            priming == (Priming { remaining: runs, enqueued: true, queued: false }),
    {
        Priming { remaining: runs, enqueued: true, queued: false }
    }

    /// How many operations are left if all of them succeed.
    pub open spec fn operations(self) -> int {
        (if self.enqueued {
            2 * self.remaining
        } else {
            self.remaining as int
        }) + (if self.queued {
            1int
        } else {
            0
        })
    }

    /// The next operation after the outcome of the last one; the first failure ends the priming.
    pub fn next(&mut self, last: Result<(), Error>) -> (step: PrimeStep)
        ensures
            final(self).enqueued == old(self).enqueued,
            match last {
                Err(error) => *final(self) == *old(self) && step == PrimeStep::Done(
                    Err::<(), Error>(error),
                ),
                Ok(()) => if old(self).operations() == 0 {
                    *final(self) == *old(self) && step == PrimeStep::Done(Ok::<(), Error>(()))
                } else {
                    &&& final(self).operations() == old(self).operations() - 1
                    &&& final(self).queued == (old(self).enqueued && !old(self).queued)
                    &&& step == if old(self).queued {
                        PrimeStep::Synchronize
                    } else if old(self).enqueued {
                        PrimeStep::RunEnqueued
                    } else {
                        PrimeStep::Run
                    }
                },
            },
    {
        if let Err(error) = last {
            return PrimeStep::Done(Err(error));
        }
        if self.queued {
            self.queued = false;
            return PrimeStep::Synchronize;
        }
        if self.remaining == 0 {
            return PrimeStep::Done(Ok(()));
        }
        self.remaining = self.remaining - 1;
        if self.enqueued {
            self.queued = true;
            PrimeStep::RunEnqueued
        } else {
            PrimeStep::Run
        }
    }
}

} // verus!
