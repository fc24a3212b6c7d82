//! Lanes over host buffers with any number of inputs and outputs of one element type, and fixed
//! sets of them.
use vstd::prelude::*;

use crate::calls::{CallPlan, Repeats};
use crate::element::TensorElement;
use crate::error::{fail, Count, Error, Fault, Side, Slot};
use crate::memory::MemoryInfo;
use crate::runtime::audit::{
    assert_side_zero_copy, audit_buffers, BufferAddress, IoDirection, LaneHotPathAudit, TensorBufferAudit,
};
use crate::runtime::lane_build::{build_buffers, plan_host_lane, BuildCall};
use crate::runtime::options::RuntimeMode;
use crate::runtime::static_io::{LaneAddresses, LaneSessions, SetCalls};
use crate::session::async_run::AsyncState;
use crate::session::binding::{plan_binding_run, BindingCall};
use crate::session::session::Session;
use crate::tensor::buffer::{BufferSpec, TensorBuffer};

verus! {

/// One exclusive lane over host buffers.
#[derive(Debug)]
pub struct Lane<T: TensorElement> {
    inputs: Vec<TensorBuffer<T>>,
    outputs: Vec<TensorBuffer<T>>,
    session: u64,
}

/// The first of `n` names that is not text, as the failure.
pub open spec fn text_names_fault(names: Seq<Vec<u8>>, side: Side, n: int) -> Option<Error>
    decreases n,
{
    if n <= 0 {
        None
    } else {
        match text_names_fault(names, side, n - 1) {
            Some(error) => Some(error),
            None => if !vstd::utf8::valid_utf8(names[n - 1]@) {
                Some(Error::NameNotUtf8 { side, index: (n - 1) as usize })
            } else {
                None
            },
        }
    }
}

proof fn lemma_text_names_first(names: Seq<Vec<u8>>, side: Side, n: int, m: int)
    requires
        0 <= n <= m,
        text_names_fault(names, side, n) is Some,
    ensures
        text_names_fault(names, side, m) == text_names_fault(names, side, n),
    decreases m - n,
{
    if n < m {
        lemma_text_names_first(names, side, n, m - 1);
    }
}

/// The names of one side of a session.
pub open spec fn side_names(session: Session, side: Side) -> Seq<Vec<u8>> {
    match side {
        Side::Input => session.inputs(),
        Side::Output => session.outputs(),
    }
}

/// Check that every name of one side is text.
pub fn check_text_names(session: &Session, side: Side) -> (result: Result<(), Error>)
    ensures
        match text_names_fault(
            side_names(*session, side),
            side,
            side_names(*session, side).len() as int,
        ) {
            Some(error) => result == Err::<(), Error>(error),
            None => result is Ok,
        },
{
    let count: usize = match side {
        Side::Input => session.input_count(),
        Side::Output => session.output_count(),
    };
    let mut i: usize = 0;
    while i < count
        invariant
            i <= count,
            count == side_names(*session, side).len(),
            text_names_fault(side_names(*session, side), side, i as int) is None,
        decreases count - i,
    {
        let name: Result<&str, Error> = match side {
            Side::Input => session.input_name(i),
            Side::Output => session.output_name(i),
        };
        if let Err(error) = name {
            proof {
                lemma_text_names_first(side_names(*session, side), side, i + 1, count as int);
            }
            return Err(error);
        }
        i = i + 1;
    }
    Ok(())
}

/// The buffers after the elements of buffer `i` were overwritten.
pub open spec fn written<T: TensorElement>(
    before: Seq<TensorBuffer<T>>,
    after: Seq<TensorBuffer<T>>,
    i: int,
    elements: Seq<T>,
) -> bool {
    &&& after == before.update(i, after[i])
    &&& after[i]@ == elements
    &&& after[i].dims() == before[i].dims()
    &&& after[i].spec_memory() == before[i].spec_memory()
    &&& after[i].spec_backing() == before[i].spec_backing()
}

impl<T: TensorElement> Lane<T> {
    /// The input buffers.
    pub closed spec fn input_buffers(self) -> Seq<TensorBuffer<T>> {
        self.inputs@
    }

    /// The output buffers.
    pub closed spec fn output_buffers(self) -> Seq<TensorBuffer<T>> {
        self.outputs@
    }

    /// The handle of the lane's session.
    pub closed spec fn spec_session(self) -> u64 {
        self.session
    }

    /// Why a lane cannot be built.
    pub open spec fn build_fault(
        session: Session,
        memory: MemoryInfo,
        input_shapes: Seq<Seq<i64>>,
        output_shapes: Seq<Seq<i64>>,
        policy: BufferSpec,
    ) -> Option<Error> {
        if input_shapes.len() != session.inputs().len() {
            Some(
                Error::CountMismatch {
                    what: Count::InputShape,
                    expected: session.inputs().len() as usize,
                    got: input_shapes.len() as usize,
                },
            )
        } else if output_shapes.len() != session.outputs().len() {
            Some(
                Error::CountMismatch {
                    what: Count::OutputShape,
                    expected: session.outputs().len() as usize,
                    got: output_shapes.len() as usize,
                },
            )
        } else {
            match crate::runtime::lane_build::buffers_fault::<T>(input_shapes, memory, policy) {
                Some(error) => Some(error),
                None => match crate::runtime::lane_build::buffers_fault::<T>(
                    output_shapes,
                    memory,
                    policy,
                ) {
                    Some(error) => Some(error),
                    None => match text_names_fault(
                        session.inputs(),
                        Side::Input,
                        session.inputs().len() as int,
                    ) {
                        Some(error) => Some(error),
                        None => text_names_fault(
                            session.outputs(),
                            Side::Output,
                            session.outputs().len() as int,
                        ),
                    },
                },
            }
        }
    }

    /// This is the lane that a build makes.
    pub open spec fn is_built(
        self,
        session: Session,
        memory: MemoryInfo,
        input_shapes: Seq<Seq<i64>>,
        output_shapes: Seq<Seq<i64>>,
        policy: BufferSpec,
    ) -> bool {
        &&& self.spec_session() == session.spec_handle()
        &&& crate::runtime::lane_build::zeroed_buffers(
            self.input_buffers(),
            input_shapes,
            memory,
            policy,
        )
        &&& crate::runtime::lane_build::zeroed_buffers(
            self.output_buffers(),
            output_shapes,
            memory,
            policy,
        )
    }

    /// Build a lane and say which engine calls make it.
    pub fn new(
        session: &Session,
        memory: &MemoryInfo,
        input_shapes: &[&[i64]],
        output_shapes: &[&[i64]],
        policy: BufferSpec,
    ) -> (result: Result<(Self, Vec<BuildCall>), Error>)
        ensures
            match Self::build_fault(
                *session,
                *memory,
                crate::shape::slice_shapes(input_shapes@),
                crate::shape::slice_shapes(output_shapes@),
                policy,
            ) {
                Some(error) => result == Err::<(Self, Vec<BuildCall>), Error>(error),
                None => {
                    &&& result matches Ok((lane, calls))
                    &&& lane.is_built(
                        *session,
                        *memory,
                        crate::shape::slice_shapes(input_shapes@),
                        crate::shape::slice_shapes(output_shapes@),
                        policy,
                    )
                    &&& calls@ == crate::runtime::lane_build::host_lane_calls(
                        input_shapes@.len(),
                        output_shapes@.len(),
                    )
                },
            },
    {
        if input_shapes.len() != session.input_count() {
            return Err(
                Error::CountMismatch {
                    what: Count::InputShape,
                    expected: session.input_count(),
                    got: input_shapes.len(),
                },
            );
        }
        if output_shapes.len() != session.output_count() {
            return Err(
                Error::CountMismatch {
                    what: Count::OutputShape,
                    expected: session.output_count(),
                    got: output_shapes.len(),
                },
            );
        }
        let inputs: Vec<TensorBuffer<T>> = match build_buffers(input_shapes, memory, policy) {
            Err(error) => return Err(error),
            Ok(buffers) => buffers,
        };
        let outputs: Vec<TensorBuffer<T>> = match build_buffers(output_shapes, memory, policy) {
            Err(error) => return Err(error),
            Ok(buffers) => buffers,
        };
        if let Err(error) = check_text_names(session, Side::Input) {
            return Err(error);
        }
        if let Err(error) = check_text_names(session, Side::Output) {
            return Err(error);
        }
        let calls: Vec<BuildCall> = plan_host_lane(input_shapes.len(), output_shapes.len());
        Ok((Lane { inputs, outputs, session: session.handle() }, calls))
    }

    /// The elements of one input.
    pub fn input(&self, i: usize) -> (input: Result<&[T], Error>)
        ensures
            if i < self.input_buffers().len() {
                input matches Ok(elements) && elements@ == self.input_buffers()[i as int]@
            } else {
                input == Err::<&[T], Error>(
                    Error::IndexOutOfRange { what: Slot::LaneInput, index: i },
                )
            },
    {
        if i < self.inputs.len() {
            Ok(self.inputs[i].as_slice())
        } else {
            Err(Error::IndexOutOfRange { what: Slot::LaneInput, index: i })
        }
    }

    /// The elements of one input, to be written.
    pub fn input_mut(&mut self, i: usize) -> (input: Result<&mut [T], Error>)
        ensures
            final(self).spec_session() == old(self).spec_session(),
            final(self).output_buffers() == old(self).output_buffers(),
            if i < old(self).input_buffers().len() {
                &&& input is Ok
                &&& input->Ok_0@ == old(self).input_buffers()[i as int]@
                &&& written(
                    old(self).input_buffers(),
                    final(self).input_buffers(),
                    i as int,
                    final(input->Ok_0)@,
                )
            } else {
                &&& input is Err
                &&& input->Err_0 == (Error::IndexOutOfRange { what: Slot::LaneInput, index: i })
                &&& *final(self) == *old(self)
            },
    {
        if i < self.inputs.len() {
            Ok(self.inputs[i].as_mut_slice())
        } else {
            Err(Error::IndexOutOfRange { what: Slot::LaneInput, index: i })
        }
    }

    /// One input buffer.
    pub fn input_buffer(&self, i: usize) -> (input: Result<&TensorBuffer<T>, Error>)
        ensures
            input == (if i < self.input_buffers().len() {
                Ok::<&TensorBuffer<T>, Error>(&self.input_buffers()[i as int])
            } else {
                Err(Error::IndexOutOfRange { what: Slot::LaneInput, index: i })
            }),
    {
        if i < self.inputs.len() {
            Ok(&self.inputs[i])
        } else {
            Err(Error::IndexOutOfRange { what: Slot::LaneInput, index: i })
        }
    }

    /// The elements of one output.
    pub fn output(&self, i: usize) -> (output: Result<&[T], Error>)
        ensures
            if i < self.output_buffers().len() {
                output matches Ok(elements) && elements@ == self.output_buffers()[i as int]@
            } else {
                output == Err::<&[T], Error>(
                    Error::IndexOutOfRange { what: Slot::LaneOutput, index: i },
                )
            },
    {
        if i < self.outputs.len() {
            Ok(self.outputs[i].as_slice())
        } else {
            Err(Error::IndexOutOfRange { what: Slot::LaneOutput, index: i })
        }
    }

    /// The elements of one output, to be written.
    pub fn output_mut(&mut self, i: usize) -> (output: Result<&mut [T], Error>)
        ensures
            final(self).spec_session() == old(self).spec_session(),
            final(self).input_buffers() == old(self).input_buffers(),
            if i < old(self).output_buffers().len() {
                &&& output is Ok
                &&& output->Ok_0@ == old(self).output_buffers()[i as int]@
                &&& written(
                    old(self).output_buffers(),
                    final(self).output_buffers(),
                    i as int,
                    final(output->Ok_0)@,
                )
            } else {
                &&& output is Err
                &&& output->Err_0 == (Error::IndexOutOfRange { what: Slot::LaneOutput, index: i })
                &&& *final(self) == *old(self)
            },
    {
        if i < self.outputs.len() {
            Ok(self.outputs[i].as_mut_slice())
        } else {
            Err(Error::IndexOutOfRange { what: Slot::LaneOutput, index: i })
        }
    }

    /// One output buffer.
    pub fn output_buffer(&self, i: usize) -> (output: Result<&TensorBuffer<T>, Error>)
        ensures
            output == (if i < self.output_buffers().len() {
                Ok::<&TensorBuffer<T>, Error>(&self.output_buffers()[i as int])
            } else {
                Err(Error::IndexOutOfRange { what: Slot::LaneOutput, index: i })
            }),
    {
        if i < self.outputs.len() {
            Ok(&self.outputs[i])
        } else {
            Err(Error::IndexOutOfRange { what: Slot::LaneOutput, index: i })
        }
    }

    /// The calls of a run.
    pub fn run(&mut self) -> (plan: CallPlan<BindingCall>)
        ensures
            plan.fresh(crate::session::binding::binding_calls(true)),
            *final(self) == *old(self),
    {
        plan_binding_run(true)
    }

    /// The calls of a run of which the caller synchronizes the inputs and outputs.
    pub fn run_unsynchronized(&mut self) -> (plan: CallPlan<BindingCall>)
        ensures
            plan.fresh(crate::session::binding::binding_calls(false)),
            *final(self) == *old(self),
    {
        plan_binding_run(false)
    }

    /// Prepare an asynchronous run. `session` is the lane's session, and `handles` are the engine's
    /// values of the lane's inputs.
    pub fn run_async<V>(&mut self, session: &Session, handles: Vec<u64>) -> (state: Result<
        AsyncState<V>,
        Error,
    >)
        ensures
            *final(self) == *old(self),
            session.async_outcome(state, handles@, None),
    {
        session.run_async_owned(handles, None)
    }

    /// Runs before serving.
    pub fn prime(&mut self, runs: usize) -> (repeats: Repeats)
        ensures
            repeats.spec_left() == runs,
            *final(self) == *old(self),
    {
        Repeats::new(runs)
    }

    /// The handle of the lane's session.
    pub fn session(&self) -> (session: u64)
        ensures
            session == self.spec_session(),
    {
        self.session
    }

    /// `result` is the outcome of a snapshot of the lane's buffers.
    pub open spec fn audited(
        self,
        result: Result<LaneHotPathAudit, Error>,
        input_addresses: Seq<BufferAddress>,
        output_addresses: Seq<BufferAddress>,
    ) -> bool {
        exists|inputs: Result<Vec<TensorBufferAudit>, Error>|
            #[trigger] crate::runtime::audit::audits_outcome(
                inputs,
                IoDirection::Input,
                self.input_buffers(),
                input_addresses,
            ) && match inputs {
                Err(error) => result == Err::<LaneHotPathAudit, Error>(error),
                Ok(inputs) => exists|outputs: Result<Vec<TensorBufferAudit>, Error>|
                    #[trigger] crate::runtime::audit::audits_outcome(
                        outputs,
                        IoDirection::Output,
                        self.output_buffers(),
                        output_addresses,
                    ) && match outputs {
                        Err(error) => result == Err::<LaneHotPathAudit, Error>(error),
                        Ok(outputs) => result == Ok::<LaneHotPathAudit, Error>(
                            LaneHotPathAudit {
                                input_count: self.input_buffers().len() as usize,
                                output_count: self.output_buffers().len() as usize,
                                rebind_inputs_each_run: false,
                                input_names_cached: true,
                                inputs,
                                outputs,
                            },
                        ),
                    },
            }
    }

    /// A snapshot of the lane's buffers, as the engine addresses them.
    pub fn audit_hot_path(
        &self,
        input_addresses: &[BufferAddress],
        output_addresses: &[BufferAddress],
    ) -> (result: Result<LaneHotPathAudit, Error>)
        requires
            input_addresses@.len() == self.input_buffers().len(),
            output_addresses@.len() == self.output_buffers().len(),
        ensures
            self.audited(result, input_addresses@, output_addresses@),
    {
        match audit_buffers(IoDirection::Input, &self.inputs, input_addresses) {
            Err(error) => Err(error),
            Ok(inputs) => match audit_buffers(IoDirection::Output, &self.outputs, output_addresses) {
                Err(error) => Err(error),
                Ok(outputs) => Ok(
                    LaneHotPathAudit {
                        input_count: self.inputs.len(),
                        output_count: self.outputs.len(),
                        rebind_inputs_each_run: false,
                        input_names_cached: true,
                        inputs,
                        outputs,
                    },
                ),
            },
        }
    }

    /// Why the engine does not read and write the lane's own host memory.
    pub open spec fn zero_copy_fault(
        self,
        input_addresses: Seq<BufferAddress>,
        output_addresses: Seq<BufferAddress>,
    ) -> Option<Error> {
        match crate::runtime::audit::side_zero_copy_fault(
            Slot::LaneInput,
            self.input_buffers(),
            input_addresses,
            self.input_buffers().len() as int,
        ) {
            Some(error) => Some(error),
            None => crate::runtime::audit::side_zero_copy_fault(
                Slot::LaneOutput,
                self.output_buffers(),
                output_addresses,
                self.output_buffers().len() as int,
            ),
        }
    }

    /// Check that the engine reads and writes the lane's own host memory.
    pub fn assert_zero_copy_plan(
        &self,
        input_addresses: &[BufferAddress],
        output_addresses: &[BufferAddress],
    ) -> (result: Result<(), Error>)
        requires
            input_addresses@.len() == self.input_buffers().len(),
            output_addresses@.len() == self.output_buffers().len(),
        ensures
            match self.zero_copy_fault(input_addresses@, output_addresses@) {
                Some(error) => result == Err::<(), Error>(error),
                None => result is Ok,
            },
    {
        match assert_side_zero_copy(Slot::LaneInput, &self.inputs, input_addresses) {
            Err(error) => Err(error),
            Ok(()) => assert_side_zero_copy(Slot::LaneOutput, &self.outputs, output_addresses),
        }
    }
}

/// A fixed set of lanes over host buffers.
#[derive(Debug)]
pub struct Runtime<T: TensorElement> {
    lanes: Vec<Lane<T>>,
    mode: RuntimeMode,
}

impl<T: TensorElement> Runtime<T> {
    /// The lanes.
    pub closed spec fn members(self) -> Seq<Lane<T>> {
        self.lanes@
    }

    /// How the sessions are arranged.
    pub closed spec fn arrangement(self) -> RuntimeMode {
        self.mode
    }

    /// Why one of the first `n` lanes cannot be built: the first such reason.
    pub open spec fn set_fault(
        sessions: Seq<Session>,
        mode: RuntimeMode,
        memory: MemoryInfo,
        input_shapes: Seq<Seq<i64>>,
        output_shapes: Seq<Seq<i64>>,
        policy: BufferSpec,
        n: int,
    ) -> Option<Error>
        decreases n,
    {
        if n <= 0 {
            None
        } else {
            match Self::set_fault(
                sessions,
                mode,
                memory,
                input_shapes,
                output_shapes,
                policy,
                n - 1,
            ) {
                Some(error) => Some(error),
                None => Lane::<T>::build_fault(
                    crate::runtime::static_io::session_of(sessions, mode, n - 1),
                    memory,
                    input_shapes,
                    output_shapes,
                    policy,
                ),
            }
        }
    }

    proof fn lemma_set_fault_first(
        sessions: Seq<Session>,
        mode: RuntimeMode,
        memory: MemoryInfo,
        input_shapes: Seq<Seq<i64>>,
        output_shapes: Seq<Seq<i64>>,
        policy: BufferSpec,
        n: int,
        m: int,
    )
        requires
            0 <= n <= m,
            Self::set_fault(sessions, mode, memory, input_shapes, output_shapes, policy, n) is Some,
        ensures
            Self::set_fault(sessions, mode, memory, input_shapes, output_shapes, policy, m)
                == Self::set_fault(sessions, mode, memory, input_shapes, output_shapes, policy, n),
        decreases m - n,
    {
        if n < m {
            Self::lemma_set_fault_first(
                sessions,
                mode,
                memory,
                input_shapes,
                output_shapes,
                policy,
                n,
                m - 1,
            );
        }
    }

    /// `result` is the outcome of building `count` lanes.
    pub open spec fn set_outcome(
        result: Result<(Self, SetCalls), Error>,
        sessions: Seq<Session>,
        mode: RuntimeMode,
        count: int,
        memory: MemoryInfo,
        input_shapes: Seq<Seq<i64>>,
        output_shapes: Seq<Seq<i64>>,
        policy: BufferSpec,
    ) -> bool {
        if count == 0 {
            result == Err::<(Self, SetCalls), Error>(
                match mode {
                    RuntimeMode::SharedSession => Error::Fault(Fault::RuntimeWithoutLanes),
                    RuntimeMode::ReplicatedSessions => Error::Fault(Fault::RuntimeWithoutSessions),
                },
            )
        } else {
            match Self::set_fault(
                sessions,
                mode,
                memory,
                input_shapes,
                output_shapes,
                policy,
                count,
            ) {
                Some(error) => result == Err::<(Self, SetCalls), Error>(error),
                None => {
                    &&& result matches Ok((set, calls))
                    &&& set.arrangement() == mode
                    &&& set.members().len() == count
                    &&& calls@.len() == count
                    &&& forall|k: int|
                        0 <= k < count ==> (#[trigger] set.members()[k]).is_built(
                            crate::runtime::static_io::session_of(sessions, mode, k),
                            memory,
                            input_shapes,
                            output_shapes,
                            policy,
                        )
                    &&& forall|k: int|
                        0 <= k < count ==> (#[trigger] calls@[k])@
                            == crate::runtime::lane_build::host_lane_calls(
                            input_shapes.len(),
                            output_shapes.len(),
                        )
                },
            }
        }
    }

    fn build_set(
        sessions: LaneSessions,
        count: usize,
        memory: &MemoryInfo,
        input_shapes: &[&[i64]],
        output_shapes: &[&[i64]],
        policy: BufferSpec,
    ) -> (result: Result<(Self, SetCalls), Error>)
        requires
            sessions matches LaneSessions::Replicated(own) ==> own@.len() == count,
        ensures
            Self::set_outcome(
                result,
                sessions.all(),
                sessions.mode(),
                count as int,
                *memory,
                crate::shape::slice_shapes(input_shapes@),
                crate::shape::slice_shapes(output_shapes@),
                policy,
            ),
    {
        let mode: RuntimeMode = match sessions {
            LaneSessions::Shared(_) => RuntimeMode::SharedSession,
            LaneSessions::Replicated(_) => RuntimeMode::ReplicatedSessions,
        };
        if count == 0 {
            return match mode {
                RuntimeMode::SharedSession => fail(Fault::RuntimeWithoutLanes),
                RuntimeMode::ReplicatedSessions => fail(Fault::RuntimeWithoutSessions),
            };
        }
        let mut lanes: Vec<Lane<T>> = Vec::new();
        let mut calls: SetCalls = Vec::new();
        let ghost inputs = crate::shape::slice_shapes(input_shapes@);
        let ghost outputs = crate::shape::slice_shapes(output_shapes@);
        let ghost all = sessions.all();
        let mut k: usize = 0;
        while k < count
            invariant
                k <= count,
                all == sessions.all(),
                mode == sessions.mode(),
                sessions matches LaneSessions::Replicated(own) ==> own@.len() == count,
                inputs == crate::shape::slice_shapes(input_shapes@),
                outputs == crate::shape::slice_shapes(output_shapes@),
                lanes@.len() == k,
                calls@.len() == k,
                Self::set_fault(all, mode, *memory, inputs, outputs, policy, k as int) is None,
                forall|j: int|
                    0 <= j < k ==> (#[trigger] lanes@[j]).is_built(
                        crate::runtime::static_io::session_of(all, mode, j),
                        *memory,
                        inputs,
                        outputs,
                        policy,
                    ),
                forall|j: int|
                    0 <= j < k ==> (#[trigger] calls@[j])@
                        == crate::runtime::lane_build::host_lane_calls(inputs.len(), outputs.len()),
            decreases count - k,
        {
            let session: &Session = match sessions {
                LaneSessions::Shared(session) => session,
                LaneSessions::Replicated(own) => &own[k],
            };
            match Lane::<T>::new(session, memory, input_shapes, output_shapes, policy) {
                Err(error) => {
                    proof {
                        Self::lemma_set_fault_first(
                            all,
                            mode,
                            *memory,
                            inputs,
                            outputs,
                            policy,
                            k + 1,
                            count as int,
                        );
                    }
                    return Err(error);
                },
                Ok((lane, lane_calls)) => {
                    lanes.push(lane);
                    calls.push(lane_calls);
                },
            }
            k = k + 1;
        }
        Ok((Runtime { lanes, mode }, calls))
    }

    /// A set with one shared session.
    pub fn shared_session(
        session: &Session,
        memory: &MemoryInfo,
        input_shapes: &[&[i64]],
        output_shapes: &[&[i64]],
        lanes: usize,
    ) -> (result: Result<(Self, SetCalls), Error>)
        ensures
            Self::set_outcome(
                result,
                seq![*session],
                RuntimeMode::SharedSession,
                lanes as int,
                *memory,
                crate::shape::slice_shapes(input_shapes@),
                crate::shape::slice_shapes(output_shapes@),
                BufferSpec::Auto,
            ),
    {
        Self::shared_session_with_buffer_policy(
            session,
            memory,
            input_shapes,
            output_shapes,
            lanes,
            BufferSpec::Auto,
        )
    }

    /// A set with one shared session and an explicit buffer policy.
    pub fn shared_session_with_buffer_policy(
        session: &Session,
        memory: &MemoryInfo,
        input_shapes: &[&[i64]],
        output_shapes: &[&[i64]],
        lanes: usize,
        policy: BufferSpec,
    ) -> (result: Result<(Self, SetCalls), Error>)
        ensures
            Self::set_outcome(
                result,
                seq![*session],
                RuntimeMode::SharedSession,
                lanes as int,
                *memory,
                crate::shape::slice_shapes(input_shapes@),
                crate::shape::slice_shapes(output_shapes@),
                policy,
            ),
    {
        Self::build_set(
            LaneSessions::Shared(session),
            lanes,
            memory,
            input_shapes,
            output_shapes,
            policy,
        )
    }

    /// A set with one lane for each session.
    pub fn from_sessions(
        sessions: &[Session],
        memory: &MemoryInfo,
        input_shapes: &[&[i64]],
        output_shapes: &[&[i64]],
    ) -> (result: Result<(Self, SetCalls), Error>)
        ensures
            Self::set_outcome(
                result,
                sessions@,
                RuntimeMode::ReplicatedSessions,
                sessions@.len() as int,
                *memory,
                crate::shape::slice_shapes(input_shapes@),
                crate::shape::slice_shapes(output_shapes@),
                BufferSpec::Auto,
            ),
    {
        Self::from_sessions_with_buffer_policy(
            sessions,
            memory,
            input_shapes,
            output_shapes,
            BufferSpec::Auto,
        )
    }

    /// A set with one lane for each session and an explicit buffer policy.
    pub fn from_sessions_with_buffer_policy(
        sessions: &[Session],
        memory: &MemoryInfo,
        input_shapes: &[&[i64]],
        output_shapes: &[&[i64]],
        policy: BufferSpec,
    ) -> (result: Result<(Self, SetCalls), Error>)
        ensures
            Self::set_outcome(
                result,
                sessions@,
                RuntimeMode::ReplicatedSessions,
                sessions@.len() as int,
                *memory,
                crate::shape::slice_shapes(input_shapes@),
                crate::shape::slice_shapes(output_shapes@),
                policy,
            ),
    {
        Self::build_set(
            LaneSessions::Replicated(sessions),
            sessions.len(),
            memory,
            input_shapes,
            output_shapes,
            policy,
        )
    }

    /// A set from what a session factory made of `lanes` requests.
    pub fn from_session_factory(
        lanes: usize,
        made: Result<Vec<Session>, Error>,
        memory: &MemoryInfo,
        input_shapes: &[&[i64]],
        output_shapes: &[&[i64]],
    ) -> (result: Result<(Self, SetCalls), Error>)
        requires
            made matches Ok(sessions) ==> sessions@.len() == lanes,
        ensures
            Self::factory_outcome(
                result,
                lanes,
                made,
                *memory,
                crate::shape::slice_shapes(input_shapes@),
                crate::shape::slice_shapes(output_shapes@),
                BufferSpec::Auto,
            ),
    {
        Self::from_session_factory_with_buffer_policy(
            lanes,
            made,
            memory,
            input_shapes,
            output_shapes,
            BufferSpec::Auto,
        )
    }

    /// `result` is the outcome of building a set from what a session factory made.
    pub open spec fn factory_outcome(
        result: Result<(Self, SetCalls), Error>,
        lanes: usize,
        made: Result<Vec<Session>, Error>,
        memory: MemoryInfo,
        input_shapes: Seq<Seq<i64>>,
        output_shapes: Seq<Seq<i64>>,
        policy: BufferSpec,
    ) -> bool {
        if lanes == 0 {
            result == Err::<(Self, SetCalls), Error>(Error::Fault(Fault::RuntimeWithoutLanes))
        } else {
            match made {
                Err(error) => result == Err::<(Self, SetCalls), Error>(error),
                Ok(sessions) => Self::set_outcome(
                    result,
                    sessions@,
                    RuntimeMode::ReplicatedSessions,
                    sessions@.len() as int,
                    memory,
                    input_shapes,
                    output_shapes,
                    policy,
                ),
            }
        }
    }

    /// A set from what a session factory made of `lanes` requests, with an explicit buffer
    /// policy.
    pub fn from_session_factory_with_buffer_policy(
        lanes: usize,
        made: Result<Vec<Session>, Error>,
        memory: &MemoryInfo,
        input_shapes: &[&[i64]],
        output_shapes: &[&[i64]],
        policy: BufferSpec,
    ) -> (result: Result<(Self, SetCalls), Error>)
        requires
            made matches Ok(sessions) ==> sessions@.len() == lanes,
        ensures
            Self::factory_outcome(
                result,
                lanes,
                made,
                *memory,
                crate::shape::slice_shapes(input_shapes@),
                crate::shape::slice_shapes(output_shapes@),
                policy,
            ),
    {
        if lanes == 0 {
            return fail(Fault::RuntimeWithoutLanes);
        }
        match made {
            Err(error) => Err(error),
            Ok(sessions) => Self::from_sessions_with_buffer_policy(
                sessions.as_slice(),
                memory,
                input_shapes,
                output_shapes,
                policy,
            ),
        }
    }

    /// The number of lanes.
    pub fn len(&self) -> (len: usize)
        ensures
            len == self.members().len(),
    {
        self.lanes.len()
    }

    /// Whether there is no lane.
    pub fn is_empty(&self) -> (empty: bool)
        ensures
            empty == (self.members().len() == 0),
    {
        self.lanes.len() == 0
    }

    /// How the sessions are arranged.
    pub fn session_mode(&self) -> (mode: RuntimeMode)
        ensures
            mode == self.arrangement(),
    {
        self.mode
    }

    /// The lanes.
    pub fn lanes(&self) -> (lanes: &[Lane<T>])
        ensures
            lanes@ == self.members(),
    {
        self.lanes.as_slice()
    }

    /// The lanes, to be run.
    pub fn lanes_mut(&mut self) -> (lanes: &mut [Lane<T>])
        ensures
            lanes@ == old(self).members(),
            final(self).members() == final(lanes)@,
            final(self).arrangement() == old(self).arrangement(),
    {
        self.lanes.as_mut_slice()
    }

    /// One lane.
    pub fn lane(&self, i: usize) -> (lane: Result<&Lane<T>, Error>)
        ensures
            lane == (if i < self.members().len() {
                Ok::<&Lane<T>, Error>(&self.members()[i as int])
            } else {
                Err(Error::IndexOutOfRange { what: Slot::Lane, index: i })
            }),
    {
        if i < self.lanes.len() {
            Ok(&self.lanes[i])
        } else {
            Err(Error::IndexOutOfRange { what: Slot::Lane, index: i })
        }
    }

    /// One lane, to be run.
    pub fn lane_mut(&mut self, i: usize) -> (lane: Result<&mut Lane<T>, Error>)
        ensures
            final(self).arrangement() == old(self).arrangement(),
            if i < old(self).members().len() {
                &&& lane is Ok
                &&& *(lane->Ok_0) == old(self).members()[i as int]
                &&& final(self).members() == old(self).members().update(
                    i as int,
                    *final(lane->Ok_0),
                )
            } else {
                &&& lane is Err
                &&& lane->Err_0 == (Error::IndexOutOfRange { what: Slot::Lane, index: i })
                &&& *final(self) == *old(self)
            },
    {
        if i < self.lanes.len() {
            Ok(&mut self.lanes[i])
        } else {
            Err(Error::IndexOutOfRange { what: Slot::Lane, index: i })
        }
    }

    /// Give the lanes away.
    pub fn into_lanes(self) -> (lanes: Vec<Lane<T>>)
        ensures
            lanes@ == self.members(),
    {
        self.lanes
    }

    /// The addresses of a set's buffers are as many as its lanes and their buffers.
    pub open spec fn addresses_fit(self, addresses: Seq<LaneAddresses>) -> bool {
        &&& addresses.len() == self.members().len()
        &&& forall|k: int|
            0 <= k < addresses.len() ==> {
                &&& (#[trigger] addresses[k]).inputs@.len() == self.members()[k].input_buffers().len()
                &&& addresses[k].outputs@.len() == self.members()[k].output_buffers().len()
            }
    }

    /// Snapshots of all lanes, or the first failure.
    pub fn audit_hot_path(&self, addresses: &[LaneAddresses]) -> (result: Result<
        Vec<LaneHotPathAudit>,
        Error,
    >)
        requires
            self.addresses_fit(addresses@),
        ensures
            match result {
                Ok(audits) => {
                    &&& audits@.len() == self.members().len()
                    &&& forall|k: int|
                        0 <= k < audits@.len() ==> self.members()[k].audited(
                            Ok(#[trigger] audits@[k]),
                            addresses@[k].inputs@,
                            addresses@[k].outputs@,
                        )
                },
                Err(error) => exists|k: int|
                    0 <= k < self.members().len() && (#[trigger] self.members()[k]).audited(
                        Err(error),
                        addresses@[k].inputs@,
                        addresses@[k].outputs@,
                    ),
            },
    {
        let mut audits: Vec<LaneHotPathAudit> = Vec::new();
        let mut k: usize = 0;
        while k < self.lanes.len()
            invariant
                k <= self.lanes@.len(),
                audits@.len() == k,
                self.addresses_fit(addresses@),
                forall|j: int|
                    0 <= j < k ==> self.members()[j].audited(
                        Ok(#[trigger] audits@[j]),
                        addresses@[j].inputs@,
                        addresses@[j].outputs@,
                    ),
            decreases self.lanes@.len() - k,
        {
            assert(addresses@[k as int].inputs@.len() == self.members()[k as int].input_buffers().len());
            match self.lanes[k].audit_hot_path(
                addresses[k].inputs.as_slice(),
                addresses[k].outputs.as_slice(),
            ) {
                Err(error) => {
                    assert(self.members()[k as int].audited(
                        Err(error),
                        addresses@[k as int].inputs@,
                        addresses@[k as int].outputs@,
                    ));
                    return Err(error);
                },
                Ok(audit) => {
                    audits.push(audit);
                },
            }
            k = k + 1;
        }
        Ok(audits)
    }

    /// Why the engine does not read and write the own host memory of one of the first `n` lanes.
    pub open spec fn zero_copy_fault(self, addresses: Seq<LaneAddresses>, n: int) -> Option<Error>
        decreases n,
    {
        if n <= 0 {
            None
        } else {
            match self.zero_copy_fault(addresses, n - 1) {
                Some(error) => Some(error),
                None => self.members()[n - 1].zero_copy_fault(
                    addresses[n - 1].inputs@,
                    addresses[n - 1].outputs@,
                ),
            }
        }
    }

    proof fn lemma_zero_copy_first(self, addresses: Seq<LaneAddresses>, n: int, m: int)
        requires
            0 <= n <= m,
            self.zero_copy_fault(addresses, n) is Some,
        ensures
            self.zero_copy_fault(addresses, m) == self.zero_copy_fault(addresses, n),
        decreases m - n,
    {
        if n < m {
            self.lemma_zero_copy_first(addresses, n, m - 1);
        }
    }

    /// Check that the engine reads and writes every lane's own host memory.
    pub fn assert_zero_copy_plan(&self, addresses: &[LaneAddresses]) -> (result: Result<(), Error>)
        requires
            self.addresses_fit(addresses@),
        ensures
            match self.zero_copy_fault(addresses@, self.members().len() as int) {
                Some(error) => result == Err::<(), Error>(error),
                None => result is Ok,
            },
    {
        let mut k: usize = 0;
        while k < self.lanes.len()
            invariant
                k <= self.lanes@.len(),
                self.addresses_fit(addresses@),
                self.zero_copy_fault(addresses@, k as int) is None,
            decreases self.lanes@.len() - k,
        {
            assert(addresses@[k as int].inputs@.len() == self.members()[k as int].input_buffers().len());
            match self.lanes[k].assert_zero_copy_plan(
                addresses[k].inputs.as_slice(),
                addresses[k].outputs.as_slice(),
            ) {
                Err(error) => {
                    proof {
                        self.lemma_zero_copy_first(addresses@, k + 1, self.members().len() as int);
                    }
                    return Err(error);
                },
                Ok(()) => {},
            }
            k = k + 1;
        }
        Ok(())
    }
}

} // verus!
