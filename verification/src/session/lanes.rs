//! Lanes that a session lends: buffers that are bound once, and read and written between runs.
use vstd::prelude::*;

use crate::calls::{CallPlan, Repeats};
use crate::element::TensorElement;
use crate::error::{Count, Error, Side, Slot};
use crate::memory::MemoryInfo;
use crate::runtime::lane_build::{build_allocated, build_buffers, BuildCall, BuildKind};
use crate::session::binding::{plan_binding_run, BindingCall};
use crate::session::session::Session;
use crate::tensor::allocated::AllocatedTensor;
use crate::tensor::buffer::{BufferSpec, TensorBuffer};
use crate::tensor::value::OwnedValue;

verus! {

/// The tensors after the elements of tensor `i` were overwritten.
pub open spec fn overwritten<T: TensorElement>(
    before: Seq<AllocatedTensor<T>>,
    after: Seq<AllocatedTensor<T>>,
    i: int,
    elements: Seq<T>,
) -> bool {
    &&& after == before.update(i, after[i])
    &&& after[i].contents() == elements
    &&& after[i].dims() == before[i].dims()
    &&& after[i].spec_len() == before[i].spec_len()
    &&& after[i].spec_memory() == before[i].spec_memory()
}

/// Where the tensors of one side of a lane come from.
#[derive(Debug, Clone, Copy, PartialEq, Eq, Structural)]
pub enum Place {
    /// Host buffers of the lane.
    Host,
    /// Tensors from the session's allocator.
    Allocated,
    /// The engine allocates them during each run.
    Memory,
}

impl Place {
    /// The calls that make the tensors of one side.
    pub open spec fn make_calls(self, side: Side, n: nat) -> Seq<BuildCall> {
        match self {
            Place::Host => BuildKind::CreateHostValue.calls(side, n),
            Place::Allocated => BuildKind::AllocateDevice.calls(side, n),
            Place::Memory => Seq::empty(),
        }
    }

    /// The calls that bind the tensors of one side.
    pub open spec fn bind_calls(self, side: Side, n: nat) -> Seq<BuildCall> {
        match self {
            Place::Host => BuildKind::BindHost.calls(side, n),
            Place::Allocated => BuildKind::BindDevice.calls(side, n),
            Place::Memory => BuildKind::BindMemory.calls(side, n),
        }
    }

    fn push_make_calls(self, calls: &mut Vec<BuildCall>, side: Side, n: usize)
        ensures
            final(calls)@ == old(calls)@ + self.make_calls(side, n as nat),
    {
        match self {
            Place::Host => BuildKind::CreateHostValue.push_calls(calls, side, n),
            Place::Allocated => BuildKind::AllocateDevice.push_calls(calls, side, n),
            Place::Memory => {
                assert(calls@ =~= old(calls)@ + self.make_calls(side, n as nat));
            },
        }
    }

    fn push_bind_calls(self, calls: &mut Vec<BuildCall>, side: Side, n: usize)
        ensures
            final(calls)@ == old(calls)@ + self.bind_calls(side, n as nat),
    {
        match self {
            Place::Host => BuildKind::BindHost.push_calls(calls, side, n),
            Place::Allocated => BuildKind::BindDevice.push_calls(calls, side, n),
            Place::Memory => BuildKind::BindMemory.push_calls(calls, side, n),
        }
    }
}

/// The calls that build a lane: all tensors are made first, and then bound under their names.
pub open spec fn lane_calls(inputs: Place, n: nat, outputs: Place, m: nat) -> Seq<BuildCall> {
    inputs.make_calls(Side::Input, n) + outputs.make_calls(Side::Output, m) + seq![
        BuildCall::CreateBinding,
    ] + inputs.bind_calls(Side::Input, n) + outputs.bind_calls(Side::Output, m)
}

fn plan_lane(inputs: Place, n: usize, outputs: Place, m: usize) -> (plan: CallPlan<BuildCall>)
    ensures
        plan.fresh(lane_calls(inputs, n as nat, outputs, m as nat)),
{
    let mut calls: Vec<BuildCall> = Vec::new();
    inputs.push_make_calls(&mut calls, Side::Input, n);
    outputs.push_make_calls(&mut calls, Side::Output, m);
    calls.push(BuildCall::CreateBinding);
    inputs.push_bind_calls(&mut calls, Side::Input, n);
    outputs.push_bind_calls(&mut calls, Side::Output, m);
    assert(calls@ =~= lane_calls(inputs, n as nat, outputs, m as nat));
    CallPlan::new(calls)
}

impl Session {
    /// The shapes are not as many as the session has inputs.
    pub open spec fn input_count_fault(self, got: nat) -> Option<Error> {
        if got == self.inputs().len() {
            None
        } else {
            Some(
                Error::CountMismatch {
                    what: Count::Input,
                    expected: self.inputs().len() as usize,
                    got: got as usize,
                },
            )
        }
    }

    /// The shapes are not as many as the session has outputs.
    pub open spec fn output_count_fault(self, got: nat, what: Count) -> Option<Error> {
        if got == self.outputs().len() {
            None
        } else {
            Some(
                Error::CountMismatch {
                    what,
                    expected: self.outputs().len() as usize,
                    got: got as usize,
                },
            )
        }
    }
}

/// The first of two failures.
pub open spec fn first_of(one: Option<Error>, two: Option<Error>) -> Option<Error> {
    match one {
        Some(error) => Some(error),
        None => two,
    }
}

/// A lane with host buffers for inputs and outputs.
#[derive(Debug)]
pub struct TensorIoLane<T: TensorElement> {
    session: u64,
    inputs: Vec<TensorBuffer<T>>,
    outputs: Vec<TensorBuffer<T>>,
}

impl<T: TensorElement> TensorIoLane<T> {
    /// The session that lends the lane.
    pub closed spec fn spec_session(self) -> u64 {
        self.session
    }

    /// The inputs.
    pub closed spec fn input_tensors(self) -> Seq<TensorBuffer<T>> {
        self.inputs@
    }

    /// The outputs.
    pub closed spec fn output_tensors(self) -> Seq<TensorBuffer<T>> {
        self.outputs@
    }

    /// The calls of a run.
    pub fn run(&mut self) -> (plan: CallPlan<BindingCall>)
        ensures
            plan.fresh(crate::session::binding::binding_calls(true)),
            *final(self) == *old(self),
    {
        plan_binding_run(true)
    }

    /// Runs before serving.
    pub fn prime(&mut self, runs: usize) -> (repeats: Repeats)
        ensures
            repeats.spec_left() == runs,
            *final(self) == *old(self),
    {
        Repeats::new(runs)
    }

    /// The elements of one input.
    pub fn input(&self, i: usize) -> (input: Result<&[T], Error>)
        ensures
            if i < self.input_tensors().len() {
                input matches Ok(elements) && elements@ == self.input_tensors()[i as int]@
            } else {
                input == Err::<&[T], Error>(Error::IndexOutOfRange { what: Slot::LaneInput, index: i })
            },
    {
        if i < self.inputs.len() {
            Ok(self.inputs[i].as_slice())
        } else {
            Err(Error::IndexOutOfRange { what: Slot::LaneInput, index: i })
        }
    }

    /// The elements of one input, to be written.
    pub fn input_mut(&mut self, i: usize) -> (input: Result<&mut [T], Error>)
        ensures
            final(self).spec_session() == old(self).spec_session(),
            final(self).output_tensors() == old(self).output_tensors(),
            if i < old(self).input_tensors().len() {
                &&& input is Ok
                &&& input->Ok_0@ == old(self).input_tensors()[i as int]@
                &&& crate::runtime::host_lane::written(
                    old(self).input_tensors(),
                    final(self).input_tensors(),
                    i as int,
                    final(input->Ok_0)@,
                )
            } else {
                &&& input is Err
                &&& input->Err_0 == (Error::IndexOutOfRange { what: Slot::LaneInput, index: i })
                &&& *final(self) == *old(self)
            },
    {
        if i < self.inputs.len() {
            Ok(self.inputs[i].as_mut_slice())
        } else {
            Err(Error::IndexOutOfRange { what: Slot::LaneInput, index: i })
        }
    }

    /// One input buffer.
    pub fn input_buffer(&self, i: usize) -> (input: Result<&TensorBuffer<T>, Error>)
        ensures
            input == (if i < self.input_tensors().len() {
                Ok::<&TensorBuffer<T>, Error>(&self.input_tensors()[i as int])
            } else {
                Err(Error::IndexOutOfRange { what: Slot::LaneInput, index: i })
            }),
    {
        if i < self.inputs.len() {
            Ok(&self.inputs[i])
        } else {
            Err(Error::IndexOutOfRange { what: Slot::LaneInput, index: i })
        }
    }

    /// The elements of one output.
    pub fn output(&self, i: usize) -> (output: Result<&[T], Error>)
        ensures
            if i < self.output_tensors().len() {
                output matches Ok(elements) && elements@ == self.output_tensors()[i as int]@
            } else {
                output == Err::<&[T], Error>(Error::IndexOutOfRange { what: Slot::LaneOutput, index: i })
            },
    {
        if i < self.outputs.len() {
            Ok(self.outputs[i].as_slice())
        } else {
            Err(Error::IndexOutOfRange { what: Slot::LaneOutput, index: i })
        }
    }

    /// The elements of one output, to be written.
    pub fn output_mut(&mut self, i: usize) -> (output: Result<&mut [T], Error>)
        ensures
            final(self).spec_session() == old(self).spec_session(),
            final(self).input_tensors() == old(self).input_tensors(),
            if i < old(self).output_tensors().len() {
                &&& output is Ok
                &&& output->Ok_0@ == old(self).output_tensors()[i as int]@
                &&& crate::runtime::host_lane::written(
                    old(self).output_tensors(),
                    final(self).output_tensors(),
                    i as int,
                    final(output->Ok_0)@,
                )
            } else {
                &&& output is Err
                &&& output->Err_0 == (Error::IndexOutOfRange { what: Slot::LaneOutput, index: i })
                &&& *final(self) == *old(self)
            },
    {
        if i < self.outputs.len() {
            Ok(self.outputs[i].as_mut_slice())
        } else {
            Err(Error::IndexOutOfRange { what: Slot::LaneOutput, index: i })
        }
    }

    /// One output buffer.
    pub fn output_buffer(&self, i: usize) -> (output: Result<&TensorBuffer<T>, Error>)
        ensures
            output == (if i < self.output_tensors().len() {
                Ok::<&TensorBuffer<T>, Error>(&self.output_tensors()[i as int])
            } else {
                Err(Error::IndexOutOfRange { what: Slot::LaneOutput, index: i })
            }),
    {
        if i < self.outputs.len() {
            Ok(&self.outputs[i])
        } else {
            Err(Error::IndexOutOfRange { what: Slot::LaneOutput, index: i })
        }
    }
}

/// A lane with host buffers for inputs and allocated tensors for outputs.
#[derive(Debug)]
pub struct AllocatedOutputTensorIoLane<T: TensorElement> {
    session: u64,
    inputs: Vec<TensorBuffer<T>>,
    outputs: Vec<AllocatedTensor<T>>,
}

impl<T: TensorElement> AllocatedOutputTensorIoLane<T> {
    /// The session that lends the lane.
    pub closed spec fn spec_session(self) -> u64 {
        self.session
    }

    /// The inputs.
    pub closed spec fn input_tensors(self) -> Seq<TensorBuffer<T>> {
        self.inputs@
    }

    /// The outputs.
    pub closed spec fn output_tensors(self) -> Seq<AllocatedTensor<T>> {
        self.outputs@
    }

    /// The calls of a run.
    pub fn run(&mut self) -> (plan: CallPlan<BindingCall>)
        ensures
            plan.fresh(crate::session::binding::binding_calls(true)),
            *final(self) == *old(self),
    {
        plan_binding_run(true)
    }

    /// Runs before serving.
    pub fn prime(&mut self, runs: usize) -> (repeats: Repeats)
        ensures
            repeats.spec_left() == runs,
            *final(self) == *old(self),
    {
        Repeats::new(runs)
    }

    /// The elements of one input.
    pub fn input(&self, i: usize) -> (input: Result<&[T], Error>)
        ensures
            if i < self.input_tensors().len() {
                input matches Ok(elements) && elements@ == self.input_tensors()[i as int]@
            } else {
                input == Err::<&[T], Error>(Error::IndexOutOfRange { what: Slot::AllocatedOutputLaneInput, index: i })
            },
    {
        if i < self.inputs.len() {
            Ok(self.inputs[i].as_slice())
        } else {
            Err(Error::IndexOutOfRange { what: Slot::AllocatedOutputLaneInput, index: i })
        }
    }

    /// The elements of one input, to be written.
    pub fn input_mut(&mut self, i: usize) -> (input: Result<&mut [T], Error>)
        ensures
            final(self).spec_session() == old(self).spec_session(),
            final(self).output_tensors() == old(self).output_tensors(),
            if i < old(self).input_tensors().len() {
                &&& input is Ok
                &&& input->Ok_0@ == old(self).input_tensors()[i as int]@
                &&& crate::runtime::host_lane::written(
                    old(self).input_tensors(),
                    final(self).input_tensors(),
                    i as int,
                    final(input->Ok_0)@,
                )
            } else {
                &&& input is Err
                &&& input->Err_0 == (Error::IndexOutOfRange { what: Slot::AllocatedOutputLaneInput, index: i })
                &&& *final(self) == *old(self)
            },
    {
        if i < self.inputs.len() {
            Ok(self.inputs[i].as_mut_slice())
        } else {
            Err(Error::IndexOutOfRange { what: Slot::AllocatedOutputLaneInput, index: i })
        }
    }

    /// One input buffer.
    pub fn input_buffer(&self, i: usize) -> (input: Result<&TensorBuffer<T>, Error>)
        ensures
            input == (if i < self.input_tensors().len() {
                Ok::<&TensorBuffer<T>, Error>(&self.input_tensors()[i as int])
            } else {
                Err(Error::IndexOutOfRange { what: Slot::AllocatedOutputLaneInput, index: i })
            }),
    {
        if i < self.inputs.len() {
            Ok(&self.inputs[i])
        } else {
            Err(Error::IndexOutOfRange { what: Slot::AllocatedOutputLaneInput, index: i })
        }
    }

    /// The elements of one output, where the host can read them.
    pub fn output(&self, i: usize) -> (output: Result<&[T], Error>)
        ensures
            if i >= self.output_tensors().len() {
                output == Err::<&[T], Error>(Error::IndexOutOfRange { what: Slot::AllocatedOutputLaneOutput, index: i })
            } else if self.output_tensors()[i as int].spec_memory().host_accessible {
                output matches Ok(elements) && elements@ == self.output_tensors()[i as int].contents()
            } else {
                output == Err::<&[T], Error>(
                    Error::TensorMemoryNotHost {
                        memory: self.output_tensors()[i as int].spec_memory(),
                    },
                )
            },
    {
        if i < self.outputs.len() {
            self.outputs[i].as_slice()
        } else {
            Err(Error::IndexOutOfRange { what: Slot::AllocatedOutputLaneOutput, index: i })
        }
    }

    /// The elements of one output, to be written, where the host can.
    pub fn output_mut(&mut self, i: usize) -> (output: Result<&mut [T], Error>)
        ensures
            final(self).spec_session() == old(self).spec_session(),
            final(self).input_tensors() == old(self).input_tensors(),
            if i >= old(self).output_tensors().len() {
                &&& output is Err
                &&& output->Err_0 == (Error::IndexOutOfRange { what: Slot::AllocatedOutputLaneOutput, index: i })
                &&& *final(self) == *old(self)
            } else if old(self).output_tensors()[i as int].spec_memory().host_accessible {
                &&& output is Ok
                &&& output->Ok_0@ == old(self).output_tensors()[i as int].contents()
                &&& overwritten(
                    old(self).output_tensors(),
                    final(self).output_tensors(),
                    i as int,
                    final(output->Ok_0)@,
                )
            } else {
                &&& output is Err
                &&& output->Err_0 == (Error::TensorMemoryNotHost {
                    memory: old(self).output_tensors()[i as int].spec_memory(),
                })
                &&& final(self).output_tensors() == old(self).output_tensors()
            },
    {
        if i < self.outputs.len() {
            self.outputs[i].as_mut_slice()
        } else {
            Err(Error::IndexOutOfRange { what: Slot::AllocatedOutputLaneOutput, index: i })
        }
    }

    /// One output tensor.
    pub fn output_tensor(&self, i: usize) -> (output: Result<&AllocatedTensor<T>, Error>)
        ensures
            output == (if i < self.output_tensors().len() {
                Ok::<&AllocatedTensor<T>, Error>(&self.output_tensors()[i as int])
            } else {
                Err(Error::IndexOutOfRange { what: Slot::AllocatedOutputLaneOutput, index: i })
            }),
    {
        if i < self.outputs.len() {
            Ok(&self.outputs[i])
        } else {
            Err(Error::IndexOutOfRange { what: Slot::AllocatedOutputLaneOutput, index: i })
        }
    }
}

/// A lane with host buffers for inputs, whose outputs the engine allocates in some memory during each
/// run.
#[derive(Debug)]
pub struct DeviceOutputTensorIoLane<T: TensorElement> {
    session: u64,
    inputs: Vec<TensorBuffer<T>>,
    output_memory: MemoryInfo,
    outputs: Vec<OwnedValue>,
}

impl<T: TensorElement> DeviceOutputTensorIoLane<T> {
    /// The session that lends the lane.
    pub closed spec fn spec_session(self) -> u64 {
        self.session
    }

    /// The inputs.
    pub closed spec fn input_tensors(self) -> Seq<TensorBuffer<T>> {
        self.inputs@
    }

    /// The outputs.
    pub closed spec fn output_tensors(self) -> Seq<OwnedValue> {
        self.outputs@
    }

    /// The memory that every output is bound to.
    pub closed spec fn spec_output_memory(self) -> MemoryInfo {
        self.output_memory
    }

    /// The memory that every output is bound to.
    pub fn output_memory(&self) -> (memory: &MemoryInfo)
        ensures
            *memory == self.spec_output_memory(),
    {
        &self.output_memory
    }

    /// The calls of a run. What the last run gave is dropped first.
    pub fn run(&mut self) -> (plan: CallPlan<BindingCall>)
        ensures
            plan.fresh(crate::session::binding::binding_calls(true)),
            final(self).spec_session() == old(self).spec_session(),
            final(self).spec_output_memory() == old(self).spec_output_memory(),
            final(self).input_tensors() == old(self).input_tensors(),
            final(self).output_tensors() == Seq::<OwnedValue>::empty(),
    {
        self.outputs.clear();
        plan_binding_run(true)
    }

    /// Take the outputs of a run that succeeded.
    pub fn finish_run(&mut self, values: Result<Vec<OwnedValue>, Error>) -> (result: Result<
        (),
        Error,
    >)
        ensures
            final(self).spec_session() == old(self).spec_session(),
            final(self).spec_output_memory() == old(self).spec_output_memory(),
            final(self).input_tensors() == old(self).input_tensors(),
            match values {
                Ok(values) => result is Ok && final(self).output_tensors() == values@,
                Err(error) => result == Err::<(), Error>(error) && final(self).output_tensors()
                    == old(self).output_tensors(),
            },
    {
        match values {
            Ok(values) => {
                self.outputs = values;
                Ok(())
            },
            Err(error) => Err(error),
        }
    }

    /// Runs before serving.
    pub fn prime(&mut self, runs: usize) -> (repeats: Repeats)
        ensures
            repeats.spec_left() == runs,
            *final(self) == *old(self),
    {
        Repeats::new(runs)
    }

    /// The outputs of the last run.
    pub fn outputs(&self) -> (outputs: &[OwnedValue])
        ensures
            outputs@ == self.output_tensors(),
    {
        self.outputs.as_slice()
    }

    /// One output of the last run.
    pub fn output(&self, i: usize) -> (output: Result<&OwnedValue, Error>)
        ensures
            output == (if i < self.output_tensors().len() {
                Ok::<&OwnedValue, Error>(&self.output_tensors()[i as int])
            } else {
                Err(Error::IndexOutOfRange { what: Slot::DeviceOutputLaneOutput, index: i })
            }),
    {
        if i < self.outputs.len() {
            Ok(&self.outputs[i])
        } else {
            Err(Error::IndexOutOfRange { what: Slot::DeviceOutputLaneOutput, index: i })
        }
    }

    /// The elements of one input.
    pub fn input(&self, i: usize) -> (input: Result<&[T], Error>)
        ensures
            if i < self.input_tensors().len() {
                input matches Ok(elements) && elements@ == self.input_tensors()[i as int]@
            } else {
                input == Err::<&[T], Error>(Error::IndexOutOfRange { what: Slot::DeviceOutputLaneInput, index: i })
            },
    {
        if i < self.inputs.len() {
            Ok(self.inputs[i].as_slice())
        } else {
            Err(Error::IndexOutOfRange { what: Slot::DeviceOutputLaneInput, index: i })
        }
    }

    /// The elements of one input, to be written.
    pub fn input_mut(&mut self, i: usize) -> (input: Result<&mut [T], Error>)
        ensures
            final(self).spec_session() == old(self).spec_session(),
            final(self).spec_output_memory() == old(self).spec_output_memory(),
            final(self).output_tensors() == old(self).output_tensors(),
            if i < old(self).input_tensors().len() {
                &&& input is Ok
                &&& input->Ok_0@ == old(self).input_tensors()[i as int]@
                &&& crate::runtime::host_lane::written(
                    old(self).input_tensors(),
                    final(self).input_tensors(),
                    i as int,
                    final(input->Ok_0)@,
                )
            } else {
                &&& input is Err
                &&& input->Err_0 == (Error::IndexOutOfRange { what: Slot::DeviceOutputLaneInput, index: i })
                &&& *final(self) == *old(self)
            },
    {
        if i < self.inputs.len() {
            Ok(self.inputs[i].as_mut_slice())
        } else {
            Err(Error::IndexOutOfRange { what: Slot::DeviceOutputLaneInput, index: i })
        }
    }

    /// One input buffer.
    pub fn input_buffer(&self, i: usize) -> (input: Result<&TensorBuffer<T>, Error>)
        ensures
            input == (if i < self.input_tensors().len() {
                Ok::<&TensorBuffer<T>, Error>(&self.input_tensors()[i as int])
            } else {
                Err(Error::IndexOutOfRange { what: Slot::DeviceOutputLaneInput, index: i })
            }),
    {
        if i < self.inputs.len() {
            Ok(&self.inputs[i])
        } else {
            Err(Error::IndexOutOfRange { what: Slot::DeviceOutputLaneInput, index: i })
        }
    }
}

/// A lane with allocated tensors for inputs and outputs.
#[derive(Debug)]
pub struct AllocatedTensorIoLane<T: TensorElement> {
    session: u64,
    inputs: Vec<AllocatedTensor<T>>,
    outputs: Vec<AllocatedTensor<T>>,
}

impl<T: TensorElement> AllocatedTensorIoLane<T> {
    /// The session that lends the lane.
    pub closed spec fn spec_session(self) -> u64 {
        self.session
    }

    /// The inputs.
    pub closed spec fn input_tensors(self) -> Seq<AllocatedTensor<T>> {
        self.inputs@
    }

    /// The outputs.
    pub closed spec fn output_tensors(self) -> Seq<AllocatedTensor<T>> {
        self.outputs@
    }

    /// The calls of a run.
    pub fn run(&mut self) -> (plan: CallPlan<BindingCall>)
        ensures
            plan.fresh(crate::session::binding::binding_calls(true)),
            *final(self) == *old(self),
    {
        plan_binding_run(true)
    }

    /// Runs before serving.
    pub fn prime(&mut self, runs: usize) -> (repeats: Repeats)
        ensures
            repeats.spec_left() == runs,
            *final(self) == *old(self),
    {
        Repeats::new(runs)
    }

    /// The elements of one input, where the host can read them.
    pub fn input(&self, i: usize) -> (input: Result<&[T], Error>)
        ensures
            if i >= self.input_tensors().len() {
                input == Err::<&[T], Error>(Error::IndexOutOfRange { what: Slot::AllocatedLaneInput, index: i })
            } else if self.input_tensors()[i as int].spec_memory().host_accessible {
                input matches Ok(elements) && elements@ == self.input_tensors()[i as int].contents()
            } else {
                input == Err::<&[T], Error>(
                    Error::TensorMemoryNotHost {
                        memory: self.input_tensors()[i as int].spec_memory(),
                    },
                )
            },
    {
        if i < self.inputs.len() {
            self.inputs[i].as_slice()
        } else {
            Err(Error::IndexOutOfRange { what: Slot::AllocatedLaneInput, index: i })
        }
    }

    /// The elements of one input, to be written, where the host can.
    pub fn input_mut(&mut self, i: usize) -> (input: Result<&mut [T], Error>)
        ensures
            final(self).spec_session() == old(self).spec_session(),
            final(self).output_tensors() == old(self).output_tensors(),
            if i >= old(self).input_tensors().len() {
                &&& input is Err
                &&& input->Err_0 == (Error::IndexOutOfRange { what: Slot::AllocatedLaneInput, index: i })
                &&& *final(self) == *old(self)
            } else if old(self).input_tensors()[i as int].spec_memory().host_accessible {
                &&& input is Ok
                &&& input->Ok_0@ == old(self).input_tensors()[i as int].contents()
                &&& overwritten(
                    old(self).input_tensors(),
                    final(self).input_tensors(),
                    i as int,
                    final(input->Ok_0)@,
                )
            } else {
                &&& input is Err
                &&& input->Err_0 == (Error::TensorMemoryNotHost {
                    memory: old(self).input_tensors()[i as int].spec_memory(),
                })
                &&& final(self).input_tensors() == old(self).input_tensors()
            },
    {
        if i < self.inputs.len() {
            self.inputs[i].as_mut_slice()
        } else {
            Err(Error::IndexOutOfRange { what: Slot::AllocatedLaneInput, index: i })
        }
    }

    /// One input tensor.
    pub fn input_tensor(&self, i: usize) -> (input: Result<&AllocatedTensor<T>, Error>)
        ensures
            input == (if i < self.input_tensors().len() {
                Ok::<&AllocatedTensor<T>, Error>(&self.input_tensors()[i as int])
            } else {
                Err(Error::IndexOutOfRange { what: Slot::AllocatedLaneInput, index: i })
            }),
    {
        if i < self.inputs.len() {
            Ok(&self.inputs[i])
        } else {
            Err(Error::IndexOutOfRange { what: Slot::AllocatedLaneInput, index: i })
        }
    }

    /// The elements of one output, where the host can read them.
    pub fn output(&self, i: usize) -> (output: Result<&[T], Error>)
        ensures
            if i >= self.output_tensors().len() {
                output == Err::<&[T], Error>(Error::IndexOutOfRange { what: Slot::AllocatedLaneOutput, index: i })
            } else if self.output_tensors()[i as int].spec_memory().host_accessible {
                output matches Ok(elements) && elements@ == self.output_tensors()[i as int].contents()
            } else {
                output == Err::<&[T], Error>(
                    Error::TensorMemoryNotHost {
                        memory: self.output_tensors()[i as int].spec_memory(),
                    },
                )
            },
    {
        if i < self.outputs.len() {
            self.outputs[i].as_slice()
        } else {
            Err(Error::IndexOutOfRange { what: Slot::AllocatedLaneOutput, index: i })
        }
    }

    /// The elements of one output, to be written, where the host can.
    pub fn output_mut(&mut self, i: usize) -> (output: Result<&mut [T], Error>)
        ensures
            final(self).spec_session() == old(self).spec_session(),
            final(self).input_tensors() == old(self).input_tensors(),
            if i >= old(self).output_tensors().len() {
                &&& output is Err
                &&& output->Err_0 == (Error::IndexOutOfRange { what: Slot::AllocatedLaneOutput, index: i })
                &&& *final(self) == *old(self)
            } else if old(self).output_tensors()[i as int].spec_memory().host_accessible {
                &&& output is Ok
                &&& output->Ok_0@ == old(self).output_tensors()[i as int].contents()
                &&& overwritten(
                    old(self).output_tensors(),
                    final(self).output_tensors(),
                    i as int,
                    final(output->Ok_0)@,
                )
            } else {
                &&& output is Err
                &&& output->Err_0 == (Error::TensorMemoryNotHost {
                    memory: old(self).output_tensors()[i as int].spec_memory(),
                })
                &&& final(self).output_tensors() == old(self).output_tensors()
            },
    {
        if i < self.outputs.len() {
            self.outputs[i].as_mut_slice()
        } else {
            Err(Error::IndexOutOfRange { what: Slot::AllocatedLaneOutput, index: i })
        }
    }

    /// One output tensor.
    pub fn output_tensor(&self, i: usize) -> (output: Result<&AllocatedTensor<T>, Error>)
        ensures
            output == (if i < self.output_tensors().len() {
                Ok::<&AllocatedTensor<T>, Error>(&self.output_tensors()[i as int])
            } else {
                Err(Error::IndexOutOfRange { what: Slot::AllocatedLaneOutput, index: i })
            }),
    {
        if i < self.outputs.len() {
            Ok(&self.outputs[i])
        } else {
            Err(Error::IndexOutOfRange { what: Slot::AllocatedLaneOutput, index: i })
        }
    }
}

/// A lane with a fixed number of host buffers for inputs and outputs.
#[derive(Debug)]
pub struct StaticTensorIoLane<T: TensorElement, const INPUTS: usize, const OUTPUTS: usize> {
    session: u64,
    inputs: Vec<TensorBuffer<T>>,
    outputs: Vec<TensorBuffer<T>>,
}

impl<T: TensorElement, const INPUTS: usize, const OUTPUTS: usize> StaticTensorIoLane<T, INPUTS, OUTPUTS> {
    /// The session that lends the lane.
    pub closed spec fn spec_session(self) -> u64 {
        self.session
    }

    /// The inputs.
    pub closed spec fn input_tensors(self) -> Seq<TensorBuffer<T>> {
        self.inputs@
    }

    /// The outputs.
    pub closed spec fn output_tensors(self) -> Seq<TensorBuffer<T>> {
        self.outputs@
    }

    /// The lane has as many buffers as its type says.
    pub open spec fn wf(self) -> bool {
        self.input_tensors().len() == INPUTS && self.output_tensors().len() == OUTPUTS
    }

    /// The calls of a run.
    pub fn run(&mut self) -> (plan: CallPlan<BindingCall>)
        ensures
            plan.fresh(crate::session::binding::binding_calls(true)),
            *final(self) == *old(self),
    {
        plan_binding_run(true)
    }

    /// Runs before serving.
    pub fn prime(&mut self, runs: usize) -> (repeats: Repeats)
        ensures
            repeats.spec_left() == runs,
            *final(self) == *old(self),
    {
        Repeats::new(runs)
    }

    /// The input buffers.
    pub fn inputs(&self) -> (inputs: &[TensorBuffer<T>])
        ensures
            inputs@ == self.input_tensors(),
    {
        self.inputs.as_slice()
    }

    /// The input buffers, to be written.
    pub fn inputs_mut(&mut self) -> (inputs: &mut [TensorBuffer<T>])
        ensures
            inputs@ == old(self).input_tensors(),
            final(self).input_tensors() == final(inputs)@,
            final(self).output_tensors() == old(self).output_tensors(),
            final(self).spec_session() == old(self).spec_session(),
    {
        self.inputs.as_mut_slice()
    }

    /// The output buffers.
    pub fn outputs(&self) -> (outputs: &[TensorBuffer<T>])
        ensures
            outputs@ == self.output_tensors(),
    {
        self.outputs.as_slice()
    }

    /// The output buffers, to be written.
    pub fn outputs_mut(&mut self) -> (outputs: &mut [TensorBuffer<T>])
        ensures
            outputs@ == old(self).output_tensors(),
            final(self).output_tensors() == final(outputs)@,
            final(self).input_tensors() == old(self).input_tensors(),
            final(self).spec_session() == old(self).spec_session(),
    {
        self.outputs.as_mut_slice()
    }

    /// The elements of one input.
    pub fn input(&self, i: usize) -> (input: Result<&[T], Error>)
        ensures
            if i < self.input_tensors().len() {
                input matches Ok(elements) && elements@ == self.input_tensors()[i as int]@
            } else {
                input == Err::<&[T], Error>(Error::IndexOutOfRange { what: Slot::LaneInput, index: i })
            },
    {
        if i < self.inputs.len() {
            Ok(self.inputs[i].as_slice())
        } else {
            Err(Error::IndexOutOfRange { what: Slot::LaneInput, index: i })
        }
    }

    /// The elements of one input, to be written.
    pub fn input_mut(&mut self, i: usize) -> (input: Result<&mut [T], Error>)
        ensures
            final(self).spec_session() == old(self).spec_session(),
            final(self).output_tensors() == old(self).output_tensors(),
            if i < old(self).input_tensors().len() {
                &&& input is Ok
                &&& input->Ok_0@ == old(self).input_tensors()[i as int]@
                &&& crate::runtime::host_lane::written(
                    old(self).input_tensors(),
                    final(self).input_tensors(),
                    i as int,
                    final(input->Ok_0)@,
                )
            } else {
                &&& input is Err
                &&& input->Err_0 == (Error::IndexOutOfRange { what: Slot::LaneInput, index: i })
                &&& *final(self) == *old(self)
            },
    {
        if i < self.inputs.len() {
            Ok(self.inputs[i].as_mut_slice())
        } else {
            Err(Error::IndexOutOfRange { what: Slot::LaneInput, index: i })
        }
    }

    /// One input buffer.
    pub fn input_buffer(&self, i: usize) -> (input: Result<&TensorBuffer<T>, Error>)
        ensures
            input == (if i < self.input_tensors().len() {
                Ok::<&TensorBuffer<T>, Error>(&self.input_tensors()[i as int])
            } else {
                Err(Error::IndexOutOfRange { what: Slot::LaneInput, index: i })
            }),
    {
        if i < self.inputs.len() {
            Ok(&self.inputs[i])
        } else {
            Err(Error::IndexOutOfRange { what: Slot::LaneInput, index: i })
        }
    }

    /// The elements of one output.
    pub fn output(&self, i: usize) -> (output: Result<&[T], Error>)
        ensures
            if i < self.output_tensors().len() {
                output matches Ok(elements) && elements@ == self.output_tensors()[i as int]@
            } else {
                output == Err::<&[T], Error>(Error::IndexOutOfRange { what: Slot::LaneOutput, index: i })
            },
    {
        if i < self.outputs.len() {
            Ok(self.outputs[i].as_slice())
        } else {
            Err(Error::IndexOutOfRange { what: Slot::LaneOutput, index: i })
        }
    }

    /// The elements of one output, to be written.
    pub fn output_mut(&mut self, i: usize) -> (output: Result<&mut [T], Error>)
        ensures
            final(self).spec_session() == old(self).spec_session(),
            final(self).input_tensors() == old(self).input_tensors(),
            if i < old(self).output_tensors().len() {
                &&& output is Ok
                &&& output->Ok_0@ == old(self).output_tensors()[i as int]@
                &&& crate::runtime::host_lane::written(
                    old(self).output_tensors(),
                    final(self).output_tensors(),
                    i as int,
                    final(output->Ok_0)@,
                )
            } else {
                &&& output is Err
                &&& output->Err_0 == (Error::IndexOutOfRange { what: Slot::LaneOutput, index: i })
                &&& *final(self) == *old(self)
            },
    {
        if i < self.outputs.len() {
            Ok(self.outputs[i].as_mut_slice())
        } else {
            Err(Error::IndexOutOfRange { what: Slot::LaneOutput, index: i })
        }
    }

    /// One output buffer.
    pub fn output_buffer(&self, i: usize) -> (output: Result<&TensorBuffer<T>, Error>)
        ensures
            output == (if i < self.output_tensors().len() {
                Ok::<&TensorBuffer<T>, Error>(&self.output_tensors()[i as int])
            } else {
                Err(Error::IndexOutOfRange { what: Slot::LaneOutput, index: i })
            }),
    {
        if i < self.outputs.len() {
            Ok(&self.outputs[i])
        } else {
            Err(Error::IndexOutOfRange { what: Slot::LaneOutput, index: i })
        }
    }
}

impl<T: TensorElement> TensorIoLane<T> {
    /// Why no lane can be prepared.
    pub open spec fn prepare_fault(
        session: Session,
        memory: MemoryInfo,
        inputs: Seq<Seq<i64>>,
        outputs: Seq<Seq<i64>>,
        policy: BufferSpec,
    ) -> Option<Error> {
        first_of(
            session.input_count_fault(inputs.len()),
            first_of(
                session.output_count_fault(outputs.len(), Count::OutputShape),
                first_of(
                    crate::runtime::lane_build::buffers_fault::<T>(inputs, memory, policy),
                    first_of(
                        crate::runtime::lane_build::buffers_fault::<T>(outputs, memory, policy),
                        session.names_fault(),
                    ),
                ),
            ),
        )
    }

    /// This is the lane that is prepared.
    pub open spec fn is_prepared(
        self,
        session: Session,
        memory: MemoryInfo,
        inputs: Seq<Seq<i64>>,
        outputs: Seq<Seq<i64>>,
        policy: BufferSpec,
    ) -> bool {
        &&& self.spec_session() == session.spec_handle()
        &&& crate::runtime::lane_build::zeroed_buffers(
            self.input_tensors(),
            inputs,
            memory,
            policy,
        )
        &&& crate::runtime::lane_build::zeroed_buffers(
            self.output_tensors(),
            outputs,
            memory,
            policy,
        )
    }

    /// `prepared` is the outcome of preparing a lane.
    pub open spec fn prepare_outcome(
        prepared: Result<(TensorIoLane<T>, CallPlan<BuildCall>), Error>,
        session: Session,
        memory: MemoryInfo,
        inputs: Seq<Seq<i64>>,
        outputs: Seq<Seq<i64>>,
        policy: BufferSpec,
    ) -> bool {
        match Self::prepare_fault(session, memory, inputs, outputs, policy) {
            Some(error) => prepared == Err::<(TensorIoLane<T>, CallPlan<BuildCall>), Error>(error),
            None => {
                &&& prepared matches Ok((lane, plan))
                &&& lane.is_prepared(session, memory, inputs, outputs, policy)
                &&& plan.fresh(lane_calls(Place::Host, inputs.len(), Place::Host, outputs.len()))
            },
        }
    }
}

impl<T: TensorElement, const INPUTS: usize, const OUTPUTS: usize> StaticTensorIoLane<
    T,
    INPUTS,
    OUTPUTS,
> {
    /// `prepared` is the outcome of preparing a lane.
    pub open spec fn prepare_outcome(
        prepared: Result<(StaticTensorIoLane<T, INPUTS, OUTPUTS>, CallPlan<BuildCall>), Error>,
        session: Session,
        memory: MemoryInfo,
        inputs: Seq<Seq<i64>>,
        outputs: Seq<Seq<i64>>,
        policy: BufferSpec,
    ) -> bool {
        match TensorIoLane::<T>::prepare_fault(session, memory, inputs, outputs, policy) {
            Some(error) => prepared == Err::<
                (StaticTensorIoLane<T, INPUTS, OUTPUTS>, CallPlan<BuildCall>),
                Error,
            >(error),
            None => {
                &&& prepared matches Ok((lane, plan))
                &&& lane.wf()
                &&& lane.spec_session() == session.spec_handle()
                &&& crate::runtime::lane_build::zeroed_buffers(
                    lane.input_tensors(),
                    inputs,
                    memory,
                    policy,
                )
                &&& crate::runtime::lane_build::zeroed_buffers(
                    lane.output_tensors(),
                    outputs,
                    memory,
                    policy,
                )
                &&& plan.fresh(lane_calls(Place::Host, inputs.len(), Place::Host, outputs.len()))
            },
        }
    }
}

impl<T: TensorElement> AllocatedOutputTensorIoLane<T> {
    /// Why no lane can be prepared.
    pub open spec fn prepare_fault(
        session: Session,
        memory: MemoryInfo,
        inputs: Seq<Seq<i64>>,
        outputs: Seq<Seq<i64>>,
        policy: BufferSpec,
    ) -> Option<Error> {
        first_of(
            session.input_count_fault(inputs.len()),
            first_of(
                session.output_count_fault(outputs.len(), Count::OutputShape),
                first_of(
                    crate::runtime::lane_build::buffers_fault::<T>(inputs, memory, policy),
                    first_of(
                        crate::runtime::lane_build::allocated_fault(outputs, outputs.len() as int),
                        session.names_fault(),
                    ),
                ),
            ),
        )
    }

    /// `prepared` is the outcome of preparing a lane.
    pub open spec fn prepare_outcome(
        prepared: Result<(AllocatedOutputTensorIoLane<T>, CallPlan<BuildCall>), Error>,
        session: Session,
        input_memory: MemoryInfo,
        output_memory: MemoryInfo,
        inputs: Seq<Seq<i64>>,
        outputs: Seq<Seq<i64>>,
        policy: BufferSpec,
    ) -> bool {
        match Self::prepare_fault(session, input_memory, inputs, outputs, policy) {
            Some(error) => prepared == Err::<
                (AllocatedOutputTensorIoLane<T>, CallPlan<BuildCall>),
                Error,
            >(error),
            None => {
                &&& prepared matches Ok((lane, plan))
                &&& lane.spec_session() == session.spec_handle()
                &&& crate::runtime::lane_build::zeroed_buffers(
                    lane.input_tensors(),
                    inputs,
                    input_memory,
                    policy,
                )
                &&& crate::runtime::lane_build::allocated_tensors(
                    lane.output_tensors(),
                    outputs,
                    output_memory,
                )
                &&& plan.fresh(
                    lane_calls(Place::Host, inputs.len(), Place::Allocated, outputs.len()),
                )
            },
        }
    }
}

impl<T: TensorElement> DeviceOutputTensorIoLane<T> {
    /// `prepared` is the outcome of preparing a lane.
    pub open spec fn prepare_outcome(
        prepared: Result<(DeviceOutputTensorIoLane<T>, CallPlan<BuildCall>), Error>,
        session: Session,
        memory: MemoryInfo,
        output_memory: MemoryInfo,
        inputs: Seq<Seq<i64>>,
        policy: BufferSpec,
    ) -> bool {
        match first_of(
            session.input_count_fault(inputs.len()),
            first_of(
                crate::runtime::lane_build::buffers_fault::<T>(inputs, memory, policy),
                session.names_fault(),
            ),
        ) {
            Some(error) => prepared == Err::<
                (DeviceOutputTensorIoLane<T>, CallPlan<BuildCall>),
                Error,
            >(error),
            None => {
                &&& prepared matches Ok((lane, plan))
                &&& lane.spec_session() == session.spec_handle()
                &&& crate::runtime::lane_build::zeroed_buffers(
                    lane.input_tensors(),
                    inputs,
                    memory,
                    policy,
                )
                &&& lane.spec_output_memory() == output_memory
                &&& lane.output_tensors() == Seq::<OwnedValue>::empty()
                &&& plan.fresh(
                    lane_calls(Place::Host, inputs.len(), Place::Memory, session.outputs().len()),
                )
            },
        }
    }
}

impl<T: TensorElement> AllocatedTensorIoLane<T> {
    /// `prepared` is the outcome of preparing a lane.
    pub open spec fn prepare_outcome(
        prepared: Result<(AllocatedTensorIoLane<T>, CallPlan<BuildCall>), Error>,
        session: Session,
        input_memory: MemoryInfo,
        output_memory: MemoryInfo,
        inputs: Seq<Seq<i64>>,
        outputs: Seq<Seq<i64>>,
    ) -> bool {
        match first_of(
            session.input_count_fault(inputs.len()),
            first_of(
                session.output_count_fault(outputs.len(), Count::OutputShape),
                first_of(
                    crate::runtime::lane_build::allocated_fault(inputs, inputs.len() as int),
                    first_of(
                        crate::runtime::lane_build::allocated_fault(outputs, outputs.len() as int),
                        session.names_fault(),
                    ),
                ),
            ),
        ) {
            Some(error) => prepared == Err::<
                (AllocatedTensorIoLane<T>, CallPlan<BuildCall>),
                Error,
            >(error),
            None => {
                &&& prepared matches Ok((lane, plan))
                &&& lane.spec_session() == session.spec_handle()
                &&& crate::runtime::lane_build::allocated_tensors(
                    lane.input_tensors(),
                    inputs,
                    input_memory,
                )
                &&& crate::runtime::lane_build::allocated_tensors(
                    lane.output_tensors(),
                    outputs,
                    output_memory,
                )
                &&& plan.fresh(
                    lane_calls(Place::Allocated, inputs.len(), Place::Allocated, outputs.len()),
                )
            },
        }
    }
}

impl Session {
    /// Prepare a lane with host buffers.
    pub fn prepare_tensor_io_lane<T: TensorElement>(
        &self,
        mem: &MemoryInfo,
        input_shapes: &[&[i64]],
        output_shapes: &[&[i64]],
    ) -> (prepared: Result<(TensorIoLane<T>, CallPlan<BuildCall>), Error>)
        ensures
            TensorIoLane::<T>::prepare_outcome(
                prepared,
                *self,
                *mem,
                crate::shape::slice_shapes(input_shapes@),
                crate::shape::slice_shapes(output_shapes@),
                BufferSpec::Auto,
            ),
    {
        self.prepare_tensor_io_lane_with_buffer_policy(
            mem,
            input_shapes,
            output_shapes,
            BufferSpec::Auto,
        )
    }

    /// Prepare a lane with host buffers.
    pub fn prepare_tensor_io_lane_with_buffer_policy<T: TensorElement>(
        &self,
        mem: &MemoryInfo,
        input_shapes: &[&[i64]],
        output_shapes: &[&[i64]],
        policy: BufferSpec,
    ) -> (prepared: Result<(TensorIoLane<T>, CallPlan<BuildCall>), Error>)
        ensures
            TensorIoLane::<T>::prepare_outcome(
                prepared,
                *self,
                *mem,
                crate::shape::slice_shapes(input_shapes@),
                crate::shape::slice_shapes(output_shapes@),
                policy,
            ),
    {
        if let Err(error) = self.check_input_count(input_shapes.len()) {
            return Err(error);
        }
        if let Err(error) = self.check_output_count(output_shapes.len(), Count::OutputShape) {
            return Err(error);
        }
        let inputs: Vec<TensorBuffer<T>> = match build_buffers(input_shapes, mem, policy) {
            Ok(made) => made,
            Err(error) => return Err(error),
        };
        let outputs: Vec<TensorBuffer<T>> = match build_buffers(output_shapes, mem, policy) {
            Ok(made) => made,
            Err(error) => return Err(error),
        };
        if let Err(error) = self.check_names() {
            return Err(error);
        }
        let plan = plan_lane(Place::Host, input_shapes.len(), Place::Host, output_shapes.len());
        Ok((TensorIoLane { session: self.handle(), inputs, outputs }, plan))
    }

    /// Prepare a lane with a fixed number of host buffers.
    pub fn prepare_static_tensor_io_lane<
        T: TensorElement,
        const INPUTS: usize,
        const OUTPUTS: usize,
    >(
        &self,
        mem: &MemoryInfo,
        input_shapes: [&[i64]; INPUTS],
        output_shapes: [&[i64]; OUTPUTS],
    ) -> (prepared: Result<
        (StaticTensorIoLane<T, INPUTS, OUTPUTS>, CallPlan<BuildCall>),
        Error,
    >)
        ensures
            StaticTensorIoLane::<T, INPUTS, OUTPUTS>::prepare_outcome(
                prepared,
                *self,
                *mem,
                crate::shape::slice_shapes(input_shapes@),
                crate::shape::slice_shapes(output_shapes@),
                BufferSpec::Auto,
            ),
    {
        self.prepare_static_tensor_io_lane_with_buffer_policy(
            mem,
            input_shapes,
            output_shapes,
            BufferSpec::Auto,
        )
    }

    /// Prepare a lane with a fixed number of host buffers.
    pub fn prepare_static_tensor_io_lane_with_buffer_policy<
        T: TensorElement,
        const INPUTS: usize,
        const OUTPUTS: usize,
    >(
        &self,
        mem: &MemoryInfo,
        input_shapes: [&[i64]; INPUTS],
        output_shapes: [&[i64]; OUTPUTS],
        policy: BufferSpec,
    ) -> (prepared: Result<
        (StaticTensorIoLane<T, INPUTS, OUTPUTS>, CallPlan<BuildCall>),
        Error,
    >)
        ensures
            StaticTensorIoLane::<T, INPUTS, OUTPUTS>::prepare_outcome(
                prepared,
                *self,
                *mem,
                crate::shape::slice_shapes(input_shapes@),
                crate::shape::slice_shapes(output_shapes@),
                policy,
            ),
    {
        match self.prepare_tensor_io_lane_with_buffer_policy::<T>(
            mem,
            input_shapes.as_slice(),
            output_shapes.as_slice(),
            policy,
        ) {
            Ok((lane, plan)) => {
                let TensorIoLane { session, inputs, outputs } = lane;
                Ok((StaticTensorIoLane { session, inputs, outputs }, plan))
            },
            Err(error) => Err(error),
        }
    }

    /// Prepare a lane with host buffers for inputs of the default policy, and
    /// allocated tensors for outputs.
    pub fn prepare_allocated_output_tensor_io_lane<T: TensorElement>(
        &self,
        input_mem: &MemoryInfo,
        output_mem: &MemoryInfo,
        input_shapes: &[&[i64]],
        output_shapes: &[&[i64]],
    ) -> (prepared: Result<(AllocatedOutputTensorIoLane<T>, CallPlan<BuildCall>), Error>)
        ensures
            AllocatedOutputTensorIoLane::<T>::prepare_outcome(
                prepared,
                *self,
                *input_mem,
                *output_mem,
                crate::shape::slice_shapes(input_shapes@),
                crate::shape::slice_shapes(output_shapes@),
                BufferSpec::Auto,
            ),
    {
        self.prepare_allocated_output_tensor_io_lane_with_buffer_policy(
            input_mem,
            output_mem,
            input_shapes,
            output_shapes,
            BufferSpec::Auto,
        )
    }

    /// Prepare a lane with host buffers for inputs and allocated tensors for outputs.
    pub fn prepare_allocated_output_tensor_io_lane_with_buffer_policy<T: TensorElement>(
        &self,
        input_mem: &MemoryInfo,
        output_mem: &MemoryInfo,
        input_shapes: &[&[i64]],
        output_shapes: &[&[i64]],
        input_policy: BufferSpec,
    ) -> (prepared: Result<(AllocatedOutputTensorIoLane<T>, CallPlan<BuildCall>), Error>)
        ensures
            AllocatedOutputTensorIoLane::<T>::prepare_outcome(
                prepared,
                *self,
                *input_mem,
                *output_mem,
                crate::shape::slice_shapes(input_shapes@),
                crate::shape::slice_shapes(output_shapes@),
                input_policy,
            ),
    {
        if let Err(error) = self.check_input_count(input_shapes.len()) {
            return Err(error);
        }
        if let Err(error) = self.check_output_count(output_shapes.len(), Count::OutputShape) {
            return Err(error);
        }
        let inputs: Vec<TensorBuffer<T>> = match build_buffers(input_shapes, input_mem, input_policy) {
            Ok(made) => made,
            Err(error) => return Err(error),
        };
        let outputs: Vec<AllocatedTensor<T>> = match build_allocated(self, output_mem, output_shapes) {
            Ok(made) => made,
            Err(error) => return Err(error),
        };
        if let Err(error) = self.check_names() {
            return Err(error);
        }
        let plan = plan_lane(Place::Host, input_shapes.len(), Place::Allocated, output_shapes.len());
        Ok((AllocatedOutputTensorIoLane { session: self.handle(), inputs, outputs }, plan))
    }

    /// Prepare a lane with host buffers of the default policy for inputs, and with
    /// outputs that the engine allocates in `output_mem`.
    pub fn prepare_device_output_tensor_io_lane<T: TensorElement>(
        &self,
        input_mem: &MemoryInfo,
        output_mem: &MemoryInfo,
        input_shapes: &[&[i64]],
    ) -> (prepared: Result<(DeviceOutputTensorIoLane<T>, CallPlan<BuildCall>), Error>)
        ensures
            DeviceOutputTensorIoLane::<T>::prepare_outcome(
                prepared,
                *self,
                *input_mem,
                *output_mem,
                crate::shape::slice_shapes(input_shapes@),
                BufferSpec::Auto,
            ),
    {
        self.prepare_device_output_tensor_io_lane_with_buffer_policy(
            input_mem,
            output_mem,
            input_shapes,
            BufferSpec::Auto,
        )
    }

    /// Prepare a lane with host buffers for inputs, and with outputs that the engine allocates in
    /// `output_mem`.
    pub fn prepare_device_output_tensor_io_lane_with_buffer_policy<T: TensorElement>(
        &self,
        input_mem: &MemoryInfo,
        output_mem: &MemoryInfo,
        input_shapes: &[&[i64]],
        input_policy: BufferSpec,
    ) -> (prepared: Result<(DeviceOutputTensorIoLane<T>, CallPlan<BuildCall>), Error>)
        ensures
            DeviceOutputTensorIoLane::<T>::prepare_outcome(
                prepared,
                *self,
                *input_mem,
                *output_mem,
                crate::shape::slice_shapes(input_shapes@),
                input_policy,
            ),
    {
        if let Err(error) = self.check_input_count(input_shapes.len()) {
            return Err(error);
        }
        let inputs: Vec<TensorBuffer<T>> = match build_buffers(input_shapes, input_mem, input_policy) {
            Ok(made) => made,
            Err(error) => return Err(error),
        };
        if let Err(error) = self.check_names() {
            return Err(error);
        }
        let plan = plan_lane(Place::Host, input_shapes.len(), Place::Memory, self.output_count());
        Ok(
            (
                DeviceOutputTensorIoLane {
                    session: self.handle(),
                    inputs,
                    output_memory: output_mem.try_clone_descriptor(),
                    outputs: Vec::new(),
                },
                plan,
            ),
        )
    }

    /// Prepare a lane with allocated tensors for inputs and outputs.
    pub fn prepare_allocated_tensor_io_lane<T: TensorElement>(
        &self,
        input_mem: &MemoryInfo,
        output_mem: &MemoryInfo,
        input_shapes: &[&[i64]],
        output_shapes: &[&[i64]],
    ) -> (prepared: Result<(AllocatedTensorIoLane<T>, CallPlan<BuildCall>), Error>)
        ensures
            AllocatedTensorIoLane::<T>::prepare_outcome(
                prepared,
                *self,
                *input_mem,
                *output_mem,
                crate::shape::slice_shapes(input_shapes@),
                crate::shape::slice_shapes(output_shapes@),
            ),
    {
        if let Err(error) = self.check_input_count(input_shapes.len()) {
            return Err(error);
        }
        if let Err(error) = self.check_output_count(output_shapes.len(), Count::OutputShape) {
            return Err(error);
        }
        let inputs: Vec<AllocatedTensor<T>> = match build_allocated(self, input_mem, input_shapes) {
            Ok(made) => made,
            Err(error) => return Err(error),
        };
        let outputs: Vec<AllocatedTensor<T>> = match build_allocated(self, output_mem, output_shapes) {
            Ok(made) => made,
            Err(error) => return Err(error),
        };
        if let Err(error) = self.check_names() {
            return Err(error);
        }
        let plan = plan_lane(
            Place::Allocated,
            input_shapes.len(),
            Place::Allocated,
            output_shapes.len(),
        );
        Ok((AllocatedTensorIoLane { session: self.handle(), inputs, outputs }, plan))
    }

    /// Prepare some lanes with host buffers.
    pub fn prepare_tensor_io_lanes<T: TensorElement>(
        &self,
        mem: &MemoryInfo,
        input_shapes: &[&[i64]],
        output_shapes: &[&[i64]],
        lanes: usize,
    ) -> (prepared: Result<Vec<(TensorIoLane<T>, CallPlan<BuildCall>)>, Error>)
        ensures
            lanes_outcome::<T>(
                prepared,
                *self,
                *mem,
                crate::shape::slice_shapes(input_shapes@),
                crate::shape::slice_shapes(output_shapes@),
                lanes,
                BufferSpec::Auto,
            ),
    {
        self.prepare_tensor_io_lanes_with_buffer_policy(
            mem,
            input_shapes,
            output_shapes,
            lanes,
            BufferSpec::Auto,
        )
    }

    /// Prepare some lanes with host buffers.
    pub fn prepare_tensor_io_lanes_with_buffer_policy<T: TensorElement>(
        &self,
        mem: &MemoryInfo,
        input_shapes: &[&[i64]],
        output_shapes: &[&[i64]],
        lanes: usize,
        policy: BufferSpec,
    ) -> (prepared: Result<Vec<(TensorIoLane<T>, CallPlan<BuildCall>)>, Error>)
        ensures
            lanes_outcome::<T>(
                prepared,
                *self,
                *mem,
                crate::shape::slice_shapes(input_shapes@),
                crate::shape::slice_shapes(output_shapes@),
                lanes,
                policy,
            ),
    {
        let ghost inputs = crate::shape::slice_shapes(input_shapes@);
        let ghost outputs = crate::shape::slice_shapes(output_shapes@);
        let mut made: Vec<(TensorIoLane<T>, CallPlan<BuildCall>)> = Vec::new();
        let mut i: usize = 0;
        while i < lanes
            invariant
                i <= lanes,
                inputs == crate::shape::slice_shapes(input_shapes@),
                outputs == crate::shape::slice_shapes(output_shapes@),
                made@.len() == i,
                i > 0 ==> TensorIoLane::<T>::prepare_fault(*self, *mem, inputs, outputs, policy) is None,
                forall|k: int|
                    0 <= k < i ==> TensorIoLane::<T>::prepare_outcome(
                        Ok(#[trigger] made@[k]),
                        *self,
                        *mem,
                        inputs,
                        outputs,
                        policy,
                    ),
            decreases lanes - i,
        {
            match self.prepare_tensor_io_lane_with_buffer_policy::<T>(
                mem,
                input_shapes,
                output_shapes,
                policy,
            ) {
                Ok(lane) => made.push(lane),
                Err(error) => return Err(error),
            }
            i = i + 1;
        }
        Ok(made)
    }
}

/// `prepared` is the outcome of preparing some lanes, which are all alike.
pub open spec fn lanes_outcome<T: TensorElement>(
    prepared: Result<Vec<(TensorIoLane<T>, CallPlan<BuildCall>)>, Error>,
    session: Session,
    memory: MemoryInfo,
    inputs: Seq<Seq<i64>>,
    outputs: Seq<Seq<i64>>,
    lanes: usize,
    policy: BufferSpec,
) -> bool {
    match TensorIoLane::<T>::prepare_fault(session, memory, inputs, outputs, policy) {
        Some(error) if lanes > 0 => prepared == Err::<
            Vec<(TensorIoLane<T>, CallPlan<BuildCall>)>,
            Error,
        >(error),
        _ => {
            &&& prepared matches Ok(made)
            &&& made@.len() == lanes
            &&& forall|k: int|
                0 <= k < lanes ==> TensorIoLane::<T>::prepare_outcome(
                    Ok(#[trigger] made@[k]),
                    session,
                    memory,
                    inputs,
                    outputs,
                    policy,
                )
        },
    }
}

} // verus!
