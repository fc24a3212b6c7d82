//! Runs whose inputs and outputs are bound once, under their names.
use vstd::prelude::*;

use crate::calls::{CallPlan, Repeats};
use crate::error::{Count, Error, Fault, Side};
use crate::runtime::host_lane::check_text_names;
use crate::runtime::lane_build::{BuildCall, BuildKind};
use crate::session::session::Session;

verus! {

/// One engine call of a run with bound inputs and outputs.
#[derive(Debug, Clone, Copy, PartialEq, Eq, Structural)]
pub enum BindingCall {
    /// Wait until the bound inputs have arrived.
    SynchronizeInputs,
    /// Run.
    Run,
    /// Wait until the bound outputs have arrived.
    SynchronizeOutputs,
}

/// The calls of a run with bound inputs and outputs.
pub open spec fn binding_calls(synchronized: bool) -> Seq<BindingCall> {
    if synchronized {
        seq![BindingCall::SynchronizeInputs, BindingCall::Run, BindingCall::SynchronizeOutputs]
    } else {
        seq![BindingCall::Run]
    }
}

/// The calls of a run with bound inputs and outputs.
pub fn plan_binding_run(synchronized: bool) -> (plan: CallPlan<BindingCall>)
    ensures
        plan.fresh(binding_calls(synchronized)),
{
    let mut calls: Vec<BindingCall> = Vec::new();
    if synchronized {
        calls.push(BindingCall::SynchronizeInputs);
    }
    calls.push(BindingCall::Run);
    if synchronized {
        calls.push(BindingCall::SynchronizeOutputs);
    }
    assert(calls@ =~= binding_calls(synchronized));
    CallPlan::new(calls)
}

impl Session {
    /// Why a binding cannot be run on this session: it was made for another one, or the run options
    /// come from another environment.
    pub open spec fn binding_fault(
        self,
        binding_session: u64,
        stream_environment: Option<u64>,
    ) -> Option<Error> {
        if binding_session != self.spec_handle() {
            Some(Error::Fault(Fault::BindingSessionMismatch))
        } else if stream_environment matches Some(environment) && environment
            != self.spec_environment() {
            Some(Error::Fault(Fault::RunOptionsEnvironmentMismatch))
        } else {
            None
        }
    }

    /// `plan` is the outcome of planning a run with a binding.
    pub open spec fn plans_binding(
        self,
        plan: Result<CallPlan<BindingCall>, Error>,
        binding_session: u64,
        stream_environment: Option<u64>,
        synchronized: bool,
    ) -> bool {
        match self.binding_fault(binding_session, stream_environment) {
            Some(error) => plan == Err::<CallPlan<BindingCall>, Error>(error),
            None => plan matches Ok(plan) && plan.fresh(binding_calls(synchronized)),
        }
    }

    /// The calls of a run with a binding: the inputs are waited for first, and the outputs last.
    pub fn run_binding(&self, binding_session: u64) -> (plan: Result<CallPlan<BindingCall>, Error>)
        ensures
            self.plans_binding(plan, binding_session, None, true),
    {
        match self.check_binding_session(binding_session) {
            Ok(()) => Ok(plan_binding_run(true)),
            Err(error) => Err(error),
        }
    }

    /// The calls of a run with a binding, without waiting for inputs or outputs.
    pub fn run_binding_unsynchronized(&self, binding_session: u64) -> (plan: Result<
        CallPlan<BindingCall>,
        Error,
    >)
        ensures
            self.plans_binding(plan, binding_session, None, false),
    {
        match self.check_binding_session(binding_session) {
            Ok(()) => Ok(plan_binding_run(false)),
            Err(error) => Err(error),
        }
    }

    /// The calls of a run with a binding and with run options, which may be tied to a stream of some
    /// environment.
    pub fn run_binding_with(&self, binding_session: u64, stream_environment: Option<u64>) -> (plan:
        Result<CallPlan<BindingCall>, Error>)
        ensures
            self.plans_binding(plan, binding_session, stream_environment, true),
    {
        match self.check_binding_session(binding_session) {
            Ok(()) => match self.check_run_options(stream_environment) {
                Ok(()) => Ok(plan_binding_run(true)),
                Err(error) => Err(error),
            },
            Err(error) => Err(error),
        }
    }

    /// The calls of a run with a binding and with run options, without waiting for inputs or
    /// outputs.
    pub fn run_binding_unsynchronized_with(
        &self,
        binding_session: u64,
        stream_environment: Option<u64>,
    ) -> (plan: Result<CallPlan<BindingCall>, Error>)
        ensures
            self.plans_binding(plan, binding_session, stream_environment, false),
    {
        match self.check_binding_session(binding_session) {
            Ok(()) => match self.check_run_options(stream_environment) {
                Ok(()) => Ok(plan_binding_run(false)),
                Err(error) => Err(error),
            },
            Err(error) => Err(error),
        }
    }

    /// Why values of the caller cannot be bound: they are too few or too many, or a name is no text.
    pub open spec fn bind_values_fault(self, inputs: nat, outputs: nat) -> Option<Error> {
        if inputs != self.inputs().len() {
            Some(
                Error::CountMismatch {
                    what: Count::Input,
                    expected: self.inputs().len() as usize,
                    got: inputs as usize,
                },
            )
        } else if outputs != self.outputs().len() {
            Some(
                Error::CountMismatch {
                    what: Count::Output,
                    expected: self.outputs().len() as usize,
                    got: outputs as usize,
                },
            )
        } else {
            self.names_fault()
        }
    }

    /// The first name of the session that is no text.
    pub open spec fn names_fault(self) -> Option<Error> {
        match crate::runtime::host_lane::text_names_fault(
            self.inputs(),
            Side::Input,
            self.inputs().len() as int,
        ) {
            Some(error) => Some(error),
            None => crate::runtime::host_lane::text_names_fault(
                self.outputs(),
                Side::Output,
                self.outputs().len() as int,
            ),
        }
    }

    /// Check that every name of the session is text.
    pub fn check_names(&self) -> (result: Result<(), Error>)
        ensures
            match self.names_fault() {
                Some(error) => result == Err::<(), Error>(error),
                None => result is Ok,
            },
    {
        match check_text_names(self, Side::Input) {
            Ok(()) => check_text_names(self, Side::Output),
            Err(error) => Err(error),
        }
    }

    /// Prepare a binding of as many values of the caller as the session has inputs and outputs.
    pub fn prepare_io_binding(&self, inputs: usize, outputs: usize) -> (prepared: Result<
        (PreparedIoBinding, CallPlan<BuildCall>),
        Error,
    >)
        ensures
            match self.bind_values_fault(inputs as nat, outputs as nat) {
                Some(error) => prepared == Err::<
                    (PreparedIoBinding, CallPlan<BuildCall>),
                    Error,
                >(error),
                None => {
                    &&& prepared matches Ok((binding, plan))
                    &&& binding.spec_session() == self.spec_handle()
                    &&& plan.fresh(bind_calls(inputs as nat, outputs as nat))
                },
            },
    {
        if let Err(error) = self.check_input_count(inputs) {
            return Err(error);
        }
        if let Err(error) = self.check_output_count(outputs, Count::Output) {
            return Err(error);
        }
        if let Err(error) = self.check_names() {
            return Err(error);
        }
        let mut calls: Vec<BuildCall> = Vec::new();
        calls.push(BuildCall::CreateBinding);
        BuildKind::BindValue.push_calls(&mut calls, Side::Input, inputs);
        BuildKind::BindValue.push_calls(&mut calls, Side::Output, outputs);
        assert(calls@ =~= bind_calls(inputs as nat, outputs as nat));
        Ok((PreparedIoBinding { session: self.handle() }, CallPlan::new(calls)))
    }

    /// Prepare a binding of values of the caller, with buffers for the outputs.
    pub fn prepare_io_binding_buffers(&self, inputs: usize, outputs: usize) -> (prepared: Result<
        (PreparedIoBinding, CallPlan<BuildCall>),
        Error,
    >)
        ensures
            match self.bind_values_fault(inputs as nat, outputs as nat) {
                Some(error) => prepared == Err::<
                    (PreparedIoBinding, CallPlan<BuildCall>),
                    Error,
                >(error),
                None => {
                    &&& prepared matches Ok((binding, plan))
                    &&& binding.spec_session() == self.spec_handle()
                    &&& plan.fresh(bind_calls(inputs as nat, outputs as nat))
                },
            },
    {
        self.prepare_io_binding(inputs, outputs)
    }

    /// Prepare a binding of a fixed number of values of the caller, with buffers for the outputs.
    pub fn prepare_io_binding_buffer_array<const INPUTS: usize, const OUTPUTS: usize>(
        &self,
    ) -> (prepared: Result<(PreparedIoBinding, CallPlan<BuildCall>), Error>)
        ensures
            match self.bind_values_fault(INPUTS as nat, OUTPUTS as nat) {
                Some(error) => prepared == Err::<
                    (PreparedIoBinding, CallPlan<BuildCall>),
                    Error,
                >(error),
                None => {
                    &&& prepared matches Ok((binding, plan))
                    &&& binding.spec_session() == self.spec_handle()
                    &&& plan.fresh(bind_calls(INPUTS as nat, OUTPUTS as nat))
                },
            },
    {
        self.prepare_io_binding(INPUTS, OUTPUTS)
    }
}

/// The calls that bind values of the caller.
pub open spec fn bind_calls(inputs: nat, outputs: nat) -> Seq<BuildCall> {
    seq![BuildCall::CreateBinding] + BuildKind::BindValue.calls(Side::Input, inputs)
        + BuildKind::BindValue.calls(Side::Output, outputs)
}

/// A binding of values of the caller, for repeated runs.
#[derive(Debug)]
pub struct PreparedIoBinding {
    session: u64,
}

impl PreparedIoBinding {
    /// The session that it was made for.
    pub closed spec fn spec_session(self) -> u64 {
        self.session
    }

    /// The session that it was made for.
    pub fn binding(&self) -> (session: u64)
        ensures
            session == self.spec_session(),
    {
        self.session
    }

    /// The calls of a run.
    pub fn run(&mut self) -> (plan: CallPlan<BindingCall>)
        ensures
            plan.fresh(binding_calls(true)),
            *final(self) == *old(self),
    {
        plan_binding_run(true)
    }

    /// Runs before serving.
    pub fn prime(&mut self, runs: usize) -> (repeats: Repeats)
        ensures
            repeats.spec_left() == runs,
            *final(self) == *old(self),
    {
        Repeats::new(runs)
    }
}

} // verus!
