//! What one lane asks of the engine, call by call, and what each answer makes of the lane.
//!
//! An operation starts with a first call or with none. Every answer leads to the next call until
//! the operation is over. A lane that may still have provider work pending is in flight, and only
//! a successful fence makes it reusable.
use vstd::prelude::*;

use crate::error::Fault;

verus! {

/// Options of one engine run.
#[derive(Debug, Clone, Copy, PartialEq, Eq, Structural)]
pub struct RunOptions {
    /// The captured-graph annotation of the run.
    pub graph_id: Option<i32>,
    /// Whether the run returns without synchronizing the execution providers.
    pub disable_ep_sync: bool,
    /// The sync stream that the run is launched on.
    pub sync_stream: Option<u64>,
}

impl RunOptions {
    /// The options of a run that keeps its end-of-run synchronization.
    pub open spec fn synchronized(graph_id: Option<i32>, sync_stream: Option<u64>) -> RunOptions {
        RunOptions { graph_id, disable_ep_sync: false, sync_stream }
    }

    /// The options of a run that returns once its work is queued.
    pub open spec fn enqueued(graph_id: Option<i32>, sync_stream: Option<u64>) -> RunOptions {
        RunOptions { graph_id, disable_ep_sync: true, sync_stream }
    }
}

/// How a lane runs.
#[derive(Debug, Clone, Copy, PartialEq, Eq, Structural)]
pub enum RunMode {
    /// Run and wait for the outputs.
    Synchronized,
    /// Queue the run and leave the lane in flight.
    Enqueued,
    /// Run with every phase synchronized on its own.
    Profiled,
    /// Queue a graph replay and wait for its completion event.
    EventProfiled,
    /// Run without any synchronization.
    Unsynchronized,
}

/// One call into the engine on behalf of a lane.
#[derive(Debug, Clone, Copy, PartialEq, Eq, Structural)]
pub enum LaneCall {
    /// Remove the bound inputs.
    ClearInputs,
    /// Bind one host input.
    BindInput(usize),
    /// Make a device the calling thread's current one.
    ActivateDevice(i32),
    /// Queue the copy of one staging buffer to its device buffer on the lane's stream.
    CopyInput(usize),
    /// Take a run guard of the captured-graph lease.
    BeginGraphRun(i32),
    /// Wait until the bound inputs are ready.
    SynchronizeInputs,
    /// Run the binding.
    Run(RunOptions),
    /// Record the completion event behind the run on the lane's stream.
    RecordCompletion,
    /// Wait for the bound outputs.
    SynchronizeOutputs,
    /// Wait for the completion event.
    SynchronizeCompletion,
    /// Wait for all work of a device.
    SynchronizeDevice(i32),
    /// Give a run guard back.
    EndGraphRun(i32),
}

/// Where an operation stands: the call whose answer it waits for.
#[derive(Debug, Clone, Copy, PartialEq, Eq, Structural)]
#[allow(inconsistent_fields)]
pub enum Phase {
    /// No operation is under way.
    Rest,
    /// A preparation call.
    Preparing { mode: RunMode, next: usize },
    /// Taking a run guard.
    Beginning { mode: RunMode },
    /// Waiting for the bound inputs.
    SynchronizingInputs { mode: RunMode, guard: Option<i32> },
    /// Running the binding.
    Launching { mode: RunMode, guard: Option<i32> },
    /// Recording the completion event.
    Recording { mode: RunMode, guard: Option<i32> },
    /// Waiting for the bound outputs of the run.
    SynchronizingRun { mode: RunMode, guard: Option<i32> },
    /// Fencing what a failed run may have left, by the bound outputs.
    Fencing { guard: Option<i32> },
    /// Fencing by the device: making it current.
    FencingActivate { guard: Option<i32>, device: i32 },
    /// Fencing by the device: waiting for it.
    FencingDevice { guard: Option<i32>, device: i32 },
    /// Waiting for a pending run.
    Waiting,
    /// Waiting by the device: making it current.
    WaitingActivate { device: i32 },
    /// Waiting by the device.
    WaitingDevice { device: i32 },
    /// Giving a run guard back.
    Ending { guard: i32 },
}

/// What decides the calls of a lane.
#[derive(Debug, Clone, Copy, PartialEq, Eq, Structural)]
pub struct LaneState {
    /// The number of inputs.
    pub input_count: usize,
    /// Whether device-resident inputs are bound and the host inputs are staging.
    pub device_inputs: bool,
    /// The device of the lane's stream.
    pub cuda_device: Option<i32>,
    /// Whether host inputs are bound anew before each run.
    pub rebind_inputs_each_run: bool,
    /// Options of a synchronized run, where they are not the session's own.
    pub run_options: Option<RunOptions>,
    /// Options of an enqueued run.
    pub enqueued_run_options: RunOptions,
    /// The captured-graph annotation of the lane.
    pub graph_id: Option<i32>,
    /// Whether a run has completed with the current annotation.
    pub graph_captured: bool,
    /// The captured-graph lease whose guards the lane takes.
    pub graph_lease: Option<i32>,
    /// The run guard held until the pending run is fenced.
    pub in_flight_graph_guard: Option<i32>,
    /// Whether the completion event stands behind the pending run.
    pub completion_event_recorded: bool,
    /// Whether provider work may still be pending.
    pub in_flight: bool,
    /// Where the current operation stands.
    pub phase: Phase,
}

/// A lane after an answer, and the next call if the operation goes on.
pub type Step = (LaneState, Option<LaneCall>);

impl LaneState {
    /// The lane replays a captured graph over device inputs, fenced by its completion event.
    pub open spec fn event_path(self) -> bool {
        self.device_inputs && self.graph_id is Some
    }

    /// A run in this mode settles its guard by the lane's own options.
    pub open spec fn settles(self, mode: RunMode) -> bool {
        mode != RunMode::Unsynchronized && (mode == RunMode::Synchronized ==> self.event_path()
            || self.run_options is Some)
    }

    /// What always holds of a lane.
    pub open spec fn inv(self) -> bool {
        &&& self.device_inputs ==> self.cuda_device is Some
        &&& self.in_flight_graph_guard is Some ==> self.in_flight
        &&& self.completion_event_recorded ==> self.in_flight
        &&& match self.phase {
            Phase::Rest => true,
            Phase::Preparing { mode, next } => !self.in_flight && next <= self.input_count && (
            self.device_inputs || self.rebind_inputs_each_run),
            Phase::Beginning { mode } => !self.in_flight && self.graph_lease is Some
                && self.settles(mode),
            Phase::SynchronizingInputs { mode, guard } => !self.in_flight && (mode
                == RunMode::Profiled || mode == RunMode::Synchronized) && (mode
                == RunMode::Profiled ==> guard is None) && (guard is Some ==> self.settles(mode)),
            Phase::Launching { mode, guard } => !self.in_flight && (guard is Some ==> self.settles(
                mode,
            )),
            Phase::Recording { mode, guard } => !self.in_flight && self.event_path() && (
            guard is Some ==> self.settles(mode)),
            Phase::SynchronizingRun { mode, guard } => if mode == RunMode::Profiled {
                self.in_flight && guard is None
            } else {
                !self.in_flight && (guard is Some ==> self.settles(mode))
            },
            Phase::Fencing { guard } => guard is Some ==> !self.in_flight,
            Phase::FencingActivate { guard, .. } => guard is Some ==> !self.in_flight,
            Phase::FencingDevice { guard, .. } => guard is Some ==> !self.in_flight,
            Phase::Waiting => self.in_flight,
            Phase::WaitingActivate { .. } => self.in_flight,
            Phase::WaitingDevice { .. } => self.in_flight,
            Phase::Ending { .. } => !self.in_flight,
        }
    }

    /// The run guard that the lane has begun and not yet given back.
    pub open spec fn owed_guard(self) -> Option<i32> {
        match self.phase {
            Phase::SynchronizingInputs { guard, .. } => guard,
            Phase::Launching { guard, .. } => guard,
            Phase::Recording { guard, .. } => guard,
            Phase::SynchronizingRun { guard, .. } => if guard is Some {
                guard
            } else {
                self.in_flight_graph_guard
            },
            Phase::Fencing { guard } => if guard is Some {
                guard
            } else {
                self.in_flight_graph_guard
            },
            Phase::FencingActivate { guard, .. } => if guard is Some {
                guard
            } else {
                self.in_flight_graph_guard
            },
            Phase::FencingDevice { guard, .. } => if guard is Some {
                guard
            } else {
                self.in_flight_graph_guard
            },
            Phase::Ending { guard } => Some(guard),
            _ => self.in_flight_graph_guard,
        }
    }

    /// The operation is over.
    pub open spec fn spec_finish(self) -> Step {
        (LaneState { phase: Phase::Rest, ..self }, None)
    }

    /// The operation waits for an answer.
    pub open spec fn spec_wait_for(self, phase: Phase, call: LaneCall) -> Step {
        (LaneState { phase, ..self }, Some(call))
    }

    /// Call number `k` of the preparation: rebinding of host inputs, or refresh of device inputs.
    pub open spec fn spec_prepare_call(self, k: usize) -> Option<LaneCall> {
        if self.device_inputs {
            if k == 0 {
                Some(LaneCall::ActivateDevice(self.cuda_device->Some_0))
            } else if k <= self.input_count {
                Some(LaneCall::CopyInput((k - 1) as usize))
            } else {
                None
            }
        } else if self.rebind_inputs_each_run {
            if k == 0 {
                Some(LaneCall::ClearInputs)
            } else if k <= self.input_count {
                Some(LaneCall::BindInput((k - 1) as usize))
            } else {
                None
            }
        } else {
            None
        }
    }

    /// The options of a run that is not enqueued.
    pub open spec fn spec_launch_options(self) -> RunOptions {
        match self.run_options {
            Some(options) => options,
            None => RunOptions::synchronized(None, None),
        }
    }

    /// The lane runs by queueing work with the enqueued options.
    pub open spec fn enqueues(self, mode: RunMode) -> bool {
        mode == RunMode::Enqueued || mode == RunMode::EventProfiled || (mode
            == RunMode::Synchronized && self.event_path())
    }

    /// What follows the preparation.
    pub open spec fn spec_after_prepare(self, mode: RunMode) -> Step {
        if mode == RunMode::Unsynchronized {
            self.spec_wait_for(
                Phase::Launching { mode, guard: None },
                LaneCall::Run(self.spec_launch_options()),
            )
        } else if mode == RunMode::Profiled || (mode == RunMode::Synchronized && !self.event_path()
            && self.run_options is None) {
            self.spec_wait_for(
                Phase::SynchronizingInputs { mode, guard: None },
                LaneCall::SynchronizeInputs,
            )
        } else {
            self.spec_begin(mode)
        }
    }

    /// Take a run guard, where the lane has a lease.
    pub open spec fn spec_begin(self, mode: RunMode) -> Step {
        match self.graph_lease {
            Some(id) => self.spec_wait_for(Phase::Beginning { mode }, LaneCall::BeginGraphRun(id)),
            None => self.spec_after_begin(mode, None),
        }
    }

    /// What follows the run guard.
    pub open spec fn spec_after_begin(self, mode: RunMode, guard: Option<i32>) -> Step {
        if self.enqueues(mode) {
            self.spec_wait_for(
                Phase::Launching { mode, guard },
                LaneCall::Run(self.enqueued_run_options),
            )
        } else if mode == RunMode::Synchronized {
            self.spec_wait_for(
                Phase::SynchronizingInputs { mode, guard },
                LaneCall::SynchronizeInputs,
            )
        } else {
            self.spec_wait_for(
                Phase::Launching { mode, guard },
                LaneCall::Run(self.spec_launch_options()),
            )
        }
    }

    /// The lane after a successful run: the first one with an annotation captures its graph.
    pub open spec fn spec_captured(self) -> LaneState {
        LaneState { graph_captured: self.graph_captured || self.graph_id is Some, ..self }
    }

    /// The lane with a pending run that keeps the guard.
    pub open spec fn spec_retained(self, guard: Option<i32>) -> LaneState {
        LaneState { in_flight_graph_guard: guard, in_flight: true, ..self }
    }

    /// What follows work that was queued.
    pub open spec fn spec_queued(self, mode: RunMode, guard: Option<i32>) -> Step {
        let pending = self.spec_captured().spec_retained(guard);
        if mode == RunMode::Enqueued {
            pending.spec_finish()
        } else {
            pending.spec_start_wait()
        }
    }

    /// Wait for the pending run.
    pub open spec fn spec_start_wait(self) -> Step {
        if self.completion_event_recorded {
            self.spec_wait_for(Phase::Waiting, LaneCall::SynchronizeCompletion)
        } else {
            self.spec_wait_for(Phase::Waiting, LaneCall::SynchronizeOutputs)
        }
    }

    /// The lane with nothing pending; a guard that it owed is given back.
    pub open spec fn spec_cleared(self, guard: Option<i32>) -> Step {
        let idle = LaneState {
            in_flight: false,
            in_flight_graph_guard: None,
            completion_event_recorded: false,
            ..self
        };
        match guard {
            Some(id) => idle.spec_wait_for(Phase::Ending { guard: id }, LaneCall::EndGraphRun(id)),
            None => idle.spec_finish(),
        }
    }

    /// What a failed run leads to: a fence, unless the run was outside the lane's own options.
    pub open spec fn spec_failed(self, mode: RunMode, guard: Option<i32>) -> Step {
        if mode == RunMode::Unsynchronized || (mode == RunMode::Synchronized && !self.event_path()
            && self.run_options is None) {
            self.spec_finish()
        } else {
            self.spec_wait_for(Phase::Fencing { guard }, LaneCall::SynchronizeOutputs)
        }
    }

    /// The lane without a fence: a guard of its own is kept and the lane stays in flight.
    pub open spec fn spec_unfenced(self, guard: Option<i32>) -> Step {
        if guard is Some {
            self.spec_retained(guard).spec_finish()
        } else {
            self.spec_finish()
        }
    }

    /// What an answer makes of the lane.
    pub open spec fn spec_advance(self, ok: bool) -> Step {
        match self.phase {
            Phase::Rest => self.spec_finish(),
            Phase::Preparing { mode, next } => if !ok {
                self.spec_finish()
            } else {
                match self.spec_prepare_call((next + 1) as usize) {
                    Some(call) if next < self.input_count => self.spec_wait_for(
                        Phase::Preparing { mode, next: (next + 1) as usize },
                        call,
                    ),
                    _ => self.spec_after_prepare(mode),
                }
            },
            Phase::Beginning { mode } => if !ok {
                self.spec_finish()
            } else {
                self.spec_after_begin(mode, self.graph_lease)
            },
            Phase::SynchronizingInputs { mode, guard } => if mode == RunMode::Profiled {
                if ok {
                    self.spec_begin(mode)
                } else {
                    self.spec_finish()
                }
            } else if ok {
                self.spec_wait_for(
                    Phase::Launching { mode, guard },
                    LaneCall::Run(self.spec_launch_options()),
                )
            } else {
                self.spec_failed(mode, guard)
            },
            Phase::Launching { mode, guard } => if !ok {
                self.spec_failed(mode, guard)
            } else if mode == RunMode::Unsynchronized {
                self.spec_finish()
            } else if self.enqueues(mode) {
                if self.event_path() {
                    self.spec_wait_for(Phase::Recording { mode, guard }, LaneCall::RecordCompletion)
                } else {
                    self.spec_queued(mode, guard)
                }
            } else if mode == RunMode::Profiled {
                self.spec_captured().spec_retained(guard).spec_wait_for(
                    Phase::SynchronizingRun { mode, guard: None },
                    LaneCall::SynchronizeOutputs,
                )
            } else {
                self.spec_wait_for(
                    Phase::SynchronizingRun { mode, guard },
                    LaneCall::SynchronizeOutputs,
                )
            },
            Phase::Recording { mode, guard } => if ok {
                (LaneState { completion_event_recorded: true, ..self }).spec_queued(mode, guard)
            } else {
                self.spec_failed(mode, guard)
            },
            Phase::SynchronizingRun { mode, guard } => if mode == RunMode::Profiled {
                if ok {
                    self.spec_cleared(self.in_flight_graph_guard)
                } else {
                    self.spec_wait_for(
                        Phase::Fencing { guard: None },
                        LaneCall::SynchronizeOutputs,
                    )
                }
            } else if ok {
                (if self.run_options is Some {
                    self.spec_captured()
                } else {
                    self
                }).spec_cleared(guard)
            } else {
                self.spec_failed(mode, guard)
            },
            Phase::Fencing { guard } => if ok {
                self.spec_cleared(self.owed_guard())
            } else {
                match self.cuda_device {
                    Some(device) => self.spec_wait_for(
                        Phase::FencingActivate { guard, device },
                        LaneCall::ActivateDevice(device),
                    ),
                    None => self.spec_unfenced(guard),
                }
            },
            Phase::FencingActivate { guard, device } => if ok {
                self.spec_wait_for(
                    Phase::FencingDevice { guard, device },
                    LaneCall::SynchronizeDevice(device),
                )
            } else {
                self.spec_unfenced(guard)
            },
            Phase::FencingDevice { guard, device } => if ok {
                self.spec_cleared(self.owed_guard())
            } else {
                self.spec_unfenced(guard)
            },
            Phase::Waiting => if ok {
                self.spec_cleared(self.in_flight_graph_guard)
            } else {
                match self.cuda_device {
                    Some(device) => self.spec_wait_for(
                        Phase::WaitingActivate { device },
                        LaneCall::ActivateDevice(device),
                    ),
                    None => self.spec_finish(),
                }
            },
            Phase::WaitingActivate { device } => if ok {
                self.spec_wait_for(
                    Phase::WaitingDevice { device },
                    LaneCall::SynchronizeDevice(device),
                )
            } else {
                self.spec_finish()
            },
            Phase::WaitingDevice { device } => if ok {
                self.spec_cleared(self.in_flight_graph_guard)
            } else {
                self.spec_finish()
            },
            Phase::Ending { .. } => self.spec_finish(),
        }
    }

    /// Why a run cannot start, the first reason in a fixed order.
    pub open spec fn start_fault(self, mode: RunMode) -> Option<Fault> {
        if self.in_flight {
            Some(Fault::LaneInFlight)
        } else if mode == RunMode::EventProfiled && !self.event_path() {
            Some(Fault::EventProfileUnavailable)
        } else if mode == RunMode::Unsynchronized && self.device_inputs {
            Some(Fault::UnsynchronizedDeviceInputs)
        } else if mode == RunMode::Unsynchronized && self.graph_id is Some {
            Some(Fault::UnsynchronizedGraph)
        } else {
            None
        }
    }

    /// The first call of a run.
    pub open spec fn spec_start(self, mode: RunMode) -> Step {
        match self.spec_prepare_call(0) {
            Some(call) => self.spec_wait_for(Phase::Preparing { mode, next: 0 }, call),
            None => self.spec_after_prepare(mode),
        }
    }
}

impl LaneState {
    fn finish(self) -> (step: Step)
        ensures
            step == self.spec_finish(),
    {
        let mut lane = self;
        lane.phase = Phase::Rest;
        (lane, None)
    }

    fn wait_for(self, phase: Phase, call: LaneCall) -> (step: Step)
        ensures
            step == self.spec_wait_for(phase, call),
    {
        let mut lane = self;
        lane.phase = phase;
        (lane, Some(call))
    }

    /// Whether the lane replays a captured graph over device inputs.
    pub fn is_event_path(&self) -> (is: bool)
        ensures
            is == self.event_path(),
    {
        self.device_inputs && self.graph_id.is_some()
    }

    fn prepare_call(&self, k: usize) -> (call: Option<LaneCall>)
        requires
            self.inv(),
        ensures
            call == self.spec_prepare_call(k),
    {
        if self.device_inputs {
            if k == 0 {
                match self.cuda_device {
                    Some(device) => Some(LaneCall::ActivateDevice(device)),
                    None => None,
                }
            } else if k <= self.input_count {
                Some(LaneCall::CopyInput(k - 1))
            } else {
                None
            }
        } else if self.rebind_inputs_each_run {
            if k == 0 {
                Some(LaneCall::ClearInputs)
            } else if k <= self.input_count {
                Some(LaneCall::BindInput(k - 1))
            } else {
                None
            }
        } else {
            None
        }
    }

    fn launch_options(&self) -> (options: RunOptions)
        ensures
            options == self.spec_launch_options(),
    {
        match self.run_options {
            Some(options) => options,
            None => RunOptions { graph_id: None, disable_ep_sync: false, sync_stream: None },
        }
    }

    fn does_enqueue(&self, mode: RunMode) -> (does: bool)
        ensures
            does == self.enqueues(mode),
    {
        match mode {
            RunMode::Enqueued | RunMode::EventProfiled => true,
            RunMode::Synchronized => self.is_event_path(),
            _ => false,
        }
    }

    fn after_prepare(self, mode: RunMode) -> (step: Step)
        ensures
            step == self.spec_after_prepare(mode),
    {
        if mode == RunMode::Unsynchronized {
            self.wait_for(
                Phase::Launching { mode, guard: None },
                LaneCall::Run(self.launch_options()),
            )
        } else if mode == RunMode::Profiled || (mode == RunMode::Synchronized
            && !self.is_event_path() && self.run_options.is_none()) {
            self.wait_for(
                Phase::SynchronizingInputs { mode, guard: None },
                LaneCall::SynchronizeInputs,
            )
        } else {
            self.begin(mode)
        }
    }

    fn begin(self, mode: RunMode) -> (step: Step)
        ensures
            step == self.spec_begin(mode),
    {
        match self.graph_lease {
            Some(id) => self.wait_for(Phase::Beginning { mode }, LaneCall::BeginGraphRun(id)),
            None => self.after_begin(mode, None),
        }
    }

    fn after_begin(self, mode: RunMode, guard: Option<i32>) -> (step: Step)
        ensures
            step == self.spec_after_begin(mode, guard),
    {
        if self.does_enqueue(mode) {
            self.wait_for(
                Phase::Launching { mode, guard },
                LaneCall::Run(self.enqueued_run_options),
            )
        } else if mode == RunMode::Synchronized {
            self.wait_for(
                Phase::SynchronizingInputs { mode, guard },
                LaneCall::SynchronizeInputs,
            )
        } else {
            self.wait_for(
                Phase::Launching { mode, guard },
                LaneCall::Run(self.launch_options()),
            )
        }
    }

    fn captured(self) -> (lane: LaneState)
        ensures
            lane == self.spec_captured(),
    {
        let mut lane = self;
        lane.graph_captured = self.graph_captured || self.graph_id.is_some();
        lane
    }

    fn retained(self, guard: Option<i32>) -> (lane: LaneState)
        ensures
            lane == self.spec_retained(guard),
    {
        let mut lane = self;
        lane.in_flight_graph_guard = guard;
        lane.in_flight = true;
        lane
    }

    fn queued(self, mode: RunMode, guard: Option<i32>) -> (step: Step)
        ensures
            step == self.spec_queued(mode, guard),
    {
        let pending: LaneState = self.captured().retained(guard);
        if mode == RunMode::Enqueued {
            pending.finish()
        } else {
            pending.start_wait()
        }
    }

    /// Wait for the pending run: by its completion event where one was recorded.
    pub fn start_wait(self) -> (step: Step)
        ensures
            step == self.spec_start_wait(),
    {
        if self.completion_event_recorded {
            self.wait_for(Phase::Waiting, LaneCall::SynchronizeCompletion)
        } else {
            self.wait_for(Phase::Waiting, LaneCall::SynchronizeOutputs)
        }
    }

    /// Discharge the pending run and give back the guard.
    pub fn clear_in_flight(self, guard: Option<i32>) -> (step: Step)
        ensures
            step == self.spec_cleared(guard),
    {
        let mut idle = self;
        idle.in_flight = false;
        idle.in_flight_graph_guard = None;
        idle.completion_event_recorded = false;
        match guard {
            Some(id) => idle.wait_for(Phase::Ending { guard: id }, LaneCall::EndGraphRun(id)),
            None => idle.finish(),
        }
    }

    fn failed(self, mode: RunMode, guard: Option<i32>) -> (step: Step)
        ensures
            step == self.spec_failed(mode, guard),
    {
        if mode == RunMode::Unsynchronized || (mode == RunMode::Synchronized
            && !self.is_event_path() && self.run_options.is_none()) {
            self.finish()
        } else {
            self.wait_for(Phase::Fencing { guard }, LaneCall::SynchronizeOutputs)
        }
    }

    fn unfenced(self, guard: Option<i32>) -> (step: Step)
        ensures
            step == self.spec_unfenced(guard),
    {
        if guard.is_some() {
            self.retained(guard).finish()
        } else {
            self.finish()
        }
    }

    fn either_guard(self, guard: Option<i32>) -> (owed: Option<i32>)
        ensures
            owed == (if guard is Some {
                guard
            } else {
                self.in_flight_graph_guard
            }),
    {
        if guard.is_some() {
            guard
        } else {
            self.in_flight_graph_guard
        }
    }

    /// What an answer makes of the lane.
    pub fn advance(self, ok: bool) -> (step: Step)
        requires
            self.inv(),
        ensures
            step == self.spec_advance(ok),
            step.0.inv(),
            step.1 is None <==> step.0.phase is Rest,
    {
        match self.phase {
            Phase::Rest => self.finish(),
            Phase::Preparing { mode, next } => {
                if !ok {
                    self.finish()
                } else if next < self.input_count {
                    match self.prepare_call(next + 1) {
                        Some(call) => self.wait_for(
                            Phase::Preparing { mode, next: next + 1 },
                            call,
                        ),
                        None => self.after_prepare(mode),
                    }
                } else {
                    self.after_prepare(mode)
                }
            },
            Phase::Beginning { mode } => {
                if !ok {
                    self.finish()
                } else {
                    self.after_begin(mode, self.graph_lease)
                }
            },
            Phase::SynchronizingInputs { mode, guard } => {
                if mode == RunMode::Profiled {
                    if ok {
                        self.begin(mode)
                    } else {
                        self.finish()
                    }
                } else if ok {
                    self.wait_for(
                        Phase::Launching { mode, guard },
                        LaneCall::Run(self.launch_options()),
                    )
                } else {
                    self.failed(mode, guard)
                }
            },
            Phase::Launching { mode, guard } => {
                if !ok {
                    self.failed(mode, guard)
                } else if mode == RunMode::Unsynchronized {
                    self.finish()
                } else if self.does_enqueue(mode) {
                    if self.is_event_path() {
                        self.wait_for(Phase::Recording { mode, guard }, LaneCall::RecordCompletion)
                    } else {
                        self.queued(mode, guard)
                    }
                } else if mode == RunMode::Profiled {
                    self.captured().retained(guard).wait_for(
                        Phase::SynchronizingRun { mode, guard: None },
                        LaneCall::SynchronizeOutputs,
                    )
                } else {
                    self.wait_for(
                        Phase::SynchronizingRun { mode, guard },
                        LaneCall::SynchronizeOutputs,
                    )
                }
            },
            Phase::Recording { mode, guard } => {
                if ok {
                    let mut lane = self;
                    lane.completion_event_recorded = true;
                    lane.queued(mode, guard)
                } else {
                    self.failed(mode, guard)
                }
            },
            Phase::SynchronizingRun { mode, guard } => {
                if mode == RunMode::Profiled {
                    if ok {
                        self.clear_in_flight(self.in_flight_graph_guard)
                    } else {
                        self.wait_for(
                            Phase::Fencing { guard: None },
                            LaneCall::SynchronizeOutputs,
                        )
                    }
                } else if ok {
                    if self.run_options.is_some() {
                        self.captured().clear_in_flight(guard)
                    } else {
                        self.clear_in_flight(guard)
                    }
                } else {
                    self.failed(mode, guard)
                }
            },
            Phase::Fencing { guard } => {
                if ok {
                    self.clear_in_flight(self.either_guard(guard))
                } else {
                    match self.cuda_device {
                        Some(device) => self.wait_for(
                            Phase::FencingActivate { guard, device },
                            LaneCall::ActivateDevice(device),
                        ),
                        None => self.unfenced(guard),
                    }
                }
            },
            Phase::FencingActivate { guard, device } => {
                if ok {
                    self.wait_for(
                        Phase::FencingDevice { guard, device },
                        LaneCall::SynchronizeDevice(device),
                    )
                } else {
                    self.unfenced(guard)
                }
            },
            Phase::FencingDevice { guard, .. } => {
                if ok {
                    self.clear_in_flight(self.either_guard(guard))
                } else {
                    self.unfenced(guard)
                }
            },
            Phase::Waiting => {
                if ok {
                    self.clear_in_flight(self.in_flight_graph_guard)
                } else {
                    match self.cuda_device {
                        Some(device) => self.wait_for(
                            Phase::WaitingActivate { device },
                            LaneCall::ActivateDevice(device),
                        ),
                        None => self.finish(),
                    }
                }
            },
            Phase::WaitingActivate { device } => {
                if ok {
                    self.wait_for(
                        Phase::WaitingDevice { device },
                        LaneCall::SynchronizeDevice(device),
                    )
                } else {
                    self.finish()
                }
            },
            Phase::WaitingDevice { .. } => {
                if ok {
                    self.clear_in_flight(self.in_flight_graph_guard)
                } else {
                    self.finish()
                }
            },
            Phase::Ending { .. } => self.finish(),
        }
    }

    /// Start a run.
    pub fn start(self, mode: RunMode) -> (result: Result<Step, Fault>)
        requires
            self.inv(),
            self.phase is Rest,
        ensures
            match self.start_fault(mode) {
                Some(fault) => result == Err::<Step, Fault>(fault),
                None => {
                    &&& result == Ok::<Step, Fault>(self.spec_start(mode))
                    &&& self.spec_start(mode).0.inv()
                    &&& self.spec_start(mode).1 is Some
                    &&& !(self.spec_start(mode).0.phase is Rest)
                },
            },
    {
        if self.in_flight {
            return Err(Fault::LaneInFlight);
        }
        if mode == RunMode::EventProfiled && !self.is_event_path() {
            return Err(Fault::EventProfileUnavailable);
        }
        if mode == RunMode::Unsynchronized && self.device_inputs {
            return Err(Fault::UnsynchronizedDeviceInputs);
        }
        if mode == RunMode::Unsynchronized && self.graph_id.is_some() {
            return Err(Fault::UnsynchronizedGraph);
        }
        match self.prepare_call(0) {
            Some(call) => Ok(self.wait_for(Phase::Preparing { mode, next: 0 }, call)),
            None => Ok(self.after_prepare(mode)),
        }
    }
}

/// A lane that is in flight becomes reusable only through the successful answer to a fence: the
/// bound outputs, the completion event or the whole device.
pub proof fn reuse_needs_a_fence(lane: LaneState, ok: bool)
    requires
        lane.inv(),
        lane.in_flight,
        !lane.spec_advance(ok).0.in_flight,
    ensures
        ok,
        lane.phase is SynchronizingRun || lane.phase is Fencing || lane.phase is FencingDevice
            || lane.phase is Waiting || lane.phase is WaitingDevice,
{
}

/// A run guard that a lane has begun is given back exactly once: what the lane owes changes only
/// with the answer to taking a guard, where it becomes the lease's, and with the answer to giving
/// it back, where nothing is owed any more.
pub proof fn run_guards_are_conserved(lane: LaneState, ok: bool)
    requires
        lane.inv(),
    ensures
        ({
            let after = lane.spec_advance(ok).0;
            if lane.phase is Beginning && ok {
                lane.owed_guard() is None && after.owed_guard() == lane.graph_lease
            } else if lane.phase is Ending {
                lane.owed_guard() is Some && after.owed_guard() is None
            } else {
                after.owed_guard() == lane.owed_guard()
            }
        }),
        lane.spec_advance(ok).1 matches Some(LaneCall::EndGraphRun(id)) ==> lane.owed_guard()
            == Some(id),
{
}

/// A lane at rest that is not in flight owes no run guard.
pub proof fn idle_lane_owes_nothing(lane: LaneState)
    requires
        lane.inv(),
        lane.phase is Rest,
        !lane.in_flight,
    ensures
        lane.owed_guard() is None,
        !lane.completion_event_recorded,
{
}

/// A captured graph stays captured while the lane runs, and a replay over device inputs whose
/// completion event was recorded has captured its graph.
pub proof fn graphs_stay_captured(lane: LaneState, ok: bool)
    requires
        lane.inv(),
    ensures
        lane.graph_captured ==> lane.spec_advance(ok).0.graph_captured,
        lane.phase is Recording && ok ==> lane.spec_advance(ok).0.graph_captured,
{
}

/// How many answers an operation can still take.
pub open spec fn remaining_steps(lane: LaneState) -> nat {
    match lane.phase {
        Phase::Rest => 0,
        Phase::Preparing { next, .. } => (12 + lane.input_count - next) as nat,
        Phase::SynchronizingInputs { mode, .. } => if mode == RunMode::Profiled {
            11
        } else {
            9
        },
        Phase::Beginning { .. } => 10,
        Phase::Launching { .. } => 8,
        Phase::Recording { .. } => 7,
        Phase::SynchronizingRun { .. } => 6,
        Phase::Fencing { .. } => 5,
        Phase::FencingActivate { .. } => 4,
        Phase::FencingDevice { .. } => 3,
        Phase::Waiting => 4,
        Phase::WaitingActivate { .. } => 3,
        Phase::WaitingDevice { .. } => 2,
        Phase::Ending { .. } => 1,
    }
}

/// Every operation is over after finitely many answers, whatever they are.
pub proof fn operations_end(lane: LaneState, ok: bool)
    requires
        lane.inv(),
        !(lane.phase is Rest),
    ensures
        remaining_steps(lane.spec_advance(ok).0) < remaining_steps(lane),
{
}

/// What a lane is set up with does not change while it runs.
pub proof fn runs_keep_the_setup(lane: LaneState, ok: bool)
    requires
        lane.inv(),
    ensures
        ({
            let after = lane.spec_advance(ok).0;
            &&& after.input_count == lane.input_count
            &&& after.device_inputs == lane.device_inputs
            &&& after.cuda_device == lane.cuda_device
            &&& after.rebind_inputs_each_run == lane.rebind_inputs_each_run
            &&& after.run_options == lane.run_options
            &&& after.enqueued_run_options == lane.enqueued_run_options
            &&& after.graph_id == lane.graph_id
            &&& after.graph_lease == lane.graph_lease
            &&& lane.graph_captured ==> after.graph_captured
        }),
{
}

/// Provider work is launched only behind the whole preparation: the call before the first run of
/// the binding is the last preparation call, a synchronization of the inputs or the taking of a
/// guard, answered with success.
pub proof fn launches_follow_successful_answers(lane: LaneState, ok: bool)
    requires
        lane.inv(),
        lane.spec_advance(ok).1 matches Some(LaneCall::Run(_)),
    ensures
        ok,
        match lane.phase {
            Phase::Preparing { next, .. } => next == lane.input_count,
            Phase::Beginning { .. } => true,
            Phase::SynchronizingInputs { .. } => true,
            _ => false,
        },
{
}

/// An operation whose last answer is a success leaves the lane in flight only if it was to: a
/// queued run does, and every other run ends reusable.
pub proof fn success_leaves_only_queued_runs_in_flight(lane: LaneState)
    requires
        lane.inv(),
        !(lane.phase is Rest),
        lane.spec_advance(true).1 is None,
    ensures
        lane.spec_advance(true).0.in_flight <==> match lane.phase {
            Phase::Launching { mode, .. } => mode == RunMode::Enqueued,
            Phase::Recording { mode, .. } => mode == RunMode::Enqueued,
            _ => false,
        },
{
}

} // verus!
