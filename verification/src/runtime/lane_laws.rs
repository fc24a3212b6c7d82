//! What the calls of a whole lane operation amount to.
use vstd::prelude::*;

use crate::runtime::lane_state::{LaneCall, LaneState, Phase, RunMode, RunOptions, Step};

verus! {

/// The calls of an operation from a step on, while up to `n` answers are all good.
pub open spec fn granted_calls(step: Step, n: nat) -> Seq<LaneCall>
    decreases n,
{
    match step.1 {
        None => Seq::empty(),
        Some(call) => if n == 0 {
            seq![call]
        } else {
            seq![call] + granted_calls(step.0.spec_advance(true), (n - 1) as nat)
        },
    }
}

/// Where an operation stands from a step on, after up to `n` good answers.
pub open spec fn granted_end(step: Step, n: nat) -> Step
    decreases n,
{
    if step.1 is None || n == 0 {
        step
    } else {
        granted_end(step.0.spec_advance(true), (n - 1) as nat)
    }
}

/// More answers than any run takes.
pub open spec fn enough(lane: LaneState) -> nat {
    (lane.input_count + 12) as nat
}

/// The calls of a run on an idle lane whose answers are all good.
pub open spec fn run_calls(lane: LaneState, mode: RunMode) -> Seq<LaneCall> {
    granted_calls(lane.spec_start(mode), enough(lane))
}

/// What a run on an idle lane leaves whose answers are all good.
pub open spec fn run_end(lane: LaneState, mode: RunMode) -> Step {
    granted_end(lane.spec_start(mode), enough(lane))
}

/// A call that returns once the work of a run is done.
pub open spec fn is_fence(call: LaneCall) -> bool {
    call is SynchronizeOutputs || call is SynchronizeCompletion
}

/// A call that makes the inputs ready to be read by a run.
pub open spec fn is_preparation(call: LaneCall) -> bool {
    call is ClearInputs || call is BindInput || call is ActivateDevice || call is CopyInput
}

/// How many preparation calls a run makes.
pub open spec fn preparation_len(lane: LaneState) -> int {
    if lane.device_inputs || lane.rebind_inputs_each_run {
        lane.input_count + 1
    } else {
        0
    }
}

proof fn lemma_granted_preparation(lane: LaneState, mode: RunMode, next: usize, n: nat)
    requires
        lane.inv(),
        lane.phase == (Phase::Preparing { mode, next }),
        lane.spec_prepare_call(next) is Some,
        n > lane.input_count - next,
    ensures
        ({
            let step = (lane, lane.spec_prepare_call(next));
            let left = (lane.input_count - next + 1) as nat;
            &&& granted_calls(step, n) == Seq::new(
                left,
                |i: int| lane.spec_prepare_call((next + i) as usize)->Some_0,
            ) + granted_calls(lane.spec_after_prepare(mode), (n - left) as nat)
            &&& granted_end(step, n) == granted_end(
                lane.spec_after_prepare(mode),
                (n - left) as nat,
            )
        }),
    decreases lane.input_count - next,
{
    let step = (lane, lane.spec_prepare_call(next));
    let left = (lane.input_count - next + 1) as nat;
    let calls = Seq::new(left, |i: int| lane.spec_prepare_call((next + i) as usize)->Some_0);
    if next < lane.input_count {
        let after = lane.spec_advance(true);
        assert(after.1 == lane.spec_prepare_call((next + 1) as usize));
        assert(after.1 is Some);
        lemma_granted_preparation(after.0, mode, (next + 1) as usize, (n - 1) as nat);
        let rest = Seq::new(
            (left - 1) as nat,
            |i: int| after.0.spec_prepare_call((next + 1 + i) as usize)->Some_0,
        );
        assert forall|i: int| 0 <= i < left - 1 implies #[trigger] rest[i] == calls[i + 1] by {}
        assert(calls =~= seq![calls[0]] + rest);
        assert(after.0.spec_after_prepare(mode) == lane.spec_after_prepare(mode));
        assert(granted_calls(step, n) =~= calls + granted_calls(
            lane.spec_after_prepare(mode),
            (n - left) as nat,
        ));
    } else {
        assert(lane.spec_advance(true) == lane.spec_after_prepare(mode));
        assert(calls =~= seq![step.1->Some_0]);
    }
}

/// The calls of a run behind its preparation.
spec fn launch_calls(lane: LaneState, mode: RunMode) -> Seq<LaneCall> {
    granted_calls(lane.spec_after_prepare(mode), 11)
}

proof fn lemma_over(step: Step, n: nat, m: nat)
    requires
        granted_end(step, n).1 is None,
        n <= m,
    ensures
        granted_end(step, m) == granted_end(step, n),
        granted_calls(step, m) == granted_calls(step, n),
    decreases n,
{
    if step.1 is Some && n > 0 {
        lemma_over(step.0.spec_advance(true), (n - 1) as nat, (m - 1) as nat);
    }
}

proof fn lemma_launch_ends(lane: LaneState, mode: RunMode)
    requires
        lane.inv(),
        !lane.in_flight,
        lane.start_fault(mode) is None,
    ensures
        granted_end(lane.spec_after_prepare(mode), 11).1 is None,
{
    reveal_with_fuel(granted_end, 9);
}

/// A run is its preparation and then its launch.
proof fn lemma_run_parts(lane: LaneState, mode: RunMode)
    requires
        lane.inv(),
        lane.phase is Rest,
        lane.start_fault(mode) is None,
    ensures
        run_calls(lane, mode) == Seq::new(
            preparation_len(lane) as nat,
            |i: int| lane.spec_prepare_call(i as usize)->Some_0,
        ) + launch_calls(lane, mode),
        run_end(lane, mode) == granted_end(lane.spec_after_prepare(mode), 11),
        run_end(lane, mode).1 is None,
{
    let first = lane.spec_start(mode);
    let prepared = Seq::new(
        preparation_len(lane) as nat,
        |i: int| lane.spec_prepare_call(i as usize)->Some_0,
    );
    lemma_launch_ends(lane, mode);
    if preparation_len(lane) == 0 {
        lemma_over(lane.spec_after_prepare(mode), 11, enough(lane));
        assert(run_calls(lane, mode) =~= prepared + launch_calls(lane, mode));
    } else {
        assert(lane.spec_prepare_call(0) is Some);
        lemma_granted_preparation(first.0, mode, 0, enough(lane));
        assert(first.0.spec_after_prepare(mode) == lane.spec_after_prepare(mode));
        assert(Seq::new(
            (lane.input_count + 1) as nat,
            |i: int| first.0.spec_prepare_call((0 + i) as usize)->Some_0,
        ) =~= prepared);
    }
}

/// A run takes a run guard of the lane's lease.
spec fn takes_guard(lane: LaneState, mode: RunMode) -> bool {
    &&& lane.graph_lease is Some
    &&& !(mode is Unsynchronized)
    &&& mode is Synchronized ==> lane.event_path() || lane.run_options is Some
}

spec fn guard_call(lane: LaneState, mode: RunMode, begins: bool) -> Seq<LaneCall> {
    if !takes_guard(lane, mode) {
        Seq::empty()
    } else if begins {
        seq![LaneCall::BeginGraphRun(lane.graph_lease->Some_0)]
    } else {
        seq![LaneCall::EndGraphRun(lane.graph_lease->Some_0)]
    }
}

/// What comes between the preparation and the launch.
spec fn lead(lane: LaneState, mode: RunMode) -> Seq<LaneCall> {
    match mode {
        RunMode::Profiled => seq![LaneCall::SynchronizeInputs] + guard_call(lane, mode, true),
        RunMode::Synchronized if !lane.event_path() => guard_call(lane, mode, true)
            + seq![LaneCall::SynchronizeInputs],
        _ => guard_call(lane, mode, true),
    }
}

/// What comes behind the launch.
spec fn tail(lane: LaneState, mode: RunMode) -> Seq<LaneCall> {
    match mode {
        RunMode::Unsynchronized => Seq::empty(),
        RunMode::Enqueued => if lane.event_path() {
            seq![LaneCall::RecordCompletion]
        } else {
            Seq::empty()
        },
        RunMode::EventProfiled => seq![LaneCall::RecordCompletion, LaneCall::SynchronizeCompletion]
            + guard_call(lane, mode, false),
        RunMode::Synchronized if lane.event_path() => seq![
            LaneCall::RecordCompletion,
            LaneCall::SynchronizeCompletion,
        ] + guard_call(lane, mode, false),
        _ => seq![LaneCall::SynchronizeOutputs] + guard_call(lane, mode, false),
    }
}

spec fn launch_options(lane: LaneState, mode: RunMode) -> RunOptions {
    if lane.enqueues(mode) {
        lane.enqueued_run_options
    } else {
        lane.spec_launch_options()
    }
}

#[verifier::spinoff_prover]
#[verifier::rlimit(60)]
proof fn lemma_launch_parts(lane: LaneState, mode: RunMode)
    requires
        lane.inv(),
        !lane.in_flight,
        lane.start_fault(mode) is None,
    ensures
        launch_calls(lane, mode) == lead(lane, mode) + seq![
            LaneCall::Run(launch_options(lane, mode)),
        ] + tail(lane, mode),
{
    reveal_with_fuel(granted_calls, 9);
    let whole = lead(lane, mode) + seq![LaneCall::Run(launch_options(lane, mode))] + tail(
        lane,
        mode,
    );
    match mode {
        RunMode::Unsynchronized => {
            assert(launch_calls(lane, mode) =~= whole);
        },
        RunMode::Profiled => {
            assert(launch_calls(lane, mode) =~= whole);
        },
        RunMode::Enqueued => {
            assert(launch_calls(lane, mode) =~= whole);
        },
        RunMode::EventProfiled => {
            assert(launch_calls(lane, mode) =~= whole);
        },
        RunMode::Synchronized => {
            if lane.event_path() {
                assert(launch_calls(lane, mode) =~= whole);
            } else if lane.run_options is None {
                assert(launch_calls(lane, mode) =~= whole);
            } else {
                assert(launch_calls(lane, mode) =~= whole);
            }
        },
    }
}

#[verifier::spinoff_prover]
#[verifier::rlimit(60)]
proof fn lemma_launch_end(lane: LaneState, mode: RunMode)
    requires
        lane.inv(),
        !lane.in_flight,
        lane.start_fault(mode) is None,
    ensures
        ({
            let end = granted_end(lane.spec_after_prepare(mode), 11);
            &&& end.1 is None
            &&& end.0.phase is Rest
            &&& end.0.in_flight == (mode is Enqueued)
            &&& end.0.completion_event_recorded == (mode is Enqueued && lane.event_path())
            &&& end.0.in_flight_graph_guard == if mode is Enqueued {
                lane.graph_lease
            } else {
                None
            }
            &&& end.0.graph_captured == (lane.graph_captured || (lane.graph_id is Some && !(
            mode is Unsynchronized) && (mode is Synchronized ==> lane.event_path()
                || lane.run_options is Some)))
        }),
{
    reveal_with_fuel(granted_end, 9);
}

/// Before a run launches, every device buffer is refreshed from its own staging buffer, once and on
/// the lane's device; a lane that binds host inputs anew binds every input, once and behind the
/// removal of the old ones; any other lane touches no input. No run prepares anything later.
pub proof fn runs_make_every_input_ready(lane: LaneState, mode: RunMode)
    requires
        lane.inv(),
        lane.phase is Rest,
        lane.start_fault(mode) is None,
    ensures
        ({
            let calls = run_calls(lane, mode);
            &&& calls.len() >= preparation_len(lane)
            &&& lane.device_inputs ==> {
                &&& lane.cuda_device matches Some(device) && calls[0] == LaneCall::ActivateDevice(
                    device,
                )
                &&& forall|i: int|
                    0 <= i < lane.input_count ==> #[trigger] calls[i + 1] == LaneCall::CopyInput(
                        i as usize,
                    )
            }
            &&& !lane.device_inputs && lane.rebind_inputs_each_run ==> {
                &&& calls[0] == LaneCall::ClearInputs
                &&& forall|i: int|
                    0 <= i < lane.input_count ==> #[trigger] calls[i + 1] == LaneCall::BindInput(
                        i as usize,
                    )
            }
            &&& forall|k: int|
                0 <= k < calls.len() && is_preparation(#[trigger] calls[k]) ==> k
                    < preparation_len(lane)
        }),
{
    lemma_run_parts(lane, mode);
    let calls = run_calls(lane, mode);
    let launch = launch_calls(lane, mode);
    lemma_launch_parts(lane, mode);
    assert forall|k: int| 0 <= k < launch.len() implies !is_preparation(#[trigger] launch[k]) by {
        let before = lead(lane, mode);
        if k < before.len() {
            assert(launch[k] == before[k]);
        } else if k > before.len() {
            assert(launch[k] == tail(lane, mode)[k - before.len() - 1]);
        }
    }
    assert forall|k: int|
        0 <= k < calls.len() && is_preparation(#[trigger] calls[k]) implies k < preparation_len(
        lane,
    ) by {
        if k >= preparation_len(lane) {
            assert(calls[k] == launch[k - preparation_len(lane)]);
        }
    }
}

/// The preparation calls of a run are distinct: no input is made ready twice.
pub proof fn preparation_calls_are_distinct(lane: LaneState, mode: RunMode, i: int, j: int)
    requires
        lane.inv(),
        lane.phase is Rest,
        lane.start_fault(mode) is None,
        0 <= i < j < run_calls(lane, mode).len(),
        is_preparation(run_calls(lane, mode)[i]),
        is_preparation(run_calls(lane, mode)[j]),
    ensures
        run_calls(lane, mode)[i] != run_calls(lane, mode)[j],
{
    runs_make_every_input_ready(lane, mode);
    let calls = run_calls(lane, mode);
    if lane.device_inputs {
        assert(calls[(j - 1) + 1] == LaneCall::CopyInput((j - 1) as usize));
        if i > 0 {
            assert(calls[(i - 1) + 1] == LaneCall::CopyInput((i - 1) as usize));
        }
    } else {
        assert(calls[(j - 1) + 1] == LaneCall::BindInput((j - 1) as usize));
        if i > 0 {
            assert(calls[(i - 1) + 1] == LaneCall::BindInput((i - 1) as usize));
        }
    }
}

/// The binding is run at `at`, and nowhere else.
pub open spec fn launched_at(calls: Seq<LaneCall>, at: int, options: RunOptions) -> bool {
    &&& 0 <= at < calls.len()
    &&& calls[at] == LaneCall::Run(options)
    &&& forall|k: int| 0 <= k < calls.len() && k != at ==> !(#[trigger] calls[k] is Run)
}

/// The place of the launch, and what stands before and behind it.
proof fn lemma_run_layout(lane: LaneState, mode: RunMode)
    requires
        lane.inv(),
        lane.phase is Rest,
        lane.start_fault(mode) is None,
    ensures
        ({
            let calls = run_calls(lane, mode);
            let start = preparation_len(lane);
            let at = start + lead(lane, mode).len();
            &&& calls.len() == at + 1 + tail(lane, mode).len()
            &&& launched_at(calls, at, launch_options(lane, mode))
            &&& forall|k: int| 0 <= k < start ==> is_preparation(#[trigger] calls[k])
            &&& forall|k: int| start <= k < at ==> #[trigger] calls[k] == lead(lane, mode)[k - start]
            &&& forall|k: int|
                at < k < calls.len() ==> #[trigger] calls[k] == tail(lane, mode)[k - at - 1]
        }),
{
    lemma_run_parts(lane, mode);
    lemma_launch_parts(lane, mode);
    let calls = run_calls(lane, mode);
    let start = preparation_len(lane);
    let before = lead(lane, mode);
    let behind = tail(lane, mode);
    let at = start + before.len();
    assert forall|k: int| 0 <= k < start implies is_preparation(#[trigger] calls[k]) by {
        assert(calls[k] == lane.spec_prepare_call(k as usize)->Some_0);
    }
    assert forall|k: int| start <= k < at implies #[trigger] calls[k] == before[k - start] by {}
    assert forall|k: int| at < k < calls.len() implies #[trigger] calls[k] == behind[k - at - 1] by {}
    assert forall|k: int| 0 <= k < before.len() implies !(#[trigger] before[k] is Run) by {}
    assert forall|k: int| 0 <= k < behind.len() implies !(#[trigger] behind[k] is Run) by {}
    assert forall|k: int| 0 <= k < calls.len() && k != at implies !(#[trigger] calls[k] is Run) by {
        if k < start {
            assert(is_preparation(calls[k]));
        } else if k < at {
            assert(!(before[k - start] is Run));
        } else {
            assert(!(behind[k - at - 1] is Run));
        }
    }
}

/// A run launches the binding exactly once, behind its preparation. The options are the queueing ones
/// where the run is left in flight or replays a graph that its completion event fences, and otherwise
/// the lane's own or the plain ones.
pub proof fn runs_launch_once(lane: LaneState, mode: RunMode)
    requires
        lane.inv(),
        lane.phase is Rest,
        lane.start_fault(mode) is None,
    ensures
        ({
            let replays = lane.device_inputs && lane.graph_id is Some;
            let options = if mode is Enqueued || mode is EventProfiled || (mode is Synchronized
                && replays) {
                lane.enqueued_run_options
            } else if let Some(own) = lane.run_options {
                own
            } else {
                RunOptions { graph_id: None, disable_ep_sync: false, sync_stream: None }
            };
            exists|at: int, used: RunOptions|
                preparation_len(lane) <= at && used == options && #[trigger] launched_at(
                    run_calls(lane, mode),
                    at,
                    used,
                )
        }),
{
    lemma_run_layout(lane, mode);
    let at = preparation_len(lane) + lead(lane, mode).len();
    let options = if mode is Enqueued || mode is EventProfiled || (mode is Synchronized
        && lane.device_inputs && lane.graph_id is Some) {
        lane.enqueued_run_options
    } else if let Some(own) = lane.run_options {
        own
    } else {
        RunOptions { graph_id: None, disable_ep_sync: false, sync_stream: None }
    };
    assert(launch_options(lane, mode) == options);
    assert(launched_at(run_calls(lane, mode), at, options));
}

/// Every run that is to be waited for has had a good answer to a fence behind its launch before it
/// ends: to the bound outputs, or for a replay over device inputs to the completion event that was
/// recorded behind it. Only a run guard is given back behind the fence.
pub proof fn awaited_runs_end_behind_a_fence(
    lane: LaneState,
    mode: RunMode,
    at: int,
    options: RunOptions,
)
    requires
        lane.inv(),
        lane.phase is Rest,
        lane.start_fault(mode) is None,
        mode is Synchronized || mode is Profiled || mode is EventProfiled,
        launched_at(run_calls(lane, mode), at, options),
    ensures
        ({
            let calls = run_calls(lane, mode);
            let recorded = lane.device_inputs && lane.graph_id is Some && !(mode is Profiled);
            let fence = if recorded {
                at + 2
            } else {
                at + 1
            };
            &&& fence < calls.len()
            &&& if recorded {
                &&& calls[at + 1] == LaneCall::RecordCompletion
                &&& calls[at + 2] == LaneCall::SynchronizeCompletion
            } else {
                calls[at + 1] == LaneCall::SynchronizeOutputs
            }
            &&& forall|k: int| fence < k < calls.len() ==> #[trigger] calls[k] is EndGraphRun
            &&& !run_end(lane, mode).0.in_flight
        }),
{
    lemma_run_layout(lane, mode);
    lemma_run_parts(lane, mode);
    lemma_launch_end(lane, mode);
    let calls = run_calls(lane, mode);
    let behind = tail(lane, mode);
    assert(calls[at] is Run);
    assert(at == preparation_len(lane) + lead(lane, mode).len());
    assert(calls[at + 1] == behind[0]);
    if lane.event_path() && !(mode is Profiled) {
        assert(calls[at + 2] == behind[1]);
    }
    assert forall|k: int|
        at + (if lane.event_path() && !(mode is Profiled) {
            2int
        } else {
            1int
        }) < k < calls.len() implies #[trigger] calls[k] is EndGraphRun by {
        assert(calls[k] == behind[k - at - 1]);
    }
}

/// A queued run is left in flight behind its launch, and waits for nothing. A replay over device inputs
/// has its completion event recorded. An unsynchronized run ends with the launch.
pub proof fn queued_runs_wait_for_nothing(
    lane: LaneState,
    mode: RunMode,
    at: int,
    options: RunOptions,
)
    requires
        lane.inv(),
        lane.phase is Rest,
        lane.start_fault(mode) is None,
        mode is Enqueued || mode is Unsynchronized,
        launched_at(run_calls(lane, mode), at, options),
    ensures
        ({
            let calls = run_calls(lane, mode);
            let end = run_end(lane, mode);
            let replays = lane.device_inputs && lane.graph_id is Some;
            &&& if mode is Enqueued && replays {
                calls.len() == at + 2 && calls[at + 1] == LaneCall::RecordCompletion
            } else {
                calls.len() == at + 1
            }
            &&& end.0.in_flight == (mode is Enqueued)
            &&& end.0.completion_event_recorded == (mode is Enqueued && replays)
            &&& end.0.in_flight_graph_guard == if mode is Enqueued {
                lane.graph_lease
            } else {
                None
            }
        }),
{
    lemma_run_layout(lane, mode);
    lemma_run_parts(lane, mode);
    lemma_launch_end(lane, mode);
    let calls = run_calls(lane, mode);
    assert(calls[at] is Run);
    assert(at == preparation_len(lane) + lead(lane, mode).len());
    if mode is Enqueued && lane.event_path() {
        assert(calls[at + 1] == tail(lane, mode)[0]);
    }
}

/// A run whose launch is not ordered behind its inputs by the device waits for the bound inputs behind
/// the preparation and before the launch. No run waits for them elsewhere.
pub proof fn launches_wait_for_host_inputs(
    lane: LaneState,
    mode: RunMode,
    at: int,
    options: RunOptions,
)
    requires
        lane.inv(),
        lane.phase is Rest,
        lane.start_fault(mode) is None,
        launched_at(run_calls(lane, mode), at, options),
    ensures
        ({
            let calls = run_calls(lane, mode);
            let waits = mode is Profiled || (mode is Synchronized && !(lane.device_inputs
                && lane.graph_id is Some));
            &&& waits ==> exists|k: int|
                preparation_len(lane) <= k < at && #[trigger] calls[k] is SynchronizeInputs
            &&& forall|k: int|
                0 <= k < calls.len() && #[trigger] calls[k] is SynchronizeInputs ==> waits && k < at
        }),
{
    lemma_run_layout(lane, mode);
    let calls = run_calls(lane, mode);
    let start = preparation_len(lane);
    let before = lead(lane, mode);
    let behind = tail(lane, mode);
    assert(calls[at] is Run);
    assert(at == start + before.len());
    if mode is Profiled {
        assert(before[0] is SynchronizeInputs);
        assert(calls[start] is SynchronizeInputs);
    } else if mode is Synchronized && !lane.event_path() {
        assert(before[before.len() - 1] is SynchronizeInputs);
        assert(calls[at - 1] is SynchronizeInputs);
    }
    assert forall|k: int| 0 <= k < calls.len() && #[trigger] calls[k] is SynchronizeInputs implies (
    mode is Profiled || (mode is Synchronized && !lane.event_path())) && k < at by {
        if k < start {
            assert(is_preparation(calls[k]));
        } else if k < at {
            assert(calls[k] == before[k - start]);
        } else if k > at {
            assert(calls[k] == behind[k - at - 1]);
        }
    }
}

/// Where a lane has a lease, a run that uses the lane's own options or leaves work queued takes one run
/// guard of it before the launch, and gives the same guard back as its last call once its work is
/// fenced; a queued run keeps it. Other runs take none.
pub proof fn runs_hold_a_guard_while_they_work(
    lane: LaneState,
    mode: RunMode,
    at: int,
    options: RunOptions,
)
    requires
        lane.inv(),
        lane.phase is Rest,
        lane.start_fault(mode) is None,
        launched_at(run_calls(lane, mode), at, options),
    ensures
        ({
            let calls = run_calls(lane, mode);
            let replays = lane.device_inputs && lane.graph_id is Some;
            let guarded = lane.graph_lease is Some && !(mode is Unsynchronized) && (
            mode is Synchronized ==> replays || lane.run_options is Some);
            &&& guarded ==> exists|k: int|
                preparation_len(lane) <= k < at && #[trigger] calls[k] == LaneCall::BeginGraphRun(
                    lane.graph_lease->Some_0,
                )
            &&& guarded && !(mode is Enqueued) ==> calls.last() == LaneCall::EndGraphRun(
                lane.graph_lease->Some_0,
            )
            &&& forall|k: int|
                0 <= k < calls.len() && #[trigger] calls[k] is BeginGraphRun ==> guarded && k < at
            &&& forall|k: int|
                0 <= k < calls.len() && #[trigger] calls[k] is EndGraphRun ==> guarded && !(
                mode is Enqueued) && k == calls.len() - 1
            &&& run_end(lane, mode).0.graph_captured == (lane.graph_captured || (
            lane.graph_id is Some && !(mode is Unsynchronized) && (mode is Synchronized ==> replays
                || lane.run_options is Some)))
        }),
{
    lemma_run_layout(lane, mode);
    lemma_run_parts(lane, mode);
    lemma_launch_end(lane, mode);
    let calls = run_calls(lane, mode);
    let start = preparation_len(lane);
    let before = lead(lane, mode);
    let behind = tail(lane, mode);
    assert(calls[at] is Run);
    assert(at == start + before.len());
    if takes_guard(lane, mode) {
        let k: int = if mode is Profiled {
            1
        } else {
            0
        };
        assert(before[k] is BeginGraphRun);
        assert(calls[start + k] == before[k]);
        if !(mode is Enqueued) {
            assert(behind[behind.len() - 1] is EndGraphRun);
            assert(calls[calls.len() - 1] == behind[behind.len() - 1]);
        }
    }
    assert forall|k: int| 0 <= k < calls.len() implies match #[trigger] calls[k] {
        LaneCall::BeginGraphRun(_) => takes_guard(lane, mode) && k < at,
        LaneCall::EndGraphRun(_) => takes_guard(lane, mode) && !(mode is Enqueued) && k
            == calls.len() - 1,
        _ => true,
    } by {
        if k < start {
            assert(is_preparation(calls[k]));
        } else if k < at {
            assert(calls[k] == before[k - start]);
        } else if k > at {
            assert(calls[k] == behind[k - at - 1]);
        }
    }
}

/// Which runs start: none on a lane with pending work, an event-fenced one only where graphs are
/// replayed over device inputs, and an unsynchronized one only over host inputs without a graph. Every
/// other run on an idle lane starts.
pub proof fn idle_lanes_start_sound_runs(lane: LaneState, mode: RunMode)
    ensures
        lane.start_fault(mode) is None <==> {
            &&& !lane.in_flight
            &&& mode is EventProfiled ==> lane.device_inputs && lane.graph_id is Some
            &&& mode is Unsynchronized ==> !lane.device_inputs && lane.graph_id is None
        },
{
}

/// The call that an operation waits for is the one that its phase names: what is asked of the engine
/// is what the answer will be taken for.
pub open spec fn awaits(lane: LaneState, call: Option<LaneCall>) -> bool {
    match lane.phase {
        Phase::Rest => call is None,
        Phase::Preparing { next, .. } => match call {
            Some(LaneCall::ActivateDevice(device)) => next == 0 && lane.device_inputs
                && lane.cuda_device == Some(device),
            Some(LaneCall::CopyInput(i)) => lane.device_inputs && next == i + 1,
            Some(LaneCall::ClearInputs) => next == 0 && !lane.device_inputs,
            Some(LaneCall::BindInput(i)) => !lane.device_inputs && next == i + 1,
            _ => false,
        },
        Phase::Beginning { .. } => call matches Some(LaneCall::BeginGraphRun(id))
            && lane.graph_lease == Some(id),
        Phase::SynchronizingInputs { .. } => call == Some(LaneCall::SynchronizeInputs),
        Phase::Launching { .. } => call matches Some(LaneCall::Run(_)),
        Phase::Recording { .. } => call == Some(LaneCall::RecordCompletion),
        Phase::SynchronizingRun { .. } => call == Some(LaneCall::SynchronizeOutputs),
        Phase::Fencing { .. } => call == Some(LaneCall::SynchronizeOutputs),
        Phase::FencingActivate { device, .. } => call == Some(LaneCall::ActivateDevice(device)),
        Phase::FencingDevice { device, .. } => call == Some(LaneCall::SynchronizeDevice(device)),
        Phase::Waiting => call == Some(
            if lane.completion_event_recorded {
                LaneCall::SynchronizeCompletion
            } else {
                LaneCall::SynchronizeOutputs
            },
        ),
        Phase::WaitingActivate { device } => call == Some(LaneCall::ActivateDevice(device)),
        Phase::WaitingDevice { device } => call == Some(LaneCall::SynchronizeDevice(device)),
        Phase::Ending { guard } => call == Some(LaneCall::EndGraphRun(guard)),
    }
}

/// Every operation waits for the answer to the call that it has just asked for, from its first call on
/// and after every answer.
pub proof fn operations_await_their_own_calls(lane: LaneState, mode: RunMode, ok: bool)
    requires
        lane.inv(),
    ensures
        awaits(lane.spec_advance(ok).0, lane.spec_advance(ok).1),
        lane.phase is Rest && lane.start_fault(mode) is None ==> awaits(
            lane.spec_start(mode).0,
            lane.spec_start(mode).1,
        ),
        awaits(lane.spec_start_wait().0, lane.spec_start_wait().1),
{
}

/// A refused answer launches nothing: the operation is over, or fences what may have been launched, by
/// the bound outputs first and then by the lane's device.
pub proof fn refusals_only_fence(lane: LaneState)
    requires
        lane.inv(),
    ensures
        match lane.spec_advance(false).1 {
            None => true,
            Some(LaneCall::SynchronizeOutputs) => !(lane.phase is Fencing || lane.phase is Waiting),
            Some(LaneCall::ActivateDevice(device)) => {
                &&& lane.phase is Fencing || lane.phase is Waiting
                &&& lane.cuda_device == Some(device)
            },
            Some(_) => false,
        },
{
}

/// What a refused launch, a refused record or refused outputs lead to: a run with the lane's own options
/// or queued work is fenced by the bound outputs, and where they are refused too and there is a device,
/// by the whole device. A run that no fence confirms leaves its guard with a lane that stays in flight.
pub proof fn failed_launches_are_fenced(lane: LaneState)
    requires
        lane.inv(),
    ensures
        match lane.phase {
            Phase::Launching { mode, .. } | Phase::Recording { mode, .. }
            | Phase::SynchronizingRun { mode, .. } => {
                mode is Enqueued || mode is Profiled || mode is EventProfiled || (
                mode is Synchronized && (lane.run_options is Some || (lane.device_inputs
                    && lane.graph_id is Some))) ==> lane.spec_advance(false).1 == Some(
                    LaneCall::SynchronizeOutputs,
                ) && lane.spec_advance(false).0.phase is Fencing
            },
            Phase::Fencing { .. } => match lane.cuda_device {
                Some(device) => {
                    let activated = lane.spec_advance(false);
                    let waited = activated.0.spec_advance(true);
                    &&& activated.1 == Some(LaneCall::ActivateDevice(device))
                    &&& waited.1 == Some(LaneCall::SynchronizeDevice(device))
                    &&& !waited.0.spec_advance(true).0.in_flight
                },
                None => lane.spec_advance(false).1 is None,
            },
            Phase::Waiting => match lane.cuda_device {
                Some(device) => {
                    let activated = lane.spec_advance(false);
                    let waited = activated.0.spec_advance(true);
                    &&& activated.1 == Some(LaneCall::ActivateDevice(device))
                    &&& waited.1 == Some(LaneCall::SynchronizeDevice(device))
                    &&& !waited.0.spec_advance(true).0.in_flight
                },
                None => lane.spec_advance(false).1 is None && lane.spec_advance(
                    false,
                ).0.in_flight,
            },
            _ => true,
        },
        lane.spec_advance(false).1 is None && !(lane.phase is Ending) ==> lane.spec_advance(
            false,
        ).0.in_flight == (lane.in_flight || lane.owed_guard() is Some),
{
}

} // verus!
