//! Lanes, lane sets, shape buckets and owned runs, driven by an engine that answers every call.
use st_zrt::element::{ElementType, Float32, TensorElement};
use st_zrt::error::{Error, Fault};
use st_zrt::memory::MemoryInfo;
use st_zrt::runtime::access::Access;
use st_zrt::runtime::audit::BufferAddress;
use st_zrt::runtime::capture::{BucketCapture, CaptureStep};
use st_zrt::runtime::dynamic::{DynamicIoRuntime, EnqueueOutcome, Lookup};
use st_zrt::runtime::host_lane::{Lane, Runtime};
use st_zrt::runtime::lane::{CompletionStatus, LaneProgress, PrimeStep, Priming, ServingLane};
use st_zrt::runtime::lane_state::LaneCall;
use st_zrt::runtime::options::{CudaStream, DynamicIoOptions, RuntimeMode, ShapeKey};
use st_zrt::runtime::owned_run::{Disposal, OwnedDynamicIoRun};
use st_zrt::runtime::pool::ServingLanePool;
use st_zrt::runtime::prepared::PreparedSlots;
use st_zrt::runtime::recovery::{Recovery, RecoveryCell, RecoverySlots};
use st_zrt::runtime::static_io::{LaneAddresses, StaticIoRuntime};
use st_zrt::runtime::warm::{PrimeCall, SetPriming, WarmCall};
use st_zrt::session::async_run::AsyncState;
use st_zrt::session::graph_lease::{GraphLeases, LeaseAttempt, RunEnd};
use st_zrt::session::session::{Session, SetupReplies, TypeReport};
use st_zrt::shape_plan::{OutputPolicy, ServingShapePlan};
use st_zrt::tensor::buffer::BufferSpec;
use std::collections::HashSet;

type TestLane = ServingLane<i32, i32, 1, 1>;
type TestRuntime = DynamicIoRuntime<i32, i32, 1, 1>;
type TestRun = OwnedDynamicIoRun<i32, i32, 1, 1>;

const STREAM: CudaStream = CudaStream {
    id: 40,
    device_id: 0,
};

fn failure(text: &str) -> Error {
    Error::new(7, text.to_owned())
}

fn session_with(streams: Vec<CudaStream>) -> Session {
    let tensor = || {
        Ok(TypeReport::Tensor {
            elem_type: ElementType::Int32,
            dims: vec![-1],
            symbolic: vec![None],
        })
    };
    let replies = SetupReplies {
        input_names: Ok(vec![Ok(Some(b"x".to_vec()))]),
        output_names: Ok(vec![Ok(Some(b"y".to_vec()))]),
        input_types: vec![tensor()],
        output_types: vec![tensor()],
        run_options: Ok(()),
    };
    Session::from_handle_with_resources(5, 3, replies, streams).unwrap()
}

fn session() -> Session {
    session_with(Vec::new())
}

fn drive<T: TensorElement>(
    lane: &mut ServingLane<T, T, 1, 1>,
    started: Result<LaneCall, Error>,
) -> Result<Vec<LaneCall>, Error> {
    let mut calls = vec![started?];
    loop {
        match lane.answer(Ok(())) {
            LaneProgress::Call(call) => calls.push(call),
            LaneProgress::Done(Ok(())) => return Ok(calls),
            LaneProgress::Done(Err(error)) => return Err(error),
        }
    }
}

fn settle<T: TensorElement>(
    lane: &mut ServingLane<T, T, 1, 1>,
    progress: LaneProgress,
) -> Result<Vec<LaneCall>, Error> {
    match progress {
        LaneProgress::Call(call) => drive(lane, Ok(call)),
        LaneProgress::Done(Ok(())) => Ok(Vec::new()),
        LaneProgress::Done(Err(error)) => Err(error),
    }
}

fn synchronize<T: TensorElement>(run: &mut OwnedDynamicIoRun<T, T, 1, 1>) {
    let mut progress = run.synchronize();
    while let LaneProgress::Call(_) = progress {
        progress = run.answer(Ok(()));
    }
    assert!(matches!(progress, LaneProgress::Done(Ok(()))));
}

fn host_lane() -> TestLane {
    TestLane::new(&session(), &MemoryInfo::cpu(), [&[2]], [&[2]])
        .unwrap()
        .0
}

/// Capture the graphs of lanes; the call with the given number fails.
fn capture(lanes: Vec<TestLane>, failing: Option<usize>) -> Result<Vec<TestLane>, Error> {
    let mut step = BucketCapture::begin(lanes);
    let mut calls = 0;
    loop {
        step = match step {
            CaptureStep::Call(capture, _, _) => {
                calls += 1;
                capture.answer(if failing == Some(calls) {
                    Err(failure("no capture"))
                } else {
                    Ok(())
                })
            },
            CaptureStep::Captured(lanes) => return Ok(lanes),
            CaptureStep::Failed(error) => return Err(error),
        };
    }
}

/// Give a request its bucket. Every call of the engine succeeds.
fn access<T: TensorElement>(
    runtime: &mut DynamicIoRuntime<T, T, 1, 1>,
    inputs: &[i64],
    outputs: &[i64],
    graph_id: Option<i32>,
) -> Result<usize, Error> {
    let allow_create = !runtime.options().strict_shape_cache;
    let mut step = runtime.begin_access([inputs], [outputs], allow_create).1;
    loop {
        step = match step {
            Access::Ready(index) => return Ok(index),
            Access::Failed(error) => return Err(error),
            Access::Evict(victim) => runtime.evict_for(victim, [inputs], [outputs]).1,
            Access::Build(set, _) => runtime.lanes_built([inputs], [outputs], set, Ok(())),
            Access::Annotate(set) => {
                runtime.annotate_lanes(set, graph_id.ok_or(failure("no annotation")), None)
            },
            Access::Capture(capture, id, _, _) => {
                runtime.capture_answered([inputs], [outputs], capture, id, Ok(()))
            },
        };
    }
}

fn bucket(runtime: &mut TestRuntime, shape: &[i64], graph_id: Option<i32>) -> usize {
    access(runtime, shape, shape, graph_id).unwrap()
}

fn enqueue_on<T: TensorElement>(
    runtime: &mut DynamicIoRuntime<T, T, 1, 1>,
    inputs: &[i64],
    outputs: &[i64],
) -> OwnedDynamicIoRun<T, T, 1, 1> {
    let id = runtime.prepared_bucket_id([inputs], [outputs]).unwrap();
    let mut lane = runtime.enqueue_prepared(id).1.unwrap();
    lane.input_mut_at::<0>().unwrap().fill(T::zero());
    let started = lane.run_enqueued();
    drive(&mut lane, started).unwrap();
    match runtime.finish_enqueue(id, lane, EnqueueOutcome::Queued) {
        Ok(run) => run,
        Err((error, _)) => panic!("{error:?}"),
    }
}

fn enqueue(runtime: &mut TestRuntime, shape: &[i64]) -> TestRun {
    enqueue_on(runtime, shape, shape)
}

#[test]
fn occupied_recovery_cell_returns_second_value_without_replacing_first() {
    let mut cell = RecoveryCell::empty();
    assert_eq!(cell.publish(7_u32), Ok(()));
    assert_eq!(cell.publish(9_u32), Err(9));
    assert_eq!(cell.take(), Some(7));
    assert_eq!(cell.publish(11_u32), Ok(()));
    assert_eq!(cell.take(), Some(11));
}

#[test]
fn cuda_graph_shared_session_multi_lane_topology_is_rejected() {
    let graph = DynamicIoOptions::new(4).with_cuda_graph(true);
    assert!(graph
        .clone()
        .validate_runtime_mode(RuntimeMode::SharedSession, 1)
        .is_ok());
    assert!(graph
        .clone()
        .validate_runtime_mode(RuntimeMode::ReplicatedSessions, 4)
        .is_ok());
    let error = graph
        .validate_runtime_mode(RuntimeMode::SharedSession, 2)
        .expect_err("shared session + cuda_graph + 2 lanes must fail");
    assert!(error.message().contains("replicated sessions"));
    assert!(DynamicIoOptions::new(4)
        .validate_runtime_mode(RuntimeMode::SharedSession, 8)
        .is_ok());
}

#[test]
fn cuda_graph_host_input_options_are_rejected() {
    let error = DynamicIoOptions::new(4)
        .with_cuda_graph(true)
        .validate()
        .expect_err("host-input cuda_graph options must fail validation");
    assert!(error.message().contains("device-resident inputs"));
}

fn graph_runtime() -> TestRuntime {
    let options = DynamicIoOptions::new(4)
        .with_cuda(true)
        .with_device_inputs(0, STREAM)
        .unwrap()
        .with_cuda_graph(true);
    let mut runtime = TestRuntime::shared_session_with_options(
        session_with(vec![STREAM]),
        MemoryInfo::cpu(),
        MemoryInfo::cpu(),
        1,
        options,
    )
    .expect("runtime");
    let mut builder = ServingShapePlan::builder();
    builder.add_shape(
        vec![vec![1, 1, 28, 28]],
        vec![vec![1, 1, 28, 28]],
        OutputPolicy::HostBuffer,
    );
    builder.add_shape(
        vec![vec![2, 1, 28, 28]],
        vec![vec![2, 1, 28, 28]],
        OutputPolicy::HostBuffer,
    );
    runtime
        .install_shape_plan(builder.build().expect("shape plan"))
        .expect("install plan");
    runtime
}

#[test]
fn graph_bucket_creation_refuses_inflight_lanes() {
    let options = DynamicIoOptions::new(4)
        .with_cuda(true)
        .with_device_inputs(0, STREAM)
        .unwrap()
        .with_cuda_graph(true);
    let mut runtime = DynamicIoRuntime::<Float32, Float32, 1, 1>::from_sessions_with_options(
        vec![session_with(vec![STREAM]), session_with(vec![STREAM])],
        MemoryInfo::cpu(),
        MemoryInfo::cpu(),
        options,
    )
    .expect("runtime");
    let mut builder = ServingShapePlan::builder();
    builder.add_shape(
        vec![vec![1, 1, 28, 28]],
        vec![vec![1, 10]],
        OutputPolicy::HostBuffer,
    );
    builder.add_shape(
        vec![vec![2, 1, 28, 28]],
        vec![vec![2, 10]],
        OutputPolicy::HostBuffer,
    );
    runtime
        .install_shape_plan(builder.build().expect("shape plan"))
        .expect("install plan");
    let (one, ten): (&[i64], &[i64]) = (&[1, 1, 28, 28], &[1, 10]);
    let (two, twenty): (&[i64], &[i64]) = (&[2, 1, 28, 28], &[2, 10]);
    let index = access(&mut runtime, one, ten, Some(911)).expect("first bucket while idle");
    assert_eq!(runtime.buckets()[index].lanes().len(), 2);

    let mut run = enqueue_on(&mut runtime, one, ten);
    let error = access(&mut runtime, two, twenty, Some(912))
        .expect_err("creation under a detached lane must be refused");
    assert!(error.message().contains("prebuild or warm"));
    assert_eq!(runtime.bucket_count(), 1, "no bucket was created");

    synchronize(&mut run);
    runtime
        .complete_owned(run, Ok(()))
        .0
        .expect("complete owned run");

    let lane = runtime.bucket_at(index).lane_mut(0).unwrap();
    let started = lane.run_enqueued();
    drive(lane, started).expect("legacy enqueue");
    let error = access(&mut runtime, two, twenty, Some(912))
        .expect_err("creation under a legacy in-flight lane must be refused");
    assert!(error.message().contains("1 in-flight lane"));

    let lane = runtime.bucket_at(index).lane_mut(0).unwrap();
    let progress = lane.synchronize_outputs();
    settle(lane, progress).expect("fence legacy lane");

    // The guard no longer blocks; lanes with host inputs still cannot take a graph id.
    let hosted = DynamicIoRuntime::<Float32, Float32, 1, 1>::from_sessions(
        vec![session(), session()],
        MemoryInfo::cpu(),
    )
    .expect("host runtime");
    let (host_set, _) = hosted.build_lane_set([two], [twenty]).expect("host lanes");
    match runtime.begin_access([two], [twenty], true).1 {
        Access::Build(_, _) => {},
        other => panic!("{other:?}"),
    }
    let error = match runtime.lanes_built([two], [twenty], host_set, Ok(())) {
        Access::Annotate(set) => match runtime.annotate_lanes(set, Ok(912), None) {
            Access::Failed(error) => error,
            other => panic!("{other:?}"),
        },
        other => panic!("{other:?}"),
    };
    assert!(error.message().contains("device-input lane"));
    assert!(access(&mut runtime, two, twenty, Some(913)).is_ok());
}

#[test]
fn synchronized_graph_run_error_fences_before_releasing_lease() {
    let mut leases = GraphLeases::new();
    let mut lane = host_lane();
    assert_eq!(leases.begin_run(911), LeaseAttempt::Granted);
    leases.begin_release(911);
    assert!(
        !leases.is_drained(911),
        "release must wait while the run guard is held"
    );
    let progress =
        lane.settle_graph_run(Some(911), Err(failure("injected run failure")), false);
    let mut calls = Vec::new();
    let mut progress = progress;
    let error = loop {
        match progress {
            LaneProgress::Call(call) => {
                if let LaneCall::EndGraphRun(id) = call {
                    assert_eq!(leases.end_run(id), RunEnd::WakeRelease);
                }
                calls.push(call);
                progress = lane.answer(Ok(()));
            },
            LaneProgress::Done(result) => break result.unwrap_err(),
        }
    };
    assert_eq!(error.message(), "injected run failure");
    assert_eq!(
        calls,
        [LaneCall::SynchronizeOutputs, LaneCall::EndGraphRun(911)]
    );
    assert!(!lane.is_in_flight(), "a fenced failure must not poison the lane");
    assert!(leases.is_drained(911));
}

#[test]
fn serving_lane_drop_fences_and_releases_state_when_fence_succeeds() {
    let session = session();
    let mem = MemoryInfo::cpu();
    let (lanes, _) =
        StaticIoRuntime::<Float32, Float32, 1, 1>::shared_session_with_buffer_policy(
            &session,
            &mem,
            &mem,
            [&[1, 1, 28, 28]],
            [&[1, 10]],
            1,
            BufferSpec::Auto,
            BufferSpec::Auto,
        )
        .expect("static lane set");
    let mut lane = lanes.into_lanes().pop().expect("lane");
    assert_eq!(lane.session(), session.handle());
    let started = lane.run_enqueued();
    drive(&mut lane, started).expect("pending run");
    assert!(lane.is_in_flight());
    let progress = lane.finish_in_flight_best_effort();
    let calls = settle(&mut lane, progress).expect("fence");
    assert!(calls
        .iter()
        .any(|call| matches!(call, LaneCall::SynchronizeOutputs)));
    match lane.dispose() {
        Disposal::Destroy(lane) => assert!(!lane.is_in_flight()),
        Disposal::Leak(_) => panic!("a fenced lane drop must release its state, not leak it"),
    }
}

#[test]
fn lanes_with_a_pending_run_are_fenced_or_leaked() {
    let mut lane = host_lane();
    let started = lane.run_enqueued();
    drive(&mut lane, started).unwrap();
    assert!(lane.is_in_flight());
    let progress = lane.finish_in_flight_best_effort();
    settle(&mut lane, progress).unwrap();
    assert!(matches!(lane.dispose(), Disposal::Destroy(_)));

    let mut lane = host_lane();
    let started = lane.run_enqueued();
    drive(&mut lane, started).unwrap();
    let mut progress = lane.finish_in_flight_best_effort();
    while let LaneProgress::Call(_) = progress {
        progress = lane.answer(Err(failure("no fence")));
    }
    assert!(matches!(lane.dispose(), Disposal::Leak(_)));
}

#[test]
fn lanes_in_flight_refuse_a_second_run() {
    let mut lane = host_lane();
    lane.input_mut(0).unwrap()[1] = 9;
    let started = lane.run();
    let calls = drive(&mut lane, started).unwrap();
    assert_eq!(
        calls
            .iter()
            .filter(|call| matches!(call, LaneCall::Run(_)))
            .count(),
        1
    );
    let started = lane.run_enqueued();
    drive(&mut lane, started).unwrap();
    assert!(matches!(
        lane.run().unwrap_err(),
        Error::Fault(Fault::LaneInFlight)
    ));
    assert!(lane.input_mut(0).is_err());
    assert_eq!(lane.input(0).unwrap(), &[0, 9]);
    let progress = lane.synchronize_outputs();
    settle(&mut lane, progress).unwrap();
    assert!(lane.ensure_idle().is_ok());
}

#[test]
fn host_lanes_take_no_graph_id() {
    let mut lane = host_lane();
    assert!(matches!(
        lane.set_gpu_graph_id(4, Ok(())).unwrap_err(),
        Error::Fault(Fault::GraphIdNeedsDeviceInputs)
    ));
    assert_eq!(lane.gpu_graph_id(), None);
}

#[test]
fn device_lanes_copy_their_inputs_before_a_run() {
    let cpu = MemoryInfo::cpu();
    let (mut lane, _) = TestLane::with_device_inputs(
        &session_with(vec![STREAM]),
        &cpu,
        &cpu,
        [&[2]],
        [&[2]],
        BufferSpec::Auto,
        BufferSpec::Auto,
        0,
        STREAM,
    )
    .unwrap();
    let started = lane.run();
    let calls = drive(&mut lane, started).unwrap();
    let copy = calls
        .iter()
        .position(|call| matches!(call, LaneCall::CopyInput(0)))
        .unwrap();
    let run = calls
        .iter()
        .position(|call| matches!(call, LaneCall::Run(_)))
        .unwrap();
    assert!(copy < run);
    assert!(matches!(
        TestLane::with_device_inputs(
            &session(),
            &cpu,
            &cpu,
            [&[2]],
            [&[2]],
            BufferSpec::Auto,
            BufferSpec::Auto,
            0,
            STREAM
        )
        .unwrap_err(),
        Error::Fault(Fault::SessionStreamMismatch)
    ));
}

#[test]
fn caches_hit_and_evict_the_least_recently_used() {
    let mut runtime = TestRuntime::shared_session_with_options(
        session(),
        MemoryInfo::cpu(),
        MemoryInfo::cpu(),
        1,
        DynamicIoOptions::new(2),
    )
    .unwrap();
    let one = bucket(&mut runtime, &[1], None);
    bucket(&mut runtime, &[2], None);
    assert_eq!(bucket(&mut runtime, &[1], None), one);
    let id = runtime.prepared_bucket_id([&[2]], [&[2]]).unwrap();
    match runtime.get_or_create_bucket([&[3]], [&[3]]).1.unwrap() {
        Lookup::Miss(Some(victim)) => {
            assert_eq!(
                runtime.buckets()[victim].key().input_shape(0),
                Some(&[2i64][..])
            );
            runtime.retire_bucket_at(victim);
        },
        other => panic!("{other:?}"),
    }
    assert_eq!(runtime.bucket_count(), 1);
    assert!(runtime.enqueue_prepared(id).1.is_err());
    bucket(&mut runtime, &[3], None);
    assert_eq!(runtime.bucket_count(), 2);
}

#[test]
fn strict_caches_create_nothing() {
    let mut runtime = TestRuntime::shared_session_with_options(
        session(),
        MemoryInfo::cpu(),
        MemoryInfo::cpu(),
        1,
        DynamicIoOptions::new(2).with_strict_shape_cache(true),
    )
    .unwrap();
    assert!(matches!(
        runtime.get_or_create_bucket([&[1]], [&[1]]).1.unwrap_err(),
        Error::Fault(Fault::StrictCacheMiss)
    ));
    assert!(matches!(
        runtime.lookup([&[1]], [&[1]], true).1,
        Ok(Lookup::Miss(None))
    ));
}

#[test]
fn dropped_runs_come_back() {
    let mut runtime = TestRuntime::shared_session(session(), MemoryInfo::cpu(), 1).unwrap();
    bucket(&mut runtime, &[1], None);
    let mut run = enqueue(&mut runtime, &[1]);
    let id = run.bucket_id();
    assert!(matches!(
        runtime.enqueue_prepared(id).1.unwrap_err(),
        Error::Fault(Fault::AllLanesInFlight)
    ));
    synchronize(&mut run);
    assert!(runtime.recover_dropped(run).is_none());
    let (count, leaked) = runtime.reclaim_dropped_runs();
    assert_eq!(count, 1);
    assert!(leaked.is_empty());
    assert!(runtime.enqueue_prepared(id).1.is_ok());
}

#[test]
fn caches_are_not_cleared_under_a_run() {
    let mut runtime = TestRuntime::shared_session(session(), MemoryInfo::cpu(), 2).unwrap();
    bucket(&mut runtime, &[1], None);
    let mut run = enqueue(&mut runtime, &[1]);
    assert!(matches!(
        runtime.start_clear().1.unwrap_err(),
        Error::Fault(Fault::ClearWhileInFlight)
    ));
    synchronize(&mut run);
    assert_eq!(runtime.complete_owned(run, Ok(4)).0.unwrap(), 4);
    assert!(runtime.start_clear().1.is_ok());
    runtime.clear_retired();
    assert!(runtime.clear_buckets().report().is_ok());
    assert_eq!(runtime.bucket_count(), 0);
}

#[test]
fn owned_runs_lend_their_lane_once_synchronized() {
    let mut runtime = TestRuntime::shared_session(session(), MemoryInfo::cpu(), 1).unwrap();
    bucket(&mut runtime, &[1], None);
    let mut run = enqueue(&mut runtime, &[1]);
    assert!(matches!(
        run.lane().unwrap_err(),
        Error::Fault(Fault::OwnedRunNotSynchronized)
    ));
    assert!(run.completion_query().is_err());
    synchronize(&mut run);
    assert!(run.lane().is_ok());
}

#[test]
fn completion_is_polled_by_event() {
    let mut runtime = graph_runtime();
    let shape: &[i64] = &[1, 1, 28, 28];
    bucket(&mut runtime, shape, Some(12));
    let mut run = enqueue(&mut runtime, shape);
    assert!(matches!(
        run.try_complete(false),
        (CompletionStatus::Pending, None)
    ));
    assert!(matches!(run.try_complete(true).0, CompletionStatus::Ready));
}

#[test]
fn plans_bound_the_cache() {
    let mut builder = ServingShapePlan::builder();
    for n in 1..=3 {
        builder.add_shape(vec![vec![n]], vec![vec![n]], OutputPolicy::HostBuffer);
    }
    let mut runtime = TestRuntime::shared_session_with_options(
        session(),
        MemoryInfo::cpu(),
        MemoryInfo::cpu(),
        1,
        DynamicIoOptions::new(2),
    )
    .unwrap();
    assert!(matches!(
        runtime
            .install_shape_plan(builder.build().unwrap())
            .unwrap_err(),
        Error::PlanTooLarge {
            buckets: 3,
            capacity: 2
        }
    ));
}

#[test]
fn lane_sets_are_annotated_together() {
    let cpu = MemoryInfo::cpu();
    let (mut set, _) = StaticIoRuntime::<i32, i32, 1, 1>::shared_session_with_device_inputs(
        &session_with(vec![STREAM]),
        &cpu,
        &cpu,
        [&[2]],
        [&[2]],
        2,
        BufferSpec::Auto,
        BufferSpec::Auto,
        0,
        STREAM,
    )
    .unwrap();
    assert!(set.set_gpu_graph_id(5, Some((1, failure("frozen")))).is_err());
    assert_eq!(set.lane(0).unwrap().gpu_graph_id(), Some(5));
    assert_eq!(set.lane(1).unwrap().gpu_graph_id(), None);
    set.set_gpu_graph_id(6, None).unwrap();
    assert!(set
        .lanes()
        .iter()
        .all(|lane| lane.gpu_graph_id() == Some(6)));
    assert_eq!(set.session_mode(), RuntimeMode::SharedSession);
    assert_eq!(set.len(), 2);

    let (mut host, _) =
        StaticIoRuntime::<i32, i32, 1, 1>::shared_session(&session(), &cpu, [&[2]], [&[2]], 2)
            .unwrap();
    assert!(host.set_gpu_graph_id(7, None).is_err());
    assert!(host.lanes().iter().all(|lane| lane.gpu_graph_id().is_none()));
}

#[test]
fn audits_compare_addresses() {
    let cpu = MemoryInfo::cpu();
    let (set, _) =
        StaticIoRuntime::<i32, i32, 1, 1>::shared_session(&session(), &cpu, [&[2]], [&[2]], 1)
            .unwrap();
    let at = |rust_ptr, ort_ptr| BufferAddress { rust_ptr, ort_ptr };
    let same = [LaneAddresses {
        inputs: vec![at(64, 64)],
        outputs: vec![at(128, 128)],
    }];
    let audits = set.audit_hot_path(&same).unwrap();
    assert!(audits[0].inputs[0].pointer_identity);
    assert_eq!(audits[0].inputs[0].byte_len, 8);
    assert!(set.assert_zero_copy_plan(&same).is_ok());
    let other = [LaneAddresses {
        inputs: vec![at(64, 64)],
        outputs: vec![at(128, 256)],
    }];
    assert!(matches!(
        set.assert_zero_copy_plan(&other).unwrap_err(),
        Error::NotZeroCopy { .. }
    ));
}

#[test]
fn pools_lend_each_lane_once() {
    let mut pool = ServingLanePool::from_lanes(vec![host_lane(), host_lane()]).unwrap();
    assert_eq!(pool.len(), 2);
    let first = pool.try_checkout().unwrap();
    assert_eq!(pool.idle_count(), 1);
    assert!(pool.try_checkout().is_some());
    assert!(pool.try_checkout().is_none());
    pool.check_in(first);
    assert_eq!(pool.idle_count(), 1);
    assert!(matches!(
        ServingLanePool::<i32, i32, 1, 1>::from_lanes(vec![]).unwrap_err(),
        Error::Fault(Fault::PoolWithoutLanes)
    ));
}

#[test]
fn recovery_slots_give_values_back_last_in_first_out() {
    let mut slots = RecoverySlots::new(3);
    assert!(matches!(slots.recover(0, 'a'), Recovery::Queued));
    assert!(matches!(slots.recover(2, 'c'), Recovery::Queued));
    assert!(matches!(slots.recover(2, 'x'), Recovery::Occupied('x')));
    assert!(matches!(slots.recover(3, 'y'), Recovery::OutOfRange('y')));
    assert_eq!(slots.pop_ready(), Some((2, 'c')));
    assert_eq!(slots.pop_ready(), Some((0, 'a')));
    assert_eq!(slots.pop_ready(), None);
}

#[test]
fn prepared_ids_never_name_another_bucket() {
    let mut slots = PreparedSlots::new();
    let first = slots.allocate(0).unwrap();
    assert_eq!(slots.bucket_index(first), Some(0));
    slots.retire(first);
    assert_eq!(slots.bucket_index(first), None);
    let second = slots.allocate(0).unwrap();
    assert_ne!(first, second);
    assert_eq!(slots.bucket_index(first), None);
    assert_eq!(slots.bucket_index(second), Some(0));
}

#[test]
fn host_runtimes_need_lanes() {
    let cpu = MemoryInfo::cpu();
    assert!(matches!(
        Runtime::<i32>::shared_session(&session(), &cpu, &[&[2]], &[&[2]], 0).unwrap_err(),
        Error::Fault(Fault::RuntimeWithoutLanes)
    ));
    let (set, _) =
        Runtime::<i32>::shared_session(&session(), &cpu, &[&[2]], &[&[2]], 2).unwrap();
    assert_eq!(set.len(), 2);
    let (lane, calls) =
        Lane::<i32>::new(&session(), &cpu, &[&[2]], &[&[2]], BufferSpec::Auto).unwrap();
    assert_eq!(lane.input(0).unwrap(), &[0, 0]);
    assert_eq!(calls.len(), 5);
}

#[test]
fn priming_synchronizes_after_each_queued_run() {
    let mut priming = Priming::prime_enqueued(2);
    let mut steps = Vec::new();
    loop {
        match priming.next(Ok(())) {
            PrimeStep::Done(result) => {
                assert!(result.is_ok());
                break;
            },
            step => steps.push(step),
        }
    }
    assert_eq!(steps.len(), 4);
    assert!(matches!(steps[0], PrimeStep::RunEnqueued));
    assert!(matches!(steps[1], PrimeStep::Synchronize));
}

#[test]
fn keys_match_their_shapes() {
    let key = ShapeKey::<1, 1>::new([&[1, 2]], [&[3]]);
    assert!(key.matches([&[1, 2]], [&[3]]));
    assert!(!key.matches([&[1, 2]], [&[4]]));
    assert_eq!(key.output_shape(0), Some(&[3i64][..]));
    assert_eq!(key.output_shape(1), None);
}

#[test]
fn sets_prime_each_lane_in_turn() {
    let mut priming = SetPriming::prime_enqueued(2, 2);
    let mut calls = Vec::new();
    while let Some(call) = priming.next() {
        calls.push(call);
        priming = priming.answer(Ok(())).unwrap();
    }
    assert_eq!(calls.len(), 8);
    assert_eq!(calls[0], PrimeCall::RunEnqueued(0));
    assert_eq!(calls[1], PrimeCall::Synchronize(0));
    assert_eq!(calls[7], PrimeCall::Synchronize(1));
    let priming = SetPriming::prime(1, 1);
    assert!(priming.answer(Err(failure("run"))).is_err());
}

#[test]
fn warming_counts_the_buckets() {
    let mut runtime = TestRuntime::shared_session(session(), MemoryInfo::cpu(), 2).unwrap();
    let shapes: [&[i64]; 2] = [&[1], &[2]];
    let mut warming = runtime.warm_buckets(2, 1);
    let mut runs = 0;
    while let Some(call) = warming.next() {
        warming = match call {
            WarmCall::Bucket(i) => {
                let index = bucket(&mut runtime, shapes[i], None);
                warming.found(Ok(runtime.buckets()[index].lanes().len()))
            },
            WarmCall::Prime(_, PrimeCall::Run(_)) => {
                runs += 1;
                warming.answer(Ok(()))
            },
            other => panic!("{other:?}"),
        }
        .unwrap();
    }
    assert_eq!(warming.count(), 2);
    assert_eq!(runs, 4);
    assert_eq!(runtime.bucket_count(), 2);
    assert_eq!(runtime.prebuild_buckets(3).next(), Some(WarmCall::Bucket(0)));
    assert_eq!(runtime.prime_cached_buckets(1).buckets, 2);
}

#[test]
fn new_buckets_capture_every_lane() {
    let runtime = graph_runtime();
    let shape: &[i64] = &[1, 1, 28, 28];
    let build = || {
        let (set, _) = runtime.build_lane_set([shape], [shape]).unwrap();
        runtime.annotate_lane_set(set, Ok(21), None).unwrap().0
    };
    let lanes = capture(build(), None).unwrap();
    assert!(lanes.iter().all(|lane| lane.graph_captured()));
    assert_eq!(
        capture(build(), Some(3)).unwrap_err().message(),
        "zrt: eager CUDA-graph capture for lane 0 of a new shape bucket failed: no capture"
    );
    let (set, _) = runtime.build_lane_set([shape], [shape]).unwrap();
    assert_eq!(
        runtime
            .annotate_lane_set(set, Ok(22), Some((0, failure("frozen"))))
            .unwrap_err()
            .message(),
        "frozen"
    );
}

#[test]
fn accesses_refresh_and_evict_in_order() {
    let mut runtime = TestRuntime::shared_session_with_options(
        session(),
        MemoryInfo::cpu(),
        MemoryInfo::cpu(),
        1,
        DynamicIoOptions::new(2),
    )
    .unwrap();
    bucket(&mut runtime, &[1], None);
    bucket(&mut runtime, &[2], None);
    let hit = bucket(&mut runtime, &[1], None);
    let stamp = runtime.buckets()[hit].last_used();
    assert!(runtime
        .buckets()
        .iter()
        .enumerate()
        .all(|(i, other)| i == hit || other.last_used() < stamp));
    let added = bucket(&mut runtime, &[3], None);
    assert_eq!(runtime.bucket_count(), 2);
    assert!(runtime.bucket([&[2]], [&[2]]).is_none());
    assert!(runtime.bucket([&[1]], [&[1]]).is_some());
    assert!(runtime.buckets()[added].last_used() > stamp);
    let strict = runtime.begin_access([&[4]], [&[4]], false).1;
    assert!(matches!(
        strict,
        Access::Failed(Error::Fault(Fault::StrictCacheMiss))
    ));
    assert_eq!(runtime.bucket_count(), 2);
}

#[test]
fn failed_builds_create_no_bucket() {
    let mut runtime = TestRuntime::shared_session(session(), MemoryInfo::cpu(), 1).unwrap();
    match runtime.begin_access([&[1]], [&[1]], true).1 {
        Access::Build(set, calls) => {
            assert_eq!(calls.len(), 1);
            match runtime.lanes_built([&[1]], [&[1]], set, Err(failure("no memory"))) {
                Access::Failed(error) => assert_eq!(error.message(), "no memory"),
                other => panic!("{other:?}"),
            }
        },
        other => panic!("{other:?}"),
    }
    assert_eq!(runtime.bucket_count(), 0);
}

#[test]
fn lanes_hold_the_names_of_their_inputs() {
    let lane = host_lane();
    assert_eq!(lane.input_binding_name(0), Some("x"));
    assert_eq!(lane.input_binding_name(1), None);
}

#[test]
fn retired_slots_are_used_again_under_the_next_generation() {
    let mut slots = PreparedSlots::new();
    let first = slots.allocate(0).unwrap();
    let second = slots.allocate(1).unwrap();
    assert_eq!((first.slot, first.generation), (0, 1));
    assert_eq!((second.slot, second.generation), (1, 1));
    slots.retire(first);
    slots.retire(first);
    slots.retire(second);
    let third = slots.allocate(5).unwrap();
    let fourth = slots.allocate(6).unwrap();
    let fifth = slots.allocate(7).unwrap();
    assert_eq!((third.slot, third.generation), (1, 2));
    assert_eq!((fourth.slot, fourth.generation), (0, 2));
    assert_eq!((fifth.slot, fifth.generation), (2, 1));
    slots.repair(third, 8);
    assert_eq!(slots.bucket_index(third), Some(8));
    assert_eq!(slots.bucket_index(second), None);
}

#[test]
fn lanes_in_flight_start_no_asynchronous_run() {
    let session = session();
    let mut lane = host_lane();
    let state: AsyncState<u64> = lane.run_async(&session, vec![11]).unwrap();
    assert!(!state.is_done());
    assert!(matches!(
        lane.run_async::<u64>(&session, Vec::new()),
        Err(Error::CountMismatch {
            expected: 1,
            got: 0,
            ..
        })
    ));
    let started = lane.run_enqueued();
    drive(&mut lane, started).unwrap();
    assert!(lane.is_in_flight());
    assert!(matches!(
        lane.run_async::<u64>(&session, vec![11]),
        Err(Error::Fault(Fault::LaneInFlight))
    ));
    let (mut lane, _) = Lane::<i32>::new(
        &session,
        &MemoryInfo::cpu(),
        &[&[2]],
        &[&[2]],
        BufferSpec::Auto,
    )
    .unwrap();
    assert!(lane.run_async::<u64>(&session, vec![11]).is_ok());
    assert!(lane.run_async::<u64>(&session, vec![11, 12]).is_err());
}

#[test]
fn keys_are_cloned_and_hashed_by_their_shapes() {
    let key = ShapeKey::<1, 1>::new([&[1, 2]], [&[3]]);
    let other = ShapeKey::<1, 1>::new([&[1, 2]], [&[4]]);
    assert_eq!(key.clone(), key);
    let mut keys = HashSet::new();
    assert!(keys.insert(key.clone()));
    assert!(!keys.insert(key));
    assert!(keys.insert(other));
}

#[test]
fn cache_options_are_compared_field_by_field() {
    let options = DynamicIoOptions::new(4);
    assert_eq!(options.clone(), options);
    assert_ne!(options.clone().with_cuda(true), options);
    assert_ne!(DynamicIoOptions::new(5), options);
}
