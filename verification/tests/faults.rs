//! What each misuse is answered with.
use st_zrt::element::{ElementType, OnnxType};
use st_zrt::error::{Access, Error, Fault};
use st_zrt::memory::MemoryInfo;
use st_zrt::runtime::dynamic::{Drained, DynamicIoRuntime, EnqueueOutcome, Lookup, Retirement};
use st_zrt::runtime::host_lane::Runtime;
use st_zrt::runtime::lane::{CompletionStatus, LaneProgress, ServingLane};
use st_zrt::runtime::options::{CudaStream, DynamicIoOptions, RuntimeMode};
use st_zrt::runtime::owned_run::{ChainEnqueue, ChainOutcome, OwnedDynamicIoRun};
use st_zrt::runtime::static_io::StaticIoRuntime;
use st_zrt::session::session::{Session, SetupReplies, TypeReport};
use st_zrt::shape_plan::{ClassifyError, FallbackPolicy, OutputPolicy, ServingShapePlan};
use st_zrt::ratio::PaddingRatio;
use st_zrt::tensor::allocated::AllocatedTensor;
use st_zrt::tensor::buffer::{
    ensure_memory_host_accessible, ensure_value_host_accessible, validate_packed_bytes_len,
    validate_shape_len, BufferReplies, BufferSpec, TensorBuffer,
};
use st_zrt::tensor::mmap::{file_range, map_file_range, mapped_bytes, FileRange};
use st_zrt::tensor::sparse::{
    validate_coo_indices, validate_csr_indices, SparseIndicesFormat, SparseReplies, SparseTensor,
};
use st_zrt::tensor::value::OwnedValue;
use st_zrt::threading::ThreadingOptions;

type TestLane = ServingLane<i32, i32, 1, 1>;
type TestRuntime = DynamicIoRuntime<i32, i32, 1, 1>;
type TestRun = OwnedDynamicIoRun<i32, i32, 1, 1>;
type TestSet = StaticIoRuntime<i32, i32, 1, 1>;

const STREAM: CudaStream = CudaStream {
    id: 40,
    device_id: 0,
};

const ELSEWHERE: CudaStream = CudaStream {
    id: 41,
    device_id: 1,
};

fn fault<T>(result: Result<T, Error>) -> Fault {
    match result {
        Err(Error::Fault(fault)) => fault,
        Err(error) => panic!("{error:?}"),
        Ok(_) => panic!("no error"),
    }
}

fn named_session(name: &[u8], streams: Vec<CudaStream>) -> Session {
    let tensor = || {
        Ok(TypeReport::Tensor {
            elem_type: ElementType::Int32,
            dims: vec![-1],
            symbolic: vec![None],
        })
    };
    let replies = SetupReplies {
        input_names: Ok(vec![Ok(Some(name.to_vec()))]),
        output_names: Ok(vec![Ok(Some(b"y".to_vec()))]),
        input_types: vec![tensor()],
        output_types: vec![tensor()],
        run_options: Ok(()),
    };
    Session::from_handle_with_resources(5, 3, replies, streams).unwrap()
}

fn session() -> Session {
    named_session(b"x", vec![STREAM])
}

fn host_lane() -> TestLane {
    TestLane::new(&session(), &MemoryInfo::cpu(), [&[2]], [&[2]])
        .unwrap()
        .0
}

fn device_lane() -> TestLane {
    TestLane::with_device_io(
        &session(),
        &MemoryInfo::cpu(),
        [&[2]],
        [&[2]],
        BufferSpec::Auto,
        0,
        STREAM,
    )
    .unwrap()
    .0
}

fn queue(lane: &mut TestLane) {
    lane.run_enqueued().unwrap();
    while let LaneProgress::Call(_) = lane.answer(Ok(())) {}
    assert!(lane.is_in_flight());
}

fn runtime(options: DynamicIoOptions) -> TestRuntime {
    TestRuntime::shared_session_with_options(
        session(),
        MemoryInfo::cpu(),
        MemoryInfo::cpu(),
        1,
        options,
    )
    .unwrap()
}

fn on_device(device_outputs: bool) -> DynamicIoOptions {
    DynamicIoOptions::new(4)
        .with_cuda(true)
        .with_device_inputs(0, STREAM)
        .unwrap()
        .with_device_outputs(device_outputs)
}

fn bucket(runtime: &mut TestRuntime, shape: &[i64]) -> usize {
    match runtime.get_or_create_bucket([shape], [shape]).1.unwrap() {
        Lookup::Hit(index) => index,
        Lookup::Miss(_) => {
            let (set, _) = runtime.build_lane_set([shape], [shape]).unwrap();
            let (lanes, id) = runtime
                .annotate_lane_set(set, Err(Error::new(1, "none".to_owned())), None)
                .unwrap();
            runtime
                .install_bucket([shape], [shape], lanes, id)
                .unwrap()
        },
    }
}

fn enqueue(runtime: &mut TestRuntime, shape: &[i64]) -> TestRun {
    let id = runtime.prepared_bucket_id([shape], [shape]).unwrap();
    let mut lane = runtime.enqueue_prepared(id).1.unwrap();
    if lane.stream().is_some() {
        lane.set_gpu_graph_id(12, Ok(())).unwrap();
    }
    queue(&mut lane);
    match runtime.finish_enqueue(id, lane, EnqueueOutcome::Queued) {
        Ok(run) => run,
        Err((error, _)) => panic!("{error:?}"),
    }
}

fn plan(shapes: &[i64], policy: OutputPolicy) -> ServingShapePlan {
    let mut builder = ServingShapePlan::builder();
    for shape in shapes {
        builder.add_shape(vec![vec![*shape]], vec![vec![*shape]], policy);
    }
    builder.build().unwrap()
}

#[test]
fn options_name_what_they_lack() {
    let plain = || DynamicIoOptions::new(4);
    assert_eq!(fault(DynamicIoOptions::new(0).validate()), Fault::NoBuckets);
    assert_eq!(
        fault(
            plain()
                .with_cuda_graph(true)
                .with_rebind_inputs_each_run(true)
                .validate()
        ),
        Fault::GraphWithRebind
    );
    assert_eq!(
        fault(plain().with_cuda_graph(true).validate()),
        Fault::GraphWithHostInputs
    );
    assert_eq!(
        fault(plain().with_device_outputs(true).validate()),
        Fault::DeviceOutputsNeedDeviceInputs
    );
    assert_eq!(
        fault(on_device(true).with_cuda(false).validate()),
        Fault::DeviceOutputsNeedCuda
    );
    assert_eq!(
        fault(on_device(false).with_rebind_inputs_each_run(true).validate()),
        Fault::DeviceInputsWithRebind
    );
    assert_eq!(
        fault(on_device(false).with_cuda(false).validate()),
        Fault::DynamicDeviceInputsNeedCuda
    );
    assert_eq!(
        fault(
            plain()
                .with_cuda(true)
                .with_device_input_streams(0, Vec::new())
                .unwrap()
                .validate()
        ),
        Fault::DeviceInputsNeedStream
    );
    assert_eq!(
        fault(plain().with_device_inputs(1, STREAM)),
        Fault::StreamDeviceMismatch
    );
    assert_eq!(
        fault(plain().with_device_input_streams(0, vec![STREAM, ELSEWHERE])),
        Fault::StreamDeviceMismatch
    );
    assert!(on_device(true).validate().is_ok());
}

#[test]
fn modes_name_what_they_refuse() {
    let streams = || {
        DynamicIoOptions::new(4)
            .with_cuda(true)
            .with_device_input_streams(0, vec![STREAM, STREAM])
            .unwrap()
    };
    assert_eq!(
        fault(
            on_device(false)
                .with_cuda_graph(true)
                .validate_runtime_mode(RuntimeMode::SharedSession, 2)
        ),
        Fault::GraphSharedSessionLanes
    );
    assert_eq!(
        fault(streams().validate_runtime_mode(RuntimeMode::SharedSession, 2)),
        Fault::LaneStreamsNeedReplicas
    );
    assert!(matches!(
        streams().validate_runtime_mode(RuntimeMode::ReplicatedSessions, 3),
        Err(Error::LaneStreamCount {
            expected: 3,
            got: 2
        })
    ));
    assert!(streams()
        .validate_runtime_mode(RuntimeMode::ReplicatedSessions, 2)
        .is_ok());
}

#[test]
fn runtimes_need_lanes_and_sessions() {
    let cpu = MemoryInfo::cpu();
    assert_eq!(
        fault(TestSet::shared_session(&session(), &cpu, [&[2]], [&[2]], 0)),
        Fault::StaticWithoutLanes
    );
    assert_eq!(
        fault(TestSet::from_sessions(&[], &cpu, [&[2]], [&[2]])),
        Fault::StaticWithoutSessions
    );
    assert_eq!(
        fault(Runtime::<i32>::from_sessions(&[], &cpu, &[&[2]], &[&[2]])),
        Fault::RuntimeWithoutSessions
    );
    assert_eq!(
        fault(TestRuntime::shared_session(session(), MemoryInfo::cpu(), 0)),
        Fault::DynamicWithoutLanes
    );
    assert_eq!(
        fault(TestRuntime::from_sessions(Vec::new(), MemoryInfo::cpu())),
        Fault::DynamicWithoutSessions
    );
    assert_eq!(
        fault(TestRuntime::shared_session_with_options(
            session(),
            MemoryInfo::cpu(),
            MemoryInfo::cpu(),
            2,
            DynamicIoOptions::new(usize::MAX),
        )),
        Fault::RecoveryCapacityOverflow
    );
    assert!(matches!(
        TestSet::from_session_refs_with_device_input_streams(
            &[session()],
            &cpu,
            &cpu,
            [&[2]],
            [&[2]],
            BufferSpec::Auto,
            BufferSpec::Auto,
            0,
            &[STREAM, STREAM],
        ),
        Err(Error::SessionStreamCount {
            sessions: 1,
            streams: 2
        })
    ));
}

#[test]
fn lanes_name_what_they_lack() {
    assert_eq!(
        fault(TestLane::new(
            &named_session(b"x\0y", Vec::new()),
            &MemoryInfo::cpu(),
            [&[2]],
            [&[2]]
        )),
        Fault::InputNameNul
    );
    let mut host = host_lane();
    assert_eq!(
        fault(host.run_event_profiled()),
        Fault::EventProfileUnavailable
    );
    assert_eq!(fault(host.device_output(0)), Fault::NoDeviceOutput);
    assert_eq!(fault(host.device_outputs_for_chain()), Fault::ChainNeedsDeviceOutputs);
    assert_eq!(fault(host.downstream_completion_event()), Fault::NoDownstreamEvent);
    queue(&mut host);
    assert_eq!(fault(host.completion_query()), Fault::NoCompletionEvent);
    assert_eq!(
        fault(host.queue_completion_wait(STREAM)),
        Fault::ChainNeedsCompletionEvent
    );

    let mut device = device_lane();
    assert_eq!(
        fault(device.run_unsynchronized()),
        Fault::UnsynchronizedDeviceInputs
    );
    assert_eq!(fault(device.outputs()), Fault::OutputsOnDevice);
    assert_eq!(fault(device.output(0)), Fault::OutputOnDevice);
    assert_eq!(fault(device.output_at::<0>()), Fault::OutputOnDevice);
    assert!(device.device_output(0).is_ok());
    device.set_gpu_graph_id(12, Ok(())).unwrap();
    queue(&mut device);
    assert_eq!(fault(device.device_output(0)), Fault::DeviceOutputPending);
    assert_eq!(
        fault(device.queue_completion_wait(ELSEWHERE)),
        Fault::ChainDeviceMismatch
    );
    assert!(device.queue_completion_wait(STREAM).is_ok());
}

#[test]
fn chains_need_events_and_device_outputs() {
    let mut host = runtime(DynamicIoOptions::new(4));
    bucket(&mut host, &[2]);
    let mut run = enqueue(&mut host, &[2]);
    assert_eq!(fault(run.check_chain(STREAM)), Fault::ChainNeedsDeviceOutputs);
    assert_eq!(
        fault(run.lane_mut().map(|_| ())),
        Fault::OwnedRunNotSynchronizedMut
    );

    let mut copied = runtime(on_device(false));
    bucket(&mut copied, &[2]);
    let run = enqueue(&mut copied, &[2]);
    assert_eq!(fault(run.check_chain(STREAM)), Fault::ChainNeedsDeviceOutputs);

    let mut device = runtime(on_device(true));
    bucket(&mut device, &[2]);
    let run = enqueue(&mut device, &[2]);
    assert_eq!(fault(run.check_chain(ELSEWHERE)), Fault::ChainDeviceMismatch);
    assert_eq!(run.check_chain(STREAM).unwrap().len(), 1);
    let lost = Error::new(9, "lost".to_owned());
    let chained = run.chain_on_stream(
        STREAM,
        Ok(()),
        ChainEnqueue::Returned(Ok(())),
        Err(lost),
    );
    match chained {
        Ok(ChainOutcome::Chained(chain)) => {
            assert_eq!(fault(chain.completion_query()), Fault::ChainEventMissing);
        },
        _ => panic!("the chain holds its run"),
    }
}

#[test]
fn polls_check_their_room_and_events() {
    let mut host = runtime(DynamicIoOptions::new(4));
    bucket(&mut host, &[2]);
    let runs = vec![enqueue(&mut host, &[2])];
    assert_eq!(fault(host.check_poll(0, &runs, 0)), Fault::PollBufferTooSmall);
    assert_eq!(fault(host.check_poll(0, &runs, 1)), Fault::PollNeedsEvents);

    let mut device = runtime(on_device(false));
    bucket(&mut device, &[2]);
    let mut runs = vec![enqueue(&mut device, &[2])];
    assert_eq!(fault(device.check_poll(1, &runs, 1)), Fault::PollDeviceMismatch);
    assert!(device.check_poll(0, &runs, 1).unwrap());
    let mut statuses = vec![CompletionStatus::Pending];
    let (_, result) =
        device.poll_owned_runs(0, &mut runs, &mut statuses, Ok(()), &[true], None);
    assert!(result.is_ok());
    assert!(matches!(statuses[0], CompletionStatus::Ready));
    assert!(!device.check_poll(1, &runs, 1).unwrap());
}

#[test]
fn plans_fit_their_runtime() {
    let mut cached = runtime(DynamicIoOptions::new(4));
    bucket(&mut cached, &[2]);
    assert_eq!(
        fault(cached.install_shape_plan(plan(&[2], OutputPolicy::HostBuffer))),
        Fault::PlanAfterBuckets
    );

    let mut empty = runtime(DynamicIoOptions::new(4));
    assert_eq!(
        fault(empty.install_shape_plan(plan(&[2], OutputPolicy::DeviceResident))),
        Fault::PlanOutputPlacement
    );
    let mut builder = ServingShapePlan::builder();
    builder.add_shape(
        vec![vec![2], vec![3]],
        vec![vec![2]],
        OutputPolicy::HostBuffer,
    );
    assert!(matches!(
        empty.install_shape_plan(builder.build().unwrap()),
        Err(Error::PlanArity {
            inputs: 1,
            outputs: 1,
            plan_inputs: 2,
            plan_outputs: 1
        })
    ));
    empty
        .install_shape_plan(plan(&[2], OutputPolicy::HostBuffer))
        .unwrap();
    assert!(matches!(
        empty.get_or_create_bucket([&[3]], [&[3]]).1,
        Err(Error::ShapeRejected {
            error: ClassifyError::NotInPlan
        })
    ));
    assert_eq!(
        fault(empty.get_or_create_bucket([&[2]], [&[3]]).1),
        Fault::RequestNotCanonical
    );

    let mut padded = runtime(DynamicIoOptions::new(4));
    let mut builder = ServingShapePlan::builder();
    builder.add_shape(vec![vec![4]], vec![vec![4]], OutputPolicy::HostBuffer);
    builder.fallback_policy(FallbackPolicy::PadToNearest {
        max_padding_waste_ratio: PaddingRatio::from_bits(1.0f32.to_bits()),
    });
    padded.install_shape_plan(builder.build().unwrap()).unwrap();
    assert_eq!(
        fault(padded.get_or_create_bucket([&[3]], [&[3]]).1),
        Fault::RequestNotCanonical
    );

    let mut graphs = runtime(on_device(false).with_cuda_graph(true));
    assert_eq!(
        fault(graphs.get_or_create_bucket([&[2]], [&[2]]).1),
        Fault::GraphWithoutPlan
    );
}

#[test]
fn caches_name_what_is_in_the_way() {
    let mut runtime = runtime(DynamicIoOptions::new(1));
    assert_eq!(
        fault(runtime.prepared_bucket_id([&[2]], [&[2]])),
        Fault::BucketNotPrepared
    );
    let index = bucket(&mut runtime, &[2]);
    let id = runtime.prepared_bucket_id([&[2]], [&[2]]).unwrap();
    let mut run = enqueue(&mut runtime, &[2]);
    assert_eq!(fault(runtime.enqueue_prepared(id).1), Fault::AllLanesInFlight);
    assert_eq!(
        fault(runtime.get_or_create_bucket([&[3]], [&[3]]).1),
        Fault::CacheFullInFlight
    );
    let refused = runtime.retire_bucket_at(index);
    assert!(matches!(refused, Retirement::Refused));
    assert_eq!(fault(refused.evicted()), Fault::EvictionRefused);
    assert_eq!(fault(runtime.start_clear().1), Fault::ClearWhileInFlight);

    let mut progress = run.synchronize();
    while let LaneProgress::Call(_) = progress {
        progress = run.answer(Ok(()));
    }
    let mut other = self::runtime(DynamicIoOptions::new(1));
    assert_eq!(fault(other.enqueue_prepared(id).1), Fault::BucketUnavailable);
    let (result, _) = other.complete_owned(run, Ok(()));
    assert_eq!(fault(result), Fault::BucketRetiredInFlight);

    bucket(&mut other, &[2]);
    let returned = other.return_detached_lane(id, host_lane());
    assert_eq!(
        fault(returned.map_err(|(error, _)| error)),
        Fault::LaneAccountingInconsistent
    );
}

#[test]
fn unfenced_buckets_are_reported() {
    let mut runtime = runtime(DynamicIoOptions::new(2));
    let index = bucket(&mut runtime, &[2]);
    queue(runtime.bucket_at(index).lane_mut(0).unwrap());
    runtime.start_clear().1.unwrap();
    let drained: Drained<i32, i32, 1, 1> = runtime.clear_buckets();
    assert_eq!(drained.leaked.len(), 1);
    assert_eq!(fault(drained.report()), Fault::ClearUnfenced);

    let index = bucket(&mut runtime, &[2]);
    queue(runtime.bucket_at(index).lane_mut(0).unwrap());
    let leaked = runtime.retire_bucket_at(index);
    assert!(matches!(leaked, Retirement::Leaked(_)));
    assert!(leaked.evicted().is_ok());
}

#[test]
fn sizes_do_not_overflow() {
    let (cpu, cuda) = (MemoryInfo::cpu(), MemoryInfo::cuda(0));
    let huge = AllocatedTensor::<i64>::new(&cuda, &[i64::MAX], Ok(())).unwrap();
    assert_eq!(fault(huge.byte_len()), Fault::AllocatedBytesOverflow);
    assert_eq!(
        fault(TensorBuffer::<i64>::zeros_aligned(&[i64::MAX], 64, &cpu, BufferReplies::granted())),
        Fault::AlignedBytesOverflow
    );
    assert_eq!(
        fault(TensorBuffer::<u8>::zeros_aligned(&[i64::MAX], 4096, &cpu, BufferReplies::granted())),
        Fault::AlignedLayoutInvalid
    );
    assert_eq!(fault(mapped_bytes::<i64>(&[i64::MAX])), Fault::MmapBytesOverflow);
    assert_eq!(fault(file_range(10, u64::MAX, 5, "m.bin".to_owned())), Fault::MmapRangeOverflow);
    assert_eq!(
        fault(map_file_range(
            FileRange {
                start: 5,
                bytes: usize::MAX
            },
            4096
        )),
        Fault::MmapLengthOverflow
    );
}

#[test]
fn lengths_follow_shapes() {
    assert!(matches!(
        validate_shape_len(&[2, 3], 5),
        Err(Error::ShapeLength {
            expected: 6,
            got: 5
        })
    ));
    assert!(matches!(
        validate_packed_bytes_len(&[2], ElementType::Int32, 8),
        Err(Error::NotPacked {
            element_type: ElementType::Int32
        })
    ));
    assert!(matches!(
        validate_packed_bytes_len(&[3], ElementType::Int4, 1),
        Err(Error::PackedLength {
            element_type: ElementType::Int4,
            expected: 2,
            count: 3,
            got: 1
        })
    ));
    assert!(validate_packed_bytes_len(&[3], ElementType::Int4, 2).is_ok());
}

#[test]
fn slices_stay_in_host_memory() {
    let cuda = MemoryInfo::cuda(1);
    assert!(matches!(
        ensure_memory_host_accessible(&cuda),
        Err(Error::SliceMemoryNotHost { memory }) if memory.device_id == 1
    ));
    assert!(matches!(
        ensure_value_host_accessible(&cuda),
        Err(Error::TensorMemoryNotHost { memory }) if memory.device_id == 1
    ));
    assert!(ensure_value_host_accessible(&MemoryInfo::cpu()).is_ok());
}

#[test]
fn sparse_indices_fit_their_shapes() {
    assert_eq!(
        fault(validate_coo_indices(usize::MAX, 2, 2)),
        Fault::CooLengthOverflow
    );
    assert_eq!(fault(validate_csr_indices(1, &[], 1, 1)), Fault::CsrRankZero);
    assert_eq!(
        fault(validate_csr_indices(1, &[-1, 2], 1, 1)),
        Fault::CsrDynamicRows
    );
    assert!(matches!(
        validate_csr_indices(1, &[2, 2], 1, 2),
        Err(Error::CsrOuterLength {
            expected: 3,
            got: 2
        })
    ));
    let blocks = SparseTensor::<i32>::copy_block_sparse(
        &[1, 2, 3, 4],
        &[2, 2],
        &[1, 2, 2],
        &[2],
        &[0, 0],
        SparseReplies::granted(),
    )
    .unwrap();
    assert_eq!(
        fault(blocks.indices_i64(SparseIndicesFormat::BlockSparse, Ok(()))),
        Fault::BlockIndicesAreI32
    );
    assert_eq!(blocks.block_sparse_indices(Ok(())).unwrap(), &[0, 0]);
    let refused = Err(Error::new(2, "no such indices".to_owned()));
    assert!(matches!(
        blocks.indices_i64(SparseIndicesFormat::Coo, refused),
        Err(Error::Engine { code: 2, .. })
    ));
}

#[test]
fn values_are_read_as_what_they_are() {
    let value = |onnx_type, elem_type| OwnedValue {
        value: 3,
        onnx_type,
        elem_type,
        count: 2,
    };
    let cpu = MemoryInfo::cpu();
    let tensor = value(OnnxType::Tensor, ElementType::Int32);
    assert!(tensor.check_slice::<i32>(&cpu).is_ok());
    assert!(matches!(
        tensor.check_slice::<i64>(&cpu),
        Err(Error::TypeMismatch {
            requested: ElementType::Int64,
            actual: ElementType::Int32,
            ..
        })
    ));
    assert!(matches!(
        tensor.check_strings(),
        Err(Error::NotStrings {
            actual: ElementType::Int32
        })
    ));
    let list = value(OnnxType::Sequence, ElementType::Undefined);
    assert!(matches!(
        list.check_slice::<i32>(&cpu),
        Err(Error::NotATensor {
            access: Access::Slice,
            kind: OnnxType::Sequence
        })
    ));
    assert!(matches!(
        list.get_value(2, Ok(2)),
        Err(Error::ValueIndexOutOfRange { index: 2, count: 2 })
    ));
    assert_eq!(
        fault(list.get_value(1 << 31, Ok(usize::MAX))),
        Fault::ValueIndexOverflow
    );
    assert_eq!(list.get_value(1, Ok(2)).unwrap(), 1);
    assert!(matches!(
        list.into_device_value(),
        Err(Error::DeviceValueNotTensor {
            kind: OnnxType::Sequence
        })
    ));
}

#[test]
fn threading_options_refuse_bad_texts() {
    assert_eq!(
        fault(ThreadingOptions::new().with_intra_thread_affinity("1\0")),
        Fault::ThreadAffinityNul
    );
    let managed = ThreadingOptions::new().with_thread_manager(7).unwrap();
    assert_eq!(
        fault(managed.with_thread_manager(8)),
        Fault::ThreadManagerConfigured
    );
}

#[test]
fn setups_need_a_session_and_names() {
    let replies = |names| SetupReplies {
        input_names: Ok(names),
        output_names: Ok(Vec::new()),
        input_types: Vec::new(),
        output_types: Vec::new(),
        run_options: Ok(()),
    };
    let failed = Session::from_handle_with_resources(0, 3, replies(Vec::new()), Vec::new());
    assert_eq!(
        fault(failed.map_err(|failure| failure.error)),
        Fault::SessionNull
    );
    let failed = Session::from_handle_with_resources(5, 3, replies(vec![Ok(None)]), Vec::new());
    assert_eq!(
        fault(failed.map_err(|failure| failure.error)),
        Fault::IoNameNull
    );
}
