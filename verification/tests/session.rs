//! Sessions: their interface, runs, copies, lanes and captured graphs.
use st_zrt::calls::CallPlan;
use st_zrt::element::{ElementType, OnnxType};
use st_zrt::error::{Error, Fault};
use st_zrt::memory::MemoryInfo;
use st_zrt::runtime::audit::IoDirection;
use st_zrt::runtime::lane_build::BuildCall;
use st_zrt::runtime::options::CudaStream;
use st_zrt::session::async_run::{AsyncReply, AsyncState, RunPoll};
use st_zrt::session::binding::BindingCall;
use st_zrt::session::copy::{try_host_copy_tensor_handles, HostPair};
use st_zrt::session::create::{CreateCall, EditorReply, Finalizing, ModelSource};
use st_zrt::session::graph_lease::{
    CapturedGraphLease, GraphIds, GraphLeases, LeaseAttempt, RunEnd,
};
use st_zrt::session::placement::{
    ep_device_snapshot, run_with_allocator_stats, AllocatorStats, DeviceReport,
    ExecutionProviderDeviceSnapshot, PlacementReplies,
};
use st_zrt::session::session::{Session, SetupReplies, TypeReport};
use st_zrt::session_options::SessionOptions;
use st_zrt::tensor::value::{DeviceValue, OwnedValue};
use std::sync::atomic::{AtomicUsize, Ordering};
use std::sync::Arc;
use std::task::{Wake, Waker};

fn failure(text: &str) -> Error {
    Error::new(7, text.to_owned())
}

fn tensor(dims: &[i64]) -> TypeReport {
    TypeReport::Tensor {
        elem_type: ElementType::Float,
        dims: dims.to_vec(),
        symbolic: dims.iter().map(|_| None).collect(),
    }
}

fn replies(inputs: &[&[i64]], outputs: &[&[i64]]) -> SetupReplies {
    let names = |prefix: &str, count: usize| {
        Ok((0..count)
            .map(|i| Ok(Some(format!("{prefix}{i}").into_bytes())))
            .collect())
    };
    SetupReplies {
        input_names: names("in", inputs.len()),
        output_names: names("out", outputs.len()),
        input_types: inputs.iter().map(|dims| Ok(tensor(dims))).collect(),
        output_types: outputs.iter().map(|dims| Ok(tensor(dims))).collect(),
        run_options: Ok(()),
    }
}

fn session(inputs: &[&[i64]], outputs: &[&[i64]]) -> Session {
    Session::from_handle_with_resources(5, 3, replies(inputs, outputs), Vec::new()).unwrap()
}

fn drain<C: Copy>(plan: CallPlan<C>) -> Vec<C> {
    let mut plan = plan;
    let mut made = Vec::new();
    while let Some(call) = plan.next().copied() {
        made.push(call);
        plan = plan.answer(Ok(())).unwrap();
    }
    made
}

#[test]
fn graph_lease_release_waits_for_all_runs_and_blocks_new_runs() {
    let mut lease = CapturedGraphLease::new();
    assert_eq!(lease.begin_run(), LeaseAttempt::Granted);
    assert_eq!(lease.begin_run(), LeaseAttempt::Granted);
    lease.begin_release();
    assert!(lease.releasing);
    assert_eq!(lease.active, 2);
    assert_eq!(lease.begin_run(), LeaseAttempt::Wait);
    assert!(!lease.is_drained());
    assert_eq!(lease.end_run(), RunEnd::Done);
    assert_eq!(lease.end_run(), RunEnd::WakeRelease);
    assert!(lease.is_drained());
    lease.end_release();
    assert_eq!(lease.begin_run(), LeaseAttempt::Granted);
    lease.end_run();
}

#[test]
fn graph_leases_for_different_ids_do_not_couple() {
    let mut leases = GraphLeases::new();
    assert_eq!(leases.begin_run(1), LeaseAttempt::Granted);
    leases.begin_release(1);
    assert!(leases.captured_graph_lease(1).releasing);
    assert_eq!(leases.begin_run(2), LeaseAttempt::Granted);
    assert_eq!(leases.captured_graph_lease(2).active, 1);
    leases.end_run(2);
    leases.end_run(1);
    assert!(leases.is_drained(1));
}

#[test]
fn corrupted_graph_run_guard_drop_does_not_underflow_or_panic() {
    let mut lease = CapturedGraphLease::new();
    assert_eq!(lease.end_run(), RunEnd::Unaccounted);
    assert_eq!(lease.active, 0);
    assert!(!lease.releasing);
}

#[test]
fn graph_lease_contended_runs_drain_without_underflow() {
    let mut lease = CapturedGraphLease::new();
    for _ in 0..1_000 {
        for _ in 0..8 {
            assert_eq!(lease.begin_run(), LeaseAttempt::Granted);
        }
        for _ in 0..8 {
            assert_eq!(lease.end_run(), RunEnd::Done);
        }
    }
    assert_eq!(lease.active, 0);
    lease.begin_release();
    assert!(lease.is_drained());
    lease.end_release();
    assert_eq!(lease.active, 0);
    assert!(!lease.releasing);
}

#[test]
fn graph_ids_are_given_once() {
    let mut ids = GraphIds::new();
    let first = ids.allocate_captured_graph_id().unwrap();
    let second = ids.allocate_captured_graph_id().unwrap();
    assert_ne!(first, second);
}

#[test]
fn setup_failures_release_the_handle() {
    let mut broken = replies(&[&[1]], &[&[1]]);
    broken.output_types = vec![Err(failure("no type"))];
    let error = Session::from_handle_with_resources(5, 3, broken, Vec::new()).unwrap_err();
    assert_eq!(error.release, Some(5));
    assert_eq!(error.error.message(), "no type");
    let error =
        Session::from_handle_with_resources(0, 3, replies(&[], &[]), Vec::new()).unwrap_err();
    assert_eq!(error.release, None);
}

#[test]
fn names_and_types_are_cached() {
    let session = session(&[&[1, 4], &[-1, 2]], &[&[3]]);
    assert_eq!(session.input_count(), 2);
    assert_eq!(session.output_count(), 1);
    assert_eq!(session.input_name(1).unwrap(), "in1");
    assert_eq!(session.output_shape(0).unwrap(), &[3]);
    assert_eq!(
        session.input_meta(0).unwrap(),
        (OnnxType::Tensor, ElementType::Float, Some(4))
    );
    assert_eq!(session.input_meta(1).unwrap().2, None);
    assert_eq!(
        session.input_name(2).unwrap_err().message(),
        "zrt: input index 2 out of range (2 inputs)"
    );
}

#[test]
fn names_must_be_text() {
    let mut odd = replies(&[&[1]], &[&[1]]);
    odd.input_names = Ok(vec![Ok(Some(vec![0xff]))]);
    let session = Session::from_handle_with_resources(5, 3, odd, Vec::new()).unwrap();
    assert_eq!(
        session.input_name(0).unwrap_err().message(),
        "zrt: input name 0 is not valid UTF-8"
    );
    assert!(session.prepare_io_binding(1, 1).is_err());
}

#[test]
fn runs_check_their_counts() {
    let session = session(&[&[1], &[1]], &[&[1]]);
    let arrays = session.run(vec![11, 12], 1).unwrap();
    assert_eq!(arrays.inputs, [11, 12]);
    assert_eq!(arrays.outputs, [0]);
    assert_eq!(
        session.run(vec![11], 1).unwrap_err().message(),
        "zrt: input count mismatch: expected 2, got 1"
    );
    assert_eq!(
        session.run(vec![11, 12], 2).unwrap_err().message(),
        "zrt: output slot count mismatch: expected 1, got 2"
    );
    assert!(matches!(
        session.run_with(vec![11], 1, Some(4)).unwrap_err(),
        Error::Fault(Fault::RunOptionsEnvironmentMismatch)
    ));
    assert!(session.run_array_with::<2, 1>([11, 12], Some(3)).is_ok());
}

#[test]
fn outputs_are_stamped_with_their_counts() {
    let session = session(&[], &[&[2, 3], &[-1]]);
    let mut slots = vec![None, None];
    session
        .stamp_outputs(&vec![21, 22], vec![Err(failure("unused")), Ok(9)], &mut slots)
        .unwrap();
    let first = slots[0].as_ref().unwrap();
    assert_eq!((first.value, first.count), (21, 6));
    let second = slots[1].as_ref().unwrap();
    assert_eq!((second.value, second.count), (22, 9));
}

#[test]
fn handles_without_an_owner_are_released() {
    let session = session(&[], &[&[1], &[-1], &[1], &[1]]);
    let mut slots = vec![None, None, None, None];
    let counts = vec![Ok(0), Err(failure("no count")), Ok(0), Ok(0)];
    let error = session
        .stamp_outputs(&vec![21, 22, 0, 24], counts, &mut slots)
        .unwrap_err();
    assert_eq!(error.error.message(), "no count");
    assert_eq!(error.release, [22, 24]);
    assert_eq!(slots[0].as_ref().unwrap().value, 21);
    assert!(slots[1].is_none() && slots[2].is_none() && slots[3].is_none());
}

#[test]
fn prepared_runs_drop_their_values_first() {
    let session = session(&[&[1]], &[&[2]]);
    let mut run = session.prepare_run(vec![11]).unwrap();
    assert!(run.output(0).unwrap().is_none());
    run.run();
    run.finish_run(&session, Ok(vec![31]), vec![Ok(0)]).unwrap();
    assert_eq!(run.output(0).unwrap().unwrap().value, 31);
    run.run();
    assert!(run.outputs()[0].is_none());
    assert_eq!(
        run.output(1).unwrap_err().message(),
        "zrt: output index 1 out of range"
    );
    assert!(session.prepare_run(vec![]).is_err());
}

#[test]
fn bindings_belong_to_their_session() {
    let session = session(&[&[1]], &[&[1]]);
    assert_eq!(
        drain(session.run_binding(5).unwrap()),
        [
            BindingCall::SynchronizeInputs,
            BindingCall::Run,
            BindingCall::SynchronizeOutputs
        ]
    );
    assert_eq!(
        drain(session.run_binding_unsynchronized(5).unwrap()),
        [BindingCall::Run]
    );
    assert!(matches!(
        session.run_binding(6).unwrap_err(),
        Error::Fault(Fault::BindingSessionMismatch)
    ));
    assert!(session.run_binding_with(5, Some(8)).is_err());
}

#[test]
fn failed_calls_end_a_plan() {
    let session = session(&[&[1]], &[&[1]]);
    let plan = session.run_binding(5).unwrap();
    let plan = plan.answer(Ok(())).unwrap();
    assert_eq!(plan.next(), Some(&BindingCall::Run));
    assert_eq!(
        plan.answer(Err(failure("run"))).unwrap_err().message(),
        "run"
    );
}

#[test]
fn lanes_are_prepared_with_zeroed_buffers() {
    let session = session(&[&[1, 2]], &[&[3]]);
    let mem = MemoryInfo::cpu();
    let (mut lane, plan) = session
        .prepare_tensor_io_lane::<i32>(&mem, &[&[1, 2]], &[&[3]])
        .unwrap();
    assert_eq!(drain(plan).len(), 5);
    assert_eq!(lane.input(0).unwrap(), &[0, 0]);
    lane.input_mut(0).unwrap()[1] = 4;
    assert_eq!(lane.input(0).unwrap(), &[0, 4]);
    assert_eq!(lane.output_buffer(0).unwrap().shape(), &[3]);
    assert_eq!(
        lane.output(1).unwrap_err().message(),
        "zrt: lane output index 1 out of range"
    );
    assert_eq!(
        session
            .prepare_tensor_io_lane::<i32>(&mem, &[&[1, 2]], &[])
            .unwrap_err()
            .message(),
        "zrt: output shape count mismatch: expected 1, got 0"
    );
    assert_eq!(
        session
            .prepare_tensor_io_lanes::<i32>(&mem, &[&[1, 2]], &[&[3]], 3)
            .unwrap()
            .len(),
        3
    );
}

#[test]
fn allocated_lanes_live_in_their_memory() {
    let session = session(&[&[2]], &[&[2]]);
    let (cpu, cuda) = (MemoryInfo::cpu(), MemoryInfo::cuda(0));
    let (lane, plan) = session
        .prepare_allocated_output_tensor_io_lane::<i32>(&cpu, &cuda, &[&[2]], &[&[2]])
        .unwrap();
    assert!(drain(plan).contains(&BuildCall::CreateBinding));
    assert!(lane.output(0).is_err());
    assert_eq!(lane.output_tensor(0).unwrap().shape(), &[2]);
    assert_eq!(
        lane.input(4).unwrap_err().message(),
        "zrt: allocated-output lane input index 4 out of range"
    );
    let (mut lane, _) = session
        .prepare_allocated_tensor_io_lane::<i32>(&cpu, &cpu, &[&[2]], &[&[2]])
        .unwrap();
    lane.input_mut(0).unwrap()[0] = 3;
    assert_eq!(lane.input(0).unwrap(), &[3, 0]);
    assert!(session
        .prepare_allocated_tensor_io_lane::<i32>(&cpu, &cpu, &[&[-2]], &[&[2]])
        .is_err());
}

#[test]
fn device_output_lanes_take_the_values_of_a_run() {
    let session = session(&[&[2]], &[&[2]]);
    let cpu = MemoryInfo::cpu();
    let (mut lane, _) = session
        .prepare_device_output_tensor_io_lane::<i32>(&cpu, &MemoryInfo::cuda(2), &[&[2]])
        .unwrap();
    assert_eq!(lane.output_memory().device_id, 2);
    lane.run();
    assert!(lane.finish_run(Err(failure("gone"))).is_err());
    assert!(lane.outputs().is_empty());
    lane.finish_run(Ok(vec![value(41)])).unwrap();
    assert_eq!(lane.output(0).unwrap().value, 41);
    assert_eq!(
        lane.output(1).unwrap_err().message(),
        "zrt: device-output lane output index 1 out of range"
    );
}

#[test]
fn static_lanes_have_as_many_buffers_as_their_type() {
    let session = session(&[&[1], &[1]], &[&[1]]);
    let cpu = MemoryInfo::cpu();
    let (lane, _) = session
        .prepare_static_tensor_io_lane::<i32, 2, 1>(&cpu, [&[1], &[1]], [&[1]])
        .unwrap();
    assert_eq!(lane.inputs().len(), 2);
    assert_eq!(lane.outputs().len(), 1);
    assert!(session
        .prepare_static_tensor_io_lane::<i32, 1, 1>(&cpu, [&[1]], [&[1]])
        .is_err());
}

fn value(handle: u64) -> OwnedValue {
    OwnedValue {
        value: handle,
        onnx_type: OnnxType::Tensor,
        elem_type: ElementType::Int32,
        count: 1,
    }
}

fn pair(source: usize, destination: usize) -> HostPair {
    HostPair {
        source_on_host: Ok(true),
        destination_on_host: Ok(true),
        source_bytes: Ok(source),
        destination_bytes: Ok(destination),
        source_data: Ok(()),
        destination_data: Ok(()),
    }
}

#[test]
fn the_host_stands_in_for_a_failed_copy() {
    let session = session(&[], &[]);
    assert!(session
        .copy_value_to_tensor_buffer(Err(failure("no copy")), pair(8, 8))
        .is_ok());
    assert_eq!(
        session
            .copy_value_to_tensor_buffer(Err(failure("no copy")), pair(8, 4))
            .unwrap_err()
            .message(),
        "zrt: CopyTensors host fallback byte-size mismatch: source 8, destination 4"
    );
    let away = HostPair {
        source_on_host: Ok(false),
        ..pair(8, 8)
    };
    assert_eq!(
        DeviceValue::from_owned(value(1))
            .unwrap()
            .copy_to_tensor_buffer(&session, Err(failure("no copy")), away)
            .unwrap_err()
            .message(),
        "no copy"
    );
    assert_eq!(
        session
            .copy_tensor_handles(1, 2, Ok(()), vec![])
            .unwrap_err()
            .message(),
        "zrt: CopyTensors source/destination count mismatch: 1 vs 2"
    );
}

#[test]
fn host_copies_stop_at_the_first_pair_that_does_not_fit() {
    let copy = try_host_copy_tensor_handles(vec![pair(1, 1), pair(2, 2), pair(3, 4), pair(5, 5)]);
    assert_eq!(copy.copied, 2);
    assert!(copy.outcome.is_err());
    let copy = try_host_copy_tensor_handles(vec![pair(1, 1)]);
    assert_eq!(copy.copied, 1);
    assert!(matches!(copy.outcome, Ok(true)));
}

#[test]
fn copies_on_a_stream_have_no_stand_in() {
    let session = session(&[], &[]);
    assert_eq!(
        session
            .copy_value_to_tensor_buffer_on_stream(3, Err(failure("no copy")))
            .unwrap_err()
            .message(),
        "no copy"
    );
    assert!(matches!(
        session
            .copy_input_to_tensor_buffer_on_stream(4, Ok(()))
            .unwrap_err(),
        Error::Fault(Fault::StreamEnvironmentMismatch)
    ));
    assert_eq!(
        session
            .copy_tensor_handles_on_stream(1, 2, 3, Ok(()))
            .unwrap_err()
            .message(),
        "zrt: on-stream CopyTensors source/destination count mismatch: 1 vs 2"
    );
}

fn device(name: &str) -> Option<ExecutionProviderDeviceSnapshot> {
    Some(ExecutionProviderDeviceSnapshot {
        ep_name: name.to_owned(),
        ep_vendor: String::new(),
    })
}

#[test]
fn placement_lists_inputs_before_outputs() {
    let session = session(&[&[1, 2]], &[&[3]]);
    let placed = session
        .io_placement(PlacementReplies {
            input_memory: Ok(vec![MemoryInfo::cpu()]),
            output_memory: Ok(vec![MemoryInfo::cuda(1)]),
            input_devices: Ok(vec![None]),
            output_devices: Ok(vec![device("CUDA")]),
        })
        .unwrap();
    assert_eq!(placed.len(), 2);
    assert_eq!(placed[0].direction, IoDirection::Input);
    assert_eq!(placed[0].name, "in0");
    assert_eq!(placed[0].shape, [1, 2]);
    assert_eq!(placed[1].direction, IoDirection::Output);
    assert_eq!(placed[1].memory_info.device_id, 1);
    assert_eq!(placed[1].ep_device.as_ref().unwrap().ep_name, "CUDA");
    assert!(session
        .input_memory_info(0, Ok(vec![MemoryInfo::cpu()]))
        .is_ok());
    assert_eq!(
        session
            .output_ep_device(1, Ok(vec![None]))
            .unwrap_err()
            .message(),
        "zrt: output index 1 out of range (1 outputs)"
    );
}

#[test]
fn device_texts_may_be_missing() {
    assert!(ep_device_snapshot(None).unwrap().is_none());
    let snapshot = ep_device_snapshot(Some(DeviceReport {
        name: Some(Ok("CPU".to_owned())),
        vendor: None,
    }))
    .unwrap()
    .unwrap();
    assert_eq!(snapshot.ep_name, "CPU");
    assert_eq!(snapshot.ep_vendor, "");
    assert!(ep_device_snapshot(Some(DeviceReport {
        name: Some(Err(failure("text"))),
        vendor: None,
    }))
    .is_err());
}

#[test]
fn dynamic_options_hold_no_nul() {
    let session = session(&[], &[]);
    let (keys, values) = session
        .set_ep_dynamic_options(&[("a", "1"), ("b", "2")])
        .unwrap();
    assert_eq!(keys[1].as_str(), "b");
    assert_eq!(values[0].as_str(), "1");
    assert!(matches!(
        session
            .set_ep_dynamic_options(&[("a", "1\0"), ("b\0", "2")])
            .unwrap_err(),
        Error::Fault(Fault::DynamicKeyNul)
    ));
    assert!(matches!(
        session
            .set_ep_dynamic_options(&[("a", "1\0")])
            .unwrap_err(),
        Error::Fault(Fault::DynamicValueNul)
    ));
}

#[test]
fn profiles_have_a_path() {
    let session = session(&[], &[]);
    assert_eq!(
        session
            .end_profiling(Ok(Some(Ok("p.json".to_owned()))), Ok(()))
            .unwrap(),
        "p.json"
    );
    assert_eq!(
        session.end_profiling(Ok(None), Ok(())).unwrap_err().message(),
        "zrt: ORT returned null profiling path"
    );
    assert!(session
        .end_profiling(Ok(Some(Ok("p".to_owned()))), Err(failure("free")))
        .is_err());
    assert!(session.overridable_initializer_name(Ok(None)).is_err());
}

#[test]
fn allocator_counters_grow() {
    let stats = run_with_allocator_stats(
        Ok(AllocatorStats {
            counters: vec![1, i64::MIN],
        }),
        Ok(()),
        Ok(AllocatorStats {
            counters: vec![5, i64::MAX],
        }),
    )
    .unwrap();
    assert_eq!(stats.delta(), [4, (1i128 << 64) - 1]);
}

#[test]
fn sessions_are_created_after_their_initializers() {
    let options = SessionOptions::new();
    let plan = Session::new_with_owned_initializers(true, "model.onnx", &options, 2).unwrap();
    assert_eq!(plan.path.as_str(), "model.onnx");
    assert_eq!(
        drain(plan.calls),
        [
            CreateCall::AttachDevices,
            CreateCall::DisableSessionThreads,
            CreateCall::AddInitializer(0),
            CreateCall::AddInitializer(1),
            CreateCall::Create(ModelSource::Path, false),
        ]
    );
    let options = SessionOptions::new().use_per_session_threads();
    assert_eq!(
        drain(Session::from_bytes_with_prepacked_weights(true, &options)),
        [
            CreateCall::AttachDevices,
            CreateCall::Create(ModelSource::Bytes, true),
        ]
    );
    assert!(matches!(
        Session::new(false, "a\0", &options).unwrap_err(),
        Error::Fault(Fault::ModelPathNul)
    ));
}

#[test]
fn external_files_are_named() {
    let options = SessionOptions::new();
    let files = vec![("weights.bin".to_owned(), vec![1, 2])];
    let plan =
        Session::new_with_external_initializer_files(false, "m", &options, files).unwrap();
    assert_eq!(plan.files[0].0.as_str(), "weights.bin");
    assert_eq!(plan.files[0].1, [1, 2]);
    assert!(drain(plan.calls).contains(&CreateCall::AddInitializerFiles(1)));
    let files = vec![("w\0".to_owned(), vec![])];
    assert!(matches!(
        Session::new_with_external_initializer_files(false, "m", &options, files).unwrap_err(),
        Error::Fault(Fault::InitializerFileNul)
    ));
}

fn editor() -> EditorReply {
    EditorReply {
        api: true,
        function: Ok(()),
    }
}

#[test]
fn finalizing_keeps_each_stream_once() {
    let mut session = session(&[&[1]], &[&[1]]);
    let stream = |id| CudaStream { id, device_id: 0 };
    let streams = vec![stream(1), stream(2), stream(1)];
    let options = SessionOptions::new();
    assert!(matches!(
        session.finalize(true, editor(), &streams, Ok(()), &options),
        Finalizing::Failed(Error::Fault(Fault::FinalizeShared))
    ));
    assert!(!session.uses_cuda_stream(stream(1)));
    match session.finalize(false, editor(), &streams, Ok(()), &options) {
        Finalizing::Build(plan) => {
            let built = options.build_handle_for_session(Ok(())).unwrap();
            assert_eq!(drain(plan).len(), drain(built).len());
        },
        other => panic!("{other:?}"),
    }
    assert!(session.uses_cuda_stream(stream(1)) && session.uses_cuda_stream(stream(2)));
    assert!(matches!(
        session.finalize_with_options(Ok(())),
        Finalizing::Finalize
    ));
    assert!(matches!(
        session.finalize_answered(Ok(())),
        Finalizing::Describe
    ));
    assert!(matches!(
        session.finalize_described(false, replies(&[&[1], &[2]], &[&[1]])),
        Finalizing::Done
    ));
    assert_eq!(session.input_count(), 2);
    assert!(matches!(
        session.finalize_described(true, replies(&[], &[])),
        Finalizing::Failed(Error::Fault(Fault::SessionShared))
    ));
    assert_eq!(session.input_count(), 2);
}

#[test]
fn finalizing_stops_at_the_first_failure() {
    let mut session = session(&[&[1]], &[&[1]]);
    let stream = CudaStream {
        id: 1,
        device_id: 0,
    };
    let options = SessionOptions::new();
    let missing = EditorReply {
        api: false,
        function: Ok(()),
    };
    assert!(matches!(
        session.finalize(false, missing, &vec![stream], Ok(()), &options),
        Finalizing::Failed(Error::Fault(Fault::EditorApiUnavailable))
    ));
    let refused = EditorReply {
        api: true,
        function: Err(failure("no such function")),
    };
    assert!(matches!(
        session.finalize(false, refused, &vec![stream], Ok(()), &options),
        Finalizing::Failed(Error::Engine { .. })
    ));
    assert!(!session.uses_cuda_stream(stream));
    assert!(matches!(
        session.finalize(
            false,
            editor(),
            &vec![stream],
            Err(failure("no stream")),
            &options
        ),
        Finalizing::Failed(Error::Engine { .. })
    ));
    assert!(session.uses_cuda_stream(stream));
    assert!(matches!(
        session.finalize_with_options(Err(failure("no options"))),
        Finalizing::Failed(_)
    ));
    assert!(matches!(
        session.finalize_answered(Err(failure("invalid"))),
        Finalizing::Failed(_)
    ));
}

#[test]
fn edited_sessions_need_the_editor() {
    let options = SessionOptions::new();
    let plan = Session::from_bytes_for_editing(false, &options, editor()).unwrap();
    assert_eq!(
        drain(plan),
        [
            CreateCall::AttachDevices,
            CreateCall::Create(ModelSource::Editor, false),
        ]
    );
    let missing = EditorReply {
        api: false,
        function: Ok(()),
    };
    assert_eq!(
        Session::from_model(false, &options, missing)
            .unwrap_err()
            .message(),
        "ModelEditorApi unavailable"
    );
}

struct Counter(AtomicUsize);

impl Wake for Counter {
    fn wake(self: Arc<Self>) {
        self.0.fetch_add(1, Ordering::SeqCst);
    }
}

#[test]
fn completions_wake_the_polling_task_once() {
    let session = session(&[&[1]], &[&[1]]);
    let mut state: AsyncState<u64> = session
        .run_async(vec![11])
        .unwrap()
        .start(Ok(()))
        .unwrap();
    let counter = Arc::new(Counter(AtomicUsize::new(0)));
    let waker = Waker::from(counter.clone());
    assert!(matches!(state.poll(&waker), RunPoll::Pending));
    assert_eq!(counter.0.load(Ordering::SeqCst), 0);
    let woken = state
        .complete(AsyncReply::Outputs(Ok(vec![51])).outcome())
        .unwrap();
    assert!(woken.will_wake(&waker));
    woken.wake();
    assert_eq!(counter.0.load(Ordering::SeqCst), 1);
    match state.poll(&waker) {
        RunPoll::Ready(Ok(values)) => assert_eq!(values, [51]),
        other => panic!("{other:?}"),
    }
    match state.poll(&waker) {
        RunPoll::Ready(Err(error)) => {
            assert_eq!(error.message(), "zrt: async result already consumed")
        },
        other => panic!("{other:?}"),
    }
}

#[test]
fn completions_without_a_task_wake_nobody() {
    let session = session(&[&[1]], &[]);
    let mut state: AsyncState<u64> = session.run_async_owned_inputs(vec![value(9)]).unwrap();
    assert!(state.complete(AsyncReply::NoOutputs.outcome()).is_none());
    assert!(state.is_done());
    assert!(session.run_async::<u64>(vec![]).is_err());
    let state: AsyncState<u64> = session.run_async(vec![1]).unwrap();
    assert!(state.start(Err(failure("start"))).is_err());
}

#[test]
fn callbacks_report_their_failures() {
    let error = AsyncReply::<u64>::Panicked.outcome().unwrap_err();
    assert_eq!(error.code(), 1);
    assert_eq!(error.message(), "panic in RunAsync callback");
    let error = AsyncReply::<u64>::Status(Ok(())).outcome().unwrap_err();
    assert_eq!(error.message(), "RunAsync returned a non-null but Ok status");
    let error = AsyncReply::<u64>::Status(Err(failure("x"))).outcome().unwrap_err();
    assert_eq!((error.code(), error.message().as_str()), (7, "x"));
}
