//! Session options: what is set, the calls that hand it over, and how it is written down.
use st_zrt::error::{Error, Fault};
use st_zrt::serde_support::graph_opt;
use st_zrt::serde_support::record::{OptionsRecord, RecordError};
use st_zrt::session_options::{
    read_config_entry, ArenaState, ExecutionMode, ExecutionProviderDevicePolicy,
    GraphOptimizationLevel, LoggingLevel, MemPatternState, OptionStep, SessionOptions,
};
use st_zrt::threading::{ThreadCall, ThreadingOptions};

fn steps<'a>(options: &'a SessionOptions) -> Vec<OptionStep<'a>> {
    let mut plan = options.build_handle();
    let mut made = Vec::new();
    while let Some(step) = plan.next().copied() {
        made.push(step);
        plan = plan.answer(Ok(())).unwrap();
    }
    made
}

#[test]
fn advanced_options_build_handle() {
    let opts = SessionOptions::new()
        .with_opt_level(GraphOptimizationLevel::All)
        .with_intra_threads(1)
        .with_inter_threads(1)
        .with_parallel_execution()
        .with_log_id("advanced-options")
        .expect("log id")
        .with_log_severity(LoggingLevel::Verbose)
        .with_log_verbosity(1)
        .with_free_dimension_override("DATA_BATCH", 4)
        .expect("free dim denotation")
        .with_free_dimension_override_by_name("batch", 4)
        .expect("free dim name")
        .with_intra_op_spinning(false)
        .expect("intra spin")
        .with_inter_op_spinning(false)
        .expect("inter spin");

    let made = steps(&opts);
    assert_eq!(made.len(), 12);
    assert!(matches!(
        made[0],
        OptionStep::GraphOptimization(GraphOptimizationLevel::All)
    ));
    assert!(matches!(made[1], OptionStep::IntraThreads(1)));
    assert!(matches!(made[2], OptionStep::InterThreads(1)));
    assert!(matches!(
        made[3],
        OptionStep::Execution(ExecutionMode::Parallel)
    ));
    assert!(matches!(made[4], OptionStep::LogId(id) if id.as_str() == "advanced-options"));
    assert!(matches!(made[5], OptionStep::LogSeverity(0)));
    assert!(matches!(made[6], OptionStep::LogVerbosity(1)));
    assert!(matches!(made[7], OptionStep::DisableProfiling));
    assert!(matches!(made[8], OptionStep::FreeDimension(name, 4) if name.as_str() == "DATA_BATCH"));
    assert!(matches!(made[9], OptionStep::FreeDimensionByName(name, 4) if name.as_str() == "batch"));
    assert!(matches!(made[10], OptionStep::ConfigEntry(key, value)
        if key.as_str() == "session.intra_op.allow_spinning" && value.as_str() == "0"));
    assert!(matches!(made[11], OptionStep::ConfigEntry(key, value)
        if key.as_str() == "session.inter_op.allow_spinning" && value.as_str() == "0"));
}

#[test]
fn build_handle_query_path_does_not_leak_logger_arc() {
    let mut opts = SessionOptions::new();
    opts.with_user_logging_function(77);
    for _ in 0..4 {
        assert!(!steps(&opts)
            .iter()
            .any(|step| matches!(step, OptionStep::UserLogger(_))));
    }
    let mut plan = opts.build_handle_for_session(Ok(())).unwrap();
    let mut attached = 0;
    while let Some(step) = plan.next().copied() {
        if matches!(step, OptionStep::UserLogger(77)) {
            attached += 1;
        }
        plan = plan.answer(Ok(())).unwrap();
    }
    assert_eq!(attached, 1);
}

#[test]
fn ep_selection_policy_reaches_ffi() {
    let opts =
        SessionOptions::new().with_ep_selection_policy(ExecutionProviderDevicePolicy(0));
    assert!(steps(&opts).iter().any(|step| matches!(
        step,
        OptionStep::SelectionPolicy(ExecutionProviderDevicePolicy(0))
    )));
}

#[test]
fn session_options_enable_ort_custom_ops_reaches_ffi() {
    let opts = SessionOptions::new().with_enable_ort_custom_ops();
    assert!(steps(&opts)
        .iter()
        .any(|step| matches!(step, OptionStep::EnableCustomOps)));
}

#[test]
fn session_options_custom_op_registration_paths_reach_ffi() {
    let opts = SessionOptions::new()
        .with_register_custom_ops_library("/nonexistent/libcustom.so")
        .expect("v2 path")
        .with_register_custom_ops_library_v1("/nonexistent/libcustom.so")
        .expect("v1 path")
        .with_register_custom_ops_using_function("NoSuchRegisterFn")
        .expect("func name");
    let made = steps(&opts);
    let at = made
        .iter()
        .position(|step| matches!(step, OptionStep::CustomOpLibrary(_)))
        .unwrap();
    assert!(matches!(made[at], OptionStep::CustomOpLibrary(path)
        if path.as_str() == "/nonexistent/libcustom.so"));
    assert!(matches!(made[at + 1], OptionStep::CustomOpLibraryV1(_)));
    assert!(matches!(made[at + 2], OptionStep::CustomOpFunction(name)
        if name.as_str() == "NoSuchRegisterFn"));
    let mut plan = opts.build_handle();
    for _ in 0..at {
        plan = plan.answer(Ok(())).unwrap();
    }
    assert!(plan
        .answer(Err(Error::new(1, "no such library".to_owned())))
        .is_err());
}

#[test]
fn session_options_t2_12_knobs_round_trip() {
    let opts = SessionOptions::new()
        .with_deterministic_compute(true)
        .with_load_cancellation_flag(false)
        .with_optimized_model_file_path("/tmp/zrt-optimized.onnx")
        .expect("optimized path")
        .with_execution_mode(ExecutionMode::Parallel);
    let made = steps(&opts);
    assert!(made
        .iter()
        .any(|step| matches!(step, OptionStep::Deterministic(true))));
    assert!(made
        .iter()
        .any(|step| matches!(step, OptionStep::LoadCancellation(false))));
    assert!(made
        .iter()
        .any(|step| matches!(step, OptionStep::OptimizedModelPath(path)
            if path.as_str() == "/tmp/zrt-optimized.onnx")));
    assert_eq!(opts.execution_mode, Some(ExecutionMode::Parallel));
    let set = made
        .iter()
        .find_map(|step| match step {
            OptionStep::Execution(mode) => Some(*mode),
            _ => None,
        })
        .expect("execution mode step");
    assert_eq!(
        opts.execution_mode(Ok(()), Ok(set)).expect("execution mode"),
        ExecutionMode::Parallel
    );
    assert!(!made
        .iter()
        .any(|step| matches!(step, OptionStep::DisableMemPattern)));
    assert!(opts.mem_pattern_enabled(Ok(()), Ok(1)).unwrap());
    assert_eq!(
        opts.clone_ort_handle(Ok(()), Ok(9)).expect("cloned handle"),
        9
    );
    assert!(matches!(
        opts.clone_ort_handle(Ok(()), Ok(0)),
        Err(Error::Fault(Fault::ClonedOptionsNull))
    ));
}

#[test]
fn session_options_config_entry_round_trip() {
    let opts = SessionOptions::new()
        .with_config_entry("zrt.test.key", "abc-123")
        .expect("config entry");
    let made = steps(&opts);
    let written = made
        .iter()
        .find_map(|step| match step {
            OptionStep::ConfigEntry(key, value) if key.as_str() == "zrt.test.key" => {
                Some(value.as_str())
            },
            _ => None,
        })
        .expect("set entry");
    let mut bytes = written.as_bytes().to_vec();
    bytes.push(0);
    assert_eq!(
        opts.config_entry("zrt.test.key", Ok(()), bytes.len(), Ok(bytes))
            .expect("read entry"),
        Some("abc-123".to_string())
    );
    assert_eq!(
        opts.config_entry("zrt.absent.key", Ok(()), 0, Ok(vec![]))
            .expect("read absent"),
        None
    );
    let listed = made
        .iter()
        .filter_map(|step| match step {
            OptionStep::ConfigEntry(key, value) => {
                Some((key.as_str().to_string(), value.as_str().to_string()))
            },
            _ => None,
        })
        .collect();
    let entries = opts
        .config_entries(Ok(()), Ok(Some(listed)))
        .expect("config entries snapshot");
    assert_eq!(
        entries,
        vec![("zrt.test.key".to_string(), "abc-123".to_string())]
    );
    assert!(opts.config_entries(Ok(()), Ok(None)).unwrap().is_empty());
}

#[test]
fn session_options_round_trip() {
    let opts = SessionOptions::new()
        .with_opt_level(GraphOptimizationLevel::Extended)
        .with_intra_threads(4)
        .with_inter_threads(2)
        .with_parallel_execution()
        .with_log_id("serde-session")
        .expect("log id")
        .with_log_severity(LoggingLevel::Warning)
        .with_log_verbosity(2)
        .disable_cpu_mem_arena()
        .disable_mem_pattern()
        .with_free_dimension_override("DATA_BATCH", 4)
        .expect("free dim denotation")
        .with_free_dimension_override_by_name("batch", 4)
        .expect("free dim name")
        .with_intra_op_spinning(false)
        .expect("intra spinning")
        .with_inter_op_spinning(false)
        .expect("inter spinning")
        .with_config_entry("session.run", "1")
        .expect("config entry");

    let record = OptionsRecord::from_options(&opts);
    assert_eq!(record.opt_level, 2);
    assert!(record
        .config_entries
        .iter()
        .any(|(key, _)| key == "session.run"));
    assert_eq!(record.log_id.as_deref(), Some("serde-session"));
    assert_eq!(record.log_severity, Some(2));
    assert_eq!(record.log_verbosity, Some(2));

    let back = record.into_options().expect("read back");
    assert!(back.thread_handlers.is_none());
    assert!(back.ep_selection_delegate.is_none());
    assert_eq!(back.opt_level, GraphOptimizationLevel::Extended);
    assert_eq!(back.intra_threads, Some(4));
    assert_eq!(back.inter_threads, Some(2));
    assert_eq!(back.execution_mode, None);
    assert_eq!(
        back.log_id.as_ref().map(|id| id.as_str()),
        Some("serde-session")
    );
    assert_eq!(back.log_severity, Some(LoggingLevel::Warning.number()));
    assert_eq!(back.log_verbosity, Some(2));
    assert_eq!(back.cpu_mem_arena, ArenaState::Disabled);
    assert_eq!(back.mem_pattern, MemPatternState::Disabled);
    assert_eq!(
        back.free_dimension_overrides
            .iter()
            .filter(|(k, _)| k.as_str() == "DATA_BATCH")
            .count(),
        1
    );
    assert_eq!(
        back.free_dimension_overrides_by_name
            .iter()
            .filter(|(k, _)| k.as_str() == "batch")
            .count(),
        1
    );
    assert_eq!(
        back.config_entries
            .iter()
            .filter(|(k, _)| k.as_str() == "session.run")
            .count(),
        1
    );
    assert!(!steps(&back).is_empty());

    let enabled = SessionOptions::new()
        .with_cpu_mem_arena(ArenaState::Enabled)
        .with_mem_pattern(MemPatternState::Enabled);
    assert_eq!(enabled.cpu_mem_arena, ArenaState::Enabled);
    assert_eq!(enabled.mem_pattern, MemPatternState::Enabled);
    let made = steps(&enabled);
    assert!(made
        .iter()
        .any(|step| matches!(step, OptionStep::EnableArena)));
    assert!(made
        .iter()
        .any(|step| matches!(step, OptionStep::EnableMemPattern)));
}

#[test]
fn texts_with_a_nul_are_refused_where_it_stands() {
    let error = SessionOptions::new().with_log_id("hé\0").unwrap_err();
    assert_eq!(error.position, 3);
    assert_eq!(
        error.message(),
        "nul byte found in provided data at position: 3"
    );
    let error = SessionOptions::new()
        .with_config_entry("key", "\0")
        .unwrap_err();
    assert_eq!(error.position, 0);
}

#[test]
fn unknown_levels_are_refused() {
    let error = graph_opt::deserialize(4).unwrap_err();
    assert_eq!(
        error.message(),
        "unknown GraphOptimizationLevel discriminant: 4"
    );
    for number in [0, 1, 2, 3, 99] {
        let level = graph_opt::deserialize(number).unwrap();
        assert_eq!(graph_opt::serialize(&level), number);
    }
}

#[test]
fn records_name_what_they_refuse() {
    let mut record = OptionsRecord::from_options(&SessionOptions::new());
    record.opt_level = 5;
    assert!(matches!(
        record.into_options().unwrap_err(),
        RecordError::Level(error) if error.number == 5
    ));
    let mut record = OptionsRecord::from_options(&SessionOptions::new());
    record.config_entries = vec![
        ("a".to_owned(), "b".to_owned()),
        ("c".to_owned(), "de\0".to_owned()),
    ];
    assert!(matches!(
        record.into_options().unwrap_err(),
        RecordError::Nul(error) if error.position == 2
    ));
}

#[test]
fn entries_end_at_the_first_nul() {
    assert_eq!(
        read_config_entry(5, Ok(b"ab\0cd".to_vec())).unwrap(),
        Some("ab".to_owned())
    );
    assert_eq!(
        read_config_entry(2, Ok(b"ab".to_vec())).unwrap(),
        Some("ab".to_owned())
    );
    assert_eq!(
        read_config_entry(1, Ok(vec![0xff])).unwrap_err().message(),
        "zrt: session config entry is not valid UTF-8"
    );
    let opts = SessionOptions::new();
    assert!(matches!(
        opts.has_config_entry("k\0", Ok(()), Ok(1)).unwrap_err(),
        Error::Fault(Fault::ConfigKeyNul)
    ));
    assert!(opts.has_config_entry("k", Ok(()), Ok(1)).unwrap());
}

#[test]
fn threading_options_keep_their_order() {
    let options = ThreadingOptions::new()
        .with_intra_threads(4)
        .disable_spinning()
        .with_intra_thread_affinity("1;2;3")
        .unwrap()
        .with_thread_manager(8)
        .unwrap();
    let calls = options.calls();
    assert_eq!(calls.len(), 6);
    assert!(matches!(calls[0], ThreadCall::IntraThreads(4)));
    assert!(matches!(calls[1], ThreadCall::SpinControl(0)));
    assert!(matches!(&calls[2], ThreadCall::IntraAffinity(text) if text.as_str() == "1;2;3"));
    assert!(matches!(calls[3], ThreadCall::CreationOptions(8)));
    assert_eq!(
        options.with_thread_manager(9).unwrap_err().message(),
        "zrt: global thread manager already configured"
    );
    assert_eq!(
        ThreadingOptions::new()
            .with_intra_thread_affinity("1\0")
            .unwrap_err()
            .message(),
        "thread affinity contains a NUL byte"
    );
}

#[test]
fn providers_are_written_down() {
    let mut opts = SessionOptions::new();
    opts.ep_configs = vec![7, 3];
    opts.migraphx = vec![4];
    opts.openvino = vec![5, 5];
    let record = OptionsRecord::from_options(&opts);
    assert_eq!(record.ep_configs, [7, 3]);
    let back = record.into_options().unwrap();
    assert_eq!(back.ep_configs, [7, 3]);
    assert_eq!(back.migraphx, [4]);
    assert_eq!(back.openvino, [5, 5]);
}

#[test]
fn cloned_options_are_the_same_options() {
    let options = SessionOptions::new()
        .with_intra_threads(3)
        .with_log_id("id")
        .unwrap()
        .with_config_entry("key", "value")
        .unwrap()
        .with_free_dimension_override("batch", 8)
        .unwrap()
        .with_register_custom_ops_library("ops.so")
        .unwrap();
    let copy = options.clone();
    assert_eq!(format!("{copy:?}"), format!("{options:?}"));
    let changed = copy.with_config_entry("other", "value").unwrap();
    assert_eq!(changed.config_entries.len(), 2);
    assert_eq!(options.config_entries.len(), 1);
}
