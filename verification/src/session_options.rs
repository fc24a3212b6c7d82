//! The configuration of a session, as plain values, and the calls that hand it to the engine.
//!
//! Building a configuration makes no call. The calls come later, in a fixed order, when a session
//! is made or the engine is asked about the configuration.
use vstd::prelude::*;

use crate::calls::CallPlan;
use crate::error::{fail, Error, Fault};
use crate::text::{contains_nul, utf8_text, CText, NulError};

verus! {

/// How far the engine rewrites the graph.
#[derive(Debug, Clone, Copy, PartialEq, Eq, Structural)]
pub enum GraphOptimizationLevel {
    /// No rewriting.
    DisableAll,
    /// Rewriting that keeps the graph's meaning for every provider.
    Basic,
    /// Also the rewriting for some providers.
    Extended,
    /// Also the rewriting of layouts.
    Layout,
    /// All rewriting.
    All,
}

impl GraphOptimizationLevel {
    /// The engine's number of the level.
    pub open spec fn spec_discriminant(self) -> i32 {
        match self {
            GraphOptimizationLevel::DisableAll => 0i32,
            GraphOptimizationLevel::Basic => 1i32,
            GraphOptimizationLevel::Extended => 2i32,
            GraphOptimizationLevel::Layout => 3i32,
            GraphOptimizationLevel::All => 99i32,
        }
    }

    /// The engine's number of the level.
    pub fn discriminant(self) -> (number: i32)
        ensures
            number == self.spec_discriminant(),
    {
        match self {
            GraphOptimizationLevel::DisableAll => 0,
            GraphOptimizationLevel::Basic => 1,
            GraphOptimizationLevel::Extended => 2,
            GraphOptimizationLevel::Layout => 3,
            GraphOptimizationLevel::All => 99,
        }
    }
}

/// How the engine walks the graph.
#[derive(Debug, Clone, Copy, PartialEq, Eq, Structural)]
pub enum ExecutionMode {
    /// One node after the other.
    Sequential,
    /// Independent branches side by side.
    Parallel,
}

/// From which severity on the engine logs.
#[derive(Debug, Clone, Copy, PartialEq, Eq, Structural)]
pub enum LoggingLevel {
    /// Everything.
    Verbose,
    /// Information.
    Info,
    /// Warnings.
    Warning,
    /// Errors.
    Error,
    /// Fatal errors.
    Fatal,
}

impl LoggingLevel {
    /// The engine's number of the level.
    pub open spec fn spec_number(self) -> i32 {
        match self {
            LoggingLevel::Verbose => 0i32,
            LoggingLevel::Info => 1i32,
            LoggingLevel::Warning => 2i32,
            LoggingLevel::Error => 3i32,
            LoggingLevel::Fatal => 4i32,
        }
    }

    /// The engine's number of the level.
    pub fn number(self) -> (number: i32)
        ensures
            number == self.spec_number(),
    {
        match self {
            LoggingLevel::Verbose => 0,
            LoggingLevel::Info => 1,
            LoggingLevel::Warning => 2,
            LoggingLevel::Error => 3,
            LoggingLevel::Fatal => 4,
        }
    }
}

/// The engine's number of a policy by which it selects devices.
#[derive(Debug, Clone, Copy, PartialEq, Eq, Structural)]
pub struct ExecutionProviderDevicePolicy(pub i32);

/// Whether the engine keeps an arena for memory of the processor.
#[derive(Debug, Clone, Copy, PartialEq, Eq, Structural)]
pub enum ArenaState {
    /// As the engine decides: it keeps one.
    Default,
    /// It keeps one.
    Enabled,
    /// It allocates from the system.
    Disabled,
}

impl Default for ArenaState {
    fn default() -> (state: ArenaState)
        ensures
            state == ArenaState::Default,
    {
        ArenaState::Default
    }
}

/// Whether the engine plans memory from the patterns of earlier runs.
#[derive(Debug, Clone, Copy, PartialEq, Eq, Structural)]
pub enum MemPatternState {
    /// As the engine decides: it does where it can.
    Default,
    /// It does.
    Enabled,
    /// It does not.
    Disabled,
}

impl Default for MemPatternState {
    fn default() -> (state: MemPatternState)
        ensures
            state == MemPatternState::Default,
    {
        MemPatternState::Default
    }
}

/// The callbacks that make and join the threads of a session, and the state that the first is given.
#[derive(Debug, Clone, Copy, PartialEq, Eq, Structural)]
pub struct ThreadHandlers {
    /// The callback that makes a thread.
    pub create: u64,
    /// The callback that joins one.
    pub join: u64,
    /// The state for the first; null is zero.
    pub creation_options: u64,
}

/// The callback that selects devices, and the state that it is given.
#[derive(Debug, Clone, Copy, PartialEq, Eq, Structural)]
pub struct SelectionDelegate {
    /// The callback.
    pub delegate: u64,
    /// The state for it; null is zero.
    pub state: u64,
}

/// The configuration of a session.
#[derive(Debug)]
pub struct SessionOptions {
    /// How far the graph is rewritten.
    pub opt_level: GraphOptimizationLevel,
    /// The threads within a node.
    pub intra_threads: Option<i32>,
    /// The threads across nodes.
    pub inter_threads: Option<i32>,
    /// How the graph is walked.
    pub execution_mode: Option<ExecutionMode>,
    /// The name that messages carry.
    pub log_id: Option<CText>,
    /// From which severity on messages are logged.
    pub log_severity: Option<i32>,
    /// How verbose messages are.
    pub log_verbosity: Option<i32>,
    /// The handle of the logging callback.
    pub user_logger: Option<u64>,
    /// Whether an arena is kept.
    pub cpu_mem_arena: ArenaState,
    /// Whether memory is planned from patterns.
    pub mem_pattern: MemPatternState,
    /// Whether the environment's threads are used where it has some.
    pub use_global_thread_pool: bool,
    /// The prefix of the profile file.
    pub profiling_prefix: Option<CText>,
    /// The values of dimensions, by denotation.
    pub free_dimension_overrides: Vec<(CText, i64)>,
    /// The values of dimensions, by name.
    pub free_dimension_overrides_by_name: Vec<(CText, i64)>,
    /// The entries, in the order in which they were added.
    pub config_entries: Vec<(CText, CText)>,
    /// The policy by which devices are selected.
    pub ep_selection_policy: Option<ExecutionProviderDevicePolicy>,
    /// The handles of the queued providers.
    pub ep_configs: Vec<u64>,
    /// The handles of the queued MIGraphX configurations.
    pub migraphx: Vec<u64>,
    /// The handles of the queued OpenVINO configurations.
    pub openvino: Vec<u64>,
    /// The handles of the domains of custom operators.
    pub custom_op_domains: Vec<u64>,
    /// Whether the engine's own extension operators are enabled.
    pub enable_ort_custom_ops: bool,
    /// The libraries of custom operators.
    pub custom_op_libraries: Vec<CText>,
    /// The libraries of custom operators that are registered by the older call.
    pub custom_op_libraries_v1: Vec<CText>,
    /// The functions that register custom operators.
    pub custom_op_functions: Vec<CText>,
    /// Where the rewritten graph is written.
    pub optimized_model_file_path: Option<CText>,
    /// Whether runs of the same inputs give the same bits.
    pub deterministic_compute: Option<bool>,
    /// Whether loading can be cancelled.
    pub load_cancellation_flag: Option<bool>,
    /// The callbacks for threads.
    pub thread_handlers: Option<ThreadHandlers>,
    /// The callback that selects devices.
    pub ep_selection_delegate: Option<SelectionDelegate>,
}

impl Default for SessionOptions {
    fn default() -> (options: SessionOptions)
        ensures
            options.is_default(),
    {
        SessionOptions {
            opt_level: GraphOptimizationLevel::All,
            intra_threads: None,
            inter_threads: None,
            execution_mode: None,
            log_id: None,
            log_severity: None,
            log_verbosity: None,
            user_logger: None,
            cpu_mem_arena: ArenaState::Default,
            mem_pattern: MemPatternState::Default,
            use_global_thread_pool: true,
            profiling_prefix: None,
            free_dimension_overrides: Vec::new(),
            free_dimension_overrides_by_name: Vec::new(),
            config_entries: Vec::new(),
            ep_selection_policy: None,
            ep_configs: Vec::new(),
            migraphx: Vec::new(),
            openvino: Vec::new(),
            custom_op_domains: Vec::new(),
            enable_ort_custom_ops: false,
            custom_op_libraries: Vec::new(),
            custom_op_libraries_v1: Vec::new(),
            custom_op_functions: Vec::new(),
            optimized_model_file_path: None,
            deterministic_compute: None,
            load_cancellation_flag: None,
            thread_handlers: None,
            ep_selection_delegate: None,
        }
    }
}

/// The same text, or none.
pub open spec fn same_optional_text(one: Option<CText>, other: Option<CText>) -> bool {
    match (one, other) {
        (Some(one), Some(other)) => one@ == other@,
        (None, None) => true,
        _ => false,
    }
}

/// The same texts.
pub open spec fn same_texts(one: Seq<CText>, other: Seq<CText>) -> bool {
    &&& one.len() == other.len()
    &&& forall|i: int| 0 <= i < one.len() ==> (#[trigger] one[i])@ == (#[trigger] other[i])@
}

/// The same dimensions with the same values.
pub open spec fn same_overrides(one: Seq<(CText, i64)>, other: Seq<(CText, i64)>) -> bool {
    &&& one.len() == other.len()
    &&& forall|i: int|
        0 <= i < one.len() ==> (#[trigger] one[i]).0@ == (#[trigger] other[i]).0@ && one[i].1
            == other[i].1
}

/// The same keys with the same values.
pub open spec fn same_entries(one: Seq<(CText, CText)>, other: Seq<(CText, CText)>) -> bool {
    &&& one.len() == other.len()
    &&& forall|i: int|
        0 <= i < one.len() ==> (#[trigger] one[i]).0@ == (#[trigger] other[i]).0@ && one[i].1@
            == other[i].1@
}

fn copy_optional_text(text: &Option<CText>) -> (copy: Option<CText>)
    ensures
        same_optional_text(*text, copy),
{
    match text {
        Some(text) => Some(text.clone()),
        None => None,
    }
}

/// A copy of handles.
pub(crate) fn copy_handles(handles: &Vec<u64>) -> (copy: Vec<u64>)
    ensures
        copy@ == handles@,
{
    let mut copy: Vec<u64> = Vec::new();
    let mut i: usize = 0;
    while i < handles.len()
        invariant
            i <= handles@.len(),
            copy@ == handles@.take(i as int),
        decreases handles@.len() - i,
    {
        copy.push(handles[i]);
        i = i + 1;
        assert(copy@ =~= handles@.take(i as int));
    }
    assert(copy@ =~= handles@);
    copy
}

fn copy_texts(items: &Vec<CText>) -> (copy: Vec<CText>)
    ensures
        same_texts(items@, copy@),
{
    let mut copy: Vec<CText> = Vec::new();
    let mut i: usize = 0;
    while i < items.len()
        invariant
            i <= items@.len(),
            same_texts(items@.take(i as int), copy@),
        decreases items@.len() - i,
    {
        copy.push(items[i].clone());
        i = i + 1;
    }
    assert(items@.take(i as int) =~= items@);
    copy
}

fn copy_overrides(items: &Vec<(CText, i64)>) -> (copy: Vec<(CText, i64)>)
    ensures
        same_overrides(items@, copy@),
{
    let mut copy: Vec<(CText, i64)> = Vec::new();
    let mut i: usize = 0;
    while i < items.len()
        invariant
            i <= items@.len(),
            same_overrides(items@.take(i as int), copy@),
        decreases items@.len() - i,
    {
        copy.push((items[i].0.clone(), items[i].1));
        i = i + 1;
    }
    assert(items@.take(i as int) =~= items@);
    copy
}

fn copy_entries(items: &Vec<(CText, CText)>) -> (copy: Vec<(CText, CText)>)
    ensures
        same_entries(items@, copy@),
{
    let mut copy: Vec<(CText, CText)> = Vec::new();
    let mut i: usize = 0;
    while i < items.len()
        invariant
            i <= items@.len(),
            same_entries(items@.take(i as int), copy@),
        decreases items@.len() - i,
    {
        copy.push((items[i].0.clone(), items[i].1.clone()));
        i = i + 1;
    }
    assert(items@.take(i as int) =~= items@);
    copy
}

impl Clone for SessionOptions {
    fn clone(&self) -> (copy: SessionOptions)
        ensures
            self.same(copy),
    {
        SessionOptions {
            opt_level: self.opt_level,
            intra_threads: self.intra_threads,
            inter_threads: self.inter_threads,
            execution_mode: self.execution_mode,
            log_id: copy_optional_text(&self.log_id),
            log_severity: self.log_severity,
            log_verbosity: self.log_verbosity,
            user_logger: self.user_logger,
            cpu_mem_arena: self.cpu_mem_arena,
            mem_pattern: self.mem_pattern,
            use_global_thread_pool: self.use_global_thread_pool,
            profiling_prefix: copy_optional_text(&self.profiling_prefix),
            free_dimension_overrides: copy_overrides(&self.free_dimension_overrides),
            free_dimension_overrides_by_name: copy_overrides(&self.free_dimension_overrides_by_name),
            config_entries: copy_entries(&self.config_entries),
            ep_selection_policy: self.ep_selection_policy,
            ep_configs: copy_handles(&self.ep_configs),
            migraphx: copy_handles(&self.migraphx),
            openvino: copy_handles(&self.openvino),
            custom_op_domains: copy_handles(&self.custom_op_domains),
            enable_ort_custom_ops: self.enable_ort_custom_ops,
            custom_op_libraries: copy_texts(&self.custom_op_libraries),
            custom_op_libraries_v1: copy_texts(&self.custom_op_libraries_v1),
            custom_op_functions: copy_texts(&self.custom_op_functions),
            optimized_model_file_path: copy_optional_text(&self.optimized_model_file_path),
            deterministic_compute: self.deterministic_compute,
            load_cancellation_flag: self.load_cancellation_flag,
            thread_handlers: self.thread_handlers,
            ep_selection_delegate: self.ep_selection_delegate,
        }
    }
}

impl SessionOptions {
    /// The same configuration in every field.
    pub open spec fn same(self, other: SessionOptions) -> bool {
        &&& self.opt_level == other.opt_level
        &&& self.intra_threads == other.intra_threads
        &&& self.inter_threads == other.inter_threads
        &&& self.execution_mode == other.execution_mode
        &&& same_optional_text(self.log_id, other.log_id)
        &&& self.log_severity == other.log_severity
        &&& self.log_verbosity == other.log_verbosity
        &&& self.user_logger == other.user_logger
        &&& self.cpu_mem_arena == other.cpu_mem_arena
        &&& self.mem_pattern == other.mem_pattern
        &&& self.use_global_thread_pool == other.use_global_thread_pool
        &&& same_optional_text(self.profiling_prefix, other.profiling_prefix)
        &&& same_overrides(self.free_dimension_overrides@, other.free_dimension_overrides@)
        &&& same_overrides(self.free_dimension_overrides_by_name@, other.free_dimension_overrides_by_name@)
        &&& same_entries(self.config_entries@, other.config_entries@)
        &&& self.ep_selection_policy == other.ep_selection_policy
        &&& self.ep_configs@ == other.ep_configs@
        &&& self.migraphx@ == other.migraphx@
        &&& self.openvino@ == other.openvino@
        &&& self.custom_op_domains@ == other.custom_op_domains@
        &&& self.enable_ort_custom_ops == other.enable_ort_custom_ops
        &&& same_texts(self.custom_op_libraries@, other.custom_op_libraries@)
        &&& same_texts(self.custom_op_libraries_v1@, other.custom_op_libraries_v1@)
        &&& same_texts(self.custom_op_functions@, other.custom_op_functions@)
        &&& same_optional_text(self.optimized_model_file_path, other.optimized_model_file_path)
        &&& self.deterministic_compute == other.deterministic_compute
        &&& self.load_cancellation_flag == other.load_cancellation_flag
        &&& self.thread_handlers == other.thread_handlers
        &&& self.ep_selection_delegate == other.ep_selection_delegate
    }

    /// The configuration that nothing was set on.
    pub open spec fn is_default(self) -> bool {
        &&& self.opt_level == GraphOptimizationLevel::All
        &&& self.intra_threads is None
        &&& self.inter_threads is None
        &&& self.execution_mode is None
        &&& self.log_id is None
        &&& self.log_severity is None
        &&& self.log_verbosity is None
        &&& self.user_logger is None
        &&& self.cpu_mem_arena == ArenaState::Default
        &&& self.mem_pattern == MemPatternState::Default
        &&& self.use_global_thread_pool == true
        &&& self.profiling_prefix is None
        &&& self.free_dimension_overrides@.len() == 0
        &&& self.free_dimension_overrides_by_name@.len() == 0
        &&& self.config_entries@.len() == 0
        &&& self.ep_selection_policy is None
        &&& self.ep_configs@.len() == 0
        &&& self.migraphx@.len() == 0
        &&& self.openvino@.len() == 0
        &&& self.custom_op_domains@.len() == 0
        &&& self.enable_ort_custom_ops == false
        &&& self.custom_op_libraries@.len() == 0
        &&& self.custom_op_libraries_v1@.len() == 0
        &&& self.custom_op_functions@.len() == 0
        &&& self.optimized_model_file_path is None
        &&& self.deterministic_compute is None
        &&& self.load_cancellation_flag is None
        &&& self.thread_handlers is None
        &&& self.ep_selection_delegate is None
    }

    /// A configuration that nothing was set on.
    pub fn new() -> (options: SessionOptions)
        ensures
            options.is_default(),
    {
        SessionOptions::default()
    }

    /// Set how far the graph is rewritten.
    pub fn with_opt_level(self, level: GraphOptimizationLevel) -> (options: SessionOptions)
        ensures
            options == (SessionOptions { opt_level: level, ..self }),
    {
        SessionOptions { opt_level: level, ..self }
    }

    /// Set the threads within a node.
    pub fn with_intra_threads(self, n: i32) -> (options: SessionOptions)
        ensures
            options == (SessionOptions { intra_threads: Some(n), ..self }),
    {
        SessionOptions { intra_threads: Some(n), ..self }
    }

    /// Set the threads across nodes.
    pub fn with_inter_threads(self, n: i32) -> (options: SessionOptions)
        ensures
            options == (SessionOptions { inter_threads: Some(n), ..self }),
    {
        SessionOptions { inter_threads: Some(n), ..self }
    }

    /// Set how the graph is walked.
    pub fn with_execution_mode(self, mode: ExecutionMode) -> (options: SessionOptions)
        ensures
            options == (SessionOptions { execution_mode: Some(mode), ..self }),
    {
        SessionOptions { execution_mode: Some(mode), ..self }
    }

    /// Walk one node after the other.
    pub fn with_sequential_execution(self) -> (options: SessionOptions)
        ensures
            options == (SessionOptions { execution_mode: Some(ExecutionMode::Sequential), ..self }),
    {
        SessionOptions { execution_mode: Some(ExecutionMode::Sequential), ..self }
    }

    /// Walk independent branches side by side.
    pub fn with_parallel_execution(self) -> (options: SessionOptions)
        ensures
            options == (SessionOptions { execution_mode: Some(ExecutionMode::Parallel), ..self }),
    {
        SessionOptions { execution_mode: Some(ExecutionMode::Parallel), ..self }
    }

    /// Set from which severity on messages are logged.
    pub fn with_log_severity(self, level: LoggingLevel) -> (options: SessionOptions)
        ensures
            options == (SessionOptions { log_severity: Some(level.spec_number()), ..self }),
    {
        SessionOptions { log_severity: Some(level.number()), ..self }
    }

    /// Set how verbose messages are.
    pub fn with_log_verbosity(self, level: i32) -> (options: SessionOptions)
        ensures
            options == (SessionOptions { log_verbosity: Some(level), ..self }),
    {
        SessionOptions { log_verbosity: Some(level), ..self }
    }

    /// Use the environment's threads where it has some.
    pub fn use_global_thread_pool(self) -> (options: SessionOptions)
        ensures
            options == (SessionOptions { use_global_thread_pool: true, ..self }),
    {
        SessionOptions { use_global_thread_pool: true, ..self }
    }

    /// Use threads of the session.
    pub fn use_per_session_threads(self) -> (options: SessionOptions)
        ensures
            options == (SessionOptions { use_global_thread_pool: false, ..self }),
    {
        SessionOptions { use_global_thread_pool: false, ..self }
    }

    /// Set whether an arena is kept.
    pub fn with_cpu_mem_arena(self, state: ArenaState) -> (options: SessionOptions)
        ensures
            options == (SessionOptions { cpu_mem_arena: state, ..self }),
    {
        SessionOptions { cpu_mem_arena: state, ..self }
    }

    /// Keep an arena.
    pub fn enable_cpu_mem_arena(self) -> (options: SessionOptions)
        ensures
            options == (SessionOptions { cpu_mem_arena: ArenaState::Enabled, ..self }),
    {
        SessionOptions { cpu_mem_arena: ArenaState::Enabled, ..self }
    }

    /// Keep no arena.
    pub fn disable_cpu_mem_arena(self) -> (options: SessionOptions)
        ensures
            options == (SessionOptions { cpu_mem_arena: ArenaState::Disabled, ..self }),
    {
        SessionOptions { cpu_mem_arena: ArenaState::Disabled, ..self }
    }

    /// Set whether memory is planned from patterns.
    pub fn with_mem_pattern(self, state: MemPatternState) -> (options: SessionOptions)
        ensures
            options == (SessionOptions { mem_pattern: state, ..self }),
    {
        SessionOptions { mem_pattern: state, ..self }
    }

    /// Plan memory from patterns.
    pub fn enable_mem_pattern(self) -> (options: SessionOptions)
        ensures
            options == (SessionOptions { mem_pattern: MemPatternState::Enabled, ..self }),
    {
        SessionOptions { mem_pattern: MemPatternState::Enabled, ..self }
    }

    /// Plan no memory from patterns.
    pub fn disable_mem_pattern(self) -> (options: SessionOptions)
        ensures
            options == (SessionOptions { mem_pattern: MemPatternState::Disabled, ..self }),
    {
        SessionOptions { mem_pattern: MemPatternState::Disabled, ..self }
    }

    /// Write no profile.
    pub fn disable_profiling(self) -> (options: SessionOptions)
        ensures
            options == (SessionOptions { profiling_prefix: None::<CText>, ..self }),
    {
        SessionOptions { profiling_prefix: None::<CText>, ..self }
    }

    /// Set the policy by which devices are selected.
    pub fn with_ep_selection_policy(self, policy: ExecutionProviderDevicePolicy) -> (options: SessionOptions)
        ensures
            options == (SessionOptions { ep_selection_policy: Some(policy), ..self }),
    {
        SessionOptions { ep_selection_policy: Some(policy), ..self }
    }

    /// Enable the engine's own extension operators.
    pub fn with_enable_ort_custom_ops(self) -> (options: SessionOptions)
        ensures
            options == (SessionOptions { enable_ort_custom_ops: true, ..self }),
    {
        SessionOptions { enable_ort_custom_ops: true, ..self }
    }

    /// Set whether runs of the same inputs give the same bits.
    pub fn with_deterministic_compute(self, value: bool) -> (options: SessionOptions)
        ensures
            options == (SessionOptions { deterministic_compute: Some(value), ..self }),
    {
        SessionOptions { deterministic_compute: Some(value), ..self }
    }

    /// Set whether loading can be cancelled.
    pub fn with_load_cancellation_flag(self, value: bool) -> (options: SessionOptions)
        ensures
            options == (SessionOptions { load_cancellation_flag: Some(value), ..self }),
    {
        SessionOptions { load_cancellation_flag: Some(value), ..self }
    }

    /// Set the callbacks for threads.
    pub fn with_custom_thread_handlers(self, create: u64, join: u64, creation_options: u64) -> (options: SessionOptions)
        ensures
            options == (SessionOptions { thread_handlers: Some(ThreadHandlers { create, join, creation_options }), ..self }),
    {
        SessionOptions { thread_handlers: Some(ThreadHandlers { create, join, creation_options }), ..self }
    }

    /// Set the callback that selects devices.
    pub fn with_ep_selection_policy_delegate(self, delegate: u64, state: u64) -> (options: SessionOptions)
        ensures
            options == (SessionOptions { ep_selection_delegate: Some(SelectionDelegate { delegate, state }), ..self }),
    {
        SessionOptions { ep_selection_delegate: Some(SelectionDelegate { delegate, state }), ..self }
    }

    /// Set the name that messages carry. The text may hold no NUL byte.
    pub fn with_log_id(self, id: &str) -> (options: Result<SessionOptions, NulError>)
        ensures
            match options {
                Ok(options) => {
                    &&& !crate::text::has_nul(id@)
                    &&& options.log_id matches Some(text) && text@ == id@
                    &&& options == (SessionOptions { log_id: options.log_id, ..self })
                },
                Err(error) => crate::text::has_nul(id@) && error.position
                    == crate::text::first_nul(id@),
            },
    {
        match CText::new(id) {
            Ok(text) => Ok(SessionOptions { log_id: Some(text), ..self }),
            Err(error) => Err(error),
        }
    }

    /// Write a profile to a file with this prefix. The text may hold no NUL byte.
    pub fn enable_profiling(self, profile_file_prefix: &str) -> (options: Result<SessionOptions, NulError>)
        ensures
            match options {
                Ok(options) => {
                    &&& !crate::text::has_nul(profile_file_prefix@)
                    &&& options.profiling_prefix matches Some(text) && text@ == profile_file_prefix@
                    &&& options == (SessionOptions { profiling_prefix: options.profiling_prefix, ..self })
                },
                Err(error) => crate::text::has_nul(profile_file_prefix@) && error.position
                    == crate::text::first_nul(profile_file_prefix@),
            },
    {
        match CText::new(profile_file_prefix) {
            Ok(text) => Ok(SessionOptions { profiling_prefix: Some(text), ..self }),
            Err(error) => Err(error),
        }
    }

    /// Set where the rewritten graph is written. The text may hold no NUL byte.
    pub fn with_optimized_model_file_path(self, path: &str) -> (options: Result<SessionOptions, NulError>)
        ensures
            match options {
                Ok(options) => {
                    &&& !crate::text::has_nul(path@)
                    &&& options.optimized_model_file_path matches Some(text) && text@ == path@
                    &&& options == (SessionOptions { optimized_model_file_path: options.optimized_model_file_path, ..self })
                },
                Err(error) => crate::text::has_nul(path@) && error.position
                    == crate::text::first_nul(path@),
            },
    {
        match CText::new(path) {
            Ok(text) => Ok(SessionOptions { optimized_model_file_path: Some(text), ..self }),
            Err(error) => Err(error),
        }
    }

    /// Register a library of custom operators. The text may hold no NUL byte.
    pub fn with_register_custom_ops_library(self, path: &str) -> (options: Result<SessionOptions, NulError>)
        ensures
            match options {
                Ok(options) => {
                    &&& !crate::text::has_nul(path@)
                    &&& options.custom_op_libraries@.len() == self.custom_op_libraries@.len() + 1
                    &&& options.custom_op_libraries@.drop_last() == self.custom_op_libraries@
                    &&& options.custom_op_libraries@.last()@ == path@
                    &&& options == (SessionOptions { custom_op_libraries: options.custom_op_libraries, ..self })
                },
                Err(error) => crate::text::has_nul(path@) && error.position
                    == crate::text::first_nul(path@),
            },
    {
        let mut options = self;
        match CText::new(path) {
            Ok(text) => {
                options.custom_op_libraries.push(text);
                assert(options.custom_op_libraries@.drop_last() =~= self.custom_op_libraries@);
                Ok(options)
            },
            Err(error) => Err(error),
        }
    }

    /// Register a library of custom operators by the older call. The text may hold no NUL byte.
    pub fn with_register_custom_ops_library_v1(self, path: &str) -> (options: Result<SessionOptions, NulError>)
        ensures
            match options {
                Ok(options) => {
                    &&& !crate::text::has_nul(path@)
                    &&& options.custom_op_libraries_v1@.len() == self.custom_op_libraries_v1@.len() + 1
                    &&& options.custom_op_libraries_v1@.drop_last() == self.custom_op_libraries_v1@
                    &&& options.custom_op_libraries_v1@.last()@ == path@
                    &&& options == (SessionOptions { custom_op_libraries_v1: options.custom_op_libraries_v1, ..self })
                },
                Err(error) => crate::text::has_nul(path@) && error.position
                    == crate::text::first_nul(path@),
            },
    {
        let mut options = self;
        match CText::new(path) {
            Ok(text) => {
                options.custom_op_libraries_v1.push(text);
                assert(options.custom_op_libraries_v1@.drop_last() =~= self.custom_op_libraries_v1@);
                Ok(options)
            },
            Err(error) => Err(error),
        }
    }

    /// Register custom operators by a function. The text may hold no NUL byte.
    pub fn with_register_custom_ops_using_function(self, func_name: &str) -> (options: Result<SessionOptions, NulError>)
        ensures
            match options {
                Ok(options) => {
                    &&& !crate::text::has_nul(func_name@)
                    &&& options.custom_op_functions@.len() == self.custom_op_functions@.len() + 1
                    &&& options.custom_op_functions@.drop_last() == self.custom_op_functions@
                    &&& options.custom_op_functions@.last()@ == func_name@
                    &&& options == (SessionOptions { custom_op_functions: options.custom_op_functions, ..self })
                },
                Err(error) => crate::text::has_nul(func_name@) && error.position
                    == crate::text::first_nul(func_name@),
            },
    {
        let mut options = self;
        match CText::new(func_name) {
            Ok(text) => {
                options.custom_op_functions.push(text);
                assert(options.custom_op_functions@.drop_last() =~= self.custom_op_functions@);
                Ok(options)
            },
            Err(error) => Err(error),
        }
    }

    /// Set the value of the dimension with this denotation. The text may hold no NUL byte.
    pub fn with_free_dimension_override(self, dimension_denotation: &str, value: i64) -> (options: Result<SessionOptions, NulError>)
        ensures
            match options {
                Ok(options) => {
                    &&& !crate::text::has_nul(dimension_denotation@)
                    &&& options.free_dimension_overrides@.len() == self.free_dimension_overrides@.len() + 1
                    &&& options.free_dimension_overrides@.drop_last() == self.free_dimension_overrides@
                    &&& options.free_dimension_overrides@.last().0@ == dimension_denotation@
                    &&& options.free_dimension_overrides@.last().1 == value
                    &&& options == (SessionOptions { free_dimension_overrides: options.free_dimension_overrides, ..self })
                },
                Err(error) => crate::text::has_nul(dimension_denotation@) && error.position
                    == crate::text::first_nul(dimension_denotation@),
            },
    {
        let mut options = self;
        match CText::new(dimension_denotation) {
            Ok(text) => {
                options.free_dimension_overrides.push((text, value));
                assert(options.free_dimension_overrides@.drop_last() =~= self.free_dimension_overrides@);
                Ok(options)
            },
            Err(error) => Err(error),
        }
    }

    /// Set the value of the dimension with this name. The text may hold no NUL byte.
    pub fn with_free_dimension_override_by_name(self, dimension_name: &str, value: i64) -> (options: Result<SessionOptions, NulError>)
        ensures
            match options {
                Ok(options) => {
                    &&& !crate::text::has_nul(dimension_name@)
                    &&& options.free_dimension_overrides_by_name@.len() == self.free_dimension_overrides_by_name@.len() + 1
                    &&& options.free_dimension_overrides_by_name@.drop_last() == self.free_dimension_overrides_by_name@
                    &&& options.free_dimension_overrides_by_name@.last().0@ == dimension_name@
                    &&& options.free_dimension_overrides_by_name@.last().1 == value
                    &&& options == (SessionOptions { free_dimension_overrides_by_name: options.free_dimension_overrides_by_name, ..self })
                },
                Err(error) => crate::text::has_nul(dimension_name@) && error.position
                    == crate::text::first_nul(dimension_name@),
            },
    {
        let mut options = self;
        match CText::new(dimension_name) {
            Ok(text) => {
                options.free_dimension_overrides_by_name.push((text, value));
                assert(options.free_dimension_overrides_by_name@.drop_last() =~= self.free_dimension_overrides_by_name@);
                Ok(options)
            },
            Err(error) => Err(error),
        }
    }

    /// `options` is this configuration with one more entry.
    pub open spec fn entered(
        self,
        key: Seq<char>,
        value: Seq<char>,
        options: SessionOptions,
    ) -> bool {
        &&& options.config_entries@.len() == self.config_entries@.len() + 1
        &&& options.config_entries@.drop_last() == self.config_entries@
        &&& options.config_entries@.last().0@ == key
        &&& options.config_entries@.last().1@ == value
        &&& options == (SessionOptions { config_entries: options.config_entries, ..self })
    }

    /// Add an entry. Neither the key nor the value may hold a NUL byte.
    pub fn with_config_entry(self, key: &str, value: &str) -> (options: Result<
        SessionOptions,
        NulError,
    >)
        ensures
            match options {
                Ok(options) => {
                    &&& !crate::text::has_nul(key@)
                    &&& !crate::text::has_nul(value@)
                    &&& self.entered(key@, value@, options)
                },
                Err(error) => if crate::text::has_nul(key@) {
                    error.position == crate::text::first_nul(key@)
                } else {
                    crate::text::has_nul(value@) && error.position == crate::text::first_nul(value@)
                },
            },
    {
        let mut options = self;
        let key = match CText::new(key) {
            Ok(key) => key,
            Err(error) => return Err(error),
        };
        let value = match CText::new(value) {
            Ok(value) => value,
            Err(error) => return Err(error),
        };
        options.config_entries.push((key, value));
        assert(options.config_entries@.drop_last() =~= self.config_entries@);
        Ok(options)
    }

    /// Set whether the threads within a node spin while they wait.
    pub fn with_intra_op_spinning(self, enable: bool) -> (options: Result<SessionOptions, NulError>)
        ensures
            options matches Ok(options) && self.entered(
                "session.intra_op.allow_spinning"@,
                spec_bool_config_value(enable),
                options,
            ),
    {
        proof {
            reveal_strlit("session.intra_op.allow_spinning");
            lemma_no_nul("session.intra_op.allow_spinning"@);
            lemma_flag_no_nul(enable);
        }
        self.with_config_entry("session.intra_op.allow_spinning", bool_config_value(enable))
    }

    /// Set whether the threads across nodes spin while they wait.
    pub fn with_inter_op_spinning(self, enable: bool) -> (options: Result<SessionOptions, NulError>)
        ensures
            options matches Ok(options) && self.entered(
                "session.inter_op.allow_spinning"@,
                spec_bool_config_value(enable),
                options,
            ),
    {
        proof {
            reveal_strlit("session.inter_op.allow_spinning");
            lemma_no_nul("session.inter_op.allow_spinning"@);
            lemma_flag_no_nul(enable);
        }
        self.with_config_entry("session.inter_op.allow_spinning", bool_config_value(enable))
    }

    /// Set the logging callback.
    pub fn with_user_logging_function(&mut self, logger: u64)
        ensures
            *final(self) == (SessionOptions { user_logger: Some(logger), ..*old(self) }),
    {
        self.user_logger = Some(logger);
    }
}

/// How an entry says whether something is on.
pub open spec fn spec_bool_config_value(enabled: bool) -> Seq<char> {
    if enabled {
        "1"@
    } else {
        "0"@
    }
}

fn bool_config_value(enabled: bool) -> (value: &'static str)
    ensures
        value@ == spec_bool_config_value(enabled),
{
    if enabled {
        "1"
    } else {
        "0"
    }
}

/// Text of ASCII characters other than NUL encodes to bytes other than NUL.
proof fn lemma_no_nul(text: Seq<char>)
    requires
        forall|i: int| 0 <= i < text.len() ==> '\u{1}' <= #[trigger] text[i] <= '\u{7f}',
    ensures
        !crate::text::has_nul(text),
{
    assert(vstd::utf8::is_ascii_chars(text));
    vstd::utf8::is_ascii_chars_encode_utf8(text);
    let bytes = vstd::utf8::encode_utf8(text);
    if bytes.contains(0u8) {
        let i = bytes.index_of(0u8);
        assert(bytes[i] == 0u8);
        assert(text[i] as u8 == bytes[i]);
    }
}

proof fn lemma_flag_no_nul(enabled: bool)
    ensures
        !crate::text::has_nul(spec_bool_config_value(enabled)),
{
    reveal_strlit("0");
    reveal_strlit("1");
    lemma_no_nul(spec_bool_config_value(enabled));
}

/// One call that hands a part of the configuration to the engine.
#[derive(Debug, Clone, Copy)]
pub enum OptionStep<'a> {
    /// Set how far the graph is rewritten.
    GraphOptimization(GraphOptimizationLevel),
    /// Set the threads within a node.
    IntraThreads(i32),
    /// Set the threads across nodes.
    InterThreads(i32),
    /// Set how the graph is walked.
    Execution(ExecutionMode),
    /// Set the name that messages carry.
    LogId(&'a CText),
    /// Set from which severity on messages are logged.
    LogSeverity(i32),
    /// Set how verbose messages are.
    LogVerbosity(i32),
    /// Keep an arena.
    EnableArena,
    /// Keep no arena.
    DisableArena,
    /// Plan memory from patterns.
    EnableMemPattern,
    /// Plan no memory from patterns.
    DisableMemPattern,
    /// Write a profile.
    EnableProfiling(&'a CText),
    /// Write no profile.
    DisableProfiling,
    /// Set the value of a dimension, by denotation.
    FreeDimension(&'a CText, i64),
    /// Set the value of a dimension, by name.
    FreeDimensionByName(&'a CText, i64),
    /// Add an entry.
    ConfigEntry(&'a CText, &'a CText),
    /// Set the policy by which devices are selected.
    SelectionPolicy(ExecutionProviderDevicePolicy),
    /// Append a provider.
    Provider(u64),
    /// Append a MIGraphX configuration.
    Migraphx(u64),
    /// Append an OpenVINO configuration.
    Openvino(u64),
    /// Add a domain of custom operators.
    CustomOpDomain(u64),
    /// Enable the engine's own extension operators.
    EnableCustomOps,
    /// Register a library of custom operators.
    CustomOpLibrary(&'a CText),
    /// Register a library of custom operators by the older call.
    CustomOpLibraryV1(&'a CText),
    /// Register custom operators by a function.
    CustomOpFunction(&'a CText),
    /// Attach the logging callback.
    UserLogger(u64),
    /// Set where the rewritten graph is written.
    OptimizedModelPath(&'a CText),
    /// Set whether runs of the same inputs give the same bits.
    Deterministic(bool),
    /// Set whether loading can be cancelled.
    LoadCancellation(bool),
    /// Set the callback that makes threads.
    CreateThread(u64),
    /// Set the state for the callback that makes threads.
    ThreadCreationOptions(u64),
    /// Set the callback that joins threads.
    JoinThread(u64),
    /// Set the callback that selects devices.
    SelectionCallback(SelectionDelegate),
}

/// The call for a value, if there is one.
pub open spec fn optional<'a>(step: Option<OptionStep<'a>>) -> Seq<OptionStep<'a>> {
    match step {
        Some(step) => seq![step],
        None => Seq::empty(),
    }
}

fn push_optional<'a>(steps: &mut Vec<OptionStep<'a>>, step: Option<OptionStep<'a>>)
    ensures
        final(steps)@ == old(steps)@ + optional(step),
{
    if let Some(step) = step {
        steps.push(step);
    }
    assert(steps@ =~= old(steps)@ + optional(step));
}

/// The calls for the dimensions by denotation.
pub open spec fn dimension_steps<'a>(items: Seq<(CText, i64)>) -> Seq<OptionStep<'a>> {
    Seq::new(items.len(), |i: int| OptionStep::FreeDimension(&items[i].0, items[i].1))
}

fn push_dimension<'a>(steps: &mut Vec<OptionStep<'a>>, items: &'a Vec<(CText, i64)>)
    ensures
        final(steps)@ == old(steps)@ + dimension_steps(items@),
{
    let mut k: usize = 0;
    while k < items.len()
        invariant
            k <= items@.len(),
            steps@ == old(steps)@ + dimension_steps(items@.take(k as int)),
        decreases items@.len() - k,
    {
        steps.push(OptionStep::FreeDimension(&items[k].0, items[k].1));
        k = k + 1;
        assert(steps@ =~= old(steps)@ + dimension_steps(items@.take(k as int)));
    }
    assert(items@.take(items@.len() as int) =~= items@);
}

/// The calls for the dimensions by name.
pub open spec fn named_dimension_steps<'a>(items: Seq<(CText, i64)>) -> Seq<OptionStep<'a>> {
    Seq::new(items.len(), |i: int| OptionStep::FreeDimensionByName(&items[i].0, items[i].1))
}

fn push_named_dimension<'a>(steps: &mut Vec<OptionStep<'a>>, items: &'a Vec<(CText, i64)>)
    ensures
        final(steps)@ == old(steps)@ + named_dimension_steps(items@),
{
    let mut k: usize = 0;
    while k < items.len()
        invariant
            k <= items@.len(),
            steps@ == old(steps)@ + named_dimension_steps(items@.take(k as int)),
        decreases items@.len() - k,
    {
        steps.push(OptionStep::FreeDimensionByName(&items[k].0, items[k].1));
        k = k + 1;
        assert(steps@ =~= old(steps)@ + named_dimension_steps(items@.take(k as int)));
    }
    assert(items@.take(items@.len() as int) =~= items@);
}

/// The calls for the entries.
pub open spec fn entry_steps<'a>(items: Seq<(CText, CText)>) -> Seq<OptionStep<'a>> {
    Seq::new(items.len(), |i: int| OptionStep::ConfigEntry(&items[i].0, &items[i].1))
}

fn push_entry<'a>(steps: &mut Vec<OptionStep<'a>>, items: &'a Vec<(CText, CText)>)
    ensures
        final(steps)@ == old(steps)@ + entry_steps(items@),
{
    let mut k: usize = 0;
    while k < items.len()
        invariant
            k <= items@.len(),
            steps@ == old(steps)@ + entry_steps(items@.take(k as int)),
        decreases items@.len() - k,
    {
        steps.push(OptionStep::ConfigEntry(&items[k].0, &items[k].1));
        k = k + 1;
        assert(steps@ =~= old(steps)@ + entry_steps(items@.take(k as int)));
    }
    assert(items@.take(items@.len() as int) =~= items@);
}

/// The calls for the providers.
pub open spec fn provider_steps<'a>(items: Seq<u64>) -> Seq<OptionStep<'a>> {
    Seq::new(items.len(), |i: int| OptionStep::Provider(items[i]))
}

fn push_provider<'a>(steps: &mut Vec<OptionStep<'a>>, items: &'a Vec<u64>)
    ensures
        final(steps)@ == old(steps)@ + provider_steps(items@),
{
    let mut k: usize = 0;
    while k < items.len()
        invariant
            k <= items@.len(),
            steps@ == old(steps)@ + provider_steps(items@.take(k as int)),
        decreases items@.len() - k,
    {
        steps.push(OptionStep::Provider(items[k]));
        k = k + 1;
        assert(steps@ =~= old(steps)@ + provider_steps(items@.take(k as int)));
    }
    assert(items@.take(items@.len() as int) =~= items@);
}

/// The calls for the MIGraphX configurations.
pub open spec fn migraphx_steps<'a>(items: Seq<u64>) -> Seq<OptionStep<'a>> {
    Seq::new(items.len(), |i: int| OptionStep::Migraphx(items[i]))
}

fn push_migraphx<'a>(steps: &mut Vec<OptionStep<'a>>, items: &'a Vec<u64>)
    ensures
        final(steps)@ == old(steps)@ + migraphx_steps(items@),
{
    let mut k: usize = 0;
    while k < items.len()
        invariant
            k <= items@.len(),
            steps@ == old(steps)@ + migraphx_steps(items@.take(k as int)),
        decreases items@.len() - k,
    {
        steps.push(OptionStep::Migraphx(items[k]));
        k = k + 1;
        assert(steps@ =~= old(steps)@ + migraphx_steps(items@.take(k as int)));
    }
    assert(items@.take(items@.len() as int) =~= items@);
}

/// The calls for the OpenVINO configurations.
pub open spec fn openvino_steps<'a>(items: Seq<u64>) -> Seq<OptionStep<'a>> {
    Seq::new(items.len(), |i: int| OptionStep::Openvino(items[i]))
}

fn push_openvino<'a>(steps: &mut Vec<OptionStep<'a>>, items: &'a Vec<u64>)
    ensures
        final(steps)@ == old(steps)@ + openvino_steps(items@),
{
    let mut k: usize = 0;
    while k < items.len()
        invariant
            k <= items@.len(),
            steps@ == old(steps)@ + openvino_steps(items@.take(k as int)),
        decreases items@.len() - k,
    {
        steps.push(OptionStep::Openvino(items[k]));
        k = k + 1;
        assert(steps@ =~= old(steps)@ + openvino_steps(items@.take(k as int)));
    }
    assert(items@.take(items@.len() as int) =~= items@);
}

/// The calls for the domains of custom operators.
pub open spec fn domain_steps<'a>(items: Seq<u64>) -> Seq<OptionStep<'a>> {
    Seq::new(items.len(), |i: int| OptionStep::CustomOpDomain(items[i]))
}

fn push_domain<'a>(steps: &mut Vec<OptionStep<'a>>, items: &'a Vec<u64>)
    ensures
        final(steps)@ == old(steps)@ + domain_steps(items@),
{
    let mut k: usize = 0;
    while k < items.len()
        invariant
            k <= items@.len(),
            steps@ == old(steps)@ + domain_steps(items@.take(k as int)),
        decreases items@.len() - k,
    {
        steps.push(OptionStep::CustomOpDomain(items[k]));
        k = k + 1;
        assert(steps@ =~= old(steps)@ + domain_steps(items@.take(k as int)));
    }
    assert(items@.take(items@.len() as int) =~= items@);
}

/// The calls for the libraries of custom operators.
pub open spec fn library_steps<'a>(items: Seq<CText>) -> Seq<OptionStep<'a>> {
    Seq::new(items.len(), |i: int| OptionStep::CustomOpLibrary(&items[i]))
}

fn push_library<'a>(steps: &mut Vec<OptionStep<'a>>, items: &'a Vec<CText>)
    ensures
        final(steps)@ == old(steps)@ + library_steps(items@),
{
    let mut k: usize = 0;
    while k < items.len()
        invariant
            k <= items@.len(),
            steps@ == old(steps)@ + library_steps(items@.take(k as int)),
        decreases items@.len() - k,
    {
        steps.push(OptionStep::CustomOpLibrary(&items[k]));
        k = k + 1;
        assert(steps@ =~= old(steps)@ + library_steps(items@.take(k as int)));
    }
    assert(items@.take(items@.len() as int) =~= items@);
}

/// The calls for the libraries that are registered by the older call.
pub open spec fn old_library_steps<'a>(items: Seq<CText>) -> Seq<OptionStep<'a>> {
    Seq::new(items.len(), |i: int| OptionStep::CustomOpLibraryV1(&items[i]))
}

fn push_old_library<'a>(steps: &mut Vec<OptionStep<'a>>, items: &'a Vec<CText>)
    ensures
        final(steps)@ == old(steps)@ + old_library_steps(items@),
{
    let mut k: usize = 0;
    while k < items.len()
        invariant
            k <= items@.len(),
            steps@ == old(steps)@ + old_library_steps(items@.take(k as int)),
        decreases items@.len() - k,
    {
        steps.push(OptionStep::CustomOpLibraryV1(&items[k]));
        k = k + 1;
        assert(steps@ =~= old(steps)@ + old_library_steps(items@.take(k as int)));
    }
    assert(items@.take(items@.len() as int) =~= items@);
}

/// The calls for the functions that register custom operators.
pub open spec fn function_steps<'a>(items: Seq<CText>) -> Seq<OptionStep<'a>> {
    Seq::new(items.len(), |i: int| OptionStep::CustomOpFunction(&items[i]))
}

fn push_function<'a>(steps: &mut Vec<OptionStep<'a>>, items: &'a Vec<CText>)
    ensures
        final(steps)@ == old(steps)@ + function_steps(items@),
{
    let mut k: usize = 0;
    while k < items.len()
        invariant
            k <= items@.len(),
            steps@ == old(steps)@ + function_steps(items@.take(k as int)),
        decreases items@.len() - k,
    {
        steps.push(OptionStep::CustomOpFunction(&items[k]));
        k = k + 1;
        assert(steps@ =~= old(steps)@ + function_steps(items@.take(k as int)));
    }
    assert(items@.take(items@.len() as int) =~= items@);
}

impl SessionOptions {
    /// The calls for how the graph is rewritten, run and logged.
    pub open spec fn model_steps<'a>(self) -> Seq<OptionStep<'a>> {
        seq![OptionStep::GraphOptimization(self.opt_level)]
            + optional(
            match self.intra_threads {
                Some(value) => Some(OptionStep::IntraThreads(value)),
                None => None,
            },
        )
            + optional(
            match self.inter_threads {
                Some(value) => Some(OptionStep::InterThreads(value)),
                None => None,
            },
        )
            + optional(
            match self.execution_mode {
                Some(value) => Some(OptionStep::Execution(value)),
                None => None,
            },
        )
    }

    fn list_model_steps<'a>(&'a self) -> (steps: Vec<OptionStep<'a>>)
        ensures
            steps@ == self.model_steps(),
    {
        let mut steps: Vec<OptionStep<'a>> = Vec::new();
        steps.push(OptionStep::GraphOptimization(self.opt_level));
        assert(steps@ =~= seq![OptionStep::GraphOptimization(self.opt_level)]);
        push_optional(
            &mut steps,
            match self.intra_threads {
                Some(value) => Some(OptionStep::IntraThreads(value)),
                None => None,
            },
        );
        push_optional(
            &mut steps,
            match self.inter_threads {
                Some(value) => Some(OptionStep::InterThreads(value)),
                None => None,
            },
        );
        push_optional(
            &mut steps,
            match self.execution_mode {
                Some(value) => Some(OptionStep::Execution(value)),
                None => None,
            },
        );
        steps
    }

    /// The calls for the log, memory and the profile.
    pub open spec fn log_steps<'a>(self) -> Seq<OptionStep<'a>> {
        optional(
            match self.log_id {
                Some(value) => Some(OptionStep::LogId(&value)),
                None => None,
            },
        )
            + optional(
            match self.log_severity {
                Some(value) => Some(OptionStep::LogSeverity(value)),
                None => None,
            },
        )
            + optional(
            match self.log_verbosity {
                Some(value) => Some(OptionStep::LogVerbosity(value)),
                None => None,
            },
        )
            + optional(
            match self.cpu_mem_arena {
                ArenaState::Default => None,
                ArenaState::Enabled => Some(OptionStep::EnableArena),
                ArenaState::Disabled => Some(OptionStep::DisableArena),
            },
        )
            + optional(
            match self.mem_pattern {
                MemPatternState::Default => None,
                MemPatternState::Enabled => Some(OptionStep::EnableMemPattern),
                MemPatternState::Disabled => Some(OptionStep::DisableMemPattern),
            },
        )
            + optional(
            match self.profiling_prefix {
                Some(value) => Some(OptionStep::EnableProfiling(&value)),
                None => Some(OptionStep::DisableProfiling),
            },
        )
    }

    fn list_log_steps<'a>(&'a self) -> (steps: Vec<OptionStep<'a>>)
        ensures
            steps@ == self.log_steps(),
    {
        let mut steps: Vec<OptionStep<'a>> = Vec::new();
        push_optional(
            &mut steps,
            match &self.log_id {
                Some(value) => Some(OptionStep::LogId(value)),
                None => None,
            },
        );
        assert(steps@ =~= optional(
            match self.log_id {
                Some(value) => Some(OptionStep::LogId(&value)),
                None => None,
            },
        ));
        push_optional(
            &mut steps,
            match self.log_severity {
                Some(value) => Some(OptionStep::LogSeverity(value)),
                None => None,
            },
        );
        push_optional(
            &mut steps,
            match self.log_verbosity {
                Some(value) => Some(OptionStep::LogVerbosity(value)),
                None => None,
            },
        );
        push_optional(
            &mut steps,
            match self.cpu_mem_arena {
                ArenaState::Default => None,
                ArenaState::Enabled => Some(OptionStep::EnableArena),
                ArenaState::Disabled => Some(OptionStep::DisableArena),
            },
        );
        push_optional(
            &mut steps,
            match self.mem_pattern {
                MemPatternState::Default => None,
                MemPatternState::Enabled => Some(OptionStep::EnableMemPattern),
                MemPatternState::Disabled => Some(OptionStep::DisableMemPattern),
            },
        );
        push_optional(
            &mut steps,
            match &self.profiling_prefix {
                Some(value) => Some(OptionStep::EnableProfiling(value)),
                None => Some(OptionStep::DisableProfiling),
            },
        );
        steps
    }

    /// The calls for what is queued: dimensions, entries, providers and custom operators.
    pub open spec fn queue_steps<'a>(self) -> Seq<OptionStep<'a>> {
        dimension_steps(self.free_dimension_overrides@)
            + named_dimension_steps(self.free_dimension_overrides_by_name@)
            + entry_steps(self.config_entries@)
            + optional(
            match self.ep_selection_policy {
                Some(value) => Some(OptionStep::SelectionPolicy(value)),
                None => None,
            },
        )
            + provider_steps(self.ep_configs@)
            + migraphx_steps(self.migraphx@)
            + openvino_steps(self.openvino@)
            + domain_steps(self.custom_op_domains@)
            + optional(
            if self.enable_ort_custom_ops {
                Some(OptionStep::EnableCustomOps)
            } else {
                None
            },
        )
            + library_steps(self.custom_op_libraries@)
            + old_library_steps(self.custom_op_libraries_v1@)
            + function_steps(self.custom_op_functions@)
    }

    fn list_queue_steps<'a>(&'a self) -> (steps: Vec<OptionStep<'a>>)
        ensures
            steps@ == self.queue_steps(),
    {
        let mut steps: Vec<OptionStep<'a>> = Vec::new();
        push_dimension(&mut steps, &self.free_dimension_overrides);
        assert(steps@ =~= dimension_steps(self.free_dimension_overrides@));
        push_named_dimension(&mut steps, &self.free_dimension_overrides_by_name);
        push_entry(&mut steps, &self.config_entries);
        push_optional(
            &mut steps,
            match self.ep_selection_policy {
                Some(value) => Some(OptionStep::SelectionPolicy(value)),
                None => None,
            },
        );
        push_provider(&mut steps, &self.ep_configs);
        push_migraphx(&mut steps, &self.migraphx);
        push_openvino(&mut steps, &self.openvino);
        push_domain(&mut steps, &self.custom_op_domains);
        push_optional(
            &mut steps,
            if self.enable_ort_custom_ops {
                Some(OptionStep::EnableCustomOps)
            } else {
                None
            },
        );
        push_library(&mut steps, &self.custom_op_libraries);
        push_old_library(&mut steps, &self.custom_op_libraries_v1);
        push_function(&mut steps, &self.custom_op_functions);
        steps
    }

    /// The calls for the rewritten graph, the flags and the callbacks.
    pub open spec fn callback_steps<'a>(self) -> Seq<OptionStep<'a>> {
        optional(
            match self.optimized_model_file_path {
                Some(value) => Some(OptionStep::OptimizedModelPath(&value)),
                None => None,
            },
        )
            + optional(
            match self.deterministic_compute {
                Some(value) => Some(OptionStep::Deterministic(value)),
                None => None,
            },
        )
            + optional(
            match self.load_cancellation_flag {
                Some(value) => Some(OptionStep::LoadCancellation(value)),
                None => None,
            },
        )
            + optional(
            match self.thread_handlers {
                Some(value) => Some(OptionStep::CreateThread(value.create)),
                None => None,
            },
        )
            + optional(
            match self.thread_handlers {
                Some(value) => Some(OptionStep::ThreadCreationOptions(value.creation_options)),
                None => None,
            },
        )
            + optional(
            match self.thread_handlers {
                Some(value) => Some(OptionStep::JoinThread(value.join)),
                None => None,
            },
        )
            + optional(
            match self.ep_selection_delegate {
                Some(value) => Some(OptionStep::SelectionCallback(value)),
                None => None,
            },
        )
    }

    fn list_callback_steps<'a>(&'a self) -> (steps: Vec<OptionStep<'a>>)
        ensures
            steps@ == self.callback_steps(),
    {
        let mut steps: Vec<OptionStep<'a>> = Vec::new();
        push_optional(
            &mut steps,
            match &self.optimized_model_file_path {
                Some(value) => Some(OptionStep::OptimizedModelPath(value)),
                None => None,
            },
        );
        assert(steps@ =~= optional(
            match self.optimized_model_file_path {
                Some(value) => Some(OptionStep::OptimizedModelPath(&value)),
                None => None,
            },
        ));
        push_optional(
            &mut steps,
            match self.deterministic_compute {
                Some(value) => Some(OptionStep::Deterministic(value)),
                None => None,
            },
        );
        push_optional(
            &mut steps,
            match self.load_cancellation_flag {
                Some(value) => Some(OptionStep::LoadCancellation(value)),
                None => None,
            },
        );
        push_optional(
            &mut steps,
            match self.thread_handlers {
                Some(value) => Some(OptionStep::CreateThread(value.create)),
                None => None,
            },
        );
        push_optional(
            &mut steps,
            match self.thread_handlers {
                Some(value) => Some(OptionStep::ThreadCreationOptions(value.creation_options)),
                None => None,
            },
        );
        push_optional(
            &mut steps,
            match self.thread_handlers {
                Some(value) => Some(OptionStep::JoinThread(value.join)),
                None => None,
            },
        );
        push_optional(
            &mut steps,
            match self.ep_selection_delegate {
                Some(value) => Some(OptionStep::SelectionCallback(value)),
                None => None,
            },
        );
        steps
    }

    /// All calls that hand the configuration to the engine, in order.
    pub open spec fn steps<'a>(self, attach_logger: bool) -> Seq<OptionStep<'a>> {
        self.model_steps() + self.log_steps() + self.queue_steps() + self.logger_steps(attach_logger)
            + self.callback_steps()
    }

    /// The call for the logging callback, where it is attached.
    pub open spec fn logger_steps<'a>(self, attach_logger: bool) -> Seq<OptionStep<'a>> {
        optional(
            match self.user_logger {
                Some(logger) if attach_logger => Some(OptionStep::UserLogger(logger)),
                _ => None,
            },
        )
    }

    fn build_handle_inner<'a>(&'a self, attach_logger: bool) -> (build: CallPlan<OptionStep<'a>>)
        ensures
            build.fresh(self.steps(attach_logger)),
    {
        let mut steps = self.list_model_steps();
        let mut log = self.list_log_steps();
        let mut queue = self.list_queue_steps();
        let mut callbacks = self.list_callback_steps();
        steps.append(&mut log);
        steps.append(&mut queue);
        push_optional(
            &mut steps,
            match self.user_logger {
                Some(logger) if attach_logger => Some(OptionStep::UserLogger(logger)),
                _ => None,
            },
        );
        steps.append(&mut callbacks);
        CallPlan::new(steps)
    }

    /// The calls for a handle that is only asked about and released: without the logging callback,
    /// which the engine would keep.
    pub fn build_handle<'a>(&'a self) -> (build: CallPlan<OptionStep<'a>>)
        ensures
            build.fresh(self.steps(false)),
    {
        self.build_handle_inner(false)
    }

    /// The calls for a handle that a session is made from, once the streams that the providers are
    /// given have been found valid.
    pub fn build_handle_for_session<'a>(&'a self, streams: Result<(), Error>) -> (build: Result<
        CallPlan<OptionStep<'a>>,
        Error,
    >)
        ensures
            match streams {
                Ok(()) => build matches Ok(build) && build.fresh(self.steps(true)),
                Err(error) => build == Err::<CallPlan<OptionStep<'a>>, Error>(error),
            },
    {
        match streams {
            Ok(()) => Ok(self.build_handle_inner(true)),
            Err(error) => Err(error),
        }
    }
}

/// The text that an entry's bytes hold: up to the first NUL byte.
pub open spec fn entry_bytes(bytes: Seq<u8>) -> Seq<u8> {
    if bytes.contains(0u8) {
        bytes.take(bytes.index_of_first(0u8)->Some_0)
    } else {
        bytes
    }
}

/// What the engine's answers say of an entry: its size, zero where there is none, and its bytes.
pub fn read_config_entry(size: usize, filled: Result<Vec<u8>, Error>) -> (entry: Result<
    Option<String>,
    Error,
>)
    ensures
        if size == 0 {
            entry == Ok::<Option<String>, Error>(None)
        } else {
            match filled {
                Err(error) => entry == Err::<Option<String>, Error>(error),
                Ok(bytes) => if vstd::utf8::valid_utf8(entry_bytes(bytes@)) {
                    entry matches Ok(Some(text)) && vstd::utf8::encode_utf8(text@) == entry_bytes(
                        bytes@,
                    )
                } else {
                    entry == Err::<Option<String>, Error>(Error::Fault(Fault::ConfigEntryNotUtf8))
                },
            }
        },
{
    if size == 0 {
        return Ok(None);
    }
    let mut bytes: Vec<u8> = match filled {
        Ok(bytes) => bytes,
        Err(error) => return Err(error),
    };
    let ghost all = bytes@;
    let mut nul: usize = 0;
    while nul < bytes.len() && bytes[nul] != 0
        invariant
            nul <= bytes@.len(),
            bytes@ == all,
            forall|k: int| 0 <= k < nul ==> bytes@[k] != 0,
        decreases bytes@.len() - nul,
    {
        nul = nul + 1;
    }
    proof {
        all.index_of_first_ensures(0u8);
        if nul < all.len() {
            assert(all[nul as int] == 0);
        }
        assert(all.take(all.len() as int) =~= all);
    }
    bytes.truncate(nul);
    assert(bytes@ =~= entry_bytes(all));
    match utf8_text(bytes.as_slice()) {
        Some(text) => Ok(Some(text.to_owned())),
        None => fail(Fault::ConfigEntryNotUtf8),
    }
}

/// A key that the engine is asked about may hold no NUL byte.
pub fn check_config_key(key: &str) -> (checked: Result<(), Error>)
    ensures
        checked == if crate::text::has_nul(key@) {
            Err::<(), Error>(Error::Fault(Fault::ConfigKeyNul))
        } else {
            Ok(())
        },
{
    if contains_nul(key) {
        return fail(Fault::ConfigKeyNul);
    }
    Ok(())
}

impl SessionOptions {
    /// Whether there is an entry: `built` is what came of building the handle, and `reply` what the
    /// engine says of it.
    pub fn has_config_entry(
        &self,
        key: &str,
        built: Result<(), Error>,
        reply: Result<i32, Error>,
    ) -> (present: Result<bool, Error>)
        ensures
            match built {
                Err(error) => present == Err::<bool, Error>(error),
                Ok(()) => if crate::text::has_nul(key@) {
                    present == Err::<bool, Error>(Error::Fault(Fault::ConfigKeyNul))
                } else {
                    match reply {
                        Ok(number) => present == Ok::<bool, Error>(number != 0),
                        Err(error) => present == Err::<bool, Error>(error),
                    }
                },
            },
    {
        match built {
            Err(error) => return Err(error),
            Ok(()) => {},
        }
        match check_config_key(key) {
            Err(error) => return Err(error),
            Ok(()) => {},
        }
        match reply {
            Ok(number) => Ok(number != 0),
            Err(error) => Err(error),
        }
    }

    /// The value of an entry: `built` is what came of building the handle, `size` the size that the
    /// engine gives and `filled` the bytes.
    pub fn config_entry(
        &self,
        key: &str,
        built: Result<(), Error>,
        size: usize,
        filled: Result<Vec<u8>, Error>,
    ) -> (entry: Result<Option<String>, Error>)
        ensures
            match built {
                Err(error) => entry == Err::<Option<String>, Error>(error),
                Ok(()) => if crate::text::has_nul(key@) {
                    entry == Err::<Option<String>, Error>(Error::Fault(Fault::ConfigKeyNul))
                } else if size == 0 {
                    entry == Ok::<Option<String>, Error>(None)
                } else {
                    match filled {
                        Err(error) => entry == Err::<Option<String>, Error>(error),
                        Ok(bytes) => if vstd::utf8::valid_utf8(entry_bytes(bytes@)) {
                            entry matches Ok(Some(text)) && vstd::utf8::encode_utf8(text@)
                                == entry_bytes(bytes@)
                        } else {
                            entry == Err::<Option<String>, Error>(
                                Error::Fault(Fault::ConfigEntryNotUtf8),
                            )
                        },
                    }
                },
            },
    {
        match built {
            Err(error) => return Err(error),
            Ok(()) => {},
        }
        match check_config_key(key) {
            Err(error) => return Err(error),
            Ok(()) => {},
        }
        read_config_entry(size, filled)
    }

    /// Whether memory is planned from patterns: what came of building the handle, and what the
    /// engine says of it.
    pub fn mem_pattern_enabled(&self, built: Result<(), Error>, reply: Result<i32, Error>) -> (enabled:
        Result<bool, Error>)
        ensures
            match (built, reply) {
                (Err(error), _) => enabled == Err::<bool, Error>(error),
                (Ok(()), Err(error)) => enabled == Err::<bool, Error>(error),
                (Ok(()), Ok(number)) => enabled == Ok::<bool, Error>(number != 0),
            },
    {
        match built {
            Err(error) => return Err(error),
            Ok(()) => {},
        }
        match reply {
            Ok(number) => Ok(number != 0),
            Err(error) => Err(error),
        }
    }

    /// All entries: what came of building the handle, and the engine's list, which is missing where
    /// there are none.
    pub fn config_entries(
        &self,
        built: Result<(), Error>,
        reply: Result<Option<Vec<(String, String)>>, Error>,
    ) -> (entries: Result<Vec<(String, String)>, Error>)
        ensures
            match (built, reply) {
                (Err(error), _) => entries == Err::<Vec<(String, String)>, Error>(error),
                (Ok(()), Err(error)) => entries == Err::<Vec<(String, String)>, Error>(error),
                (Ok(()), Ok(None)) => entries matches Ok(list) && list@.len() == 0,
                (Ok(()), Ok(Some(list))) => entries == Ok::<Vec<(String, String)>, Error>(list),
            },
    {
        match built {
            Err(error) => return Err(error),
            Ok(()) => {},
        }
        match reply {
            Err(error) => Err(error),
            Ok(None) => Ok(Vec::new()),
            Ok(Some(list)) => Ok(list),
        }
    }

    /// The execution mode: what came of building the handle, and what the engine says of it.
    pub fn execution_mode(
        &self,
        built: Result<(), Error>,
        reply: Result<ExecutionMode, Error>,
    ) -> (mode: Result<ExecutionMode, Error>)
        ensures
            mode == match built {
                Err(error) => Err::<ExecutionMode, Error>(error),
                Ok(()) => reply,
            },
    {
        match built {
            Err(error) => Err(error),
            Ok(()) => reply,
        }
    }

    /// A handle of the caller's own: what came of building the handle, and the engine's copy of it,
    /// which must not be null.
    pub fn clone_ort_handle(&self, built: Result<(), Error>, reply: Result<u64, Error>) -> (handle:
        Result<u64, Error>)
        ensures
            match (built, reply) {
                (Err(error), _) => handle == Err::<u64, Error>(error),
                (Ok(()), Err(error)) => handle == Err::<u64, Error>(error),
                (Ok(()), Ok(copy)) => handle == (if copy == 0 {
                    Err::<u64, Error>(Error::Fault(Fault::ClonedOptionsNull))
                } else {
                    Ok(copy)
                }),
            },
    {
        match built {
            Err(error) => return Err(error),
            Ok(()) => {},
        }
        match reply {
            Err(error) => Err(error),
            Ok(copy) => if copy == 0 {
                fail(Fault::ClonedOptionsNull)
            } else {
                Ok(copy)
            },
        }
    }
}

/// A step that attaches the logging callback.
pub open spec fn attaches_logger(step: OptionStep<'_>) -> bool {
    step is UserLogger
}

/// None of the steps attaches the logging callback.
pub open spec fn attach_nothing(steps: Seq<OptionStep<'_>>) -> bool {
    forall|i: int| 0 <= i < steps.len() ==> !attaches_logger(#[trigger] steps[i])
}

broadcast proof fn lemma_attach_nothing(front: Seq<OptionStep<'_>>, back: Seq<OptionStep<'_>>)
    requires
        attach_nothing(front),
        attach_nothing(back),
    ensures
        #[trigger] attach_nothing(front + back),
{
}

proof fn lemma_model_attach_nothing(options: SessionOptions)
    ensures
        attach_nothing(options.model_steps()),
{
    broadcast use lemma_attach_nothing;
}

proof fn lemma_log_attach_nothing(options: SessionOptions)
    ensures
        attach_nothing(options.log_steps()),
{
    broadcast use lemma_attach_nothing;
}

proof fn lemma_queue_attach_nothing(options: SessionOptions)
    ensures
        attach_nothing(options.queue_steps()),
{
    broadcast use lemma_attach_nothing;
}

proof fn lemma_callback_attach_nothing(options: SessionOptions)
    ensures
        attach_nothing(options.callback_steps()),
{
    broadcast use lemma_attach_nothing;
}

/// A handle that is only asked about never gets the logging callback. One that a session is made
/// from gets it exactly once where there is one, and is otherwise built by the same calls.
pub proof fn queries_attach_no_logger(options: SessionOptions)
    ensures
        attach_nothing(options.steps(false)),
        options.user_logger is None ==> options.steps(true) == options.steps(false),
        options.user_logger matches Some(logger) ==> exists|at: int|
            0 <= at < options.steps(true).len() && #[trigger] options.steps(true)[at]
                == OptionStep::UserLogger(logger) && options.steps(true).remove(at)
                == options.steps(false),
{
    let front = options.model_steps() + options.log_steps() + options.queue_steps();
    let back = options.callback_steps();
    lemma_model_attach_nothing(options);
    lemma_log_attach_nothing(options);
    lemma_queue_attach_nothing(options);
    lemma_callback_attach_nothing(options);
    lemma_attach_nothing(options.model_steps(), options.log_steps());
    lemma_attach_nothing(options.model_steps() + options.log_steps(), options.queue_steps());
    lemma_attach_nothing(front, options.logger_steps(false));
    lemma_attach_nothing(front + options.logger_steps(false), back);
    if let Some(logger) = options.user_logger {
        let step = OptionStep::UserLogger(logger);
        lemma_remove_middle(front, step, back);
        assert(options.logger_steps(true) =~= seq![step]);
        assert(options.logger_steps(false) =~= Seq::empty());
        assert(options.steps(true) == front + seq![step] + back);
        assert(options.steps(true)[front.len() as int] == step);
    }
}

proof fn lemma_remove_middle<'a>(
    front: Seq<OptionStep<'a>>,
    step: OptionStep<'a>,
    back: Seq<OptionStep<'a>>,
)
    ensures
        (front + seq![step] + back)[front.len() as int] == step,
        (front + seq![step] + back).remove(front.len() as int) == front + Seq::empty() + back,
{
    assert((front + seq![step] + back).remove(front.len() as int) =~= front + Seq::empty() + back);
}

/// Reading back an entry gives the text that was written: the engine holds its bytes, ended by a
/// NUL byte.
pub proof fn entries_read_back(value: Seq<char>, text: Seq<char>)
    requires
        !crate::text::has_nul(value),
        vstd::utf8::encode_utf8(text) == entry_bytes(vstd::utf8::encode_utf8(value).push(0u8)),
    ensures
        text == value,
        vstd::utf8::valid_utf8(entry_bytes(vstd::utf8::encode_utf8(value).push(0u8))),
{
    let written = vstd::utf8::encode_utf8(value);
    let held = written.push(0u8);
    assert(held[written.len() as int] == 0u8);
    held.index_of_first_ensures(0u8);
    let at = held.index_of_first(0u8)->Some_0;
    if at < written.len() {
        assert(written[at] == 0u8);
    }
    assert(held.take(at) =~= written);
    vstd::utf8::encode_utf8_valid_utf8(value);
    vstd::utf8::encode_utf8_decode_utf8(value);
    vstd::utf8::encode_utf8_decode_utf8(text);
}

} // verus!
