//! The part of a configuration that is written down, as plain values.
//!
//! Providers are written down by the numbers that their configurations are known by. Other handles,
//! callbacks and paths are not written down: they are as by default when a configuration is read
//! back.
use vstd::prelude::*;

use crate::serde_support::graph_opt::UnknownLevel;
use crate::serde_support::{graph_opt, kv_i64_pairs, kv_pairs, opt_cstr};
use crate::session_options::{copy_handles, ArenaState, MemPatternState, SessionOptions};
use crate::text::NulError;

verus! {

/// A configuration as plain values.
#[derive(Debug)]
pub struct OptionsRecord {
    /// The engine's number of the level of graph rewriting.
    pub opt_level: i32,
    /// The threads within a node.
    pub intra_threads: Option<i32>,
    /// The threads across nodes.
    pub inter_threads: Option<i32>,
    /// The name that messages carry.
    pub log_id: Option<String>,
    /// From which severity on messages are logged.
    pub log_severity: Option<i32>,
    /// How verbose messages are.
    pub log_verbosity: Option<i32>,
    /// Whether an arena is kept.
    pub cpu_mem_arena: ArenaState,
    /// Whether memory is planned from patterns.
    pub mem_pattern: MemPatternState,
    /// Whether the environment's threads are used where it has some.
    pub use_global_thread_pool: bool,
    /// The values of dimensions, by denotation.
    pub free_dimension_overrides: Vec<(String, i64)>,
    /// The values of dimensions, by name.
    pub free_dimension_overrides_by_name: Vec<(String, i64)>,
    /// The entries, in order.
    pub config_entries: Vec<(String, String)>,
    /// The queued providers, in order.
    pub ep_configs: Vec<u64>,
    /// The queued MIGraphX configurations, in order.
    pub migraphx: Vec<u64>,
    /// The queued OpenVINO configurations, in order.
    pub openvino: Vec<u64>,
}

/// Why a record is no configuration.
#[derive(Debug, Clone, Copy, PartialEq, Eq, Structural)]
pub enum RecordError {
    /// The number is no level of graph rewriting.
    Level(UnknownLevel),
    /// A text holds a NUL byte.
    Nul(NulError),
}

/// The text of a name that may be missing.
pub open spec fn name_is_clean(name: Option<String>) -> bool {
    name matches Some(name) ==> !crate::text::has_nul(name@)
}

/// No key or name of the pairs holds a NUL byte.
pub open spec fn keys_are_clean(pairs: Seq<(String, i64)>) -> bool {
    forall|i: int| 0 <= i < pairs.len() ==> kv_i64_pairs::is_clean(#[trigger] pairs[i])
}

/// No key or value of the entries holds a NUL byte.
pub open spec fn entries_are_clean(pairs: Seq<(String, String)>) -> bool {
    forall|i: int| 0 <= i < pairs.len() ==> kv_pairs::is_clean(#[trigger] pairs[i])
}

/// The first pair whose key holds a NUL byte holds it at `position`.
pub open spec fn key_nul_at(pairs: Seq<(String, i64)>, position: int) -> bool {
    exists|i: int|
        0 <= i < pairs.len() && !kv_i64_pairs::is_clean(#[trigger] pairs[i]) && position
            == kv_i64_pairs::refused_at(pairs[i]) && forall|k: int|
            0 <= k < i ==> kv_i64_pairs::is_clean(#[trigger] pairs[k])
}

/// The first entry that holds a NUL byte holds it at `position`.
pub open spec fn entry_nul_at(pairs: Seq<(String, String)>, position: int) -> bool {
    exists|i: int|
        0 <= i < pairs.len() && !kv_pairs::is_clean(#[trigger] pairs[i]) && position
            == kv_pairs::refused_at(pairs[i]) && forall|k: int|
            0 <= k < i ==> kv_pairs::is_clean(#[trigger] pairs[k])
}

impl OptionsRecord {
    /// The first text of the record that holds a NUL byte holds it at `position`.
    pub open spec fn nul_at(self, position: int) -> bool {
        if !name_is_clean(self.log_id) {
            position == crate::text::first_nul(self.log_id->Some_0@)
        } else if !keys_are_clean(self.free_dimension_overrides@) {
            key_nul_at(self.free_dimension_overrides@, position)
        } else if !keys_are_clean(self.free_dimension_overrides_by_name@) {
            key_nul_at(self.free_dimension_overrides_by_name@, position)
        } else {
            entry_nul_at(self.config_entries@, position)
        }
    }

    /// A configuration can be read from the record.
    pub open spec fn is_readable(self) -> bool {
        &&& graph_opt::is_level(self.opt_level)
        &&& name_is_clean(self.log_id)
        &&& keys_are_clean(self.free_dimension_overrides@)
        &&& keys_are_clean(self.free_dimension_overrides_by_name@)
        &&& entries_are_clean(self.config_entries@)
    }

    /// The record holds what is written down of the configuration.
    pub open spec fn records(self, options: SessionOptions) -> bool {
        &&& self.opt_level == options.opt_level.spec_discriminant()
        &&& self.intra_threads == options.intra_threads
        &&& self.inter_threads == options.inter_threads
        &&& match (self.log_id, options.log_id) {
            (Some(written), Some(text)) => written@ == text@,
            (None, None) => true,
            _ => false,
        }
        &&& self.log_severity == options.log_severity
        &&& self.log_verbosity == options.log_verbosity
        &&& self.cpu_mem_arena == options.cpu_mem_arena
        &&& self.mem_pattern == options.mem_pattern
        &&& self.use_global_thread_pool == options.use_global_thread_pool
        &&& kv_i64_pairs::is_written(
            options.free_dimension_overrides@,
            self.free_dimension_overrides@,
        )
        &&& kv_i64_pairs::is_written(
            options.free_dimension_overrides_by_name@,
            self.free_dimension_overrides_by_name@,
        )
        &&& kv_pairs::is_written(options.config_entries@, self.config_entries@)
        &&& self.ep_configs@ == options.ep_configs@
        &&& self.migraphx@ == options.migraphx@
        &&& self.openvino@ == options.openvino@
    }

    /// The record of a configuration.
    pub fn from_options(options: &SessionOptions) -> (record: OptionsRecord)
        ensures
            record.records(*options),
            record.is_readable(),
    {
        OptionsRecord {
            opt_level: graph_opt::serialize(&options.opt_level),
            intra_threads: options.intra_threads,
            inter_threads: options.inter_threads,
            log_id: opt_cstr::serialize(&options.log_id),
            log_severity: options.log_severity,
            log_verbosity: options.log_verbosity,
            cpu_mem_arena: options.cpu_mem_arena,
            mem_pattern: options.mem_pattern,
            use_global_thread_pool: options.use_global_thread_pool,
            free_dimension_overrides: kv_i64_pairs::serialize(&options.free_dimension_overrides),
            free_dimension_overrides_by_name: kv_i64_pairs::serialize(
                &options.free_dimension_overrides_by_name,
            ),
            config_entries: kv_pairs::serialize(&options.config_entries),
            ep_configs: copy_handles(&options.ep_configs),
            migraphx: copy_handles(&options.migraphx),
            openvino: copy_handles(&options.openvino),
        }
    }

    /// The configuration of a record.
    pub fn into_options(self) -> (options: Result<SessionOptions, RecordError>)
        ensures
            match options {
                Ok(options) => self.is_readable() && self.records(options)
                    && options.skipped_are_default(),
                Err(RecordError::Level(error)) => !graph_opt::is_level(self.opt_level)
                    && error.number == self.opt_level,
                Err(RecordError::Nul(error)) => graph_opt::is_level(self.opt_level)
                    && !self.is_readable() && self.nul_at(error.position as int),
            },
    {
        let opt_level = match graph_opt::deserialize(self.opt_level) {
            Ok(level) => level,
            Err(error) => return Err(RecordError::Level(error)),
        };
        let log_id = match opt_cstr::deserialize(self.log_id) {
            Ok(text) => text,
            Err(error) => return Err(RecordError::Nul(error)),
        };
        let free_dimension_overrides = match kv_i64_pairs::deserialize(
            self.free_dimension_overrides,
        ) {
            Ok(pairs) => pairs,
            Err(error) => return Err(RecordError::Nul(error)),
        };
        let free_dimension_overrides_by_name = match kv_i64_pairs::deserialize(
            self.free_dimension_overrides_by_name,
        ) {
            Ok(pairs) => pairs,
            Err(error) => return Err(RecordError::Nul(error)),
        };
        let config_entries = match kv_pairs::deserialize(self.config_entries) {
            Ok(pairs) => pairs,
            Err(error) => return Err(RecordError::Nul(error)),
        };
        Ok(
            SessionOptions {
                opt_level,
                intra_threads: self.intra_threads,
                inter_threads: self.inter_threads,
                log_id,
                log_severity: self.log_severity,
                log_verbosity: self.log_verbosity,
                cpu_mem_arena: self.cpu_mem_arena,
                mem_pattern: self.mem_pattern,
                use_global_thread_pool: self.use_global_thread_pool,
                free_dimension_overrides,
                free_dimension_overrides_by_name,
                config_entries,
                ep_configs: self.ep_configs,
                migraphx: self.migraphx,
                openvino: self.openvino,
                ..SessionOptions::default()
            },
        )
    }
}

impl SessionOptions {
    /// What is not written down is as by default.
    pub open spec fn skipped_are_default(self) -> bool {
        &&& self.execution_mode is None
        &&& self.user_logger is None
        &&& self.profiling_prefix is None
        &&& self.ep_selection_policy is None
        &&& self.custom_op_domains@.len() == 0
        &&& !self.enable_ort_custom_ops
        &&& self.custom_op_libraries@.len() == 0
        &&& self.custom_op_libraries_v1@.len() == 0
        &&& self.custom_op_functions@.len() == 0
        &&& self.optimized_model_file_path is None
        &&& self.deterministic_compute is None
        &&& self.load_cancellation_flag is None
        &&& self.thread_handlers is None
        &&& self.ep_selection_delegate is None
    }

    /// The same in everything that is written down.
    pub open spec fn is_written_like(self, other: SessionOptions) -> bool {
        &&& self.opt_level == other.opt_level
        &&& self.intra_threads == other.intra_threads
        &&& self.inter_threads == other.inter_threads
        &&& match (self.log_id, other.log_id) {
            (Some(one), Some(two)) => one@ == two@,
            (None, None) => true,
            _ => false,
        }
        &&& self.log_severity == other.log_severity
        &&& self.log_verbosity == other.log_verbosity
        &&& self.cpu_mem_arena == other.cpu_mem_arena
        &&& self.mem_pattern == other.mem_pattern
        &&& self.use_global_thread_pool == other.use_global_thread_pool
        &&& self.free_dimension_overrides@.len() == other.free_dimension_overrides@.len()
        &&& forall|i: int|
            #![trigger self.free_dimension_overrides@[i]]
            0 <= i < self.free_dimension_overrides@.len() ==> self.free_dimension_overrides@[i].0@
                == other.free_dimension_overrides@[i].0@ && self.free_dimension_overrides@[i].1
                == other.free_dimension_overrides@[i].1
        &&& self.free_dimension_overrides_by_name@.len()
            == other.free_dimension_overrides_by_name@.len()
        &&& forall|i: int|
            #![trigger self.free_dimension_overrides_by_name@[i]]
            0 <= i < self.free_dimension_overrides_by_name@.len()
                ==> self.free_dimension_overrides_by_name@[i].0@
                == other.free_dimension_overrides_by_name@[i].0@
                && self.free_dimension_overrides_by_name@[i].1
                == other.free_dimension_overrides_by_name@[i].1
        &&& self.config_entries@.len() == other.config_entries@.len()
        &&& forall|i: int|
            #![trigger self.config_entries@[i]]
            0 <= i < self.config_entries@.len() ==> self.config_entries@[i].0@
                == other.config_entries@[i].0@ && self.config_entries@[i].1@
                == other.config_entries@[i].1@
        &&& self.ep_configs@ == other.ep_configs@
        &&& self.migraphx@ == other.migraphx@
        &&& self.openvino@ == other.openvino@
    }
}

/// A configuration that is written down and read back is the same in everything that is written
/// down, its providers among them.
pub proof fn options_round_trip(
    options: SessionOptions,
    record: OptionsRecord,
    read: SessionOptions,
)
    requires
        record.records(options),
        record.records(read),
    ensures
        read.is_written_like(options),
{
    kv_i64_pairs::pairs_round_trip(
        options.free_dimension_overrides@,
        record.free_dimension_overrides@,
        read.free_dimension_overrides@,
    );
    kv_i64_pairs::pairs_round_trip(
        options.free_dimension_overrides_by_name@,
        record.free_dimension_overrides_by_name@,
        read.free_dimension_overrides_by_name@,
    );
    kv_pairs::pairs_round_trip(
        options.config_entries@,
        record.config_entries@,
        read.config_entries@,
    );
    graph_opt::levels_round_trip(options.opt_level, read.opt_level);
}

} // verus!
