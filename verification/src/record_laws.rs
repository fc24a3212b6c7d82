//! What configurations hold, and what is kept of them when they are written down.
use vstd::prelude::*;

use crate::session_options::{
    GraphOptimizationLevel, LoggingLevel, OptionStep, SessionOptions,
};
use crate::serde_support::record::OptionsRecord;
use crate::text::{CText, NulError};

verus! {

/// A record of a configuration holds each of its options in the option's own place.
pub proof fn records_hold_every_option(record: OptionsRecord, options: SessionOptions)
    requires
        record.records(options),
    ensures
        record.opt_level == options.opt_level.spec_discriminant(),
        record.intra_threads == options.intra_threads,
        record.inter_threads == options.inter_threads,
        record.log_id is Some <==> options.log_id is Some,
        record.log_id is Some ==> record.log_id->Some_0@ == options.log_id->Some_0@,
        record.log_severity == options.log_severity,
        record.log_verbosity == options.log_verbosity,
        record.cpu_mem_arena == options.cpu_mem_arena,
        record.mem_pattern == options.mem_pattern,
        record.use_global_thread_pool == options.use_global_thread_pool,
        record.free_dimension_overrides@.len() == options.free_dimension_overrides@.len(),
        record.free_dimension_overrides_by_name@.len() == options.free_dimension_overrides_by_name@.len(),
        record.config_entries@.len() == options.config_entries@.len(),
        forall|i: int|
            0 <= i < options.free_dimension_overrides@.len() ==> {
                &&& (#[trigger] record.free_dimension_overrides@[i]).0@
                    == options.free_dimension_overrides@[i].0@
                &&& record.free_dimension_overrides@[i].1 == options.free_dimension_overrides@[i].1
            },
        forall|i: int|
            0 <= i < options.free_dimension_overrides_by_name@.len() ==> {
                &&& (#[trigger] record.free_dimension_overrides_by_name@[i]).0@
                    == options.free_dimension_overrides_by_name@[i].0@
                &&& record.free_dimension_overrides_by_name@[i].1
                    == options.free_dimension_overrides_by_name@[i].1
            },
        forall|i: int|
            0 <= i < options.config_entries@.len() ==> {
                &&& (#[trigger] record.config_entries@[i]).0@ == options.config_entries@[i].0@
                &&& record.config_entries@[i].1@ == options.config_entries@[i].1@
            },
        record.ep_configs@ == options.ep_configs@,
        record.migraphx@ == options.migraphx@,
        record.openvino@ == options.openvino@,
{
    assert forall|i: int| 0 <= i < options.free_dimension_overrides@.len() implies {
        &&& (#[trigger] record.free_dimension_overrides@[i]).0@ == options.free_dimension_overrides@[i].0@
        &&& record.free_dimension_overrides@[i].1 == options.free_dimension_overrides@[i].1
    } by {
        assert(crate::serde_support::kv_i64_pairs::same(
            options.free_dimension_overrides@[i],
            record.free_dimension_overrides@[i],
        ));
    }
    assert forall|i: int| 0 <= i < options.free_dimension_overrides_by_name@.len() implies {
        &&& (#[trigger] record.free_dimension_overrides_by_name@[i]).0@
            == options.free_dimension_overrides_by_name@[i].0@
        &&& record.free_dimension_overrides_by_name@[i].1
            == options.free_dimension_overrides_by_name@[i].1
    } by {
        assert(crate::serde_support::kv_i64_pairs::same(
            options.free_dimension_overrides_by_name@[i],
            record.free_dimension_overrides_by_name@[i],
        ));
    }
    assert forall|i: int| 0 <= i < options.config_entries@.len() implies {
        &&& (#[trigger] record.config_entries@[i]).0@ == options.config_entries@[i].0@
        &&& record.config_entries@[i].1@ == options.config_entries@[i].1@
    } by {
        assert(crate::serde_support::kv_pairs::same(
            options.config_entries@[i],
            record.config_entries@[i],
        ));
    }
}

/// A record can be read exactly where its level is one and no text of it holds a zero byte.
pub proof fn records_are_read_without_zero_bytes(record: OptionsRecord)
    ensures
        record.is_readable() <==> {
            &&& exists|level: GraphOptimizationLevel| #[trigger]
                level.spec_discriminant() == record.opt_level
            &&& record.log_id matches Some(name) ==> !vstd::utf8::encode_utf8(name@).contains(0u8)
            &&& forall|i: int|
                0 <= i < record.free_dimension_overrides@.len() ==> !vstd::utf8::encode_utf8(
                    (#[trigger] record.free_dimension_overrides@[i]).0@,
                ).contains(0u8)
            &&& forall|i: int|
                0 <= i < record.free_dimension_overrides_by_name@.len() ==> !vstd::utf8::encode_utf8(
                    (#[trigger] record.free_dimension_overrides_by_name@[i]).0@,
                ).contains(0u8)
            &&& forall|i: int|
                0 <= i < record.config_entries@.len() ==> !vstd::utf8::encode_utf8(
                    (#[trigger] record.config_entries@[i]).0@,
                ).contains(0u8) && !vstd::utf8::encode_utf8(record.config_entries@[i].1@).contains(0u8)
        },
{
    lemma_levels_have_numbers(record.opt_level);
    lemma_keys(record.free_dimension_overrides@);
    lemma_keys(record.free_dimension_overrides_by_name@);
    let entries = record.config_entries@;
    assert forall|i: int| 0 <= i < entries.len() implies (crate::serde_support::kv_pairs::is_clean(
        #[trigger] entries[i],
    ) <==> !vstd::utf8::encode_utf8(entries[i].0@).contains(0u8) && !vstd::utf8::encode_utf8(
        entries[i].1@,
    ).contains(0u8)) by {}
}

proof fn lemma_keys(pairs: Seq<(String, i64)>)
    ensures
        crate::serde_support::record::keys_are_clean(pairs) <==> forall|i: int|
            0 <= i < pairs.len() ==> !vstd::utf8::encode_utf8((#[trigger] pairs[i]).0@).contains(0u8),
{
    assert forall|i: int| 0 <= i < pairs.len() implies (crate::serde_support::kv_i64_pairs::is_clean(
        #[trigger] pairs[i],
    ) <==> !vstd::utf8::encode_utf8(pairs[i].0@).contains(0u8)) by {}
}

proof fn lemma_levels_have_numbers(number: i32)
    ensures
        crate::serde_support::graph_opt::is_level(number) <==> exists|level: GraphOptimizationLevel|
            #[trigger] level.spec_discriminant() == number,
{
    assert(GraphOptimizationLevel::DisableAll.spec_discriminant() == 0);
    assert(GraphOptimizationLevel::Basic.spec_discriminant() == 1);
    assert(GraphOptimizationLevel::Extended.spec_discriminant() == 2);
    assert(GraphOptimizationLevel::Layout.spec_discriminant() == 3);
    assert(GraphOptimizationLevel::All.spec_discriminant() == 99);
}

/// The next stronger level of optimization.
pub open spec fn stronger(level: GraphOptimizationLevel) -> GraphOptimizationLevel {
    match level {
        GraphOptimizationLevel::DisableAll => GraphOptimizationLevel::Basic,
        GraphOptimizationLevel::Basic => GraphOptimizationLevel::Extended,
        GraphOptimizationLevel::Extended => GraphOptimizationLevel::Layout,
        GraphOptimizationLevel::Layout | GraphOptimizationLevel::All => GraphOptimizationLevel::All,
    }
}

/// The next graver level of logging.
pub open spec fn graver(level: LoggingLevel) -> LoggingLevel {
    match level {
        LoggingLevel::Verbose => LoggingLevel::Info,
        LoggingLevel::Info => LoggingLevel::Warning,
        LoggingLevel::Warning => LoggingLevel::Error,
        LoggingLevel::Error | LoggingLevel::Fatal => LoggingLevel::Fatal,
    }
}

/// Levels are numbered from zero, each one above the one before it. Only the one that stands for all
/// optimizations is set apart.
pub proof fn levels_are_numbered_in_order(level: GraphOptimizationLevel, logging: LoggingLevel)
    ensures
        level.spec_discriminant() >= 0,
        level != GraphOptimizationLevel::All ==> level.spec_discriminant()
            < crate::record_laws::stronger(level).spec_discriminant(),
        crate::record_laws::stronger(level) != GraphOptimizationLevel::All
            ==> crate::record_laws::stronger(level).spec_discriminant() == level.spec_discriminant() + 1,
        logging.spec_number() >= 0,
        logging != LoggingLevel::Fatal ==> crate::record_laws::graver(logging).spec_number()
            == logging.spec_number() + 1,
{
}

/// Equal numbers stand for equal levels of logging.
pub proof fn logging_levels_have_their_number(one: LoggingLevel, other: LoggingLevel)
    ensures
        one.spec_number() == other.spec_number() <==> one == other,
{
}

/// What is read of an entry ends before its first zero byte, and nowhere else.
pub proof fn entries_end_at_the_first_zero_byte(bytes: Seq<u8>)
    ensures
        ({
            let read = crate::session_options::entry_bytes(bytes);
            &&& read.len() <= bytes.len()
            &&& read == bytes.take(read.len() as int)
            &&& forall|i: int| 0 <= i < read.len() ==> #[trigger] read[i] != 0u8
            &&& read.len() < bytes.len() ==> bytes[read.len() as int] == 0u8
        }),
{
    bytes.index_of_first_ensures(0u8);
    if !bytes.contains(0u8) {
        assert(bytes =~= bytes.take(bytes.len() as int));
        assert forall|i: int| 0 <= i < bytes.len() implies #[trigger] bytes[i] != 0u8 by {
            if bytes[i] == 0u8 {
                assert(bytes.contains(0u8));
            }
        }
    }
}

/// A text is taken exactly where it holds no zero byte, and is kept as it is. Otherwise the first zero byte is
/// named.
pub proof fn texts_are_kept_or_refused(text: Seq<char>, made: Result<CText, NulError>)
    requires
        crate::text::is_ctext(text, made),
    ensures
        made is Ok <==> !vstd::utf8::encode_utf8(text).contains(0u8),
        made matches Ok(copy) ==> copy@ == text,
        made matches Err(error) ==> {
            let bytes = vstd::utf8::encode_utf8(text);
            &&& error.position < bytes.len()
            &&& bytes[error.position as int] == 0u8
            &&& forall|i: int| 0 <= i < error.position ==> #[trigger] bytes[i] != 0u8
        },
{
    vstd::utf8::encode_utf8(text).index_of_first_ensures(0u8);
}

/// The two states of a switch are written differently, as one and zero.
pub proof fn switches_are_written_as_digits(enabled: bool)
    ensures
        crate::plan_laws::value_of(crate::session_options::spec_bool_config_value(enabled), 10) == (if enabled {
            1int
        } else {
            0
        }),
        crate::session_options::spec_bool_config_value(enabled).len() == 1,
{
    reveal_strlit("1");
    reveal_strlit("0");
    reveal_with_fuel(crate::plan_laws::value_of, 2);
    let text = crate::session_options::spec_bool_config_value(enabled);
    assert(text.drop_last() == Seq::<char>::empty());
}

/// Where nothing was chosen, the engine is told to optimize all it can and not to profile, and nothing else.
pub proof fn defaults_leave_the_engine_alone(options: SessionOptions, attach_logger: bool)
    requires
        options.is_default(),
    ensures
        options.steps(attach_logger) == seq![
            OptionStep::GraphOptimization(GraphOptimizationLevel::All),
            OptionStep::DisableProfiling,
        ],
        options.use_global_thread_pool,
{
    assert(options.model_steps() =~= seq![OptionStep::GraphOptimization(GraphOptimizationLevel::All)]);
    assert(options.log_steps() =~= seq![OptionStep::DisableProfiling]);
    assert(options.queue_steps() =~= Seq::<OptionStep>::empty());
    assert(options.callback_steps() =~= Seq::<OptionStep>::empty());
    assert(options.logger_steps(attach_logger) =~= Seq::<OptionStep>::empty());
}

/// An entry is put behind those that a configuration has, and nothing else of it changes.
pub proof fn entries_are_put_last(
    before: SessionOptions,
    key: Seq<char>,
    value: Seq<char>,
    after: SessionOptions,
)
    requires
        before.entered(key, value, after),
    ensures
        after.config_entries@.len() == before.config_entries@.len() + 1,
        after.config_entries@.take(before.config_entries@.len() as int) == before.config_entries@,
        after.config_entries@[before.config_entries@.len() as int].0@ == key,
        after.config_entries@[before.config_entries@.len() as int].1@ == value,
        after.opt_level == before.opt_level,
        after.ep_configs == before.ep_configs,
        after.free_dimension_overrides == before.free_dimension_overrides,
{
    assert(after.config_entries@.take(before.config_entries@.len() as int)
        =~= after.config_entries@.drop_last());
}

/// A copy of a configuration is handed over as the configuration is: the same lists in the same order.
pub proof fn copies_keep_every_option(one: SessionOptions, other: SessionOptions)
    requires
        one.same(other),
    ensures
        one.opt_level == other.opt_level,
        one.intra_threads == other.intra_threads,
        one.inter_threads == other.inter_threads,
        one.execution_mode == other.execution_mode,
        one.log_severity == other.log_severity,
        one.log_verbosity == other.log_verbosity,
        one.user_logger == other.user_logger,
        one.cpu_mem_arena == other.cpu_mem_arena,
        one.mem_pattern == other.mem_pattern,
        one.use_global_thread_pool == other.use_global_thread_pool,
        one.ep_selection_policy == other.ep_selection_policy,
        one.ep_configs@ == other.ep_configs@,
        one.migraphx@ == other.migraphx@,
        one.openvino@ == other.openvino@,
        one.custom_op_domains@ == other.custom_op_domains@,
        one.enable_ort_custom_ops == other.enable_ort_custom_ops,
        one.deterministic_compute == other.deterministic_compute,
        one.load_cancellation_flag == other.load_cancellation_flag,
        one.thread_handlers == other.thread_handlers,
        one.ep_selection_delegate == other.ep_selection_delegate,
        one.log_id is Some <==> other.log_id is Some,
        one.log_id is Some ==> one.log_id->Some_0@ == other.log_id->Some_0@,
        one.profiling_prefix is Some <==> other.profiling_prefix is Some,
        one.profiling_prefix is Some ==> one.profiling_prefix->Some_0@ == other.profiling_prefix->Some_0@,
        one.optimized_model_file_path is Some <==> other.optimized_model_file_path is Some,
        one.optimized_model_file_path is Some ==> one.optimized_model_file_path->Some_0@
            == other.optimized_model_file_path->Some_0@,
        one.config_entries@.len() == other.config_entries@.len(),
        forall|i: int|
            0 <= i < one.config_entries@.len() ==> (#[trigger] one.config_entries@[i]).0@
                == other.config_entries@[i].0@ && one.config_entries@[i].1@
                == other.config_entries@[i].1@,
        one.free_dimension_overrides@.len() == other.free_dimension_overrides@.len(),
        forall|i: int|
            0 <= i < one.free_dimension_overrides@.len() ==> (
            #[trigger] one.free_dimension_overrides@[i]).0@ == other.free_dimension_overrides@[i].0@
                && one.free_dimension_overrides@[i].1 == other.free_dimension_overrides@[i].1,
        one.free_dimension_overrides_by_name@.len() == other.free_dimension_overrides_by_name@.len(),
        forall|i: int|
            0 <= i < one.free_dimension_overrides_by_name@.len() ==> (
            #[trigger] one.free_dimension_overrides_by_name@[i]).0@
                == other.free_dimension_overrides_by_name@[i].0@
                && one.free_dimension_overrides_by_name@[i].1
                == other.free_dimension_overrides_by_name@[i].1,
        one.custom_op_libraries@.len() == other.custom_op_libraries@.len(),
        forall|i: int|
            0 <= i < one.custom_op_libraries@.len() ==> (#[trigger] one.custom_op_libraries@[i])@
                == other.custom_op_libraries@[i]@,
        one.custom_op_libraries_v1@.len() == other.custom_op_libraries_v1@.len(),
        forall|i: int|
            0 <= i < one.custom_op_libraries_v1@.len() ==> (#[trigger] one.custom_op_libraries_v1@[i])@
                == other.custom_op_libraries_v1@[i]@,
        one.custom_op_functions@.len() == other.custom_op_functions@.len(),
        forall|i: int|
            0 <= i < one.custom_op_functions@.len() ==> (#[trigger] one.custom_op_functions@[i])@
                == other.custom_op_functions@[i]@,
{
}

} // verus!
