//! What the calls that hand a configuration over amount to.
use vstd::prelude::*;

use crate::session_options::{ArenaState, MemPatternState, OptionStep, SessionOptions};

verus! {

/// Where a call stands in the order in which a configuration is handed over.
pub open spec fn rank<'a>(step: OptionStep<'a>) -> int {
    match step {
        OptionStep::GraphOptimization(_) => 0,
        OptionStep::IntraThreads(_) => 1,
        OptionStep::InterThreads(_) => 2,
        OptionStep::Execution(_) => 3,
        OptionStep::LogId(_) => 4,
        OptionStep::LogSeverity(_) => 5,
        OptionStep::LogVerbosity(_) => 6,
        OptionStep::EnableArena | OptionStep::DisableArena => 7,
        OptionStep::EnableMemPattern | OptionStep::DisableMemPattern => 8,
        OptionStep::EnableProfiling(_) | OptionStep::DisableProfiling => 9,
        OptionStep::FreeDimension(_, _) => 10,
        OptionStep::FreeDimensionByName(_, _) => 11,
        OptionStep::ConfigEntry(_, _) => 12,
        OptionStep::SelectionPolicy(_) => 13,
        OptionStep::Provider(_) => 14,
        OptionStep::Migraphx(_) => 15,
        OptionStep::Openvino(_) => 16,
        OptionStep::CustomOpDomain(_) => 17,
        OptionStep::EnableCustomOps => 18,
        OptionStep::CustomOpLibrary(_) => 19,
        OptionStep::CustomOpLibraryV1(_) => 20,
        OptionStep::CustomOpFunction(_) => 21,
        OptionStep::UserLogger(_) => 22,
        OptionStep::OptimizedModelPath(_) => 23,
        OptionStep::Deterministic(_) => 24,
        OptionStep::LoadCancellation(_) => 25,
        OptionStep::CreateThread(_) => 26,
        OptionStep::ThreadCreationOptions(_) => 27,
        OptionStep::JoinThread(_) => 28,
        OptionStep::SelectionCallback(_) => 29,
    }
}

/// The calls of one rank, in order.
pub open spec fn picked<'a>(steps: Seq<OptionStep<'a>>, k: int) -> Seq<OptionStep<'a>> {
    steps.filter(|step: OptionStep<'a>| rank(step) == k)
}

/// The calls of the same kind as another, in order.
pub open spec fn like<'a>(steps: Seq<OptionStep<'a>>, sample: OptionStep<'a>) -> Seq<OptionStep<'a>> {
    picked(steps, rank(sample))
}

/// What a configuration asks for by the calls of one rank.
#[verifier::opaque]
spec fn ranked<'a>(options: SessionOptions, attach_logger: bool, k: int) -> Seq<OptionStep<'a>> {
    if k == 0 {
        seq![OptionStep::GraphOptimization(options.opt_level)]
    } else if k == 1 {
        crate::session_options::optional(
            match options.intra_threads {
                Some(value) => Some(OptionStep::IntraThreads(value)),
                None => None,
            },
        )
    } else if k == 2 {
        crate::session_options::optional(
            match options.inter_threads {
                Some(value) => Some(OptionStep::InterThreads(value)),
                None => None,
            },
        )
    } else if k == 3 {
        crate::session_options::optional(
            match options.execution_mode {
                Some(value) => Some(OptionStep::Execution(value)),
                None => None,
            },
        )
    } else if k == 4 {
        crate::session_options::optional(
            match options.log_id {
                Some(value) => Some(OptionStep::LogId(&value)),
                None => None,
            },
        )
    } else if k == 5 {
        crate::session_options::optional(
            match options.log_severity {
                Some(value) => Some(OptionStep::LogSeverity(value)),
                None => None,
            },
        )
    } else if k == 6 {
        crate::session_options::optional(
            match options.log_verbosity {
                Some(value) => Some(OptionStep::LogVerbosity(value)),
                None => None,
            },
        )
    } else if k == 7 {
        crate::session_options::optional(
            match options.cpu_mem_arena {
                ArenaState::Default => None,
                ArenaState::Enabled => Some(OptionStep::EnableArena),
                ArenaState::Disabled => Some(OptionStep::DisableArena),
            },
        )
    } else if k == 8 {
        crate::session_options::optional(
            match options.mem_pattern {
                MemPatternState::Default => None,
                MemPatternState::Enabled => Some(OptionStep::EnableMemPattern),
                MemPatternState::Disabled => Some(OptionStep::DisableMemPattern),
            },
        )
    } else if k == 9 {
        crate::session_options::optional(
            match options.profiling_prefix {
                Some(value) => Some(OptionStep::EnableProfiling(&value)),
                None => Some(OptionStep::DisableProfiling),
            },
        )
    } else if k == 10 {
        crate::session_options::dimension_steps(options.free_dimension_overrides@)
    } else if k == 11 {
        crate::session_options::named_dimension_steps(options.free_dimension_overrides_by_name@)
    } else if k == 12 {
        crate::session_options::entry_steps(options.config_entries@)
    } else if k == 13 {
        crate::session_options::optional(
            match options.ep_selection_policy {
                Some(value) => Some(OptionStep::SelectionPolicy(value)),
                None => None,
            },
        )
    } else if k == 14 {
        crate::session_options::provider_steps(options.ep_configs@)
    } else if k == 15 {
        crate::session_options::migraphx_steps(options.migraphx@)
    } else if k == 16 {
        crate::session_options::openvino_steps(options.openvino@)
    } else if k == 17 {
        crate::session_options::domain_steps(options.custom_op_domains@)
    } else if k == 18 {
        crate::session_options::optional(
            if options.enable_ort_custom_ops {
                Some(OptionStep::EnableCustomOps)
            } else {
                None
            },
        )
    } else if k == 19 {
        crate::session_options::library_steps(options.custom_op_libraries@)
    } else if k == 20 {
        crate::session_options::old_library_steps(options.custom_op_libraries_v1@)
    } else if k == 21 {
        crate::session_options::function_steps(options.custom_op_functions@)
    } else if k == 22 {
        options.logger_steps(attach_logger)
    } else if k == 23 {
        crate::session_options::optional(
            match options.optimized_model_file_path {
                Some(value) => Some(OptionStep::OptimizedModelPath(&value)),
                None => None,
            },
        )
    } else if k == 24 {
        crate::session_options::optional(
            match options.deterministic_compute {
                Some(value) => Some(OptionStep::Deterministic(value)),
                None => None,
            },
        )
    } else if k == 25 {
        crate::session_options::optional(
            match options.load_cancellation_flag {
                Some(value) => Some(OptionStep::LoadCancellation(value)),
                None => None,
            },
        )
    } else if k == 26 {
        crate::session_options::optional(
            match options.thread_handlers {
                Some(value) => Some(OptionStep::CreateThread(value.create)),
                None => None,
            },
        )
    } else if k == 27 {
        crate::session_options::optional(
            match options.thread_handlers {
                Some(value) => Some(OptionStep::ThreadCreationOptions(value.creation_options)),
                None => None,
            },
        )
    } else if k == 28 {
        crate::session_options::optional(
            match options.thread_handlers {
                Some(value) => Some(OptionStep::JoinThread(value.join)),
                None => None,
            },
        )
    } else {
        crate::session_options::optional(
            match options.ep_selection_delegate {
                Some(value) => Some(OptionStep::SelectionCallback(value)),
                None => None,
            },
        )
    }
}

proof fn lemma_ranked<'a>(options: SessionOptions, attach_logger: bool, k: int, i: int)
    requires
        0 <= k < 30,
        0 <= i < ranked(options, attach_logger, k).len(),
    ensures
        rank(ranked(options, attach_logger, k)[i]) == k,
{
    reveal(ranked);
}

/// The calls of the first `n` ranks.
spec fn joined<'a>(options: SessionOptions, attach_logger: bool, n: int) -> Seq<OptionStep<'a>>
    decreases n,
{
    if n <= 0 {
        Seq::empty()
    } else {
        joined(options, attach_logger, n - 1) + ranked(options, attach_logger, n - 1)
    }
}

proof fn lemma_pick<'a>(
    options: SessionOptions,
    attach_logger: bool,
    n: int,
    k: int,
)
    requires
        0 <= n <= 30,
        0 <= k,
    ensures
        picked(joined(options, attach_logger, n), k) == if k < n {
            ranked(options, attach_logger, k)
        } else {
            Seq::<OptionStep<'a>>::empty()
        },
    decreases n,
{
    reveal(Seq::filter);
    let pick = |step: OptionStep<'a>| rank(step) == k;
    if n > 0 {
        lemma_pick(options, attach_logger, n - 1, k);
        let before: Seq<OptionStep<'a>> = joined(options, attach_logger, n - 1);
        let list: Seq<OptionStep<'a>> = ranked(options, attach_logger, n - 1);
        Seq::filter_distributes_over_add(before, list, pick);
        assert forall|i: int| 0 <= i < list.len() implies rank(#[trigger] list[i]) == n - 1 by {
            lemma_ranked(options, attach_logger, n - 1, i);
        }
        if k == n - 1 {
            lemma_all(list, pick);
            assert(Seq::<OptionStep<'a>>::empty() + list =~= list);
        } else {
            lemma_none(list, pick);
            assert(before.filter(pick) + Seq::empty() =~= before.filter(pick));
        }
    } else {
        assert(Seq::<OptionStep<'a>>::empty().filter(pick) =~= Seq::empty());
    }
}

proof fn lemma_all<'a>(list: Seq<OptionStep<'a>>, pick: spec_fn(OptionStep<'a>) -> bool)
    requires
        forall|i: int| 0 <= i < list.len() ==> pick(#[trigger] list[i]),
    ensures
        list.filter(pick) == list,
    decreases list.len(),
{
    reveal(Seq::filter);
    if list.len() > 0 {
        assert forall|i: int| 0 <= i < list.drop_last().len() implies pick(
            #[trigger] list.drop_last()[i],
        ) by {
            assert(list[i] == list.drop_last()[i]);
        }
        lemma_all(list.drop_last(), pick);
        assert(list.drop_last().push(list.last()) =~= list);
    } else {
        assert(list.filter(pick) =~= list);
    }
}

proof fn lemma_none<'a>(list: Seq<OptionStep<'a>>, pick: spec_fn(OptionStep<'a>) -> bool)
    requires
        forall|i: int| 0 <= i < list.len() ==> !pick(#[trigger] list[i]),
    ensures
        list.filter(pick) == Seq::<OptionStep<'a>>::empty(),
    decreases list.len(),
{
    reveal(Seq::filter);
    if list.len() > 0 {
        assert forall|i: int| 0 <= i < list.drop_last().len() implies !pick(
            #[trigger] list.drop_last()[i],
        ) by {
            assert(list[i] == list.drop_last()[i]);
        }
        lemma_none(list.drop_last(), pick);
    } else {
        assert(list.filter(pick) =~= list);
    }
}

proof fn lemma_sorted<'a>(options: SessionOptions, attach_logger: bool, n: int)
    requires
        0 <= n <= 30,
    ensures
        ({
            let all: Seq<OptionStep<'a>> = joined(options, attach_logger, n);
            &&& forall|i: int| 0 <= i < all.len() ==> rank(#[trigger] all[i]) < n
            &&& forall|i: int, j: int|
                0 <= i <= j < all.len() ==> rank(#[trigger] all[i]) <= rank(#[trigger] all[j])
        }),
    decreases n,
{
    if n > 0 {
        lemma_sorted(options, attach_logger, n - 1);
        let before: Seq<OptionStep<'a>> = joined(options, attach_logger, n - 1);
        let list: Seq<OptionStep<'a>> = ranked(options, attach_logger, n - 1);
        let all: Seq<OptionStep<'a>> = joined(options, attach_logger, n);
        assert(all == before + list);
        assert forall|i: int| 0 <= i < all.len() implies rank(#[trigger] all[i]) < n && (i
            >= before.len() ==> rank(all[i]) == n - 1) && (i < before.len() ==> all[i]
            == before[i]) by {
            if i >= before.len() {
                assert(all[i] == list[i - before.len()]);
                lemma_ranked(options, attach_logger, n - 1, i - before.len());
            }
        }
    }
}

proof fn lemma_model<'a>(options: SessionOptions, attach_logger: bool)
    ensures
        joined(options, attach_logger, 4) == joined(options, attach_logger, 0) + options.model_steps(),
{
    let before: Seq<OptionStep<'a>> = joined(options, attach_logger, 0);
    let list: Seq<OptionStep<'a>> = ranked(options, attach_logger, 0);
    let part: Seq<OptionStep<'a>> = list;
    assert(joined(options, attach_logger, 1) =~= before + part);
    let list: Seq<OptionStep<'a>> = ranked(options, attach_logger, 1);
    let part: Seq<OptionStep<'a>> = part + list;
    assert(joined(options, attach_logger, 2) =~= before + part);
    let list: Seq<OptionStep<'a>> = ranked(options, attach_logger, 2);
    let part: Seq<OptionStep<'a>> = part + list;
    assert(joined(options, attach_logger, 3) =~= before + part);
    let list: Seq<OptionStep<'a>> = ranked(options, attach_logger, 3);
    let part: Seq<OptionStep<'a>> = part + list;
    assert(joined(options, attach_logger, 4) =~= before + part);
    assert(part == options.model_steps()) by {
        reveal(ranked);
    }
}

proof fn lemma_log<'a>(options: SessionOptions, attach_logger: bool)
    ensures
        joined(options, attach_logger, 10) == joined(options, attach_logger, 4) + options.log_steps(),
{
    let before: Seq<OptionStep<'a>> = joined(options, attach_logger, 4);
    let list: Seq<OptionStep<'a>> = ranked(options, attach_logger, 4);
    let part: Seq<OptionStep<'a>> = list;
    assert(joined(options, attach_logger, 5) =~= before + part);
    let list: Seq<OptionStep<'a>> = ranked(options, attach_logger, 5);
    let part: Seq<OptionStep<'a>> = part + list;
    assert(joined(options, attach_logger, 6) =~= before + part);
    let list: Seq<OptionStep<'a>> = ranked(options, attach_logger, 6);
    let part: Seq<OptionStep<'a>> = part + list;
    assert(joined(options, attach_logger, 7) =~= before + part);
    let list: Seq<OptionStep<'a>> = ranked(options, attach_logger, 7);
    let part: Seq<OptionStep<'a>> = part + list;
    assert(joined(options, attach_logger, 8) =~= before + part);
    let list: Seq<OptionStep<'a>> = ranked(options, attach_logger, 8);
    let part: Seq<OptionStep<'a>> = part + list;
    assert(joined(options, attach_logger, 9) =~= before + part);
    let list: Seq<OptionStep<'a>> = ranked(options, attach_logger, 9);
    let part: Seq<OptionStep<'a>> = part + list;
    assert(joined(options, attach_logger, 10) =~= before + part);
    assert(part == options.log_steps()) by {
        reveal(ranked);
    }
}

proof fn lemma_queue<'a>(options: SessionOptions, attach_logger: bool)
    ensures
        joined(options, attach_logger, 22) == joined(options, attach_logger, 10) + options.queue_steps(),
{
    let before: Seq<OptionStep<'a>> = joined(options, attach_logger, 10);
    let list: Seq<OptionStep<'a>> = ranked(options, attach_logger, 10);
    let part: Seq<OptionStep<'a>> = list;
    assert(joined(options, attach_logger, 11) =~= before + part);
    let list: Seq<OptionStep<'a>> = ranked(options, attach_logger, 11);
    let part: Seq<OptionStep<'a>> = part + list;
    assert(joined(options, attach_logger, 12) =~= before + part);
    let list: Seq<OptionStep<'a>> = ranked(options, attach_logger, 12);
    let part: Seq<OptionStep<'a>> = part + list;
    assert(joined(options, attach_logger, 13) =~= before + part);
    let list: Seq<OptionStep<'a>> = ranked(options, attach_logger, 13);
    let part: Seq<OptionStep<'a>> = part + list;
    assert(joined(options, attach_logger, 14) =~= before + part);
    let list: Seq<OptionStep<'a>> = ranked(options, attach_logger, 14);
    let part: Seq<OptionStep<'a>> = part + list;
    assert(joined(options, attach_logger, 15) =~= before + part);
    let list: Seq<OptionStep<'a>> = ranked(options, attach_logger, 15);
    let part: Seq<OptionStep<'a>> = part + list;
    assert(joined(options, attach_logger, 16) =~= before + part);
    let list: Seq<OptionStep<'a>> = ranked(options, attach_logger, 16);
    let part: Seq<OptionStep<'a>> = part + list;
    assert(joined(options, attach_logger, 17) =~= before + part);
    let list: Seq<OptionStep<'a>> = ranked(options, attach_logger, 17);
    let part: Seq<OptionStep<'a>> = part + list;
    assert(joined(options, attach_logger, 18) =~= before + part);
    let list: Seq<OptionStep<'a>> = ranked(options, attach_logger, 18);
    let part: Seq<OptionStep<'a>> = part + list;
    assert(joined(options, attach_logger, 19) =~= before + part);
    let list: Seq<OptionStep<'a>> = ranked(options, attach_logger, 19);
    let part: Seq<OptionStep<'a>> = part + list;
    assert(joined(options, attach_logger, 20) =~= before + part);
    let list: Seq<OptionStep<'a>> = ranked(options, attach_logger, 20);
    let part: Seq<OptionStep<'a>> = part + list;
    assert(joined(options, attach_logger, 21) =~= before + part);
    let list: Seq<OptionStep<'a>> = ranked(options, attach_logger, 21);
    let part: Seq<OptionStep<'a>> = part + list;
    assert(joined(options, attach_logger, 22) =~= before + part);
    assert(part == options.queue_steps()) by {
        reveal(ranked);
    }
}

proof fn lemma_logger<'a>(options: SessionOptions, attach_logger: bool)
    ensures
        joined(options, attach_logger, 23) == joined(options, attach_logger, 22) + options.logger_steps(attach_logger),
{
    let before: Seq<OptionStep<'a>> = joined(options, attach_logger, 22);
    let list: Seq<OptionStep<'a>> = ranked(options, attach_logger, 22);
    let part: Seq<OptionStep<'a>> = list;
    assert(joined(options, attach_logger, 23) =~= before + part);
    assert(part == options.logger_steps(attach_logger)) by {
        reveal(ranked);
    }
}

proof fn lemma_callback<'a>(options: SessionOptions, attach_logger: bool)
    ensures
        joined(options, attach_logger, 30) == joined(options, attach_logger, 23) + options.callback_steps(),
{
    let before: Seq<OptionStep<'a>> = joined(options, attach_logger, 23);
    let list: Seq<OptionStep<'a>> = ranked(options, attach_logger, 23);
    let part: Seq<OptionStep<'a>> = list;
    assert(joined(options, attach_logger, 24) =~= before + part);
    let list: Seq<OptionStep<'a>> = ranked(options, attach_logger, 24);
    let part: Seq<OptionStep<'a>> = part + list;
    assert(joined(options, attach_logger, 25) =~= before + part);
    let list: Seq<OptionStep<'a>> = ranked(options, attach_logger, 25);
    let part: Seq<OptionStep<'a>> = part + list;
    assert(joined(options, attach_logger, 26) =~= before + part);
    let list: Seq<OptionStep<'a>> = ranked(options, attach_logger, 26);
    let part: Seq<OptionStep<'a>> = part + list;
    assert(joined(options, attach_logger, 27) =~= before + part);
    let list: Seq<OptionStep<'a>> = ranked(options, attach_logger, 27);
    let part: Seq<OptionStep<'a>> = part + list;
    assert(joined(options, attach_logger, 28) =~= before + part);
    let list: Seq<OptionStep<'a>> = ranked(options, attach_logger, 28);
    let part: Seq<OptionStep<'a>> = part + list;
    assert(joined(options, attach_logger, 29) =~= before + part);
    let list: Seq<OptionStep<'a>> = ranked(options, attach_logger, 29);
    let part: Seq<OptionStep<'a>> = part + list;
    assert(joined(options, attach_logger, 30) =~= before + part);
    assert(part == options.callback_steps()) by {
        reveal(ranked);
    }
}

proof fn lemma_joined<'a>(options: SessionOptions, attach_logger: bool)
    ensures
        options.steps(attach_logger) == joined(options, attach_logger, 30),
{
    lemma_model(options, attach_logger);
    lemma_log(options, attach_logger);
    lemma_queue(options, attach_logger);
    lemma_logger(options, attach_logger);
    lemma_callback(options, attach_logger);
    let none: Seq<OptionStep<'a>> = joined(options, attach_logger, 0);
    let model: Seq<OptionStep<'a>> = options.model_steps();
    assert(none + model =~= model);
}

proof fn lemma_steps<'a>(options: SessionOptions, attach_logger: bool, k: int)
    requires
        0 <= k < 30,
    ensures
        picked(options.steps(attach_logger), k) == ranked(options, attach_logger, k),
{
    lemma_joined(options, attach_logger);
    lemma_pick(options, attach_logger, 30, k);
}

/// A configuration is handed over in a fixed order: first how the graph is rewritten and run, then the
/// log, memory and the profile, then dimensions, entries and the selection policy, then the providers,
/// then custom operators, and last the callbacks.
pub proof fn steps_are_in_order<'a>(options: SessionOptions, attach_logger: bool)
    ensures
        forall|i: int, j: int|
            0 <= i <= j < options.steps(attach_logger).len() ==> rank(
                #[trigger] options.steps(attach_logger)[i],
            ) <= rank(#[trigger] options.steps(attach_logger)[j]),
{
    lemma_joined(options, attach_logger);
    lemma_sorted(options, attach_logger, 30);
}

proof fn lemma_asked_14<'a>(options: SessionOptions, attach_logger: bool)
    ensures
        ranked(options, attach_logger, 14) == Seq::new(options.ep_configs@.len(), |i: int| OptionStep::Provider(options.ep_configs@[i])),
{
    reveal(ranked);
}

proof fn lemma_asked_15<'a>(options: SessionOptions, attach_logger: bool)
    ensures
        ranked(options, attach_logger, 15) == Seq::new(options.migraphx@.len(), |i: int| OptionStep::Migraphx(options.migraphx@[i])),
{
    reveal(ranked);
}

proof fn lemma_asked_16<'a>(options: SessionOptions, attach_logger: bool)
    ensures
        ranked(options, attach_logger, 16) == Seq::new(options.openvino@.len(), |i: int| OptionStep::Openvino(options.openvino@[i])),
{
    reveal(ranked);
}

proof fn lemma_asked_17<'a>(options: SessionOptions, attach_logger: bool)
    ensures
        ranked(options, attach_logger, 17) == Seq::new(options.custom_op_domains@.len(), |i: int| OptionStep::CustomOpDomain(options.custom_op_domains@[i])),
{
    reveal(ranked);
}

/// Every queued provider is appended exactly once and in the order in which it was queued; so is every
/// MIGraphX and OpenVINO configuration and every domain of custom operators.
#[verifier::rlimit(50)]
pub proof fn providers_are_appended_in_order<'a>(
    options: SessionOptions,
    attach_logger: bool,
    sample: OptionStep<'a>,
)
    ensures
        ({
            let calls = like(options.steps(attach_logger), sample);
            match sample {
                OptionStep::Provider(_) => calls == Seq::new(options.ep_configs@.len(), |i: int| OptionStep::Provider(options.ep_configs@[i])),
                OptionStep::Migraphx(_) => calls == Seq::new(options.migraphx@.len(), |i: int| OptionStep::Migraphx(options.migraphx@[i])),
                OptionStep::Openvino(_) => calls == Seq::new(options.openvino@.len(), |i: int| OptionStep::Openvino(options.openvino@[i])),
                OptionStep::CustomOpDomain(_) => calls == Seq::new(options.custom_op_domains@.len(), |i: int| OptionStep::CustomOpDomain(options.custom_op_domains@[i])),
                _ => true,
            }
        }),
{
    lemma_steps(options, attach_logger, rank(sample));
    match sample {
        OptionStep::Provider(_) => {
            lemma_asked_14(options, attach_logger);
        },
        OptionStep::Migraphx(_) => {
            lemma_asked_15(options, attach_logger);
        },
        OptionStep::Openvino(_) => {
            lemma_asked_16(options, attach_logger);
        },
        OptionStep::CustomOpDomain(_) => {
            lemma_asked_17(options, attach_logger);
        },
        _ => {},
    }
}

proof fn lemma_asked_10<'a>(options: SessionOptions, attach_logger: bool)
    ensures
        ranked(options, attach_logger, 10) == Seq::new(options.free_dimension_overrides@.len(), |i: int| OptionStep::FreeDimension(&options.free_dimension_overrides@[i].0, options.free_dimension_overrides@[i].1)),
{
    reveal(ranked);
}

proof fn lemma_asked_11<'a>(options: SessionOptions, attach_logger: bool)
    ensures
        ranked(options, attach_logger, 11) == Seq::new(options.free_dimension_overrides_by_name@.len(), |i: int| OptionStep::FreeDimensionByName(&options.free_dimension_overrides_by_name@[i].0, options.free_dimension_overrides_by_name@[i].1)),
{
    reveal(ranked);
}

proof fn lemma_asked_12<'a>(options: SessionOptions, attach_logger: bool)
    ensures
        ranked(options, attach_logger, 12) == Seq::new(options.config_entries@.len(), |i: int| OptionStep::ConfigEntry(&options.config_entries@[i].0, &options.config_entries@[i].1)),
{
    reveal(ranked);
}

/// Every dimension and every entry is handed over exactly once, with its own value and in order.
#[verifier::rlimit(50)]
pub proof fn entries_are_added_in_order<'a>(
    options: SessionOptions,
    attach_logger: bool,
    sample: OptionStep<'a>,
)
    ensures
        ({
            let calls = like(options.steps(attach_logger), sample);
            match sample {
                OptionStep::FreeDimension(_, _) => calls == Seq::new(options.free_dimension_overrides@.len(), |i: int| OptionStep::FreeDimension(&options.free_dimension_overrides@[i].0, options.free_dimension_overrides@[i].1)),
                OptionStep::FreeDimensionByName(_, _) => calls == Seq::new(options.free_dimension_overrides_by_name@.len(), |i: int| OptionStep::FreeDimensionByName(&options.free_dimension_overrides_by_name@[i].0, options.free_dimension_overrides_by_name@[i].1)),
                OptionStep::ConfigEntry(_, _) => calls == Seq::new(options.config_entries@.len(), |i: int| OptionStep::ConfigEntry(&options.config_entries@[i].0, &options.config_entries@[i].1)),
                _ => true,
            }
        }),
{
    lemma_steps(options, attach_logger, rank(sample));
    match sample {
        OptionStep::FreeDimension(_, _) => {
            lemma_asked_10(options, attach_logger);
        },
        OptionStep::FreeDimensionByName(_, _) => {
            lemma_asked_11(options, attach_logger);
        },
        OptionStep::ConfigEntry(_, _) => {
            lemma_asked_12(options, attach_logger);
        },
        _ => {},
    }
}

proof fn lemma_asked_18<'a>(options: SessionOptions, attach_logger: bool)
    ensures
        ranked(options, attach_logger, 18) == (if options.enable_ort_custom_ops {
                seq![OptionStep::EnableCustomOps]
            } else {
                Seq::empty()
            }),
{
    reveal(ranked);
}

proof fn lemma_asked_19<'a>(options: SessionOptions, attach_logger: bool)
    ensures
        ranked(options, attach_logger, 19) == Seq::new(options.custom_op_libraries@.len(), |i: int| OptionStep::CustomOpLibrary(&options.custom_op_libraries@[i])),
{
    reveal(ranked);
}

proof fn lemma_asked_20<'a>(options: SessionOptions, attach_logger: bool)
    ensures
        ranked(options, attach_logger, 20) == Seq::new(options.custom_op_libraries_v1@.len(), |i: int| OptionStep::CustomOpLibraryV1(&options.custom_op_libraries_v1@[i])),
{
    reveal(ranked);
}

proof fn lemma_asked_21<'a>(options: SessionOptions, attach_logger: bool)
    ensures
        ranked(options, attach_logger, 21) == Seq::new(options.custom_op_functions@.len(), |i: int| OptionStep::CustomOpFunction(&options.custom_op_functions@[i])),
{
    reveal(ranked);
}

/// Every library and function of custom operators is registered exactly once, by its own call and in
/// order, and the engine's own operators are enabled where that was asked for.
#[verifier::rlimit(50)]
pub proof fn libraries_are_registered_in_order<'a>(
    options: SessionOptions,
    attach_logger: bool,
    sample: OptionStep<'a>,
)
    ensures
        ({
            let calls = like(options.steps(attach_logger), sample);
            match sample {
                OptionStep::EnableCustomOps => calls == (if options.enable_ort_custom_ops {
                seq![OptionStep::EnableCustomOps]
            } else {
                Seq::empty()
            }),
                OptionStep::CustomOpLibrary(_) => calls == Seq::new(options.custom_op_libraries@.len(), |i: int| OptionStep::CustomOpLibrary(&options.custom_op_libraries@[i])),
                OptionStep::CustomOpLibraryV1(_) => calls == Seq::new(options.custom_op_libraries_v1@.len(), |i: int| OptionStep::CustomOpLibraryV1(&options.custom_op_libraries_v1@[i])),
                OptionStep::CustomOpFunction(_) => calls == Seq::new(options.custom_op_functions@.len(), |i: int| OptionStep::CustomOpFunction(&options.custom_op_functions@[i])),
                _ => true,
            }
        }),
{
    lemma_steps(options, attach_logger, rank(sample));
    match sample {
        OptionStep::EnableCustomOps => {
            lemma_asked_18(options, attach_logger);
        },
        OptionStep::CustomOpLibrary(_) => {
            lemma_asked_19(options, attach_logger);
        },
        OptionStep::CustomOpLibraryV1(_) => {
            lemma_asked_20(options, attach_logger);
        },
        OptionStep::CustomOpFunction(_) => {
            lemma_asked_21(options, attach_logger);
        },
        _ => {},
    }
}

proof fn lemma_asked_0<'a>(options: SessionOptions, attach_logger: bool)
    ensures
        ranked(options, attach_logger, 0) == seq![OptionStep::GraphOptimization(options.opt_level)],
{
    reveal(ranked);
}

proof fn lemma_asked_1<'a>(options: SessionOptions, attach_logger: bool)
    ensures
        ranked(options, attach_logger, 1) == (match options.intra_threads {
                Some(value) => seq![OptionStep::IntraThreads(value)],
                None => Seq::empty(),
            }),
{
    reveal(ranked);
}

proof fn lemma_asked_2<'a>(options: SessionOptions, attach_logger: bool)
    ensures
        ranked(options, attach_logger, 2) == (match options.inter_threads {
                Some(value) => seq![OptionStep::InterThreads(value)],
                None => Seq::empty(),
            }),
{
    reveal(ranked);
}

proof fn lemma_asked_3<'a>(options: SessionOptions, attach_logger: bool)
    ensures
        ranked(options, attach_logger, 3) == (match options.execution_mode {
                Some(value) => seq![OptionStep::Execution(value)],
                None => Seq::empty(),
            }),
{
    reveal(ranked);
}

/// How the graph is rewritten, run and threaded is set by one call each with the chosen value, and by none
/// where it was left open. The level of rewriting is always set.
#[verifier::rlimit(50)]
pub proof fn graph_choices_are_made_once<'a>(
    options: SessionOptions,
    attach_logger: bool,
    sample: OptionStep<'a>,
)
    ensures
        ({
            let calls = like(options.steps(attach_logger), sample);
            match sample {
                OptionStep::GraphOptimization(_) => calls == seq![OptionStep::GraphOptimization(options.opt_level)],
                OptionStep::IntraThreads(_) => calls == (match options.intra_threads {
                Some(value) => seq![OptionStep::IntraThreads(value)],
                None => Seq::empty(),
            }),
                OptionStep::InterThreads(_) => calls == (match options.inter_threads {
                Some(value) => seq![OptionStep::InterThreads(value)],
                None => Seq::empty(),
            }),
                OptionStep::Execution(_) => calls == (match options.execution_mode {
                Some(value) => seq![OptionStep::Execution(value)],
                None => Seq::empty(),
            }),
                _ => true,
            }
        }),
{
    lemma_steps(options, attach_logger, rank(sample));
    match sample {
        OptionStep::GraphOptimization(_) => {
            lemma_asked_0(options, attach_logger);
        },
        OptionStep::IntraThreads(_) => {
            lemma_asked_1(options, attach_logger);
        },
        OptionStep::InterThreads(_) => {
            lemma_asked_2(options, attach_logger);
        },
        OptionStep::Execution(_) => {
            lemma_asked_3(options, attach_logger);
        },
        _ => {},
    }
}

proof fn lemma_asked_4<'a>(options: SessionOptions, attach_logger: bool)
    ensures
        ranked(options, attach_logger, 4) == (match options.log_id {
                Some(value) => seq![OptionStep::LogId(&value)],
                None => Seq::empty(),
            }),
{
    reveal(ranked);
}

proof fn lemma_asked_5<'a>(options: SessionOptions, attach_logger: bool)
    ensures
        ranked(options, attach_logger, 5) == (match options.log_severity {
                Some(value) => seq![OptionStep::LogSeverity(value)],
                None => Seq::empty(),
            }),
{
    reveal(ranked);
}

proof fn lemma_asked_6<'a>(options: SessionOptions, attach_logger: bool)
    ensures
        ranked(options, attach_logger, 6) == (match options.log_verbosity {
                Some(value) => seq![OptionStep::LogVerbosity(value)],
                None => Seq::empty(),
            }),
{
    reveal(ranked);
}

/// How messages are named and filtered is set by one call each with the chosen value, and by none where it was
/// left open.
#[verifier::rlimit(50)]
pub proof fn log_choices_are_made_once<'a>(
    options: SessionOptions,
    attach_logger: bool,
    sample: OptionStep<'a>,
)
    ensures
        ({
            let calls = like(options.steps(attach_logger), sample);
            match sample {
                OptionStep::LogId(_) => calls == (match options.log_id {
                Some(value) => seq![OptionStep::LogId(&value)],
                None => Seq::empty(),
            }),
                OptionStep::LogSeverity(_) => calls == (match options.log_severity {
                Some(value) => seq![OptionStep::LogSeverity(value)],
                None => Seq::empty(),
            }),
                OptionStep::LogVerbosity(_) => calls == (match options.log_verbosity {
                Some(value) => seq![OptionStep::LogVerbosity(value)],
                None => Seq::empty(),
            }),
                _ => true,
            }
        }),
{
    lemma_steps(options, attach_logger, rank(sample));
    match sample {
        OptionStep::LogId(_) => {
            lemma_asked_4(options, attach_logger);
        },
        OptionStep::LogSeverity(_) => {
            lemma_asked_5(options, attach_logger);
        },
        OptionStep::LogVerbosity(_) => {
            lemma_asked_6(options, attach_logger);
        },
        _ => {},
    }
}

proof fn lemma_asked_13<'a>(options: SessionOptions, attach_logger: bool)
    ensures
        ranked(options, attach_logger, 13) == (match options.ep_selection_policy {
                Some(value) => seq![OptionStep::SelectionPolicy(value)],
                None => Seq::empty(),
            }),
{
    reveal(ranked);
}

proof fn lemma_asked_23<'a>(options: SessionOptions, attach_logger: bool)
    ensures
        ranked(options, attach_logger, 23) == (match options.optimized_model_file_path {
                Some(value) => seq![OptionStep::OptimizedModelPath(&value)],
                None => Seq::empty(),
            }),
{
    reveal(ranked);
}

proof fn lemma_asked_24<'a>(options: SessionOptions, attach_logger: bool)
    ensures
        ranked(options, attach_logger, 24) == (match options.deterministic_compute {
                Some(value) => seq![OptionStep::Deterministic(value)],
                None => Seq::empty(),
            }),
{
    reveal(ranked);
}

proof fn lemma_asked_25<'a>(options: SessionOptions, attach_logger: bool)
    ensures
        ranked(options, attach_logger, 25) == (match options.load_cancellation_flag {
                Some(value) => seq![OptionStep::LoadCancellation(value)],
                None => Seq::empty(),
            }),
{
    reveal(ranked);
}

/// The selection policy, the place of the rewritten graph and the flags are set by one call each with the chosen
/// value, and by none where they were left open.
#[verifier::rlimit(50)]
pub proof fn other_choices_are_made_once<'a>(
    options: SessionOptions,
    attach_logger: bool,
    sample: OptionStep<'a>,
)
    ensures
        ({
            let calls = like(options.steps(attach_logger), sample);
            match sample {
                OptionStep::SelectionPolicy(_) => calls == (match options.ep_selection_policy {
                Some(value) => seq![OptionStep::SelectionPolicy(value)],
                None => Seq::empty(),
            }),
                OptionStep::OptimizedModelPath(_) => calls == (match options.optimized_model_file_path {
                Some(value) => seq![OptionStep::OptimizedModelPath(&value)],
                None => Seq::empty(),
            }),
                OptionStep::Deterministic(_) => calls == (match options.deterministic_compute {
                Some(value) => seq![OptionStep::Deterministic(value)],
                None => Seq::empty(),
            }),
                OptionStep::LoadCancellation(_) => calls == (match options.load_cancellation_flag {
                Some(value) => seq![OptionStep::LoadCancellation(value)],
                None => Seq::empty(),
            }),
                _ => true,
            }
        }),
{
    lemma_steps(options, attach_logger, rank(sample));
    match sample {
        OptionStep::SelectionPolicy(_) => {
            lemma_asked_13(options, attach_logger);
        },
        OptionStep::OptimizedModelPath(_) => {
            lemma_asked_23(options, attach_logger);
        },
        OptionStep::Deterministic(_) => {
            lemma_asked_24(options, attach_logger);
        },
        OptionStep::LoadCancellation(_) => {
            lemma_asked_25(options, attach_logger);
        },
        _ => {},
    }
}

proof fn lemma_asked_7<'a>(options: SessionOptions, attach_logger: bool)
    ensures
        ranked(options, attach_logger, 7) == (match options.cpu_mem_arena {
                ArenaState::Default => Seq::empty(),
                ArenaState::Enabled => seq![OptionStep::EnableArena],
                ArenaState::Disabled => seq![OptionStep::DisableArena],
            }),
{
    reveal(ranked);
}

proof fn lemma_asked_8<'a>(options: SessionOptions, attach_logger: bool)
    ensures
        ranked(options, attach_logger, 8) == (match options.mem_pattern {
                MemPatternState::Default => Seq::empty(),
                MemPatternState::Enabled => seq![OptionStep::EnableMemPattern],
                MemPatternState::Disabled => seq![OptionStep::DisableMemPattern],
            }),
{
    reveal(ranked);
}

proof fn lemma_asked_9<'a>(options: SessionOptions, attach_logger: bool)
    ensures
        ranked(options, attach_logger, 9) == (match options.profiling_prefix {
                Some(prefix) => seq![OptionStep::EnableProfiling(&prefix)],
                None => seq![OptionStep::DisableProfiling],
            }),
{
    reveal(ranked);
}

proof fn lemma_asked_22<'a>(options: SessionOptions, attach_logger: bool)
    ensures
        ranked(options, attach_logger, 22) == (match options.user_logger {
                Some(logger) => if attach_logger {
                    seq![OptionStep::UserLogger(logger)]
                } else {
                    Seq::empty()
                },
                None => Seq::empty(),
            }),
{
    reveal(ranked);
}

/// The arena and the memory patterns are turned on or off as chosen, and left alone by default. A profile is
/// written where it has a prefix, and turned off elsewhere. The logging callback is attached only where the
/// handle is made for a session.
#[verifier::rlimit(50)]
pub proof fn states_are_set_as_chosen<'a>(
    options: SessionOptions,
    attach_logger: bool,
    sample: OptionStep<'a>,
)
    ensures
        ({
            let calls = like(options.steps(attach_logger), sample);
            match sample {
                OptionStep::EnableArena | OptionStep::DisableArena => calls == (match options.cpu_mem_arena {
                ArenaState::Default => Seq::empty(),
                ArenaState::Enabled => seq![OptionStep::EnableArena],
                ArenaState::Disabled => seq![OptionStep::DisableArena],
            }),
                OptionStep::EnableMemPattern | OptionStep::DisableMemPattern => calls == (match options.mem_pattern {
                MemPatternState::Default => Seq::empty(),
                MemPatternState::Enabled => seq![OptionStep::EnableMemPattern],
                MemPatternState::Disabled => seq![OptionStep::DisableMemPattern],
            }),
                OptionStep::EnableProfiling(_) | OptionStep::DisableProfiling => calls == (match options.profiling_prefix {
                Some(prefix) => seq![OptionStep::EnableProfiling(&prefix)],
                None => seq![OptionStep::DisableProfiling],
            }),
                OptionStep::UserLogger(_) => calls == (match options.user_logger {
                Some(logger) => if attach_logger {
                    seq![OptionStep::UserLogger(logger)]
                } else {
                    Seq::empty()
                },
                None => Seq::empty(),
            }),
                _ => true,
            }
        }),
{
    lemma_steps(options, attach_logger, rank(sample));
    match sample {
        OptionStep::EnableArena | OptionStep::DisableArena => {
            lemma_asked_7(options, attach_logger);
        },
        OptionStep::EnableMemPattern | OptionStep::DisableMemPattern => {
            lemma_asked_8(options, attach_logger);
        },
        OptionStep::EnableProfiling(_) | OptionStep::DisableProfiling => {
            lemma_asked_9(options, attach_logger);
        },
        OptionStep::UserLogger(_) => {
            lemma_asked_22(options, attach_logger);
        },
        _ => {},
    }
}

proof fn lemma_asked_26<'a>(options: SessionOptions, attach_logger: bool)
    ensures
        ranked(options, attach_logger, 26) == (match options.thread_handlers {
                Some(value) => seq![OptionStep::CreateThread(value.create)],
                None => Seq::empty(),
            }),
{
    reveal(ranked);
}

proof fn lemma_asked_27<'a>(options: SessionOptions, attach_logger: bool)
    ensures
        ranked(options, attach_logger, 27) == (match options.thread_handlers {
                Some(value) => seq![OptionStep::ThreadCreationOptions(value.creation_options)],
                None => Seq::empty(),
            }),
{
    reveal(ranked);
}

proof fn lemma_asked_28<'a>(options: SessionOptions, attach_logger: bool)
    ensures
        ranked(options, attach_logger, 28) == (match options.thread_handlers {
                Some(value) => seq![OptionStep::JoinThread(value.join)],
                None => Seq::empty(),
            }),
{
    reveal(ranked);
}

proof fn lemma_asked_29<'a>(options: SessionOptions, attach_logger: bool)
    ensures
        ranked(options, attach_logger, 29) == (match options.ep_selection_delegate {
                Some(value) => seq![OptionStep::SelectionCallback(value)],
                None => Seq::empty(),
            }),
{
    reveal(ranked);
}

/// The callbacks for threads are set together, the making one with its state, and the callback that selects
/// devices with its own.
#[verifier::rlimit(50)]
pub proof fn callbacks_are_set_with_their_state<'a>(
    options: SessionOptions,
    attach_logger: bool,
    sample: OptionStep<'a>,
)
    ensures
        ({
            let calls = like(options.steps(attach_logger), sample);
            match sample {
                OptionStep::CreateThread(_) => calls == (match options.thread_handlers {
                Some(value) => seq![OptionStep::CreateThread(value.create)],
                None => Seq::empty(),
            }),
                OptionStep::ThreadCreationOptions(_) => calls == (match options.thread_handlers {
                Some(value) => seq![OptionStep::ThreadCreationOptions(value.creation_options)],
                None => Seq::empty(),
            }),
                OptionStep::JoinThread(_) => calls == (match options.thread_handlers {
                Some(value) => seq![OptionStep::JoinThread(value.join)],
                None => Seq::empty(),
            }),
                OptionStep::SelectionCallback(_) => calls == (match options.ep_selection_delegate {
                Some(value) => seq![OptionStep::SelectionCallback(value)],
                None => Seq::empty(),
            }),
                _ => true,
            }
        }),
{
    lemma_steps(options, attach_logger, rank(sample));
    match sample {
        OptionStep::CreateThread(_) => {
            lemma_asked_26(options, attach_logger);
        },
        OptionStep::ThreadCreationOptions(_) => {
            lemma_asked_27(options, attach_logger);
        },
        OptionStep::JoinThread(_) => {
            lemma_asked_28(options, attach_logger);
        },
        OptionStep::SelectionCallback(_) => {
            lemma_asked_29(options, attach_logger);
        },
        _ => {},
    }
}

} // verus!
