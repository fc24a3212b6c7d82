//! What descriptions of memory, types and threads amount to.
use vstd::prelude::*;

use crate::memory::{AllocatorType, MemType, MemoryInfo};
use crate::runtime::options::{DynamicIoOptions, RuntimeMode};
use crate::tensor::buffer::BufferSpec;
use crate::threading::{ThreadCall, ThreadingOptions};
use crate::type_info::TensorTypeAndShapeInfo;

verus! {

/// Host memory is in reach of the host. The memory of a device is not, belongs to that device alone, and is
/// never taken for host memory.
pub proof fn device_memory_is_out_of_reach(host: MemoryInfo, device: MemoryInfo, one: i32, two: i32)
    requires
        host.is_cpu(),
        device.is_cuda(one),
    ensures
        host.host_accessible,
        host.device_id == 0,
        host.alloc_type == device.alloc_type && host.mem_type == device.mem_type,
        !device.host_accessible,
        device.device_id == one,
        device.is_cuda(two) ==> one == two,
        !device.is_cpu(),
        host.name@ != device.name@,
{
    reveal_strlit("Cpu");
    reveal_strlit("Cuda");
    assert(host.name@.len() != device.name@.len());
}

/// Kinds of memory have names of their own.
pub proof fn memory_kinds_have_their_name(
    one: AllocatorType,
    two: AllocatorType,
    first: MemType,
    second: MemType,
)
    ensures
        one.spec_text() == two.spec_text() ==> one == two,
        first.spec_text() == second.spec_text() ==> first == second,
{
    reveal_strlit("Device");
    reveal_strlit("Arena");
    reveal_strlit("CpuInput");
    reveal_strlit("CpuOutput");
    reveal_strlit("Default");
    assert(one.spec_text() != two.spec_text() || one == two) by {
        if one != two {
            assert(one.spec_text().len() != two.spec_text().len());
        }
    }
    assert(first.spec_text() != second.spec_text() || first == second) by {
        if first != second {
            assert(first.spec_text().len() != second.spec_text().len());
        }
    }
}

/// A dimension has the name that was reported for it, and none where none was.
pub proof fn dimensions_have_their_name(info: TensorTypeAndShapeInfo, i: int)
    requires
        0 <= i,
    ensures
        i < info.names().len() ==> info.name_at(i) == info.names()[i],
        i >= info.names().len() ==> info.name_at(i) is None,
{
}

/// Options that were not changed serve any sessions and lanes, as long as there is room for a bucket.
pub proof fn unchanged_options_are_sound(
    options: DynamicIoOptions,
    max_buckets: usize,
    mode: RuntimeMode,
    lanes: usize,
)
    requires
        options.is_default_for(max_buckets),
    ensures
        options.fault() is None <==> max_buckets > 0,
        options.mode_fault(mode, lanes) is None,
        options.max_buckets == max_buckets,
        !options.cuda_graph && options.device_id is None && !options.device_outputs,
        !options.rebind_inputs_each_run && !options.strict_shape_cache,
        options.input_policy == BufferSpec::Auto && options.output_policy == BufferSpec::Auto,
{
}

/// A choice for the shared threads is handed over behind those that were made before it.
pub proof fn thread_calls_are_made_in_order(
    before: ThreadingOptions,
    call: ThreadCall,
    after: ThreadingOptions,
    i: int,
)
    requires
        before.called(call, after),
        0 <= i < before.spec_calls().len(),
    ensures
        after.spec_calls().len() == before.spec_calls().len() + 1,
        after.spec_calls()[i] == before.spec_calls()[i],
        after.spec_calls().last() == call,
        after.spec_manager() == before.spec_manager(),
{
}

/// A policy that leaves the choice open gives way, and any other is kept.
pub proof fn chosen_policies_are_kept(chosen: BufferSpec, other: BufferSpec)
    ensures
        chosen == BufferSpec::Auto ==> chosen.spec_or_if_auto(other) == other,
        chosen != BufferSpec::Auto ==> chosen.spec_or_if_auto(other) == chosen,
{
}

/// Copies of options agree in every choice.
pub proof fn copied_options_keep_every_choice(one: DynamicIoOptions, other: DynamicIoOptions)
    requires
        one.same(other),
    ensures
        one.max_buckets == other.max_buckets,
        one.input_policy == other.input_policy,
        one.output_policy == other.output_policy,
        one.rebind_inputs_each_run == other.rebind_inputs_each_run,
        one.cuda_graph == other.cuda_graph,
        one.device_outputs == other.device_outputs,
        one.device_id == other.device_id,
        one.strict_shape_cache == other.strict_shape_cache,
        one.cuda == other.cuda,
        one.stream == other.stream,
        one.lane_streams@ == other.lane_streams@,
        one.fault() == other.fault(),
{
}

} // verus!
