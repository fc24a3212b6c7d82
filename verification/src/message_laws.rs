//! What messages say.
use vstd::prelude::*;

use crate::error::Error;

verus! {

/// The values of an error, as they are written, in the order in which its message gives them.
pub open spec fn values(error: Error) -> Seq<Seq<char>> {
    match error {
        Error::Engine { message, .. } => seq![message@],
        Error::Fault(fault) => seq![fault.spec_text()],
        Error::IndexOutOfRange { what, index } => seq![
            what.spec_text(),
            crate::text::decimal(index as nat),
        ],
        Error::SessionIndexOutOfRange { side, index, count } => seq![
            side.spec_text(),
            crate::text::decimal(index as nat),
            crate::text::decimal(count as nat),
            side.spec_text(),
        ],
        Error::NameNotUtf8 { side, index } => seq![
            side.spec_text(),
            crate::text::decimal(index as nat),
        ],
        Error::CountMismatch { what, expected, got } => seq![
            what.spec_text(),
            crate::text::decimal(expected as nat),
            crate::text::decimal(got as nat),
        ],
        Error::CopyCountMismatch { on_stream, source, destination } => seq![
            (if on_stream { "on-stream CopyTensors"@ } else { "CopyTensors"@ }),
            crate::text::decimal(source as nat),
            crate::text::decimal(destination as nat),
        ],
        Error::CopyBytesMismatch { source, destination } => seq![
            crate::text::decimal(source as nat),
            crate::text::decimal(destination as nat),
        ],
        Error::NotZeroCopy { what, index, rust_ptr, ort_ptr } => seq![
            what.spec_text(),
            crate::text::decimal(index as nat),
            crate::text::hexadecimal(rust_ptr as nat),
            crate::text::hexadecimal(ort_ptr as nat),
        ],
        Error::LaneMemoryNotHost { what, index, memory } => seq![
            what.spec_text(),
            crate::text::decimal(index as nat),
            memory.name@,
            crate::text::signed_decimal(memory.device_id as int),
            memory.alloc_type.spec_text(),
            memory.mem_type.spec_text(),
        ],
        Error::TensorMemoryNotHost { memory } => seq![
            memory.name@,
            crate::text::signed_decimal(memory.device_id as int),
            memory.alloc_type.spec_text(),
            memory.mem_type.spec_text(),
        ],
        Error::SliceMemoryNotHost { memory } => seq![
            memory.name@,
            crate::text::signed_decimal(memory.device_id as int),
            memory.alloc_type.spec_text(),
            memory.mem_type.spec_text(),
        ],
        Error::LaneStreamCount { expected, got } => seq![
            crate::text::decimal(expected as nat),
            crate::text::decimal(got as nat),
        ],
        Error::SessionStreamCount { sessions, streams } => seq![
            crate::text::decimal(sessions as nat),
            crate::text::decimal(streams as nat),
        ],
        Error::PlanTooLarge { buckets, capacity } => seq![
            crate::text::decimal(buckets as nat),
            crate::text::decimal(capacity as nat),
        ],
        Error::PlanArity { inputs, outputs, plan_inputs, plan_outputs } => seq![
            crate::text::decimal(inputs as nat),
            crate::text::decimal(outputs as nat),
            crate::text::decimal(plan_inputs as nat),
            crate::text::decimal(plan_outputs as nat),
        ],
        Error::ShapeRejected { error } => seq![error.spec_text()],
        Error::GraphCreationInFlight { bucket, detached, in_flight } => seq![
            crate::text::decimal(bucket as nat),
            crate::text::decimal(detached as nat),
            crate::text::decimal(in_flight as nat),
        ],
        Error::GraphCacheFull { max_buckets } => seq![crate::text::decimal(max_buckets as nat)],
        Error::CaptureFailed { lane, cause } => seq![
            crate::text::decimal(lane as nat),
            cause.spec_message(),
        ],
        Error::TypeMismatch { access, requested, actual } => seq![
            access.spec_text(),
            requested.spec_rust_text(),
            actual.spec_text(),
        ],
        Error::NotATensor { access, kind } => seq![access.spec_text(), kind.spec_text()],
        Error::NotStrings { actual } => seq![actual.spec_text()],
        Error::DeviceValueNotTensor { kind } => seq![kind.spec_text()],
        Error::BadAlignment { alignment } => seq![crate::text::decimal(alignment as nat)],
        Error::MmapRange { start, end, file_len, path } => seq![
            crate::text::decimal(start as nat),
            crate::text::decimal(end as nat),
            crate::text::decimal(file_len as nat),
            path@,
        ],
        Error::MmapMisaligned { element_type } => seq![element_type.spec_rust_text()],
        Error::ShapeLength { expected, got } => seq![
            crate::text::decimal(expected as nat),
            crate::text::decimal(got as nat),
        ],
        Error::NotPacked { element_type } => seq![element_type.spec_text()],
        Error::PackedLength { element_type, expected, count, got } => seq![
            element_type.spec_text(),
            crate::text::decimal(expected as nat),
            crate::text::decimal(count as nat),
            crate::text::decimal(got as nat),
        ],
        Error::CooLength { got } => seq![crate::text::decimal(got as nat)],
        Error::CsrInnerLength { expected, got } => seq![
            crate::text::decimal(expected as nat),
            crate::text::decimal(got as nat),
        ],
        Error::CsrOuterLength { expected, got } => seq![
            crate::text::decimal(expected as nat),
            crate::text::decimal(got as nat),
        ],
        Error::ValueIndexOutOfRange { index, count } => seq![
            crate::text::decimal(index as nat),
            crate::text::decimal(count as nat),
        ],
        Error::StringOffsets { index } => seq![crate::text::decimal(index as nat)],
        Error::DynamicDimension { dimension } => seq![
            crate::text::signed_decimal(dimension as int),
        ],
    }
}

/// The two errors are of one kind.
pub open spec fn same_kind(one: Error, other: Error) -> bool {
    match (one, other) {
        (Error::Engine { .. }, Error::Engine { .. }) => true,
        (Error::Fault(_), Error::Fault(_)) => true,
        (Error::IndexOutOfRange { .. }, Error::IndexOutOfRange { .. }) => true,
        (Error::SessionIndexOutOfRange { .. }, Error::SessionIndexOutOfRange { .. }) => true,
        (Error::NameNotUtf8 { .. }, Error::NameNotUtf8 { .. }) => true,
        (Error::CountMismatch { .. }, Error::CountMismatch { .. }) => true,
        (Error::CopyCountMismatch { .. }, Error::CopyCountMismatch { .. }) => true,
        (Error::CopyBytesMismatch { .. }, Error::CopyBytesMismatch { .. }) => true,
        (Error::NotZeroCopy { .. }, Error::NotZeroCopy { .. }) => true,
        (Error::LaneMemoryNotHost { .. }, Error::LaneMemoryNotHost { .. }) => true,
        (Error::TensorMemoryNotHost { .. }, Error::TensorMemoryNotHost { .. }) => true,
        (Error::SliceMemoryNotHost { .. }, Error::SliceMemoryNotHost { .. }) => true,
        (Error::LaneStreamCount { .. }, Error::LaneStreamCount { .. }) => true,
        (Error::SessionStreamCount { .. }, Error::SessionStreamCount { .. }) => true,
        (Error::PlanTooLarge { .. }, Error::PlanTooLarge { .. }) => true,
        (Error::PlanArity { .. }, Error::PlanArity { .. }) => true,
        (Error::ShapeRejected { .. }, Error::ShapeRejected { .. }) => true,
        (Error::GraphCreationInFlight { .. }, Error::GraphCreationInFlight { .. }) => true,
        (Error::GraphCacheFull { .. }, Error::GraphCacheFull { .. }) => true,
        (Error::CaptureFailed { .. }, Error::CaptureFailed { .. }) => true,
        (Error::TypeMismatch { .. }, Error::TypeMismatch { .. }) => true,
        (Error::NotATensor { .. }, Error::NotATensor { .. }) => true,
        (Error::NotStrings { .. }, Error::NotStrings { .. }) => true,
        (Error::DeviceValueNotTensor { .. }, Error::DeviceValueNotTensor { .. }) => true,
        (Error::BadAlignment { .. }, Error::BadAlignment { .. }) => true,
        (Error::MmapRange { .. }, Error::MmapRange { .. }) => true,
        (Error::MmapMisaligned { .. }, Error::MmapMisaligned { .. }) => true,
        (Error::ShapeLength { .. }, Error::ShapeLength { .. }) => true,
        (Error::NotPacked { .. }, Error::NotPacked { .. }) => true,
        (Error::PackedLength { .. }, Error::PackedLength { .. }) => true,
        (Error::CooLength { .. }, Error::CooLength { .. }) => true,
        (Error::CsrInnerLength { .. }, Error::CsrInnerLength { .. }) => true,
        (Error::CsrOuterLength { .. }, Error::CsrOuterLength { .. }) => true,
        (Error::ValueIndexOutOfRange { .. }, Error::ValueIndexOutOfRange { .. }) => true,
        (Error::StringOffsets { .. }, Error::StringOffsets { .. }) => true,
        (Error::DynamicDimension { .. }, Error::DynamicDimension { .. }) => true,
        _ => false,
    }
}

/// The parts with the values between them.
pub open spec fn woven(parts: Seq<Seq<char>>, values: Seq<Seq<char>>) -> Seq<char>
    decreases values.len(),
{
    if values.len() == 0 {
        parts[0]
    } else {
        woven(parts.drop_last(), values.drop_last()) + values.last() + parts.last()
    }
}

/// What stands between the values.
spec fn template(error: Error) -> Seq<Seq<char>> {
    match error {
        Error::Engine { .. } => seq![Seq::<char>::empty(), Seq::<char>::empty()],
        Error::Fault(_) => seq![Seq::<char>::empty(), Seq::<char>::empty()],
        Error::IndexOutOfRange { .. } => seq!["zrt: "@, " index "@, " out of range"@],
        Error::SessionIndexOutOfRange { .. } => seq![
            "zrt: "@,
            " index "@,
            " out of range ("@,
            " "@,
            "s)"@,
        ],
        Error::NameNotUtf8 { .. } => seq!["zrt: "@, " name "@, " is not valid UTF-8"@],
        Error::CountMismatch { .. } => seq![
            "zrt: "@,
            " mismatch: expected "@,
            ", got "@,
            Seq::<char>::empty(),
        ],
        Error::CopyCountMismatch { .. } => seq![
            "zrt: "@,
            " source/destination count mismatch: "@,
            " vs "@,
            Seq::<char>::empty(),
        ],
        Error::CopyBytesMismatch { .. } => seq![
            "zrt: CopyTensors host fallback byte-size mismatch: source "@,
            ", destination "@,
            Seq::<char>::empty(),
        ],
        Error::NotZeroCopy { .. } => seq![
            "zrt: "@,
            " "@,
            " is not zero-copy: rust_ptr=0x"@,
            ", ort_ptr=0x"@,
            Seq::<char>::empty(),
        ],
        Error::LaneMemoryNotHost { .. } => seq![
            "zrt: "@,
            " "@,
            " is not host-accessible: "@,
            " device "@,
            " ("@,
            "/"@,
            ")"@,
        ],
        Error::TensorMemoryNotHost { .. } => seq![
            "tensor memory is not host-accessible: "@,
            " device "@,
            " ("@,
            "/"@,
            ")"@,
        ],
        Error::SliceMemoryNotHost { .. } => seq![
            "Rust slice-backed tensors require host-accessible memory, got "@,
            " device "@,
            " ("@,
            "/"@,
            ")"@,
        ],
        Error::LaneStreamCount { .. } => seq![
            "DynamicIoRuntime: expected "@,
            " per-lane CUDA streams, got "@,
            Seq::<char>::empty(),
        ],
        Error::SessionStreamCount { .. } => seq![
            "StaticIoRuntime requires one CUDA stream per session, got "@,
            " sessions and "@,
            " streams"@,
        ],
        Error::PlanTooLarge { .. } => seq![
            "zrt: serving plan has "@,
            " buckets but runtime capacity is "@,
            Seq::<char>::empty(),
        ],
        Error::PlanArity { .. } => seq![
            "zrt: serving plan arity mismatch: runtime expects "@,
            " inputs/"@,
            " outputs, plan bucket has "@,
            "/"@,
            Seq::<char>::empty(),
        ],
        Error::ShapeRejected { .. } => seq![
            "zrt: serving shape rejected by sealed plan: "@,
            Seq::<char>::empty(),
        ],
        Error::GraphCreationInFlight { .. } => seq![
            "zrt: refusing to create a new CUDA-graph shape bucket while bucket "@,
            " still has "@,
            " detached lane(s) and "@,
            " in-flight lane(s) — graph capture must not overlap a live replay; prebuild or warm every bucket before serving traffic"@,
        ],
        Error::GraphCacheFull { .. } => seq![
            "zrt: cuda_graph dynamic shape cache is full (max_buckets="@,
            "); refusing to evict because ORT's legacy CUDA EP keeps captured graphs for the session lifetime. Increase max_buckets and prewarm the hot shape set, or disable cuda_graph for unbounded shapes."@,
        ],
        Error::CaptureFailed { .. } => seq![
            "zrt: eager CUDA-graph capture for lane "@,
            " of a new shape bucket failed: "@,
            Seq::<char>::empty(),
        ],
        Error::TypeMismatch { .. } => seq!["zrt: "@, "<"@, "> on a "@, " tensor"@],
        Error::NotATensor { .. } => seq!["zrt: "@, " on a non-tensor ("@, ") value"@],
        Error::NotStrings { .. } => seq!["zrt: as_strings on a "@, " tensor (expected String)"@],
        Error::DeviceValueNotTensor { .. } => seq![
            "zrt: DeviceValue requires a tensor, got "@,
            Seq::<char>::empty(),
        ],
        Error::BadAlignment { .. } => seq![
            "alignment must be a power of two, got "@,
            Seq::<char>::empty(),
        ],
        Error::MmapRange { .. } => seq![
            "mmap tensor range ["@,
            ".."@,
            ") exceeds file size "@,
            " for "@,
            Seq::<char>::empty(),
        ],
        Error::MmapMisaligned { .. } => seq![
            "mmap tensor data pointer is not aligned for "@,
            Seq::<char>::empty(),
        ],
        Error::ShapeLength { .. } => seq![
            "tensor shape expects "@,
            " elements, got "@,
            Seq::<char>::empty(),
        ],
        Error::NotPacked { .. } => seq!["zrt: "@, " is not a packed sub-byte tensor element type"@],
        Error::PackedLength { .. } => seq![
            "packed "@,
            " tensor shape expects "@,
            " bytes for "@,
            " elements, got "@,
            Seq::<char>::empty(),
        ],
        Error::CooLength { .. } => seq![
            "COO indices must have 0, nnz, or nnz*dense_rank entries; got "@,
            Seq::<char>::empty(),
        ],
        Error::CsrInnerLength { .. } => seq![
            "CSR inner indices must match nnz ("@,
            "), got "@,
            Seq::<char>::empty(),
        ],
        Error::CsrOuterLength { .. } => seq![
            "CSR outer indices must have rows + 1 entries ("@,
            "), got "@,
            Seq::<char>::empty(),
        ],
        Error::ValueIndexOutOfRange { .. } => seq![
            "zrt: value index "@,
            " out of range ("@,
            " values)"@,
        ],
        Error::StringOffsets { .. } => seq![
            "zrt: invalid string tensor offsets at index "@,
            Seq::<char>::empty(),
        ],
        Error::DynamicDimension { .. } => seq![
            "tensor shape contains a dynamic/unknown dimension ("@,
            ")"@,
        ],
    }
}

proof fn lemma_woven_1(p0: Seq<char>, p1: Seq<char>, v1: Seq<char>)
    ensures
        woven(seq![p0, p1], seq![v1]) == p0 + v1 + p1,
{
    assert(seq![p0, p1].drop_last() =~= seq![p0]);
    assert(seq![v1].drop_last() =~= Seq::<Seq<char>>::empty());
    assert(woven(seq![p0], Seq::<Seq<char>>::empty()) == p0);
}

proof fn lemma_woven_2(p0: Seq<char>, p1: Seq<char>, p2: Seq<char>, v1: Seq<char>, v2: Seq<char>)
    ensures
        woven(seq![p0, p1, p2], seq![v1, v2]) == p0 + v1 + p1 + v2 + p2,
{
    lemma_woven_1(p0, p1, v1);
    assert(seq![p0, p1, p2].drop_last() =~= seq![p0, p1]);
    assert(seq![v1, v2].drop_last() =~= seq![v1]);
}

proof fn lemma_woven_3(p0: Seq<char>, p1: Seq<char>, p2: Seq<char>, p3: Seq<char>, v1: Seq<char>, v2: Seq<char>, v3: Seq<char>)
    ensures
        woven(seq![p0, p1, p2, p3], seq![v1, v2, v3]) == p0 + v1 + p1 + v2 + p2 + v3 + p3,
{
    lemma_woven_2(p0, p1, p2, v1, v2);
    assert(seq![p0, p1, p2, p3].drop_last() =~= seq![p0, p1, p2]);
    assert(seq![v1, v2, v3].drop_last() =~= seq![v1, v2]);
}

proof fn lemma_woven_4(p0: Seq<char>, p1: Seq<char>, p2: Seq<char>, p3: Seq<char>, p4: Seq<char>, v1: Seq<char>, v2: Seq<char>, v3: Seq<char>, v4: Seq<char>)
    ensures
        woven(seq![p0, p1, p2, p3, p4], seq![v1, v2, v3, v4]) == p0 + v1 + p1 + v2 + p2 + v3 + p3 + v4 + p4,
{
    lemma_woven_3(p0, p1, p2, p3, v1, v2, v3);
    assert(seq![p0, p1, p2, p3, p4].drop_last() =~= seq![p0, p1, p2, p3]);
    assert(seq![v1, v2, v3, v4].drop_last() =~= seq![v1, v2, v3]);
}

proof fn lemma_woven_5(p0: Seq<char>, p1: Seq<char>, p2: Seq<char>, p3: Seq<char>, p4: Seq<char>, p5: Seq<char>, v1: Seq<char>, v2: Seq<char>, v3: Seq<char>, v4: Seq<char>, v5: Seq<char>)
    ensures
        woven(seq![p0, p1, p2, p3, p4, p5], seq![v1, v2, v3, v4, v5]) == p0 + v1 + p1 + v2 + p2 + v3 + p3 + v4 + p4 + v5 + p5,
{
    lemma_woven_4(p0, p1, p2, p3, p4, v1, v2, v3, v4);
    assert(seq![p0, p1, p2, p3, p4, p5].drop_last() =~= seq![p0, p1, p2, p3, p4]);
    assert(seq![v1, v2, v3, v4, v5].drop_last() =~= seq![v1, v2, v3, v4]);
}

proof fn lemma_woven_6(p0: Seq<char>, p1: Seq<char>, p2: Seq<char>, p3: Seq<char>, p4: Seq<char>, p5: Seq<char>, p6: Seq<char>, v1: Seq<char>, v2: Seq<char>, v3: Seq<char>, v4: Seq<char>, v5: Seq<char>, v6: Seq<char>)
    ensures
        woven(seq![p0, p1, p2, p3, p4, p5, p6], seq![v1, v2, v3, v4, v5, v6]) == p0 + v1 + p1 + v2 + p2 + v3 + p3 + v4 + p4 + v5 + p5 + v6 + p6,
{
    lemma_woven_5(p0, p1, p2, p3, p4, p5, v1, v2, v3, v4, v5);
    assert(seq![p0, p1, p2, p3, p4, p5, p6].drop_last() =~= seq![p0, p1, p2, p3, p4, p5]);
    assert(seq![v1, v2, v3, v4, v5, v6].drop_last() =~= seq![v1, v2, v3, v4, v5]);
}

proof fn lemma_engine(failure: Error)
    requires
        failure is Engine,
    ensures
        woven(template(failure), values(failure)) == failure.spec_message(),
{
    if let Error::Engine { message, .. } = failure {
        lemma_woven_1(
            Seq::<char>::empty(),
            Seq::<char>::empty(),
            message@,
        );
        assert(woven(template(failure), values(failure)) =~= failure.spec_message());
    }
}

proof fn lemma_fault(failure: Error)
    requires
        failure is Fault,
    ensures
        woven(template(failure), values(failure)) == failure.spec_message(),
{
    if let Error::Fault(fault) = failure {
        lemma_woven_1(
            Seq::<char>::empty(),
            Seq::<char>::empty(),
            fault.spec_text(),
        );
        assert(woven(template(failure), values(failure)) =~= failure.spec_message());
    }
}

proof fn lemma_index_out_of_range(failure: Error)
    requires
        failure is IndexOutOfRange,
    ensures
        woven(template(failure), values(failure)) == failure.spec_message(),
{
    if let Error::IndexOutOfRange { what, index } = failure {
        lemma_woven_2(
            "zrt: "@,
            " index "@,
            " out of range"@,
            what.spec_text(),
            crate::text::decimal(index as nat),
        );
        assert(woven(template(failure), values(failure)) =~= failure.spec_message());
    }
}

proof fn lemma_session_index_out_of_range(failure: Error)
    requires
        failure is SessionIndexOutOfRange,
    ensures
        woven(template(failure), values(failure)) == failure.spec_message(),
{
    if let Error::SessionIndexOutOfRange { side, index, count } = failure {
        lemma_woven_4(
            "zrt: "@,
            " index "@,
            " out of range ("@,
            " "@,
            "s)"@,
            side.spec_text(),
            crate::text::decimal(index as nat),
            crate::text::decimal(count as nat),
            side.spec_text(),
        );
        assert(woven(template(failure), values(failure)) =~= failure.spec_message());
    }
}

proof fn lemma_name_not_utf8(failure: Error)
    requires
        failure is NameNotUtf8,
    ensures
        woven(template(failure), values(failure)) == failure.spec_message(),
{
    if let Error::NameNotUtf8 { side, index } = failure {
        lemma_woven_2(
            "zrt: "@,
            " name "@,
            " is not valid UTF-8"@,
            side.spec_text(),
            crate::text::decimal(index as nat),
        );
        assert(woven(template(failure), values(failure)) =~= failure.spec_message());
    }
}

proof fn lemma_count_mismatch(failure: Error)
    requires
        failure is CountMismatch,
    ensures
        woven(template(failure), values(failure)) == failure.spec_message(),
{
    if let Error::CountMismatch { what, expected, got } = failure {
        lemma_woven_3(
            "zrt: "@,
            " mismatch: expected "@,
            ", got "@,
            Seq::<char>::empty(),
            what.spec_text(),
            crate::text::decimal(expected as nat),
            crate::text::decimal(got as nat),
        );
        assert(woven(template(failure), values(failure)) =~= failure.spec_message());
    }
}

proof fn lemma_copy_count_mismatch(failure: Error)
    requires
        failure is CopyCountMismatch,
    ensures
        woven(template(failure), values(failure)) == failure.spec_message(),
{
    if let Error::CopyCountMismatch { on_stream, source, destination } = failure {
        lemma_woven_3(
            "zrt: "@,
            " source/destination count mismatch: "@,
            " vs "@,
            Seq::<char>::empty(),
            (if on_stream { "on-stream CopyTensors"@ } else { "CopyTensors"@ }),
            crate::text::decimal(source as nat),
            crate::text::decimal(destination as nat),
        );
        assert(woven(template(failure), values(failure)) =~= failure.spec_message());
    }
}

proof fn lemma_copy_bytes_mismatch(failure: Error)
    requires
        failure is CopyBytesMismatch,
    ensures
        woven(template(failure), values(failure)) == failure.spec_message(),
{
    if let Error::CopyBytesMismatch { source, destination } = failure {
        lemma_woven_2(
            "zrt: CopyTensors host fallback byte-size mismatch: source "@,
            ", destination "@,
            Seq::<char>::empty(),
            crate::text::decimal(source as nat),
            crate::text::decimal(destination as nat),
        );
        assert(woven(template(failure), values(failure)) =~= failure.spec_message());
    }
}

proof fn lemma_not_zero_copy(failure: Error)
    requires
        failure is NotZeroCopy,
    ensures
        woven(template(failure), values(failure)) == failure.spec_message(),
{
    if let Error::NotZeroCopy { what, index, rust_ptr, ort_ptr } = failure {
        lemma_woven_4(
            "zrt: "@,
            " "@,
            " is not zero-copy: rust_ptr=0x"@,
            ", ort_ptr=0x"@,
            Seq::<char>::empty(),
            what.spec_text(),
            crate::text::decimal(index as nat),
            crate::text::hexadecimal(rust_ptr as nat),
            crate::text::hexadecimal(ort_ptr as nat),
        );
        assert(woven(template(failure), values(failure)) =~= failure.spec_message());
    }
}

proof fn lemma_lane_memory_not_host(failure: Error)
    requires
        failure is LaneMemoryNotHost,
    ensures
        woven(template(failure), values(failure)) == failure.spec_message(),
{
    if let Error::LaneMemoryNotHost { what, index, memory } = failure {
        lemma_woven_6(
            "zrt: "@,
            " "@,
            " is not host-accessible: "@,
            " device "@,
            " ("@,
            "/"@,
            ")"@,
            what.spec_text(),
            crate::text::decimal(index as nat),
            memory.name@,
            crate::text::signed_decimal(memory.device_id as int),
            memory.alloc_type.spec_text(),
            memory.mem_type.spec_text(),
        );
        assert(woven(template(failure), values(failure)) =~= failure.spec_message());
    }
}

proof fn lemma_tensor_memory_not_host(failure: Error)
    requires
        failure is TensorMemoryNotHost,
    ensures
        woven(template(failure), values(failure)) == failure.spec_message(),
{
    if let Error::TensorMemoryNotHost { memory } = failure {
        lemma_woven_4(
            "tensor memory is not host-accessible: "@,
            " device "@,
            " ("@,
            "/"@,
            ")"@,
            memory.name@,
            crate::text::signed_decimal(memory.device_id as int),
            memory.alloc_type.spec_text(),
            memory.mem_type.spec_text(),
        );
        assert(woven(template(failure), values(failure)) =~= failure.spec_message());
    }
}

proof fn lemma_slice_memory_not_host(failure: Error)
    requires
        failure is SliceMemoryNotHost,
    ensures
        woven(template(failure), values(failure)) == failure.spec_message(),
{
    if let Error::SliceMemoryNotHost { memory } = failure {
        lemma_woven_4(
            "Rust slice-backed tensors require host-accessible memory, got "@,
            " device "@,
            " ("@,
            "/"@,
            ")"@,
            memory.name@,
            crate::text::signed_decimal(memory.device_id as int),
            memory.alloc_type.spec_text(),
            memory.mem_type.spec_text(),
        );
        assert(woven(template(failure), values(failure)) =~= failure.spec_message());
    }
}

proof fn lemma_lane_stream_count(failure: Error)
    requires
        failure is LaneStreamCount,
    ensures
        woven(template(failure), values(failure)) == failure.spec_message(),
{
    if let Error::LaneStreamCount { expected, got } = failure {
        lemma_woven_2(
            "DynamicIoRuntime: expected "@,
            " per-lane CUDA streams, got "@,
            Seq::<char>::empty(),
            crate::text::decimal(expected as nat),
            crate::text::decimal(got as nat),
        );
        assert(woven(template(failure), values(failure)) =~= failure.spec_message());
    }
}

proof fn lemma_session_stream_count(failure: Error)
    requires
        failure is SessionStreamCount,
    ensures
        woven(template(failure), values(failure)) == failure.spec_message(),
{
    if let Error::SessionStreamCount { sessions, streams } = failure {
        lemma_woven_2(
            "StaticIoRuntime requires one CUDA stream per session, got "@,
            " sessions and "@,
            " streams"@,
            crate::text::decimal(sessions as nat),
            crate::text::decimal(streams as nat),
        );
        assert(woven(template(failure), values(failure)) =~= failure.spec_message());
    }
}

proof fn lemma_plan_too_large(failure: Error)
    requires
        failure is PlanTooLarge,
    ensures
        woven(template(failure), values(failure)) == failure.spec_message(),
{
    if let Error::PlanTooLarge { buckets, capacity } = failure {
        lemma_woven_2(
            "zrt: serving plan has "@,
            " buckets but runtime capacity is "@,
            Seq::<char>::empty(),
            crate::text::decimal(buckets as nat),
            crate::text::decimal(capacity as nat),
        );
        assert(woven(template(failure), values(failure)) =~= failure.spec_message());
    }
}

proof fn lemma_plan_arity(failure: Error)
    requires
        failure is PlanArity,
    ensures
        woven(template(failure), values(failure)) == failure.spec_message(),
{
    if let Error::PlanArity { inputs, outputs, plan_inputs, plan_outputs } = failure {
        lemma_woven_4(
            "zrt: serving plan arity mismatch: runtime expects "@,
            " inputs/"@,
            " outputs, plan bucket has "@,
            "/"@,
            Seq::<char>::empty(),
            crate::text::decimal(inputs as nat),
            crate::text::decimal(outputs as nat),
            crate::text::decimal(plan_inputs as nat),
            crate::text::decimal(plan_outputs as nat),
        );
        assert(woven(template(failure), values(failure)) =~= failure.spec_message());
    }
}

proof fn lemma_shape_rejected(failure: Error)
    requires
        failure is ShapeRejected,
    ensures
        woven(template(failure), values(failure)) == failure.spec_message(),
{
    if let Error::ShapeRejected { error } = failure {
        lemma_woven_1(
            "zrt: serving shape rejected by sealed plan: "@,
            Seq::<char>::empty(),
            error.spec_text(),
        );
        assert(woven(template(failure), values(failure)) =~= failure.spec_message());
    }
}

proof fn lemma_graph_creation_in_flight(failure: Error)
    requires
        failure is GraphCreationInFlight,
    ensures
        woven(template(failure), values(failure)) == failure.spec_message(),
{
    if let Error::GraphCreationInFlight { bucket, detached, in_flight } = failure {
        lemma_woven_3(
            "zrt: refusing to create a new CUDA-graph shape bucket while bucket "@,
            " still has "@,
            " detached lane(s) and "@,
            " in-flight lane(s) — graph capture must not overlap a live replay; prebuild or warm every bucket before serving traffic"@,
            crate::text::decimal(bucket as nat),
            crate::text::decimal(detached as nat),
            crate::text::decimal(in_flight as nat),
        );
        assert(woven(template(failure), values(failure)) =~= failure.spec_message());
    }
}

proof fn lemma_graph_cache_full(failure: Error)
    requires
        failure is GraphCacheFull,
    ensures
        woven(template(failure), values(failure)) == failure.spec_message(),
{
    if let Error::GraphCacheFull { max_buckets } = failure {
        lemma_woven_1(
            "zrt: cuda_graph dynamic shape cache is full (max_buckets="@,
            "); refusing to evict because ORT's legacy CUDA EP keeps captured graphs for the session lifetime. Increase max_buckets and prewarm the hot shape set, or disable cuda_graph for unbounded shapes."@,
            crate::text::decimal(max_buckets as nat),
        );
        assert(woven(template(failure), values(failure)) =~= failure.spec_message());
    }
}

proof fn lemma_capture_failed(failure: Error)
    requires
        failure is CaptureFailed,
    ensures
        woven(template(failure), values(failure)) == failure.spec_message(),
{
    if let Error::CaptureFailed { lane, cause } = failure {
        lemma_woven_2(
            "zrt: eager CUDA-graph capture for lane "@,
            " of a new shape bucket failed: "@,
            Seq::<char>::empty(),
            crate::text::decimal(lane as nat),
            cause.spec_message(),
        );
        assert(woven(template(failure), values(failure)) =~= failure.spec_message());
    }
}

proof fn lemma_type_mismatch(failure: Error)
    requires
        failure is TypeMismatch,
    ensures
        woven(template(failure), values(failure)) == failure.spec_message(),
{
    if let Error::TypeMismatch { access, requested, actual } = failure {
        lemma_woven_3(
            "zrt: "@,
            "<"@,
            "> on a "@,
            " tensor"@,
            access.spec_text(),
            requested.spec_rust_text(),
            actual.spec_text(),
        );
        assert(woven(template(failure), values(failure)) =~= failure.spec_message());
    }
}

proof fn lemma_not_a_tensor(failure: Error)
    requires
        failure is NotATensor,
    ensures
        woven(template(failure), values(failure)) == failure.spec_message(),
{
    if let Error::NotATensor { access, kind } = failure {
        lemma_woven_2(
            "zrt: "@,
            " on a non-tensor ("@,
            ") value"@,
            access.spec_text(),
            kind.spec_text(),
        );
        assert(woven(template(failure), values(failure)) =~= failure.spec_message());
    }
}

proof fn lemma_not_strings(failure: Error)
    requires
        failure is NotStrings,
    ensures
        woven(template(failure), values(failure)) == failure.spec_message(),
{
    if let Error::NotStrings { actual } = failure {
        lemma_woven_1(
            "zrt: as_strings on a "@,
            " tensor (expected String)"@,
            actual.spec_text(),
        );
        assert(woven(template(failure), values(failure)) =~= failure.spec_message());
    }
}

proof fn lemma_device_value_not_tensor(failure: Error)
    requires
        failure is DeviceValueNotTensor,
    ensures
        woven(template(failure), values(failure)) == failure.spec_message(),
{
    if let Error::DeviceValueNotTensor { kind } = failure {
        lemma_woven_1(
            "zrt: DeviceValue requires a tensor, got "@,
            Seq::<char>::empty(),
            kind.spec_text(),
        );
        assert(woven(template(failure), values(failure)) =~= failure.spec_message());
    }
}

proof fn lemma_bad_alignment(failure: Error)
    requires
        failure is BadAlignment,
    ensures
        woven(template(failure), values(failure)) == failure.spec_message(),
{
    if let Error::BadAlignment { alignment } = failure {
        lemma_woven_1(
            "alignment must be a power of two, got "@,
            Seq::<char>::empty(),
            crate::text::decimal(alignment as nat),
        );
        assert(woven(template(failure), values(failure)) =~= failure.spec_message());
    }
}

proof fn lemma_mmap_range(failure: Error)
    requires
        failure is MmapRange,
    ensures
        woven(template(failure), values(failure)) == failure.spec_message(),
{
    if let Error::MmapRange { start, end, file_len, path } = failure {
        lemma_woven_4(
            "mmap tensor range ["@,
            ".."@,
            ") exceeds file size "@,
            " for "@,
            Seq::<char>::empty(),
            crate::text::decimal(start as nat),
            crate::text::decimal(end as nat),
            crate::text::decimal(file_len as nat),
            path@,
        );
        assert(woven(template(failure), values(failure)) =~= failure.spec_message());
    }
}

proof fn lemma_mmap_misaligned(failure: Error)
    requires
        failure is MmapMisaligned,
    ensures
        woven(template(failure), values(failure)) == failure.spec_message(),
{
    if let Error::MmapMisaligned { element_type } = failure {
        lemma_woven_1(
            "mmap tensor data pointer is not aligned for "@,
            Seq::<char>::empty(),
            element_type.spec_rust_text(),
        );
        assert(woven(template(failure), values(failure)) =~= failure.spec_message());
    }
}

proof fn lemma_shape_length(failure: Error)
    requires
        failure is ShapeLength,
    ensures
        woven(template(failure), values(failure)) == failure.spec_message(),
{
    if let Error::ShapeLength { expected, got } = failure {
        lemma_woven_2(
            "tensor shape expects "@,
            " elements, got "@,
            Seq::<char>::empty(),
            crate::text::decimal(expected as nat),
            crate::text::decimal(got as nat),
        );
        assert(woven(template(failure), values(failure)) =~= failure.spec_message());
    }
}

proof fn lemma_not_packed(failure: Error)
    requires
        failure is NotPacked,
    ensures
        woven(template(failure), values(failure)) == failure.spec_message(),
{
    if let Error::NotPacked { element_type } = failure {
        lemma_woven_1(
            "zrt: "@,
            " is not a packed sub-byte tensor element type"@,
            element_type.spec_text(),
        );
        assert(woven(template(failure), values(failure)) =~= failure.spec_message());
    }
}

proof fn lemma_packed_length(failure: Error)
    requires
        failure is PackedLength,
    ensures
        woven(template(failure), values(failure)) == failure.spec_message(),
{
    if let Error::PackedLength { element_type, expected, count, got } = failure {
        lemma_woven_4(
            "packed "@,
            " tensor shape expects "@,
            " bytes for "@,
            " elements, got "@,
            Seq::<char>::empty(),
            element_type.spec_text(),
            crate::text::decimal(expected as nat),
            crate::text::decimal(count as nat),
            crate::text::decimal(got as nat),
        );
        assert(woven(template(failure), values(failure)) =~= failure.spec_message());
    }
}

proof fn lemma_coo_length(failure: Error)
    requires
        failure is CooLength,
    ensures
        woven(template(failure), values(failure)) == failure.spec_message(),
{
    if let Error::CooLength { got } = failure {
        lemma_woven_1(
            "COO indices must have 0, nnz, or nnz*dense_rank entries; got "@,
            Seq::<char>::empty(),
            crate::text::decimal(got as nat),
        );
        assert(woven(template(failure), values(failure)) =~= failure.spec_message());
    }
}

proof fn lemma_csr_inner_length(failure: Error)
    requires
        failure is CsrInnerLength,
    ensures
        woven(template(failure), values(failure)) == failure.spec_message(),
{
    if let Error::CsrInnerLength { expected, got } = failure {
        lemma_woven_2(
            "CSR inner indices must match nnz ("@,
            "), got "@,
            Seq::<char>::empty(),
            crate::text::decimal(expected as nat),
            crate::text::decimal(got as nat),
        );
        assert(woven(template(failure), values(failure)) =~= failure.spec_message());
    }
}

proof fn lemma_csr_outer_length(failure: Error)
    requires
        failure is CsrOuterLength,
    ensures
        woven(template(failure), values(failure)) == failure.spec_message(),
{
    if let Error::CsrOuterLength { expected, got } = failure {
        lemma_woven_2(
            "CSR outer indices must have rows + 1 entries ("@,
            "), got "@,
            Seq::<char>::empty(),
            crate::text::decimal(expected as nat),
            crate::text::decimal(got as nat),
        );
        assert(woven(template(failure), values(failure)) =~= failure.spec_message());
    }
}

proof fn lemma_value_index_out_of_range(failure: Error)
    requires
        failure is ValueIndexOutOfRange,
    ensures
        woven(template(failure), values(failure)) == failure.spec_message(),
{
    if let Error::ValueIndexOutOfRange { index, count } = failure {
        lemma_woven_2(
            "zrt: value index "@,
            " out of range ("@,
            " values)"@,
            crate::text::decimal(index as nat),
            crate::text::decimal(count as nat),
        );
        assert(woven(template(failure), values(failure)) =~= failure.spec_message());
    }
}

proof fn lemma_string_offsets(failure: Error)
    requires
        failure is StringOffsets,
    ensures
        woven(template(failure), values(failure)) == failure.spec_message(),
{
    if let Error::StringOffsets { index } = failure {
        lemma_woven_1(
            "zrt: invalid string tensor offsets at index "@,
            Seq::<char>::empty(),
            crate::text::decimal(index as nat),
        );
        assert(woven(template(failure), values(failure)) =~= failure.spec_message());
    }
}

proof fn lemma_dynamic_dimension(failure: Error)
    requires
        failure is DynamicDimension,
    ensures
        woven(template(failure), values(failure)) == failure.spec_message(),
{
    if let Error::DynamicDimension { dimension } = failure {
        lemma_woven_1(
            "tensor shape contains a dynamic/unknown dimension ("@,
            ")"@,
            crate::text::signed_decimal(dimension as int),
        );
        assert(woven(template(failure), values(failure)) =~= failure.spec_message());
    }
}

proof fn lemma_messages_are_woven(failure: Error)
    ensures
        woven(template(failure), values(failure)) == failure.spec_message(),
{
    match failure {
        Error::Engine { .. } => lemma_engine(failure),
        Error::Fault(_) => lemma_fault(failure),
        Error::IndexOutOfRange { .. } => lemma_index_out_of_range(failure),
        Error::SessionIndexOutOfRange { .. } => lemma_session_index_out_of_range(failure),
        Error::NameNotUtf8 { .. } => lemma_name_not_utf8(failure),
        Error::CountMismatch { .. } => lemma_count_mismatch(failure),
        Error::CopyCountMismatch { .. } => lemma_copy_count_mismatch(failure),
        Error::CopyBytesMismatch { .. } => lemma_copy_bytes_mismatch(failure),
        Error::NotZeroCopy { .. } => lemma_not_zero_copy(failure),
        Error::LaneMemoryNotHost { .. } => lemma_lane_memory_not_host(failure),
        Error::TensorMemoryNotHost { .. } => lemma_tensor_memory_not_host(failure),
        Error::SliceMemoryNotHost { .. } => lemma_slice_memory_not_host(failure),
        Error::LaneStreamCount { .. } => lemma_lane_stream_count(failure),
        Error::SessionStreamCount { .. } => lemma_session_stream_count(failure),
        Error::PlanTooLarge { .. } => lemma_plan_too_large(failure),
        Error::PlanArity { .. } => lemma_plan_arity(failure),
        Error::ShapeRejected { .. } => lemma_shape_rejected(failure),
        Error::GraphCreationInFlight { .. } => lemma_graph_creation_in_flight(failure),
        Error::GraphCacheFull { .. } => lemma_graph_cache_full(failure),
        Error::CaptureFailed { .. } => lemma_capture_failed(failure),
        Error::TypeMismatch { .. } => lemma_type_mismatch(failure),
        Error::NotATensor { .. } => lemma_not_a_tensor(failure),
        Error::NotStrings { .. } => lemma_not_strings(failure),
        Error::DeviceValueNotTensor { .. } => lemma_device_value_not_tensor(failure),
        Error::BadAlignment { .. } => lemma_bad_alignment(failure),
        Error::MmapRange { .. } => lemma_mmap_range(failure),
        Error::MmapMisaligned { .. } => lemma_mmap_misaligned(failure),
        Error::ShapeLength { .. } => lemma_shape_length(failure),
        Error::NotPacked { .. } => lemma_not_packed(failure),
        Error::PackedLength { .. } => lemma_packed_length(failure),
        Error::CooLength { .. } => lemma_coo_length(failure),
        Error::CsrInnerLength { .. } => lemma_csr_inner_length(failure),
        Error::CsrOuterLength { .. } => lemma_csr_outer_length(failure),
        Error::ValueIndexOutOfRange { .. } => lemma_value_index_out_of_range(failure),
        Error::StringOffsets { .. } => lemma_string_offsets(failure),
        Error::DynamicDimension { .. } => lemma_dynamic_dimension(failure),
    }
}

/// The messages of one kind of error differ in their values alone: what stands between these is the same,
/// and each value stands in its own place.
pub proof fn messages_give_their_values(one: Error, other: Error)
    requires
        same_kind(one, other),
    ensures
        exists|parts: Seq<Seq<char>>|
            woven(parts, values(one)) == one.spec_message() && #[trigger] woven(parts, values(other))
                == other.spec_message(),
{
    lemma_messages_are_woven(one);
    lemma_messages_are_woven(other);
    assert(template(one) == template(other));
}

/// Errors of the engine keep its code and its message. All others have the code of the library.
pub proof fn engine_errors_are_passed_on(error: Error)
    ensures
        error matches Error::Engine { code, message } ==> error.spec_code() == code && error.spec_message()
            == message@,
        !(error is Engine) ==> error.spec_code() == -1,
{
}

} // verus!
