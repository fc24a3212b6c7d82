//! Errors of the library and their texts.
use vstd::prelude::*;

use crate::element::{ElementType, OnnxType};
use crate::memory::MemoryInfo;
use crate::shape_plan::ClassifyError;
use crate::text::{push_decimal, push_hexadecimal, push_signed_decimal};
verus! {

/// A failure whose text is fixed.
#[derive(Debug, Clone, Copy, PartialEq, Eq, Structural)]
pub enum Fault {
    OwnedRunNotSynchronized,
    OwnedRunNotSynchronizedMut,
    ChainEventMissing,
    SessionStreamMismatch,
    InputNameNul,
    LaneInFlight,
    NoCompletionEvent,
    ChainNeedsCompletionEvent,
    ChainDeviceMismatch,
    ChainNeedsDeviceOutputs,
    NoDownstreamEvent,
    EventProfileUnavailable,
    UnsynchronizedDeviceInputs,
    UnsynchronizedGraph,
    OutputsOnDevice,
    OutputOnDevice,
    DeviceOutputPending,
    NoDeviceOutput,
    GraphIdNeedsDeviceInputs,
    PoolWithoutLanes,
    StreamDeviceMismatch,
    NoBuckets,
    GraphWithRebind,
    GraphWithHostInputs,
    DeviceOutputsNeedDeviceInputs,
    DeviceOutputsNeedCuda,
    DeviceInputsWithRebind,
    DynamicDeviceInputsNeedCuda,
    DeviceInputsNeedStream,
    GraphSharedSessionLanes,
    LaneStreamsNeedReplicas,
    RuntimeWithoutSessions,
    RuntimeWithoutLanes,
    StaticWithoutLanes,
    StaticWithoutSessions,
    DynamicWithoutLanes,
    DynamicWithoutSessions,
    FreeSlotInvalid,
    SlotSpaceExhausted,
    RecoveryCapacityOverflow,
    RecoverySlotOverflow,
    DeviceStreamMissing,
    PlanAfterBuckets,
    PlanOutputPlacement,
    GraphWithoutPlan,
    PlanInvalidShapeId,
    RequestNotCanonical,
    CacheFullInFlight,
    EvictionRefused,
    StrictCacheMiss,
    BucketNotPrepared,
    BucketUnavailable,
    LaneAccountingDiverged,
    AllLanesInFlight,
    PollBufferTooSmall,
    PollNeedsEvents,
    PollDeviceMismatch,
    BucketRetiredInFlight,
    LaneAccountingInconsistent,
    ClearWhileInFlight,
    ClearUnfenced,
    AllocatedBytesOverflow,
    AlignedBytesOverflow,
    AlignedLayoutInvalid,
    MmapBytesOverflow,
    MmapRangeOverflow,
    MmapLengthOverflow,
    BufferBytesOverflow,
    SparseValuesNotHost,
    BlockIndicesAreI32,
    SparseStrings,
    CooLengthOverflow,
    CsrRankZero,
    CsrDynamicRows,
    CsrRowsTooLarge,
    CsrOuterOverflow,
    StringElementNul,
    ValueIndexOverflow,
    StringDataNotUtf8,
    SymbolicDimNul,
    SymbolicDimNotUtf8,
    DimensionTooLarge,
    ElementCountOverflow,
    DenotationNotUtf8,
    ConfigKeyNul,
    ConfigEntryNotUtf8,
    ThreadAffinityNul,
    ThreadManagerConfigured,
    ModelPathNul,
    InitializerFileNul,
    SessionShared,
    FinalizeShared,
    ProfilePathNull,
    GraphIdsExhausted,
    InitializerNameNull,
    DynamicKeyNul,
    DynamicValueNul,
    BindingSessionMismatch,
    RunOptionsEnvironmentMismatch,
    StreamEnvironmentMismatch,
    AsyncResultConsumed,
    IoNameNull,
    SessionNull,
    TensorDataNull,
    StringByteLen,
    TypeAndShapeNull,
    IndicesTypeAndShapeNull,
    EpApiUnavailable,
    EditorApiUnavailable,
    MemoryDeviceUnavailable,
    ClonedOptionsNull,
}

impl Fault {
    /// The text of this failure.
    pub open spec fn spec_text(self) -> Seq<char> {
        match self {
            Fault::OwnedRunNotSynchronized => "zrt: owned run must be synchronized before its lane can be borrowed"@,
            Fault::OwnedRunNotSynchronizedMut => "zrt: owned run must be synchronized before its lane can be mutably borrowed"@,
            Fault::ChainEventMissing => "zrt: GPU chain has no recorded downstream completion event"@,
            Fault::SessionStreamMismatch => "ServingLane requires the exact owned CUDA stream configured on its Session"@,
            Fault::InputNameNul => "zrt: input name contains a NUL"@,
            Fault::LaneInFlight => "zrt: lane already has an in-flight run; synchronize it before reuse"@,
            Fault::NoCompletionEvent => "zrt: this in-flight lane has no nonblocking completion event; synchronize it explicitly"@,
            Fault::ChainNeedsCompletionEvent => "zrt: GPU chaining requires an in-flight exact-stream CUDA completion event"@,
            Fault::ChainDeviceMismatch => "zrt: GPU chaining currently requires source and downstream streams on the same CUDA device"@,
            Fault::ChainNeedsDeviceOutputs => "zrt: GPU chaining requires device-resident lane outputs"@,
            Fault::NoDownstreamEvent => "zrt: lane has no downstream CUDA completion event"@,
            Fault::EventProfileUnavailable => "zrt: event-profiled run requires device inputs and a CUDA graph id"@,
            Fault::UnsynchronizedDeviceInputs => "zrt: run_unsynchronized is unsafe in device-input mode — the H2D refresh and stream synchronization performed by `run` are required; use `run` instead"@,
            Fault::UnsynchronizedGraph => "zrt: run_unsynchronized cannot retain a captured-graph lease through caller-managed synchronization; use enqueue() or run() instead"@,
            Fault::OutputsOnDevice => "zrt: lane outputs are CUDA-resident; use device_output"@,
            Fault::OutputOnDevice => "zrt: lane output is CUDA-resident; use device_output"@,
            Fault::DeviceOutputPending => "zrt: device output is unavailable before lane completion"@,
            Fault::NoDeviceOutput => "zrt: lane has no CUDA-resident output at this index"@,
            Fault::GraphIdNeedsDeviceInputs => "zrt: gpu_graph_id requires a device-input lane on the retained user stream; a host-input captured graph replays stale inputs — build the lane with `with_device_inputs`/`with_device_io`"@,
            Fault::PoolWithoutLanes => "zrt: ServingLanePool requires at least one lane"@,
            Fault::StreamDeviceMismatch => "CUDA stream belongs to a different device"@,
            Fault::NoBuckets => "DynamicIoRuntime requires at least one shape bucket"@,
            Fault::GraphWithRebind => "DynamicIoRuntime: `cuda_graph` and `rebind_inputs_each_run` are mutually exclusive (rebind tears down the pointers a captured CUDA graph bakes); refresh device-resident inputs with an on-stream host→device copy instead"@,
            Fault::GraphWithHostInputs => "DynamicIoRuntime: `cuda_graph` requires device-resident inputs refreshed on the retained user stream (`with_device_inputs`/`with_device_input_streams`); a host-input captured graph replays stale inputs"@,
            Fault::DeviceOutputsNeedDeviceInputs => "DynamicIoRuntime: device outputs require device-input mode and an owned CUDA stream"@,
            Fault::DeviceOutputsNeedCuda => "DynamicIoRuntime: device outputs require the `cuda` feature"@,
            Fault::DeviceInputsWithRebind => "DynamicIoRuntime: `device_inputs` and `rebind_inputs_each_run` are mutually exclusive (rebind tears down the device pointers a captured CUDA graph bakes); refresh device-resident inputs with the on-stream copy instead"@,
            Fault::DynamicDeviceInputsNeedCuda => "DynamicIoRuntime: device-input mode requires the `cuda` feature"@,
            Fault::DeviceInputsNeedStream => "DynamicIoRuntime: device-input mode requires a non-null CUDA stream handle"@,
            Fault::GraphSharedSessionLanes => "DynamicIoRuntime: `cuda_graph` with a shared session supports exactly one lane per shape bucket — one bucket mints one gpu_graph_id, and ORT captures whichever lane ran first into that graph, so other lanes would silently use that lane's buffers; use replicated sessions (one session + exact stream per lane) or a single lane"@,
            Fault::LaneStreamsNeedReplicas => "DynamicIoRuntime: per-lane device-input streams require replicated sessions"@,
            Fault::RuntimeWithoutSessions => "Runtime requires at least one session"@,
            Fault::RuntimeWithoutLanes => "Runtime requires at least one lane"@,
            Fault::StaticWithoutLanes => "StaticIoRuntime requires at least one lane"@,
            Fault::StaticWithoutSessions => "StaticIoRuntime requires at least one session"@,
            Fault::DynamicWithoutLanes => "DynamicIoRuntime requires at least one lane"@,
            Fault::DynamicWithoutSessions => "DynamicIoRuntime requires at least one session"@,
            Fault::FreeSlotInvalid => "zrt: prepared bucket free-slot index is invalid"@,
            Fault::SlotSpaceExhausted => "zrt: prepared bucket slot space exhausted"@,
            Fault::RecoveryCapacityOverflow => "zrt: dynamic recovery slot capacity overflow"@,
            Fault::RecoverySlotOverflow => "zrt: dynamic recovery slot index overflow"@,
            Fault::DeviceStreamMissing => "device-input mode is missing its owned CUDA stream"@,
            Fault::PlanAfterBuckets => "zrt: install the serving shape plan before building or warming buckets"@,
            Fault::PlanOutputPlacement => "zrt: serving plan output placement does not match DynamicIoOptions"@,
            Fault::GraphWithoutPlan => "zrt: CUDA-graph runtime requires a sealed ServingShapePlan before bucket creation"@,
            Fault::PlanInvalidShapeId => "zrt: serving plan returned an invalid shape id"@,
            Fault::RequestNotCanonical => "zrt: request does not exactly match the canonical input/output shapes; pad to the classified bucket before running"@,
            Fault::CacheFullInFlight => "zrt: dynamic shape cache is full and every bucket has owned runs in flight"@,
            Fault::EvictionRefused => "zrt: dynamic shape cache eviction refused inconsistent detached-lane accounting"@,
            Fault::StrictCacheMiss => "zrt: dynamic shape cache miss rejected by strict_shape_cache; prebuild or warm this shape before serving"@,
            Fault::BucketNotPrepared => "zrt: shape bucket has not been prepared"@,
            Fault::BucketUnavailable => "zrt: prepared shape bucket is unavailable"@,
            Fault::LaneAccountingDiverged => "zrt: detached-lane accounting diverged from the lane slot count"@,
            Fault::AllLanesInFlight => "zrt: all lanes for this serving shape are in flight"@,
            Fault::PollBufferTooSmall => "zrt: owned-run completion result buffer is smaller than the run batch"@,
            Fault::PollNeedsEvents => "zrt: batch polling requires every in-flight run to have an exact CUDA completion event"@,
            Fault::PollDeviceMismatch => "zrt: owned-run completion batch contains another CUDA device"@,
            Fault::BucketRetiredInFlight => "zrt: shape bucket retired while an owned run was in flight"@,
            Fault::LaneAccountingInconsistent => "zrt: detached-lane accounting is inconsistent"@,
            Fault::ClearWhileInFlight => "zrt: cannot clear shape buckets while owned runs are in flight"@,
            Fault::ClearUnfenced => "zrt: could not fence every in-flight lane while clearing buckets; affected resources were leaked for safety"@,
            Fault::AllocatedBytesOverflow => "allocated tensor byte length overflows usize"@,
            Fault::AlignedBytesOverflow => "aligned tensor byte size overflows usize"@,
            Fault::AlignedLayoutInvalid => "invalid aligned tensor layout"@,
            Fault::MmapBytesOverflow => "mmap tensor byte size overflows usize"@,
            Fault::MmapRangeOverflow => "mmap tensor file range overflows u64"@,
            Fault::MmapLengthOverflow => "mmap length overflows usize"@,
            Fault::BufferBytesOverflow => "tensor buffer byte length overflows usize"@,
            Fault::SparseValuesNotHost => "sparse tensor values are not host-accessible"@,
            Fault::BlockIndicesAreI32 => "block-sparse indices are i32; use block_sparse_indices"@,
            Fault::SparseStrings => "sparse string tensors must use ORT copied string APIs, which ZRT does not expose yet"@,
            Fault::CooLengthOverflow => "COO index length overflows usize"@,
            Fault::CsrRankZero => "CSR sparse tensors require rank >= 1"@,
            Fault::CsrDynamicRows => "CSR dense shape cannot contain dynamic rows"@,
            Fault::CsrRowsTooLarge => "CSR row count does not fit usize"@,
            Fault::CsrOuterOverflow => "CSR outer-index length overflows usize"@,
            Fault::StringElementNul => "string tensor element contains a NUL"@,
            Fault::ValueIndexOverflow => "zrt: value index overflows c_int"@,
            Fault::StringDataNotUtf8 => "zrt: string tensor data is not valid UTF-8"@,
            Fault::SymbolicDimNul => "symbolic dimension name contains a NUL"@,
            Fault::SymbolicDimNotUtf8 => "zrt: symbolic dimension name is not valid UTF-8"@,
            Fault::DimensionTooLarge => "tensor dimension does not fit usize"@,
            Fault::ElementCountOverflow => "tensor shape element count overflows usize"@,
            Fault::DenotationNotUtf8 => "zrt: type-info denotation is not valid UTF-8"@,
            Fault::ConfigKeyNul => "config key contains a NUL"@,
            Fault::ConfigEntryNotUtf8 => "zrt: session config entry is not valid UTF-8"@,
            Fault::ThreadAffinityNul => "thread affinity contains a NUL byte"@,
            Fault::ThreadManagerConfigured => "zrt: global thread manager already configured"@,
            Fault::ModelPathNul => "model path contains a NUL"@,
            Fault::InitializerFileNul => "external initializer file name contains a NUL"@,
            Fault::SessionShared => "cannot mutate model-editor session metadata while Session clones or session-owned resources exist"@,
            Fault::FinalizeShared => "cannot finalize a model-editor session while Session clones or session-owned resources exist"@,
            Fault::ProfilePathNull => "zrt: ORT returned null profiling path"@,
            Fault::GraphIdsExhausted => "zrt: gpu_graph_id exhausted (i32 overflow); restart the process or disable cuda_graph"@,
            Fault::InitializerNameNull => "zrt: overridable initializer name pointer is null"@,
            Fault::DynamicKeyNul => "dynamic option key contains a NUL"@,
            Fault::DynamicValueNul => "dynamic option value contains a NUL"@,
            Fault::BindingSessionMismatch => "IoBinding belongs to a different Session"@,
            Fault::RunOptionsEnvironmentMismatch => "MaterializedRunOptions sync stream belongs to a different Environment"@,
            Fault::StreamEnvironmentMismatch => "SyncStream belongs to a different Environment"@,
            Fault::AsyncResultConsumed => "zrt: async result already consumed"@,
            Fault::IoNameNull => "zrt: session I/O name pointer is null"@,
            Fault::SessionNull => "zrt: session pointer is null"@,
            Fault::TensorDataNull => "zrt: tensor data pointer is null"@,
            Fault::StringByteLen => "zrt: byte_len on a string tensor"@,
            Fault::TypeAndShapeNull => "zrt: tensor type and shape info pointer is null"@,
            Fault::IndicesTypeAndShapeNull => "zrt: sparse tensor indices type and shape info pointer is null"@,
            Fault::EpApiUnavailable => "EpApi unavailable"@,
            Fault::EditorApiUnavailable => "ModelEditorApi unavailable"@,
            Fault::MemoryDeviceUnavailable => "Value_GetMemoryDevice unavailable"@,
            Fault::ClonedOptionsNull => "zrt: cloned session options pointer is null"@,
        }
    }

    /// The text of this failure.
    pub fn text(&self) -> (text: &'static str)
        ensures
            text@ == self.spec_text(),
    {
        match self {
            Fault::OwnedRunNotSynchronized => "zrt: owned run must be synchronized before its lane can be borrowed",
            Fault::OwnedRunNotSynchronizedMut => "zrt: owned run must be synchronized before its lane can be mutably borrowed",
            Fault::ChainEventMissing => "zrt: GPU chain has no recorded downstream completion event",
            Fault::SessionStreamMismatch => "ServingLane requires the exact owned CUDA stream configured on its Session",
            Fault::InputNameNul => "zrt: input name contains a NUL",
            Fault::LaneInFlight => "zrt: lane already has an in-flight run; synchronize it before reuse",
            Fault::NoCompletionEvent => "zrt: this in-flight lane has no nonblocking completion event; synchronize it explicitly",
            Fault::ChainNeedsCompletionEvent => "zrt: GPU chaining requires an in-flight exact-stream CUDA completion event",
            Fault::ChainDeviceMismatch => "zrt: GPU chaining currently requires source and downstream streams on the same CUDA device",
            Fault::ChainNeedsDeviceOutputs => "zrt: GPU chaining requires device-resident lane outputs",
            Fault::NoDownstreamEvent => "zrt: lane has no downstream CUDA completion event",
            Fault::EventProfileUnavailable => "zrt: event-profiled run requires device inputs and a CUDA graph id",
            Fault::UnsynchronizedDeviceInputs => "zrt: run_unsynchronized is unsafe in device-input mode — the H2D refresh and stream synchronization performed by `run` are required; use `run` instead",
            Fault::UnsynchronizedGraph => "zrt: run_unsynchronized cannot retain a captured-graph lease through caller-managed synchronization; use enqueue() or run() instead",
            Fault::OutputsOnDevice => "zrt: lane outputs are CUDA-resident; use device_output",
            Fault::OutputOnDevice => "zrt: lane output is CUDA-resident; use device_output",
            Fault::DeviceOutputPending => "zrt: device output is unavailable before lane completion",
            Fault::NoDeviceOutput => "zrt: lane has no CUDA-resident output at this index",
            Fault::GraphIdNeedsDeviceInputs => "zrt: gpu_graph_id requires a device-input lane on the retained user stream; a host-input captured graph replays stale inputs — build the lane with `with_device_inputs`/`with_device_io`",
            Fault::PoolWithoutLanes => "zrt: ServingLanePool requires at least one lane",
            Fault::StreamDeviceMismatch => "CUDA stream belongs to a different device",
            Fault::NoBuckets => "DynamicIoRuntime requires at least one shape bucket",
            Fault::GraphWithRebind => "DynamicIoRuntime: `cuda_graph` and `rebind_inputs_each_run` are mutually exclusive (rebind tears down the pointers a captured CUDA graph bakes); refresh device-resident inputs with an on-stream host→device copy instead",
            Fault::GraphWithHostInputs => "DynamicIoRuntime: `cuda_graph` requires device-resident inputs refreshed on the retained user stream (`with_device_inputs`/`with_device_input_streams`); a host-input captured graph replays stale inputs",
            Fault::DeviceOutputsNeedDeviceInputs => "DynamicIoRuntime: device outputs require device-input mode and an owned CUDA stream",
            Fault::DeviceOutputsNeedCuda => "DynamicIoRuntime: device outputs require the `cuda` feature",
            Fault::DeviceInputsWithRebind => "DynamicIoRuntime: `device_inputs` and `rebind_inputs_each_run` are mutually exclusive (rebind tears down the device pointers a captured CUDA graph bakes); refresh device-resident inputs with the on-stream copy instead",
            Fault::DynamicDeviceInputsNeedCuda => "DynamicIoRuntime: device-input mode requires the `cuda` feature",
            Fault::DeviceInputsNeedStream => "DynamicIoRuntime: device-input mode requires a non-null CUDA stream handle",
            Fault::GraphSharedSessionLanes => "DynamicIoRuntime: `cuda_graph` with a shared session supports exactly one lane per shape bucket — one bucket mints one gpu_graph_id, and ORT captures whichever lane ran first into that graph, so other lanes would silently use that lane's buffers; use replicated sessions (one session + exact stream per lane) or a single lane",
            Fault::LaneStreamsNeedReplicas => "DynamicIoRuntime: per-lane device-input streams require replicated sessions",
            Fault::RuntimeWithoutSessions => "Runtime requires at least one session",
            Fault::RuntimeWithoutLanes => "Runtime requires at least one lane",
            Fault::StaticWithoutLanes => "StaticIoRuntime requires at least one lane",
            Fault::StaticWithoutSessions => "StaticIoRuntime requires at least one session",
            Fault::DynamicWithoutLanes => "DynamicIoRuntime requires at least one lane",
            Fault::DynamicWithoutSessions => "DynamicIoRuntime requires at least one session",
            Fault::FreeSlotInvalid => "zrt: prepared bucket free-slot index is invalid",
            Fault::SlotSpaceExhausted => "zrt: prepared bucket slot space exhausted",
            Fault::RecoveryCapacityOverflow => "zrt: dynamic recovery slot capacity overflow",
            Fault::RecoverySlotOverflow => "zrt: dynamic recovery slot index overflow",
            Fault::DeviceStreamMissing => "device-input mode is missing its owned CUDA stream",
            Fault::PlanAfterBuckets => "zrt: install the serving shape plan before building or warming buckets",
            Fault::PlanOutputPlacement => "zrt: serving plan output placement does not match DynamicIoOptions",
            Fault::GraphWithoutPlan => "zrt: CUDA-graph runtime requires a sealed ServingShapePlan before bucket creation",
            Fault::PlanInvalidShapeId => "zrt: serving plan returned an invalid shape id",
            Fault::RequestNotCanonical => "zrt: request does not exactly match the canonical input/output shapes; pad to the classified bucket before running",
            Fault::CacheFullInFlight => "zrt: dynamic shape cache is full and every bucket has owned runs in flight",
            Fault::EvictionRefused => "zrt: dynamic shape cache eviction refused inconsistent detached-lane accounting",
            Fault::StrictCacheMiss => "zrt: dynamic shape cache miss rejected by strict_shape_cache; prebuild or warm this shape before serving",
            Fault::BucketNotPrepared => "zrt: shape bucket has not been prepared",
            Fault::BucketUnavailable => "zrt: prepared shape bucket is unavailable",
            Fault::LaneAccountingDiverged => "zrt: detached-lane accounting diverged from the lane slot count",
            Fault::AllLanesInFlight => "zrt: all lanes for this serving shape are in flight",
            Fault::PollBufferTooSmall => "zrt: owned-run completion result buffer is smaller than the run batch",
            Fault::PollNeedsEvents => "zrt: batch polling requires every in-flight run to have an exact CUDA completion event",
            Fault::PollDeviceMismatch => "zrt: owned-run completion batch contains another CUDA device",
            Fault::BucketRetiredInFlight => "zrt: shape bucket retired while an owned run was in flight",
            Fault::LaneAccountingInconsistent => "zrt: detached-lane accounting is inconsistent",
            Fault::ClearWhileInFlight => "zrt: cannot clear shape buckets while owned runs are in flight",
            Fault::ClearUnfenced => "zrt: could not fence every in-flight lane while clearing buckets; affected resources were leaked for safety",
            Fault::AllocatedBytesOverflow => "allocated tensor byte length overflows usize",
            Fault::AlignedBytesOverflow => "aligned tensor byte size overflows usize",
            Fault::AlignedLayoutInvalid => "invalid aligned tensor layout",
            Fault::MmapBytesOverflow => "mmap tensor byte size overflows usize",
            Fault::MmapRangeOverflow => "mmap tensor file range overflows u64",
            Fault::MmapLengthOverflow => "mmap length overflows usize",
            Fault::BufferBytesOverflow => "tensor buffer byte length overflows usize",
            Fault::SparseValuesNotHost => "sparse tensor values are not host-accessible",
            Fault::BlockIndicesAreI32 => "block-sparse indices are i32; use block_sparse_indices",
            Fault::SparseStrings => "sparse string tensors must use ORT copied string APIs, which ZRT does not expose yet",
            Fault::CooLengthOverflow => "COO index length overflows usize",
            Fault::CsrRankZero => "CSR sparse tensors require rank >= 1",
            Fault::CsrDynamicRows => "CSR dense shape cannot contain dynamic rows",
            Fault::CsrRowsTooLarge => "CSR row count does not fit usize",
            Fault::CsrOuterOverflow => "CSR outer-index length overflows usize",
            Fault::StringElementNul => "string tensor element contains a NUL",
            Fault::ValueIndexOverflow => "zrt: value index overflows c_int",
            Fault::StringDataNotUtf8 => "zrt: string tensor data is not valid UTF-8",
            Fault::SymbolicDimNul => "symbolic dimension name contains a NUL",
            Fault::SymbolicDimNotUtf8 => "zrt: symbolic dimension name is not valid UTF-8",
            Fault::DimensionTooLarge => "tensor dimension does not fit usize",
            Fault::ElementCountOverflow => "tensor shape element count overflows usize",
            Fault::DenotationNotUtf8 => "zrt: type-info denotation is not valid UTF-8",
            Fault::ConfigKeyNul => "config key contains a NUL",
            Fault::ConfigEntryNotUtf8 => "zrt: session config entry is not valid UTF-8",
            Fault::ThreadAffinityNul => "thread affinity contains a NUL byte",
            Fault::ThreadManagerConfigured => "zrt: global thread manager already configured",
            Fault::ModelPathNul => "model path contains a NUL",
            Fault::InitializerFileNul => "external initializer file name contains a NUL",
            Fault::SessionShared => "cannot mutate model-editor session metadata while Session clones or session-owned resources exist",
            Fault::FinalizeShared => "cannot finalize a model-editor session while Session clones or session-owned resources exist",
            Fault::ProfilePathNull => "zrt: ORT returned null profiling path",
            Fault::GraphIdsExhausted => "zrt: gpu_graph_id exhausted (i32 overflow); restart the process or disable cuda_graph",
            Fault::InitializerNameNull => "zrt: overridable initializer name pointer is null",
            Fault::DynamicKeyNul => "dynamic option key contains a NUL",
            Fault::DynamicValueNul => "dynamic option value contains a NUL",
            Fault::BindingSessionMismatch => "IoBinding belongs to a different Session",
            Fault::RunOptionsEnvironmentMismatch => "MaterializedRunOptions sync stream belongs to a different Environment",
            Fault::StreamEnvironmentMismatch => "SyncStream belongs to a different Environment",
            Fault::AsyncResultConsumed => "zrt: async result already consumed",
            Fault::IoNameNull => "zrt: session I/O name pointer is null",
            Fault::SessionNull => "zrt: session pointer is null",
            Fault::TensorDataNull => "zrt: tensor data pointer is null",
            Fault::StringByteLen => "zrt: byte_len on a string tensor",
            Fault::TypeAndShapeNull => "zrt: tensor type and shape info pointer is null",
            Fault::IndicesTypeAndShapeNull => "zrt: sparse tensor indices type and shape info pointer is null",
            Fault::EpApiUnavailable => "EpApi unavailable",
            Fault::EditorApiUnavailable => "ModelEditorApi unavailable",
            Fault::MemoryDeviceUnavailable => "Value_GetMemoryDevice unavailable",
            Fault::ClonedOptionsNull => "zrt: cloned session options pointer is null",
        }
    }
}

/// What an index selects.
#[derive(Debug, Clone, Copy, PartialEq, Eq, Structural)]
pub enum Slot {
    LaneInput,
    LaneOutput,
    StaticInput,
    StaticOutput,
    ServingLane,
    Lane,
    StaticLane,
    AllocatedOutputLaneInput,
    AllocatedOutputLaneOutput,
    DeviceOutputLaneInput,
    DeviceOutputLaneOutput,
    AllocatedLaneInput,
    AllocatedLaneOutput,
    Output,
}

impl Slot {
    /// The words that name it.
    pub open spec fn spec_text(self) -> Seq<char> {
        match self {
            Slot::LaneInput => "lane input"@,
            Slot::LaneOutput => "lane output"@,
            Slot::StaticInput => "static I/O lane input"@,
            Slot::StaticOutput => "static I/O lane output"@,
            Slot::ServingLane => "serving lane"@,
            Slot::Lane => "lane"@,
            Slot::StaticLane => "static I/O lane"@,
            Slot::AllocatedOutputLaneInput => "allocated-output lane input"@,
            Slot::AllocatedOutputLaneOutput => "allocated-output lane output"@,
            Slot::DeviceOutputLaneInput => "device-output lane input"@,
            Slot::DeviceOutputLaneOutput => "device-output lane output"@,
            Slot::AllocatedLaneInput => "allocated tensor lane input"@,
            Slot::AllocatedLaneOutput => "allocated tensor lane output"@,
            Slot::Output => "output"@,
        }
    }

    /// The words that name it.
    pub fn text(&self) -> (text: &'static str)
        ensures
            text@ == self.spec_text(),
    {
        match self {
            Slot::LaneInput => "lane input",
            Slot::LaneOutput => "lane output",
            Slot::StaticInput => "static I/O lane input",
            Slot::StaticOutput => "static I/O lane output",
            Slot::ServingLane => "serving lane",
            Slot::Lane => "lane",
            Slot::StaticLane => "static I/O lane",
            Slot::AllocatedOutputLaneInput => "allocated-output lane input",
            Slot::AllocatedOutputLaneOutput => "allocated-output lane output",
            Slot::DeviceOutputLaneInput => "device-output lane input",
            Slot::DeviceOutputLaneOutput => "device-output lane output",
            Slot::AllocatedLaneInput => "allocated tensor lane input",
            Slot::AllocatedLaneOutput => "allocated tensor lane output",
            Slot::Output => "output",
        }
    }
}

/// What a count counts.
#[derive(Debug, Clone, Copy, PartialEq, Eq, Structural)]
pub enum Count {
    Input,
    Output,
    InputShape,
    OutputShape,
    OutputSlot,
    StaticInput,
    StaticOutput,
}

impl Count {
    /// The words that name it.
    pub open spec fn spec_text(self) -> Seq<char> {
        match self {
            Count::Input => "input count"@,
            Count::Output => "output count"@,
            Count::InputShape => "input shape count"@,
            Count::OutputShape => "output shape count"@,
            Count::OutputSlot => "output slot count"@,
            Count::StaticInput => "static I/O lane input count"@,
            Count::StaticOutput => "static I/O lane output count"@,
        }
    }

    /// The words that name it.
    pub fn text(&self) -> (text: &'static str)
        ensures
            text@ == self.spec_text(),
    {
        match self {
            Count::Input => "input count",
            Count::Output => "output count",
            Count::InputShape => "input shape count",
            Count::OutputShape => "output shape count",
            Count::OutputSlot => "output slot count",
            Count::StaticInput => "static I/O lane input count",
            Count::StaticOutput => "static I/O lane output count",
        }
    }
}

/// One side of a session interface.
#[derive(Debug, Clone, Copy, PartialEq, Eq, Structural)]
pub enum Side {
    Input,
    Output,
}

impl Side {
    /// The words that name it.
    pub open spec fn spec_text(self) -> Seq<char> {
        match self {
            Side::Input => "input"@,
            Side::Output => "output"@,
        }
    }

    /// The words that name it.
    pub fn text(&self) -> (text: &'static str)
        ensures
            text@ == self.spec_text(),
    {
        match self {
            Side::Input => "input",
            Side::Output => "output",
        }
    }
}

/// A typed read that a value refused.
#[derive(Debug, Clone, Copy, PartialEq, Eq, Structural)]
pub enum Access {
    Slice,
    Strings,
    ByteLen,
}

impl Access {
    /// The words that name it.
    pub open spec fn spec_text(self) -> Seq<char> {
        match self {
            Access::Slice => "as_slice"@,
            Access::Strings => "as_strings"@,
            Access::ByteLen => "byte_len"@,
        }
    }

    /// The words that name it.
    pub fn text(&self) -> (text: &'static str)
        ensures
            text@ == self.spec_text(),
    {
        match self {
            Access::Slice => "as_slice",
            Access::Strings => "as_strings",
            Access::ByteLen => "byte_len",
        }
    }
}

/// A failure of the library, or one that the engine reported.
#[derive(Debug, PartialEq, Eq)]
#[allow(inconsistent_fields)]
pub enum Error {
    /// A status that the engine returned.
    Engine { code: i32, message: String },
    /// A failure of the library whose text is fixed.
    Fault(Fault),
    /// An index past the end of a lane collection.
    IndexOutOfRange { what: Slot, index: usize },
    /// An index past the end of a session interface.
    SessionIndexOutOfRange { side: Side, index: usize, count: usize },
    /// A session name that is not valid UTF-8.
    NameNotUtf8 { side: Side, index: usize },
    /// A count that differs from the one a session or lane has.
    CountMismatch { what: Count, expected: usize, got: usize },
    /// A copy whose sides differ in number.
    CopyCountMismatch { on_stream: bool, source: usize, destination: usize },
    /// A host copy whose sides differ in bytes.
    CopyBytesMismatch { source: usize, destination: usize },
    /// A lane buffer whose engine pointer is not its own.
    NotZeroCopy { what: Slot, index: usize, rust_ptr: usize, ort_ptr: usize },
    /// A lane buffer outside host memory.
    LaneMemoryNotHost { what: Slot, index: usize, memory: MemoryInfo },
    /// A tensor outside host memory.
    TensorMemoryNotHost { memory: MemoryInfo },
    /// A slice-backed tensor outside host memory.
    SliceMemoryNotHost { memory: MemoryInfo },
    /// A stream count that differs from the lane count.
    LaneStreamCount { expected: usize, got: usize },
    /// A stream count that differs from the session count.
    SessionStreamCount { sessions: usize, streams: usize },
    /// A plan with more buckets than the runtime keeps.
    PlanTooLarge { buckets: usize, capacity: usize },
    /// A plan whose shape counts differ from the runtime.
    PlanArity { inputs: usize, outputs: usize, plan_inputs: usize, plan_outputs: usize },
    /// A request that the installed plan rejects.
    ShapeRejected { error: ClassifyError },
    /// A graph bucket requested while provider work is pending.
    GraphCreationInFlight { bucket: usize, detached: usize, in_flight: usize },
    /// A full cache of captured graphs.
    GraphCacheFull { max_buckets: usize },
    /// A lane of a new bucket whose first run failed.
    CaptureFailed { lane: usize, cause: Box<Error> },
    /// A typed read of another element type.
    TypeMismatch { access: Access, requested: ElementType, actual: ElementType },
    /// A tensor read of another kind of value.
    NotATensor { access: Access, kind: OnnxType },
    /// A string read of another element type.
    NotStrings { actual: ElementType },
    /// A device value made of another kind of value.
    DeviceValueNotTensor { kind: OnnxType },
    /// An alignment that is not a power of two.
    BadAlignment { alignment: usize },
    /// A mapped range past the end of its file.
    MmapRange { start: u64, end: u64, file_len: u64, path: String },
    /// Mapped data at an address that its element type does not allow.
    MmapMisaligned { element_type: ElementType },
    /// A buffer whose length differs from its shape.
    ShapeLength { expected: usize, got: usize },
    /// A packed tensor of an element type that is not packed.
    NotPacked { element_type: ElementType },
    /// A packed buffer whose length differs from its shape.
    PackedLength { element_type: ElementType, expected: usize, count: usize, got: usize },
    /// A coordinate list of the wrong length.
    CooLength { got: usize },
    /// Inner indices of the wrong length.
    CsrInnerLength { expected: usize, got: usize },
    /// Outer indices of the wrong length.
    CsrOuterLength { expected: usize, got: usize },
    /// An index past the end of a sequence or map.
    ValueIndexOutOfRange { index: usize, count: usize },
    /// String offsets that do not describe the data.
    StringOffsets { index: usize },
    /// A shape with a dimension that is not known.
    DynamicDimension { dimension: i64 },
}

/// Where a buffer lies, as diagnostics write it.
pub open spec fn memory_text(memory: MemoryInfo) -> Seq<char> {
    memory.name@ + " device "@ + crate::text::signed_decimal(memory.device_id as int) + " ("@
        + memory.alloc_type.spec_text() + "/"@ + memory.mem_type.spec_text() + ")"@
}

fn push_memory(out: &mut String, memory: &MemoryInfo)
    ensures
        final(out)@ == old(out)@ + memory_text(*memory),
{
    out.append(memory.name.as_str());
    out.append(" device ");
    push_signed_decimal(out, memory.device_id as i64);
    out.append(" (");
    out.append(memory.alloc_type.text());
    out.append("/");
    out.append(memory.mem_type.text());
    out.append(")");
    assert(out@ =~= old(out)@ + memory_text(*memory));
}

impl Error {
    /// The status code: that of the engine, or minus one for a failure of the library.
    pub open spec fn spec_code(self) -> i32 {
        match self {
            Error::Engine { code, .. } => code,
            _ => -1i32,
        }
    }

    /// The status code: that of the engine, or minus one for a failure of the library.
    pub fn code(&self) -> (code: i32)
        ensures
            code == self.spec_code(),
    {
        match self {
            Error::Engine { code, .. } => *code,
            _ => -1,
        }
    }

    /// The text of this failure.
    pub open spec fn spec_message(self) -> Seq<char>
        decreases self,
    {
        match self {
            Error::Engine { message, .. } => message@,
            Error::Fault(fault) => fault.spec_text(),
            Error::IndexOutOfRange { what, index } => {
                "zrt: "@
                    + what.spec_text()
                    + " index "@
                    + crate::text::decimal(index as nat)
                    + " out of range"@
            },
            Error::SessionIndexOutOfRange { side, index, count } => {
                "zrt: "@
                    + side.spec_text()
                    + " index "@
                    + crate::text::decimal(index as nat)
                    + " out of range ("@
                    + crate::text::decimal(count as nat)
                    + " "@
                    + side.spec_text()
                    + "s)"@
            },
            Error::NameNotUtf8 { side, index } => {
                "zrt: "@
                    + side.spec_text()
                    + " name "@
                    + crate::text::decimal(index as nat)
                    + " is not valid UTF-8"@
            },
            Error::CountMismatch { what, expected, got } => {
                "zrt: "@
                    + what.spec_text()
                    + " mismatch: expected "@
                    + crate::text::decimal(expected as nat)
                    + ", got "@
                    + crate::text::decimal(got as nat)
            },
            Error::CopyCountMismatch { on_stream, source, destination } => {
                "zrt: "@
                    + (if on_stream { "on-stream CopyTensors"@ } else { "CopyTensors"@ })
                    + " source/destination count mismatch: "@
                    + crate::text::decimal(source as nat)
                    + " vs "@
                    + crate::text::decimal(destination as nat)
            },
            Error::CopyBytesMismatch { source, destination } => {
                "zrt: CopyTensors host fallback byte-size mismatch: source "@
                    + crate::text::decimal(source as nat)
                    + ", destination "@
                    + crate::text::decimal(destination as nat)
            },
            Error::NotZeroCopy { what, index, rust_ptr, ort_ptr } => {
                "zrt: "@
                    + what.spec_text()
                    + " "@
                    + crate::text::decimal(index as nat)
                    + " is not zero-copy: rust_ptr=0x"@
                    + crate::text::hexadecimal(rust_ptr as nat)
                    + ", ort_ptr=0x"@
                    + crate::text::hexadecimal(ort_ptr as nat)
            },
            Error::LaneMemoryNotHost { what, index, memory } => {
                "zrt: "@
                    + what.spec_text()
                    + " "@
                    + crate::text::decimal(index as nat)
                    + " is not host-accessible: "@
                    + memory_text(memory)
            },
            Error::TensorMemoryNotHost { memory } => {
                "tensor memory is not host-accessible: "@
                    + memory_text(memory)
            },
            Error::SliceMemoryNotHost { memory } => {
                "Rust slice-backed tensors require host-accessible memory, got "@
                    + memory_text(memory)
            },
            Error::LaneStreamCount { expected, got } => {
                "DynamicIoRuntime: expected "@
                    + crate::text::decimal(expected as nat)
                    + " per-lane CUDA streams, got "@
                    + crate::text::decimal(got as nat)
            },
            Error::SessionStreamCount { sessions, streams } => {
                "StaticIoRuntime requires one CUDA stream per session, got "@
                    + crate::text::decimal(sessions as nat)
                    + " sessions and "@
                    + crate::text::decimal(streams as nat)
                    + " streams"@
            },
            Error::PlanTooLarge { buckets, capacity } => {
                "zrt: serving plan has "@
                    + crate::text::decimal(buckets as nat)
                    + " buckets but runtime capacity is "@
                    + crate::text::decimal(capacity as nat)
            },
            Error::PlanArity { inputs, outputs, plan_inputs, plan_outputs } => {
                "zrt: serving plan arity mismatch: runtime expects "@
                    + crate::text::decimal(inputs as nat)
                    + " inputs/"@
                    + crate::text::decimal(outputs as nat)
                    + " outputs, plan bucket has "@
                    + crate::text::decimal(plan_inputs as nat)
                    + "/"@
                    + crate::text::decimal(plan_outputs as nat)
            },
            Error::ShapeRejected { error } => {
                "zrt: serving shape rejected by sealed plan: "@
                    + error.spec_text()
            },
            Error::GraphCreationInFlight { bucket, detached, in_flight } => {
                "zrt: refusing to create a new CUDA-graph shape bucket while bucket "@
                    + crate::text::decimal(bucket as nat)
                    + " still has "@
                    + crate::text::decimal(detached as nat)
                    + " detached lane(s) and "@
                    + crate::text::decimal(in_flight as nat)
                    + " in-flight lane(s) — graph capture must not overlap a live replay; prebuild or warm every bucket before serving traffic"@
            },
            Error::GraphCacheFull { max_buckets } => {
                "zrt: cuda_graph dynamic shape cache is full (max_buckets="@
                    + crate::text::decimal(max_buckets as nat)
                    + "); refusing to evict because ORT's legacy CUDA EP keeps captured graphs for the session lifetime. Increase max_buckets and prewarm the hot shape set, or disable cuda_graph for unbounded shapes."@
            },
            Error::CaptureFailed { lane, cause } => {
                "zrt: eager CUDA-graph capture for lane "@
                    + crate::text::decimal(lane as nat)
                    + " of a new shape bucket failed: "@
                    + cause.spec_message()
            },
            Error::TypeMismatch { access, requested, actual } => {
                "zrt: "@
                    + access.spec_text()
                    + "<"@
                    + requested.spec_rust_text()
                    + "> on a "@
                    + actual.spec_text()
                    + " tensor"@
            },
            Error::NotATensor { access, kind } => {
                "zrt: "@
                    + access.spec_text()
                    + " on a non-tensor ("@
                    + kind.spec_text()
                    + ") value"@
            },
            Error::NotStrings { actual } => {
                "zrt: as_strings on a "@
                    + actual.spec_text()
                    + " tensor (expected String)"@
            },
            Error::DeviceValueNotTensor { kind } => {
                "zrt: DeviceValue requires a tensor, got "@
                    + kind.spec_text()
            },
            Error::BadAlignment { alignment } => {
                "alignment must be a power of two, got "@
                    + crate::text::decimal(alignment as nat)
            },
            Error::MmapRange { start, end, file_len, path } => {
                "mmap tensor range ["@
                    + crate::text::decimal(start as nat)
                    + ".."@
                    + crate::text::decimal(end as nat)
                    + ") exceeds file size "@
                    + crate::text::decimal(file_len as nat)
                    + " for "@
                    + path@
            },
            Error::MmapMisaligned { element_type } => {
                "mmap tensor data pointer is not aligned for "@
                    + element_type.spec_rust_text()
            },
            Error::ShapeLength { expected, got } => {
                "tensor shape expects "@
                    + crate::text::decimal(expected as nat)
                    + " elements, got "@
                    + crate::text::decimal(got as nat)
            },
            Error::NotPacked { element_type } => {
                "zrt: "@
                    + element_type.spec_text()
                    + " is not a packed sub-byte tensor element type"@
            },
            Error::PackedLength { element_type, expected, count, got } => {
                "packed "@
                    + element_type.spec_text()
                    + " tensor shape expects "@
                    + crate::text::decimal(expected as nat)
                    + " bytes for "@
                    + crate::text::decimal(count as nat)
                    + " elements, got "@
                    + crate::text::decimal(got as nat)
            },
            Error::CooLength { got } => {
                "COO indices must have 0, nnz, or nnz*dense_rank entries; got "@
                    + crate::text::decimal(got as nat)
            },
            Error::CsrInnerLength { expected, got } => {
                "CSR inner indices must match nnz ("@
                    + crate::text::decimal(expected as nat)
                    + "), got "@
                    + crate::text::decimal(got as nat)
            },
            Error::CsrOuterLength { expected, got } => {
                "CSR outer indices must have rows + 1 entries ("@
                    + crate::text::decimal(expected as nat)
                    + "), got "@
                    + crate::text::decimal(got as nat)
            },
            Error::ValueIndexOutOfRange { index, count } => {
                "zrt: value index "@
                    + crate::text::decimal(index as nat)
                    + " out of range ("@
                    + crate::text::decimal(count as nat)
                    + " values)"@
            },
            Error::StringOffsets { index } => {
                "zrt: invalid string tensor offsets at index "@
                    + crate::text::decimal(index as nat)
            },
            Error::DynamicDimension { dimension } => {
                "tensor shape contains a dynamic/unknown dimension ("@
                    + crate::text::signed_decimal(dimension as int)
                    + ")"@
            },
        }
    }

    /// The text of this failure.
    #[verifier::spinoff_prover]
    #[verifier::rlimit(60)]
    pub fn message(&self) -> (text: String)
        ensures
            text@ == self.spec_message(),
        decreases self,
    {
        let mut out = String::new();
        match self {
            Error::Engine { message, .. } => {
                out.append(message.as_str());
            },
            Error::Fault(fault) => {
                out.append(fault.text());
            },
            Error::IndexOutOfRange { what, index } => {
                out.append("zrt: ");
                out.append(what.text());
                out.append(" index ");
                push_decimal(&mut out, *index as u64);
                out.append(" out of range");
            },
            Error::SessionIndexOutOfRange { side, index, count } => {
                out.append("zrt: ");
                out.append(side.text());
                out.append(" index ");
                push_decimal(&mut out, *index as u64);
                out.append(" out of range (");
                push_decimal(&mut out, *count as u64);
                out.append(" ");
                out.append(side.text());
                out.append("s)");
            },
            Error::NameNotUtf8 { side, index } => {
                out.append("zrt: ");
                out.append(side.text());
                out.append(" name ");
                push_decimal(&mut out, *index as u64);
                out.append(" is not valid UTF-8");
            },
            Error::CountMismatch { what, expected, got } => {
                out.append("zrt: ");
                out.append(what.text());
                out.append(" mismatch: expected ");
                push_decimal(&mut out, *expected as u64);
                out.append(", got ");
                push_decimal(&mut out, *got as u64);
            },
            Error::CopyCountMismatch { on_stream, source, destination } => {
                out.append("zrt: ");
                out.append(if *on_stream { "on-stream CopyTensors" } else { "CopyTensors" });
                out.append(" source/destination count mismatch: ");
                push_decimal(&mut out, *source as u64);
                out.append(" vs ");
                push_decimal(&mut out, *destination as u64);
            },
            Error::CopyBytesMismatch { source, destination } => {
                out.append("zrt: CopyTensors host fallback byte-size mismatch: source ");
                push_decimal(&mut out, *source as u64);
                out.append(", destination ");
                push_decimal(&mut out, *destination as u64);
            },
            Error::NotZeroCopy { what, index, rust_ptr, ort_ptr } => {
                out.append("zrt: ");
                out.append(what.text());
                out.append(" ");
                push_decimal(&mut out, *index as u64);
                out.append(" is not zero-copy: rust_ptr=0x");
                push_hexadecimal(&mut out, *rust_ptr as u64);
                out.append(", ort_ptr=0x");
                push_hexadecimal(&mut out, *ort_ptr as u64);
            },
            Error::LaneMemoryNotHost { what, index, memory } => {
                out.append("zrt: ");
                out.append(what.text());
                out.append(" ");
                push_decimal(&mut out, *index as u64);
                out.append(" is not host-accessible: ");
                push_memory(&mut out, memory);
            },
            Error::TensorMemoryNotHost { memory } => {
                out.append("tensor memory is not host-accessible: ");
                push_memory(&mut out, memory);
            },
            Error::SliceMemoryNotHost { memory } => {
                out.append("Rust slice-backed tensors require host-accessible memory, got ");
                push_memory(&mut out, memory);
            },
            Error::LaneStreamCount { expected, got } => {
                out.append("DynamicIoRuntime: expected ");
                push_decimal(&mut out, *expected as u64);
                out.append(" per-lane CUDA streams, got ");
                push_decimal(&mut out, *got as u64);
            },
            Error::SessionStreamCount { sessions, streams } => {
                out.append("StaticIoRuntime requires one CUDA stream per session, got ");
                push_decimal(&mut out, *sessions as u64);
                out.append(" sessions and ");
                push_decimal(&mut out, *streams as u64);
                out.append(" streams");
            },
            Error::PlanTooLarge { buckets, capacity } => {
                out.append("zrt: serving plan has ");
                push_decimal(&mut out, *buckets as u64);
                out.append(" buckets but runtime capacity is ");
                push_decimal(&mut out, *capacity as u64);
            },
            Error::PlanArity { inputs, outputs, plan_inputs, plan_outputs } => {
                out.append("zrt: serving plan arity mismatch: runtime expects ");
                push_decimal(&mut out, *inputs as u64);
                out.append(" inputs/");
                push_decimal(&mut out, *outputs as u64);
                out.append(" outputs, plan bucket has ");
                push_decimal(&mut out, *plan_inputs as u64);
                out.append("/");
                push_decimal(&mut out, *plan_outputs as u64);
            },
            Error::ShapeRejected { error } => {
                out.append("zrt: serving shape rejected by sealed plan: ");
                out.append(error.text());
            },
            Error::GraphCreationInFlight { bucket, detached, in_flight } => {
                out.append("zrt: refusing to create a new CUDA-graph shape bucket while bucket ");
                push_decimal(&mut out, *bucket as u64);
                out.append(" still has ");
                push_decimal(&mut out, *detached as u64);
                out.append(" detached lane(s) and ");
                push_decimal(&mut out, *in_flight as u64);
                out.append(" in-flight lane(s) — graph capture must not overlap a live replay; prebuild or warm every bucket before serving traffic");
            },
            Error::GraphCacheFull { max_buckets } => {
                out.append("zrt: cuda_graph dynamic shape cache is full (max_buckets=");
                push_decimal(&mut out, *max_buckets as u64);
                out.append("); refusing to evict because ORT's legacy CUDA EP keeps captured graphs for the session lifetime. Increase max_buckets and prewarm the hot shape set, or disable cuda_graph for unbounded shapes.");
            },
            Error::CaptureFailed { lane, cause } => {
                out.append("zrt: eager CUDA-graph capture for lane ");
                push_decimal(&mut out, *lane as u64);
                out.append(" of a new shape bucket failed: ");
                let inner: String = cause.message();
                out.append(inner.as_str());
            },
            Error::TypeMismatch { access, requested, actual } => {
                out.append("zrt: ");
                out.append(access.text());
                out.append("<");
                out.append(requested.rust_text());
                out.append("> on a ");
                out.append(actual.text());
                out.append(" tensor");
            },
            Error::NotATensor { access, kind } => {
                out.append("zrt: ");
                out.append(access.text());
                out.append(" on a non-tensor (");
                out.append(kind.text());
                out.append(") value");
            },
            Error::NotStrings { actual } => {
                out.append("zrt: as_strings on a ");
                out.append(actual.text());
                out.append(" tensor (expected String)");
            },
            Error::DeviceValueNotTensor { kind } => {
                out.append("zrt: DeviceValue requires a tensor, got ");
                out.append(kind.text());
            },
            Error::BadAlignment { alignment } => {
                out.append("alignment must be a power of two, got ");
                push_decimal(&mut out, *alignment as u64);
            },
            Error::MmapRange { start, end, file_len, path } => {
                out.append("mmap tensor range [");
                push_decimal(&mut out, *start as u64);
                out.append("..");
                push_decimal(&mut out, *end as u64);
                out.append(") exceeds file size ");
                push_decimal(&mut out, *file_len as u64);
                out.append(" for ");
                out.append(path.as_str());
            },
            Error::MmapMisaligned { element_type } => {
                out.append("mmap tensor data pointer is not aligned for ");
                out.append(element_type.rust_text());
            },
            Error::ShapeLength { expected, got } => {
                out.append("tensor shape expects ");
                push_decimal(&mut out, *expected as u64);
                out.append(" elements, got ");
                push_decimal(&mut out, *got as u64);
            },
            Error::NotPacked { element_type } => {
                out.append("zrt: ");
                out.append(element_type.text());
                out.append(" is not a packed sub-byte tensor element type");
            },
            Error::PackedLength { element_type, expected, count, got } => {
                out.append("packed ");
                out.append(element_type.text());
                out.append(" tensor shape expects ");
                push_decimal(&mut out, *expected as u64);
                out.append(" bytes for ");
                push_decimal(&mut out, *count as u64);
                out.append(" elements, got ");
                push_decimal(&mut out, *got as u64);
            },
            Error::CooLength { got } => {
                out.append("COO indices must have 0, nnz, or nnz*dense_rank entries; got ");
                push_decimal(&mut out, *got as u64);
            },
            Error::CsrInnerLength { expected, got } => {
                out.append("CSR inner indices must match nnz (");
                push_decimal(&mut out, *expected as u64);
                out.append("), got ");
                push_decimal(&mut out, *got as u64);
            },
            Error::CsrOuterLength { expected, got } => {
                out.append("CSR outer indices must have rows + 1 entries (");
                push_decimal(&mut out, *expected as u64);
                out.append("), got ");
                push_decimal(&mut out, *got as u64);
            },
            Error::ValueIndexOutOfRange { index, count } => {
                out.append("zrt: value index ");
                push_decimal(&mut out, *index as u64);
                out.append(" out of range (");
                push_decimal(&mut out, *count as u64);
                out.append(" values)");
            },
            Error::StringOffsets { index } => {
                out.append("zrt: invalid string tensor offsets at index ");
                push_decimal(&mut out, *index as u64);
            },
            Error::DynamicDimension { dimension } => {
                out.append("tensor shape contains a dynamic/unknown dimension (");
                push_signed_decimal(&mut out, *dimension);
                out.append(")");
            },
        }
        assert(out@ =~= self.spec_message());
        out
    }

    /// The text of this failure with the fractions of a rejected request, which come written out.
    pub open spec fn spec_numbered_message(self, waste: Seq<char>, limit: Seq<char>) -> Seq<char> {
        match self {
            Error::ShapeRejected { error } => "zrt: serving shape rejected by sealed plan: "@
                + error.spec_numbered_text(waste, limit),
            other => other.spec_message(),
        }
    }

    /// The text of this failure with the fractions of a rejected request, which come written out.
    pub fn numbered_message(&self, waste: &str, limit: &str) -> (text: String)
        ensures
            text@ == self.spec_numbered_message(waste@, limit@),
    {
        match self {
            Error::ShapeRejected { error } => {
                let mut out = String::new();
                out.append("zrt: serving shape rejected by sealed plan: ");
                out.append(error.numbered_text(waste, limit).as_str());
                assert(out@ =~= self.spec_numbered_message(waste@, limit@));
                out
            },
            other => other.message(),
        }
    }

    /// A failure with its own code and text, as the engine reports one.
    pub fn new(code: i32, message: String) -> (error: Error)
        ensures
            error == (Error::Engine { code, message }),
    {
        Error::Engine { code, message }
    }
}

/// The failure with the fixed text of `fault`.
pub fn fail<T>(fault: Fault) -> (result: Result<T, Error>)
    ensures
        result == Err::<T, Error>(Error::Fault(fault)),
{
    Err(Error::Fault(fault))
}

} // verus!
