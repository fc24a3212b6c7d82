//! Options of the dynamic runtime and the shapes that select its buckets.
use vstd::prelude::*;

use crate::error::{fail, Error, Fault};
use crate::shape::{copy_dims, shapes_equal};
use crate::tensor::buffer::BufferSpec;

verus! {

/// How a runtime arranges sessions across lanes.
#[derive(Debug, Clone, Copy, PartialEq, Eq, Structural)]
pub enum RuntimeMode {
    /// One shared session, with one exclusive binding and buffer set per lane.
    SharedSession,
    /// One session per lane.
    ReplicatedSessions,
}

/// A CUDA stream that sessions and lanes retain.
#[derive(Debug, Clone, Copy, PartialEq, Eq, Structural)]
pub struct CudaStream {
    /// Identifies the stream.
    pub id: u64,
    /// The device that the stream belongs to.
    pub device_id: i32,
}

/// Shape-bucket cache options of the dynamic runtime.
#[derive(Debug, PartialEq, Eq)]
pub struct DynamicIoOptions {
    /// Maximum concrete shape buckets kept by the runtime.
    pub max_buckets: usize,
    /// Buffer policy for input tensors of a new bucket.
    pub input_policy: BufferSpec,
    /// Buffer policy for output tensors of a new bucket.
    pub output_policy: BufferSpec,
    /// Rebind lane input values before each run.
    pub rebind_inputs_each_run: bool,
    /// Give each bucket a captured-graph annotation of its own.
    pub cuda_graph: bool,
    /// Keep bound outputs in reusable device allocations.
    pub device_outputs: bool,
    /// Device of device-resident lane inputs; none for host inputs.
    pub device_id: Option<i32>,
    /// Reject cache misses instead of creating buckets on demand.
    pub strict_shape_cache: bool,
    /// Whether the engine can use CUDA devices at all.
    pub cuda: bool,
    /// The stream that refreshes device inputs on every lane.
    pub stream: Option<CudaStream>,
    /// The streams that refresh device inputs, one per replicated lane.
    pub lane_streams: Vec<CudaStream>,
}

impl DynamicIoOptions {
    /// The same choices in every field.
    pub open spec fn same(self, other: DynamicIoOptions) -> bool {
        &&& self.max_buckets == other.max_buckets
        &&& self.input_policy == other.input_policy
        &&& self.output_policy == other.output_policy
        &&& self.rebind_inputs_each_run == other.rebind_inputs_each_run
        &&& self.cuda_graph == other.cuda_graph
        &&& self.device_outputs == other.device_outputs
        &&& self.device_id == other.device_id
        &&& self.strict_shape_cache == other.strict_shape_cache
        &&& self.cuda == other.cuda
        &&& self.stream == other.stream
        &&& self.lane_streams@ == other.lane_streams@
    }

    /// The default choices for everything but the bucket count.
    pub open spec fn is_default_for(self, max_buckets: usize) -> bool {
        &&& self.max_buckets == max_buckets
        &&& self.input_policy == BufferSpec::Auto
        &&& self.output_policy == BufferSpec::Auto
        &&& !self.rebind_inputs_each_run
        &&& !self.cuda_graph
        &&& !self.device_outputs
        &&& self.device_id is None
        &&& !self.strict_shape_cache
        &&& !self.cuda
        &&& self.stream is None
        &&& self.lane_streams@ == Seq::<CudaStream>::empty()
    }

    /// Options with a bounded bucket count and default choices otherwise.
    pub fn new(max_buckets: usize) -> (options: DynamicIoOptions)
        ensures
            options.is_default_for(max_buckets),
    {
        DynamicIoOptions {
            max_buckets,
            input_policy: BufferSpec::Auto,
            output_policy: BufferSpec::Auto,
            rebind_inputs_each_run: false,
            cuda_graph: false,
            device_outputs: false,
            device_id: None,
            strict_shape_cache: false,
            cuda: false,
            stream: None,
            lane_streams: Vec::new(),
        }
    }

    /// Set the input buffer policy.
    pub fn with_input_policy(self, policy: BufferSpec) -> (options: DynamicIoOptions)
        ensures
            options == (DynamicIoOptions { input_policy: policy, ..self }),
    {
        let mut options = self;
        options.input_policy = policy;
        options
    }

    /// Set the output buffer policy.
    pub fn with_output_policy(self, policy: BufferSpec) -> (options: DynamicIoOptions)
        ensures
            options == (DynamicIoOptions { output_policy: policy, ..self }),
    {
        let mut options = self;
        options.output_policy = policy;
        options
    }

    /// Rebind the inputs of newly created buckets before each run.
    pub fn with_rebind_inputs_each_run(self, enabled: bool) -> (options: DynamicIoOptions)
        ensures
            options == (DynamicIoOptions { rebind_inputs_each_run: enabled, ..self }),
    {
        let mut options = self;
        options.rebind_inputs_each_run = enabled;
        options
    }

    /// Capture one graph per shape bucket.
    pub fn with_cuda_graph(self, enabled: bool) -> (options: DynamicIoOptions)
        ensures
            options == (DynamicIoOptions { cuda_graph: enabled, ..self }),
    {
        let mut options = self;
        options.cuda_graph = enabled;
        options
    }

    /// Say whether the engine can use CUDA devices.
    pub fn with_cuda(self, available: bool) -> (options: DynamicIoOptions)
        ensures
            options == (DynamicIoOptions { cuda: available, ..self }),
    {
        let mut options = self;
        options.cuda = available;
        options
    }

    /// Bind device-resident inputs, refreshed on one stream for every lane.
    pub fn with_device_inputs(self, device_id: i32, stream: CudaStream) -> (options: Result<
        DynamicIoOptions,
        Error,
    >)
        ensures
            if stream.device_id == device_id {
                &&& options matches Ok(set)
                &&& set.same(
                    DynamicIoOptions {
                        device_id: Some(device_id),
                        stream: set.stream,
                        lane_streams: set.lane_streams,
                        ..self
                    },
                )
                &&& set.stream == Some(stream)
                &&& set.lane_streams@ == Seq::<CudaStream>::empty()
            } else {
                options == Err::<DynamicIoOptions, Error>(Error::Fault(Fault::StreamDeviceMismatch))
            },
    {
        if stream.device_id != device_id {
            return fail(Fault::StreamDeviceMismatch);
        }
        let mut options = self;
        options.device_id = Some(device_id);
        options.stream = Some(stream);
        options.lane_streams = Vec::new();
        Ok(options)
    }

    /// Keep outputs on the device.
    pub fn with_device_outputs(self, enabled: bool) -> (options: DynamicIoOptions)
        ensures
            options == (DynamicIoOptions { device_outputs: enabled, ..self }),
    {
        let mut options = self;
        options.device_outputs = enabled;
        options
    }

    /// Bind device-resident inputs, refreshed on one stream per replicated lane.
    pub fn with_device_input_streams(self, device_id: i32, streams: Vec<CudaStream>) -> (options:
        Result<DynamicIoOptions, Error>)
        ensures
            if forall|i: int| 0 <= i < streams@.len() ==> (#[trigger] streams@[i]).device_id
                == device_id {
                &&& options matches Ok(set)
                &&& set.same(
                    DynamicIoOptions {
                        device_id: Some(device_id),
                        stream: set.stream,
                        lane_streams: set.lane_streams,
                        ..self
                    },
                )
                &&& set.stream is None
                &&& set.lane_streams@ == streams@
            } else {
                options == Err::<DynamicIoOptions, Error>(Error::Fault(Fault::StreamDeviceMismatch))
            },
    {
        let mut i: usize = 0;
        while i < streams.len()
            invariant
                0 <= i <= streams.len(),
                forall|k: int| 0 <= k < i ==> (#[trigger] streams@[k]).device_id == device_id,
            decreases streams.len() - i,
        {
            if streams[i].device_id != device_id {
                return fail(Fault::StreamDeviceMismatch);
            }
            i = i + 1;
        }
        let mut options = self;
        options.device_id = Some(device_id);
        options.stream = None;
        options.lane_streams = streams;
        Ok(options)
    }

    /// Reject cache misses during serving.
    pub fn with_strict_shape_cache(self, enabled: bool) -> (options: DynamicIoOptions)
        ensures
            options == (DynamicIoOptions { strict_shape_cache: enabled, ..self }),
    {
        let mut options = self;
        options.strict_shape_cache = enabled;
        options
    }

    /// Why these options cannot be served, the first reason in a fixed order.
    pub open spec fn fault(self) -> Option<Fault> {
        if self.max_buckets == 0 {
            Some(Fault::NoBuckets)
        } else if self.cuda_graph && self.rebind_inputs_each_run {
            Some(Fault::GraphWithRebind)
        } else if self.cuda_graph && self.device_id is None {
            Some(Fault::GraphWithHostInputs)
        } else if self.device_outputs && self.device_id is None {
            Some(Fault::DeviceOutputsNeedDeviceInputs)
        } else if self.device_outputs && !self.cuda {
            Some(Fault::DeviceOutputsNeedCuda)
        } else if self.device_id is Some && self.rebind_inputs_each_run {
            Some(Fault::DeviceInputsWithRebind)
        } else if self.device_id is Some && !self.cuda {
            Some(Fault::DynamicDeviceInputsNeedCuda)
        } else if self.device_id is Some && self.lane_streams@.len() == 0
            && self.stream is None {
            Some(Fault::DeviceInputsNeedStream)
        } else {
            None
        }
    }

    /// Check that these options can be served.
    pub fn validate(self) -> (result: Result<DynamicIoOptions, Error>)
        ensures
            match self.fault() {
                Some(fault) => result == Err::<DynamicIoOptions, Error>(Error::Fault(fault)),
                None => result == Ok::<DynamicIoOptions, Error>(self),
            },
    {
        if self.max_buckets == 0 {
            return fail(Fault::NoBuckets);
        }
        // A captured graph holds the addresses of the lane's buffers. Rebinding tears those down.
        if self.cuda_graph && self.rebind_inputs_each_run {
            return fail(Fault::GraphWithRebind);
        }
        // A replay never repopulates host bindings, so that host inputs would be stale.
        if self.cuda_graph && self.device_id.is_none() {
            return fail(Fault::GraphWithHostInputs);
        }
        if self.device_outputs && self.device_id.is_none() {
            return fail(Fault::DeviceOutputsNeedDeviceInputs);
        }
        if self.device_outputs && !self.cuda {
            return fail(Fault::DeviceOutputsNeedCuda);
        }
        if self.device_id.is_some() {
            if self.rebind_inputs_each_run {
                return fail(Fault::DeviceInputsWithRebind);
            }
            if !self.cuda {
                return fail(Fault::DynamicDeviceInputsNeedCuda);
            }
            if self.lane_streams.len() == 0 && self.stream.is_none() {
                return fail(Fault::DeviceInputsNeedStream);
            }
        }
        Ok(self)
    }

    /// Why these options cannot be served with a session arrangement.
    pub open spec fn mode_fault(self, mode: RuntimeMode, lane_count: usize) -> Option<Error> {
        if self.cuda_graph && lane_count > 1 && mode != RuntimeMode::ReplicatedSessions {
            Some(Error::Fault(Fault::GraphSharedSessionLanes))
        } else if !self.cuda || self.lane_streams@.len() == 0 {
            None
        } else if mode != RuntimeMode::ReplicatedSessions {
            Some(Error::Fault(Fault::LaneStreamsNeedReplicas))
        } else if self.lane_streams@.len() != lane_count {
            Some(
                Error::LaneStreamCount {
                    expected: lane_count,
                    got: self.lane_streams@.len() as usize,
                },
            )
        } else {
            None
        }
    }

    /// Check that these options can be served with a session arrangement.
    ///
    /// With a shared session every lane of a bucket would replay the one graph that the first
    /// lane captured, over that lane's buffers: a captured graph takes one lane per bucket, or
    /// replicated sessions.
    pub fn validate_runtime_mode(&self, mode: RuntimeMode, lane_count: usize) -> (result: Result<
        (),
        Error,
    >)
        ensures
            match self.mode_fault(mode, lane_count) {
                Some(error) => result == Err::<(), Error>(error),
                None => result is Ok,
            },
    {
        if self.cuda_graph && lane_count > 1 && mode != RuntimeMode::ReplicatedSessions {
            return fail(Fault::GraphSharedSessionLanes);
        }
        if !self.cuda || self.lane_streams.len() == 0 {
            return Ok(());
        }
        if mode != RuntimeMode::ReplicatedSessions {
            return fail(Fault::LaneStreamsNeedReplicas);
        }
        if self.lane_streams.len() != lane_count {
            return Err(
                Error::LaneStreamCount { expected: lane_count, got: self.lane_streams.len() },
            );
        }
        Ok(())
    }
}

impl Clone for DynamicIoOptions {
    fn clone(&self) -> (copy: DynamicIoOptions)
        ensures
            copy.same(*self),
    {
        let mut lane_streams: Vec<CudaStream> = Vec::new();
        let mut i: usize = 0;
        while i < self.lane_streams.len()
            invariant
                0 <= i <= self.lane_streams.len(),
                lane_streams@ == self.lane_streams@.take(i as int),
            decreases self.lane_streams.len() - i,
        {
            lane_streams.push(self.lane_streams[i]);
            i = i + 1;
            assert(lane_streams@ =~= self.lane_streams@.take(i as int));
        }
        assert(lane_streams@ =~= self.lane_streams@);
        DynamicIoOptions {
            max_buckets: self.max_buckets,
            input_policy: self.input_policy,
            output_policy: self.output_policy,
            rebind_inputs_each_run: self.rebind_inputs_each_run,
            cuda_graph: self.cuda_graph,
            device_outputs: self.device_outputs,
            device_id: self.device_id,
            strict_shape_cache: self.strict_shape_cache,
            cuda: self.cuda,
            stream: self.stream,
            lane_streams,
        }
    }
}

impl Default for DynamicIoOptions {
    fn default() -> (options: DynamicIoOptions)
        ensures
            options.is_default_for(16),
    {
        DynamicIoOptions::new(16)
    }
}

/// A captured graph is admitted only with device-resident inputs that are never rebound, on an
/// engine with CUDA and a stream to refresh them on, and, with a shared session, one lane.
pub proof fn admitted_graph_options_are_sound(
    options: DynamicIoOptions,
    mode: RuntimeMode,
    lane_count: usize,
)
    requires
        options.cuda_graph,
        options.fault() is None,
        options.mode_fault(mode, lane_count) is None,
    ensures
        options.device_id is Some,
        !options.rebind_inputs_each_run,
        options.cuda,
        options.stream is Some || options.lane_streams@.len() > 0,
        lane_count <= 1 || mode == RuntimeMode::ReplicatedSessions,
{
}

/// Device-resident outputs are admitted only with device-resident inputs.
pub proof fn admitted_device_outputs_have_device_inputs(options: DynamicIoOptions)
    requires
        options.device_outputs,
        options.fault() is None,
    ensures
        options.device_id is Some,
        options.cuda,
{
}

/// Borrowed concrete shapes for building or warming buckets.
#[derive(Debug, Clone, Copy)]
pub struct ShapeSpec<'a, const INPUTS: usize, const OUTPUTS: usize> {
    pub input_shapes: [&'a [i64]; INPUTS],
    pub output_shapes: [&'a [i64]; OUTPUTS],
}

impl<'a, const INPUTS: usize, const OUTPUTS: usize> ShapeSpec<'a, INPUTS, OUTPUTS> {
    /// The shapes of one bucket.
    pub fn new(input_shapes: [&'a [i64]; INPUTS], output_shapes: [&'a [i64]; OUTPUTS]) -> (spec:
        Self)
        ensures
            spec == (ShapeSpec { input_shapes, output_shapes }),
    {
        ShapeSpec { input_shapes, output_shapes }
    }
}

/// Concrete shapes that select one bucket.
#[derive(Debug, PartialEq, Eq, Hash)]
pub struct ShapeKey<const INPUTS: usize, const OUTPUTS: usize> {
    input_shapes: Vec<Vec<i64>>,
    output_shapes: Vec<Vec<i64>>,
}

fn copy_shapes(shapes: &[&[i64]]) -> (copies: Vec<Vec<i64>>)
    ensures
        crate::shape::vec_shapes(copies@) == crate::shape::slice_shapes(shapes@),
        copies@.len() == shapes@.len(),
{
    let mut copies: Vec<Vec<i64>> = Vec::new();
    let mut i: usize = 0;
    while i < shapes.len()
        invariant
            0 <= i <= shapes.len(),
            copies@.len() == i,
            forall|k: int| 0 <= k < i ==> (#[trigger] copies@[k])@ == shapes@[k]@,
        decreases shapes.len() - i,
    {
        copies.push(copy_dims(shapes[i]));
        i = i + 1;
    }
    assert(crate::shape::vec_shapes(copies@) =~= crate::shape::slice_shapes(shapes@));
    copies
}

impl<const INPUTS: usize, const OUTPUTS: usize> Clone for ShapeKey<INPUTS, OUTPUTS> {
    fn clone(&self) -> (copy: Self)
        ensures
            copy.selects(self.inputs(), self.outputs()),
    {
        ShapeKey {
            input_shapes: crate::shape::copy_shapes(self.input_shapes.as_slice()),
            output_shapes: crate::shape::copy_shapes(self.output_shapes.as_slice()),
        }
    }
}

impl<const INPUTS: usize, const OUTPUTS: usize> ShapeKey<INPUTS, OUTPUTS> {
    /// The dimensions of the inputs.
    pub closed spec fn inputs(self) -> Seq<Seq<i64>> {
        crate::shape::vec_shapes(self.input_shapes@)
    }

    /// The dimensions of the outputs.
    pub closed spec fn outputs(self) -> Seq<Seq<i64>> {
        crate::shape::vec_shapes(self.output_shapes@)
    }

    /// The key has one shape per input and output.
    pub open spec fn wf(self) -> bool {
        self.inputs().len() == INPUTS && self.outputs().len() == OUTPUTS
    }

    /// The key's shapes are the given ones.
    pub open spec fn selects(self, inputs: Seq<Seq<i64>>, outputs: Seq<Seq<i64>>) -> bool {
        self.inputs() == inputs && self.outputs() == outputs
    }

    /// Copy concrete shapes into an owned key.
    pub fn new(input_shapes: [&[i64]; INPUTS], output_shapes: [&[i64]; OUTPUTS]) -> (key: Self)
        ensures
            key.wf(),
            key.selects(crate::shape::slice_shapes(input_shapes@), crate::shape::slice_shapes(output_shapes@)),
    {
        ShapeKey {
            input_shapes: copy_shapes(input_shapes.as_slice()),
            output_shapes: copy_shapes(output_shapes.as_slice()),
        }
    }

    /// One input shape.
    pub fn input_shape(&self, i: usize) -> (shape: Option<&[i64]>)
        ensures
            if i < self.inputs().len() {
                shape matches Some(dims) && dims@ == self.inputs()[i as int]
            } else {
                shape is None
            },
    {
        if i < self.input_shapes.len() {
            Some(self.input_shapes[i].as_slice())
        } else {
            None
        }
    }

    /// One output shape.
    pub fn output_shape(&self, i: usize) -> (shape: Option<&[i64]>)
        ensures
            if i < self.outputs().len() {
                shape matches Some(dims) && dims@ == self.outputs()[i as int]
            } else {
                shape is None
            },
    {
        if i < self.output_shapes.len() {
            Some(self.output_shapes[i].as_slice())
        } else {
            None
        }
    }

    /// All input shapes.
    pub fn input_shapes(&self) -> (shapes: &[Vec<i64>])
        ensures
            crate::shape::vec_shapes(shapes@) == self.inputs(),
    {
        self.input_shapes.as_slice()
    }

    /// All output shapes.
    pub fn output_shapes(&self) -> (shapes: &[Vec<i64>])
        ensures
            crate::shape::vec_shapes(shapes@) == self.outputs(),
    {
        self.output_shapes.as_slice()
    }

    /// Whether the key's shapes are the given ones.
    pub fn matches(&self, input_shapes: [&[i64]; INPUTS], output_shapes: [&[i64]; OUTPUTS]) -> (is:
        bool)
        ensures
            is == self.selects(crate::shape::slice_shapes(input_shapes@), crate::shape::slice_shapes(output_shapes@)),
    {
        shapes_equal(self.input_shapes.as_slice(), input_shapes.as_slice()) && shapes_equal(
            self.output_shapes.as_slice(),
            output_shapes.as_slice(),
        )
    }
}

} // verus!
