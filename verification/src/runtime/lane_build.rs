//! Building the buffers of a lane and the engine calls that bind them.
use vstd::prelude::*;

use crate::element::TensorElement;
use crate::error::{fail, Error, Fault, Side};
use crate::memory::MemoryInfo;
use crate::runtime::lane_state::RunOptions;
use crate::session::session::Session;
use crate::tensor::allocated::AllocatedTensor;
use crate::tensor::buffer::{BufferReplies, BufferSpec, TensorBuffer};
use crate::text::contains_nul;

verus! {

/// One engine call while a lane is built.
#[derive(Debug, Clone, Copy, PartialEq, Eq, Structural)]
pub enum BuildCall {
    /// Lock the pages of a host buffer of the lane, where it asks for that, and wrap it as an engine
    /// value.
    CreateHostValue(Side, usize),
    /// Make the binding.
    CreateBinding,
    /// Make the session's allocator for a tensor of the lane, and allocate the tensor.
    AllocateDevice(Side, usize),
    /// Bind a host buffer under its name.
    BindHost(Side, usize),
    /// Bind an allocated tensor under its name.
    BindDevice(Side, usize),
    /// Bind a value of the caller under its name.
    BindValue(Side, usize),
    /// Bind a name to the lane's output memory, in which the engine allocates.
    BindMemory(Side, usize),
    /// Make the frozen run options.
    FreezeRunOptions(RunOptions),
    /// Make the event that is recorded behind a queued run.
    CreateCompletionEvent(i32),
    /// Make the event that is recorded behind a downstream consumer.
    CreateDownstreamEvent(i32),
}

/// A build call that is made once per input or output.
#[derive(Debug, Clone, Copy, PartialEq, Eq, Structural)]
pub enum BuildKind {
    CreateHostValue,
    AllocateDevice,
    BindHost,
    BindDevice,
    BindValue,
    BindMemory,
}

impl BuildKind {
    /// The call of this kind for one index.
    pub open spec fn call(self, side: Side, i: usize) -> BuildCall {
        match self {
            BuildKind::CreateHostValue => BuildCall::CreateHostValue(side, i),
            BuildKind::AllocateDevice => BuildCall::AllocateDevice(side, i),
            BuildKind::BindHost => BuildCall::BindHost(side, i),
            BuildKind::BindDevice => BuildCall::BindDevice(side, i),
            BuildKind::BindValue => BuildCall::BindValue(side, i),
            BuildKind::BindMemory => BuildCall::BindMemory(side, i),
        }
    }

    /// The calls of this kind for the first `n` indices.
    pub open spec fn calls(self, side: Side, n: nat) -> Seq<BuildCall> {
        Seq::new(n, |i: int| self.call(side, i as usize))
    }

    /// Append the calls of this kind for the first `n` indices.
    pub fn push_calls(self, calls: &mut Vec<BuildCall>, side: Side, n: usize)
        ensures
            final(calls)@ == old(calls)@ + self.calls(side, n as nat),
    {
        let mut i: usize = 0;
        while i < n
            invariant
                0 <= i <= n,
                calls@ == old(calls)@ + self.calls(side, i as nat),
            decreases n - i,
        {
            let call: BuildCall = match self {
                BuildKind::CreateHostValue => BuildCall::CreateHostValue(side, i),
                BuildKind::AllocateDevice => BuildCall::AllocateDevice(side, i),
                BuildKind::BindHost => BuildCall::BindHost(side, i),
                BuildKind::BindDevice => BuildCall::BindDevice(side, i),
                BuildKind::BindValue => BuildCall::BindValue(side, i),
                BuildKind::BindMemory => BuildCall::BindMemory(side, i),
            };
            calls.push(call);
            i = i + 1;
            assert(calls@ =~= old(calls)@ + self.calls(side, i as nat));
        }
        assert(calls@ =~= old(calls)@ + self.calls(side, n as nat));
    }
}

/// The engine calls that bind one side of a lane: host buffers, or device tensors that are all
/// allocated first.
pub open spec fn side_calls(side: Side, n: nat, device: bool) -> Seq<BuildCall> {
    if device {
        BuildKind::AllocateDevice.calls(side, n) + BuildKind::BindDevice.calls(side, n)
    } else {
        BuildKind::BindHost.calls(side, n)
    }
}

/// Append the engine calls that bind one side of a lane.
pub fn push_side_calls(calls: &mut Vec<BuildCall>, side: Side, n: usize, device: bool)
    ensures
        final(calls)@ == old(calls)@ + side_calls(side, n as nat, device),
{
    if device {
        BuildKind::AllocateDevice.push_calls(calls, side, n);
        BuildKind::BindDevice.push_calls(calls, side, n);
        assert(calls@ =~= old(calls)@ + side_calls(side, n as nat, device));
    } else {
        BuildKind::BindHost.push_calls(calls, side, n);
    }
}

/// The engine calls that build a lane with host buffers only.
pub open spec fn host_lane_calls(inputs: nat, outputs: nat) -> Seq<BuildCall> {
    BuildKind::CreateHostValue.calls(Side::Input, inputs) + BuildKind::CreateHostValue.calls(
        Side::Output,
        outputs,
    ) + seq![BuildCall::CreateBinding] + side_calls(Side::Input, inputs, false) + side_calls(
        Side::Output,
        outputs,
        false,
    )
}

/// The engine calls that build a serving lane.
pub open spec fn serving_lane_calls(
    inputs: nat,
    outputs: nat,
    device: Option<i32>,
    device_output: Option<i32>,
) -> Seq<BuildCall> {
    BuildKind::CreateHostValue.calls(Side::Input, inputs) + BuildKind::CreateHostValue.calls(
        Side::Output,
        outputs,
    ) + seq![BuildCall::CreateBinding] + side_calls(Side::Input, inputs, device is Some)
        + side_calls(Side::Output, outputs, device_output is Some) + seq![
        BuildCall::FreezeRunOptions(RunOptions::enqueued(None, None)),
    ] + (match device {
        Some(id) => seq![BuildCall::CreateCompletionEvent(id)],
        None => Seq::empty(),
    }) + (match device_output {
        Some(id) => seq![BuildCall::CreateDownstreamEvent(id)],
        None => Seq::empty(),
    })
}

/// The engine calls that build a lane with host buffers only, in order.
pub fn plan_host_lane(inputs: usize, outputs: usize) -> (calls: Vec<BuildCall>)
    ensures
        calls@ == host_lane_calls(inputs as nat, outputs as nat),
{
    let mut calls: Vec<BuildCall> = Vec::new();
    BuildKind::CreateHostValue.push_calls(&mut calls, Side::Input, inputs);
    BuildKind::CreateHostValue.push_calls(&mut calls, Side::Output, outputs);
    calls.push(BuildCall::CreateBinding);
    push_side_calls(&mut calls, Side::Input, inputs, false);
    push_side_calls(&mut calls, Side::Output, outputs, false);
    assert(calls@ =~= host_lane_calls(inputs as nat, outputs as nat));
    calls
}

/// The engine calls that build a serving lane, in order.
pub fn plan_serving_lane(
    inputs: usize,
    outputs: usize,
    device: Option<i32>,
    device_output: Option<i32>,
) -> (calls: Vec<BuildCall>)
    ensures
        calls@ == serving_lane_calls(inputs as nat, outputs as nat, device, device_output),
{
    let mut calls: Vec<BuildCall> = Vec::new();
    BuildKind::CreateHostValue.push_calls(&mut calls, Side::Input, inputs);
    BuildKind::CreateHostValue.push_calls(&mut calls, Side::Output, outputs);
    calls.push(BuildCall::CreateBinding);
    push_side_calls(&mut calls, Side::Input, inputs, device.is_some());
    push_side_calls(&mut calls, Side::Output, outputs, device_output.is_some());
    calls.push(
        BuildCall::FreezeRunOptions(
            RunOptions { graph_id: None, disable_ep_sync: true, sync_stream: None },
        ),
    );
    if let Some(id) = device {
        calls.push(BuildCall::CreateCompletionEvent(id));
    }
    if let Some(id) = device_output {
        calls.push(BuildCall::CreateDownstreamEvent(id));
    }
    assert(calls@ =~= serving_lane_calls(inputs as nat, outputs as nat, device, device_output));
    calls
}

/// The first shape for which no zeroed buffer can be built, as the failure it means.
pub open spec fn buffers_fault<T: TensorElement>(
    shapes: Seq<Seq<i64>>,
    memory: MemoryInfo,
    spec: BufferSpec,
) -> Option<Error>
    decreases shapes.len(),
{
    if shapes.len() == 0 {
        None
    } else {
        match buffers_fault::<T>(shapes.drop_last(), memory, spec) {
            Some(error) => Some(error),
            None => TensorBuffer::<T>::zeros_fault(shapes.last(), memory, spec),
        }
    }
}

proof fn lemma_buffers_fault_first<T: TensorElement>(
    shapes: Seq<Seq<i64>>,
    memory: MemoryInfo,
    spec: BufferSpec,
    n: int,
)
    requires
        0 <= n <= shapes.len(),
        buffers_fault::<T>(shapes.take(n), memory, spec) is Some,
    ensures
        buffers_fault::<T>(shapes, memory, spec) == buffers_fault::<T>(
            shapes.take(n),
            memory,
            spec,
        ),
    decreases shapes.len() - n,
{
    if n < shapes.len() {
        assert(shapes.take(n + 1).drop_last() =~= shapes.take(n));
        lemma_buffers_fault_first::<T>(shapes, memory, spec, n + 1);
    } else {
        assert(shapes.take(n) =~= shapes);
    }
}

/// The buffers are zeroed and have the given shapes, in order.
pub open spec fn zeroed_buffers<T: TensorElement>(
    buffers: Seq<TensorBuffer<T>>,
    shapes: Seq<Seq<i64>>,
    memory: MemoryInfo,
    spec: BufferSpec,
) -> bool {
    &&& buffers.len() == shapes.len()
    &&& forall|i: int|
        0 <= i < buffers.len() ==> TensorBuffer::<T>::zeroed(
            Ok(#[trigger] buffers[i]),
            shapes[i],
            memory,
            TensorBuffer::<T>::zeros_backing(spec),
        )
}

/// A zeroed lane buffer. Its pages are locked, where it asks for that, and it is wrapped as a value of
/// the engine, by a call of the lane's build.
pub fn lane_tensor_buffer<T: TensorElement>(
    shape: &[i64],
    memory: &MemoryInfo,
    spec: BufferSpec,
) -> (result: Result<TensorBuffer<T>, Error>)
    ensures
        match TensorBuffer::<T>::zeros_fault(shape@, *memory, spec) {
            Some(error) => result == Err::<TensorBuffer<T>, Error>(error),
            None => TensorBuffer::<T>::zeroed(
                result,
                shape@,
                *memory,
                TensorBuffer::<T>::zeros_backing(spec),
            ),
        },
{
    TensorBuffer::zeros_with(shape, memory, spec, BufferReplies::granted())
}

/// Zeroed buffers of the given shapes, in order.
pub fn build_buffers<T: TensorElement>(
    shapes: &[&[i64]],
    memory: &MemoryInfo,
    spec: BufferSpec,
) -> (result: Result<Vec<TensorBuffer<T>>, Error>)
    ensures
        match buffers_fault::<T>(crate::shape::slice_shapes(shapes@), *memory, spec) {
            Some(error) => result == Err::<Vec<TensorBuffer<T>>, Error>(error),
            None => result matches Ok(buffers) && zeroed_buffers(
                buffers@,
                crate::shape::slice_shapes(shapes@),
                *memory,
                spec,
            ),
        },
{
    let ghost all = crate::shape::slice_shapes(shapes@);
    let mut buffers: Vec<TensorBuffer<T>> = Vec::new();
    let mut i: usize = 0;
    while i < shapes.len()
        invariant
            0 <= i <= shapes.len(),
            all == crate::shape::slice_shapes(shapes@),
            buffers_fault::<T>(all.take(i as int), *memory, spec) is None,
            zeroed_buffers(buffers@, all.take(i as int), *memory, spec),
        decreases shapes.len() - i,
    {
        proof {
            assert(all.take(i + 1).drop_last() =~= all.take(i as int));
            assert(all.take(i + 1).last() == shapes@[i as int]@);
        }
        match lane_tensor_buffer::<T>(shapes[i], memory, spec) {
            Err(error) => {
                proof {
                    lemma_buffers_fault_first::<T>(all, *memory, spec, i + 1);
                }
                return Err(error);
            },
            Ok(buffer) => {
                let ghost before = buffers@;
                buffers.push(buffer);
                proof {
                    assert forall|k: int| 0 <= k < buffers@.len() implies TensorBuffer::<
                        T,
                    >::zeroed(
                        Ok(#[trigger] buffers@[k]),
                        all.take(i + 1)[k],
                        *memory,
                        TensorBuffer::<T>::zeros_backing(spec),
                    ) by {
                        if k < i {
                            assert(buffers@[k] == before[k]);
                            assert(all.take(i + 1)[k] == all.take(i as int)[k]);
                        }
                    }
                }
            },
        }
        i = i + 1;
    }
    assert(all.take(i as int) =~= all);
    Ok(buffers)
}

/// The first shape for which no tensor can be allocated, as the failure it means.
pub open spec fn allocated_fault(shapes: Seq<Seq<i64>>, n: int) -> Option<Error>
    decreases n,
{
    if n <= 0 {
        None
    } else {
        match allocated_fault(shapes, n - 1) {
            Some(error) => Some(error),
            None => crate::shape::count_fault(shapes[n - 1]),
        }
    }
}

proof fn lemma_allocated_fault_first(shapes: Seq<Seq<i64>>, n: int, m: int)
    requires
        0 <= n <= m,
        allocated_fault(shapes, n) is Some,
    ensures
        allocated_fault(shapes, m) == allocated_fault(shapes, n),
    decreases m - n,
{
    if n < m {
        lemma_allocated_fault_first(shapes, n, m - 1);
    }
}

/// The tensors lie in the memory and have the given shapes, in order.
pub open spec fn allocated_tensors<T: TensorElement>(
    tensors: Seq<AllocatedTensor<T>>,
    shapes: Seq<Seq<i64>>,
    memory: MemoryInfo,
) -> bool {
    &&& tensors.len() == shapes.len()
    &&& forall|i: int|
        0 <= i < tensors.len() ==> {
            &&& (#[trigger] tensors[i]).wf()
            &&& tensors[i].dims() == shapes[i]
            &&& tensors[i].spec_memory() == memory
        }
}

/// Tensors of the given shapes, in order, from the session's allocator for the memory.
pub fn build_allocated<T: TensorElement>(
    session: &Session,
    memory: &MemoryInfo,
    shapes: &[&[i64]],
) -> (result: Result<Vec<AllocatedTensor<T>>, Error>)
    ensures
        match allocated_fault(crate::shape::slice_shapes(shapes@), shapes@.len() as int) {
            Some(error) => result == Err::<Vec<AllocatedTensor<T>>, Error>(error),
            None => result matches Ok(tensors) && allocated_tensors(
                tensors@,
                crate::shape::slice_shapes(shapes@),
                *memory,
            ),
        },
{
    let ghost all = crate::shape::slice_shapes(shapes@);
    let mut tensors: Vec<AllocatedTensor<T>> = Vec::new();
    let mut i: usize = 0;
    while i < shapes.len()
        invariant
            0 <= i <= shapes.len(),
            all == crate::shape::slice_shapes(shapes@),
            allocated_fault(all, i as int) is None,
            tensors@.len() == i,
            forall|k: int|
                0 <= k < i ==> {
                    &&& (#[trigger] tensors@[k]).wf()
                    &&& tensors@[k].dims() == all[k]
                    &&& tensors@[k].spec_memory() == *memory
                },
        decreases shapes.len() - i,
    {
        match AllocatedTensor::<T>::for_session(
            session,
            memory,
            shapes[i],
            Ok(()),
            Ok(()),
        ) {
            Err(error) => {
                proof {
                    lemma_allocated_fault_first(all, i + 1, shapes@.len() as int);
                }
                return Err(error);
            },
            Ok(tensor) => {
                tensors.push(tensor);
            },
        }
        i = i + 1;
    }
    Ok(tensors)
}

/// The tensors lie in the memory of the CUDA device and have the given shapes, in order.
pub open spec fn device_tensors<T: TensorElement>(
    tensors: Seq<AllocatedTensor<T>>,
    shapes: Seq<Seq<i64>>,
    device_id: i32,
) -> bool {
    &&& tensors.len() == shapes.len()
    &&& forall|i: int|
        0 <= i < tensors.len() ==> {
            &&& (#[trigger] tensors[i]).wf()
            &&& tensors[i].dims() == shapes[i]
            &&& tensors[i].spec_memory().is_cuda(device_id)
        }
}

/// Device tensors of shapes that have an element count.
pub fn build_device_tensors<T: TensorElement>(
    session: &Session,
    device_id: i32,
    shapes: &[&[i64]],
) -> (result: Result<Vec<AllocatedTensor<T>>, Error>)
    requires
        forall|i: int|
            0 <= i < shapes@.len() ==> crate::shape::count_fault(
                (#[trigger] shapes@[i])@,
            ) is None,
    ensures
        result matches Ok(tensors) && device_tensors(tensors@, crate::shape::slice_shapes(shapes@), device_id),
{
    let ghost all = crate::shape::slice_shapes(shapes@);
    let mut tensors: Vec<AllocatedTensor<T>> = Vec::new();
    let mut i: usize = 0;
    while i < shapes.len()
        invariant
            0 <= i <= shapes.len(),
            all == crate::shape::slice_shapes(shapes@),
            forall|k: int|
                0 <= k < shapes@.len() ==> crate::shape::count_fault(
                    (#[trigger] shapes@[k])@,
                ) is None,
            tensors@.len() == i,
            forall|k: int|
                0 <= k < i ==> {
                    &&& (#[trigger] tensors@[k]).wf()
                    &&& tensors@[k].dims() == all[k]
                    &&& tensors@[k].spec_memory().is_cuda(device_id)
                },
        decreases shapes.len() - i,
    {
        assert(crate::shape::count_fault(shapes@[i as int]@) is None);
        match AllocatedTensor::<T>::cuda(
            session,
            device_id,
            shapes[i],
            Ok(()),
            Ok(()),
        ) {
            Err(error) => {
                return Err(error);
            },
            Ok(tensor) => {
                tensors.push(tensor);
            },
        }
        i = i + 1;
    }
    Ok(tensors)
}

/// The first name that is not text, or that holds a NUL where that is refused, as the failure.
pub open spec fn binding_names_fault(names: Seq<Vec<u8>>, side: Side, n: int) -> Option<Error>
    decreases n,
{
    if n <= 0 {
        None
    } else {
        match binding_names_fault(names, side, n - 1) {
            Some(error) => Some(error),
            None => if !vstd::utf8::valid_utf8(names[n - 1]@) {
                Some(Error::NameNotUtf8 { side, index: (n - 1) as usize })
            } else if side == Side::Input && names[n - 1]@.contains(0u8) {
                Some(Error::Fault(Fault::InputNameNul))
            } else {
                None
            },
        }
    }
}

proof fn lemma_binding_names_first(names: Seq<Vec<u8>>, side: Side, n: int, m: int)
    requires
        0 <= n <= m,
        binding_names_fault(names, side, n) is Some,
    ensures
        binding_names_fault(names, side, m) == binding_names_fault(names, side, n),
    decreases m - n,
{
    if n < m {
        lemma_binding_names_first(names, side, n, m - 1);
    }
}

/// The names under which the inputs are bound.
pub fn input_binding_names(session: &Session) -> (result: Result<Vec<String>, Error>)
    ensures
        match binding_names_fault(
            session.inputs(),
            Side::Input,
            session.inputs().len() as int,
        ) {
            Some(error) => result == Err::<Vec<String>, Error>(error),
            None => {
                &&& result matches Ok(names)
                &&& names@.len() == session.inputs().len()
                &&& forall|i: int|
                    0 <= i < names@.len() ==> vstd::utf8::encode_utf8((#[trigger] names@[i])@)
                        == session.inputs()[i]@
            },
        },
{
    let count: usize = session.input_count();
    let mut names: Vec<String> = Vec::new();
    let mut i: usize = 0;
    while i < count
        invariant
            0 <= i <= count,
            count == session.inputs().len(),
            binding_names_fault(session.inputs(), Side::Input, i as int) is None,
            names@.len() == i,
            forall|k: int|
                0 <= k < i ==> vstd::utf8::encode_utf8((#[trigger] names@[k])@)
                    == session.inputs()[k]@,
        decreases count - i,
    {
        match session.input_name(i) {
            Err(error) => {
                proof {
                    lemma_binding_names_first(
                        session.inputs(),
                        Side::Input,
                        i + 1,
                        count as int,
                    );
                }
                return Err(error);
            },
            Ok(name) => {
                if contains_nul(name) {
                    proof {
                        assert(crate::text::has_nul(name@));
                        lemma_binding_names_first(
                            session.inputs(),
                            Side::Input,
                            i + 1,
                            count as int,
                        );
                    }
                    return fail(Fault::InputNameNul);
                }
                names.push(name.to_owned());
            },
        }
        i = i + 1;
    }
    Ok(names)
}

/// Check that every output name is text.
pub fn check_output_names(session: &Session) -> (result: Result<(), Error>)
    ensures
        match binding_names_fault(
            session.outputs(),
            Side::Output,
            session.outputs().len() as int,
        ) {
            Some(error) => result == Err::<(), Error>(error),
            None => result is Ok,
        },
{
    let count: usize = session.output_count();
    let mut i: usize = 0;
    while i < count
        invariant
            0 <= i <= count,
            count == session.outputs().len(),
            binding_names_fault(session.outputs(), Side::Output, i as int) is None,
        decreases count - i,
    {
        match session.output_name(i) {
            Err(error) => {
                proof {
                    lemma_binding_names_first(
                        session.outputs(),
                        Side::Output,
                        i + 1,
                        count as int,
                    );
                }
                return Err(error);
            },
            Ok(_) => {},
        }
        i = i + 1;
    }
    Ok(())
}

} // verus!
