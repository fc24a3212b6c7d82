//! What wrapped, allocated and mapped tensors hold.
use vstd::prelude::*;

use crate::element::TensorElement;
use crate::error::{Error, Fault};
use crate::memory::MemoryInfo;
use crate::tensor::allocated::AllocatedTensor;
use crate::tensor::buffer::{BufferSpec, TensorBuffer};
use crate::tensor::mmap::{MappedFile, MmapTensorOptions};
use crate::tensor::sparse::SparseTensor;

verus! {

/// Elements are wrapped exactly where there are as many as the shape counts, the host can reach the memory and
/// the engine agrees. The buffer then holds them, in order, and nothing else. A refusal says how many were
/// expected and how many there were.
pub proof fn wrapped_buffers_hold_what_they_were_given<T: TensorElement>(
    result: Result<TensorBuffer<T>, Error>,
    elements: Seq<T>,
    shape: Seq<i64>,
    memory: MemoryInfo,
    backing: BufferSpec,
    created: Result<(), Error>,
)
    requires
        TensorBuffer::<T>::wrapped(result, elements, shape, memory, backing, created),
        elements.len() <= usize::MAX,
    ensures
        result is Ok <==> {
            &&& crate::shape::count_fault(shape) is None
            &&& crate::shape::product(shape) == elements.len()
            &&& memory.host_accessible
            &&& created is Ok
        },
        result matches Ok(buffer) ==> {
            &&& buffer@.len() == elements.len()
            &&& forall|i: int| 0 <= i < elements.len() ==> #[trigger] buffer@[i] == elements[i]
            &&& buffer.dims() == shape
            &&& buffer.spec_memory() == memory
            &&& buffer.spec_backing() == backing
        },
        crate::shape::count_fault(shape) matches Some(error) ==> result == Err::<TensorBuffer<T>, Error>(
            error,
        ),
        crate::shape::count_fault(shape) is None && crate::shape::product(shape) != elements.len() ==> (
        result matches Err(Error::ShapeLength { expected, got }) && expected == crate::shape::product(
            shape,
        ) as usize && got == elements.len()),
{
}

/// A zeroed buffer can be laid out exactly where its elements can be counted and, where an alignment was asked
/// for, fit behind it, and the host can reach the memory.
pub proof fn zeroed_buffers_need_room_and_reach<T: TensorElement>(
    shape: Seq<i64>,
    memory: MemoryInfo,
    spec: BufferSpec,
)
    ensures
        TensorBuffer::<T>::zeros_fault(shape, memory, spec) is None <==> {
            &&& crate::shape::count_fault(shape) is None
            &&& memory.host_accessible
            &&& spec matches BufferSpec::Host { alignment, .. } ==> crate::tensor::buffer::aligned_fault(
                crate::shape::product(shape),
                alignment as int,
                T::spec_size() as int,
            ) is None
        },
        crate::shape::count_fault(shape) matches Some(error) ==> TensorBuffer::<T>::zeros_fault(
            shape,
            memory,
            spec,
        ) == Some(error),
{
}

/// Rewriting a buffer changes its elements alone.
pub proof fn rewrites_keep_the_shape<T: TensorElement>(
    before: TensorBuffer<T>,
    after: TensorBuffer<T>,
    elements: Seq<T>,
)
    requires
        before.rewritten(after, elements),
    ensures
        after@ == elements,
        after.dims() == before.dims(),
        after.spec_memory() == before.spec_memory(),
        after.spec_backing() == before.spec_backing(),
        before.wf() && elements.len() == before@.len() ==> crate::shape::product(after.dims())
            == after@.len(),
{
}

/// A tensor is allocated exactly where its elements can be counted and the engine agrees. It then has as many
/// as its shape counts, in the memory that was asked for.
pub proof fn allocated_tensors_are_as_asked<T: TensorElement>(
    result: Result<AllocatedTensor<T>, Error>,
    memory: MemoryInfo,
    shape: Seq<i64>,
    created: Result<(), Error>,
)
    requires
        AllocatedTensor::<T>::allocated(result, memory, shape, created),
    ensures
        result is Ok <==> crate::shape::count_fault(shape) is None && created is Ok,
        result matches Ok(tensor) ==> {
            &&& tensor.dims() == shape
            &&& tensor.spec_len() == crate::shape::product(shape)
            &&& tensor.spec_memory() == memory
        },
        crate::shape::count_fault(shape) matches Some(error) ==> result == Err::<AllocatedTensor<T>, Error>(
            error,
        ),
        crate::shape::count_fault(shape) is None ==> (created matches Err(error) ==> result == Err::<
            AllocatedTensor<T>,
            Error,
        >(error)),
{
}

/// The address of an allocated tensor is the one that the engine reports. It is only taken where the bytes of
/// the tensor can be counted, and is null only where there are no elements.
pub proof fn addresses_are_the_reported_ones<T: TensorElement>(
    tensor: AllocatedTensor<T>,
    reported: Result<usize, Error>,
    result: Result<usize, Error>,
)
    requires
        tensor.address_outcome(reported, result),
    ensures
        result is Ok <==> {
            &&& reported is Ok
            &&& tensor.spec_len() * T::spec_size() <= usize::MAX
            &&& reported->Ok_0 != 0 || tensor.spec_len() == 0
        },
        result is Ok ==> result == reported,
        reported matches Err(error) ==> result == Err::<usize, Error>(error),
        reported is Ok && tensor.spec_len() * T::spec_size() <= usize::MAX && result is Err ==> result
            == Err::<usize, Error>(Error::Fault(Fault::TensorDataNull)),
{
}

/// A mapped tensor holds the elements of the mapped range, which lies in the file. A range that does not is
/// refused with where it starts and ends and how long the file is.
pub proof fn mapped_tensors_hold_their_range<T: TensorElement>(
    result: Result<TensorBuffer<T>, Error>,
    shape: Seq<i64>,
    memory: MemoryInfo,
    options: MmapTensorOptions,
    file: MappedFile<T>,
    created: Result<(), Error>,
)
    requires
        TensorBuffer::<T>::mapped_outcome(result, shape, memory, options, file, created),
    ensures
        result matches Ok(buffer) ==> {
            &&& buffer@ == file.elements@
            &&& buffer.dims() == shape
            &&& buffer.spec_memory() == memory
            &&& buffer@.len() == crate::shape::product(shape)
            &&& file.file_len matches Ok(len) && options.byte_offset + crate::shape::product(shape)
                * T::spec_size() <= len
            &&& created is Ok
        },
        crate::shape::count_fault(shape) matches Some(error) ==> result == Err::<TensorBuffer<T>, Error>(
            error,
        ),
        crate::shape::count_fault(shape) is None && crate::shape::product(shape) * T::spec_size()
            <= usize::MAX ==> {
            let end = options.byte_offset + crate::shape::product(shape) * T::spec_size();
            &&& file.file_len matches Err(error) ==> result == Err::<TensorBuffer<T>, Error>(error)
            &&& file.file_len matches Ok(len) ==> (len < end <= u64::MAX ==> (
            result matches Err(Error::MmapRange { start, end: named, file_len, path }) && start
                == options.byte_offset && named == end && file_len == len && path == file.path))
        },
{
}

/// A sparse tensor holds the values and the shapes that it was made of, and is read where its values are.
pub proof fn sparse_tensors_hold_what_they_were_given<'a, T: TensorElement>(
    tensor: SparseTensor<'a, T>,
    values: Seq<T>,
    dense_shape: Seq<i64>,
    values_shape: Seq<i64>,
    readable: bool,
)
    requires
        tensor.made_of(values, dense_shape, values_shape, readable),
    ensures
        tensor.spec_values() == values,
        tensor.spec_dense_shape() == dense_shape,
        tensor.spec_values_shape() == values_shape,
        tensor.readable() <==> readable,
{
}

} // verus!
