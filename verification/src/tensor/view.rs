//! Dense tensors as session inputs, and what may be read from them.
use vstd::prelude::*;

use crate::element::ElementType;
use crate::error::{fail, Access, Error, Fault};
use crate::memory::MemoryInfo;
use crate::shape::{checked_element_count, copy_dims};
use crate::tensor::allocated::AllocatedTensor;
use crate::tensor::buffer::{
    ensure_memory_host_accessible, ensure_value_host_accessible, validate_packed_bytes_len,
    validate_shape_len,
};
use crate::tensor::data::{DenseElement, Elements, TensorData};
use crate::type_info::TensorTypeAndShapeInfo;

verus! {

/// A dense tensor that can be read.
#[derive(Debug)]
pub struct TensorView<'a> {
    dims: Vec<i64>,
    memory: MemoryInfo,
    data: TensorData<'a>,
}

impl<'a> TensorView<'a> {
    /// The dimensions.
    pub closed spec fn spec_dims(self) -> Seq<i64> {
        self.dims@
    }

    /// Where the data lies.
    pub closed spec fn spec_memory(self) -> MemoryInfo {
        self.memory
    }

    /// The data.
    pub closed spec fn contents(self) -> TensorData<'a> {
        self.data
    }

    /// The shape is concrete and counts the elements.
    pub open spec fn wf(self) -> bool {
        &&& self.contents().wf()
        &&& crate::shape::count_fault(self.spec_dims()) is None
        &&& crate::shape::product(self.spec_dims()) == self.contents().spec_len()
    }

    /// The element type and the shape.
    pub fn tensor_type_and_shape(&self) -> (info: TensorTypeAndShapeInfo)
        ensures
            info.spec_elem() == self.contents().spec_elem(),
            info.spec_dims() == self.spec_dims(),
            info.names() == Seq::<Option<Vec<u8>>>::empty(),
    {
        TensorTypeAndShapeInfo::from_report(
            self.data.elem(),
            copy_dims(self.dims.as_slice()),
            Vec::new(),
        )
    }

    /// The element type.
    pub fn element_type(&self) -> (element_type: ElementType)
        ensures
            element_type == self.contents().spec_elem(),
    {
        self.data.elem()
    }

    /// The number of elements.
    pub fn element_count(&self) -> (count: Result<usize, Error>)
        requires
            self.wf(),
        ensures
            count == Ok::<usize, Error>(self.contents().spec_len() as usize),
    {
        checked_element_count(self.dims.as_slice())
    }

    /// The number of bytes.
    pub fn byte_len(&self) -> (bytes: Result<usize, Error>)
        ensures
            if self.contents().bytes().len() <= usize::MAX {
                bytes == Ok::<usize, Error>(self.contents().bytes().len() as usize)
            } else {
                bytes == Err::<usize, Error>(Error::Fault(Fault::BufferBytesOverflow))
            },
    {
        match self.data.byte_len() {
            Some(bytes) => Ok(bytes),
            None => fail(Fault::BufferBytesOverflow),
        }
    }

    /// The dimensions.
    pub fn dims(&self) -> (dims: Vec<i64>)
        ensures
            dims@ == self.spec_dims(),
    {
        copy_dims(self.dims.as_slice())
    }

    /// Why the elements cannot be read as elements of type `T`.
    pub open spec fn read_fault<T: DenseElement>(self) -> Option<Error> {
        if self.contents().spec_elem() != T::spec_elem() {
            Some(
                Error::TypeMismatch {
                    access: Access::Slice,
                    requested: T::spec_elem(),
                    actual: self.contents().spec_elem(),
                },
            )
        } else if !self.spec_memory().host_accessible {
            Some(Error::TensorMemoryNotHost { memory: self.spec_memory() })
        } else {
            None
        }
    }

    /// The elements, where they are of type `T` and in host memory.
    pub fn as_slice<T: DenseElement>(&self) -> (slice: Result<&[T], Error>)
        requires
            self.wf(),
        ensures
            match self.read_fault::<T>() {
                Some(error) => slice == Err::<&[T], Error>(error),
                None => slice matches Ok(elements) && T::spec_unwrap(self.contents()) == Some(
                    elements@,
                ),
            },
    {
        match T::unwrap(&self.data) {
            None => Err(
                Error::TypeMismatch {
                    access: Access::Slice,
                    requested: T::elem(),
                    actual: self.data.elem(),
                },
            ),
            Some(elements) => match ensure_value_host_accessible(&self.memory) {
                Err(error) => Err(error),
                Ok(()) => Ok(elements),
            },
        }
    }

    /// The bytes, where they are in host memory.
    pub fn as_bytes(&self) -> (bytes: Result<Vec<u8>, Error>)
        ensures
            if self.contents().bytes().len() > usize::MAX {
                bytes == Err::<Vec<u8>, Error>(Error::Fault(Fault::BufferBytesOverflow))
            } else if !self.spec_memory().host_accessible {
                bytes == Err::<Vec<u8>, Error>(
                    Error::TensorMemoryNotHost { memory: self.spec_memory() },
                )
            } else {
                bytes matches Ok(all) && all@ == self.contents().bytes()
            },
    {
        match self.byte_len() {
            Err(error) => Err(error),
            Ok(_) => match ensure_value_host_accessible(&self.memory) {
                Err(error) => Err(error),
                Ok(()) => Ok(self.data.to_bytes()),
            },
        }
    }
}

/// A dense tensor to be passed to a session.
#[derive(Debug)]
pub struct Tensor<'a> {
    view: TensorView<'a>,
}

impl<'a> Tensor<'a> {
    /// What can be read.
    pub closed spec fn spec_view(self) -> TensorView<'a> {
        self.view
    }

    /// Wrap a slice of host memory without copying it. `created` is the engine's answer.
    pub fn from_buffer<T: DenseElement>(
        buf: &'a [T],
        shape: &[i64],
        memory: &MemoryInfo,
        created: Result<(), Error>,
    ) -> (result: Result<Tensor<'a>, Error>)
        ensures
            match crate::tensor::buffer::wrap_fault(shape@, buf@.len() as int, *memory) {
                Some(error) => result == Err::<Tensor<'a>, Error>(error),
                None => if let Err(error) = created {
                    result == Err::<Tensor<'a>, Error>(error)
                } else {
                    &&& result matches Ok(tensor)
                    &&& tensor.spec_view().wf()
                    &&& tensor.spec_view().spec_dims() == shape@
                    &&& tensor.spec_view().spec_memory() == *memory
                    &&& tensor.spec_view().contents().spec_elem() == T::spec_elem()
                    &&& T::spec_unwrap(tensor.spec_view().contents()) == Some(buf@)
                    &&& tensor.spec_view().contents().bytes() == crate::element::element_bytes(buf@)
                },
            },
    {
        if let Err(error) = validate_shape_len(shape, buf.len()) {
            return Err(error);
        }
        if let Err(error) = ensure_memory_host_accessible(memory) {
            return Err(error);
        }
        if let Err(error) = created {
            return Err(error);
        }
        Ok(
            Tensor {
                view: TensorView {
                    dims: copy_dims(shape),
                    memory: memory.try_clone_descriptor(),
                    data: T::wrap(Elements::Borrowed(buf)),
                },
            },
        )
    }

    /// Wrap the bytes of elements that are packed to less than a byte each. `created` is the engine's
    /// answer.
    pub fn from_packed_bytes(
        buf: &'a [u8],
        shape: &[i64],
        element_type: ElementType,
        memory: &MemoryInfo,
        created: Result<(), Error>,
    ) -> (result: Result<Tensor<'a>, Error>)
        ensures
            match crate::tensor::buffer::packed_len_fault(
                shape@,
                element_type,
                buf@.len() as int,
            ) {
                Some(error) => result == Err::<Tensor<'a>, Error>(error),
                None => if !memory.host_accessible {
                    result == Err::<Tensor<'a>, Error>(
                        Error::SliceMemoryNotHost { memory: *memory },
                    )
                } else if let Err(error) = created {
                    result == Err::<Tensor<'a>, Error>(error)
                } else {
                    &&& result matches Ok(tensor)
                    &&& tensor.spec_view().wf()
                    &&& tensor.spec_view().spec_dims() == shape@
                    &&& tensor.spec_view().spec_memory() == *memory
                    &&& tensor.spec_view().contents() == (TensorData::Packed {
                        element_type,
                        count: crate::shape::product(shape@) as usize,
                        bytes: Elements::Borrowed(buf),
                    })
                },
            },
    {
        if let Err(error) = validate_packed_bytes_len(shape, element_type, buf.len()) {
            return Err(error);
        }
        if let Err(error) = ensure_memory_host_accessible(memory) {
            return Err(error);
        }
        if let Err(error) = created {
            return Err(error);
        }
        match checked_element_count(shape) {
            Err(error) => Err(error),
            Ok(count) => Ok(
                Tensor {
                    view: TensorView {
                        dims: copy_dims(shape),
                        memory: memory.try_clone_descriptor(),
                        data: TensorData::Packed {
                            element_type,
                            count,
                            bytes: Elements::Borrowed(buf),
                        },
                    },
                },
            ),
        }
    }

    /// Copy a slice into a tensor of ordinary host memory. `created` is the engine's answer.
    pub fn copy_from_slice<T: DenseElement + 'a>(
        buf: &[T],
        shape: &[i64],
        created: Result<(), Error>,
    ) -> (result: Result<Tensor<'a>, Error>)
        ensures
            match crate::tensor::buffer::shape_len_fault(shape@, buf@.len() as int) {
                Some(error) => result == Err::<Tensor<'a>, Error>(error),
                None => if let Err(error) = created {
                    result == Err::<Tensor<'a>, Error>(error)
                } else {
                    &&& result matches Ok(tensor)
                    &&& tensor.spec_view().wf()
                    &&& tensor.spec_view().spec_dims() == shape@
                    &&& tensor.spec_view().spec_memory().is_cpu()
                    &&& tensor.spec_view().contents().spec_elem() == T::spec_elem()
                    &&& T::spec_unwrap(tensor.spec_view().contents()) == Some(buf@)
                    &&& tensor.spec_view().contents().bytes() == crate::element::element_bytes(buf@)
                },
            },
    {
        if let Err(error) = validate_shape_len(shape, buf.len()) {
            return Err(error);
        }
        if let Err(error) = created {
            return Err(error);
        }
        let mut owned: Vec<T> = Vec::new();
        let mut i: usize = 0;
        while i < buf.len()
            invariant
                i <= buf@.len(),
                owned@ == buf@.take(i as int),
            decreases buf@.len() - i,
        {
            owned.push(buf[i]);
            i = i + 1;
            assert(owned@ =~= buf@.take(i as int));
        }
        assert(owned@ =~= buf@);
        Ok(
            Tensor {
                view: TensorView {
                    dims: copy_dims(shape),
                    memory: MemoryInfo::cpu(),
                    data: T::wrap(Elements::Owned(owned)),
                },
            },
        )
    }

    /// What can be read.
    pub fn as_view(&self) -> (view: &TensorView<'a>)
        ensures
            *view == self.spec_view(),
    {
        &self.view
    }
}

impl<T: DenseElement> AllocatedTensor<T> {
    /// What can be read, where the host can read the elements.
    pub fn as_view(&self) -> (view: Option<TensorView<'_>>)
        ensures
            if self.spec_memory().host_accessible {
                &&& view matches Some(view)
                &&& self.wf() ==> view.wf()
                &&& view.spec_dims() == self.dims()
                &&& view.spec_memory() == self.spec_memory()
                &&& view.contents().spec_elem() == T::spec_elem()
                &&& T::spec_unwrap(view.contents()) == Some(self.contents())
            } else {
                view is None
            },
    {
        match self.as_slice() {
            Err(_) => None,
            Ok(elements) => Some(
                TensorView {
                    dims: copy_dims(self.shape()),
                    memory: self.memory_info().try_clone_descriptor(),
                    data: T::wrap(Elements::Borrowed(elements)),
                },
            ),
        }
    }
}

/// What was wrapped is what is read: reading a tensor as its own element type gives the elements
/// that it was made of, whether they were borrowed or copied.
pub proof fn reads_give_back_what_was_wrapped<T: DenseElement>(view: TensorView, elements: Seq<T>)
    requires
        view.wf(),
        view.spec_memory().host_accessible,
        view.contents().spec_elem() == T::spec_elem(),
        T::spec_unwrap(view.contents()) == Some(elements),
    ensures
        view.read_fault::<T>() is None,
{
}

} // verus!
