//! Tensors whose memory the engine allocates, on the host or on a device.
use vstd::prelude::*;

use crate::element::{ElementType, TensorElement};
use crate::error::{fail, Error, Fault};
use crate::memory::MemoryInfo;
use crate::session::session::Session;
use crate::shape::{checked_element_count, copy_dims};
use crate::tensor::buffer::{ensure_value_host_accessible, validate_shape_len};

verus! {

/// A tensor that the engine allocated through one allocator.
///
/// Host-accessible tensors can be read and written as slices. Of device tensors only the shape,
/// the placement and the address are known here.
#[derive(Debug)]
pub struct AllocatedTensor<T: TensorElement> {
    shape: Vec<i64>,
    count: usize,
    allocator: MemoryInfo,
    data: Vec<T>,
}

impl<T: TensorElement> AllocatedTensor<T> {
    /// The dimensions.
    pub closed spec fn dims(self) -> Seq<i64> {
        self.shape@
    }

    /// The number of elements.
    pub closed spec fn spec_len(self) -> nat {
        self.count as nat
    }

    /// The memory of the allocator.
    pub closed spec fn spec_memory(self) -> MemoryInfo {
        self.allocator
    }

    /// The elements of a host-accessible tensor.
    pub closed spec fn contents(self) -> Seq<T> {
        self.data@
    }

    /// The shape is concrete and counts the elements, which are at hand where the host can read
    /// them.
    pub open spec fn wf(self) -> bool {
        &&& crate::shape::count_fault(self.dims()) is None
        &&& crate::shape::product(self.dims()) == self.spec_len()
        &&& self.spec_memory().host_accessible ==> self.contents().len() == self.spec_len()
    }

    /// `result` is what comes of allocating a tensor: `created` is the engine's answer.
    pub open spec fn allocated(
        result: Result<Self, Error>,
        memory: MemoryInfo,
        shape: Seq<i64>,
        created: Result<(), Error>,
    ) -> bool {
        match crate::shape::count_fault(shape) {
            Some(error) => result == Err::<Self, Error>(error),
            None => match created {
                Err(error) => result == Err::<Self, Error>(error),
                Ok(()) => {
                    &&& result matches Ok(tensor)
                    &&& tensor.wf()
                    &&& tensor.dims() == shape
                    &&& tensor.spec_memory() == memory
                },
            },
        }
    }

    /// Allocate a tensor through an allocator. What it holds at first is not said.
    pub fn new(allocator: &MemoryInfo, shape: &[i64], created: Result<(), Error>) -> (result: Result<
        Self,
        Error,
    >)
        ensures
            Self::allocated(result, *allocator, shape@, created),
    {
        let count: usize = match checked_element_count(shape) {
            Err(error) => {
                return Err(error);
            },
            Ok(count) => count,
        };
        if let Err(error) = created {
            return Err(error);
        }
        let mut data: Vec<T> = Vec::new();
        if allocator.is_host_accessible() {
            let mut i: usize = 0;
            while i < count
                invariant
                    0 <= i <= count,
                    data@.len() == i,
                decreases count - i,
            {
                data.push(T::zero());
                i = i + 1;
            }
        }
        Ok(
            AllocatedTensor {
                shape: copy_dims(shape),
                count,
                allocator: allocator.try_clone_descriptor(),
                data,
            },
        )
    }

    /// Allocate a tensor from the session's allocator for `memory`. `allocator` is the engine's answer
    /// to making the allocator, and `created` that to allocating the tensor.
    pub fn for_session(
        session: &Session,
        memory: &MemoryInfo,
        shape: &[i64],
        allocator: Result<(), Error>,
        created: Result<(), Error>,
    ) -> (result: Result<Self, Error>)
        ensures
            match allocator {
                Err(error) => result == Err::<Self, Error>(error),
                Ok(()) => Self::allocated(result, *memory, shape@, created),
            },
    {
        match allocator {
            Err(error) => Err(error),
            Ok(()) => Self::new(memory, shape, created),
        }
    }

    /// Allocate a tensor on a CUDA device, from the session's allocator for it.
    pub fn cuda(
        session: &Session,
        device_id: i32,
        shape: &[i64],
        allocator: Result<(), Error>,
        created: Result<(), Error>,
    ) -> (result: Result<Self, Error>)
        ensures
            match allocator {
                Err(error) => result == Err::<Self, Error>(error),
                Ok(()) => exists|memory: MemoryInfo| #[trigger]
                    memory.is_cuda(device_id) && Self::allocated(result, memory, shape@, created),
            },
    {
        let memory = MemoryInfo::cuda(device_id);
        let result = Self::for_session(session, &memory, shape, allocator, created);
        assert(memory.is_cuda(device_id));
        result
    }

    /// Allocate a host-accessible tensor and copy the data into it.
    pub fn copy_from_slice(
        allocator: &MemoryInfo,
        shape: &[i64],
        data: &[T],
        created: Result<(), Error>,
    ) -> (result: Result<Self, Error>)
        ensures
            match crate::tensor::buffer::shape_len_fault(shape@, data@.len() as int) {
                Some(error) => result == Err::<Self, Error>(error),
                None => match created {
                    Err(error) => result == Err::<Self, Error>(error),
                    Ok(()) => if allocator.host_accessible {
                        &&& result matches Ok(tensor)
                        &&& tensor.wf()
                        &&& tensor.dims() == shape@
                        &&& tensor.spec_memory() == *allocator
                        &&& tensor.contents() == data@
                    } else {
                        result == Err::<Self, Error>(
                            Error::TensorMemoryNotHost { memory: *allocator },
                        )
                    },
                },
            },
    {
        match validate_shape_len(shape, data.len()) {
            Err(error) => {
                return Err(error);
            },
            Ok(()) => {},
        }
        let mut tensor: Self = match Self::new(allocator, shape, created) {
            Err(error) => {
                return Err(error);
            },
            Ok(tensor) => tensor,
        };
        match ensure_value_host_accessible(&tensor.allocator) {
            Err(error) => {
                return Err(error);
            },
            Ok(()) => {},
        }
        let mut copy: Vec<T> = Vec::new();
        let mut i: usize = 0;
        while i < data.len()
            invariant
                0 <= i <= data.len(),
                copy@ == data@.take(i as int),
            decreases data.len() - i,
        {
            copy.push(data[i]);
            i = i + 1;
            assert(copy@ =~= data@.take(i as int));
        }
        assert(copy@ =~= data@);
        tensor.data = copy;
        Ok(tensor)
    }

    /// The dimensions.
    pub fn shape(&self) -> (shape: &[i64])
        ensures
            shape@ == self.dims(),
    {
        self.shape.as_slice()
    }

    /// The number of elements.
    pub fn len(&self) -> (len: usize)
        ensures
            len == self.spec_len(),
    {
        self.count
    }

    /// Whether there are no elements.
    pub fn is_empty(&self) -> (empty: bool)
        ensures
            empty == (self.spec_len() == 0),
    {
        self.count == 0
    }

    /// The element type.
    pub fn element_type(&self) -> (element_type: ElementType)
        ensures
            element_type == T::spec_elem(),
    {
        T::elem()
    }

    /// The number of bytes, where it fits.
    pub fn byte_len(&self) -> (bytes: Result<usize, Error>)
        ensures
            if self.spec_len() * T::spec_size() <= usize::MAX {
                bytes == Ok::<usize, Error>((self.spec_len() * T::spec_size()) as usize)
            } else {
                bytes == Err::<usize, Error>(Error::Fault(Fault::AllocatedBytesOverflow))
            },
    {
        match self.count.checked_mul(T::size()) {
            Some(bytes) => Ok(bytes),
            None => fail(Fault::AllocatedBytesOverflow),
        }
    }

    /// Where the tensor lies.
    pub fn memory_info(&self) -> (memory: &MemoryInfo)
        ensures
            *memory == self.spec_memory(),
    {
        &self.allocator
    }

    /// The memory of the allocator.
    pub fn allocator(&self) -> (memory: &MemoryInfo)
        ensures
            *memory == self.spec_memory(),
    {
        &self.allocator
    }

    /// `result` is the address of the elements, or why there is none: a null address is refused
    /// unless there are no bytes.
    pub open spec fn address_outcome(
        self,
        reported: Result<usize, Error>,
        result: Result<usize, Error>,
    ) -> bool {
        match reported {
            Err(error) => result == Err::<usize, Error>(error),
            Ok(address) => if self.spec_len() * T::spec_size() > usize::MAX {
                result == Err::<usize, Error>(Error::Fault(Fault::AllocatedBytesOverflow))
            } else if address == 0 && self.spec_len() > 0 {
                result == Err::<usize, Error>(Error::Fault(Fault::TensorDataNull))
            } else {
                result == Ok::<usize, Error>(address)
            },
        }
    }

    /// The address of the elements that the engine reported.
    pub fn raw_mut_ptr(&self, reported: Result<usize, Error>) -> (result: Result<usize, Error>)
        ensures
            self.address_outcome(reported, result),
    {
        let address: usize = match reported {
            Err(error) => return Err(error),
            Ok(address) => address,
        };
        match self.byte_len() {
            Err(error) => Err(error),
            Ok(_) => {
                if address == 0 && self.count > 0 {
                    fail(Fault::TensorDataNull)
                } else {
                    Ok(address)
                }
            },
        }
    }

    /// The address of the elements that the engine reported.
    pub fn raw_typed_ptr(&self, reported: Result<usize, Error>) -> (result: Result<usize, Error>)
        ensures
            self.address_outcome(reported, result),
    {
        self.raw_mut_ptr(reported)
    }

    /// The elements of a host-accessible tensor.
    pub fn as_slice(&self) -> (slice: Result<&[T], Error>)
        ensures
            if self.spec_memory().host_accessible {
                slice matches Ok(elements) && elements@ == self.contents()
            } else {
                slice == Err::<&[T], Error>(
                    Error::TensorMemoryNotHost { memory: self.spec_memory() },
                )
            },
    {
        match ensure_value_host_accessible(&self.allocator) {
            Err(error) => Err(error),
            Ok(()) => Ok(self.data.as_slice()),
        }
    }

    /// The elements of a host-accessible tensor, to be written in place.
    pub fn as_mut_slice(&mut self) -> (slice: Result<&mut [T], Error>)
        ensures
            if old(self).spec_memory().host_accessible {
                &&& slice is Ok
                &&& slice->Ok_0@ == old(self).contents()
                &&& final(self).contents() == final(slice->Ok_0)@
                &&& final(self).dims() == old(self).dims()
                &&& final(self).spec_len() == old(self).spec_len()
                &&& final(self).spec_memory() == old(self).spec_memory()
            } else {
                &&& slice is Err
                &&& slice->Err_0 == (Error::TensorMemoryNotHost { memory: old(self).spec_memory() })
                &&& *final(self) == *old(self)
            },
    {
        match ensure_value_host_accessible(&self.allocator) {
            Err(error) => Err(error),
            Ok(()) => Ok(self.data.as_mut_slice()),
        }
    }
}

} // verus!
