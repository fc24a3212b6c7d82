//! Reusable tensor buffers over host memory.
use vstd::prelude::*;

use crate::element::{packed_byte_len, packed_element_bits, ElementType, TensorElement};
use crate::error::{fail, Error, Fault};
use crate::memory::MemoryInfo;
use crate::shape::{checked_element_count, copy_dims};

verus! {

/// How the memory of a lane buffer is to be obtained.
#[derive(Debug, Clone, Copy, PartialEq, Eq, Structural)]
pub enum BufferSpec {
    /// The default of whoever builds the buffer.
    Auto,
    /// Page-locked host memory for transfers to and from a CUDA device.
    CudaPinned,
    /// Host memory at a byte alignment, with what is done to its pages before it is bound.
    Host { alignment: usize, hugepage: bool, prefault: bool, mlock: bool },
}

impl BufferSpec {
    /// Host memory at an alignment.
    pub fn aligned(alignment: usize) -> (spec: BufferSpec)
        ensures
            spec == (BufferSpec::Host {
                alignment,
                hugepage: false,
                prefault: false,
                mlock: false,
            }),
    {
        BufferSpec::Host { alignment, hugepage: false, prefault: false, mlock: false }
    }

    /// The same memory, each page touched before the buffer is bound.
    pub fn prefault(self) -> (spec: BufferSpec)
        ensures
            spec == match self {
                BufferSpec::Host { alignment, hugepage, mlock, .. } => BufferSpec::Host {
                    alignment,
                    hugepage,
                    prefault: true,
                    mlock,
                },
                other => other,
            },
    {
        match self {
            BufferSpec::Host { alignment, hugepage, mlock, .. } => BufferSpec::Host {
                alignment,
                hugepage,
                prefault: true,
                mlock,
            },
            other => other,
        }
    }

    /// This choice, or `other` where none was made.
    pub open spec fn spec_or_if_auto(self, other: BufferSpec) -> BufferSpec {
        if self == BufferSpec::Auto {
            other
        } else {
            self
        }
    }

    /// This choice, or `other` where none was made.
    pub fn or_if_auto(self, other: BufferSpec) -> (spec: BufferSpec)
        ensures
            spec == self.spec_or_if_auto(other),
    {
        match self {
            BufferSpec::Auto => other,
            _ => self,
        }
    }
}

/// Whether a choice asks for locked pages.
pub open spec fn spec_locked(spec: BufferSpec) -> bool {
    spec matches BufferSpec::Host { mlock, .. } && mlock
}

fn asks_for_lock(spec: BufferSpec) -> (asks: bool)
    ensures
        asks == spec_locked(spec),
{
    match spec {
        BufferSpec::Host { mlock, .. } => mlock,
        _ => false,
    }
}

/// Why a buffer of `len` elements does not have the given shape.
pub open spec fn shape_len_fault(shape: Seq<i64>, len: int) -> Option<Error> {
    match crate::shape::count_fault(shape) {
        Some(error) => Some(error),
        None => if crate::shape::product(shape) != len {
            Some(Error::ShapeLength { expected: crate::shape::product(shape) as usize, got: len as usize })
        } else {
            None
        },
    }
}

/// Check that a buffer of `len` elements has the given shape.
pub fn validate_shape_len(shape: &[i64], len: usize) -> (result: Result<(), Error>)
    ensures
        match shape_len_fault(shape@, len as int) {
            Some(error) => result == Err::<(), Error>(error),
            None => result is Ok,
        },
{
    match checked_element_count(shape) {
        Err(error) => Err(error),
        Ok(expected) => {
            if expected != len {
                Err(Error::ShapeLength { expected, got: len })
            } else {
                Ok(())
            }
        },
    }
}

/// Why `len` bytes are not the packed storage of the given shape.
pub open spec fn packed_len_fault(shape: Seq<i64>, element_type: ElementType, len: int) -> Option<
    Error,
> {
    match crate::element::spec_packed_element_bits(element_type) {
        None => Some(Error::NotPacked { element_type }),
        Some(bits) => match crate::shape::count_fault(shape) {
            Some(error) => Some(error),
            None => {
                let expected = crate::element::packed_bytes(crate::shape::product(shape) as nat, bits);
                if expected != len {
                    Some(
                        Error::PackedLength {
                            element_type,
                            expected: expected as usize,
                            count: crate::shape::product(shape) as usize,
                            got: len as usize,
                        },
                    )
                } else {
                    None
                }
            },
        },
    }
}

/// Check that `len` bytes are the packed storage of the given shape.
pub fn validate_packed_bytes_len(shape: &[i64], element_type: ElementType, len: usize) -> (result:
    Result<(), Error>)
    ensures
        match packed_len_fault(shape@, element_type, len as int) {
            Some(error) => result == Err::<(), Error>(error),
            None => result is Ok,
        },
{
    let bits: usize = match packed_element_bits(element_type) {
        None => {
            return Err(Error::NotPacked { element_type });
        },
        Some(bits) => bits,
    };
    match checked_element_count(shape) {
        Err(error) => Err(error),
        Ok(count) => {
            let expected: usize = packed_byte_len(count, bits);
            if expected != len {
                Err(Error::PackedLength { element_type, expected, count, got: len })
            } else {
                Ok(())
            }
        },
    }
}

/// Check that a tensor's memory can be read by the host.
pub fn ensure_value_host_accessible(memory: &MemoryInfo) -> (result: Result<(), Error>)
    ensures
        if memory.host_accessible {
            result is Ok
        } else {
            result == Err::<(), Error>(Error::TensorMemoryNotHost { memory: *memory })
        },
{
    if memory.is_host_accessible() {
        Ok(())
    } else {
        Err(Error::TensorMemoryNotHost { memory: memory.try_clone_descriptor() })
    }
}

/// Check that memory can back a slice.
pub fn ensure_memory_host_accessible(memory: &MemoryInfo) -> (result: Result<(), Error>)
    ensures
        if memory.host_accessible {
            result is Ok
        } else {
            result == Err::<(), Error>(Error::SliceMemoryNotHost { memory: *memory })
        },
{
    if memory.is_host_accessible() {
        Ok(())
    } else {
        Err(Error::SliceMemoryNotHost { memory: memory.try_clone_descriptor() })
    }
}

/// Why host data of `len` elements cannot be wrapped at the given shape and memory.
pub open spec fn wrap_fault(shape: Seq<i64>, len: int, memory: MemoryInfo) -> Option<Error> {
    match shape_len_fault(shape, len) {
        Some(error) => Some(error),
        None => if memory.host_accessible {
            None
        } else {
            Some(Error::SliceMemoryNotHost { memory })
        },
    }
}

/// Whether a number is a power of two.
pub open spec fn is_power_of_two(n: int) -> bool
    decreases n,
{
    if n <= 0 {
        false
    } else if n == 1 {
        true
    } else {
        n % 2 == 0 && is_power_of_two(n / 2)
    }
}

/// Whether a number is a power of two.
pub fn power_of_two(n: usize) -> (is: bool)
    ensures
        is == is_power_of_two(n as int),
{
    if n == 0 {
        return false;
    }
    let mut rest: usize = n;
    while rest > 1
        invariant
            rest >= 1,
            is_power_of_two(n as int) == is_power_of_two(rest as int),
        decreases rest,
    {
        if rest % 2 != 0 {
            return false;
        }
        rest = rest / 2;
    }
    true
}

/// The alignment that a request for `alignment` gets for elements of `size` bytes.
pub open spec fn effective_alignment(alignment: int, size: int) -> int {
    if alignment < size {
        size
    } else {
        alignment
    }
}

/// Why `len` zeroed elements of `size` bytes cannot be allocated at `alignment`.
pub open spec fn aligned_fault(len: int, alignment: int, size: int) -> Option<Error> {
    let align = effective_alignment(alignment, size);
    if !is_power_of_two(align) {
        Some(Error::BadAlignment { alignment: align as usize })
    } else if len == 0 {
        None
    } else if len * size > usize::MAX {
        Some(Error::Fault(Fault::AlignedBytesOverflow))
    } else if len * size > isize::MAX - (align - 1) {
        Some(Error::Fault(Fault::AlignedLayoutInvalid))
    } else {
        None
    }
}

/// The alignment and byte size of zeroed storage for `len` elements.
pub fn aligned_layout<T: TensorElement>(len: usize, alignment: usize) -> (layout: Result<
    (usize, usize),
    Error,
>)
    ensures
        match aligned_fault(len as int, alignment as int, T::spec_size() as int) {
            Some(error) => layout == Err::<(usize, usize), Error>(error),
            None => layout == Ok::<(usize, usize), Error>(
                (
                    effective_alignment(alignment as int, T::spec_size() as int) as usize,
                    (len * T::spec_size()) as usize,
                ),
            ),
        },
{
    let size: usize = T::size();
    let align: usize = if alignment < size {
        size
    } else {
        alignment
    };
    if !power_of_two(align) {
        return Err(Error::BadAlignment { alignment: align });
    }
    if len == 0 {
        assert(len * T::spec_size() == 0) by (nonlinear_arith)
            requires
                len == 0,
        ;
        return Ok((align, 0));
    }
    let bytes: usize = match len.checked_mul(size) {
        None => {
            return fail(Fault::AlignedBytesOverflow);
        },
        Some(bytes) => bytes,
    };
    let slack: usize = align - 1;
    if slack > isize::MAX as usize || bytes > isize::MAX as usize - slack {
        return fail(Fault::AlignedLayoutInvalid);
    }
    Ok((align, bytes))
}

/// Elements to touch so that every page of `len` elements of `size` bytes has been touched: each
/// start of a stride of one page, and the last element.
pub open spec fn prefault_stride(size: int) -> int {
    if size < 1 {
        4096
    } else if 4096int / size < 1 {
        1
    } else {
        4096int / size
    }
}

/// The indices that prefaulting touches, in order.
pub fn prefault_indices<T: TensorElement>(len: usize) -> (indices: Vec<usize>)
    ensures
        ({
            let stride = prefault_stride(T::spec_size() as int);
            let strides = if len == 0 {
                0
            } else {
                (len - 1) / stride + 1
            };
            &&& len == 0 ==> indices@.len() == 0
            &&& len > 0 ==> indices@.len() == strides + 1
            &&& len > 0 ==> indices@.last() == len - 1
            &&& forall|i: int| 0 <= i < strides ==> #[trigger] indices@[i] == i * stride
        }),
{
    let mut indices: Vec<usize> = Vec::new();
    if len == 0 {
        return indices;
    }
    let size: usize = T::size();
    let stride: usize = 4096 / size;
    assert(stride >= 1 && 4096int / size as int >= 1) by (nonlinear_arith)
        requires
            1 <= size <= 8,
            stride == 4096usize / size,
    ;
    let strides: usize = (len - 1) / stride + 1;
    let mut i: usize = 0;
    while i < strides
        invariant
            stride >= 1,
            len >= 1,
            strides == (len - 1) / (stride as int) + 1,
            0 <= i <= strides,
            indices@.len() == i,
            forall|k: int| 0 <= k < i ==> #[trigger] indices@[k] == k * stride,
        decreases strides - i,
    {
        assert(i * stride <= len - 1) by (nonlinear_arith)
            requires
                0 <= i <= (len - 1) / (stride as int),
                stride >= 1,
                len >= 1,
        ;
        indices.push(i * stride);
        i = i + 1;
    }
    indices.push(len - 1);
    indices
}

/// What the system and the engine answer while a buffer is made.
#[derive(Debug)]
pub struct BufferReplies {
    /// What came of locking the pages, where that is asked for.
    pub locked: Result<(), Error>,
    /// What came of wrapping the memory as a value of the engine.
    pub created: Result<(), Error>,
}

impl BufferReplies {
    /// Nothing is refused.
    pub fn granted() -> (replies: BufferReplies)
        ensures
            replies == (BufferReplies { locked: Ok(()), created: Ok(()) }),
    {
        BufferReplies { locked: Ok(()), created: Ok(()) }
    }
}

/// An owned, reusable tensor buffer over host memory.
///
/// Mutate the slice between runs and reuse the same bound value: no allocation, no copy and no
/// rebinding per request. The elements are held in a vector; what was asked of their memory is
/// recorded, for whoever allocates what the engine binds.
#[derive(Debug)]
pub struct TensorBuffer<T: TensorElement> {
    data: Vec<T>,
    shape: Vec<i64>,
    memory: MemoryInfo,
    backing: BufferSpec,
}

impl<T: TensorElement> View for TensorBuffer<T> {
    type V = Seq<T>;

    closed spec fn view(&self) -> Seq<T> {
        self.data@
    }
}

impl<T: TensorElement> TensorBuffer<T> {
    /// The dimensions.
    pub closed spec fn dims(self) -> Seq<i64> {
        self.shape@
    }

    /// Where the buffer lies.
    pub closed spec fn spec_memory(self) -> MemoryInfo {
        self.memory
    }

    /// How the memory is to be obtained.
    pub closed spec fn spec_backing(self) -> BufferSpec {
        self.backing
    }

    /// The shape is concrete and counts the elements, which the host can read.
    pub open spec fn wf(self) -> bool {
        &&& crate::shape::count_fault(self.dims()) is None
        &&& crate::shape::product(self.dims()) == self@.len()
        &&& self.spec_memory().host_accessible
    }

    fn from_storage(
        data: Vec<T>,
        shape: &[i64],
        memory: &MemoryInfo,
        backing: BufferSpec,
        created: Result<(), Error>,
    ) -> (result: Result<Self, Error>)
        ensures
            Self::wrapped(result, data@, shape@, *memory, backing, created),
    {
        match validate_shape_len(shape, data.len()) {
            Err(error) => {
                return Err(error);
            },
            Ok(()) => {},
        }
        match ensure_memory_host_accessible(memory) {
            Err(error) => {
                return Err(error);
            },
            Ok(()) => {},
        }
        if let Err(error) = created {
            return Err(error);
        }
        Ok(
            TensorBuffer {
                data,
                shape: copy_dims(shape),
                memory: memory.try_clone_descriptor(),
                backing,
            },
        )
    }

    /// `result` is what comes of wrapping elements: `created` is the engine's answer.
    pub open spec fn wrapped(
        result: Result<Self, Error>,
        elements: Seq<T>,
        shape: Seq<i64>,
        memory: MemoryInfo,
        backing: BufferSpec,
        created: Result<(), Error>,
    ) -> bool {
        match wrap_fault(shape, elements.len() as int, memory) {
            Some(error) => result == Err::<Self, Error>(error),
            None => match created {
                Err(error) => result == Err::<Self, Error>(error),
                Ok(()) => {
                    &&& result matches Ok(buffer)
                    &&& buffer.wf()
                    &&& buffer@ == elements
                    &&& buffer.dims() == shape
                    &&& buffer.spec_memory() == memory
                    &&& buffer.spec_backing() == backing
                },
            },
        }
    }

    /// Wrap a vector whose length is the product of `shape`. `created` is the engine's answer.
    pub fn from_vec(
        data: Vec<T>,
        shape: &[i64],
        memory: &MemoryInfo,
        created: Result<(), Error>,
    ) -> (result: Result<Self, Error>)
        ensures
            Self::wrapped(result, data@, shape@, *memory, BufferSpec::Auto, created),
    {
        Self::from_storage(data, shape, memory, BufferSpec::Auto, created)
    }

    /// `result` is a buffer of zeros of the given shape, for which the given backing is recorded.
    pub open spec fn zeroed(
        result: Result<Self, Error>,
        shape: Seq<i64>,
        memory: MemoryInfo,
        backing: BufferSpec,
    ) -> bool {
        &&& result matches Ok(buffer)
        &&& buffer.wf()
        &&& buffer@ == Seq::new(crate::shape::product(shape) as nat, |i: int| T::spec_zero())
        &&& buffer.dims() == shape
        &&& buffer.spec_memory() == memory
        &&& buffer.spec_backing() == backing
    }

    /// Why no memory can be laid out for a zeroed buffer.
    pub open spec fn layout_fault(shape: Seq<i64>, spec: BufferSpec) -> Option<Error> {
        match crate::shape::count_fault(shape) {
            Some(error) => Some(error),
            None => match spec {
                BufferSpec::Host { alignment, .. } => aligned_fault(
                    crate::shape::product(shape),
                    alignment as int,
                    T::spec_size() as int,
                ),
                _ => None,
            },
        }
    }

    /// Why a zeroed buffer cannot be built, whatever the system and the engine answer.
    pub open spec fn zeros_fault(shape: Seq<i64>, memory: MemoryInfo, spec: BufferSpec) -> Option<
        Error,
    > {
        match Self::layout_fault(shape, spec) {
            Some(error) => Some(error),
            None => if memory.host_accessible {
                None
            } else {
                Some(Error::SliceMemoryNotHost { memory })
            },
        }
    }

    /// Why a zeroed buffer is not built: the first fault or refusal. The pages of a buffer without
    /// elements are not locked.
    pub open spec fn zeros_refusal(
        shape: Seq<i64>,
        memory: MemoryInfo,
        spec: BufferSpec,
        replies: BufferReplies,
    ) -> Option<Error> {
        match (Self::layout_fault(shape, spec), replies.locked) {
            (Some(error), _) => Some(error),
            (None, Err(error)) if spec_locked(spec) && crate::shape::product(shape) > 0 => Some(error),
            _ => if memory.host_accessible {
                match replies.created {
                    Err(error) => Some(error),
                    Ok(()) => None,
                }
            } else {
                Some(Error::SliceMemoryNotHost { memory })
            },
        }
    }

    /// The backing that a request gets: its alignment is at least that of the elements.
    pub open spec fn zeros_backing(spec: BufferSpec) -> BufferSpec {
        match spec {
            BufferSpec::Host { alignment, hugepage, prefault, mlock } => BufferSpec::Host {
                alignment: effective_alignment(alignment as int, T::spec_size() as int) as usize,
                hugepage,
                prefault,
                mlock,
            },
            other => other,
        }
    }

    /// `result` is the outcome of building a zeroed buffer.
    pub open spec fn zeros_outcome(
        result: Result<Self, Error>,
        shape: Seq<i64>,
        memory: MemoryInfo,
        spec: BufferSpec,
        replies: BufferReplies,
    ) -> bool {
        match Self::zeros_refusal(shape, memory, spec, replies) {
            Some(error) => result == Err::<Self, Error>(error),
            None => Self::zeroed(result, shape, memory, Self::zeros_backing(spec)),
        }
    }

    /// A zeroed buffer, for which the given backing is recorded.
    pub fn zeros_with(
        shape: &[i64],
        memory: &MemoryInfo,
        spec: BufferSpec,
        replies: BufferReplies,
    ) -> (result: Result<Self, Error>)
        ensures
            Self::zeros_outcome(result, shape@, *memory, spec, replies),
    {
        let len: usize = match checked_element_count(shape) {
            Err(error) => {
                return Err(error);
            },
            Ok(len) => len,
        };
        let backing: BufferSpec = match spec {
            BufferSpec::Host { alignment, hugepage, prefault, mlock } => {
                match aligned_layout::<T>(len, alignment) {
                    Err(error) => {
                        return Err(error);
                    },
                    Ok((align, _)) => BufferSpec::Host {
                        alignment: align,
                        hugepage,
                        prefault,
                        mlock,
                    },
                }
            },
            other => other,
        };
        if asks_for_lock(spec) && len > 0 {
            if let Err(error) = replies.locked {
                return Err(error);
            }
        }
        let mut data: Vec<T> = Vec::new();
        let mut i: usize = 0;
        while i < len
            invariant
                0 <= i <= len,
                data@ == Seq::new(i as nat, |k: int| T::spec_zero()),
            decreases len - i,
        {
            data.push(T::zero());
            i = i + 1;
            assert(data@ =~= Seq::new(i as nat, |k: int| T::spec_zero()));
        }
        Self::from_storage(data, shape, memory, backing, replies.created)
    }

    /// A zeroed buffer.
    pub fn zeros(shape: &[i64], memory: &MemoryInfo, replies: BufferReplies) -> (result: Result<
        Self,
        Error,
    >)
        ensures
            Self::zeros_outcome(result, shape@, *memory, BufferSpec::Auto, replies),
    {
        Self::zeros_with(shape, memory, BufferSpec::Auto, replies)
    }

    /// A zeroed buffer whose pages are to be touched before it is bound.
    pub fn zeros_prefaulted(shape: &[i64], memory: &MemoryInfo, replies: BufferReplies) -> (result:
        Result<Self, Error>)
        ensures
            Self::zeros_outcome(
                result,
                shape@,
                *memory,
                BufferSpec::Host { alignment: 1, hugepage: false, prefault: true, mlock: false },
                replies,
            ),
    {
        Self::zeros_with(
            shape,
            memory,
            BufferSpec::Host { alignment: 1, hugepage: false, prefault: true, mlock: false },
            replies,
        )
    }

    /// A zeroed buffer that is to lie at a byte alignment, which must be a power of two.
    pub fn zeros_aligned(
        shape: &[i64],
        alignment: usize,
        memory: &MemoryInfo,
        replies: BufferReplies,
    ) -> (result: Result<Self, Error>)
        ensures
            Self::zeros_outcome(
                result,
                shape@,
                *memory,
                BufferSpec::Host {
                    alignment,
                    hugepage: false,
                    prefault: false,
                    mlock: false,
                },
                replies,
            ),
    {
        Self::zeros_with(
            shape,
            memory,
            BufferSpec::Host {
                alignment,
                hugepage: false,
                prefault: false,
                mlock: false,
            },
            replies,
        )
    }

    /// A zeroed buffer that is to lie at a byte alignment, its pages touched before it is bound.
    pub fn zeros_aligned_prefaulted(
        shape: &[i64],
        alignment: usize,
        memory: &MemoryInfo,
        replies: BufferReplies,
    ) -> (result: Result<Self, Error>)
        ensures
            Self::zeros_outcome(
                result,
                shape@,
                *memory,
                BufferSpec::Host {
                    alignment,
                    hugepage: false,
                    prefault: true,
                    mlock: false,
                },
                replies,
            ),
    {
        Self::zeros_with(
            shape,
            memory,
            BufferSpec::Host {
                alignment,
                hugepage: false,
                prefault: true,
                mlock: false,
            },
            replies,
        )
    }

    /// A zeroed buffer that is to lie at a byte alignment, its pages locked in memory.
    pub fn zeros_aligned_mlocked(
        shape: &[i64],
        alignment: usize,
        memory: &MemoryInfo,
        replies: BufferReplies,
    ) -> (result: Result<Self, Error>)
        ensures
            Self::zeros_outcome(
                result,
                shape@,
                *memory,
                BufferSpec::Host {
                    alignment,
                    hugepage: false,
                    prefault: false,
                    mlock: true,
                },
                replies,
            ),
    {
        Self::zeros_with(
            shape,
            memory,
            BufferSpec::Host {
                alignment,
                hugepage: false,
                prefault: false,
                mlock: true,
            },
            replies,
        )
    }

    /// A zeroed buffer that is to lie at a byte alignment, its pages touched and then locked in
    /// memory.
    pub fn zeros_aligned_mlocked_prefaulted(
        shape: &[i64],
        alignment: usize,
        memory: &MemoryInfo,
        replies: BufferReplies,
    ) -> (result: Result<Self, Error>)
        ensures
            Self::zeros_outcome(
                result,
                shape@,
                *memory,
                BufferSpec::Host {
                    alignment,
                    hugepage: false,
                    prefault: true,
                    mlock: true,
                },
                replies,
            ),
    {
        Self::zeros_with(
            shape,
            memory,
            BufferSpec::Host {
                alignment,
                hugepage: false,
                prefault: true,
                mlock: true,
            },
            replies,
        )
    }

    /// A zeroed buffer that is to lie at a byte alignment, with a hint for huge pages.
    pub fn zeros_aligned_hugepage(
        shape: &[i64],
        alignment: usize,
        memory: &MemoryInfo,
        replies: BufferReplies,
    ) -> (result: Result<Self, Error>)
        ensures
            Self::zeros_outcome(
                result,
                shape@,
                *memory,
                BufferSpec::Host {
                    alignment,
                    hugepage: true,
                    prefault: false,
                    mlock: false,
                },
                replies,
            ),
    {
        Self::zeros_with(
            shape,
            memory,
            BufferSpec::Host {
                alignment,
                hugepage: true,
                prefault: false,
                mlock: false,
            },
            replies,
        )
    }

    /// A zeroed buffer that is to lie at a byte alignment, with a hint for huge pages, touched before
    /// it is bound.
    pub fn zeros_aligned_hugepage_prefaulted(
        shape: &[i64],
        alignment: usize,
        memory: &MemoryInfo,
        replies: BufferReplies,
    ) -> (result: Result<Self, Error>)
        ensures
            Self::zeros_outcome(
                result,
                shape@,
                *memory,
                BufferSpec::Host {
                    alignment,
                    hugepage: true,
                    prefault: true,
                    mlock: false,
                },
                replies,
            ),
    {
        Self::zeros_with(
            shape,
            memory,
            BufferSpec::Host {
                alignment,
                hugepage: true,
                prefault: true,
                mlock: false,
            },
            replies,
        )
    }

    /// A zeroed buffer that is to lie at a byte alignment, with a hint for huge pages, locked in
    /// memory.
    pub fn zeros_aligned_hugepage_mlocked(
        shape: &[i64],
        alignment: usize,
        memory: &MemoryInfo,
        replies: BufferReplies,
    ) -> (result: Result<Self, Error>)
        ensures
            Self::zeros_outcome(
                result,
                shape@,
                *memory,
                BufferSpec::Host {
                    alignment,
                    hugepage: true,
                    prefault: false,
                    mlock: true,
                },
                replies,
            ),
    {
        Self::zeros_with(
            shape,
            memory,
            BufferSpec::Host {
                alignment,
                hugepage: true,
                prefault: false,
                mlock: true,
            },
            replies,
        )
    }

    /// A zeroed buffer that is to lie at a byte alignment, with a hint for huge pages, touched and
    /// then locked in memory.
    pub fn zeros_aligned_hugepage_mlocked_prefaulted(
        shape: &[i64],
        alignment: usize,
        memory: &MemoryInfo,
        replies: BufferReplies,
    ) -> (result: Result<Self, Error>)
        ensures
            Self::zeros_outcome(
                result,
                shape@,
                *memory,
                BufferSpec::Host {
                    alignment,
                    hugepage: true,
                    prefault: true,
                    mlock: true,
                },
                replies,
            ),
    {
        Self::zeros_with(
            shape,
            memory,
            BufferSpec::Host {
                alignment,
                hugepage: true,
                prefault: true,
                mlock: true,
            },
            replies,
        )
    }

    /// The elements.
    pub fn as_slice(&self) -> (slice: &[T])
        ensures
            slice@ == self@,
    {
        self.data.as_slice()
    }

    /// `after` is the buffer with `elements` written over its own.
    pub open spec fn rewritten(self, after: Self, elements: Seq<T>) -> bool {
        &&& after@ == elements
        &&& self.wf() && elements.len() == self@.len() ==> after.wf()
        &&& after.dims() == self.dims()
        &&& after.spec_memory() == self.spec_memory()
        &&& after.spec_backing() == self.spec_backing()
    }

    /// The elements, to be written in place.
    pub fn as_mut_slice(&mut self) -> (slice: &mut [T])
        ensures
            slice@ == old(self)@,
            old(self).rewritten(*final(self), final(slice)@),
    {
        self.data.as_mut_slice()
    }

    /// The dimensions.
    pub fn shape(&self) -> (shape: &[i64])
        ensures
            shape@ == self.dims(),
    {
        self.shape.as_slice()
    }

    /// The number of elements.
    pub fn len(&self) -> (len: usize)
        ensures
            len == self@.len(),
    {
        self.data.len()
    }

    /// The number of bytes, where it fits.
    pub fn byte_len(&self) -> (bytes: Result<usize, Error>)
        ensures
            if self@.len() * T::spec_size() <= usize::MAX {
                bytes == Ok::<usize, Error>((self@.len() * T::spec_size()) as usize)
            } else {
                bytes == Err::<usize, Error>(Error::Fault(Fault::BufferBytesOverflow))
            },
    {
        match self.data.len().checked_mul(T::size()) {
            Some(bytes) => Ok(bytes),
            None => fail(Fault::BufferBytesOverflow),
        }
    }

    /// Whether there are no elements.
    pub fn is_empty(&self) -> (empty: bool)
        ensures
            empty == (self@.len() == 0),
    {
        self.data.len() == 0
    }

    /// The element type.
    pub fn element_type(&self) -> (element_type: ElementType)
        ensures
            element_type == T::spec_elem(),
    {
        T::elem()
    }

    /// Where the buffer lies.
    pub fn memory_info(&self) -> (memory: &MemoryInfo)
        ensures
            *memory == self.spec_memory(),
    {
        &self.memory
    }

    /// The address of the elements that the engine reported. A null address is refused unless there
    /// are no elements.
    pub fn engine_data_ptr(&self, reported: Result<usize, Error>) -> (result: Result<usize, Error>)
        ensures
            match reported {
                Err(error) => result == Err::<usize, Error>(error),
                Ok(address) => if address == 0 && self@.len() > 0 {
                    result == Err::<usize, Error>(Error::Fault(Fault::TensorDataNull))
                } else {
                    result == Ok::<usize, Error>(address)
                },
            },
    {
        match reported {
            Err(error) => Err(error),
            Ok(address) => {
                if address == 0 && self.data.len() > 0 {
                    fail(Fault::TensorDataNull)
                } else {
                    Ok(address)
                }
            },
        }
    }

    /// How the memory is to be obtained.
    pub fn backing(&self) -> (backing: BufferSpec)
        ensures
            backing == self.spec_backing(),
    {
        self.backing
    }
}

/// Writing one element in place changes that element and nothing else: the other elements, the
/// dimensions, the memory and the backing stay as they were.
pub proof fn writing_in_place_changes_one_element<T: TensorElement>(
    before: TensorBuffer<T>,
    after: TensorBuffer<T>,
    i: int,
    value: T,
)
    requires
        before.wf(),
        0 <= i < before@.len(),
        before.rewritten(after, before@.update(i, value)),
    ensures
        after.wf(),
        after@.len() == before@.len(),
        after@[i] == value,
        forall|j: int| 0 <= j < before@.len() && j != i ==> #[trigger] after@[j] == before@[j],
        after.dims() == before.dims(),
        after.spec_memory() == before.spec_memory(),
        after.spec_backing() == before.spec_backing(),
{
}

} // verus!
