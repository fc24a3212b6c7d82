//! Sparse tensors: values with coordinates, compressed rows, or blocks.
use vstd::prelude::*;

use crate::element::{ElementType, TensorElement};
use crate::error::{fail, Error, Fault};
use crate::memory::MemoryInfo;
use crate::shape::{checked_element_count, copy_dims};
use crate::tensor::buffer::validate_shape_len;
use crate::tensor::data::Elements;
use crate::type_info::TensorTypeAndShapeInfo;

verus! {

/// How a sparse tensor is laid out.
#[derive(Debug, Clone, Copy, PartialEq, Eq, Structural)]
pub enum SparseFormat {
    Undefined,
    Coo,
    Csrc,
    BlockSparse,
}

/// Which indices of a sparse tensor are meant.
#[derive(Debug, Clone, Copy, PartialEq, Eq, Structural)]
pub enum SparseIndicesFormat {
    Coo,
    CsrInner,
    CsrOuter,
    BlockSparse,
}

/// The indices of a sparse tensor.
#[derive(Debug)]
pub enum SparseIndices<'a> {
    /// One linear index per value, or one index per dimension and value.
    Coo(Elements<'a, i64>),
    /// The column of each value, and where each row begins.
    Csr { inner: Elements<'a, i64>, outer: Elements<'a, i64> },
    /// The coordinates of blocks, with their own shape.
    BlockSparse { shape: Vec<i64>, indices: Elements<'a, i32> },
}

/// A sparse tensor to be passed to a session.
#[derive(Debug)]
pub struct SparseTensor<'a, T: TensorElement> {
    dense_shape: Vec<i64>,
    values_shape: Vec<i64>,
    values: Elements<'a, T>,
    indices: SparseIndices<'a>,
    values_host_accessible: bool,
}

/// Why values and shapes do not make a sparse tensor.
pub open spec fn sparse_shapes_fault<T: TensorElement>(
    values_len: int,
    dense_shape: Seq<i64>,
    values_shape: Seq<i64>,
) -> Option<Error> {
    match crate::shape::count_fault(dense_shape) {
        Some(error) => Some(error),
        None => match crate::tensor::buffer::shape_len_fault(values_shape, values_len) {
            Some(error) => Some(error),
            None => if T::spec_elem() == ElementType::String {
                Some(Error::Fault(Fault::SparseStrings))
            } else {
                None
            },
        },
    }
}

/// Check that values and shapes make a sparse tensor.
pub fn validate_sparse_shapes<T: TensorElement>(
    values_len: usize,
    dense_shape: &[i64],
    values_shape: &[i64],
) -> (result: Result<(), Error>)
    ensures
        match sparse_shapes_fault::<T>(values_len as int, dense_shape@, values_shape@) {
            Some(error) => result == Err::<(), Error>(error),
            None => result is Ok,
        },
{
    if let Err(error) = checked_element_count(dense_shape) {
        return Err(error);
    }
    if let Err(error) = validate_shape_len(values_shape, values_len) {
        return Err(error);
    }
    if T::elem() == ElementType::String {
        return fail(Fault::SparseStrings);
    }
    Ok(())
}

/// Why a number of coordinates does not fit a number of values: there is one per value, or one
/// per value and dimension, and none without values.
pub open spec fn coo_fault(values_len: int, dense_rank: int, indices_len: int) -> Option<Error> {
    if values_len == 0 {
        if indices_len == 0 {
            None
        } else {
            Some(Error::CooLength { got: indices_len as usize })
        }
    } else if indices_len == values_len {
        None
    } else if values_len * dense_rank > usize::MAX {
        Some(Error::Fault(Fault::CooLengthOverflow))
    } else if indices_len == values_len * dense_rank {
        None
    } else {
        Some(Error::CooLength { got: indices_len as usize })
    }
}

/// Check that a number of coordinates fits a number of values.
pub fn validate_coo_indices(values_len: usize, dense_rank: usize, indices_len: usize) -> (result:
    Result<(), Error>)
    ensures
        match coo_fault(values_len as int, dense_rank as int, indices_len as int) {
            Some(error) => result == Err::<(), Error>(error),
            None => result is Ok,
        },
{
    if values_len == 0 {
        if indices_len == 0 {
            return Ok(());
        }
        return Err(Error::CooLength { got: indices_len });
    }
    if indices_len == values_len {
        return Ok(());
    }
    match values_len.checked_mul(dense_rank) {
        None => fail(Fault::CooLengthOverflow),
        Some(expected) => {
            if indices_len == expected {
                Ok(())
            } else {
                Err(Error::CooLength { got: indices_len })
            }
        },
    }
}

/// Why row and column indices do not fit: one column per value, and one row start more than there
/// are rows.
pub open spec fn csr_fault(
    values_len: int,
    dense_shape: Seq<i64>,
    inner_len: int,
    outer_len: int,
) -> Option<Error> {
    if inner_len != values_len {
        Some(Error::CsrInnerLength { expected: values_len as usize, got: inner_len as usize })
    } else if dense_shape.len() == 0 {
        Some(Error::Fault(Fault::CsrRankZero))
    } else if dense_shape[0] < 0 {
        Some(Error::Fault(Fault::CsrDynamicRows))
    } else if dense_shape[0] > usize::MAX {
        Some(Error::Fault(Fault::CsrRowsTooLarge))
    } else if dense_shape[0] + 1 > usize::MAX {
        Some(Error::Fault(Fault::CsrOuterOverflow))
    } else if outer_len != dense_shape[0] + 1 {
        Some(
            Error::CsrOuterLength {
                expected: (dense_shape[0] + 1) as usize,
                got: outer_len as usize,
            },
        )
    } else {
        None
    }
}

/// Check that row and column indices fit.
pub fn validate_csr_indices(
    values_len: usize,
    dense_shape: &[i64],
    inner_len: usize,
    outer_len: usize,
) -> (result: Result<(), Error>)
    ensures
        match csr_fault(values_len as int, dense_shape@, inner_len as int, outer_len as int) {
            Some(error) => result == Err::<(), Error>(error),
            None => result is Ok,
        },
{
    if inner_len != values_len {
        return Err(Error::CsrInnerLength { expected: values_len, got: inner_len });
    }
    if dense_shape.len() == 0 {
        return fail(Fault::CsrRankZero);
    }
    let rows: i64 = dense_shape[0];
    if rows < 0 {
        return fail(Fault::CsrDynamicRows);
    }
    if rows as u64 > usize::MAX as u64 {
        return fail(Fault::CsrRowsTooLarge);
    }
    match (rows as usize).checked_add(1) {
        None => fail(Fault::CsrOuterOverflow),
        Some(expected) => {
            if outer_len != expected {
                return Err(Error::CsrOuterLength { expected, got: outer_len });
            }
            Ok(())
        },
    }
}

/// A copy of elements.
fn copy_elements<T: Copy>(elements: &[T]) -> (copy: Vec<T>)
    ensures
        copy@ == elements@,
{
    let mut copy: Vec<T> = Vec::new();
    let mut i: usize = 0;
    while i < elements.len()
        invariant
            i <= elements@.len(),
            copy@ == elements@.take(i as int),
        decreases elements@.len() - i,
    {
        copy.push(elements[i]);
        i = i + 1;
        assert(copy@ =~= elements@.take(i as int));
    }
    assert(copy@ =~= elements@);
    copy
}

/// What the engine answers while a sparse tensor is made.
#[derive(Debug)]
pub struct SparseReplies {
    /// What came of making the value.
    pub created: Result<(), Error>,
    /// What came of giving it its values and indices.
    pub filled: Result<(), Error>,
}

/// Why a sparse tensor was not made.
#[derive(Debug)]
pub struct SparseFailure {
    pub error: Error,
    /// Whether the engine's value was made, and is to be released.
    pub release: bool,
}

impl SparseReplies {
    /// Nothing is refused.
    pub fn granted() -> (replies: SparseReplies)
        ensures
            replies == (SparseReplies { created: Ok(()), filled: Ok(()) }),
    {
        SparseReplies { created: Ok(()), filled: Ok(()) }
    }

    /// What was refused: a value that could not be filled is released.
    pub open spec fn failure(self) -> Option<SparseFailure> {
        match (self.created, self.filled) {
            (Err(error), _) => Some(SparseFailure { error, release: false }),
            (Ok(()), Err(error)) => Some(SparseFailure { error, release: true }),
            _ => None,
        }
    }

    fn check(self) -> (result: Result<(), SparseFailure>)
        ensures
            match self.failure() {
                Some(failure) => result == Err::<(), SparseFailure>(failure),
                None => result is Ok,
            },
    {
        match (self.created, self.filled) {
            (Err(error), _) => Err(SparseFailure { error, release: false }),
            (Ok(()), Err(error)) => Err(SparseFailure { error, release: true }),
            _ => Ok(()),
        }
    }
}

impl<'a, T: TensorElement> SparseTensor<'a, T> {
    /// The shape of the dense tensor.
    pub closed spec fn spec_dense_shape(self) -> Seq<i64> {
        self.dense_shape@
    }

    /// The shape of the values.
    pub closed spec fn spec_values_shape(self) -> Seq<i64> {
        self.values_shape@
    }

    /// The values.
    pub closed spec fn spec_values(self) -> Seq<T> {
        self.values@
    }

    /// The indices.
    pub closed spec fn spec_indices(self) -> SparseIndices<'a> {
        self.indices
    }

    /// Whether the host may read the values.
    pub closed spec fn readable(self) -> bool {
        self.values_host_accessible
    }

    /// The tensor has these values, shapes and placement.
    pub open spec fn made_of(
        self,
        values: Seq<T>,
        dense_shape: Seq<i64>,
        values_shape: Seq<i64>,
        readable: bool,
    ) -> bool {
        &&& self.spec_values() == values
        &&& self.spec_dense_shape() == dense_shape
        &&& self.spec_values_shape() == values_shape
        &&& self.readable() == readable
    }

    /// Copy values and indices into a tensor with coordinates.
    pub fn copy_coo(
        values: &[T],
        dense_shape: &[i64],
        values_shape: &[i64],
        indices: &[i64],
        replies: SparseReplies,
    ) -> (result: Result<Self, SparseFailure>)
        ensures
            match sparse_shapes_fault::<T>(values@.len() as int, dense_shape@, values_shape@) {
                Some(error) => result == Err::<Self, SparseFailure>(SparseFailure { error, release: false }),
                None => match coo_fault(values@.len() as int, dense_shape@.len() as int, indices@.len() as int) {
                    Some(error) => result == Err::<Self, SparseFailure>(SparseFailure { error, release: false }),
                    None => match replies.failure() {
                        Some(failure) => result == Err::<Self, SparseFailure>(failure),
                        None => {
                            &&& result matches Ok(tensor)
                            &&& tensor.made_of(values@, dense_shape@, values_shape@, true)
                            &&& tensor.spec_indices() matches SparseIndices::Coo(held) && held@ == indices@
                        },
                    },
                },
            },
    {
        if let Err(error) = validate_sparse_shapes::<T>(values.len(), dense_shape, values_shape) {
            return Err(SparseFailure { error, release: false });
        }
        if let Err(error) = validate_coo_indices(values.len(), dense_shape.len(), indices.len()) {
            return Err(SparseFailure { error, release: false });
        }
        if let Err(failure) = replies.check() {
            return Err(failure);
        }
        Ok(
            SparseTensor {
                dense_shape: copy_dims(dense_shape),
                values_shape: copy_dims(values_shape),
                values: Elements::Owned(copy_elements(values)),
                indices: SparseIndices::Coo(Elements::Owned(copy_elements(indices))),
                values_host_accessible: true,
            },
        )
    }

    /// Copy values and indices into a tensor with compressed rows.
    pub fn copy_csr(
        values: &[T],
        dense_shape: &[i64],
        values_shape: &[i64],
        inner_indices: &[i64],
        outer_indices: &[i64],
        replies: SparseReplies,
    ) -> (result: Result<Self, SparseFailure>)
        ensures
            match sparse_shapes_fault::<T>(values@.len() as int, dense_shape@, values_shape@) {
                Some(error) => result == Err::<Self, SparseFailure>(SparseFailure { error, release: false }),
                None => match csr_fault(
                    values@.len() as int,
                    dense_shape@,
                    inner_indices@.len() as int,
                    outer_indices@.len() as int,
                ) {
                    Some(error) => result == Err::<Self, SparseFailure>(SparseFailure { error, release: false }),
                    None => match replies.failure() {
                        Some(failure) => result == Err::<Self, SparseFailure>(failure),
                        None => {
                            &&& result matches Ok(tensor)
                            &&& tensor.made_of(values@, dense_shape@, values_shape@, true)
                            &&& tensor.spec_indices() matches SparseIndices::Csr { inner, outer } && inner@
                                == inner_indices@ && outer@ == outer_indices@
                        },
                    },
                },
            },
    {
        if let Err(error) = validate_sparse_shapes::<T>(values.len(), dense_shape, values_shape) {
            return Err(SparseFailure { error, release: false });
        }
        if let Err(error) = validate_csr_indices(
            values.len(),
            dense_shape,
            inner_indices.len(),
            outer_indices.len(),
        ) {
            return Err(SparseFailure { error, release: false });
        }
        if let Err(failure) = replies.check() {
            return Err(failure);
        }
        Ok(
            SparseTensor {
                dense_shape: copy_dims(dense_shape),
                values_shape: copy_dims(values_shape),
                values: Elements::Owned(copy_elements(values)),
                indices: SparseIndices::Csr {
                    inner: Elements::Owned(copy_elements(inner_indices)),
                    outer: Elements::Owned(copy_elements(outer_indices)),
                },
                values_host_accessible: true,
            },
        )
    }

    /// Copy values and indices into a tensor of blocks.
    pub fn copy_block_sparse(
        values: &[T],
        dense_shape: &[i64],
        values_shape: &[i64],
        indices_shape: &[i64],
        indices: &[i32],
        replies: SparseReplies,
    ) -> (result: Result<Self, SparseFailure>)
        ensures
            match sparse_shapes_fault::<T>(values@.len() as int, dense_shape@, values_shape@) {
                Some(error) => result == Err::<Self, SparseFailure>(SparseFailure { error, release: false }),
                None => match crate::tensor::buffer::shape_len_fault(indices_shape@, indices@.len() as int) {
                    Some(error) => result == Err::<Self, SparseFailure>(SparseFailure { error, release: false }),
                    None => match replies.failure() {
                        Some(failure) => result == Err::<Self, SparseFailure>(failure),
                        None => {
                            &&& result matches Ok(tensor)
                            &&& tensor.made_of(values@, dense_shape@, values_shape@, true)
                            &&& tensor.spec_indices() matches SparseIndices::BlockSparse {
                                shape,
                                indices: held,
                            } && shape@ == indices_shape@ && held@ == indices@
                        },
                    },
                },
            },
    {
        if let Err(error) = validate_sparse_shapes::<T>(values.len(), dense_shape, values_shape) {
            return Err(SparseFailure { error, release: false });
        }
        if let Err(error) = validate_shape_len(indices_shape, indices.len()) {
            return Err(SparseFailure { error, release: false });
        }
        if let Err(failure) = replies.check() {
            return Err(failure);
        }
        Ok(
            SparseTensor {
                dense_shape: copy_dims(dense_shape),
                values_shape: copy_dims(values_shape),
                values: Elements::Owned(copy_elements(values)),
                indices: SparseIndices::BlockSparse {
                    shape: copy_dims(indices_shape),
                    indices: Elements::Owned(copy_elements(indices)),
                },
                values_host_accessible: true,
            },
        )
    }

    /// Wrap values and indices as a tensor with coordinates, without copying them.
    pub fn from_coo_buffer(
        values: &'a [T],
        dense_shape: &[i64],
        values_shape: &[i64],
        indices: &'a [i64],
        memory: &MemoryInfo,
        replies: SparseReplies,
    ) -> (result: Result<Self, SparseFailure>)
        ensures
            match sparse_shapes_fault::<T>(values@.len() as int, dense_shape@, values_shape@) {
                Some(error) => result == Err::<Self, SparseFailure>(SparseFailure { error, release: false }),
                None => match coo_fault(values@.len() as int, dense_shape@.len() as int, indices@.len() as int) {
                    Some(error) => result == Err::<Self, SparseFailure>(SparseFailure { error, release: false }),
                    None => match replies.failure() {
                        Some(failure) => result == Err::<Self, SparseFailure>(failure),
                        None => {
                            &&& result matches Ok(tensor)
                            &&& tensor.made_of(values@, dense_shape@, values_shape@, memory.host_accessible)
                            &&& tensor.spec_indices() matches SparseIndices::Coo(held) && held@ == indices@
                        },
                    },
                },
            },
    {
        if let Err(error) = validate_sparse_shapes::<T>(values.len(), dense_shape, values_shape) {
            return Err(SparseFailure { error, release: false });
        }
        if let Err(error) = validate_coo_indices(values.len(), dense_shape.len(), indices.len()) {
            return Err(SparseFailure { error, release: false });
        }
        if let Err(failure) = replies.check() {
            return Err(failure);
        }
        Ok(
            SparseTensor {
                dense_shape: copy_dims(dense_shape),
                values_shape: copy_dims(values_shape),
                values: Elements::Borrowed(values),
                indices: SparseIndices::Coo(Elements::Borrowed(indices)),
                values_host_accessible: memory.host_accessible,
            },
        )
    }

    /// Wrap values and indices as a tensor with compressed rows, without copying them.
    pub fn from_csr_buffer(
        values: &'a [T],
        dense_shape: &[i64],
        values_shape: &[i64],
        inner_indices: &'a [i64],
        outer_indices: &'a [i64],
        memory: &MemoryInfo,
        replies: SparseReplies,
    ) -> (result: Result<Self, SparseFailure>)
        ensures
            match sparse_shapes_fault::<T>(values@.len() as int, dense_shape@, values_shape@) {
                Some(error) => result == Err::<Self, SparseFailure>(SparseFailure { error, release: false }),
                None => match csr_fault(
                    values@.len() as int,
                    dense_shape@,
                    inner_indices@.len() as int,
                    outer_indices@.len() as int,
                ) {
                    Some(error) => result == Err::<Self, SparseFailure>(SparseFailure { error, release: false }),
                    None => match replies.failure() {
                        Some(failure) => result == Err::<Self, SparseFailure>(failure),
                        None => {
                            &&& result matches Ok(tensor)
                            &&& tensor.made_of(values@, dense_shape@, values_shape@, memory.host_accessible)
                            &&& tensor.spec_indices() matches SparseIndices::Csr { inner, outer } && inner@
                                == inner_indices@ && outer@ == outer_indices@
                        },
                    },
                },
            },
    {
        if let Err(error) = validate_sparse_shapes::<T>(values.len(), dense_shape, values_shape) {
            return Err(SparseFailure { error, release: false });
        }
        if let Err(error) = validate_csr_indices(
            values.len(),
            dense_shape,
            inner_indices.len(),
            outer_indices.len(),
        ) {
            return Err(SparseFailure { error, release: false });
        }
        if let Err(failure) = replies.check() {
            return Err(failure);
        }
        Ok(
            SparseTensor {
                dense_shape: copy_dims(dense_shape),
                values_shape: copy_dims(values_shape),
                values: Elements::Borrowed(values),
                indices: SparseIndices::Csr {
                    inner: Elements::Borrowed(inner_indices),
                    outer: Elements::Borrowed(outer_indices),
                },
                values_host_accessible: memory.host_accessible,
            },
        )
    }

    /// Wrap values and indices as a tensor of blocks, without copying them.
    pub fn from_block_sparse_buffer(
        values: &'a [T],
        dense_shape: &[i64],
        values_shape: &[i64],
        indices_shape: &[i64],
        indices: &'a [i32],
        memory: &MemoryInfo,
        replies: SparseReplies,
    ) -> (result: Result<Self, SparseFailure>)
        ensures
            match sparse_shapes_fault::<T>(values@.len() as int, dense_shape@, values_shape@) {
                Some(error) => result == Err::<Self, SparseFailure>(SparseFailure { error, release: false }),
                None => match crate::tensor::buffer::shape_len_fault(indices_shape@, indices@.len() as int) {
                    Some(error) => result == Err::<Self, SparseFailure>(SparseFailure { error, release: false }),
                    None => match replies.failure() {
                        Some(failure) => result == Err::<Self, SparseFailure>(failure),
                        None => {
                            &&& result matches Ok(tensor)
                            &&& tensor.made_of(values@, dense_shape@, values_shape@, memory.host_accessible)
                            &&& tensor.spec_indices() matches SparseIndices::BlockSparse {
                                shape,
                                indices: held,
                            } && shape@ == indices_shape@ && held@ == indices@
                        },
                    },
                },
            },
    {
        if let Err(error) = validate_sparse_shapes::<T>(values.len(), dense_shape, values_shape) {
            return Err(SparseFailure { error, release: false });
        }
        if let Err(error) = validate_shape_len(indices_shape, indices.len()) {
            return Err(SparseFailure { error, release: false });
        }
        if let Err(failure) = replies.check() {
            return Err(failure);
        }
        Ok(
            SparseTensor {
                dense_shape: copy_dims(dense_shape),
                values_shape: copy_dims(values_shape),
                values: Elements::Borrowed(values),
                indices: SparseIndices::BlockSparse {
                    shape: copy_dims(indices_shape),
                    indices: Elements::Borrowed(indices),
                },
                values_host_accessible: memory.host_accessible,
            },
        )
    }

    /// Whether this is a sparse tensor.
    pub fn is_sparse(&self) -> (sparse: bool)
        ensures
            sparse,
    {
        true
    }

    /// How the tensor is laid out.
    pub open spec fn spec_format(self) -> SparseFormat {
        match self.spec_indices() {
            SparseIndices::Coo(_) => SparseFormat::Coo,
            SparseIndices::Csr { .. } => SparseFormat::Csrc,
            SparseIndices::BlockSparse { .. } => SparseFormat::BlockSparse,
        }
    }

    /// How the tensor is laid out.
    pub fn format(&self) -> (format: SparseFormat)
        ensures
            format == self.spec_format(),
    {
        match &self.indices {
            SparseIndices::Coo(_) => SparseFormat::Coo,
            SparseIndices::Csr { .. } => SparseFormat::Csrc,
            SparseIndices::BlockSparse { .. } => SparseFormat::BlockSparse,
        }
    }

    /// The element type and the shape of the values.
    pub fn values_type_and_shape(&self) -> (info: TensorTypeAndShapeInfo)
        ensures
            info.spec_elem() == T::spec_elem(),
            info.spec_dims() == self.spec_values_shape(),
            info.names() == Seq::<Option<Vec<u8>>>::empty(),
    {
        TensorTypeAndShapeInfo::from_report(
            T::elem(),
            copy_dims(self.values_shape.as_slice()),
            Vec::new(),
        )
    }

    /// The element type of indices.
    pub fn indices_element_type(format: SparseIndicesFormat) -> (element_type: ElementType)
        ensures
            element_type == (if format == SparseIndicesFormat::BlockSparse {
                ElementType::Int32
            } else {
                ElementType::Int64
            }),
    {
        match format {
            SparseIndicesFormat::BlockSparse => ElementType::Int32,
            _ => ElementType::Int64,
        }
    }

    /// The values, where they are in host memory.
    pub fn values_as_slice(&self) -> (slice: Result<&[T], Error>)
        ensures
            if self.readable() {
                slice matches Ok(values) && values@ == self.spec_values()
            } else {
                slice == Err::<&[T], Error>(Error::Fault(Fault::SparseValuesNotHost))
            },
    {
        if !self.values_host_accessible {
            return fail(Fault::SparseValuesNotHost);
        }
        Ok(self.values.as_slice())
    }

    /// The element type and the shape of indices, as the engine reports them; it must not be null.
    pub fn indices_type_and_shape(
        &self,
        reported: Result<Option<TensorTypeAndShapeInfo>, Error>,
    ) -> (info: Result<TensorTypeAndShapeInfo, Error>)
        ensures
            info == match reported {
                Err(error) => Err::<TensorTypeAndShapeInfo, Error>(error),
                Ok(None) => Err(Error::Fault(Fault::IndicesTypeAndShapeNull)),
                Ok(Some(info)) => Ok(info),
            },
    {
        match reported {
            Err(error) => Err(error),
            Ok(None) => fail(Fault::IndicesTypeAndShapeNull),
            Ok(Some(info)) => Ok(info),
        }
    }

    /// The tensor has such indices.
    pub open spec fn has_indices(self, format: SparseIndicesFormat) -> bool {
        match format {
            SparseIndicesFormat::Coo => self.spec_indices() is Coo,
            SparseIndicesFormat::CsrInner => self.spec_indices() is Csr,
            SparseIndicesFormat::CsrOuter => self.spec_indices() is Csr,
            SparseIndicesFormat::BlockSparse => self.spec_indices() is BlockSparse,
        }
    }

    /// The indices, where they are wide. Those of blocks are not. `found` is the engine's answer to
    /// the request for such indices: it finds those that the tensor has.
    pub fn indices_i64(&self, format: SparseIndicesFormat, found: Result<(), Error>) -> (slice:
        Result<&[i64], Error>)
        requires
            found is Ok ==> format == SparseIndicesFormat::BlockSparse || self.has_indices(format),
        ensures
            match (format, found) {
                (SparseIndicesFormat::BlockSparse, _) => slice == Err::<&[i64], Error>(
                    Error::Fault(Fault::BlockIndicesAreI32),
                ),
                (_, Err(error)) => slice == Err::<&[i64], Error>(error),
                (SparseIndicesFormat::Coo, Ok(_)) => slice matches Ok(held) && held@
                    == self.spec_indices()->Coo_0@,
                (SparseIndicesFormat::CsrInner, Ok(_)) => slice matches Ok(held) && held@
                    == self.spec_indices()->inner@,
                (SparseIndicesFormat::CsrOuter, Ok(_)) => slice matches Ok(held) && held@
                    == self.spec_indices()->outer@,
            },
    {
        match format {
            SparseIndicesFormat::BlockSparse => return fail(Fault::BlockIndicesAreI32),
            _ => {},
        }
        match found {
            Err(error) => return Err(error),
            Ok(()) => {},
        }
        match (&self.indices, format) {
            (SparseIndices::Csr { inner, .. }, SparseIndicesFormat::CsrInner) => Ok(
                inner.as_slice(),
            ),
            (SparseIndices::Csr { outer, .. }, SparseIndicesFormat::CsrOuter) => Ok(
                outer.as_slice(),
            ),
            (SparseIndices::Coo(held), _) => Ok(held.as_slice()),
            _ => Ok(&[]),
        }
    }

    /// The indices of blocks. `found` is the engine's answer to the request for them: it finds
    /// them where the tensor has them.
    pub fn block_sparse_indices(&self, found: Result<(), Error>) -> (slice: Result<&[i32], Error>)
        requires
            found is Ok ==> self.has_indices(SparseIndicesFormat::BlockSparse),
        ensures
            match found {
                Err(error) => slice == Err::<&[i32], Error>(error),
                Ok(_) => slice matches Ok(held) && held@ == self.spec_indices()->indices@,
            },
    {
        match found {
            Err(error) => Err(error),
            Ok(()) => match &self.indices {
                SparseIndices::BlockSparse { indices, .. } => Ok(indices.as_slice()),
                _ => Ok(&[]),
            },
        }
    }
}

} // verus!
