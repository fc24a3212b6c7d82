//! What making and reading tensors amounts to.
use vstd::prelude::*;

use crate::element::{ElementType, OnnxType, TensorElement};
use crate::error::Error;
use crate::memory::MemoryInfo;
use crate::tensor::buffer::{BufferReplies, BufferSpec, TensorBuffer};
use crate::tensor::data::DenseElement;
use crate::tensor::mmap::{MappedFile, MmapTensorOptions};
use crate::tensor::sparse::{SparseIndicesFormat, SparseReplies, SparseTensor};
use crate::tensor::value::{Introspection, OwnedValue};
use crate::tensor::view::TensorView;

verus! {

/// A value is known by what the engine reports of it: its kind, and for a tensor its element type and as many
/// elements as its dimensions give. Other values have no elements.
pub proof fn values_are_what_the_engine_reports(asked: Introspection)
    ensures
        match asked.outcome() {
            Ok(value) => {
                &&& value.value == asked.value
                &&& asked.kind == Ok::<OnnxType, Error>(value.onnx_type)
                &&& value.onnx_type is Tensor ==> (asked.info matches Ok(info) && value.elem_type
                    == info.spec_elem() && value.count == crate::shape::product(info.spec_dims()))
                &&& !(value.onnx_type is Tensor) ==> value.elem_type is Undefined && value.count
                    == 0
            },
            Err(error) => match asked.kind {
                Err(reported) => error == reported,
                Ok(kind) => kind is Tensor && match asked.info {
                    Err(reported) => error == reported,
                    Ok(info) => crate::shape::count_fault(info.spec_dims()) == Some(error),
                },
            },
        },
{
    if let Ok(info) = asked.info {
        if crate::shape::count_fault(info.spec_dims()) is None {
            crate::shape::lemma_count_fault_none(info.spec_dims());
        }
    }
}

/// A value is read as elements exactly where it is a tensor of that element type in memory that the host can
/// reach, and as strings exactly where it is a tensor of strings.
pub proof fn values_are_read_as_their_type<T: TensorElement>(value: OwnedValue, memory: MemoryInfo)
    ensures
        value.read_fault::<T>(memory) is None <==> value.onnx_type is Tensor && value.elem_type
            == T::spec_elem() && memory.host_accessible,
        value.strings_read_fault() is None <==> value.onnx_type is Tensor
            && value.elem_type is String,
{
}

/// A tensor is read as elements exactly where it holds that element type in memory that the host can reach.
pub proof fn tensors_are_read_as_their_type<'a, T: DenseElement>(tensor: TensorView<'a>)
    ensures
        tensor.read_fault::<T>() is None <==> tensor.contents().spec_elem() == T::spec_elem()
            && tensor.spec_memory().host_accessible,
{
}

/// Elements have a shape exactly where it counts as many of them.
pub proof fn shapes_count_their_elements(shape: Seq<i64>, len: int, memory: MemoryInfo)
    ensures
        crate::tensor::buffer::shape_len_fault(shape, len) is None <==> crate::shape::count_fault(
            shape,
        ) is None && crate::shape::product(shape) == len,
        crate::tensor::buffer::wrap_fault(shape, len, memory) is None <==> crate::shape::count_fault(
            shape,
        ) is None && crate::shape::product(shape) == len && memory.host_accessible,
{
}

/// Packed elements have a shape exactly where their type is packed and the bytes are those that the counted
/// elements fill.
pub proof fn packed_shapes_count_their_bytes(shape: Seq<i64>, element_type: ElementType, len: int)
    ensures
        crate::tensor::buffer::packed_len_fault(shape, element_type, len) is None <==> {
            &&& crate::element::spec_packed_element_bits(element_type) is Some
            &&& crate::shape::count_fault(shape) is None
            &&& 8 * len >= crate::shape::product(shape)
                * crate::element::spec_packed_element_bits(element_type)->Some_0
            &&& 8 * len < crate::shape::product(shape)
                * crate::element::spec_packed_element_bits(element_type)->Some_0 + 8
        },
{
    if crate::shape::count_fault(shape) is None {
        crate::shape::lemma_count_fault_none(shape);
        crate::shape::lemma_product_nonnegative(shape);
        if let Some(bits) = crate::element::spec_packed_element_bits(element_type) {
            let count = crate::shape::product(shape) as nat;
            crate::element_laws::packed_elements_waste_no_byte(count, bits);
        }
    }
}

/// Every buffer of zeros holds the zero of its type as often as its shape counts, in the memory that was
/// asked for, and at an alignment that is at least the one that was asked for and the element's own. What
/// else was asked of its pages is kept.
pub proof fn zeroed_buffers_are_as_asked<T: TensorElement>(
    buffer: TensorBuffer<T>,
    shape: Seq<i64>,
    memory: MemoryInfo,
    spec: BufferSpec,
    replies: BufferReplies,
)
    requires
        TensorBuffer::<T>::zeros_outcome(Ok(buffer), shape, memory, spec, replies),
    ensures
        buffer@.len() == crate::shape::product(shape),
        forall|i: int| 0 <= i < buffer@.len() ==> (#[trigger] buffer@[i]).spec_bits() == 0,
        buffer.dims() == shape,
        buffer.spec_memory() == memory,
        memory.host_accessible,
        replies.created is Ok,
        match spec {
            BufferSpec::Host { alignment, hugepage, prefault, mlock } => {
                &&& buffer.spec_backing() matches BufferSpec::Host {
                    alignment: given,
                    hugepage: huge,
                    prefault: touched,
                    mlock: locked,
                }
                &&& given >= alignment
                &&& given >= T::spec_size()
                &&& given == alignment || given == T::spec_size()
                &&& crate::tensor::buffer::is_power_of_two(given as int)
                &&& huge == hugepage && touched == prefault && locked == mlock
                &&& mlock && buffer@.len() > 0 ==> replies.locked is Ok
            },
            other => buffer.spec_backing() == other,
        },
{
    T::bits_fill_the_bytes(T::spec_zero(), T::spec_zero());
    if spec is Host {
        assert(T::spec_size() <= 8) by {
            lemma_size(T::spec_zero());
        }
    }
}

proof fn lemma_size<T: TensorElement>(element: T)
    ensures
        1 <= T::spec_size() <= 8,
{
    T::bits_fill_the_bytes(element, element);
    if T::spec_size() > 8 {
        let large = choose|large: T| #[trigger]
            large.spec_bits() >= crate::element::byte_range((T::spec_size() - 1) as nat);
        assert(exists|large: T| #[trigger]
            large.spec_bits() >= crate::element::byte_range((T::spec_size() - 1) as nat));
        lemma_range_grows(8, (T::spec_size() - 1) as nat);
        assert(crate::element::byte_range(8) == 0x1_0000_0000_0000_0000) by {
            reveal_with_fuel(crate::element::byte_range, 9);
        }
        assert(large.spec_bits() <= u64::MAX);
    }
}

proof fn lemma_range_grows(n: nat, m: nat)
    requires
        n <= m,
    ensures
        1 <= crate::element::byte_range(n) <= crate::element::byte_range(m),
    decreases m,
{
    if n < m {
        lemma_range_grows(n, (m - 1) as nat);
    } else if n > 0 {
        lemma_range_grows((n - 1) as nat, (m - 1) as nat);
    }
}

/// A buffer is refused for the first of these that holds: a shape that counts nothing, an alignment that is
/// no power of two or a size that does not fit, pages that could not be locked where that was asked for,
/// memory that the host cannot reach, and a value that was not made. Nothing else refuses it.
pub proof fn buffers_are_refused_in_order<T: TensorElement>(
    shape: Seq<i64>,
    memory: MemoryInfo,
    spec: BufferSpec,
    replies: BufferReplies,
)
    ensures
        ({
            let refusal = TensorBuffer::<T>::zeros_refusal(shape, memory, spec, replies);
            let fault = crate::shape::count_fault(shape);
            &&& fault is Some ==> refusal == fault
            &&& fault is None ==> (spec matches BufferSpec::Host { alignment, .. }
                ==> crate::tensor::buffer::aligned_fault(
                crate::shape::product(shape),
                alignment as int,
                T::spec_size() as int,
            ) matches Some(error) ==> refusal == Some(error))
            &&& refusal is None ==> memory.host_accessible && replies.created is Ok
            &&& refusal is None && crate::shape::product(shape) > 0 ==> (
            spec matches BufferSpec::Host { mlock, .. } ==> !mlock || replies.locked is Ok)
            &&& fault is None && !(spec is Host) ==> refusal == if !memory.host_accessible {
                Some(Error::SliceMemoryNotHost { memory })
            } else if let Err(error) = replies.created {
                Some(error)
            } else {
                None
            }
        }),
{
}

/// An aligned buffer is laid out exactly at a power of two that is no less than the alignment and the size of
/// an element, where its bytes fit behind that alignment.
pub proof fn layouts_fit_behind_their_alignment(len: int, alignment: int, size: int)
    requires
        len >= 0,
        size >= 1,
    ensures
        ({
            let align = crate::tensor::buffer::effective_alignment(alignment, size);
            &&& align >= alignment && align >= size && (align == alignment || align == size)
            &&& crate::tensor::buffer::aligned_fault(len, alignment, size) is None <==> {
                &&& crate::tensor::buffer::is_power_of_two(align)
                &&& len > 0 ==> len * size <= usize::MAX && len * size + align - 1 <= isize::MAX
            }
        }),
{
}

/// A number is a power of two exactly where halving it without a remainder ends at one.
pub proof fn powers_of_two_are_doubled(n: int, k: nat)
    ensures
        crate::tensor::buffer::is_power_of_two(vstd::arithmetic::power2::pow2(k) as int),
        crate::tensor::buffer::is_power_of_two(n) ==> exists|e: nat|
            #[trigger] vstd::arithmetic::power2::pow2(e) == n,
    decreases k, n,
{
    vstd::arithmetic::power2::lemma_pow2_pos(k);
    if k > 0 {
        powers_of_two_are_doubled(0, (k - 1) as nat);
        vstd::arithmetic::power2::lemma_pow2_unfold(k);
        assert(vstd::arithmetic::power2::pow2(k) / 2 == vstd::arithmetic::power2::pow2(
            (k - 1) as nat,
        ));
    } else {
        vstd::arithmetic::power2::lemma2_to64();
    }
    if crate::tensor::buffer::is_power_of_two(n) {
        lemma_is_power(n);
    }
}

proof fn lemma_is_power(n: int)
    requires
        crate::tensor::buffer::is_power_of_two(n),
    ensures
        exists|e: nat| #[trigger] vstd::arithmetic::power2::pow2(e) == n,
    decreases n,
{
    if n == 1 {
        vstd::arithmetic::power2::lemma2_to64();
        assert(vstd::arithmetic::power2::pow2(0) == 1);
    } else {
        lemma_is_power(n / 2);
        let e = choose|e: nat| #[trigger] vstd::arithmetic::power2::pow2(e) == n / 2;
        vstd::arithmetic::power2::lemma_pow2_unfold(e + 1);
        assert(vstd::arithmetic::power2::pow2(e + 1) == n);
    }
}

/// Prefaulting touches an element of every page: consecutive touches are no page apart, and no further
/// touch would be needed between them.
pub proof fn prefaulting_touches_every_page(size: int)
    requires
        1 <= size <= 4096,
    ensures
        crate::tensor::buffer::prefault_stride(size) >= 1,
        crate::tensor::buffer::prefault_stride(size) * size <= 4096,
        (crate::tensor::buffer::prefault_stride(size) + 1) * size > 4096,
{
    let stride = 4096int / size;
    vstd::arithmetic::div_mod::lemma_fundamental_div_mod(4096, size);
    vstd::arithmetic::div_mod::lemma_mod_bound(4096, size);
    assert(stride >= 1) by (nonlinear_arith)
        requires
            stride == 4096int / size,
            1 <= size <= 4096,
    ;
    assert(stride * size <= 4096 && (stride + 1) * size > 4096) by (nonlinear_arith)
        requires
            4096 == size * stride + 4096int % size,
            0 <= 4096int % size < size,
    ;
}

/// Coordinates fit values exactly where there are none of both, one flat position for each value, or one for
/// each value and dimension.
pub proof fn coordinates_fit_their_values(values: int, rank: int, indices: int)
    requires
        0 <= values,
        0 <= rank,
        0 <= indices <= usize::MAX,
    ensures
        crate::tensor::sparse::coo_fault(values, rank, indices) is None <==> indices == values || (
        values > 0 && indices == values * rank),
{
}

/// Rows fit values exactly where every value has a column and there is one more boundary than there are rows.
pub proof fn rows_fit_their_values(values: int, dense_shape: Seq<i64>, inner: int, outer: int)
    requires
        0 <= outer <= usize::MAX,
    ensures
        crate::tensor::sparse::csr_fault(values, dense_shape, inner, outer) is None <==> {
            &&& inner == values
            &&& dense_shape.len() > 0
            &&& dense_shape[0] >= 0
            &&& outer == dense_shape[0] + 1
        },
{
}

/// A sparse tensor can be made exactly of countable shapes whose values are as many as their shape counts and
/// are no strings.
pub proof fn sparse_shapes_count_their_values<T: TensorElement>(
    values: int,
    dense_shape: Seq<i64>,
    values_shape: Seq<i64>,
)
    ensures
        crate::tensor::sparse::sparse_shapes_fault::<T>(values, dense_shape, values_shape) is None
            <==> {
            &&& crate::shape::count_fault(dense_shape) is None
            &&& crate::shape::count_fault(values_shape) is None
            &&& crate::shape::product(values_shape) == values
            &&& !(T::spec_elem() is String)
        },
{
}

/// The indices of a sparse tensor are read in the format in which it holds them, and in no other.
pub proof fn sparse_indices_have_one_format<'a, T: TensorElement>(tensor: SparseTensor<'a, T>)
    ensures
        tensor.spec_format() is Coo <==> tensor.has_indices(SparseIndicesFormat::Coo),
        tensor.spec_format() is Csrc <==> tensor.has_indices(SparseIndicesFormat::CsrInner),
        tensor.spec_format() is Csrc <==> tensor.has_indices(SparseIndicesFormat::CsrOuter),
        tensor.spec_format() is BlockSparse <==> tensor.has_indices(
            SparseIndicesFormat::BlockSparse,
        ),
        tensor.spec_format() is Coo <==> tensor.spec_indices() is Coo,
        tensor.spec_format() is Csrc <==> tensor.spec_indices() is Csr,
{
}

/// A sparse value is released exactly where it was made and could not be filled.
pub proof fn unfilled_sparse_values_are_released(replies: SparseReplies)
    ensures
        replies.failure() is None <==> replies.created is Ok && replies.filled is Ok,
        replies.failure() matches Some(failure) ==> {
            &&& failure.release <==> replies.created is Ok
            &&& if failure.release {
                replies.filled == Err::<(), Error>(failure.error)
            } else {
                replies.created == Err::<(), Error>(failure.error)
            }
        },
{
}

/// Strings can be read exactly where each of them lies in the bytes, begins where or before it ends, and is
/// text. A string ends where the next one begins, and the last with the bytes.
pub proof fn strings_lie_in_their_bytes(bytes: Seq<u8>, offsets: Seq<usize>, n: int)
    requires
        0 <= n <= offsets.len(),
    ensures
        crate::tensor::strings::strings_fault(bytes, offsets, n) is None <==> forall|i: int|
            0 <= i < n ==> {
                let end = if i + 1 < offsets.len() {
                    offsets[i + 1] as int
                } else {
                    bytes.len() as int
                };
                &&& #[trigger] offsets[i] <= end <= bytes.len()
                &&& vstd::utf8::valid_utf8(bytes.subrange(offsets[i] as int, end))
            },
    decreases n,
{
    if n > 0 {
        strings_lie_in_their_bytes(bytes, offsets, n - 1);
        assert(offsets[n - 1] == offsets[n - 1]);
    }
}

/// The bytes of strings are those of each string, one behind the other.
pub proof fn strings_are_written_one_behind_the_other(a: Seq<Seq<char>>, b: Seq<Seq<char>>)
    ensures
        crate::tensor::strings::text_bytes(a + b) == crate::tensor::strings::text_bytes(a)
            + crate::tensor::strings::text_bytes(b),
        a.len() == 1 ==> crate::tensor::strings::text_bytes(a) == vstd::utf8::encode_utf8(a[0]),
    decreases b.len(),
{
    if b.len() == 0 {
        assert(a + b =~= a);
        assert(crate::tensor::strings::text_bytes(a) + Seq::empty()
            =~= crate::tensor::strings::text_bytes(a));
    } else {
        strings_are_written_one_behind_the_other(a, b.drop_last());
        assert((a + b).drop_last() =~= a + b.drop_last());
        assert((a + b).last() == b.last());
        assert(crate::tensor::strings::text_bytes(a + b) =~= crate::tensor::strings::text_bytes(a)
            + crate::tensor::strings::text_bytes(b));
    }
    if a.len() == 1 {
        assert(a.drop_last().len() == 0);
        reveal_with_fuel(crate::tensor::strings::text_bytes, 2);
        assert(crate::tensor::strings::text_bytes(a) =~= vstd::utf8::encode_utf8(a[0]));
    }
}

/// A tensor of strings is made exactly of as many strings as its shape counts, none with a NUL, by an engine
/// that refuses neither the value nor the strings.
pub proof fn string_tensors_hold_no_nul(
    texts: Seq<Seq<char>>,
    shape: Seq<i64>,
    created: Result<(), Error>,
    filled: Result<(), Error>,
)
    ensures
        crate::tensor::strings::StringTensor::refusal(texts, shape, created, filled) is None <==> {
            &&& crate::shape::count_fault(shape) is None
            &&& crate::shape::product(shape) == texts.len()
            &&& created is Ok
            &&& filled is Ok
            &&& forall|i: int|
                0 <= i < texts.len() ==> !crate::text::has_nul(#[trigger] texts[i])
        },
{
}

/// A range of a file is mapped exactly where the file holds it, its pages can be mapped, its first element is
/// aligned, and its pages could be locked where that was asked for. A range without bytes only has to lie in
/// the file.
pub proof fn mapped_ranges_lie_in_their_file<T: TensorElement>(
    file: MappedFile<T>,
    bytes: int,
    options: MmapTensorOptions,
)
    requires
        bytes >= 0,
        file.is_mapping(options),
    ensures
        file.map_fault(bytes, options) is None <==> {
            &&& file.file_len matches Ok(len) && options.byte_offset + bytes <= len
            &&& bytes > 0 ==> {
                &&& file.page_size matches Ok(page) && options.byte_offset % (page as u64) + bytes
                    <= usize::MAX
                &&& file.address matches Ok(address) && ((address + options.byte_offset % (
                file.page_size->Ok_0 as u64)) as usize) % (T::spec_size() as usize) == 0
                &&& options.locked ==> file.locked is Ok
            }
        },
{
}

} // verus!
