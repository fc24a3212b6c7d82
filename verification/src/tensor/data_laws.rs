//! What the data of a tensor amount to.
use vstd::prelude::*;

use crate::element::{Float32, Float64, Half16, Brain16};
use crate::tensor::data::{DenseElement, TensorData};

verus! {

/// The data are read as elements of the type exactly where they are of it, one element each, and what is read
/// has the bytes of the data.
pub open spec fn reads_as<T: DenseElement>(data: TensorData) -> bool {
    &&& T::spec_unwrap(data) is Some <==> data.spec_elem() == T::spec_elem() && !(data is Packed)
    &&& T::spec_unwrap(data) matches Some(elements) ==> {
        &&& data.spec_len() == elements.len()
        &&& data.bytes() == crate::element::element_bytes(elements)
        &&& data.bytes().len() == elements.len() * T::spec_size()
    }
}

/// Data are read as elements of their own type and of no other.
pub proof fn data_are_read_as_their_type(data: TensorData)
    requires
        data.wf(),
    ensures
        reads_as::<i8>(data),
        reads_as::<i16>(data),
        reads_as::<i32>(data),
        reads_as::<i64>(data),
        reads_as::<u8>(data),
        reads_as::<u16>(data),
        reads_as::<u32>(data),
        reads_as::<u64>(data),
        reads_as::<bool>(data),
        reads_as::<Float32>(data),
        reads_as::<Float64>(data),
        reads_as::<Half16>(data),
        reads_as::<Brain16>(data),
{
    if let Some(elements) = <i8 as DenseElement>::spec_unwrap(data) {
        crate::element::element_bytes_len(elements);
    }
    if let Some(elements) = <i16 as DenseElement>::spec_unwrap(data) {
        crate::element::element_bytes_len(elements);
    }
    if let Some(elements) = <i32 as DenseElement>::spec_unwrap(data) {
        crate::element::element_bytes_len(elements);
    }
    if let Some(elements) = <i64 as DenseElement>::spec_unwrap(data) {
        crate::element::element_bytes_len(elements);
    }
    if let Some(elements) = <u8 as DenseElement>::spec_unwrap(data) {
        crate::element::element_bytes_len(elements);
    }
    if let Some(elements) = <u16 as DenseElement>::spec_unwrap(data) {
        crate::element::element_bytes_len(elements);
    }
    if let Some(elements) = <u32 as DenseElement>::spec_unwrap(data) {
        crate::element::element_bytes_len(elements);
    }
    if let Some(elements) = <u64 as DenseElement>::spec_unwrap(data) {
        crate::element::element_bytes_len(elements);
    }
    if let Some(elements) = <bool as DenseElement>::spec_unwrap(data) {
        crate::element::element_bytes_len(elements);
    }
    if let Some(elements) = <Float32 as DenseElement>::spec_unwrap(data) {
        crate::element::element_bytes_len(elements);
    }
    if let Some(elements) = <Float64 as DenseElement>::spec_unwrap(data) {
        crate::element::element_bytes_len(elements);
    }
    if let Some(elements) = <Half16 as DenseElement>::spec_unwrap(data) {
        crate::element::element_bytes_len(elements);
    }
    if let Some(elements) = <Brain16 as DenseElement>::spec_unwrap(data) {
        crate::element::element_bytes_len(elements);
    }
}

/// Packed data are read as elements of no type, and fill their bytes but for less than one.
pub proof fn packed_data_are_read_as_no_type(data: TensorData)
    requires
        data.wf(),
    ensures
        data is Packed ==> {
            &&& <i8 as DenseElement>::spec_unwrap(data) is None
            &&& <i16 as DenseElement>::spec_unwrap(data) is None
            &&& <i32 as DenseElement>::spec_unwrap(data) is None
            &&& <i64 as DenseElement>::spec_unwrap(data) is None
            &&& <u8 as DenseElement>::spec_unwrap(data) is None
            &&& <u16 as DenseElement>::spec_unwrap(data) is None
            &&& <u32 as DenseElement>::spec_unwrap(data) is None
            &&& <u64 as DenseElement>::spec_unwrap(data) is None
            &&& <bool as DenseElement>::spec_unwrap(data) is None
            &&& <Float32 as DenseElement>::spec_unwrap(data) is None
            &&& <Float64 as DenseElement>::spec_unwrap(data) is None
            &&& <Half16 as DenseElement>::spec_unwrap(data) is None
            &&& <Brain16 as DenseElement>::spec_unwrap(data) is None
        },
        data matches TensorData::Packed { element_type, count, bytes } ==> {
            &&& data.spec_elem() == element_type
            &&& data.spec_len() == count
            &&& data.bytes() == bytes@
            &&& 8 * bytes@.len() >= count * crate::element::spec_packed_element_bits(element_type)->Some_0
            &&& 8 * bytes@.len() < count * crate::element::spec_packed_element_bits(element_type)->Some_0 + 8
        },
{
}

} // verus!
