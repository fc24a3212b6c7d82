//! The data of a dense tensor, whatever its element type.
use vstd::prelude::*;

use crate::element::{
    push_element_bytes, Brain16, ElementType, Float32, Float64, Half16,
    TensorElement,
};

verus! {

/// Elements that are borrowed or owned.
#[derive(Debug)]
pub enum Elements<'a, T> {
    /// The elements of somebody else.
    Borrowed(&'a [T]),
    /// Elements of one's own.
    Owned(Vec<T>),
}

impl<'a, T> View for Elements<'a, T> {
    type V = Seq<T>;

    open spec fn view(&self) -> Seq<T> {
        match self {
            Elements::Borrowed(slice) => slice@,
            Elements::Owned(values) => values@,
        }
    }
}

impl<'a, T> Elements<'a, T> {
    /// The elements.
    pub fn as_slice(&self) -> (slice: &[T])
        ensures
            slice@ == self@,
    {
        match self {
            Elements::Borrowed(slice) => slice,
            Elements::Owned(values) => values.as_slice(),
        }
    }
}

/// The data of a dense tensor.
#[derive(Debug)]
pub enum TensorData<'a> {
    Int8(Elements<'a, i8>),
    Int16(Elements<'a, i16>),
    Int32(Elements<'a, i32>),
    Int64(Elements<'a, i64>),
    Uint8(Elements<'a, u8>),
    Uint16(Elements<'a, u16>),
    Uint32(Elements<'a, u32>),
    Uint64(Elements<'a, u64>),
    Bool(Elements<'a, bool>),
    Float(Elements<'a, Float32>),
    Double(Elements<'a, Float64>),
    Float16(Elements<'a, Half16>),
    Bfloat16(Elements<'a, Brain16>),
    /// Elements of less than a byte, packed, with their type and their number.
    Packed { element_type: ElementType, count: usize, bytes: Elements<'a, u8> },
}

impl<'a> TensorData<'a> {
    /// The element type.
    pub open spec fn spec_elem(self) -> ElementType {
        match self {
            TensorData::Int8(_) => ElementType::Int8,
            TensorData::Int16(_) => ElementType::Int16,
            TensorData::Int32(_) => ElementType::Int32,
            TensorData::Int64(_) => ElementType::Int64,
            TensorData::Uint8(_) => ElementType::Uint8,
            TensorData::Uint16(_) => ElementType::Uint16,
            TensorData::Uint32(_) => ElementType::Uint32,
            TensorData::Uint64(_) => ElementType::Uint64,
            TensorData::Bool(_) => ElementType::Bool,
            TensorData::Float(_) => ElementType::Float,
            TensorData::Double(_) => ElementType::Double,
            TensorData::Float16(_) => ElementType::Float16,
            TensorData::Bfloat16(_) => ElementType::Bfloat16,
            TensorData::Packed { element_type, .. } => element_type,
        }
    }

    /// The number of elements.
    pub open spec fn spec_len(self) -> nat {
        match self {
            TensorData::Int8(elements) => elements@.len(),
            TensorData::Int16(elements) => elements@.len(),
            TensorData::Int32(elements) => elements@.len(),
            TensorData::Int64(elements) => elements@.len(),
            TensorData::Uint8(elements) => elements@.len(),
            TensorData::Uint16(elements) => elements@.len(),
            TensorData::Uint32(elements) => elements@.len(),
            TensorData::Uint64(elements) => elements@.len(),
            TensorData::Bool(elements) => elements@.len(),
            TensorData::Float(elements) => elements@.len(),
            TensorData::Double(elements) => elements@.len(),
            TensorData::Float16(elements) => elements@.len(),
            TensorData::Bfloat16(elements) => elements@.len(),
            TensorData::Packed { count, .. } => count as nat,
        }
    }

    /// The bytes, the lowest of each element first.
    pub open spec fn bytes(self) -> Seq<u8> {
        match self {
            TensorData::Int8(elements) => crate::element::element_bytes(elements@),
            TensorData::Int16(elements) => crate::element::element_bytes(elements@),
            TensorData::Int32(elements) => crate::element::element_bytes(elements@),
            TensorData::Int64(elements) => crate::element::element_bytes(elements@),
            TensorData::Uint8(elements) => crate::element::element_bytes(elements@),
            TensorData::Uint16(elements) => crate::element::element_bytes(elements@),
            TensorData::Uint32(elements) => crate::element::element_bytes(elements@),
            TensorData::Uint64(elements) => crate::element::element_bytes(elements@),
            TensorData::Bool(elements) => crate::element::element_bytes(elements@),
            TensorData::Float(elements) => crate::element::element_bytes(elements@),
            TensorData::Double(elements) => crate::element::element_bytes(elements@),
            TensorData::Float16(elements) => crate::element::element_bytes(elements@),
            TensorData::Bfloat16(elements) => crate::element::element_bytes(elements@),
            TensorData::Packed { bytes, .. } => bytes@,
        }
    }

    /// Packed elements are of a type that is packed.
    pub open spec fn wf(self) -> bool {
        self matches TensorData::Packed { element_type, count, bytes }
            ==> crate::element::spec_packed_element_bits(element_type) is Some && bytes@.len()
            == crate::element::packed_bytes(
            count as nat,
            crate::element::spec_packed_element_bits(element_type)->Some_0 as nat,
        )
    }

    /// The element type.
    pub fn elem(&self) -> (element_type: ElementType)
        ensures
            element_type == self.spec_elem(),
    {
        match self {
            TensorData::Int8(_) => ElementType::Int8,
            TensorData::Int16(_) => ElementType::Int16,
            TensorData::Int32(_) => ElementType::Int32,
            TensorData::Int64(_) => ElementType::Int64,
            TensorData::Uint8(_) => ElementType::Uint8,
            TensorData::Uint16(_) => ElementType::Uint16,
            TensorData::Uint32(_) => ElementType::Uint32,
            TensorData::Uint64(_) => ElementType::Uint64,
            TensorData::Bool(_) => ElementType::Bool,
            TensorData::Float(_) => ElementType::Float,
            TensorData::Double(_) => ElementType::Double,
            TensorData::Float16(_) => ElementType::Float16,
            TensorData::Bfloat16(_) => ElementType::Bfloat16,
            TensorData::Packed { element_type, .. } => *element_type,
        }
    }

    /// The number of elements.
    pub fn len(&self) -> (len: usize)
        ensures
            len == self.spec_len(),
    {
        match self {
            TensorData::Int8(elements) => elements.as_slice().len(),
            TensorData::Int16(elements) => elements.as_slice().len(),
            TensorData::Int32(elements) => elements.as_slice().len(),
            TensorData::Int64(elements) => elements.as_slice().len(),
            TensorData::Uint8(elements) => elements.as_slice().len(),
            TensorData::Uint16(elements) => elements.as_slice().len(),
            TensorData::Uint32(elements) => elements.as_slice().len(),
            TensorData::Uint64(elements) => elements.as_slice().len(),
            TensorData::Bool(elements) => elements.as_slice().len(),
            TensorData::Float(elements) => elements.as_slice().len(),
            TensorData::Double(elements) => elements.as_slice().len(),
            TensorData::Float16(elements) => elements.as_slice().len(),
            TensorData::Bfloat16(elements) => elements.as_slice().len(),
            TensorData::Packed { count, .. } => *count,
        }
    }

    /// The number of bytes, where it fits.
    pub fn byte_len(&self) -> (len: Option<usize>)
        ensures
            if self.bytes().len() <= usize::MAX {
                len == Some(self.bytes().len() as usize)
            } else {
                len is None
            },
    {
        match self {
            TensorData::Int8(elements) => typed_byte_len(elements.as_slice()),
            TensorData::Int16(elements) => typed_byte_len(elements.as_slice()),
            TensorData::Int32(elements) => typed_byte_len(elements.as_slice()),
            TensorData::Int64(elements) => typed_byte_len(elements.as_slice()),
            TensorData::Uint8(elements) => typed_byte_len(elements.as_slice()),
            TensorData::Uint16(elements) => typed_byte_len(elements.as_slice()),
            TensorData::Uint32(elements) => typed_byte_len(elements.as_slice()),
            TensorData::Uint64(elements) => typed_byte_len(elements.as_slice()),
            TensorData::Bool(elements) => typed_byte_len(elements.as_slice()),
            TensorData::Float(elements) => typed_byte_len(elements.as_slice()),
            TensorData::Double(elements) => typed_byte_len(elements.as_slice()),
            TensorData::Float16(elements) => typed_byte_len(elements.as_slice()),
            TensorData::Bfloat16(elements) => typed_byte_len(elements.as_slice()),
            TensorData::Packed { bytes, .. } => Some(bytes.as_slice().len()),
        }
    }

    /// The bytes, the lowest of each element first.
    pub fn to_bytes(&self) -> (bytes: Vec<u8>)
        ensures
            bytes@ == self.bytes(),
    {
        let mut out: Vec<u8> = Vec::new();
        match self {
            TensorData::Int8(elements) => push_element_bytes(&mut out, elements.as_slice()),
            TensorData::Int16(elements) => push_element_bytes(&mut out, elements.as_slice()),
            TensorData::Int32(elements) => push_element_bytes(&mut out, elements.as_slice()),
            TensorData::Int64(elements) => push_element_bytes(&mut out, elements.as_slice()),
            TensorData::Uint8(elements) => push_element_bytes(&mut out, elements.as_slice()),
            TensorData::Uint16(elements) => push_element_bytes(&mut out, elements.as_slice()),
            TensorData::Uint32(elements) => push_element_bytes(&mut out, elements.as_slice()),
            TensorData::Uint64(elements) => push_element_bytes(&mut out, elements.as_slice()),
            TensorData::Bool(elements) => push_element_bytes(&mut out, elements.as_slice()),
            TensorData::Float(elements) => push_element_bytes(&mut out, elements.as_slice()),
            TensorData::Double(elements) => push_element_bytes(&mut out, elements.as_slice()),
            TensorData::Float16(elements) => push_element_bytes(&mut out, elements.as_slice()),
            TensorData::Bfloat16(elements) => push_element_bytes(&mut out, elements.as_slice()),
            TensorData::Packed { bytes, .. } => push_element_bytes(&mut out, bytes.as_slice()),
        }
        proof {
            if self is Packed {
                packed_bytes_are_themselves(self->Packed_bytes@);
            }
            assert(out@ =~= self.bytes());
        }
        out
    }
}

fn typed_byte_len<T: TensorElement>(elements: &[T]) -> (len: Option<usize>)
    ensures
        ({
            let bytes = crate::element::element_bytes(elements@);
            if bytes.len() <= usize::MAX {
                len == Some(bytes.len() as usize)
            } else {
                len is None
            }
        }),
{
    proof {
        crate::element::element_bytes_len(elements@);
    }
    elements.len().checked_mul(T::size())
}

/// An element type that tensors of any type can hold.
pub trait DenseElement: TensorElement {
    /// The elements of a tensor, where it is of this type.
    spec fn spec_unwrap(data: TensorData) -> Option<Seq<Self>>;

    /// Elements as the data of a tensor.
    fn wrap<'a>(elements: Elements<'a, Self>) -> (data: TensorData<'a>)
        ensures
            data.wf(),
            data.spec_elem() == Self::spec_elem(),
            data.spec_len() == elements@.len(),
            Self::spec_unwrap(data) == Some(elements@),
            data.bytes() == crate::element::element_bytes(elements@),
    ;

    /// The elements of a tensor, where it is of this type.
    fn unwrap<'b>(data: &'b TensorData<'_>) -> (elements: Option<&'b [Self]>)
        ensures
            match Self::spec_unwrap(*data) {
                Some(values) => elements matches Some(slice) && slice@ == values && values.len()
                    == data.spec_len(),
                None => elements is None,
            },
            data.wf() ==> (elements is Some) == (data.spec_elem() == Self::spec_elem()),
    ;
}

impl DenseElement for i8 {
    open spec fn spec_unwrap(data: TensorData) -> Option<Seq<Self>> {
        match data {
            TensorData::Int8(elements) => Some(elements@),
            _ => None,
        }
    }

    fn wrap<'a>(elements: Elements<'a, Self>) -> (data: TensorData<'a>) {
        TensorData::Int8(elements)
    }

    fn unwrap<'b>(data: &'b TensorData<'_>) -> (elements: Option<&'b [Self]>) {
        match data {
            TensorData::Int8(elements) => Some(elements.as_slice()),
            _ => None,
        }
    }
}

impl DenseElement for i16 {
    open spec fn spec_unwrap(data: TensorData) -> Option<Seq<Self>> {
        match data {
            TensorData::Int16(elements) => Some(elements@),
            _ => None,
        }
    }

    fn wrap<'a>(elements: Elements<'a, Self>) -> (data: TensorData<'a>) {
        TensorData::Int16(elements)
    }

    fn unwrap<'b>(data: &'b TensorData<'_>) -> (elements: Option<&'b [Self]>) {
        match data {
            TensorData::Int16(elements) => Some(elements.as_slice()),
            _ => None,
        }
    }
}

impl DenseElement for i32 {
    open spec fn spec_unwrap(data: TensorData) -> Option<Seq<Self>> {
        match data {
            TensorData::Int32(elements) => Some(elements@),
            _ => None,
        }
    }

    fn wrap<'a>(elements: Elements<'a, Self>) -> (data: TensorData<'a>) {
        TensorData::Int32(elements)
    }

    fn unwrap<'b>(data: &'b TensorData<'_>) -> (elements: Option<&'b [Self]>) {
        match data {
            TensorData::Int32(elements) => Some(elements.as_slice()),
            _ => None,
        }
    }
}

impl DenseElement for i64 {
    open spec fn spec_unwrap(data: TensorData) -> Option<Seq<Self>> {
        match data {
            TensorData::Int64(elements) => Some(elements@),
            _ => None,
        }
    }

    fn wrap<'a>(elements: Elements<'a, Self>) -> (data: TensorData<'a>) {
        TensorData::Int64(elements)
    }

    fn unwrap<'b>(data: &'b TensorData<'_>) -> (elements: Option<&'b [Self]>) {
        match data {
            TensorData::Int64(elements) => Some(elements.as_slice()),
            _ => None,
        }
    }
}

impl DenseElement for u8 {
    open spec fn spec_unwrap(data: TensorData) -> Option<Seq<Self>> {
        match data {
            TensorData::Uint8(elements) => Some(elements@),
            _ => None,
        }
    }

    fn wrap<'a>(elements: Elements<'a, Self>) -> (data: TensorData<'a>) {
        TensorData::Uint8(elements)
    }

    fn unwrap<'b>(data: &'b TensorData<'_>) -> (elements: Option<&'b [Self]>) {
        match data {
            TensorData::Uint8(elements) => Some(elements.as_slice()),
            _ => None,
        }
    }
}

impl DenseElement for u16 {
    open spec fn spec_unwrap(data: TensorData) -> Option<Seq<Self>> {
        match data {
            TensorData::Uint16(elements) => Some(elements@),
            _ => None,
        }
    }

    fn wrap<'a>(elements: Elements<'a, Self>) -> (data: TensorData<'a>) {
        TensorData::Uint16(elements)
    }

    fn unwrap<'b>(data: &'b TensorData<'_>) -> (elements: Option<&'b [Self]>) {
        match data {
            TensorData::Uint16(elements) => Some(elements.as_slice()),
            _ => None,
        }
    }
}

impl DenseElement for u32 {
    open spec fn spec_unwrap(data: TensorData) -> Option<Seq<Self>> {
        match data {
            TensorData::Uint32(elements) => Some(elements@),
            _ => None,
        }
    }

    fn wrap<'a>(elements: Elements<'a, Self>) -> (data: TensorData<'a>) {
        TensorData::Uint32(elements)
    }

    fn unwrap<'b>(data: &'b TensorData<'_>) -> (elements: Option<&'b [Self]>) {
        match data {
            TensorData::Uint32(elements) => Some(elements.as_slice()),
            _ => None,
        }
    }
}

impl DenseElement for u64 {
    open spec fn spec_unwrap(data: TensorData) -> Option<Seq<Self>> {
        match data {
            TensorData::Uint64(elements) => Some(elements@),
            _ => None,
        }
    }

    fn wrap<'a>(elements: Elements<'a, Self>) -> (data: TensorData<'a>) {
        TensorData::Uint64(elements)
    }

    fn unwrap<'b>(data: &'b TensorData<'_>) -> (elements: Option<&'b [Self]>) {
        match data {
            TensorData::Uint64(elements) => Some(elements.as_slice()),
            _ => None,
        }
    }
}

impl DenseElement for bool {
    open spec fn spec_unwrap(data: TensorData) -> Option<Seq<Self>> {
        match data {
            TensorData::Bool(elements) => Some(elements@),
            _ => None,
        }
    }

    fn wrap<'a>(elements: Elements<'a, Self>) -> (data: TensorData<'a>) {
        TensorData::Bool(elements)
    }

    fn unwrap<'b>(data: &'b TensorData<'_>) -> (elements: Option<&'b [Self]>) {
        match data {
            TensorData::Bool(elements) => Some(elements.as_slice()),
            _ => None,
        }
    }
}

impl DenseElement for Float32 {
    open spec fn spec_unwrap(data: TensorData) -> Option<Seq<Self>> {
        match data {
            TensorData::Float(elements) => Some(elements@),
            _ => None,
        }
    }

    fn wrap<'a>(elements: Elements<'a, Self>) -> (data: TensorData<'a>) {
        TensorData::Float(elements)
    }

    fn unwrap<'b>(data: &'b TensorData<'_>) -> (elements: Option<&'b [Self]>) {
        match data {
            TensorData::Float(elements) => Some(elements.as_slice()),
            _ => None,
        }
    }
}

impl DenseElement for Float64 {
    open spec fn spec_unwrap(data: TensorData) -> Option<Seq<Self>> {
        match data {
            TensorData::Double(elements) => Some(elements@),
            _ => None,
        }
    }

    fn wrap<'a>(elements: Elements<'a, Self>) -> (data: TensorData<'a>) {
        TensorData::Double(elements)
    }

    fn unwrap<'b>(data: &'b TensorData<'_>) -> (elements: Option<&'b [Self]>) {
        match data {
            TensorData::Double(elements) => Some(elements.as_slice()),
            _ => None,
        }
    }
}

impl DenseElement for Half16 {
    open spec fn spec_unwrap(data: TensorData) -> Option<Seq<Self>> {
        match data {
            TensorData::Float16(elements) => Some(elements@),
            _ => None,
        }
    }

    fn wrap<'a>(elements: Elements<'a, Self>) -> (data: TensorData<'a>) {
        TensorData::Float16(elements)
    }

    fn unwrap<'b>(data: &'b TensorData<'_>) -> (elements: Option<&'b [Self]>) {
        match data {
            TensorData::Float16(elements) => Some(elements.as_slice()),
            _ => None,
        }
    }
}

impl DenseElement for Brain16 {
    open spec fn spec_unwrap(data: TensorData) -> Option<Seq<Self>> {
        match data {
            TensorData::Bfloat16(elements) => Some(elements@),
            _ => None,
        }
    }

    fn wrap<'a>(elements: Elements<'a, Self>) -> (data: TensorData<'a>) {
        TensorData::Bfloat16(elements)
    }

    fn unwrap<'b>(data: &'b TensorData<'_>) -> (elements: Option<&'b [Self]>) {
        match data {
            TensorData::Bfloat16(elements) => Some(elements.as_slice()),
            _ => None,
        }
    }
}

/// The bytes of bytes are the bytes.
pub proof fn packed_bytes_are_themselves(bytes: Seq<u8>)
    ensures
        crate::element::element_bytes(bytes) == bytes,
    decreases bytes.len(),
{
    if bytes.len() > 0 {
        packed_bytes_are_themselves(bytes.drop_last());
        let last = bytes.last();
        assert(crate::element::le_bytes(last as u64, 1) =~= seq![last]) by {
            reveal_with_fuel(crate::element::le_bytes, 2);
        }
        assert(crate::element::element_bytes(bytes) =~= bytes);
    } else {
        assert(crate::element::element_bytes(bytes) =~= bytes);
    }
}

} // verus!
