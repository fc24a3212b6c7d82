//! Element types of tensors and the kinds of values that hold them.
use vstd::prelude::*;

verus! {

/// The type of one tensor element.
#[derive(Debug, Clone, Copy, PartialEq, Eq, Structural)]
pub enum ElementType {
    Undefined,
    Float,
    Uint8,
    Int8,
    Uint16,
    Int16,
    Int32,
    Int64,
    String,
    Bool,
    Float16,
    Double,
    Uint32,
    Uint64,
    Complex64,
    Complex128,
    Bfloat16,
    Float8E4M3FN,
    Float8E4M3FNUZ,
    Float8E5M2,
    Float8E5M2FNUZ,
    Uint4,
    Int4,
    Float4E2M1,
    Uint2,
    Int2,
}

/// The kind of a value that a session takes or returns.
#[derive(Debug, Clone, Copy, PartialEq, Eq, Structural)]
pub enum OnnxType {
    Unknown,
    Tensor,
    Sequence,
    Mapping,
    Opaque,
    SparseTensor,
    Optional,
}

impl ElementType {
    /// The name of the element type.
    pub open spec fn spec_text(self) -> Seq<char> {
        match self {
            ElementType::Undefined => "Undefined"@,
            ElementType::Float => "Float"@,
            ElementType::Uint8 => "Uint8"@,
            ElementType::Int8 => "Int8"@,
            ElementType::Uint16 => "Uint16"@,
            ElementType::Int16 => "Int16"@,
            ElementType::Int32 => "Int32"@,
            ElementType::Int64 => "Int64"@,
            ElementType::String => "String"@,
            ElementType::Bool => "Bool"@,
            ElementType::Float16 => "Float16"@,
            ElementType::Double => "Double"@,
            ElementType::Uint32 => "Uint32"@,
            ElementType::Uint64 => "Uint64"@,
            ElementType::Complex64 => "Complex64"@,
            ElementType::Complex128 => "Complex128"@,
            ElementType::Bfloat16 => "Bfloat16"@,
            ElementType::Float8E4M3FN => "Float8E4M3FN"@,
            ElementType::Float8E4M3FNUZ => "Float8E4M3FNUZ"@,
            ElementType::Float8E5M2 => "Float8E5M2"@,
            ElementType::Float8E5M2FNUZ => "Float8E5M2FNUZ"@,
            ElementType::Uint4 => "Uint4"@,
            ElementType::Int4 => "Int4"@,
            ElementType::Float4E2M1 => "Float4E2M1"@,
            ElementType::Uint2 => "Uint2"@,
            ElementType::Int2 => "Int2"@,
        }
    }

    /// The name of the element type.
    pub fn text(&self) -> (text: &'static str)
        ensures
            text@ == self.spec_text(),
    {
        match self {
            ElementType::Undefined => "Undefined",
            ElementType::Float => "Float",
            ElementType::Uint8 => "Uint8",
            ElementType::Int8 => "Int8",
            ElementType::Uint16 => "Uint16",
            ElementType::Int16 => "Int16",
            ElementType::Int32 => "Int32",
            ElementType::Int64 => "Int64",
            ElementType::String => "String",
            ElementType::Bool => "Bool",
            ElementType::Float16 => "Float16",
            ElementType::Double => "Double",
            ElementType::Uint32 => "Uint32",
            ElementType::Uint64 => "Uint64",
            ElementType::Complex64 => "Complex64",
            ElementType::Complex128 => "Complex128",
            ElementType::Bfloat16 => "Bfloat16",
            ElementType::Float8E4M3FN => "Float8E4M3FN",
            ElementType::Float8E4M3FNUZ => "Float8E4M3FNUZ",
            ElementType::Float8E5M2 => "Float8E5M2",
            ElementType::Float8E5M2FNUZ => "Float8E5M2FNUZ",
            ElementType::Uint4 => "Uint4",
            ElementType::Int4 => "Int4",
            ElementType::Float4E2M1 => "Float4E2M1",
            ElementType::Uint2 => "Uint2",
            ElementType::Int2 => "Int2",
        }
    }

    /// The name of the type that holds one element in memory; of the types that none does, their
    /// own name.
    pub open spec fn spec_rust_text(self) -> Seq<char> {
        match self {
            ElementType::Float => "f32"@,
            ElementType::Double => "f64"@,
            ElementType::Int8 => "i8"@,
            ElementType::Int16 => "i16"@,
            ElementType::Int32 => "i32"@,
            ElementType::Int64 => "i64"@,
            ElementType::Uint8 => "u8"@,
            ElementType::Uint16 => "u16"@,
            ElementType::Uint32 => "u32"@,
            ElementType::Uint64 => "u64"@,
            ElementType::Bool => "bool"@,
            ElementType::Float16 => "half::binary16::f16"@,
            ElementType::Bfloat16 => "half::bfloat::bf16"@,
            other => other.spec_text(),
        }
    }

    /// The name of the type that holds one element in memory; of the types that none does, their
    /// own name.
    pub fn rust_text(&self) -> (text: &'static str)
        ensures
            text@ == self.spec_rust_text(),
    {
        match self {
            ElementType::Float => "f32",
            ElementType::Double => "f64",
            ElementType::Int8 => "i8",
            ElementType::Int16 => "i16",
            ElementType::Int32 => "i32",
            ElementType::Int64 => "i64",
            ElementType::Uint8 => "u8",
            ElementType::Uint16 => "u16",
            ElementType::Uint32 => "u32",
            ElementType::Uint64 => "u64",
            ElementType::Bool => "bool",
            ElementType::Float16 => "half::binary16::f16",
            ElementType::Bfloat16 => "half::bfloat::bf16",
            other => other.text(),
        }
    }
}

impl OnnxType {
    /// The name of the kind.
    pub open spec fn spec_text(self) -> Seq<char> {
        match self {
            OnnxType::Unknown => "Unknown"@,
            OnnxType::Tensor => "Tensor"@,
            OnnxType::Sequence => "Sequence"@,
            OnnxType::Mapping => "Map"@,
            OnnxType::Opaque => "Opaque"@,
            OnnxType::SparseTensor => "SparseTensor"@,
            OnnxType::Optional => "Optional"@,
        }
    }

    /// The name of the kind.
    pub fn text(&self) -> (text: &'static str)
        ensures
            text@ == self.spec_text(),
    {
        match self {
            OnnxType::Unknown => "Unknown",
            OnnxType::Tensor => "Tensor",
            OnnxType::Sequence => "Sequence",
            OnnxType::Mapping => "Map",
            OnnxType::Opaque => "Opaque",
            OnnxType::SparseTensor => "SparseTensor",
            OnnxType::Optional => "Optional",
        }
    }
}

/// Bits that one element takes in packed storage, for the types that share bytes.
pub open spec fn spec_packed_element_bits(element_type: ElementType) -> Option<nat> {
    match element_type {
        ElementType::Uint4 | ElementType::Int4 | ElementType::Float4E2M1 => Some(4nat),
        ElementType::Uint2 | ElementType::Int2 => Some(2nat),
        _ => None,
    }
}

/// Bits that one element takes in packed storage, for the types that share bytes.
pub fn packed_element_bits(element_type: ElementType) -> (bits: Option<usize>)
    ensures
        match spec_packed_element_bits(element_type) {
            Some(b) => bits == Some(b as usize) && (b == 2 || b == 4),
            None => bits is None,
        },
{
    match element_type {
        ElementType::Uint4 | ElementType::Int4 | ElementType::Float4E2M1 => Some(4),
        ElementType::Uint2 | ElementType::Int2 => Some(2),
        _ => None,
    }
}

/// Bytes that `count` packed elements of `bits` bits fill, the last byte rounded up.
pub open spec fn packed_bytes(count: nat, bits: nat) -> nat {
    ((count * bits + 7) / 8) as nat
}

/// Bytes that `count` packed elements of `bits` bits fill.
pub fn packed_byte_len(count: usize, bits: usize) -> (bytes: usize)
    requires
        bits == 2 || bits == 4,
    ensures
        bytes == packed_bytes(count as nat, bits as nat),
{
    if bits == 4 {
        count / 2 + count % 2
    } else {
        let whole: usize = count / 4;
        if count % 4 == 0 {
            whole
        } else {
            whole + 1
        }
    }
}

/// A single-precision number as its bit pattern.
#[derive(Debug, Clone, Copy, PartialEq, Eq, Structural)]
pub struct Float32(pub u32);

/// A double-precision number as its bit pattern.
#[derive(Debug, Clone, Copy, PartialEq, Eq, Structural)]
pub struct Float64(pub u64);

/// A half-precision number as its bit pattern.
#[derive(Debug, Clone, Copy, PartialEq, Eq, Structural)]
pub struct Half16(pub u16);

/// A brain-format half-precision number as its bit pattern.
#[derive(Debug, Clone, Copy, PartialEq, Eq, Structural)]
pub struct Brain16(pub u16);

/// A type whose values can be tensor elements.
pub trait TensorElement: Copy {
    /// The element type that the engine knows it by.
    spec fn spec_elem() -> ElementType;

    /// Bytes of one element.
    spec fn spec_size() -> nat;

    /// The element whose bytes are all zero.
    spec fn spec_zero() -> Self;

    /// The element type that the engine knows it by.
    fn elem() -> (element_type: ElementType)
        ensures
            element_type == Self::spec_elem(),
    ;

    /// Bytes of one element.
    fn size() -> (bytes: usize)
        ensures
            bytes == Self::spec_size(),
            1 <= bytes <= 8,
    ;

    /// The element whose bytes are all zero.
    fn zero() -> (value: Self)
        ensures
            value == Self::spec_zero(),
    ;

    /// The bits of an element, as an unsigned number.
    spec fn spec_bits(self) -> u64;

    /// The bits of an element, as an unsigned number.
    fn bits(self) -> (bits: u64)
        ensures
            bits == self.spec_bits(),
    ;

    /// An element is its bytes: its bits fit them, no two elements have the same bits, some element needs
    /// the last byte, and the bytes of the zero are all zero.
    proof fn bits_fill_the_bytes(a: Self, b: Self)
        ensures
            a.spec_bits() < byte_range(Self::spec_size()),
            a.spec_bits() == b.spec_bits() ==> a == b,
            Self::spec_size() >= 1,
            exists|large: Self| #[trigger]
                large.spec_bits() >= byte_range((Self::spec_size() - 1) as nat),
            Self::spec_zero().spec_bits() == 0,
    ;
}

/// How many numbers `n` bytes can hold.
pub open spec fn byte_range(n: nat) -> int
    decreases n,
{
    if n == 0 {
        1
    } else {
        256 * byte_range((n - 1) as nat)
    }
}

/// The lowest `n` bytes of a number, the lowest first.
pub open spec fn le_bytes(bits: u64, n: nat) -> Seq<u8>
    decreases n,
{
    if n == 0 {
        Seq::empty()
    } else {
        seq![(bits % 256) as u8] + le_bytes(bits / 256, (n - 1) as nat)
    }
}

/// The bytes of elements, one after the other.
pub open spec fn element_bytes<T: TensorElement>(elements: Seq<T>) -> Seq<u8>
    decreases elements.len(),
{
    if elements.len() == 0 {
        Seq::empty()
    } else {
        element_bytes(elements.drop_last()) + le_bytes(elements.last().spec_bits(), T::spec_size())
    }
}

/// The bytes of elements are as many as their sizes say.
pub proof fn element_bytes_len<T: TensorElement>(elements: Seq<T>)
    ensures
        element_bytes(elements).len() == elements.len() * T::spec_size(),
    decreases elements.len(),
{
    if elements.len() > 0 {
        element_bytes_len(elements.drop_last());
        le_bytes_len(elements.last().spec_bits(), T::spec_size());
        assert(elements.len() * T::spec_size() == (elements.len() - 1) * T::spec_size()
            + T::spec_size()) by (nonlinear_arith);
    }
}

/// So many bytes of a number are so many.
pub proof fn le_bytes_len(bits: u64, n: nat)
    ensures
        le_bytes(bits, n).len() == n,
    decreases n,
{
    if n > 0 {
        le_bytes_len(bits / 256, (n - 1) as nat);
    }
}

/// Append the bytes of elements.
pub fn push_element_bytes<T: TensorElement>(out: &mut Vec<u8>, elements: &[T])
    ensures
        final(out)@ == old(out)@ + element_bytes(elements@),
{
    let ghost before = out@;
    let mut i: usize = 0;
    assert(elements@.take(0) =~= Seq::empty());
    assert(out@ =~= before + element_bytes(elements@.take(0)));
    while i < elements.len()
        invariant
            i <= elements@.len(),
            out@ == before + element_bytes(elements@.take(i as int)),
        decreases elements@.len() - i,
    {
        let size: usize = T::size();
        let mut bits: u64 = elements[i].bits();
        let ghost all = bits;
        let ghost start = out@;
        let mut k: usize = 0;
        assert(out@ + le_bytes(bits, size as nat) =~= start + le_bytes(all, size as nat));
        while k < size
            invariant
                k <= size,
                out@ + le_bytes(bits, (size - k) as nat) == start + le_bytes(all, size as nat),
            decreases size - k,
        {
            let ghost held = out@;
            let ghost rest = bits;
            out.push((bits % 256) as u8);
            bits = bits / 256;
            k = k + 1;
            assert(out@ + le_bytes(bits, (size - k) as nat) =~= held + le_bytes(
                rest,
                (size - k + 1) as nat,
            ));
        }
        assert(out@ =~= start + le_bytes(all, size as nat));
        assert(elements@.take(i + 1).drop_last() =~= elements@.take(i as int));
        i = i + 1;
        assert(out@ =~= before + element_bytes(elements@.take(i as int)));
    }
    assert(elements@.take(i as int) =~= elements@);
}

impl TensorElement for i8 {
    open spec fn spec_elem() -> ElementType {
        ElementType::Int8
    }

    open spec fn spec_size() -> nat {
        1
    }

    open spec fn spec_zero() -> Self {
        0i8
    }

    fn elem() -> (element_type: ElementType) {
        ElementType::Int8
    }

    fn size() -> (bytes: usize) {
        1
    }

    fn zero() -> (value: Self) {
        0i8
    }

    open spec fn spec_bits(self) -> u64 {
        self as u8 as u64
    }

    fn bits(self) -> (bits: u64) {
        self as u8 as u64
    }

    proof fn bits_fill_the_bytes(a: Self, b: Self) {
        reveal_with_fuel(byte_range, 9);
        assert(a as u8 as u64 == b as u8 as u64 ==> a == b) by (bit_vector);
        let large: i8 = i8::MIN;
        assert(large < 0 ==> large as u8 as u64 >= 0x80u64) by (bit_vector);
        assert(large.spec_bits() >= byte_range(0));
        assert(0i8 as u8 as u64 == 0u64) by (bit_vector);
    }
}

impl TensorElement for i16 {
    open spec fn spec_elem() -> ElementType {
        ElementType::Int16
    }

    open spec fn spec_size() -> nat {
        2
    }

    open spec fn spec_zero() -> Self {
        0i16
    }

    fn elem() -> (element_type: ElementType) {
        ElementType::Int16
    }

    fn size() -> (bytes: usize) {
        2
    }

    fn zero() -> (value: Self) {
        0i16
    }

    open spec fn spec_bits(self) -> u64 {
        self as u16 as u64
    }

    fn bits(self) -> (bits: u64) {
        self as u16 as u64
    }

    proof fn bits_fill_the_bytes(a: Self, b: Self) {
        reveal_with_fuel(byte_range, 9);
        assert(a as u16 as u64 == b as u16 as u64 ==> a == b) by (bit_vector);
        let large: i16 = i16::MIN;
        assert(large < 0 ==> large as u16 as u64 >= 0x8000u64) by (bit_vector);
        assert(large.spec_bits() >= byte_range(1));
        assert(0i16 as u16 as u64 == 0u64) by (bit_vector);
    }
}

impl TensorElement for i32 {
    open spec fn spec_elem() -> ElementType {
        ElementType::Int32
    }

    open spec fn spec_size() -> nat {
        4
    }

    open spec fn spec_zero() -> Self {
        0i32
    }

    fn elem() -> (element_type: ElementType) {
        ElementType::Int32
    }

    fn size() -> (bytes: usize) {
        4
    }

    fn zero() -> (value: Self) {
        0i32
    }

    open spec fn spec_bits(self) -> u64 {
        self as u32 as u64
    }

    fn bits(self) -> (bits: u64) {
        self as u32 as u64
    }

    proof fn bits_fill_the_bytes(a: Self, b: Self) {
        reveal_with_fuel(byte_range, 9);
        assert(a as u32 as u64 == b as u32 as u64 ==> a == b) by (bit_vector);
        let large: i32 = i32::MIN;
        assert(large < 0 ==> large as u32 as u64 >= 0x80000000u64) by (bit_vector);
        assert(large.spec_bits() >= byte_range(3));
        assert(0i32 as u32 as u64 == 0u64) by (bit_vector);
    }
}

impl TensorElement for i64 {
    open spec fn spec_elem() -> ElementType {
        ElementType::Int64
    }

    open spec fn spec_size() -> nat {
        8
    }

    open spec fn spec_zero() -> Self {
        0i64
    }

    fn elem() -> (element_type: ElementType) {
        ElementType::Int64
    }

    fn size() -> (bytes: usize) {
        8
    }

    fn zero() -> (value: Self) {
        0i64
    }

    open spec fn spec_bits(self) -> u64 {
        self as u64
    }

    fn bits(self) -> (bits: u64) {
        self as u64
    }

    proof fn bits_fill_the_bytes(a: Self, b: Self) {
        reveal_with_fuel(byte_range, 9);
        assert(a as u64 == b as u64 ==> a == b) by (bit_vector);
        let large: i64 = i64::MIN;
        assert(large < 0 ==> large as u64 >= 0x8000000000000000u64) by (bit_vector);
        assert(large.spec_bits() >= byte_range(7));
        assert(0i64 as u64 == 0u64) by (bit_vector);
    }
}

impl TensorElement for u8 {
    open spec fn spec_elem() -> ElementType {
        ElementType::Uint8
    }

    open spec fn spec_size() -> nat {
        1
    }

    open spec fn spec_zero() -> Self {
        0u8
    }

    fn elem() -> (element_type: ElementType) {
        ElementType::Uint8
    }

    fn size() -> (bytes: usize) {
        1
    }

    fn zero() -> (value: Self) {
        0u8
    }

    open spec fn spec_bits(self) -> u64 {
        self as u64
    }

    fn bits(self) -> (bits: u64) {
        self as u64
    }

    proof fn bits_fill_the_bytes(a: Self, b: Self) {
        reveal_with_fuel(byte_range, 9);
        let large: u8 = u8::MAX;
        assert(large.spec_bits() == u8::MAX);
    }
}

impl TensorElement for u16 {
    open spec fn spec_elem() -> ElementType {
        ElementType::Uint16
    }

    open spec fn spec_size() -> nat {
        2
    }

    open spec fn spec_zero() -> Self {
        0u16
    }

    fn elem() -> (element_type: ElementType) {
        ElementType::Uint16
    }

    fn size() -> (bytes: usize) {
        2
    }

    fn zero() -> (value: Self) {
        0u16
    }

    open spec fn spec_bits(self) -> u64 {
        self as u64
    }

    fn bits(self) -> (bits: u64) {
        self as u64
    }

    proof fn bits_fill_the_bytes(a: Self, b: Self) {
        reveal_with_fuel(byte_range, 9);
        let large: u16 = u16::MAX;
        assert(large.spec_bits() == u16::MAX);
    }
}

impl TensorElement for u32 {
    open spec fn spec_elem() -> ElementType {
        ElementType::Uint32
    }

    open spec fn spec_size() -> nat {
        4
    }

    open spec fn spec_zero() -> Self {
        0u32
    }

    fn elem() -> (element_type: ElementType) {
        ElementType::Uint32
    }

    fn size() -> (bytes: usize) {
        4
    }

    fn zero() -> (value: Self) {
        0u32
    }

    open spec fn spec_bits(self) -> u64 {
        self as u64
    }

    fn bits(self) -> (bits: u64) {
        self as u64
    }

    proof fn bits_fill_the_bytes(a: Self, b: Self) {
        reveal_with_fuel(byte_range, 9);
        let large: u32 = u32::MAX;
        assert(large.spec_bits() == u32::MAX);
    }
}

impl TensorElement for u64 {
    open spec fn spec_elem() -> ElementType {
        ElementType::Uint64
    }

    open spec fn spec_size() -> nat {
        8
    }

    open spec fn spec_zero() -> Self {
        0u64
    }

    fn elem() -> (element_type: ElementType) {
        ElementType::Uint64
    }

    fn size() -> (bytes: usize) {
        8
    }

    fn zero() -> (value: Self) {
        0u64
    }

    open spec fn spec_bits(self) -> u64 {
        self
    }

    fn bits(self) -> (bits: u64) {
        self
    }

    proof fn bits_fill_the_bytes(a: Self, b: Self) {
        reveal_with_fuel(byte_range, 9);
        let large: u64 = u64::MAX;
        assert(large.spec_bits() == u64::MAX);
    }
}

impl TensorElement for bool {
    open spec fn spec_elem() -> ElementType {
        ElementType::Bool
    }

    open spec fn spec_size() -> nat {
        1
    }

    open spec fn spec_zero() -> Self {
        false
    }

    fn elem() -> (element_type: ElementType) {
        ElementType::Bool
    }

    fn size() -> (bytes: usize) {
        1
    }

    fn zero() -> (value: Self) {
        false
    }

    open spec fn spec_bits(self) -> u64 {
        if self {
            1
        } else {
            0
        }
    }

    fn bits(self) -> (bits: u64) {
        if self {
            1
        } else {
            0
        }
    }

    proof fn bits_fill_the_bytes(a: Self, b: Self) {
        reveal_with_fuel(byte_range, 2);
        let large: bool = true;
        assert(large.spec_bits() == 1);
    }
}

impl TensorElement for Float32 {
    open spec fn spec_elem() -> ElementType {
        ElementType::Float
    }

    open spec fn spec_size() -> nat {
        4
    }

    open spec fn spec_zero() -> Self {
        Float32(0)
    }

    fn elem() -> (element_type: ElementType) {
        ElementType::Float
    }

    fn size() -> (bytes: usize) {
        4
    }

    fn zero() -> (value: Self) {
        Float32(0)
    }

    open spec fn spec_bits(self) -> u64 {
        self.0 as u64
    }

    fn bits(self) -> (bits: u64) {
        self.0 as u64
    }

    proof fn bits_fill_the_bytes(a: Self, b: Self) {
        reveal_with_fuel(byte_range, 9);
        let large = Float32(u32::MAX);
        assert(large.spec_bits() == u32::MAX);
    }
}

impl TensorElement for Float64 {
    open spec fn spec_elem() -> ElementType {
        ElementType::Double
    }

    open spec fn spec_size() -> nat {
        8
    }

    open spec fn spec_zero() -> Self {
        Float64(0)
    }

    fn elem() -> (element_type: ElementType) {
        ElementType::Double
    }

    fn size() -> (bytes: usize) {
        8
    }

    fn zero() -> (value: Self) {
        Float64(0)
    }

    open spec fn spec_bits(self) -> u64 {
        self.0
    }

    fn bits(self) -> (bits: u64) {
        self.0
    }

    proof fn bits_fill_the_bytes(a: Self, b: Self) {
        reveal_with_fuel(byte_range, 9);
        let large = Float64(u64::MAX);
        assert(large.spec_bits() == u64::MAX);
    }
}

impl TensorElement for Half16 {
    open spec fn spec_elem() -> ElementType {
        ElementType::Float16
    }

    open spec fn spec_size() -> nat {
        2
    }

    open spec fn spec_zero() -> Self {
        Half16(0)
    }

    fn elem() -> (element_type: ElementType) {
        ElementType::Float16
    }

    fn size() -> (bytes: usize) {
        2
    }

    fn zero() -> (value: Self) {
        Half16(0)
    }

    open spec fn spec_bits(self) -> u64 {
        self.0 as u64
    }

    fn bits(self) -> (bits: u64) {
        self.0 as u64
    }

    proof fn bits_fill_the_bytes(a: Self, b: Self) {
        reveal_with_fuel(byte_range, 9);
        let large = Half16(u16::MAX);
        assert(large.spec_bits() == u16::MAX);
    }
}

impl TensorElement for Brain16 {
    open spec fn spec_elem() -> ElementType {
        ElementType::Bfloat16
    }

    open spec fn spec_size() -> nat {
        2
    }

    open spec fn spec_zero() -> Self {
        Brain16(0)
    }

    fn elem() -> (element_type: ElementType) {
        ElementType::Bfloat16
    }

    fn size() -> (bytes: usize) {
        2
    }

    fn zero() -> (value: Self) {
        Brain16(0)
    }

    open spec fn spec_bits(self) -> u64 {
        self.0 as u64
    }

    fn bits(self) -> (bits: u64) {
        self.0 as u64
    }

    proof fn bits_fill_the_bytes(a: Self, b: Self) {
        reveal_with_fuel(byte_range, 9);
        let large = Brain16(u16::MAX);
        assert(large.spec_bits() == u16::MAX);
    }
}

} // verus!
