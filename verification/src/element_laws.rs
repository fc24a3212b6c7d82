//! What the bytes of elements say of them.
use vstd::prelude::*;

use crate::element::{
    byte_range, Brain16, ElementType, Float32, Float64, Half16, OnnxType, TensorElement,
};

verus! {

/// Byte number `i` of a number is its `i`-th digit to the base of 256: the lowest byte comes first.
pub proof fn bytes_are_digits(bits: u64, n: nat, i: int)
    requires
        0 <= i < n,
    ensures
        crate::element::le_bytes(bits, n).len() == n,
        crate::element::le_bytes(bits, n)[i] == (bits as int / byte_range(i as nat)) % 256,
    decreases n,
{
    crate::element::le_bytes_len(bits, n);
    if i > 0 {
        bytes_are_digits(bits / 256, (n - 1) as nat, i - 1);
        lemma_range_positive((i - 1) as nat);
        vstd::arithmetic::div_mod::lemma_div_denominator(
            bits as int,
            256,
            byte_range((i - 1) as nat),
        );
    }
}

proof fn lemma_range_positive(n: nat)
    ensures
        byte_range(n) >= 1,
    decreases n,
{
    if n > 0 {
        lemma_range_positive((n - 1) as nat);
    }
}

proof fn lemma_bytes_decide(a: u64, b: u64, n: nat)
    requires
        a < byte_range(n),
        b < byte_range(n),
        crate::element::le_bytes(a, n) == crate::element::le_bytes(b, n),
    ensures
        a == b,
    decreases n,
{
    if n > 0 {
        let x = crate::element::le_bytes(a, n);
        let y = crate::element::le_bytes(b, n);
        assert(x[0] == (a % 256) as u8);
        assert(y[0] == (b % 256) as u8);
        assert(x.skip(1) =~= crate::element::le_bytes(a / 256, (n - 1) as nat));
        assert(y.skip(1) =~= crate::element::le_bytes(b / 256, (n - 1) as nat));
        lemma_bytes_decide(a / 256, b / 256, (n - 1) as nat);
    }
}

/// Two elements of the same bytes are the same element, and every element has as many bytes as its type
/// says.
pub proof fn elements_are_their_bytes<T: TensorElement>(a: T, b: T)
    ensures
        crate::element::le_bytes(a.spec_bits(), T::spec_size()).len() == T::spec_size(),
        crate::element::le_bytes(a.spec_bits(), T::spec_size()) == crate::element::le_bytes(
            b.spec_bits(),
            T::spec_size(),
        ) ==> a == b,
{
    T::bits_fill_the_bytes(a, b);
    T::bits_fill_the_bytes(b, a);
    crate::element::le_bytes_len(a.spec_bits(), T::spec_size());
    if crate::element::le_bytes(a.spec_bits(), T::spec_size()) == crate::element::le_bytes(
        b.spec_bits(),
        T::spec_size(),
    ) {
        lemma_bytes_decide(a.spec_bits(), b.spec_bits(), T::spec_size());
    }
}

/// Elements can be read back from their bytes: no two sequences of elements have the same bytes.
pub proof fn element_bytes_are_injective<T: TensorElement>(a: Seq<T>, b: Seq<T>)
    requires
        crate::element::element_bytes(a) == crate::element::element_bytes(b),
    ensures
        a == b,
    decreases a.len(),
{
    let size = T::spec_size();
    crate::element::element_bytes_len(a);
    crate::element::element_bytes_len(b);
    if a.len() > 0 {
        T::bits_fill_the_bytes(a[0], a[0]);
    }
    if b.len() > 0 {
        T::bits_fill_the_bytes(b[0], b[0]);
    }
    assert(a.len() == b.len()) by (nonlinear_arith)
        requires
            a.len() * size == b.len() * size,
            a.len() > 0 || b.len() > 0 ==> size >= 1,
    ;
    if a.len() > 0 {
        let bytes = crate::element::element_bytes(a);
        let x = crate::element::element_bytes(a.drop_last());
        let y = crate::element::element_bytes(b.drop_last());
        crate::element::element_bytes_len(a.drop_last());
        crate::element::element_bytes_len(b.drop_last());
        crate::element::le_bytes_len(a.last().spec_bits(), size);
        crate::element::le_bytes_len(b.last().spec_bits(), size);
        assert(x =~= bytes.take(x.len() as int));
        assert(y =~= bytes.take(y.len() as int));
        assert(crate::element::le_bytes(a.last().spec_bits(), size) =~= bytes.skip(x.len() as int));
        assert(crate::element::le_bytes(b.last().spec_bits(), size) =~= bytes.skip(y.len() as int));
        element_bytes_are_injective(a.drop_last(), b.drop_last());
        elements_are_their_bytes(a.last(), b.last());
        assert(a =~= a.drop_last().push(a.last()));
        assert(b =~= b.drop_last().push(b.last()));
    } else {
        assert(a =~= b);
    }
}

/// The bytes of element number `i` stand behind those of the elements before it.
pub proof fn elements_stand_in_order<T: TensorElement>(elements: Seq<T>, i: int)
    requires
        0 <= i < elements.len(),
    ensures
        crate::element::element_bytes(elements).len() == elements.len() * T::spec_size(),
        i * T::spec_size() + T::spec_size() <= elements.len() * T::spec_size(),
        crate::element::element_bytes(elements).subrange(
            i * T::spec_size(),
            i * T::spec_size() + T::spec_size(),
        ) == crate::element::le_bytes(elements[i].spec_bits(), T::spec_size()),
    decreases elements.len(),
{
    let size = T::spec_size() as int;
    let rest = elements.drop_last();
    let bytes = crate::element::element_bytes(elements);
    crate::element::element_bytes_len(elements);
    crate::element::element_bytes_len(rest);
    crate::element::le_bytes_len(elements.last().spec_bits(), size as nat);
    assert(i * size + size <= elements.len() * size) by (nonlinear_arith)
        requires
            0 <= i < elements.len(),
            size >= 0,
    ;
    assert((elements.len() - 1) * size + size == elements.len() * size) by (nonlinear_arith);
    assert(i * size >= 0) by (nonlinear_arith)
        requires
            i >= 0,
            size >= 0,
    ;
    if i < elements.len() - 1 {
        elements_stand_in_order(rest, i);
        assert(bytes.subrange(i * size, i * size + size) =~= crate::element::element_bytes(
            rest,
        ).subrange(i * size, i * size + size));
    } else {
        assert(bytes.subrange(i * size, i * size + size) =~= crate::element::le_bytes(
            elements.last().spec_bits(),
            size as nat,
        ));
    }
}

/// The element whose bits are all zero is the zero of its type, and there is no other.
pub proof fn zero_is_all_zero_bits<T: TensorElement>(element: T)
    ensures
        element.spec_bits() == 0 <==> element == T::spec_zero(),
{
    T::bits_fill_the_bytes(element, T::spec_zero());
}

/// Integers have the bits of their two's complement, and numbers that are held as bit patterns have those.
pub proof fn numbers_have_their_bits(
    a: i8,
    b: i16,
    c: i32,
    d: i64,
    e: u8,
    f: u16,
    g: u32,
    h: u64,
)
    ensures
        a.spec_bits() == (if a < 0 { a + 0x100 } else { a as int }),
        b.spec_bits() == (if b < 0 { b + 0x1_0000 } else { b as int }),
        c.spec_bits() == (if c < 0 { c + 0x1_0000_0000 } else { c as int }),
        d.spec_bits() == (if d < 0 { d + 0x1_0000_0000_0000_0000 } else { d as int }),
        e.spec_bits() == e,
        f.spec_bits() == f,
        g.spec_bits() == g,
        h.spec_bits() == h,
        Half16(f).spec_bits() == f,
        Brain16(f).spec_bits() == f,
        Float32(g).spec_bits() == g,
        Float64(h).spec_bits() == h,
        true.spec_bits() == 1,
        false.spec_bits() == 0,
{
    assert(a < 0 ==> a as u8 as u64 == a + 0x100) by (bit_vector);
    assert(a >= 0 ==> a as u8 as u64 == a) by (bit_vector);
    assert(b < 0 ==> b as u16 as u64 == b + 0x1_0000) by (bit_vector);
    assert(b >= 0 ==> b as u16 as u64 == b) by (bit_vector);
    assert(c < 0 ==> c as u32 as u64 == c + 0x1_0000_0000) by (bit_vector);
    assert(c >= 0 ==> c as u32 as u64 == c) by (bit_vector);
    assert(d < 0 ==> d as u64 == d + 0x1_0000_0000_0000_0000) by (bit_vector);
    assert(d >= 0 ==> d as u64 == d) by (bit_vector);
}

/// Every element type is known to the engine by the name of the type that holds it, so no two are known by
/// the same.
pub proof fn element_types_are_named_after_their_holders()
    ensures
        <i8 as TensorElement>::spec_elem().spec_rust_text() == "i8"@,
        <i16 as TensorElement>::spec_elem().spec_rust_text() == "i16"@,
        <i32 as TensorElement>::spec_elem().spec_rust_text() == "i32"@,
        <i64 as TensorElement>::spec_elem().spec_rust_text() == "i64"@,
        <u8 as TensorElement>::spec_elem().spec_rust_text() == "u8"@,
        <u16 as TensorElement>::spec_elem().spec_rust_text() == "u16"@,
        <u32 as TensorElement>::spec_elem().spec_rust_text() == "u32"@,
        <u64 as TensorElement>::spec_elem().spec_rust_text() == "u64"@,
        <bool as TensorElement>::spec_elem().spec_rust_text() == "bool"@,
        <Float32 as TensorElement>::spec_elem().spec_rust_text() == "f32"@,
        <Float64 as TensorElement>::spec_elem().spec_rust_text() == "f64"@,
        <Half16 as TensorElement>::spec_elem().spec_rust_text() == "half::binary16::f16"@,
        <Brain16 as TensorElement>::spec_elem().spec_rust_text() == "half::bfloat::bf16"@,
{
}

/// Two element types of the same name are the same type.
pub proof fn element_names_are_distinct(a: ElementType, b: ElementType)
    ensures
        a.spec_text() == b.spec_text() ==> a == b,
{
    reveal_strlit("Undefined");
    reveal_strlit("Float");
    reveal_strlit("Uint8");
    reveal_strlit("Int8");
    reveal_strlit("Uint16");
    reveal_strlit("Int16");
    reveal_strlit("Int32");
    reveal_strlit("Int64");
    reveal_strlit("String");
    reveal_strlit("Bool");
    reveal_strlit("Float16");
    reveal_strlit("Double");
    reveal_strlit("Uint32");
    reveal_strlit("Uint64");
    reveal_strlit("Complex64");
    reveal_strlit("Complex128");
    reveal_strlit("Bfloat16");
    reveal_strlit("Float8E4M3FN");
    reveal_strlit("Float8E4M3FNUZ");
    reveal_strlit("Float8E5M2");
    reveal_strlit("Float8E5M2FNUZ");
    reveal_strlit("Uint4");
    reveal_strlit("Int4");
    reveal_strlit("Float4E2M1");
    reveal_strlit("Uint2");
    reveal_strlit("Int2");
    assert(a.spec_text() == b.spec_text() ==> a.spec_text().len() == b.spec_text().len());
    let x = a.spec_text();
    let y = b.spec_text();
    if x == y {
        assert(x[0] == y[0]);
        assert(x.last() == y.last());
        assert(x[1] == y[1] && x[2] == y[2] && x[3] == y[3]);
        if x.len() > 5 {
            assert(x[4] == y[4] && x[5] == y[5]);
        }
        if x.len() > 8 {
            assert(x[6] == y[6] && x[7] == y[7] && x[8] == y[8]);
        }
    }
}

/// Two kinds of the same name are the same kind.
pub proof fn kind_names_are_distinct(a: OnnxType, b: OnnxType)
    ensures
        a.spec_text() == b.spec_text() ==> a == b,
{
    reveal_strlit("Unknown");
    reveal_strlit("Tensor");
    reveal_strlit("Sequence");
    reveal_strlit("Map");
    reveal_strlit("Opaque");
    reveal_strlit("SparseTensor");
    reveal_strlit("Optional");
    if a.spec_text() == b.spec_text() {
        assert(a.spec_text()[0] == b.spec_text()[0]);
        assert(a.spec_text()[2] == b.spec_text()[2]);
    }
}

/// Packed elements fill just as many bytes as their bits need.
pub proof fn packed_elements_waste_no_byte(count: nat, bits: nat)
    ensures
        8 * crate::element::packed_bytes(count, bits) >= count * bits,
        8 * crate::element::packed_bytes(count, bits) < count * bits + 8,
{
    let all = count * bits;
    assert(8 * ((all + 7) / 8) >= all && 8 * ((all + 7) / 8) < all + 8);
}

/// The types that share bytes are those of four and of two bits, and no other.
pub proof fn packed_types_have_their_width(element_type: ElementType)
    ensures
        crate::element::spec_packed_element_bits(element_type) == Some(4nat) <==> (
        element_type is Uint4 || element_type is Int4 || element_type is Float4E2M1),
        crate::element::spec_packed_element_bits(element_type) == Some(2nat) <==> (
        element_type is Uint2 || element_type is Int2),
        crate::element::spec_packed_element_bits(element_type) matches Some(bits) ==> bits == 2
            || bits == 4,
{
}

} // verus!
