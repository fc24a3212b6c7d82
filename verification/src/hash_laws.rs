//! What the hash of shapes tells apart.
use vstd::prelude::*;

verus! {

/// The number of hashes.
spec fn hashes() -> int {
    0x1_0000_0000_0000_0000
}

/// What undoes a multiplication by the factor of a step.
spec fn inverse() -> int {
    0xce96_5057_aff6_957b
}

proof fn lemma_factor_is_undone(x: u64)
    ensures
        (x.wrapping_mul(0x100000001b3u64) as int * inverse()) % hashes() == x,
{
    let m = hashes();
    let product = x as int * 0x100000001b3;
    assert(x.wrapping_mul(0x100000001b3u64) as int == product % m);
    vstd::arithmetic::div_mod::lemma_mul_mod_noop_left(product, inverse(), m);
    let k = x as int * 887285111055;
    assert(0x100000001b3 * inverse() == 1 + 887285111055 * m);
    assert((x as int * 0x100000001b3) * inverse() == x as int * (0x100000001b3 * inverse()))
        by (nonlinear_arith);
    assert(x as int * (1 + 887285111055 * m) == m * (x as int * 887285111055) + x as int)
        by (nonlinear_arith);
    vstd::arithmetic::div_mod::lemma_mod_multiples_vanish(k, x as int, m);
    vstd::arithmetic::div_mod::lemma_small_mod(x as nat, m as nat);
}

/// A step tells apart the hashes that it starts from, and the words that it takes in.
pub proof fn steps_keep_what_differs(one: u64, other: u64, word: u64)
    requires
        one != other,
    ensures
        crate::shape_plan::hash_step(one, word) != crate::shape_plan::hash_step(other, word),
        crate::shape_plan::hash_step(word, one) != crate::shape_plan::hash_step(word, other),
{
    assert(one ^ word != other ^ word) by (bit_vector)
        requires
            one != other,
    ;
    assert(word ^ one != word ^ other) by (bit_vector)
        requires
            one != other,
    ;
    lemma_factor_is_undone(one ^ word);
    lemma_factor_is_undone(other ^ word);
    lemma_factor_is_undone(word ^ one);
    lemma_factor_is_undone(word ^ other);
}

proof fn lemma_dims_keep_what_differs(one: u64, other: u64, dims: Seq<i64>)
    requires
        one != other,
    ensures
        crate::shape_plan::hash_dims(one, dims) != crate::shape_plan::hash_dims(other, dims),
    decreases dims.len(),
{
    if dims.len() > 0 {
        lemma_dims_keep_what_differs(one, other, dims.drop_last());
        steps_keep_what_differs(
            crate::shape_plan::hash_dims(one, dims.drop_last()),
            crate::shape_plan::hash_dims(other, dims.drop_last()),
            dims.last() as u64,
        );
    }
}

proof fn lemma_dims_tell_one_apart(hash: u64, dims: Seq<i64>, k: int, dimension: i64)
    requires
        0 <= k < dims.len(),
        dims[k] != dimension,
    ensures
        crate::shape_plan::hash_dims(hash, dims) != crate::shape_plan::hash_dims(
            hash,
            dims.update(k, dimension),
        ),
    decreases dims.len(),
{
    let changed = dims.update(k, dimension);
    let front = dims.drop_last();
    if k == dims.len() - 1 {
        assert(changed.drop_last() == front);
        let old_word = dims[k];
        assert(old_word as u64 != dimension as u64) by (bit_vector)
            requires
                old_word != dimension,
        ;
        steps_keep_what_differs(
            dims.last() as u64,
            dimension as u64,
            crate::shape_plan::hash_dims(hash, front),
        );
    } else {
        assert(changed.drop_last() == front.update(k, dimension));
        lemma_dims_tell_one_apart(hash, front, k, dimension);
        steps_keep_what_differs(
            crate::shape_plan::hash_dims(hash, front),
            crate::shape_plan::hash_dims(hash, front.update(k, dimension)),
            dims.last() as u64,
        );
    }
}

proof fn lemma_shapes_tell_one_apart(
    hash: u64,
    shapes: Seq<Seq<i64>>,
    i: int,
    k: int,
    dimension: i64,
)
    requires
        0 <= i < shapes.len(),
        0 <= k < shapes[i].len(),
        shapes[i][k] != dimension,
    ensures
        crate::shape_plan::hash_shapes(hash, shapes) != crate::shape_plan::hash_shapes(
            hash,
            shapes.update(i, shapes[i].update(k, dimension)),
        ),
    decreases shapes.len(),
{
    let changed = shapes.update(i, shapes[i].update(k, dimension));
    let front = shapes.drop_last();
    let before = crate::shape_plan::hash_shapes(hash, front);
    let start = crate::shape_plan::hash_step(before, shapes.last().len() as u64);
    if i == shapes.len() - 1 {
        assert(changed.drop_last() == front);
        lemma_dims_tell_one_apart(start, shapes[i], k, dimension);
    } else {
        let front_changed = front.update(i, front[i].update(k, dimension));
        assert(changed.drop_last() == front_changed);
        lemma_shapes_tell_one_apart(hash, front, i, k, dimension);
        let other = crate::shape_plan::hash_shapes(hash, front_changed);
        let other_start = crate::shape_plan::hash_step(other, shapes.last().len() as u64);
        steps_keep_what_differs(before, other, shapes.last().len() as u64);
        lemma_dims_keep_what_differs(start, other_start, shapes.last());
    }
}

/// Shapes that differ in a single dimension have different hashes, whichever dimension it is and whatever the
/// others are.
pub proof fn hashes_tell_one_dimension_apart(
    shapes: Seq<Seq<i64>>,
    i: int,
    k: int,
    dimension: i64,
)
    requires
        0 <= i < shapes.len(),
        0 <= k < shapes[i].len(),
        shapes[i][k] != dimension,
    ensures
        crate::shape_plan::shape_hash(shapes) != crate::shape_plan::shape_hash(
            shapes.update(i, shapes[i].update(k, dimension)),
        ),
{
    let start = crate::shape_plan::hash_step(0xcbf29ce484222325, shapes.len() as u64);
    lemma_shapes_tell_one_apart(start, shapes, i, k, dimension);
}

} // verus!
