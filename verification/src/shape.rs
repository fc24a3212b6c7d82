//! Tensor shapes: their element counts and their comparison.
use vstd::prelude::*;

use crate::error::{fail, Error, Fault};

verus! {

/// The dimensions of borrowed shapes.
pub open spec fn slice_shapes(shapes: Seq<&[i64]>) -> Seq<Seq<i64>> {
    Seq::new(shapes.len(), |i: int| shapes[i]@)
}

/// The dimensions of owned shapes.
pub open spec fn vec_shapes(shapes: Seq<Vec<i64>>) -> Seq<Seq<i64>> {
    Seq::new(shapes.len(), |i: int| shapes[i]@)
}

/// The product of the dimensions.
pub open spec fn product(dims: Seq<i64>) -> int
    decreases dims.len(),
{
    if dims.len() == 0 {
        1
    } else {
        product(dims.drop_last()) * dims.last()
    }
}

/// The sum of the shapes' element counts.
pub open spec fn elements(shapes: Seq<Seq<i64>>) -> int
    decreases shapes.len(),
{
    if shapes.len() == 0 {
        0
    } else {
        elements(shapes.drop_last()) + product(shapes.last())
    }
}

/// Every dimension of every shape is at least one.
pub open spec fn all_positive(shapes: Seq<Seq<i64>>) -> bool {
    forall|i: int, k: int|
        0 <= i < shapes.len() && 0 <= k < shapes[i].len() ==> #[trigger] shapes[i][k] >= 1
}

/// A product of positive dimensions is positive.
pub proof fn lemma_product_positive(dims: Seq<i64>)
    requires
        forall|k: int| 0 <= k < dims.len() ==> dims[k] >= 1,
    ensures
        product(dims) >= 1,
    decreases dims.len(),
{
    if dims.len() > 0 {
        let front = dims.drop_last();
        assert forall|k: int| 0 <= k < front.len() implies front[k] >= 1 by {
            assert(front[k] == dims[k]);
        }
        lemma_product_positive(front);
        vstd::arithmetic::mul::lemma_mul_strictly_positive(product(front), dims.last() as int);
    }
}

/// A product of dimensions that are not negative is not negative.
pub proof fn lemma_product_nonnegative(dims: Seq<i64>)
    requires
        forall|k: int| 0 <= k < dims.len() ==> dims[k] >= 0,
    ensures
        product(dims) >= 0,
    decreases dims.len(),
{
    if dims.len() > 0 {
        let front = dims.drop_last();
        assert forall|k: int| 0 <= k < front.len() implies front[k] >= 0 by {
            assert(front[k] == dims[k]);
        }
        lemma_product_nonnegative(front);
        let p = product(front);
        let d = dims.last() as int;
        assert(p * d >= 0) by (nonlinear_arith)
            requires
                p >= 0,
                d >= 0,
        ;
    }
}

/// With every dimension positive, a longer prefix has at least as many elements.
pub proof fn lemma_product_prefix(dims: Seq<i64>, n: int)
    requires
        0 <= n <= dims.len(),
        forall|k: int| 0 <= k < dims.len() ==> dims[k] >= 1,
    ensures
        1 <= product(dims.take(n)) <= product(dims),
    decreases dims.len() - n,
{
    assert forall|k: int| 0 <= k < dims.take(n).len() implies dims.take(n)[k] >= 1 by {
        assert(dims.take(n)[k] == dims[k]);
    }
    lemma_product_positive(dims.take(n));
    if n < dims.len() {
        lemma_product_prefix(dims, n + 1);
        let longer = dims.take(n + 1);
        assert(longer.drop_last() =~= dims.take(n));
        assert(longer.last() == dims[n]);
        let p = product(dims.take(n));
        let d = dims[n] as int;
        assert(p <= p * d) by (nonlinear_arith)
            requires
                p >= 1,
                d >= 1,
        ;
    } else {
        assert(dims.take(n) =~= dims);
    }
}

/// A shape is bounded by one that is at least as large in every dimension.
pub proof fn lemma_product_monotone(small: Seq<i64>, large: Seq<i64>)
    requires
        small.len() == large.len(),
        forall|k: int| 0 <= k < small.len() ==> 1 <= #[trigger] small[k] <= large[k],
    ensures
        1 <= product(small) <= product(large),
    decreases small.len(),
{
    lemma_product_positive(small);
    if small.len() > 0 {
        let fs = small.drop_last();
        let fl = large.drop_last();
        assert forall|k: int| 0 <= k < fs.len() implies 1 <= #[trigger] fs[k] <= fl[k] by {
            assert(fs[k] == small[k]);
            assert(fl[k] == large[k]);
        }
        lemma_product_monotone(fs, fl);
        assert(small[small.len() - 1] <= large[small.len() - 1]);
        vstd::arithmetic::mul::lemma_mul_inequality(product(fs), product(fl), small.last() as int);
        vstd::arithmetic::mul::lemma_mul_inequality(small.last() as int, large.last() as int, product(fl));
        vstd::arithmetic::mul::lemma_mul_is_commutative(small.last() as int, product(fl));
        vstd::arithmetic::mul::lemma_mul_is_commutative(large.last() as int, product(fl));
    }
}

/// With every dimension positive, more shapes hold at least as many elements.
pub proof fn lemma_elements_prefix(shapes: Seq<Seq<i64>>, n: int)
    requires
        0 <= n <= shapes.len(),
        all_positive(shapes),
    ensures
        n <= elements(shapes.take(n)) <= elements(shapes),
    decreases shapes.len() - n,
{
    lemma_elements_at_least(shapes.take(n));
    if n < shapes.len() {
        lemma_elements_prefix(shapes, n + 1);
        let longer = shapes.take(n + 1);
        assert(longer.drop_last() =~= shapes.take(n));
        assert(longer.last() == shapes[n]);
        lemma_product_positive(shapes[n]);
    } else {
        assert(shapes.take(n) =~= shapes);
    }
}

/// Each shape with positive dimensions holds at least one element.
pub proof fn lemma_elements_at_least(shapes: Seq<Seq<i64>>)
    requires
        all_positive(shapes),
    ensures
        elements(shapes) >= shapes.len(),
    decreases shapes.len(),
{
    if shapes.len() > 0 {
        let front = shapes.drop_last();
        assert(all_positive(front)) by {
            assert forall|i: int, k: int|
                0 <= i < front.len() && 0 <= k < front[i].len() implies #[trigger] front[i][k]
                >= 1 by {
                assert(front[i] == shapes[i]);
            }
        }
        lemma_elements_at_least(front);
        assert(shapes.last() == shapes[shapes.len() - 1]);
        lemma_product_positive(shapes.last());
    }
}

/// Shapes are bounded by ones that are at least as large in every dimension.
pub proof fn lemma_elements_monotone(small: Seq<Seq<i64>>, large: Seq<Seq<i64>>)
    requires
        small.len() == large.len(),
        forall|i: int| 0 <= i < small.len() ==> (#[trigger] small[i]).len() == large[i].len(),
        forall|i: int, k: int|
            0 <= i < small.len() && 0 <= k < small[i].len() ==> 1 <= #[trigger] small[i][k]
                <= large[i][k],
    ensures
        elements(small) <= elements(large),
    decreases small.len(),
{
    if small.len() > 0 {
        let fs = small.drop_last();
        let fl = large.drop_last();
        assert forall|i: int| 0 <= i < fs.len() implies (#[trigger] fs[i]).len()
            == fl[i].len() by {
            assert(fs[i] == small[i]);
        }
        assert forall|i: int, k: int| 0 <= i < fs.len() && 0 <= k < fs[i].len() implies 1
            <= #[trigger] fs[i][k] <= fl[i][k] by {
            assert(fs[i] == small[i] && fl[i] == large[i]);
            assert(small[i][k] <= large[i][k]);
        }
        lemma_elements_monotone(fs, fl);
        let n = small.len() - 1;
        assert(small[n].len() == large[n].len());
        assert forall|k: int| 0 <= k < small[n].len() implies 1 <= #[trigger] small[n][k]
            <= large[n][k] by {}
        lemma_product_monotone(small[n], large[n]);
    }
}

/// Whether two borrowed shapes are equal.
pub fn dims_equal(left: &[i64], right: &[i64]) -> (equal: bool)
    ensures
        equal == (left@ == right@),
{
    if left.len() != right.len() {
        return false;
    }
    let mut i: usize = 0;
    while i < left.len()
        invariant
            0 <= i <= left.len(),
            left.len() == right.len(),
            forall|k: int| 0 <= k < i ==> left@[k] == right@[k],
        decreases left.len() - i,
    {
        if left[i] != right[i] {
            return false;
        }
        i = i + 1;
    }
    assert(left@ =~= right@);
    true
}

/// A copy of owned shapes.
pub fn copy_shapes(shapes: &[Vec<i64>]) -> (copy: Vec<Vec<i64>>)
    ensures
        vec_shapes(copy@) == vec_shapes(shapes@),
{
    let mut copy: Vec<Vec<i64>> = Vec::new();
    let mut i: usize = 0;
    while i < shapes.len()
        invariant
            0 <= i <= shapes.len(),
            copy@.len() == i,
            forall|k: int| 0 <= k < i ==> (#[trigger] copy@[k])@ == shapes@[k]@,
        decreases shapes.len() - i,
    {
        copy.push(copy_dims(shapes[i].as_slice()));
        i = i + 1;
    }
    assert(vec_shapes(copy@) =~= vec_shapes(shapes@));
    copy
}

/// An owned copy of a borrowed shape.
pub fn copy_dims(dims: &[i64]) -> (copy: Vec<i64>)
    ensures
        copy@ == dims@,
{
    let mut copy: Vec<i64> = Vec::new();
    let mut i: usize = 0;
    while i < dims.len()
        invariant
            0 <= i <= dims.len(),
            copy@ == dims@.take(i as int),
        decreases dims.len() - i,
    {
        copy.push(dims[i]);
        i = i + 1;
        assert(copy@ =~= dims@.take(i as int));
    }
    assert(copy@ =~= dims@);
    copy
}

/// Whether the owned shapes are the borrowed ones, in number and in every dimension.
pub fn shapes_equal(canonical: &[Vec<i64>], requested: &[&[i64]]) -> (equal: bool)
    ensures
        equal == (vec_shapes(canonical@) == slice_shapes(requested@)),
{
    if canonical.len() != requested.len() {
        assert(vec_shapes(canonical@).len() != slice_shapes(requested@).len());
        return false;
    }
    let mut i: usize = 0;
    while i < canonical.len()
        invariant
            0 <= i <= canonical.len(),
            canonical.len() == requested.len(),
            forall|k: int| 0 <= k < i ==> canonical@[k]@ == requested@[k]@,
        decreases canonical.len() - i,
    {
        if !dims_equal(canonical[i].as_slice(), requested[i]) {
            assert(vec_shapes(canonical@)[i as int] != slice_shapes(requested@)[i as int]);
            return false;
        }
        i = i + 1;
    }
    assert(vec_shapes(canonical@) =~= slice_shapes(requested@));
    true
}

/// Why a shape has no element count, if it has none.
///
/// Dimensions are taken from the left: the first that is negative or too large, or at which the
/// count so far overflows, decides. A dimension of zero makes every later partial count zero.
pub open spec fn count_fault(dims: Seq<i64>) -> Option<Error>
    decreases dims.len(),
{
    if dims.len() == 0 {
        None
    } else {
        match count_fault(dims.drop_last()) {
            Some(error) => Some(error),
            None => if dims.last() < 0 {
                Some(Error::DynamicDimension { dimension: dims.last() })
            } else if dims.last() > usize::MAX {
                Some(Error::Fault(Fault::DimensionTooLarge))
            } else if product(dims) > usize::MAX {
                Some(Error::Fault(Fault::ElementCountOverflow))
            } else {
                None
            },
        }
    }
}

/// Dimensions that are all known.
pub open spec fn is_concrete(dims: Seq<i64>) -> bool {
    forall|k: int| 0 <= k < dims.len() ==> dims[k] >= 0
}

/// A fault on a prefix is the fault of the whole shape.
pub proof fn lemma_count_fault_prefix(dims: Seq<i64>, n: int)
    requires
        0 <= n <= dims.len(),
        count_fault(dims.take(n)) is Some,
    ensures
        count_fault(dims) == count_fault(dims.take(n)),
    decreases dims.len() - n,
{
    if n < dims.len() {
        let longer = dims.take(n + 1);
        assert(longer.drop_last() =~= dims.take(n));
        lemma_count_fault_prefix(dims, n + 1);
    } else {
        assert(dims.take(n) =~= dims);
    }
}

/// A shape without a fault is concrete and its count fits.
pub proof fn lemma_count_fault_none(dims: Seq<i64>)
    requires
        count_fault(dims) is None,
    ensures
        is_concrete(dims),
        0 <= product(dims) <= usize::MAX,
    decreases dims.len(),
{
    if dims.len() > 0 {
        lemma_count_fault_none(dims.drop_last());
        assert forall|k: int| 0 <= k < dims.len() implies dims[k] >= 0 by {
            if k < dims.len() - 1 {
                assert(dims[k] == dims.drop_last()[k]);
            }
        }
        lemma_product_nonnegative(dims);
    }
}

/// The element count of a shape, where every dimension is known and the count fits.
pub fn checked_element_count(dims: &[i64]) -> (count: Result<usize, Error>)
    ensures
        match count_fault(dims@) {
            Some(error) => count == Err::<usize, Error>(error),
            None => count == Ok::<usize, Error>(product(dims@) as usize) && 0 <= product(dims@)
                <= usize::MAX,
        },
{
    let mut count: usize = 1;
    let mut i: usize = 0;
    while i < dims.len()
        invariant
            0 <= i <= dims.len(),
            count_fault(dims@.take(i as int)) is None,
            count == product(dims@.take(i as int)),
        decreases dims.len() - i,
    {
        let dim: i64 = dims[i];
        let ghost longer = dims@.take(i + 1);
        proof {
            assert(longer.drop_last() =~= dims@.take(i as int));
            assert(longer.last() == dim);
        }
        if dim < 0 {
            proof {
                lemma_count_fault_prefix(dims@, i + 1);
            }
            return Err(Error::DynamicDimension { dimension: dim });
        }
        if dim as u64 > usize::MAX as u64 {
            proof {
                lemma_count_fault_prefix(dims@, i + 1);
            }
            return fail(Fault::DimensionTooLarge);
        }
        match count.checked_mul(dim as usize) {
            Some(next) => {
                count = next;
            },
            None => {
                proof {
                    lemma_count_fault_prefix(dims@, i + 1);
                }
                return fail(Fault::ElementCountOverflow);
            },
        }
        i = i + 1;
    }
    proof {
        assert(dims@.take(i as int) =~= dims@);
        lemma_count_fault_none(dims@);
    }
    Ok(count)
}

/// A concrete shape whose every partial count fits has the product of its dimensions as its count.
///
/// With every dimension positive the partial counts only grow, so the whole product decides.
pub proof fn positive_shape_counts(dims: Seq<i64>)
    requires
        forall|k: int| 0 <= k < dims.len() ==> 1 <= #[trigger] dims[k] <= usize::MAX,
        product(dims) <= usize::MAX,
    ensures
        count_fault(dims) is None,
    decreases dims.len(),
{
    if dims.len() > 0 {
        let front = dims.drop_last();
        assert forall|k: int| 0 <= k < front.len() implies 1 <= #[trigger] front[k] <= usize::MAX by {
            assert(front[k] == dims[k]);
        }
        lemma_product_prefix(dims, dims.len() - 1);
        assert(dims.take(dims.len() - 1) =~= front);
        positive_shape_counts(front);
    }
}

/// A shape is refused as dynamic if and only if some dimension is negative and nothing before the
/// first such dimension was refused for its size.
pub proof fn dynamic_shape_is_refused(dims: Seq<i64>, n: int)
    requires
        0 <= n < dims.len(),
        dims[n] < 0,
        count_fault(dims.take(n)) is None,
    ensures
        count_fault(dims) == Some(Error::DynamicDimension { dimension: dims[n] }),
{
    let longer = dims.take(n + 1);
    assert(longer.drop_last() =~= dims.take(n));
    assert(longer.last() == dims[n]);
    lemma_count_fault_prefix(dims, n + 1);
}

} // verus!
