//! What counts of elements, written numbers, padding limits and serving plans amount to.
use vstd::prelude::*;

use crate::error::{Error, Fault};
use crate::ratio::PaddingRatio;
use crate::shape_plan::{
    CanonicalShape, ClassifyError, Entry, FallbackPolicy, ShapeId, ShapeKind, ShapePlanError,
};

verus! {

/// A shape of one dimension has that many elements, and the dimensions behind others multiply what those
/// count.
pub proof fn dimensions_multiply(front: Seq<i64>, back: Seq<i64>, dimension: i64)
    ensures
        crate::shape::product(seq![dimension]) == dimension,
        crate::shape::product(front + back) == crate::shape::product(front) * crate::shape::product(back),
    decreases back.len(),
{
    reveal_with_fuel(crate::shape::product, 2);
    assert(seq![dimension].drop_last() == Seq::<i64>::empty());
    assert(crate::shape::product(Seq::<i64>::empty()) == 1);
    if back.len() == 0 {
        assert(front + back == front);
        let whole = crate::shape::product(front);
        assert(whole * 1 == whole) by (nonlinear_arith);
    } else {
        dimensions_multiply(front, back.drop_last(), dimension);
        assert((front + back).drop_last() == front + back.drop_last());
        assert((front + back).last() == back.last());
        let a = crate::shape::product(front);
        let b = crate::shape::product(back.drop_last());
        let c = back.last() as int;
        assert((a * b) * c == a * (b * c)) by (nonlinear_arith);
    }
}

/// One shape has as many elements as its dimensions count, and the elements of several shapes are added.
pub proof fn shapes_are_summed(front: Seq<Seq<i64>>, back: Seq<Seq<i64>>, shape: Seq<i64>)
    ensures
        crate::shape::elements(seq![shape]) == crate::shape::product(shape),
        crate::shape::elements(front + back) == crate::shape::elements(front) + crate::shape::elements(back),
    decreases back.len(),
{
    reveal_with_fuel(crate::shape::elements, 2);
    assert(seq![shape].drop_last() == Seq::<Seq<i64>>::empty());
    if back.len() == 0 {
        assert(front + back == front);
    } else {
        shapes_are_summed(front, back.drop_last(), shape);
        assert((front + back).drop_last() == front + back.drop_last());
        assert((front + back).last() == back.last());
    }
}

/// Dimension `k` can be counted: it is a length, and what the dimensions up to it count is one too.
pub open spec fn is_counted(dims: Seq<i64>, k: int) -> bool {
    &&& 0 <= dims[k] <= usize::MAX
    &&& crate::shape::product(dims.take(k + 1)) <= usize::MAX
}

/// A shape is counted exactly where all its dimensions can be. Where one cannot be, the first such
/// dimension says why.
pub proof fn counts_are_refused_at_the_first_dimension(dims: Seq<i64>)
    ensures
        crate::shape::count_fault(dims) is None <==> forall|k: int|
            0 <= k < dims.len() ==> #[trigger] is_counted(dims, k),
        crate::shape::count_fault(dims) is Some ==> exists|k: int|
            {
                &&& 0 <= k < dims.len()
                &&& !#[trigger] is_counted(dims, k)
                &&& forall|j: int| 0 <= j < k ==> #[trigger] is_counted(dims, j)
                &&& crate::shape::count_fault(dims) == Some(
                    if dims[k] < 0 {
                        Error::DynamicDimension { dimension: dims[k] }
                    } else if dims[k] > usize::MAX {
                        Error::Fault(Fault::DimensionTooLarge)
                    } else {
                        Error::Fault(Fault::ElementCountOverflow)
                    },
                )
            },
    decreases dims.len(),
{
    if dims.len() > 0 {
        let front = dims.drop_last();
        let last: int = dims.len() - 1;
        counts_are_refused_at_the_first_dimension(front);
        assert forall|k: int| 0 <= k < last implies is_counted(front, k) == #[trigger] is_counted(dims, k) by {
            assert(front.take(k + 1) == dims.take(k + 1));
        }
        assert forall|k: int| 0 <= k < last implies #[trigger] is_counted(front, k) == is_counted(dims, k) by {
            assert(front.take(k + 1) == dims.take(k + 1));
        }
        assert(dims.take(last + 1) == dims);
        if crate::shape::count_fault(front) is Some {
            let k = choose|k: int|
                {
                    &&& 0 <= k < front.len()
                    &&& !#[trigger] is_counted(front, k)
                    &&& forall|j: int| 0 <= j < k ==> #[trigger] is_counted(front, j)
                    &&& crate::shape::count_fault(front) == Some(
                        if front[k] < 0 {
                            Error::DynamicDimension { dimension: front[k] }
                        } else if front[k] > usize::MAX {
                            Error::Fault(Fault::DimensionTooLarge)
                        } else {
                            Error::Fault(Fault::ElementCountOverflow)
                        },
                    )
                };
            assert(!is_counted(dims, k));
            assert(dims[k] == front[k]);
            assert forall|j: int| 0 <= j < k implies #[trigger] is_counted(dims, j) by {
                assert(is_counted(front, j));
            }
        } else {
            assert forall|j: int| 0 <= j < last implies #[trigger] is_counted(dims, j) by {
                assert(is_counted(front, j));
            }
            if crate::shape::count_fault(dims) is Some {
                assert(!is_counted(dims, last));
            } else {
                assert(is_counted(dims, last));
            }
        }
    }
}

/// The number that a digit stands for.
pub open spec fn digit_value(digit: char) -> int {
    if digit <= '9' {
        digit as int - '0' as int
    } else {
        10 + (digit as int - 'a' as int)
    }
}

/// The number that digits stand for.
pub open spec fn value_of(digits: Seq<char>, base: int) -> int
    decreases digits.len(),
{
    if digits.len() == 0 {
        0
    } else {
        value_of(digits.drop_last(), base) * base + digit_value(digits.last())
    }
}

/// A digit below the base.
pub open spec fn is_digit(digit: char, base: int) -> bool {
    &&& '0' <= digit <= '9' || 'a' <= digit <= 'f'
    &&& 0 <= digit_value(digit) < base
}

/// A number is written in the digits that stand for it, without zeros in front.
pub proof fn decimals_read_back(n: nat)
    ensures
        crate::text::decimal(n).len() >= 1,
        value_of(crate::text::decimal(n), 10) == n,
        forall|i: int|
            0 <= i < crate::text::decimal(n).len() ==> is_digit(#[trigger] crate::text::decimal(n)[i], 10),
        n > 0 ==> crate::text::decimal(n)[0] != '0',
    decreases n,
{
    reveal_with_fuel(value_of, 2);
    if n >= 10 {
        decimals_read_back(n / 10);
        assert(crate::text::decimal(n).drop_last() == crate::text::decimal(n / 10));
        assert forall|i: int| 0 <= i < crate::text::decimal(n).len() implies is_digit(
            #[trigger] crate::text::decimal(n)[i],
            10,
        ) by {
            if i < crate::text::decimal(n / 10).len() {
                assert(crate::text::decimal(n)[i] == crate::text::decimal(n / 10)[i]);
            }
        }
    } else {
        assert(crate::text::decimal(n).drop_last() == Seq::<char>::empty());
    }
}

/// A signed number is written as its distance from zero, behind a minus exactly where it is below it.
pub proof fn signed_decimals_read_back(i: int)
    ensures
        i >= 0 ==> value_of(crate::text::signed_decimal(i), 10) == i,
        i < 0 ==> {
            let text = crate::text::signed_decimal(i);
            &&& text.len() >= 2
            &&& text[0] == '-'
            &&& value_of(text.skip(1), 10) == -i
        },
{
    reveal_strlit("-");
    if i < 0 {
        decimals_read_back((-i) as nat);
        assert(crate::text::signed_decimal(i).skip(1) == crate::text::decimal((-i) as nat));
    } else {
        decimals_read_back(i as nat);
    }
}

/// An address is written in the hexadecimal digits that stand for it, without zeros in front.
pub proof fn hexadecimals_read_back(n: nat)
    ensures
        crate::text::hexadecimal(n).len() >= 1,
        value_of(crate::text::hexadecimal(n), 16) == n,
        forall|i: int|
            0 <= i < crate::text::hexadecimal(n).len() ==> is_digit(
                #[trigger] crate::text::hexadecimal(n)[i],
                16,
            ),
        n > 0 ==> crate::text::hexadecimal(n)[0] != '0',
    decreases n,
{
    reveal_with_fuel(value_of, 2);
    if n >= 16 {
        hexadecimals_read_back(n / 16);
        assert(crate::text::hexadecimal(n).drop_last() == crate::text::hexadecimal(n / 16));
        assert forall|i: int| 0 <= i < crate::text::hexadecimal(n).len() implies is_digit(
            #[trigger] crate::text::hexadecimal(n)[i],
            16,
        ) by {
            if i < crate::text::hexadecimal(n / 16).len() {
                assert(crate::text::hexadecimal(n)[i] == crate::text::hexadecimal(n / 16)[i]);
            }
        }
    } else {
        assert(crate::text::hexadecimal(n).drop_last() == Seq::<char>::empty());
    }
}

/// A limit is a finite number that is not below zero.
pub proof fn limits_are_finite_and_not_negative(limit: PaddingRatio)
    ensures
        limit.is_limit() <==> limit.spec_bits() < 0x7f80_0000 || limit.spec_bits() == 0x8000_0000,
{
}

/// The smallest limits count in steps of two to the power of minus 149.
pub proof fn small_limits_count_in_steps(limit: PaddingRatio, waste: int, requested: int)
    requires
        limit.spec_bits() < 0x100_0000,
    ensures
        limit.exceeded_by(waste, requested) <==> waste * vstd::arithmetic::power2::pow2(149) > requested
            * limit.spec_bits(),
{
}

/// A limit whose exponent is one larger allows twice the overhead.
pub proof fn exponents_double_the_limit(
    limit: PaddingRatio,
    double: PaddingRatio,
    waste: int,
    requested: int,
)
    requires
        0x80_0000 <= limit.spec_bits() < 0x7f00_0000,
        double.spec_bits() == limit.spec_bits() + 0x80_0000,
    ensures
        double.exceeded_by(2 * waste, requested) <==> limit.exceeded_by(waste, requested),
{
    let s = limit.scale();
    assert(double.scale() == s + 1);
    assert(double.significand() == limit.significand());
    let m = limit.significand();
    let rm = requested * m;
    if s >= 0 {
        vstd::arithmetic::power2::lemma_pow2_unfold((s + 1) as nat);
        let p = vstd::arithmetic::power2::pow2(s as nat) as int;
        let q = vstd::arithmetic::power2::pow2((s + 1) as nat) as int;
        assert(q == 2 * p);
        assert(rm * q == 2 * (rm * p)) by (nonlinear_arith)
            requires
                q == 2 * p,
        ;
        assert(double.exceeded_by(2 * waste, requested) <==> 2 * waste > rm * q);
        assert(limit.exceeded_by(waste, requested) <==> waste > rm * p);
    } else {
        vstd::arithmetic::power2::lemma_pow2_unfold((-s) as nat);
        vstd::arithmetic::power2::lemma2_to64();
        let p = vstd::arithmetic::power2::pow2((-s - 1) as nat) as int;
        let q = vstd::arithmetic::power2::pow2((-s) as nat) as int;
        assert(q == 2 * p);
        assert((2 * waste) * p == waste * q) by (nonlinear_arith)
            requires
                q == 2 * p,
        ;
        assert(limit.exceeded_by(waste, requested) <==> waste * q > rm);
        if s == -1 {
            assert(p == 1);
            assert(rm * p == rm) by (nonlinear_arith)
                requires
                    p == 1,
            ;
            assert((2 * waste) * p == 2 * waste) by (nonlinear_arith)
                requires
                    p == 1,
            ;
            assert(double.exceeded_by(2 * waste, requested) <==> 2 * waste > rm * p);
        } else {
            assert(double.exceeded_by(2 * waste, requested) <==> (2 * waste) * p > rm);
        }
    }
}

/// Whether a limit is exceeded rests on the share of the overhead alone.
pub proof fn limits_bound_the_share(limit: PaddingRatio, waste: int, requested: int, times: int)
    requires
        times > 0,
    ensures
        limit.exceeded_by(times * waste, times * requested) <==> limit.exceeded_by(waste, requested),
{
    let m = limit.significand();
    if limit.scale() >= 0 {
        let p = vstd::arithmetic::power2::pow2(limit.scale() as nat) as int;
        let bound = requested * m * p;
        assert((times * requested) * m * p == times * bound) by (nonlinear_arith)
            requires
                bound == requested * m * p,
        ;
        assert(times * waste > times * bound <==> waste > bound) by (nonlinear_arith)
            requires
                times > 0,
        ;
    } else {
        let p = vstd::arithmetic::power2::pow2((-limit.scale()) as nat) as int;
        let left = waste * p;
        let right = requested * m;
        assert((times * waste) * p == times * left) by (nonlinear_arith)
            requires
                left == waste * p,
        ;
        assert((times * requested) * m == times * right) by (nonlinear_arith)
            requires
                right == requested * m,
        ;
        assert(times * left > times * right <==> left > right) by (nonlinear_arith)
            requires
                times > 0,
        ;
    }
}

/// Every dimension is positive exactly where none is named, and the one that is named is the first that is
/// not.
pub proof fn the_first_nonpositive_dimension_is_named(dims: Seq<i64>)
    ensures
        crate::shape_plan::first_nonpositive(dims) is None <==> forall|k: int|
            0 <= k < dims.len() ==> #[trigger] dims[k] >= 1,
        crate::shape_plan::first_nonpositive(dims) is Some ==> exists|k: int|
            {
                &&& 0 <= k < dims.len()
                &&& crate::shape_plan::first_nonpositive(dims) == Some(#[trigger] dims[k])
                &&& dims[k] <= 0
                &&& forall|j: int| 0 <= j < k ==> #[trigger] dims[j] >= 1
            },
    decreases dims.len(),
{
    if dims.len() > 0 {
        let front = dims.drop_last();
        let last: int = dims.len() - 1;
        the_first_nonpositive_dimension_is_named(front);
        assert(forall|k: int| 0 <= k < last ==> #[trigger] front[k] == dims[k]);
        assert forall|k: int| 0 <= k < last implies #[trigger] dims[k] == front[k] by {}
        if crate::shape_plan::first_nonpositive(front) is Some {
            let k = choose|k: int|
                {
                    &&& 0 <= k < front.len()
                    &&& crate::shape_plan::first_nonpositive(front) == Some(#[trigger] front[k])
                    &&& front[k] <= 0
                    &&& forall|j: int| 0 <= j < k ==> #[trigger] front[j] >= 1
                };
            assert(dims[k] == front[k]);
            assert forall|j: int| 0 <= j < k implies #[trigger] dims[j] >= 1 by {
                assert(front[j] >= 1);
            }
        } else {
            assert forall|j: int| 0 <= j < last implies #[trigger] dims[j] >= 1 by {
                assert(front[j] >= 1);
            }
            assert(dims[last] == dims.last());
        }
    }
}

/// All dimensions of all shapes are positive exactly where none is named, and the one that is named is the
/// first one of the first shape with one that is not.
pub proof fn the_first_nonpositive_shape_is_named(shapes: Seq<Seq<i64>>)
    ensures
        crate::shape_plan::first_nonpositive_in(shapes) is None <==> forall|i: int, k: int|
            0 <= i < shapes.len() && 0 <= k < shapes[i].len() ==> #[trigger] shapes[i][k] >= 1,
        crate::shape_plan::first_nonpositive_in(shapes) is Some ==> exists|i: int|
            {
                &&& 0 <= i < shapes.len()
                &&& crate::shape_plan::first_nonpositive_in(shapes)
                    == crate::shape_plan::first_nonpositive(#[trigger] shapes[i])
                &&& forall|j: int, k: int|
                    0 <= j < i && 0 <= k < shapes[j].len() ==> #[trigger] shapes[j][k] >= 1
            },
    decreases shapes.len(),
{
    if shapes.len() > 0 {
        let front = shapes.drop_last();
        let last: int = shapes.len() - 1;
        the_first_nonpositive_shape_is_named(front);
        the_first_nonpositive_dimension_is_named(shapes[last]);
        assert(forall|i: int| 0 <= i < last ==> #[trigger] front[i] == shapes[i]);
        if crate::shape_plan::first_nonpositive_in(front) is Some {
            let i = choose|i: int|
                {
                    &&& 0 <= i < front.len()
                    &&& crate::shape_plan::first_nonpositive_in(front)
                        == crate::shape_plan::first_nonpositive(#[trigger] front[i])
                    &&& forall|j: int, k: int|
                        0 <= j < i && 0 <= k < front[j].len() ==> #[trigger] front[j][k] >= 1
                };
            assert(front[i] == shapes[i]);
            assert forall|j: int, k: int| 0 <= j < i && 0 <= k < shapes[j].len() implies #[trigger] shapes[j][k]
                >= 1 by {
                assert(front[j][k] >= 1);
            }
            the_first_nonpositive_dimension_is_named(shapes[i]);
            let k = choose|k: int| 0 <= k < shapes[i].len() && #[trigger] shapes[i][k] <= 0;
            assert(shapes[i][k] <= 0);
        } else {
            assert forall|j: int, k: int| 0 <= j < last && 0 <= k < shapes[j].len() implies #[trigger] shapes[j][k]
                >= 1 by {
                assert(front[j][k] >= 1);
            }
        }
    }
}

/// The shapes of a bucket are accepted exactly where it has an input and every dimension is positive. A
/// refusal says on which side the dimension stands, and the inputs come first.
pub proof fn buckets_have_inputs_and_positive_dimensions(inputs: Seq<Seq<i64>>, outputs: Seq<Seq<i64>>)
    ensures
        crate::shape_plan::shapes_fault(inputs, outputs) is None <==> {
            &&& inputs.len() > 0
            &&& forall|i: int, k: int|
                0 <= i < inputs.len() && 0 <= k < inputs[i].len() ==> #[trigger] inputs[i][k] >= 1
            &&& forall|i: int, k: int|
                0 <= i < outputs.len() && 0 <= k < outputs[i].len() ==> #[trigger] outputs[i][k] >= 1
        },
        crate::shape_plan::shapes_fault(inputs, outputs) == Some(ShapePlanError::EmptyInputSet)
            <==> inputs.len() == 0,
        crate::shape_plan::shapes_fault(inputs, outputs) matches Some(
            ShapePlanError::NonPositiveDimension { kind, dimension },
        ) ==> {
            &&& dimension <= 0
            &&& kind == ShapeKind::Input ==> exists|i: int, k: int|
                0 <= i < inputs.len() && 0 <= k < inputs[i].len() && #[trigger] inputs[i][k] == dimension
            &&& kind == ShapeKind::Output ==> exists|i: int, k: int|
                0 <= i < outputs.len() && 0 <= k < outputs[i].len() && #[trigger] outputs[i][k]
                    == dimension
            &&& kind == ShapeKind::Output ==> forall|i: int, k: int|
                0 <= i < inputs.len() && 0 <= k < inputs[i].len() ==> #[trigger] inputs[i][k] >= 1
        },
        crate::shape_plan::shapes_fault(inputs, outputs) matches Some(error) ==> error
            == ShapePlanError::EmptyInputSet || error is NonPositiveDimension,
{
    the_first_nonpositive_shape_is_named(inputs);
    the_first_nonpositive_shape_is_named(outputs);
    lemma_named_dimension_stands(inputs);
    lemma_named_dimension_stands(outputs);
}

proof fn lemma_named_dimension_stands(shapes: Seq<Seq<i64>>)
    ensures
        crate::shape_plan::first_nonpositive_in(shapes) matches Some(dimension) ==> {
            &&& dimension <= 0
            &&& exists|i: int, k: int|
                0 <= i < shapes.len() && 0 <= k < shapes[i].len() && #[trigger] shapes[i][k] == dimension
        },
{
    the_first_nonpositive_shape_is_named(shapes);
    if crate::shape_plan::first_nonpositive_in(shapes) is Some {
        let dimension = crate::shape_plan::first_nonpositive_in(shapes)->Some_0;
        let i = choose|i: int|
            {
                &&& 0 <= i < shapes.len()
                &&& crate::shape_plan::first_nonpositive_in(shapes)
                    == crate::shape_plan::first_nonpositive(#[trigger] shapes[i])
                &&& forall|j: int, k: int|
                    0 <= j < i && 0 <= k < shapes[j].len() ==> #[trigger] shapes[j][k] >= 1
            };
        the_first_nonpositive_dimension_is_named(shapes[i]);
        let k = choose|k: int| 0 <= k < shapes[i].len() && #[trigger] shapes[i][k] == dimension;
        assert(shapes[i][k] == dimension);
    }
}

/// Entry `i` can have a bucket: it has an input, its dimensions are positive, and no entry before it has the
/// same inputs.
pub open spec fn is_sealable(entries: Seq<Entry>, i: int) -> bool {
    &&& entries[i].inputs.len() > 0
    &&& forall|j: int, k: int|
        0 <= j < entries[i].inputs.len() && 0 <= k < entries[i].inputs[j].len()
            ==> #[trigger] entries[i].inputs[j][k] >= 1
    &&& forall|j: int, k: int|
        0 <= j < entries[i].outputs.len() && 0 <= k < entries[i].outputs[j].len()
            ==> #[trigger] entries[i].outputs[j][k] >= 1
    &&& forall|q: int| 0 <= q < i ==> #[trigger] entries[q].inputs != entries[i].inputs
}

/// Entries are sealed exactly where each of them can have a bucket.
pub proof fn entries_are_sealed_where_all_can_be(entries: Seq<Entry>, n: int)
    requires
        0 <= n <= entries.len(),
    ensures
        crate::shape_plan::first_entry_fault(entries, n) is None <==> forall|i: int|
            0 <= i < n ==> #[trigger] is_sealable(entries, i),
    decreases n,
{
    if n > 0 {
        let last: int = n - 1;
        entries_are_sealed_where_all_can_be(entries, last);
        buckets_have_inputs_and_positive_dimensions(entries[last].inputs, entries[last].outputs);
        let rest = crate::shape_plan::first_entry_fault(entries, last);
        let fault = crate::shape_plan::first_entry_fault(entries, n);
        assert(crate::shape_plan::entry_fault(entries, last) is None <==> is_sealable(entries, last));
        if fault is None {
            assert forall|i: int| 0 <= i < n implies #[trigger] is_sealable(entries, i) by {
                assert(i == last || i < last);
            }
        } else if rest is Some {
            let i = choose|i: int| 0 <= i < last && !#[trigger] is_sealable(entries, i);
            assert(0 <= i < n && !is_sealable(entries, i));
        }
    }
}

/// A plan is sealed exactly where it has a bucket, has no more than can be named, every entry can have a
/// bucket, and the padding limit, where it has one, is finite and not below zero.
pub proof fn plans_are_sealed_where_sound(entries: Seq<Entry>, fallback: FallbackPolicy)
    ensures
        crate::shape_plan::plan_fault(entries, fallback) is None <==> {
            &&& 1 <= entries.len() <= u32::MAX
            &&& fallback matches FallbackPolicy::PadToNearest { max_padding_waste_ratio: limit }
                ==> limit.spec_bits() < 0x7f80_0000 || limit.spec_bits() == 0x8000_0000
            &&& forall|i: int| 0 <= i < entries.len() ==> #[trigger] is_sealable(entries, i)
        },
        crate::shape_plan::plan_fault(entries, fallback) == Some(ShapePlanError::EmptyPlan)
            <==> entries.len() == 0,
        crate::shape_plan::plan_fault(entries, fallback) == Some(ShapePlanError::TooManyShapes)
            <==> entries.len() > u32::MAX,
        crate::shape_plan::plan_fault(entries, fallback) == Some(ShapePlanError::DuplicateShape)
            ==> exists|i: int, j: int|
            0 <= i < j < entries.len() && #[trigger] entries[i].inputs == #[trigger] entries[j].inputs,
        crate::shape_plan::plan_fault(entries, fallback) matches Some(
            ShapePlanError::InvalidPaddingWasteRatio(ratio),
        ) ==> fallback == (FallbackPolicy::PadToNearest { max_padding_waste_ratio: ratio }),
{
    entries_are_sealed_where_all_can_be(entries, entries.len() as int);
    lemma_entry_refusals(entries, entries.len() as int);
    match fallback {
        FallbackPolicy::PadToNearest { max_padding_waste_ratio } => {
            limits_are_finite_and_not_negative(max_padding_waste_ratio);
        },
        _ => {},
    }
}

proof fn lemma_entry_refusals(entries: Seq<Entry>, n: int)
    requires
        0 <= n <= entries.len(),
    ensures
        crate::shape_plan::first_entry_fault(entries, n) matches Some(error) ==> {
            &&& error == ShapePlanError::EmptyInputSet || error is NonPositiveDimension || error
                == ShapePlanError::DuplicateShape
            &&& error == ShapePlanError::DuplicateShape ==> exists|i: int, j: int|
                0 <= i < j < entries.len() && #[trigger] entries[i].inputs == #[trigger] entries[j].inputs
        },
    decreases n,
{
    if n > 0 {
        lemma_entry_refusals(entries, n - 1);
        buckets_have_inputs_and_positive_dimensions(entries[n - 1].inputs, entries[n - 1].outputs);
    }
}

/// Shape `i` of the plan can take the request: as many inputs of as many dimensions, each of the requested
/// ones positive and none larger than the shape's own, and a count of elements that can be held.
pub open spec fn can_take(
    buckets: Seq<CanonicalShape>,
    requested: Seq<Seq<i64>>,
    i: int,
) -> bool {
    let inputs = buckets[i].inputs();
    &&& inputs.len() == requested.len()
    &&& forall|j: int| 0 <= j < inputs.len() ==> (#[trigger] inputs[j]).len() == requested[j].len()
    &&& forall|j: int, k: int|
        0 <= j < inputs.len() && 0 <= k < inputs[j].len() ==> 1 <= requested[j][k] && requested[j][k]
            <= #[trigger] inputs[j][k]
    &&& crate::shape::elements(inputs) <= u128::MAX
}

proof fn lemma_fits_is_can_take(buckets: Seq<CanonicalShape>, requested: Seq<Seq<i64>>, i: int)
    ensures
        crate::shape_plan::fits(requested, buckets[i].inputs()) <==> can_take(buckets, requested, i),
{
    let inputs = buckets[i].inputs();
    if crate::shape_plan::fits(requested, inputs) {
        assert forall|j: int| 0 <= j < inputs.len() implies (#[trigger] inputs[j]).len()
            == requested[j].len() by {
            assert(requested[j].len() == inputs[j].len());
        }
        assert forall|j: int, k: int| 0 <= j < inputs.len() && 0 <= k < inputs[j].len() implies 1
            <= requested[j][k] && requested[j][k] <= #[trigger] inputs[j][k] by {
            assert(requested[j].len() == inputs[j].len());
            assert(1 <= requested[j][k] <= inputs[j][k]);
        }
    }
    if can_take(buckets, requested, i) {
        assert forall|j: int| 0 <= j < requested.len() implies (#[trigger] requested[j]).len()
            == inputs[j].len() by {
            assert(inputs[j].len() == requested[j].len());
        }
        assert forall|j: int, k: int| 0 <= j < requested.len() && 0 <= k < requested[j].len() implies 1
            <= #[trigger] requested[j][k] <= inputs[j][k] by {
            assert(inputs[j].len() == requested[j].len());
            assert(inputs[j][k] >= 1);
        }
    }
}

/// A request is admitted only to the shape that is its own, or, where the plan pads and has none, to the
/// smallest shape that can take it, the earliest of those where several are equally small.
pub proof fn requests_are_admitted_to_the_smallest_shape(
    buckets: Seq<CanonicalShape>,
    fallback: FallbackPolicy,
    requested: Seq<Seq<i64>>,
    id: ShapeId,
)
    requires
        crate::shape_plan::outcome(buckets, fallback, requested, Ok(id)),
    ensures
        id.index() < buckets.len(),
        buckets[id.index() as int].inputs() == requested || {
            let own = buckets[id.index() as int].inputs();
            &&& fallback is PadToNearest
            &&& can_take(buckets, requested, id.index() as int)
            &&& forall|j: int|
                0 <= j < buckets.len() ==> #[trigger] buckets[j].inputs() != requested
            &&& forall|j: int|
                0 <= j < buckets.len() && #[trigger] can_take(buckets, requested, j)
                    ==> crate::shape::elements(own) < crate::shape::elements(buckets[j].inputs()) || (
                crate::shape::elements(own) == crate::shape::elements(buckets[j].inputs())
                    && id.index() <= j)
            &&& !fallback->max_padding_waste_ratio.exceeded_by(
                crate::shape::elements(own) - crate::shape::elements(requested),
                crate::shape::elements(requested),
            )
        },
{
    let i = id.index() as int;
    if crate::shape_plan::no_exact(buckets, requested) {
        lemma_fits_is_can_take(buckets, requested, i);
        let own = buckets[i].inputs();
        assert forall|j: int| 0 <= j < buckets.len() && #[trigger] can_take(buckets, requested, j) implies crate::shape::elements(
            own,
        ) < crate::shape::elements(buckets[j].inputs()) || (crate::shape::elements(own)
            == crate::shape::elements(buckets[j].inputs()) && i <= j) by {
            lemma_fits_is_can_take(buckets, requested, j);
        }
    }
}

/// A request is refused only where the plan has no shape of its own for it: a plan that does not pad knows
/// no other, one that pads has none that can take it, or the smallest that can would waste too much.
pub proof fn requests_are_refused_for_want_of_a_shape(
    buckets: Seq<CanonicalShape>,
    fallback: FallbackPolicy,
    requested: Seq<Seq<i64>>,
    error: ClassifyError,
)
    requires
        crate::shape_plan::outcome(buckets, fallback, requested, Err(error)),
    ensures
        forall|j: int| 0 <= j < buckets.len() ==> #[trigger] buckets[j].inputs() != requested,
        error == ClassifyError::NotInPlan <==> !(fallback is PadToNearest),
        error == ClassifyError::NoFittingShape ==> forall|j: int|
            0 <= j < buckets.len() ==> !#[trigger] can_take(buckets, requested, j),
        error matches ClassifyError::PaddingWasteExceeded { waste, requested: count, maximum_ratio } ==> {
            &&& fallback == (FallbackPolicy::PadToNearest { max_padding_waste_ratio: maximum_ratio })
            &&& maximum_ratio.exceeded_by(waste as int, count as int)
            &&& count == crate::shape::elements(requested)
            &&& exists|i: int|
                {
                    &&& 0 <= i < buckets.len()
                    &&& #[trigger] can_take(buckets, requested, i)
                    &&& waste + count == crate::shape::elements(buckets[i].inputs())
                    &&& forall|j: int|
                        0 <= j < buckets.len() && #[trigger] can_take(buckets, requested, j)
                            ==> crate::shape::elements(buckets[i].inputs()) <= crate::shape::elements(
                            buckets[j].inputs(),
                        )
                }
        },
{
    match error {
        ClassifyError::NotInPlan => {},
        ClassifyError::NoFittingShape => {
            assert forall|j: int| 0 <= j < buckets.len() implies !#[trigger] can_take(
                buckets,
                requested,
                j,
            ) by {
                lemma_fits_is_can_take(buckets, requested, j);
                assert(!crate::shape_plan::fits(requested, buckets[j].inputs()));
            }
        },
        ClassifyError::PaddingWasteExceeded { waste, requested: count, maximum_ratio } => {
            let i = choose|i: int|
                #[trigger] crate::shape_plan::nearest(buckets, requested, i) && waste
                    == crate::shape::elements(buckets[i].inputs()) - crate::shape::elements(requested);
            lemma_fits_is_can_take(buckets, requested, i);
            assert(can_take(buckets, requested, i));
            assert forall|j: int| 0 <= j < buckets.len() && #[trigger] can_take(buckets, requested, j) implies crate::shape::elements(
                buckets[i].inputs(),
            ) <= crate::shape::elements(buckets[j].inputs()) by {
                lemma_fits_is_can_take(buckets, requested, j);
                assert(crate::shape_plan::fits(requested, buckets[j].inputs()));
            }
        },
    }
}

} // verus!
