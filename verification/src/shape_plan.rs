//! Finite, canonical serving-shape admission plan.
//!
//! A plan is built and sealed before serving. Exact classification looks a request up by a hash of
//! its shapes and then compares the shapes themselves, so that hash collisions cannot misroute
//! work. The default policy rejects every request that is not an exact canonical shape.
use std::collections::HashMap;

use vstd::prelude::*;

use crate::ratio::PaddingRatio;
use crate::shape::{copy_shapes, shapes_equal};
use crate::text::push_signed_decimal;

verus! {

broadcast use vstd::std_specs::hash::group_hash_axioms;

/// Opaque index of a canonical bucket within a [`ServingShapePlan`].
#[derive(Debug, Clone, Copy, PartialEq, Eq, Hash, Structural)]
pub struct ShapeId(u32);

impl ShapeId {
    /// The position of the bucket.
    pub closed spec fn index(self) -> nat {
        self.0 as nat
    }

    /// Convert this id to an index for plan and lane lookup.
    pub fn as_usize(self) -> (index: usize)
        ensures
            index == self.index(),
    {
        self.0 as usize
    }

    /// The id of the bucket at a position.
    pub fn from_index(index: usize) -> (id: ShapeId)
        requires
            index <= u32::MAX,
        ensures
            id.index() == index,
    {
        ShapeId(index as u32)
    }
}

/// Two ids of one position are equal.
pub proof fn shape_ids_are_positions(a: ShapeId, b: ShapeId)
    ensures
        a.index() == b.index() <==> a == b,
{
}

/// Deliberate output placement for one canonical bucket.
#[derive(Debug, Clone, Copy, PartialEq, Eq, Structural)]
pub enum OutputPolicy {
    /// Reusable ordinary host buffers.
    HostBuffer,
    /// CUDA-pinned host buffers for asynchronous transfers.
    CudaPinned,
    /// Reusable device-resident outputs.
    DeviceResident,
}

impl Default for OutputPolicy {
    fn default() -> (policy: OutputPolicy)
        ensures
            policy == OutputPolicy::HostBuffer,
    {
        OutputPolicy::HostBuffer
    }
}

/// One finite canonical bucket in a serving plan.
#[derive(Debug, PartialEq, Eq)]
pub struct CanonicalShape {
    id: ShapeId,
    input_shapes: Vec<Vec<i64>>,
    output_shapes: Vec<Vec<i64>>,
    output_policy: OutputPolicy,
}

impl CanonicalShape {
    /// The id of the bucket.
    pub closed spec fn spec_id(self) -> ShapeId {
        self.id
    }

    /// The dimensions of the inputs.
    pub closed spec fn inputs(self) -> Seq<Seq<i64>> {
        crate::shape::vec_shapes(self.input_shapes@)
    }

    /// The dimensions of the outputs.
    pub closed spec fn outputs(self) -> Seq<Seq<i64>> {
        crate::shape::vec_shapes(self.output_shapes@)
    }

    /// Where the outputs are placed.
    pub closed spec fn placement(self) -> OutputPolicy {
        self.output_policy
    }

    /// The other bucket has the same id, dimensions and placement.
    pub open spec fn alike(self, other: CanonicalShape) -> bool {
        &&& self.spec_id() == other.spec_id()
        &&& self.inputs() == other.inputs()
        &&& self.outputs() == other.outputs()
        &&& self.placement() == other.placement()
    }

    /// The id of the bucket.
    pub fn id(&self) -> (id: ShapeId)
        ensures
            id == self.spec_id(),
    {
        self.id
    }

    /// The dimensions of the inputs.
    pub fn input_shapes(&self) -> (shapes: &[Vec<i64>])
        ensures
            crate::shape::vec_shapes(shapes@) == self.inputs(),
    {
        self.input_shapes.as_slice()
    }

    /// The dimensions of the outputs.
    pub fn output_shapes(&self) -> (shapes: &[Vec<i64>])
        ensures
            crate::shape::vec_shapes(shapes@) == self.outputs(),
    {
        self.output_shapes.as_slice()
    }

    /// Where the outputs are placed.
    pub fn output_policy(&self) -> (policy: OutputPolicy)
        ensures
            policy == self.placement(),
    {
        self.output_policy
    }
}

/// Policy for a request that is not an exact canonical shape.
#[derive(Debug, Clone, Copy, PartialEq, Eq, Structural)]
pub enum FallbackPolicy {
    /// Reject it.
    Strict,
    /// Select the smallest component-wise fitting bucket, provided its padding overhead does not
    /// exceed the ratio.
    PadToNearest { max_padding_waste_ratio: PaddingRatio },
    /// Signal that the caller should use a separate fallback session.
    FallbackSession,
}

impl Default for FallbackPolicy {
    fn default() -> (policy: FallbackPolicy)
        ensures
            policy == FallbackPolicy::Strict,
    {
        FallbackPolicy::Strict
    }
}

/// Classification failure.
#[derive(Debug, Clone, Copy, PartialEq, Eq, Structural)]
pub enum ClassifyError {
    NotInPlan,
    NoFittingShape,
    PaddingWasteExceeded { waste: u128, requested: u128, maximum_ratio: PaddingRatio },
}

impl ClassifyError {
    /// The text of this failure.
    pub open spec fn spec_text(self) -> Seq<char> {
        match self {
            ClassifyError::NotInPlan => "shape is not in the sealed serving plan"@,
            ClassifyError::NoFittingShape => "no canonical serving shape fits the request"@,
            ClassifyError::PaddingWasteExceeded { .. } =>
                "nearest serving shape padding waste exceeds limit"@,
        }
    }

    /// The text of this failure.
    pub fn text(&self) -> (text: &'static str)
        ensures
            text@ == self.spec_text(),
    {
        match self {
            ClassifyError::NotInPlan => "shape is not in the sealed serving plan",
            ClassifyError::NoFittingShape => "no canonical serving shape fits the request",
            ClassifyError::PaddingWasteExceeded { .. } =>
                "nearest serving shape padding waste exceeds limit",
        }
    }

    /// The text of this failure with its numbers, which are fractions and come written out.
    pub open spec fn spec_numbered_text(self, waste: Seq<char>, limit: Seq<char>) -> Seq<char> {
        match self {
            ClassifyError::PaddingWasteExceeded { .. } => "nearest serving shape padding waste "@
                + waste + " exceeds limit "@ + limit,
            other => other.spec_text(),
        }
    }

    /// The text of this failure with its numbers, which are fractions and come written out.
    pub fn numbered_text(&self, waste: &str, limit: &str) -> (text: String)
        ensures
            text@ == self.spec_numbered_text(waste@, limit@),
    {
        let mut out = String::new();
        match self {
            ClassifyError::PaddingWasteExceeded { .. } => {
                out.append("nearest serving shape padding waste ");
                out.append(waste);
                out.append(" exceeds limit ");
                out.append(limit);
            },
            other => {
                out.append(other.text());
            },
        }
        assert(out@ =~= self.spec_numbered_text(waste@, limit@));
        out
    }
}

/// Which shapes of a bucket a fault is about.
#[derive(Debug, Clone, Copy, PartialEq, Eq, Structural)]
pub enum ShapeKind {
    Input,
    Output,
}

/// Error while constructing an invalid serving plan.
#[derive(Debug, Clone, Copy, PartialEq, Eq, Structural)]
pub enum ShapePlanError {
    EmptyPlan,
    EmptyInputSet,
    NonPositiveDimension { kind: ShapeKind, dimension: i64 },
    DuplicateShape,
    TooManyShapes,
    InvalidPaddingWasteRatio(PaddingRatio),
}

impl ShapePlanError {
    /// The text of this failure.
    pub open spec fn spec_message(self) -> Seq<char> {
        match self {
            ShapePlanError::EmptyPlan => "serving shape plan must contain at least one bucket"@,
            ShapePlanError::EmptyInputSet => "canonical bucket must contain at least one input"@,
            ShapePlanError::NonPositiveDimension { kind, dimension } => {
                "canonical "@ + (match kind {
                    ShapeKind::Input => "input"@,
                    ShapeKind::Output => "output"@,
                }) + " dimension must be positive, got "@ + crate::text::signed_decimal(
                    dimension as int,
                )
            },
            ShapePlanError::DuplicateShape => "duplicate canonical input shape"@,
            ShapePlanError::TooManyShapes => "serving shape plan exceeds u32::MAX buckets"@,
            ShapePlanError::InvalidPaddingWasteRatio(_) =>
                "max_padding_waste_ratio must be finite and non-negative"@,
        }
    }

    /// The text of this failure.
    pub fn message(&self) -> (text: String)
        ensures
            text@ == self.spec_message(),
    {
        let mut out = String::new();
        match self {
            ShapePlanError::EmptyPlan => {
                out.append("serving shape plan must contain at least one bucket");
            },
            ShapePlanError::EmptyInputSet => {
                out.append("canonical bucket must contain at least one input");
            },
            ShapePlanError::NonPositiveDimension { kind, dimension } => {
                out.append("canonical ");
                out.append(
                    match kind {
                        ShapeKind::Input => "input",
                        ShapeKind::Output => "output",
                    },
                );
                out.append(" dimension must be positive, got ");
                push_signed_decimal(&mut out, *dimension);
            },
            ShapePlanError::DuplicateShape => {
                out.append("duplicate canonical input shape");
            },
            ShapePlanError::TooManyShapes => {
                out.append("serving shape plan exceeds u32::MAX buckets");
            },
            ShapePlanError::InvalidPaddingWasteRatio(_) => {
                out.append("max_padding_waste_ratio must be finite and non-negative");
            },
        }
        assert(out@ =~= self.spec_message());
        out
    }

    /// The text of this failure with the ratio, which comes written out.
    pub open spec fn spec_numbered_message(self, ratio: Seq<char>) -> Seq<char> {
        match self {
            ShapePlanError::InvalidPaddingWasteRatio(_) => self.spec_message() + ", got "@ + ratio,
            other => other.spec_message(),
        }
    }

    /// The text of this failure with the ratio, which comes written out.
    pub fn numbered_message(&self, ratio: &str) -> (text: String)
        ensures
            text@ == self.spec_numbered_message(ratio@),
    {
        let mut out = self.message();
        match self {
            ShapePlanError::InvalidPaddingWasteRatio(_) => {
                out.append(", got ");
                out.append(ratio);
            },
            _ => {},
        }
        assert(out@ =~= self.spec_numbered_message(ratio@));
        out
    }
}

/// One step of the hash over shapes.
pub open spec fn hash_step(hash: u64, word: u64) -> u64 {
    (hash ^ word).wrapping_mul(0x100000001b3u64)
}

/// The hash after the dimensions of one shape.
pub open spec fn hash_dims(hash: u64, dims: Seq<i64>) -> u64
    decreases dims.len(),
{
    if dims.len() == 0 {
        hash
    } else {
        hash_step(hash_dims(hash, dims.drop_last()), dims.last() as u64)
    }
}

/// The hash after the lengths and dimensions of the shapes.
pub open spec fn hash_shapes(hash: u64, shapes: Seq<Seq<i64>>) -> u64
    decreases shapes.len(),
{
    if shapes.len() == 0 {
        hash
    } else {
        let before = hash_shapes(hash, shapes.drop_last());
        hash_dims(hash_step(before, shapes.last().len() as u64), shapes.last())
    }
}

/// The hash that a plan looks shapes up by.
pub open spec fn shape_hash(shapes: Seq<Seq<i64>>) -> u64 {
    hash_shapes(hash_step(0xcbf29ce484222325, shapes.len() as u64), shapes)
}

/// A hash of shapes.
#[derive(Debug, Clone, Copy, PartialEq, Eq, Hash, Structural)]
pub struct ShapeHash(u64);

impl ShapeHash {
    /// The hash.
    pub closed spec fn value(self) -> u64 {
        self.0
    }

    /// The hash of borrowed shapes.
    pub fn from_slices(shapes: &[&[i64]]) -> (hash: ShapeHash)
        ensures
            hash.value() == shape_hash(crate::shape::slice_shapes(shapes@)),
    {
        let ghost all = crate::shape::slice_shapes(shapes@);
        let mut hash: u64 = (0xcbf29ce484222325u64 ^ shapes.len() as u64).wrapping_mul(
            0x100000001b3u64,
        );
        let ghost seed = hash;
        let mut i: usize = 0;
        while i < shapes.len()
            invariant
                0 <= i <= shapes.len(),
                all == crate::shape::slice_shapes(shapes@),
                hash == hash_shapes(seed, all.take(i as int)),
            decreases shapes.len() - i,
        {
            let shape: &[i64] = shapes[i];
            let ghost before = hash;
            hash = (hash ^ shape.len() as u64).wrapping_mul(0x100000001b3u64);
            let ghost start = hash;
            let mut k: usize = 0;
            while k < shape.len()
                invariant
                    0 <= k <= shape.len(),
                    hash == hash_dims(start, shape@.take(k as int)),
                decreases shape.len() - k,
            {
                let dim: i64 = shape[k];
                proof {
                    assert(shape@.take(k + 1).drop_last() =~= shape@.take(k as int));
                }
                hash = (hash ^ dim as u64).wrapping_mul(0x100000001b3u64);
                k = k + 1;
            }
            proof {
                assert(shape@.take(k as int) =~= shape@);
                assert(all.take(i + 1).drop_last() =~= all.take(i as int));
                assert(all.take(i + 1).last() == shape@);
            }
            i = i + 1;
        }
        assert(all.take(i as int) =~= all);
        ShapeHash(hash)
    }
}

/// The first dimension below one.
pub open spec fn first_nonpositive(dims: Seq<i64>) -> Option<i64>
    decreases dims.len(),
{
    if dims.len() == 0 {
        None
    } else {
        match first_nonpositive(dims.drop_last()) {
            Some(dimension) => Some(dimension),
            None => if dims.last() <= 0 {
                Some(dims.last())
            } else {
                None
            },
        }
    }
}

/// The first dimension below one in any of the shapes.
pub open spec fn first_nonpositive_in(shapes: Seq<Seq<i64>>) -> Option<i64>
    decreases shapes.len(),
{
    if shapes.len() == 0 {
        None
    } else {
        match first_nonpositive_in(shapes.drop_last()) {
            Some(dimension) => Some(dimension),
            None => first_nonpositive(shapes.last()),
        }
    }
}

/// Why the shapes cannot be those of a canonical bucket.
pub open spec fn shapes_fault(inputs: Seq<Seq<i64>>, outputs: Seq<Seq<i64>>) -> Option<
    ShapePlanError,
> {
    if inputs.len() == 0 {
        Some(ShapePlanError::EmptyInputSet)
    } else {
        match (first_nonpositive_in(inputs), first_nonpositive_in(outputs)) {
            (Some(dimension), _) => Some(
                ShapePlanError::NonPositiveDimension { kind: ShapeKind::Input, dimension },
            ),
            (None, Some(dimension)) => Some(
                ShapePlanError::NonPositiveDimension { kind: ShapeKind::Output, dimension },
            ),
            (None, None) => None,
        }
    }
}

proof fn lemma_first_nonpositive_prefix(dims: Seq<i64>, n: int)
    requires
        0 <= n <= dims.len(),
        first_nonpositive(dims.take(n)) is Some,
    ensures
        first_nonpositive(dims) == first_nonpositive(dims.take(n)),
    decreases dims.len() - n,
{
    if n < dims.len() {
        assert(dims.take(n + 1).drop_last() =~= dims.take(n));
        lemma_first_nonpositive_prefix(dims, n + 1);
    } else {
        assert(dims.take(n) =~= dims);
    }
}

proof fn lemma_first_nonpositive_in_prefix(shapes: Seq<Seq<i64>>, n: int)
    requires
        0 <= n <= shapes.len(),
        first_nonpositive_in(shapes.take(n)) is Some,
    ensures
        first_nonpositive_in(shapes) == first_nonpositive_in(shapes.take(n)),
    decreases shapes.len() - n,
{
    if n < shapes.len() {
        assert(shapes.take(n + 1).drop_last() =~= shapes.take(n));
        lemma_first_nonpositive_in_prefix(shapes, n + 1);
    } else {
        assert(shapes.take(n) =~= shapes);
    }
}

proof fn lemma_no_nonpositive(dims: Seq<i64>)
    requires
        first_nonpositive(dims) is None,
    ensures
        forall|k: int| 0 <= k < dims.len() ==> dims[k] >= 1,
    decreases dims.len(),
{
    if dims.len() > 0 {
        lemma_no_nonpositive(dims.drop_last());
        assert forall|k: int| 0 <= k < dims.len() implies dims[k] >= 1 by {
            if k < dims.len() - 1 {
                assert(dims[k] == dims.drop_last()[k]);
            }
        }
    }
}

/// Shapes without a dimension below one are positive.
proof fn lemma_no_nonpositive_in(shapes: Seq<Seq<i64>>)
    requires
        first_nonpositive_in(shapes) is None,
    ensures
        crate::shape::all_positive(shapes),
    decreases shapes.len(),
{
    if shapes.len() > 0 {
        lemma_no_nonpositive_in(shapes.drop_last());
        lemma_no_nonpositive(shapes.last());
        assert forall|i: int, k: int|
            0 <= i < shapes.len() && 0 <= k < shapes[i].len() implies #[trigger] shapes[i][k]
            >= 1 by {
            if i < shapes.len() - 1 {
                assert(shapes[i] == shapes.drop_last()[i]);
                assert(shapes.drop_last()[i][k] >= 1);
            } else {
                assert(shapes[i] == shapes.last());
            }
        }
    }
}

fn find_nonpositive(shapes: &[Vec<i64>]) -> (found: Option<i64>)
    ensures
        found == first_nonpositive_in(crate::shape::vec_shapes(shapes@)),
{
    let ghost all = crate::shape::vec_shapes(shapes@);
    let mut i: usize = 0;
    while i < shapes.len()
        invariant
            0 <= i <= shapes.len(),
            all == crate::shape::vec_shapes(shapes@),
            first_nonpositive_in(all.take(i as int)) is None,
        decreases shapes.len() - i,
    {
        let dims: &Vec<i64> = &shapes[i];
        proof {
            assert(all.take(i + 1).drop_last() =~= all.take(i as int));
            assert(all.take(i + 1).last() == dims@);
        }
        let mut k: usize = 0;
        while k < dims.len()
            invariant
                0 <= i < shapes.len(),
                all == crate::shape::vec_shapes(shapes@),
                dims@ == all[i as int],
                all.take(i + 1).last() == dims@,
                all.take(i + 1).drop_last() == all.take(i as int),
                first_nonpositive_in(all.take(i as int)) is None,
                0 <= k <= dims.len(),
                first_nonpositive(dims@.take(k as int)) is None,
            decreases dims.len() - k,
        {
            let dimension: i64 = dims[k];
            proof {
                assert(dims@.take(k + 1).drop_last() =~= dims@.take(k as int));
            }
            if dimension <= 0 {
                proof {
                    lemma_first_nonpositive_prefix(dims@, k + 1);
                    lemma_first_nonpositive_in_prefix(all, i + 1);
                }
                return Some(dimension);
            }
            k = k + 1;
        }
        assert(dims@.take(k as int) =~= dims@);
        i = i + 1;
    }
    assert(all.take(i as int) =~= all);
    None
}

/// Check that the shapes can be those of a canonical bucket.
pub fn validate_shapes(inputs: &[Vec<i64>], outputs: &[Vec<i64>]) -> (result: Result<
    (),
    ShapePlanError,
>)
    ensures
        match shapes_fault(crate::shape::vec_shapes(inputs@), crate::shape::vec_shapes(outputs@)) {
            Some(error) => result == Err::<(), ShapePlanError>(error),
            None => result is Ok,
        },
{
    if inputs.len() == 0 {
        return Err(ShapePlanError::EmptyInputSet);
    }
    match find_nonpositive(inputs) {
        Some(dimension) => {
            return Err(
                ShapePlanError::NonPositiveDimension { kind: ShapeKind::Input, dimension },
            );
        },
        None => {},
    }
    match find_nonpositive(outputs) {
        Some(dimension) => Err(
            ShapePlanError::NonPositiveDimension { kind: ShapeKind::Output, dimension },
        ),
        None => Ok(()),
    }
}

/// The request fits into the canonical shapes in every dimension, and their element counts can be
/// counted.
pub open spec fn fits(requested: Seq<Seq<i64>>, canonical: Seq<Seq<i64>>) -> bool {
    &&& requested.len() == canonical.len()
    &&& forall|i: int| 0 <= i < requested.len() ==> (#[trigger] requested[i]).len() == canonical[i].len()
    &&& forall|i: int, k: int|
        0 <= i < requested.len() && 0 <= k < requested[i].len() ==> 1 <= #[trigger] requested[i][k]
            <= canonical[i][k]
    &&& crate::shape::elements(canonical) <= u128::MAX
}

/// The element count of the request, where every dimension is positive and the count fits.
pub fn requested_element_count(shapes: &[&[i64]]) -> (count: Option<u128>)
    ensures
        ({
            let all = crate::shape::slice_shapes(shapes@);
            if crate::shape::all_positive(all) && 0 < crate::shape::elements(all) <= u128::MAX {
                count == Some(crate::shape::elements(all) as u128)
            } else {
                count is None
            }
        }),
{
    let ghost all = crate::shape::slice_shapes(shapes@);
    let mut sum: u128 = 0;
    let mut i: usize = 0;
    while i < shapes.len()
        invariant
            0 <= i <= shapes.len(),
            all == crate::shape::slice_shapes(shapes@),
            sum == crate::shape::elements(all.take(i as int)),
            crate::shape::all_positive(all.take(i as int)),
        decreases shapes.len() - i,
    {
        let dims: &[i64] = shapes[i];
        let mut count: u128 = 1;
        let mut k: usize = 0;
        while k < dims.len()
            invariant
                0 <= i < shapes.len(),
                all == crate::shape::slice_shapes(shapes@),
                dims@ == all[i as int],
                0 <= k <= dims.len(),
                count == crate::shape::product(dims@.take(k as int)),
                forall|j: int| 0 <= j < k ==> dims@[j] >= 1,
            decreases dims.len() - k,
        {
            let dimension: i64 = dims[k];
            if dimension <= 0 {
                proof {
                    assert(all[i as int][k as int] <= 0);
                }
                return None;
            }
            proof {
                assert(dims@.take(k + 1).drop_last() =~= dims@.take(k as int));
            }
            match count.checked_mul(dimension as u128) {
                Some(next) => {
                    count = next;
                },
                None => {
                    proof {
                        if crate::shape::all_positive(all) {
                            assert forall|j: int| 0 <= j < dims@.len() implies dims@[j] >= 1 by {
                                assert(all[i as int][j] >= 1);
                            }
                            crate::shape::lemma_product_prefix(dims@, k + 1);
                            crate::shape::lemma_elements_prefix(all, i + 1);
                            crate::shape::lemma_elements_prefix(all, i as int);
                            assert(all.take(i + 1).drop_last() =~= all.take(i as int));
                        }
                    }
                    return None;
                },
            }
            k = k + 1;
        }
        proof {
            assert(dims@.take(k as int) =~= dims@);
            assert(all.take(i + 1).drop_last() =~= all.take(i as int));
            assert(all.take(i + 1).last() == dims@);
            assert(crate::shape::all_positive(all.take(i + 1))) by {
                let longer = all.take(i + 1);
                assert forall|a: int, b: int|
                    0 <= a < longer.len() && 0 <= b < longer[a].len() implies #[trigger] longer[a][b]
                    >= 1 by {
                    if a < i {
                        assert(longer[a] == all.take(i as int)[a]);
                        assert(all.take(i as int)[a][b] >= 1);
                    }
                }
            }
        }
        match sum.checked_add(count) {
            Some(next) => {
                sum = next;
            },
            None => {
                proof {
                    if crate::shape::all_positive(all) {
                        crate::shape::lemma_elements_prefix(all, i + 1);
                    }
                }
                return None;
            },
        }
        i = i + 1;
    }
    assert(all.take(i as int) =~= all);
    if sum != 0 {
        Some(sum)
    } else {
        None
    }
}

/// The element counts of the request and of the canonical shapes, where the request fits.
pub fn fitting_element_counts(requested: &[&[i64]], canonical: &[Vec<i64>]) -> (counts: Option<
    (u128, u128),
>)
    ensures
        ({
            let request = crate::shape::slice_shapes(requested@);
            let bucket = crate::shape::vec_shapes(canonical@);
            if fits(request, bucket) {
                counts == Some((crate::shape::elements(request) as u128, crate::shape::elements(bucket) as u128))
                    && 0 <= crate::shape::elements(request) <= crate::shape::elements(bucket) <= u128::MAX
            } else {
                counts is None
            }
        }),
{
    let ghost request = crate::shape::slice_shapes(requested@);
    let ghost bucket = crate::shape::vec_shapes(canonical@);
    if requested.len() != canonical.len() {
        return None;
    }
    let mut requested_sum: u128 = 0;
    let mut canonical_sum: u128 = 0;
    let mut i: usize = 0;
    while i < requested.len()
        invariant
            0 <= i <= requested.len(),
            requested.len() == canonical.len(),
            request == crate::shape::slice_shapes(requested@),
            bucket == crate::shape::vec_shapes(canonical@),
            requested_sum == crate::shape::elements(request.take(i as int)),
            canonical_sum == crate::shape::elements(bucket.take(i as int)),
            fits(request.take(i as int), bucket.take(i as int)),
        decreases requested.len() - i,
    {
        let actual_dims: &[i64] = requested[i];
        let planned_dims: &Vec<i64> = &canonical[i];
        if actual_dims.len() != planned_dims.len() {
            proof {
                assert(request[i as int].len() != bucket[i as int].len());
            }
            return None;
        }
        let mut request_product: u128 = 1;
        let mut bucket_product: u128 = 1;
        let mut k: usize = 0;
        while k < actual_dims.len()
            invariant
                0 <= i < requested.len(),
                requested.len() == canonical.len(),
                request == crate::shape::slice_shapes(requested@),
                bucket == crate::shape::vec_shapes(canonical@),
                actual_dims@ == request[i as int],
                planned_dims@ == bucket[i as int],
                actual_dims.len() == planned_dims.len(),
                canonical_sum == crate::shape::elements(bucket.take(i as int)),
                0 <= k <= actual_dims.len(),
                request_product == crate::shape::product(actual_dims@.take(k as int)),
                bucket_product == crate::shape::product(planned_dims@.take(k as int)),
                forall|j: int| 0 <= j < k ==> 1 <= #[trigger] actual_dims@[j] <= planned_dims@[j],
            decreases actual_dims.len() - k,
        {
            let actual: i64 = actual_dims[k];
            let planned: i64 = planned_dims[k];
            if actual <= 0 || planned < actual {
                proof {
                    assert(!(1 <= request[i as int][k as int] <= bucket[i as int][k as int]));
                }
                return None;
            }
            proof {
                assert(actual_dims@.take(k + 1).drop_last() =~= actual_dims@.take(k as int));
                assert(planned_dims@.take(k + 1).drop_last() =~= planned_dims@.take(k as int));
                if fits(request, bucket) {
                    lemma_bucket_bounds(request, bucket, i as int, k as int);
                }
            }
            match request_product.checked_mul(actual as u128) {
                Some(next) => {
                    request_product = next;
                },
                None => {
                    return None;
                },
            }
            match bucket_product.checked_mul(planned as u128) {
                Some(next) => {
                    bucket_product = next;
                },
                None => {
                    return None;
                },
            }
            k = k + 1;
        }
        proof {
            assert(actual_dims@.take(k as int) =~= actual_dims@);
            assert(planned_dims@.take(k as int) =~= planned_dims@);
            assert(request.take(i + 1).drop_last() =~= request.take(i as int));
            assert(bucket.take(i + 1).drop_last() =~= bucket.take(i as int));
            assert(request.take(i + 1).last() == actual_dims@);
            assert(bucket.take(i + 1).last() == planned_dims@);
            if fits(request, bucket) {
                lemma_bucket_sums(request, bucket, i + 1);
            }
        }
        match requested_sum.checked_add(request_product) {
            Some(next) => {
                requested_sum = next;
            },
            None => {
                return None;
            },
        }
        match canonical_sum.checked_add(bucket_product) {
            Some(next) => {
                canonical_sum = next;
            },
            None => {
                return None;
            },
        }
        proof {
            let shorter_r = request.take(i as int);
            let shorter_b = bucket.take(i as int);
            let longer_r = request.take(i + 1);
            let longer_b = bucket.take(i + 1);
            assert forall|a: int| 0 <= a < longer_r.len() implies (#[trigger] longer_r[a]).len()
                == longer_b[a].len() by {
                if a < i {
                    assert(longer_r[a] == shorter_r[a] && longer_b[a] == shorter_b[a]);
                }
            }
            assert forall|a: int, b: int|
                0 <= a < longer_r.len() && 0 <= b < longer_r[a].len() implies 1
                <= #[trigger] longer_r[a][b] <= longer_b[a][b] by {
                if a < i {
                    assert(longer_r[a] == shorter_r[a] && longer_b[a] == shorter_b[a]);
                    assert(shorter_r[a][b] <= shorter_b[a][b]);
                } else {
                    assert(actual_dims@[b] <= planned_dims@[b]);
                }
            }
        }
        i = i + 1;
    }
    proof {
        assert(request.take(i as int) =~= request);
        assert(bucket.take(i as int) =~= bucket);
        crate::shape::lemma_elements_monotone(request, bucket);
    }
    Some((requested_sum, canonical_sum))
}

/// Within fitting shapes, every partial product stays within the bucket's element count.
proof fn lemma_bucket_bounds(request: Seq<Seq<i64>>, bucket: Seq<Seq<i64>>, i: int, k: int)
    requires
        fits(request, bucket),
        0 <= i < request.len(),
        0 <= k < request[i].len(),
    ensures
        0 <= crate::shape::product(request[i].take(k + 1)) <= u128::MAX,
        0 <= crate::shape::product(bucket[i].take(k + 1)) <= u128::MAX,
{
    lemma_fitting_positive(request, bucket);
    let r = request[i];
    let b = bucket[i];
    assert(request[i].len() == bucket[i].len());
    assert forall|j: int| 0 <= j < r.len() implies 1 <= #[trigger] r[j] <= b[j] by {
        assert(request[i][j] <= bucket[i][j]);
    }
    assert forall|j: int| 0 <= j < b.len() implies b[j] >= 1 by {
        assert(r[j] <= b[j]);
    }
    crate::shape::lemma_product_monotone(r, b);
    crate::shape::lemma_product_prefix(b, k + 1);
    crate::shape::lemma_product_prefix(r, k + 1);
    crate::shape::lemma_elements_prefix(bucket, i + 1);
    crate::shape::lemma_elements_prefix(bucket, i);
    assert(bucket.take(i + 1).drop_last() =~= bucket.take(i));
    assert(bucket.take(i + 1).last() == b);
}

/// Within fitting shapes, every partial sum stays within the bucket's element count.
proof fn lemma_bucket_sums(request: Seq<Seq<i64>>, bucket: Seq<Seq<i64>>, n: int)
    requires
        fits(request, bucket),
        0 <= n <= request.len(),
    ensures
        0 <= crate::shape::elements(request.take(n)) <= u128::MAX,
        0 <= crate::shape::elements(bucket.take(n)) <= u128::MAX,
{
    lemma_fitting_positive(request, bucket);
    crate::shape::lemma_elements_monotone(request, bucket);
    crate::shape::lemma_elements_prefix(bucket, n);
    crate::shape::lemma_elements_prefix(request, n);
}

/// Fitting shapes are positive on both sides.
proof fn lemma_fitting_positive(request: Seq<Seq<i64>>, bucket: Seq<Seq<i64>>)
    requires
        fits(request, bucket),
    ensures
        crate::shape::all_positive(request),
        crate::shape::all_positive(bucket),
{
    assert forall|i: int, k: int|
        0 <= i < bucket.len() && 0 <= k < bucket[i].len() implies #[trigger] bucket[i][k] >= 1 by {
        assert(request[i].len() == bucket[i].len());
        assert(request[i][k] <= bucket[i][k]);
    }
}

/// Immutable, finite canonical shape set shared by schedulers and serving lanes.
#[derive(Debug)]
pub struct ServingShapePlan {
    buckets: Vec<CanonicalShape>,
    // A hash may lead to several positions. Full shape equality makes collisions harmless.
    index: HashMap<u64, Vec<usize>>,
    fallback: FallbackPolicy,
}

impl Clone for CanonicalShape {
    fn clone(&self) -> (copy: CanonicalShape)
        ensures
            copy.alike(*self),
    {
        CanonicalShape {
            id: self.id,
            input_shapes: copy_shapes(self.input_shapes.as_slice()),
            output_shapes: copy_shapes(self.output_shapes.as_slice()),
            output_policy: self.output_policy,
        }
    }
}

impl Clone for ServingShapePlan {
    fn clone(&self) -> (copy: ServingShapePlan)
        ensures
            copy.policy() == self.policy(),
            copy.shapes().len() == self.shapes().len(),
            forall|i: int|
                0 <= i < copy.shapes().len() ==> (#[trigger] copy.shapes()[i]).alike(
                    self.shapes()[i],
                ),
            self.sealed() ==> copy.sealed(),
    {
        let mut buckets: Vec<CanonicalShape> = Vec::new();
        let mut i: usize = 0;
        while i < self.buckets.len()
            invariant
                0 <= i <= self.buckets@.len(),
                buckets@.len() == i,
                forall|k: int|
                    0 <= k < i ==> (#[trigger] buckets@[k]).alike(self.buckets@[k]),
            decreases self.buckets@.len() - i,
        {
            buckets.push(self.buckets[i].clone());
            i = i + 1;
        }
        let copy = ServingShapePlan {
            buckets,
            index: self.index.clone(),
            fallback: self.fallback,
        };
        proof {
            if self.sealed() {
                assert forall|k: int| 0 <= k < copy.buckets@.len() implies listed(
                    copy.index@,
                    #[trigger] copy.buckets@[k].inputs(),
                    k,
                ) by {
                    assert(copy.buckets@[k].alike(self.buckets@[k]));
                    assert(listed(self.index@, self.buckets@[k].inputs(), k));
                }
                assert forall|j: int, k: int| 0 <= j < k < copy.buckets@.len() implies
                    #[trigger] copy.buckets@[j].inputs() != #[trigger] copy.buckets@[k].inputs() by {
                    assert(copy.buckets@[j].alike(self.buckets@[j]));
                    assert(copy.buckets@[k].alike(self.buckets@[k]));
                    assert(self.buckets@[j].inputs() != self.buckets@[k].inputs());
                }
                assert forall|k: int| 0 <= k < copy.buckets@.len() implies (
                #[trigger] copy.buckets@[k]).spec_id().index() == k && shapes_fault(
                    copy.buckets@[k].inputs(),
                    copy.buckets@[k].outputs(),
                ) is None by {
                    assert(copy.buckets@[k].alike(self.buckets@[k]));
                }
            }
        }
        copy
    }
}

/// Every bucket is listed under the hash of its inputs, and nothing else is listed.
spec fn indexed(buckets: Seq<CanonicalShape>, index: Map<u64, Vec<usize>>) -> bool {
    &&& forall|i: int| 0 <= i < buckets.len() ==> listed(index, #[trigger] buckets[i].inputs(), i)
    &&& forall|hash: u64, k: int|
        index.contains_key(hash) && 0 <= k < index[hash]@.len() ==> #[trigger] index[hash]@[k]
            < buckets.len()
}

/// Position `i` is listed under the hash of `inputs`.
spec fn listed(index: Map<u64, Vec<usize>>, inputs: Seq<Seq<i64>>, i: int) -> bool {
    index.contains_key(shape_hash(inputs)) && exists|k: int|
        0 <= k < index[shape_hash(inputs)]@.len() && #[trigger] index[shape_hash(inputs)]@[k] == i
}

/// Distinct buckets have distinct inputs.
pub open spec fn distinct_inputs(buckets: Seq<CanonicalShape>) -> bool {
    forall|i: int, j: int|
        0 <= i < j < buckets.len() ==> #[trigger] buckets[i].inputs() != #[trigger] buckets[j].inputs()
}

/// The buckets are numbered in order and every one is valid and distinct.
pub open spec fn canonical(buckets: Seq<CanonicalShape>) -> bool {
    &&& 1 <= buckets.len() <= u32::MAX
    &&& forall|i: int|
        0 <= i < buckets.len() ==> (#[trigger] buckets[i]).spec_id().index() == i
    &&& forall|i: int|
        0 <= i < buckets.len() ==> shapes_fault(
            (#[trigger] buckets[i]).inputs(),
            buckets[i].outputs(),
        ) is None
    &&& distinct_inputs(buckets)
}

/// Bucket `i` is the first among the fitting ones with the fewest elements.
pub open spec fn nearest(buckets: Seq<CanonicalShape>, requested: Seq<Seq<i64>>, i: int) -> bool {
    &&& 0 <= i < buckets.len()
    &&& fits(requested, buckets[i].inputs())
    &&& forall|j: int|
        0 <= j < buckets.len() && fits(requested, #[trigger] buckets[j].inputs()) ==> crate::shape::elements(
            buckets[i].inputs(),
        ) <= crate::shape::elements(buckets[j].inputs()) && (j < i ==> crate::shape::elements(buckets[i].inputs()) < crate::shape::elements(
            buckets[j].inputs(),
        ))
}

/// No bucket has exactly the requested inputs.
pub open spec fn no_exact(buckets: Seq<CanonicalShape>, requested: Seq<Seq<i64>>) -> bool {
    forall|i: int| 0 <= i < buckets.len() ==> #[trigger] buckets[i].inputs() != requested
}

/// `result` is the outcome of choosing the nearest bucket under a limit.
pub open spec fn padded_outcome(
    buckets: Seq<CanonicalShape>,
    requested: Seq<Seq<i64>>,
    maximum: PaddingRatio,
    result: Result<ShapeId, ClassifyError>,
) -> bool {
    match result {
        Ok(id) => {
            let i = id.index() as int;
            nearest(buckets, requested, i) && !maximum.exceeded_by(
                crate::shape::elements(buckets[i].inputs()) - crate::shape::elements(requested),
                crate::shape::elements(requested),
            )
        },
        Err(ClassifyError::NoFittingShape) => forall|i: int|
            0 <= i < buckets.len() ==> !fits(requested, #[trigger] buckets[i].inputs()),
        Err(ClassifyError::PaddingWasteExceeded { waste, requested: count, maximum_ratio }) => {
            &&& maximum_ratio == maximum
            &&& count == crate::shape::elements(requested)
            &&& maximum.exceeded_by(waste as int, count as int)
            &&& exists|i: int|
                #[trigger] nearest(buckets, requested, i) && waste == crate::shape::elements(buckets[i].inputs())
                    - crate::shape::elements(requested)
        },
        Err(ClassifyError::NotInPlan) => false,
    }
}

/// `result` is the outcome of classifying the request.
pub open spec fn outcome(
    buckets: Seq<CanonicalShape>,
    fallback: FallbackPolicy,
    requested: Seq<Seq<i64>>,
    result: Result<ShapeId, ClassifyError>,
) -> bool {
    if no_exact(buckets, requested) {
        match fallback {
            FallbackPolicy::Strict | FallbackPolicy::FallbackSession => result == Err::<
                ShapeId,
                ClassifyError,
            >(ClassifyError::NotInPlan),
            FallbackPolicy::PadToNearest { max_padding_waste_ratio } => padded_outcome(
                buckets,
                requested,
                max_padding_waste_ratio,
                result,
            ),
        }
    } else {
        result matches Ok(id) && id.index() < buckets.len() && buckets[id.index() as int].inputs()
            == requested
    }
}

impl ServingShapePlan {
    /// The canonical buckets, in order.
    pub closed spec fn shapes(self) -> Seq<CanonicalShape> {
        self.buckets@
    }

    /// The policy for other requests.
    pub closed spec fn policy(self) -> FallbackPolicy {
        self.fallback
    }

    /// The plan is sealed: its buckets are canonical and indexed, and its limit is one.
    pub closed spec fn sealed(self) -> bool {
        &&& canonical(self.buckets@)
        &&& indexed(self.buckets@, self.index@)
        &&& self.fallback matches FallbackPolicy::PadToNearest { max_padding_waste_ratio }
            ==> max_padding_waste_ratio.is_limit()
    }

    /// An empty builder with the strict policy.
    pub fn builder() -> (builder: ServingShapePlanBuilder)
        ensures
            builder.entries() == Seq::<Entry>::empty(),
            builder.policy() == FallbackPolicy::Strict,
    {
        let builder = ServingShapePlanBuilder {
            buckets: Vec::new(),
            fallback: FallbackPolicy::Strict,
        };
        assert(builder.entries() =~= Seq::<Entry>::empty());
        builder
    }

    /// Classify borrowed input shapes.
    pub fn classify(&self, input_shapes: &[&[i64]]) -> (result: Result<ShapeId, ClassifyError>)
        requires
            self.sealed(),
        ensures
            outcome(self.shapes(), self.policy(), crate::shape::slice_shapes(input_shapes@), result),
    {
        let ghost requested = crate::shape::slice_shapes(input_shapes@);
        let hash: ShapeHash = ShapeHash::from_slices(input_shapes);
        if let Some(candidates) = self.index.get(&hash.0) {
            let mut k: usize = 0;
            while k < candidates.len()
                invariant
                    0 <= k <= candidates.len(),
                    self.sealed(),
                    requested == crate::shape::slice_shapes(input_shapes@),
                    hash.0 == shape_hash(requested),
                    self.index@.contains_key(hash.0),
                    *candidates == self.index@[hash.0],
                    forall|j: int|
                        0 <= j < k ==> self.buckets@[#[trigger] candidates@[j] as int].inputs()
                            != requested,
                decreases candidates.len() - k,
            {
                let position: usize = candidates[k];
                assert(self.index@[hash.0]@[k as int] < self.buckets@.len());
                let bucket: &CanonicalShape = &self.buckets[position];
                if shapes_equal(bucket.input_shapes.as_slice(), input_shapes) {
                    assert(self.buckets@[position as int].inputs() == requested);
                    return Ok(bucket.id);
                }
                k = k + 1;
            }
        }
        proof {
            assert forall|i: int| 0 <= i < self.buckets@.len() implies #[trigger] self.buckets@[i].inputs()
                != requested by {
                if self.buckets@[i].inputs() == requested {
                    assert(listed(self.index@, self.buckets@[i].inputs(), i));
                }
            }
        }
        match self.fallback {
            FallbackPolicy::Strict => Err(ClassifyError::NotInPlan),
            FallbackPolicy::FallbackSession => Err(ClassifyError::NotInPlan),
            FallbackPolicy::PadToNearest { max_padding_waste_ratio } => self.classify_padded(
                input_shapes,
                max_padding_waste_ratio,
            ),
        }
    }

    fn classify_padded(&self, requested: &[&[i64]], maximum_ratio: PaddingRatio) -> (result: Result<
        ShapeId,
        ClassifyError,
    >)
        requires
            self.sealed(),
        ensures
            padded_outcome(self.shapes(), crate::shape::slice_shapes(requested@), maximum_ratio, result),
    {
        let ghost request = crate::shape::slice_shapes(requested@);
        let mut best: Option<(u128, u128, usize)> = None;
        let mut i: usize = 0;
        while i < self.buckets.len()
            invariant
                0 <= i <= self.buckets.len(),
                request == crate::shape::slice_shapes(requested@),
                match best {
                    None => forall|j: int|
                        0 <= j < i ==> !fits(request, #[trigger] self.buckets@[j].inputs()),
                    Some((waste, total, b)) => {
                        &&& b < i
                        &&& nearest(self.buckets@.take(i as int), request, b as int)
                        &&& total == crate::shape::elements(self.buckets@[b as int].inputs())
                        &&& waste == total - crate::shape::elements(request)
                        &&& 0 <= crate::shape::elements(request) <= total
                    },
                },
            decreases self.buckets.len() - i,
        {
            let ghost shorter = self.buckets@.take(i as int);
            let ghost longer = self.buckets@.take(i + 1);
            assert(longer.drop_last() =~= shorter);
            let bucket: &CanonicalShape = &self.buckets[i];
            let counts: Option<(u128, u128)> = fitting_element_counts(
                requested,
                bucket.input_shapes.as_slice(),
            );
            match counts {
                None => {
                    proof {
                        if let Some((_, _, b)) = best {
                            lemma_nearest_extends(shorter, longer, request, b as int);
                        }
                    }
                },
                Some((requested_elements, canonical_elements)) => {
                    let waste: u128 = canonical_elements.saturating_sub(requested_elements);
                    let better: bool = match best {
                        None => true,
                        Some((best_waste, best_total, _)) => waste < best_waste || (waste
                            == best_waste && canonical_elements < best_total),
                    };
                    proof {
                        assert(longer[i as int] == *bucket);
                        if let Some((_, _, b)) = best {
                            assert(shorter[b as int] == self.buckets@[b as int]);
                            if !better {
                                lemma_nearest_extends(shorter, longer, request, b as int);
                            }
                        }
                        if better {
                            assert forall|j: int|
                                0 <= j < longer.len() && fits(request, #[trigger] longer[j].inputs())
                                implies crate::shape::elements(longer[i as int].inputs()) <= crate::shape::elements(
                                longer[j].inputs(),
                            ) && (j < i ==> crate::shape::elements(longer[i as int].inputs()) < crate::shape::elements(
                                longer[j].inputs(),
                            )) by {
                                if j < i {
                                    assert(longer[j] == self.buckets@[j]);
                                    assert(shorter[j] == self.buckets@[j]);
                                    assert(fits(request, shorter[j].inputs()));
                                }
                            }
                        }
                    }
                    if better {
                        best = Some((waste, canonical_elements, i));
                    }
                },
            }
            i = i + 1;
        }
        assert(self.buckets@.take(i as int) =~= self.buckets@);
        let (waste, total, position): (u128, u128, usize) = match best {
            None => {
                return Err(ClassifyError::NoFittingShape);
            },
            Some(found) => found,
        };
        proof {
            let chosen = self.buckets@[position as int].inputs();
            lemma_fitting_positive(request, chosen);
            crate::shape::lemma_elements_at_least(request);
            assert(shapes_fault(chosen, self.buckets@[position as int].outputs()) is None);
            assert(chosen.len() >= 1);
        }
        let requested_elements: u128 = match requested_element_count(requested) {
            None => {
                return Err(ClassifyError::NoFittingShape);
            },
            Some(count) => count,
        };
        if maximum_ratio.exceeds(waste, requested_elements) {
            assert(nearest(self.buckets@, request, position as int));
            return Err(
                ClassifyError::PaddingWasteExceeded {
                    waste,
                    requested: requested_elements,
                    maximum_ratio,
                },
            );
        }
        Ok(self.buckets[position].id)
    }

    /// The bucket with the given id.
    pub fn bucket(&self, id: ShapeId) -> (bucket: Option<&CanonicalShape>)
        ensures
            if id.index() < self.shapes().len() {
                bucket == Some(&self.shapes()[id.index() as int])
            } else {
                bucket is None
            },
    {
        let index: usize = id.as_usize();
        if index < self.buckets.len() {
            Some(&self.buckets[index])
        } else {
            None
        }
    }

    /// The number of buckets.
    pub fn len(&self) -> (count: usize)
        ensures
            count == self.shapes().len(),
    {
        self.buckets.len()
    }

    /// Whether the plan has no bucket, which no sealed plan is.
    pub fn is_empty(&self) -> (empty: bool)
        ensures
            empty == (self.shapes().len() == 0),
            self.sealed() ==> !empty,
    {
        self.buckets.len() == 0
    }

    /// The policy for requests that are not canonical.
    pub fn fallback_policy(&self) -> (policy: FallbackPolicy)
        ensures
            policy == self.policy(),
    {
        self.fallback
    }

    /// The buckets, in order.
    pub fn buckets(&self) -> (buckets: &[CanonicalShape])
        ensures
            buckets@ == self.shapes(),
    {
        self.buckets.as_slice()
    }
}

/// A bucket that does not improve on the nearest one leaves it the nearest.
proof fn lemma_nearest_extends(
    shorter: Seq<CanonicalShape>,
    longer: Seq<CanonicalShape>,
    requested: Seq<Seq<i64>>,
    b: int,
)
    requires
        longer.len() == shorter.len() + 1,
        longer.drop_last() == shorter,
        nearest(shorter, requested, b),
        fits(requested, longer.last().inputs()) ==> crate::shape::elements(shorter[b].inputs()) <= crate::shape::elements(
            longer.last().inputs(),
        ),
    ensures
        nearest(longer, requested, b),
{
    assert(longer[b] == shorter[b]);
    assert forall|j: int|
        0 <= j < longer.len() && fits(requested, #[trigger] longer[j].inputs()) implies crate::shape::elements(
        longer[b].inputs(),
    ) <= crate::shape::elements(longer[j].inputs()) && (j < b ==> crate::shape::elements(longer[b].inputs()) < crate::shape::elements(
        longer[j].inputs(),
    )) by {
        if j < shorter.len() {
            assert(longer[j] == shorter[j]);
            assert(fits(requested, shorter[j].inputs()));
        }
    }
}

/// The shapes and placement of one bucket that a builder holds.
pub struct Entry {
    pub inputs: Seq<Seq<i64>>,
    pub outputs: Seq<Seq<i64>>,
    pub policy: OutputPolicy,
}

/// Startup-only builder for [`ServingShapePlan`].
#[derive(Debug)]
pub struct ServingShapePlanBuilder {
    buckets: Vec<(Vec<Vec<i64>>, Vec<Vec<i64>>, OutputPolicy)>,
    fallback: FallbackPolicy,
}

spec fn entry_of(bucket: (Vec<Vec<i64>>, Vec<Vec<i64>>, OutputPolicy)) -> Entry {
    Entry { inputs: crate::shape::vec_shapes(bucket.0@), outputs: crate::shape::vec_shapes(bucket.1@), policy: bucket.2 }
}

/// Why the entry at `position` cannot join the entries before it.
pub open spec fn entry_fault(entries: Seq<Entry>, position: int) -> Option<ShapePlanError> {
    match shapes_fault(entries[position].inputs, entries[position].outputs) {
        Some(error) => Some(error),
        None => if exists|q: int|
            0 <= q < position && #[trigger] entries[q].inputs == entries[position].inputs {
            Some(ShapePlanError::DuplicateShape)
        } else {
            None
        },
    }
}

/// Why the first `n` entries cannot form a plan: the fault of the first entry that has one.
pub open spec fn first_entry_fault(entries: Seq<Entry>, n: int) -> Option<ShapePlanError>
    decreases n,
{
    if n <= 0 {
        None
    } else {
        match first_entry_fault(entries, n - 1) {
            Some(error) => Some(error),
            None => entry_fault(entries, n - 1),
        }
    }
}

/// Why the entries cannot form a plan under the policy.
pub open spec fn plan_fault(entries: Seq<Entry>, fallback: FallbackPolicy) -> Option<
    ShapePlanError,
> {
    if entries.len() == 0 {
        Some(ShapePlanError::EmptyPlan)
    } else if entries.len() > u32::MAX {
        Some(ShapePlanError::TooManyShapes)
    } else {
        match fallback {
            FallbackPolicy::PadToNearest { max_padding_waste_ratio } if !max_padding_waste_ratio.is_limit()
                => Some(ShapePlanError::InvalidPaddingWasteRatio(max_padding_waste_ratio)),
            _ => first_entry_fault(entries, entries.len() as int),
        }
    }
}

proof fn lemma_first_entry_fault(entries: Seq<Entry>, n: int, m: int)
    requires
        0 <= n <= m,
        first_entry_fault(entries, n) is Some,
    ensures
        first_entry_fault(entries, m) == first_entry_fault(entries, n),
    decreases m - n,
{
    if n < m {
        lemma_first_entry_fault(entries, n, m - 1);
    }
}

impl Default for ServingShapePlanBuilder {
    fn default() -> (builder: ServingShapePlanBuilder)
        ensures
            builder.entries() == Seq::<Entry>::empty(),
            builder.policy() == FallbackPolicy::Strict,
    {
        ServingShapePlan::builder()
    }
}

impl ServingShapePlanBuilder {
    /// The buckets added so far.
    pub closed spec fn entries(self) -> Seq<Entry> {
        Seq::new(self.buckets@.len(), |i: int| entry_of(self.buckets@[i]))
    }

    /// The policy for requests that are not canonical.
    pub closed spec fn policy(self) -> FallbackPolicy {
        self.fallback
    }

    /// Set the policy for requests that are not canonical.
    pub fn fallback_policy(&mut self, policy: FallbackPolicy) -> (builder: &mut Self)
        ensures
            builder.entries() == old(self).entries(),
            builder.policy() == policy,
            *final(self) == *final(builder),
    {
        self.fallback = policy;
        self
    }

    /// Add one bucket.
    pub fn add_shape(
        &mut self,
        input_shapes: Vec<Vec<i64>>,
        output_shapes: Vec<Vec<i64>>,
        output_policy: OutputPolicy,
    ) -> (builder: &mut Self)
        ensures
            builder.entries() == old(self).entries().push(
                Entry {
                    inputs: crate::shape::vec_shapes(input_shapes@),
                    outputs: crate::shape::vec_shapes(output_shapes@),
                    policy: output_policy,
                },
            ),
            builder.policy() == old(self).policy(),
            *final(self) == *final(builder),
    {
        self.buckets.push((input_shapes, output_shapes, output_policy));
        assert(self.entries() =~= old(self).entries().push(
            Entry {
                inputs: crate::shape::vec_shapes(input_shapes@),
                outputs: crate::shape::vec_shapes(output_shapes@),
                policy: output_policy,
            },
        ));
        self
    }

    /// Check the buckets and seal them into a plan.
    #[verifier::rlimit(60)]
    pub fn build(self) -> (result: Result<ServingShapePlan, ShapePlanError>)
        ensures
            match plan_fault(self.entries(), self.policy()) {
                Some(error) => result == Err::<ServingShapePlan, ShapePlanError>(error),
                None => {
                    &&& result matches Ok(plan)
                    &&& plan.sealed()
                    &&& plan.policy() == self.policy()
                    &&& plan.shapes().len() == self.entries().len()
                    &&& forall|i: int|
                        0 <= i < plan.shapes().len() ==> {
                            &&& (#[trigger] plan.shapes()[i]).inputs() == self.entries()[i].inputs
                            &&& plan.shapes()[i].outputs() == self.entries()[i].outputs
                            &&& plan.shapes()[i].placement() == self.entries()[i].policy
                        }
                },
            },
    {
        let ghost entries = self.entries();
        if self.buckets.len() == 0 {
            return Err(ShapePlanError::EmptyPlan);
        }
        if self.buckets.len() > u32::MAX as usize {
            return Err(ShapePlanError::TooManyShapes);
        }
        if let FallbackPolicy::PadToNearest { max_padding_waste_ratio } = self.fallback {
            if !max_padding_waste_ratio.is_valid() {
                return Err(ShapePlanError::InvalidPaddingWasteRatio(max_padding_waste_ratio));
            }
        }
        let fallback: FallbackPolicy = self.fallback;
        let ghost all = self.buckets@;
        let mut pending = self.buckets;
        let mut waiting: Vec<(Vec<Vec<i64>>, Vec<Vec<i64>>, OutputPolicy)> = Vec::new();
        while pending.len() > 0
            invariant
                pending@.len() + waiting@.len() == all.len(),
                pending@ == all.take(pending@.len() as int),
                forall|k: int|
                    0 <= k < waiting@.len() ==> #[trigger] waiting@[k] == all[all.len() - 1 - k],
            decreases pending@.len(),
        {
            match pending.pop() {
                Some(bucket) => {
                    waiting.push(bucket);
                    assert(pending@ =~= all.take(pending@.len() as int));
                },
                None => {},
            }
        }
        let mut buckets: Vec<CanonicalShape> = Vec::new();
        let mut index: HashMap<u64, Vec<usize>> = HashMap::new();
        while waiting.len() > 0
            invariant
                all.len() <= u32::MAX,
                entries == self.entries(),
                fallback == self.policy(),
                entries.len() == all.len(),
                forall|i: int| 0 <= i < all.len() ==> #[trigger] entries[i] == entry_of(all[i]),
                waiting@.len() + buckets@.len() == all.len(),
                forall|k: int|
                    0 <= k < waiting@.len() ==> #[trigger] waiting@[k] == all[all.len() - 1 - k],
                first_entry_fault(entries, buckets@.len() as int) is None,
                forall|i: int|
                    0 <= i < buckets@.len() ==> {
                        &&& (#[trigger] buckets@[i]).inputs() == entries[i].inputs
                        &&& buckets@[i].outputs() == entries[i].outputs
                        &&& buckets@[i].placement() == entries[i].policy
                        &&& buckets@[i].spec_id().index() == i
                        &&& shapes_fault(buckets@[i].inputs(), buckets@[i].outputs()) is None
                    },
                distinct_inputs(buckets@),
                indexed(buckets@, index@),
                plan_fault(entries, fallback) == first_entry_fault(entries, entries.len() as int),
            decreases waiting@.len(),
        {
            let position: usize = buckets.len();
            let ghost before = index@;
            match waiting.pop() {
                None => {},
                Some((input_shapes, output_shapes, output_policy)) => {
                    let ghost inputs = crate::shape::vec_shapes(input_shapes@);
                    let ghost outputs = crate::shape::vec_shapes(output_shapes@);
                    assert(entries[position as int].inputs == inputs);
                    assert(entries[position as int].outputs == outputs);
                    match validate_shapes(input_shapes.as_slice(), output_shapes.as_slice()) {
                        Err(error) => {
                            proof {
                                lemma_first_entry_fault(
                                    entries,
                                    position + 1,
                                    entries.len() as int,
                                );
                            }
                            return Err(error);
                        },
                        Ok(()) => {},
                    }
                    let hash: u64 = hash_owned(input_shapes.as_slice());
                    let mut ids: Vec<usize> = Vec::new();
                    if let Some(known) = index.get(&hash) {
                        let mut k: usize = 0;
                        while k < known.len()
                            invariant
                                0 <= k <= known.len(),
                                entries == self.entries(),
                                fallback == self.policy(),
                                position == buckets@.len(),
                                position < entries.len(),
                                inputs == crate::shape::vec_shapes(input_shapes@),
                                entries[position as int].inputs == inputs,
                                entries[position as int].outputs == outputs,
                                shapes_fault(inputs, outputs) is None,
                                index@.contains_key(hash),
                                *known == index@[hash],
                                indexed(buckets@, index@),
                                first_entry_fault(entries, position as int) is None,
                                plan_fault(entries, fallback) == first_entry_fault(
                                    entries,
                                    entries.len() as int,
                                ),
                                forall|i: int|
                                    0 <= i < buckets@.len() ==> (#[trigger] buckets@[i]).inputs()
                                        == entries[i].inputs,
                                ids@ == known@.take(k as int),
                                forall|j: int|
                                    0 <= j < k ==> buckets@[#[trigger] known@[j] as int].inputs()
                                        != inputs,
                            decreases known.len() - k,
                        {
                            let earlier: usize = known[k];
                            assert(index@[hash]@[k as int] < buckets@.len());
                            if owned_shapes_equal(
                                buckets[earlier].input_shapes.as_slice(),
                                input_shapes.as_slice(),
                            ) {
                                proof {
                                    assert(entries[earlier as int].inputs == inputs);
                                    lemma_first_entry_fault(
                                        entries,
                                        position + 1,
                                        entries.len() as int,
                                    );
                                }
                                return Err(ShapePlanError::DuplicateShape);
                            }
                            ids.push(earlier);
                            k = k + 1;
                            assert(ids@ =~= known@.take(k as int));
                        }
                        assert(ids@ =~= known@);
                    }
                    proof {
                        assert forall|i: int|
                            0 <= i < buckets@.len() implies #[trigger] buckets@[i].inputs()
                            != inputs by {
                            if buckets@[i].inputs() == inputs {
                                assert(listed(index@, buckets@[i].inputs(), i));
                            }
                        }
                        assert(entry_fault(entries, position as int) is None) by {
                            assert forall|q: int| 0 <= q < position implies #[trigger] entries[q].inputs
                                != inputs by {
                                assert(buckets@[q].inputs() == entries[q].inputs);
                            }
                        }
                    }
                    let ghost known_ids = ids@;
                    ids.push(position);
                    assert(ids@.drop_last() =~= known_ids);
                    let ghost old_buckets = buckets@;
                    let id: ShapeId = ShapeId::from_index(position);
                    buckets.push(
                        CanonicalShape { id, input_shapes, output_shapes, output_policy },
                    );
                    index.insert(hash, ids);
                    proof {
                        assert(buckets@.drop_last() =~= old_buckets);
                        lemma_indexed_push(
                            old_buckets,
                            buckets@,
                            before,
                            index@,
                            hash,
                        );
                    }
                },
            }
        }
        Ok(ServingShapePlan { buckets, index, fallback })
    }
}

/// Listing a new bucket under its hash, behind what was listed there, keeps the index complete.
proof fn lemma_indexed_push(
    old_buckets: Seq<CanonicalShape>,
    buckets: Seq<CanonicalShape>,
    old_index: Map<u64, Vec<usize>>,
    index: Map<u64, Vec<usize>>,
    hash: u64,
)
    requires
        indexed(old_buckets, old_index),
        buckets.len() == old_buckets.len() + 1,
        buckets.drop_last() == old_buckets,
        hash == shape_hash(buckets.last().inputs()),
        index == old_index.insert(hash, index[hash]),
        index.contains_key(hash),
        index[hash]@.len() >= 1,
        index[hash]@.last() == old_buckets.len(),
        old_index.contains_key(hash) ==> index[hash]@.drop_last() == old_index[hash]@,
        !old_index.contains_key(hash) ==> index[hash]@.len() == 1,
    ensures
        indexed(buckets, index),
{
    assert forall|i: int| 0 <= i < buckets.len() implies listed(
        index,
        #[trigger] buckets[i].inputs(),
        i,
    ) by {
        let h = shape_hash(buckets[i].inputs());
        if i < old_buckets.len() {
            assert(buckets[i] == old_buckets[i]);
            assert(listed(old_index, old_buckets[i].inputs(), i));
            let k = choose|k: int|
                0 <= k < old_index[h]@.len() && #[trigger] old_index[h]@[k] == i;
            if h == hash {
                assert(index[hash]@.drop_last()[k] == i);
            }
            assert(index[h]@[k] == i);
        } else {
            let k = index[hash]@.len() - 1;
            assert(index[hash]@[k] == i);
        }
    }
    assert forall|h: u64, k: int|
        index.contains_key(h) && 0 <= k < index[h]@.len() implies #[trigger] index[h]@[k]
        < buckets.len() by {
        if h == hash {
            if k < index[hash]@.len() - 1 {
                assert(index[hash]@.drop_last()[k] == index[hash]@[k]);
                assert(old_index[hash]@[k] < old_buckets.len());
            }
        } else {
            assert(old_index[h]@[k] < old_buckets.len());
        }
    }
}

/// The hash of owned shapes.
fn hash_owned(shapes: &[Vec<i64>]) -> (hash: u64)
    ensures
        hash == shape_hash(crate::shape::vec_shapes(shapes@)),
{
    let mut borrowed: Vec<&[i64]> = Vec::new();
    let mut i: usize = 0;
    while i < shapes.len()
        invariant
            0 <= i <= shapes.len(),
            borrowed@.len() == i,
            forall|k: int| 0 <= k < i ==> (#[trigger] borrowed@[k])@ == shapes@[k]@,
        decreases shapes.len() - i,
    {
        borrowed.push(shapes[i].as_slice());
        i = i + 1;
    }
    assert(crate::shape::slice_shapes(borrowed@) =~= crate::shape::vec_shapes(shapes@));
    ShapeHash::from_slices(borrowed.as_slice()).0
}

/// Whether two sets of owned shapes are equal.
fn owned_shapes_equal(left: &[Vec<i64>], right: &[Vec<i64>]) -> (equal: bool)
    ensures
        equal == (crate::shape::vec_shapes(left@) == crate::shape::vec_shapes(right@)),
{
    if left.len() != right.len() {
        assert(crate::shape::vec_shapes(left@).len() != crate::shape::vec_shapes(right@).len());
        return false;
    }
    let mut i: usize = 0;
    while i < left.len()
        invariant
            0 <= i <= left.len(),
            left.len() == right.len(),
            forall|k: int| 0 <= k < i ==> left@[k]@ == right@[k]@,
        decreases left.len() - i,
    {
        if !crate::shape::dims_equal(left[i].as_slice(), right[i].as_slice()) {
            assert(crate::shape::vec_shapes(left@)[i as int] != crate::shape::vec_shapes(right@)[i as int]);
            return false;
        }
        i = i + 1;
    }
    assert(crate::shape::vec_shapes(left@) =~= crate::shape::vec_shapes(right@));
    true
}

/// A sealed plan's shapes are canonical.
pub proof fn sealed_plans_are_canonical(plan: ServingShapePlan)
    requires
        plan.sealed(),
    ensures
        canonical(plan.shapes()),
{
}

/// A request is classified in one way only: two outcomes of one request on one plan are equal.
pub proof fn classification_is_unique(
    buckets: Seq<CanonicalShape>,
    fallback: FallbackPolicy,
    requested: Seq<Seq<i64>>,
    first: Result<ShapeId, ClassifyError>,
    second: Result<ShapeId, ClassifyError>,
)
    requires
        canonical(buckets),
        outcome(buckets, fallback, requested, first),
        outcome(buckets, fallback, requested, second),
    ensures
        first == second,
{
    if no_exact(buckets, requested) {
        if let FallbackPolicy::PadToNearest { max_padding_waste_ratio } = fallback {
            lemma_padded_unique(buckets, requested, max_padding_waste_ratio, first, second);
        }
    } else {
        let i = first->Ok_0.index() as int;
        let j = second->Ok_0.index() as int;
        assert(i == j) by {
            if i < j {
                assert(buckets[i].inputs() != buckets[j].inputs());
            } else if j < i {
                assert(buckets[j].inputs() != buckets[i].inputs());
            }
        }
        shape_ids_are_positions(first->Ok_0, second->Ok_0);
    }
}

proof fn lemma_nearest_unique(
    buckets: Seq<CanonicalShape>,
    requested: Seq<Seq<i64>>,
    i: int,
    j: int,
)
    requires
        nearest(buckets, requested, i),
        nearest(buckets, requested, j),
    ensures
        i == j,
{
    assert(fits(requested, buckets[i].inputs()));
    assert(fits(requested, buckets[j].inputs()));
}

proof fn lemma_padded_unique(
    buckets: Seq<CanonicalShape>,
    requested: Seq<Seq<i64>>,
    maximum: PaddingRatio,
    first: Result<ShapeId, ClassifyError>,
    second: Result<ShapeId, ClassifyError>,
)
    requires
        padded_outcome(buckets, requested, maximum, first),
        padded_outcome(buckets, requested, maximum, second),
    ensures
        first == second,
{
    if first != Err::<ShapeId, ClassifyError>(ClassifyError::NoFittingShape) {
        let i = match first {
            Ok(id) => id.index() as int,
            _ => choose|i: int|
                #[trigger] nearest(buckets, requested, i) && first->Err_0->waste == crate::shape::elements(
                    buckets[i].inputs(),
                ) - crate::shape::elements(requested),
        };
        assert(nearest(buckets, requested, i));
        assert(fits(requested, buckets[i].inputs()));
        assert(second != Err::<ShapeId, ClassifyError>(ClassifyError::NoFittingShape));
        let j = match second {
            Ok(id) => id.index() as int,
            _ => choose|j: int|
                #[trigger] nearest(buckets, requested, j) && second->Err_0->waste == crate::shape::elements(
                    buckets[j].inputs(),
                ) - crate::shape::elements(requested),
        };
        lemma_nearest_unique(buckets, requested, i, j);
        if first is Ok && second is Ok {
            shape_ids_are_positions(first->Ok_0, second->Ok_0);
        }
    } else if second != first {
        let j = match second {
            Ok(id) => id.index() as int,
            _ => choose|j: int|
                #[trigger] nearest(buckets, requested, j) && second->Err_0->waste == crate::shape::elements(
                    buckets[j].inputs(),
                ) - crate::shape::elements(requested),
        };
        assert(nearest(buckets, requested, j));
        assert(fits(requested, buckets[j].inputs()));
    }
}

/// A canonical shape is classified as its own bucket, whatever the policy for other requests.
pub proof fn canonical_shape_is_its_own_bucket(
    buckets: Seq<CanonicalShape>,
    fallback: FallbackPolicy,
    i: int,
    result: Result<ShapeId, ClassifyError>,
)
    requires
        canonical(buckets),
        0 <= i < buckets.len(),
        outcome(buckets, fallback, buckets[i].inputs(), result),
    ensures
        result == Ok::<ShapeId, ClassifyError>(buckets[i].spec_id()),
{
    assert(!no_exact(buckets, buckets[i].inputs()));
    let j = result->Ok_0.index() as int;
    if i < j {
        assert(buckets[i].inputs() != buckets[j].inputs());
    } else if j < i {
        assert(buckets[j].inputs() != buckets[i].inputs());
    }
    shape_ids_are_positions(result->Ok_0, buckets[i].spec_id());
}

/// A strict plan admits the canonical shapes and no others.
pub proof fn strict_plan_admits_only_canonical_shapes(
    buckets: Seq<CanonicalShape>,
    requested: Seq<Seq<i64>>,
    result: Result<ShapeId, ClassifyError>,
)
    requires
        outcome(buckets, FallbackPolicy::Strict, requested, result),
    ensures
        result is Ok <==> exists|i: int|
            0 <= i < buckets.len() && #[trigger] buckets[i].inputs() == requested,
        result is Err ==> result->Err_0 == ClassifyError::NotInPlan,
{
    if result is Ok {
        assert(buckets[result->Ok_0.index() as int].inputs() == requested);
    }
}

/// An admitted request is the bucket's shapes exactly, or fits into them in every dimension with
/// an overhead within the limit.
pub proof fn admitted_request_fits(
    buckets: Seq<CanonicalShape>,
    fallback: FallbackPolicy,
    requested: Seq<Seq<i64>>,
    id: ShapeId,
)
    requires
        outcome(buckets, fallback, requested, Ok(id)),
    ensures
        id.index() < buckets.len(),
        buckets[id.index() as int].inputs() == requested || (fallback matches
            FallbackPolicy::PadToNearest { max_padding_waste_ratio } && fits(
            requested,
            buckets[id.index() as int].inputs(),
        ) && !max_padding_waste_ratio.exceeded_by(
            crate::shape::elements(buckets[id.index() as int].inputs()) - crate::shape::elements(requested),
            crate::shape::elements(requested),
        )),
{
}

} // verus!
