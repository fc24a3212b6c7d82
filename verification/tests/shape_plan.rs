//! Serving shape plans: classification, padding and what a plan refuses.
use st_zrt::error::Error;
use st_zrt::ratio::PaddingRatio;
use st_zrt::shape_plan::{
    ClassifyError, FallbackPolicy, OutputPolicy, ServingShapePlan, ShapeHash, ShapeId, ShapeKind,
    ShapePlanError,
};

fn ratio(value: f32) -> PaddingRatio {
    PaddingRatio::from_bits(value.to_bits())
}

fn plan(policy: FallbackPolicy) -> ServingShapePlan {
    let mut builder = ServingShapePlan::builder();
    builder.fallback_policy(policy);
    builder
        .add_shape(
            vec![vec![1, 8], vec![1, 8]],
            vec![vec![1, 384]],
            OutputPolicy::HostBuffer,
        )
        .add_shape(
            vec![vec![32, 64], vec![32, 64]],
            vec![vec![32, 384]],
            OutputPolicy::DeviceResident,
        )
        .add_shape(
            vec![vec![64, 128], vec![64, 128]],
            vec![vec![64, 384]],
            OutputPolicy::CudaPinned,
        );
    builder.build().unwrap()
}

#[test]
fn exact_classification_is_stable() {
    let plan = plan(FallbackPolicy::Strict);
    assert_eq!(
        plan.classify(&[&[32, 64], &[32, 64]]),
        Ok(ShapeId::from_index(1))
    );
    assert_eq!(
        plan.bucket(ShapeId::from_index(1)).unwrap().output_policy(),
        OutputPolicy::DeviceResident
    );
}

#[test]
fn strict_and_fallback_session_signal_a_miss() {
    for policy in [FallbackPolicy::Strict, FallbackPolicy::FallbackSession] {
        assert_eq!(
            plan(policy).classify(&[&[16, 32], &[16, 32]]),
            Err(ClassifyError::NotInPlan)
        );
    }
}

#[test]
fn padding_selects_smallest_fitting_bucket() {
    let plan = plan(FallbackPolicy::PadToNearest {
        max_padding_waste_ratio: ratio(3.0),
    });
    assert_eq!(
        plan.classify(&[&[16, 32], &[16, 32]]),
        Ok(ShapeId::from_index(1))
    );
}

#[test]
fn padding_limit_is_enforced() {
    let plan = plan(FallbackPolicy::PadToNearest {
        max_padding_waste_ratio: ratio(0.25),
    });
    assert!(matches!(
        plan.classify(&[&[16, 32], &[16, 32]]),
        Err(ClassifyError::PaddingWasteExceeded { .. })
    ));
}

#[test]
fn builder_rejects_duplicate_and_dynamic_shapes() {
    let mut duplicate = ServingShapePlan::builder();
    duplicate
        .add_shape(vec![vec![1, 8]], vec![vec![1, 3]], OutputPolicy::HostBuffer)
        .add_shape(vec![vec![1, 8]], vec![vec![1, 9]], OutputPolicy::HostBuffer);
    assert_eq!(
        duplicate.build().unwrap_err(),
        ShapePlanError::DuplicateShape
    );

    let mut dynamic = ServingShapePlan::builder();
    dynamic.add_shape(vec![vec![-1, 8]], vec![vec![1, 3]], OutputPolicy::HostBuffer);
    assert!(matches!(
        dynamic.build(),
        Err(ShapePlanError::NonPositiveDimension { .. })
    ));
}

#[test]
fn waste_is_reported_with_its_request() {
    let plan = plan(FallbackPolicy::PadToNearest {
        max_padding_waste_ratio: ratio(0.25),
    });
    // Two inputs of 16 x 32 are padded to 32 x 64 each: 1024 requested, 3072 wasted.
    match plan.classify(&[&[16, 32], &[16, 32]]) {
        Err(ClassifyError::PaddingWasteExceeded {
            waste, requested, ..
        }) => {
            assert_eq!(requested, 1024);
            assert_eq!(waste, 3072);
        },
        other => panic!("{other:?}"),
    }
    let error = plan.classify(&[&[16, 32], &[16, 32]]).unwrap_err();
    assert_eq!(
        error.numbered_text("3.000", "0.250"),
        "nearest serving shape padding waste 3.000 exceeds limit 0.250"
    );
    assert_eq!(
        Error::ShapeRejected { error }.numbered_message("3.000", "0.250"),
        "zrt: serving shape rejected by sealed plan: nearest serving shape padding waste 3.000 \
         exceeds limit 0.250"
    );
    assert_eq!(
        ShapePlanError::InvalidPaddingWasteRatio(ratio(-1.0)).numbered_message("-1"),
        "max_padding_waste_ratio must be finite and non-negative, got -1"
    );
}

#[test]
fn copies_of_plans_classify_alike() {
    let plan = plan(FallbackPolicy::Strict);
    let copy = plan.clone();
    assert_eq!(copy.buckets(), plan.buckets());
    for shape in plan.buckets() {
        let inputs: Vec<&[i64]> = shape.input_shapes().iter().map(|dims| &dims[..]).collect();
        assert_eq!(copy.classify(&inputs), Ok(shape.id()));
    }
}

#[test]
fn requests_beyond_every_bucket_do_not_fit() {
    let plan = plan(FallbackPolicy::PadToNearest {
        max_padding_waste_ratio: ratio(1000.0),
    });
    assert_eq!(
        plan.classify(&[&[65, 128], &[64, 128]]),
        Err(ClassifyError::NoFittingShape)
    );
}

#[test]
fn empty_plans_are_refused() {
    assert_eq!(
        ServingShapePlan::builder().build().unwrap_err(),
        ShapePlanError::EmptyPlan
    );
    let mut inputs = ServingShapePlan::builder();
    inputs.add_shape(vec![], vec![vec![1]], OutputPolicy::HostBuffer);
    assert_eq!(inputs.build().unwrap_err(), ShapePlanError::EmptyInputSet);
}

#[test]
fn output_dimensions_must_be_positive() {
    let mut outputs = ServingShapePlan::builder();
    outputs.add_shape(vec![vec![1, 8]], vec![vec![1, 0]], OutputPolicy::HostBuffer);
    assert_eq!(
        outputs.build().unwrap_err(),
        ShapePlanError::NonPositiveDimension {
            kind: ShapeKind::Output,
            dimension: 0
        }
    );
}

#[test]
fn negative_ratios_are_refused() {
    for value in [-1.0, f32::NAN, f32::INFINITY] {
        let mut builder = ServingShapePlan::builder();
        builder
            .fallback_policy(FallbackPolicy::PadToNearest {
                max_padding_waste_ratio: ratio(value),
            })
            .add_shape(vec![vec![1]], vec![vec![1]], OutputPolicy::HostBuffer);
        assert!(builder.build().is_err(), "{value}");
    }
}

#[test]
fn sealed_plans_classify_their_own_shapes() {
    let plan = plan(FallbackPolicy::Strict);
    assert_eq!(plan.len(), 3);
    assert!(!plan.is_empty());
    for (i, bucket) in plan.buckets().iter().enumerate() {
        assert_eq!(bucket.id().as_usize(), i);
        let shapes: Vec<&[i64]> = bucket.input_shapes().iter().map(Vec::as_slice).collect();
        assert_eq!(plan.classify(&shapes), Ok(bucket.id()));
    }
}

#[test]
fn hashes_depend_on_every_dimension() {
    let hash = ShapeHash::from_slices(&[&[1, 8], &[1, 8]]);
    assert_eq!(hash, ShapeHash::from_slices(&[&[1, 8], &[1, 8]]));
    assert_ne!(hash, ShapeHash::from_slices(&[&[1, 8], &[1, 9]]));
    assert_ne!(hash, ShapeHash::from_slices(&[&[1, 8]]));
}

#[test]
fn ratios_compare_as_single_precision_numbers() {
    let half = ratio(0.5);
    assert!(!half.exceeds(1, 2));
    assert!(half.exceeds(2, 3));
    assert!(half.is_valid());
    assert_eq!(half.to_bits(), 0.5f32.to_bits());
}
