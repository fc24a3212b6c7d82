//! Static types and shapes.
use st_zrt::element::{ElementType, OnnxType};
use st_zrt::error::{Error, Fault};
use st_zrt::shape::checked_element_count;
use st_zrt::type_info::{RuntimeType, RuntimeTypeInfo, TensorTypeAndShapeInfo};

#[test]
fn type_and_shape_info_builder_round_trip() {
    let mut info = TensorTypeAndShapeInfo::new(Ok(())).unwrap();
    info.set_element_type(ElementType::Float, Ok(())).unwrap();
    info.set_dimensions(&[2, 3], Ok(())).unwrap();
    info.set_symbolic_dimensions(&["batch", "feature"], Ok(()))
        .expect("set symbolic dimensions");
    assert_eq!(info.element_type(), ElementType::Float);
    assert_eq!(info.dims(), vec![2, 3]);
    assert_eq!(info.rank(), 2);
    assert_eq!(info.element_count().unwrap(), 6);
    assert_eq!(
        info.symbolic_dims().unwrap(),
        vec![Some("batch"), Some("feature")]
    );
}

#[test]
fn type_info_accepts_newer_quantized_metadata_element_types() {
    for ty in [
        ElementType::Float8E4M3FN,
        ElementType::Float8E5M2,
        ElementType::Uint4,
        ElementType::Int4,
        ElementType::Float4E2M1,
    ] {
        let mut info = TensorTypeAndShapeInfo::new(Ok(())).unwrap();
        info.set_element_type(ty, Ok(())).unwrap();
        assert_eq!(info.element_type(), ty);
    }
}

#[test]
fn checked_element_count_rejects_dynamic_and_overflow() {
    assert_eq!(checked_element_count(&[1, 1000]).unwrap(), 1000);
    assert!(checked_element_count(&[-1, 1000]).is_err());
    assert!(checked_element_count(&[i64::MAX, 3]).is_err());
}

#[test]
fn element_counts_name_their_fault() {
    assert!(matches!(
        checked_element_count(&[4, -1]).unwrap_err(),
        Error::DynamicDimension { dimension: -1 }
    ));
    assert!(matches!(
        checked_element_count(&[i64::MAX, 3]).unwrap_err(),
        Error::Fault(Fault::ElementCountOverflow)
    ));
    assert_eq!(checked_element_count(&[]).unwrap(), 1);
    assert_eq!(checked_element_count(&[0, 7]).unwrap(), 0);
}

#[test]
fn symbolic_names_hold_no_nul() {
    let mut info = TensorTypeAndShapeInfo::new(Ok(())).unwrap();
    assert!(matches!(
        info.set_symbolic_dimensions(&["a", "b\0"], Ok(())).unwrap_err(),
        Error::Fault(Fault::SymbolicDimNul)
    ));
}

#[test]
fn symbolic_names_must_be_text() {
    let info =
        TensorTypeAndShapeInfo::from_report(ElementType::Float, vec![1], vec![Some(vec![0xff])]);
    assert!(matches!(
        info.symbolic_dims().unwrap_err(),
        Error::Fault(Fault::SymbolicDimNotUtf8)
    ));
}

#[test]
fn casts_follow_the_kind() {
    let tensor = RuntimeTypeInfo {
        kind: RuntimeType::Tensor {
            element_type: ElementType::Int64,
            has_shape: true,
            shape_element_count: 12,
        },
        denotation: b"IMAGE".to_vec(),
    };
    assert_eq!(tensor.onnx_type(), OnnxType::Tensor);
    assert_eq!(tensor.denotation().unwrap(), "IMAGE");
    assert!(tensor.cast_to_map().is_none());
    let view = tensor.cast_to_tensor().unwrap();
    assert_eq!(view.element_type(), ElementType::Int64);
    assert!(view.has_shape());
    assert_eq!(view.shape_element_count(), 12);
}

#[test]
fn denotations_must_be_text() {
    let info = RuntimeTypeInfo {
        kind: RuntimeType::Tensor {
            element_type: ElementType::Int64,
            has_shape: false,
            shape_element_count: 0,
        },
        denotation: vec![0xc3],
    };
    assert!(matches!(
        info.denotation().unwrap_err(),
        Error::Fault(Fault::DenotationNotUtf8)
    ));
}

#[test]
fn refused_changes_leave_the_description_as_it_was() {
    let refused = || Err(Error::new(4, "refused".to_owned()));
    assert!(TensorTypeAndShapeInfo::new(refused()).is_err());
    let mut info = TensorTypeAndShapeInfo::new(Ok(())).unwrap();
    info.set_dimensions(&[2], Ok(())).unwrap();
    assert!(info.set_element_type(ElementType::Float, refused()).is_err());
    assert!(info.set_dimensions(&[3], refused()).is_err());
    assert!(info.set_symbolic_dimensions(&["a"], refused()).is_err());
    assert_eq!(info.element_type(), ElementType::Undefined);
    assert_eq!(info.dims(), vec![2]);
    assert_eq!(info.symbolic_dims().unwrap(), vec![None]);
}
