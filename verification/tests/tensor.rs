//! Tensors: element types, packed bytes, strings, sparse values and the memory they lie in.
use st_zrt::element::{
    packed_byte_len, packed_element_bits, Brain16, ElementType, Float32, Float64, Half16, OnnxType,
};
use st_zrt::error::{Error, Fault};
use st_zrt::memory::{AllocatorType, MemType, MemoryInfo};
use st_zrt::tensor::allocated::AllocatedTensor;
use st_zrt::tensor::buffer::{validate_packed_bytes_len, BufferReplies, BufferSpec, TensorBuffer};
use st_zrt::tensor::data::DenseElement;
use st_zrt::tensor::mmap::{
    file_range, map_file_range, mapped_bytes, MappedFile, MmapTensorOptions,
};
use st_zrt::tensor::sparse::{SparseFormat, SparseIndicesFormat, SparseReplies, SparseTensor};
use st_zrt::tensor::strings::{read_string_tensor, StringTensor};
use st_zrt::tensor::value::OwnedValue;
use st_zrt::tensor::view::Tensor;

fn float(value: f32) -> Float32 {
    Float32(value.to_bits())
}

fn floats<const N: usize>(values: [f32; N]) -> [Float32; N] {
    values.map(float)
}

fn double(value: f64) -> Float64 {
    Float64(value.to_bits())
}

fn round_trip<T: DenseElement>(buf: &[T], expected: ElementType, mem: &MemoryInfo) {
    let v = Tensor::from_buffer(buf, &[buf.len() as i64], mem, Ok(())).unwrap();
    let tsi = v.as_view().tensor_type_and_shape();
    assert_eq!(tsi.element_type(), expected, "element-type mapping");
    assert_eq!(tsi.element_count().unwrap(), buf.len(), "element count");
}

#[test]
fn tensor_view_read_accessors() {
    let buf = floats([1.0, 2.0, 3.0, 4.0]);
    let t = Tensor::copy_from_slice(&buf, &[2, 2], Ok(())).unwrap();
    let v = t.as_view();
    assert_eq!(v.element_type(), ElementType::Float);
    assert_eq!(v.element_count().unwrap(), 4);
    assert_eq!(v.dims(), vec![2, 2]);
    assert_eq!(v.byte_len().unwrap(), std::mem::size_of_val(&buf));
    assert_eq!(v.as_bytes().unwrap().len(), std::mem::size_of_val(&buf));
    assert_eq!(v.as_slice::<Float32>().unwrap(), &buf[..]);
}

#[test]
fn packed_sub_byte_tensor_wraps_and_reads_raw_bytes() {
    let mem = MemoryInfo::cpu();
    let bytes = [0x21, 0x43];
    let t = Tensor::from_packed_bytes(&bytes, &[4], ElementType::Uint4, &mem, Ok(())).unwrap();
    let v = t.as_view();
    assert_eq!(v.element_type(), ElementType::Uint4);
    assert_eq!(v.element_count().unwrap(), 4);
    assert_eq!(v.byte_len().unwrap(), bytes.len());
    assert_eq!(v.as_bytes().unwrap(), &bytes);
    assert!(v.as_slice::<u8>().is_err());
}

#[test]
fn packed_sub_byte_tensor_validates_storage_length() {
    let mem = MemoryInfo::cpu();
    assert!(Tensor::from_packed_bytes(&[0], &[4], ElementType::Uint4, &mem, Ok(())).is_err());
    assert!(validate_packed_bytes_len(&[4], ElementType::Uint2, 1).is_ok());
    assert!(Tensor::from_packed_bytes(&[0], &[1], ElementType::Uint8, &mem, Ok(())).is_err());
}

#[test]
fn tensor_constructors_reject_dynamic_and_mismatched_shapes() {
    let mem = MemoryInfo::cpu();
    let buf = floats([0.0; 4]);
    assert!(Tensor::from_buffer(&buf, &[-1, 4], &mem, Ok(())).is_err());
    assert!(Tensor::from_buffer(&buf, &[5], &mem, Ok(())).is_err());
    assert!(Tensor::from_buffer(&buf, &[2, 2], &mem, Ok(())).is_ok());
    assert!(Tensor::copy_from_slice(&buf, &[-1, 4], Ok(())).is_err());
    assert!(Tensor::copy_from_slice(&buf, &[5], Ok(())).is_err());
    assert!(Tensor::copy_from_slice(&buf, &[2, 2], Ok(())).is_ok());
}

#[test]
fn rust_slice_tensors_reject_cuda_device_memory() {
    let mem = MemoryInfo::cuda(0);
    let buf = floats([0.0; 4]);
    assert!(Tensor::from_buffer(&buf, &[2, 2], &mem, Ok(())).is_err());
    assert!(TensorBuffer::from_vec(buf.to_vec(), &[2, 2], &mem, Ok(())).is_err());
}

#[test]
fn string_tensor_rejects_dynamic_and_mismatched_shapes() {
    let strings = ["a", "b"];
    assert!(StringTensor::new(&strings, &[-1, 2], Ok(()), Ok(())).is_err());
    assert!(StringTensor::new(&strings, &[3], Ok(()), Ok(())).is_err());
    assert!(StringTensor::new(&strings, &[2], Ok(()), Ok(())).is_ok());
}

#[test]
fn allocated_tensor_cpu_round_trip_and_memory_info() {
    let mem = MemoryInfo::cpu();
    let data = floats([1.0, 2.0, 3.0, 4.0]);
    let mut tensor = AllocatedTensor::<Float32>::copy_from_slice(&mem, &[2, 2], &data, Ok(())).unwrap();
    assert_eq!(tensor.as_slice().unwrap(), &data);
    tensor.as_mut_slice().unwrap()[0] = float(9.0);
    assert_eq!(tensor.as_slice().unwrap()[0], float(9.0));

    let info = tensor.memory_info();
    assert_eq!(info.name, "Cpu");
    assert!(info.is_host_accessible());
}

#[test]
fn sparse_tensor_coo_copy_round_trip() {
    let values = floats([1.0, 2.0, 3.0]);
    let indices = [0i64, 1, 1, 0, 1, 2];
    let sparse =
        SparseTensor::copy_coo(&values, &[2, 3], &[3], &indices, SparseReplies::granted())
            .expect("coo sparse");

    assert!(sparse.is_sparse());
    assert_eq!(sparse.format(), SparseFormat::Coo);
    assert_eq!(sparse.values_as_slice().unwrap(), &values);
    assert_eq!(
        sparse.values_type_and_shape().element_type(),
        ElementType::Float
    );
    assert_eq!(
        SparseTensor::<Float32>::indices_element_type(SparseIndicesFormat::Coo),
        ElementType::Int64
    );
    assert_eq!(
        sparse.indices_i64(SparseIndicesFormat::Coo, Ok(())).unwrap(),
        &indices
    );
}

#[test]
fn sparse_tensor_coo_buffer_is_zero_copy() {
    let mem = MemoryInfo::cpu();
    let values = floats([1.0, 2.0, 3.0]);
    let indices = [0i64, 1, 1, 0, 1, 2];
    let granted = SparseReplies::granted();
    let sparse = SparseTensor::from_coo_buffer(&values, &[2, 3], &[3], &indices, &mem, granted)
        .expect("coo sparse buffer");

    assert_eq!(sparse.format(), SparseFormat::Coo);
    assert_eq!(sparse.values_as_slice().unwrap().as_ptr(), values.as_ptr());
    assert_eq!(
        sparse
            .indices_i64(SparseIndicesFormat::Coo, Ok(()))
            .unwrap()
            .as_ptr(),
        indices.as_ptr()
    );
    assert_eq!(sparse.values_as_slice().unwrap(), &floats([1.0, 2.0, 3.0]));
}

#[test]
fn sparse_tensor_csr_copy_round_trip() {
    let values = floats([1.0, 2.0, 3.0]);
    let inner = [1i64, 0, 2];
    let outer = [0i64, 1, 3];
    let granted = SparseReplies::granted();
    let sparse =
        SparseTensor::copy_csr(&values, &[2, 3], &[3], &inner, &outer, granted).expect("csr");

    assert_eq!(sparse.format(), SparseFormat::Csrc);
    assert_eq!(sparse.values_as_slice().unwrap(), &values);
    assert_eq!(
        sparse.indices_i64(SparseIndicesFormat::CsrInner, Ok(())).unwrap(),
        &inner
    );
    assert_eq!(
        sparse.indices_i64(SparseIndicesFormat::CsrOuter, Ok(())).unwrap(),
        &outer
    );
}

#[test]
fn sparse_tensor_block_sparse_copy_round_trip() {
    let values = floats([1.0, 2.0, 3.0, 4.0]);
    let indices = [0i32, 0, 1, 0];
    let granted = SparseReplies::granted();
    let sparse =
        SparseTensor::copy_block_sparse(&values, &[2, 2], &[2, 1, 2], &[2, 2], &indices, granted)
            .expect("block sparse");

    assert_eq!(sparse.format(), SparseFormat::BlockSparse);
    assert_eq!(sparse.values_as_slice().unwrap(), &values);
    assert_eq!(sparse.block_sparse_indices(Ok(())).unwrap(), &indices);
}

#[test]
fn sparse_tensor_block_sparse_buffer_is_zero_copy() {
    let mem = MemoryInfo::cpu();
    let values = floats([1.0, 2.0, 3.0, 4.0]);
    let indices = [0i32, 0, 1, 0];
    let sparse = SparseTensor::from_block_sparse_buffer(
        &values,
        &[2, 2],
        &[2, 1, 2],
        &[2, 2],
        &indices,
        &mem,
        SparseReplies::granted(),
    )
    .expect("block sparse buffer");

    assert_eq!(sparse.format(), SparseFormat::BlockSparse);
    assert_eq!(sparse.values_as_slice().unwrap().as_ptr(), values.as_ptr());
    assert_eq!(sparse.block_sparse_indices(Ok(())).unwrap().as_ptr(), indices.as_ptr());
}

#[test]
fn numeric_element_types() {
    let mem = MemoryInfo::cpu();
    round_trip::<Float32>(&[float(0.0); 4], ElementType::Float, &mem);
    round_trip::<Float64>(&[double(0.0); 2], ElementType::Double, &mem);
    round_trip::<i8>(&[0; 3], ElementType::Int8, &mem);
    round_trip::<i16>(&[0; 3], ElementType::Int16, &mem);
    round_trip::<i32>(&[0; 3], ElementType::Int32, &mem);
    round_trip::<i64>(&[0; 3], ElementType::Int64, &mem);
    round_trip::<u8>(&[0; 3], ElementType::Uint8, &mem);
    round_trip::<u16>(&[0; 3], ElementType::Uint16, &mem);
    round_trip::<u32>(&[0; 3], ElementType::Uint32, &mem);
    round_trip::<u64>(&[0; 3], ElementType::Uint64, &mem);
    round_trip::<bool>(&[false, true], ElementType::Bool, &mem);
}

#[test]
fn half_element_types() {
    let mem = MemoryInfo::cpu();
    round_trip::<Half16>(&[Half16(0); 3], ElementType::Float16, &mem);
    round_trip::<Brain16>(&[Brain16(0); 3], ElementType::Bfloat16, &mem);
}

#[test]
fn string_tensor_round_trip() {
    let words = ["hello", "", "world", "héllo", "wörld"];
    let st = StringTensor::new(&words, &[words.len() as i64], Ok(()), Ok(())).unwrap();
    let (bytes, offsets) = st.contents();
    let got = read_string_tensor(&bytes, &offsets).unwrap();
    assert_eq!(got, words);
    let value = OwnedValue {
        value: 3,
        onnx_type: OnnxType::Tensor,
        elem_type: ElementType::String,
        count: words.len(),
    };
    assert!(value.byte_len(Ok(bytes.len())).is_err());
}

#[test]
fn string_elements_hold_no_nul() {
    let error = StringTensor::new(&["a\0b"], &[1], Ok(()), Ok(())).unwrap_err();
    assert!(matches!(error, Error::Fault(Fault::StringElementNul)));
}

#[test]
fn string_data_must_be_text() {
    let error = read_string_tensor(&[0xff], &[0]).unwrap_err();
    assert!(matches!(error, Error::Fault(Fault::StringDataNotUtf8)));
    let error = read_string_tensor(&[b'a', b'b'], &[1, 0]).unwrap_err();
    assert!(matches!(error, Error::StringOffsets { .. }));
}

#[test]
fn bytes_are_little_endian() {
    let mem = MemoryInfo::cpu();
    let buf = [0x0102_0304u32, 5];
    let t = Tensor::from_buffer(&buf, &[2], &mem, Ok(())).unwrap();
    assert_eq!(t.as_view().as_bytes().unwrap(), [4, 3, 2, 1, 5, 0, 0, 0]);
    let one = [float(1.0)];
    let t = Tensor::from_buffer(&one, &[1], &mem, Ok(())).unwrap();
    assert_eq!(t.as_view().as_bytes().unwrap(), 1.0f32.to_le_bytes());
}

#[test]
fn packed_lengths_round_up() {
    assert_eq!(packed_element_bits(ElementType::Int4), Some(4));
    assert_eq!(packed_element_bits(ElementType::Int2), Some(2));
    assert_eq!(packed_element_bits(ElementType::Int8), None);
    assert_eq!(packed_byte_len(5, 4), 3);
    assert_eq!(packed_byte_len(5, 2), 2);
    assert_eq!(packed_byte_len(0, 2), 0);
}

#[test]
fn slices_of_another_type_are_refused() {
    let mem = MemoryInfo::cpu();
    let buf = [1i32, 2];
    let t = Tensor::from_buffer(&buf, &[2], &mem, Ok(())).unwrap();
    let error = t.as_view().as_slice::<i64>().unwrap_err();
    assert_eq!(error.message(), "zrt: as_slice<i64> on a Int32 tensor");
    assert_eq!(t.as_view().as_slice::<i32>().unwrap(), &buf);
}

#[test]
fn zeroed_buffers_hold_zeros() {
    let mem = MemoryInfo::cpu();
    let buffer = TensorBuffer::<i64>::zeros(&[2, 3], &mem, BufferReplies::granted()).unwrap();
    assert_eq!(buffer.as_slice(), &[0; 6]);
    assert_eq!(buffer.shape(), &[2, 3]);
    assert_eq!(buffer.byte_len().unwrap(), 48);
    let mut buffer = TensorBuffer::<i64>::zeros_aligned(&[4], 64, &mem, BufferReplies::granted()).unwrap();
    buffer.as_mut_slice()[3] = 7;
    assert_eq!(buffer.as_slice(), &[0, 0, 0, 7]);
    assert!(matches!(
        TensorBuffer::<i64>::zeros_aligned(&[4], 12, &mem, BufferReplies::granted()).unwrap_err(),
        Error::BadAlignment { alignment: 12 }
    ));
}

#[test]
fn buffer_policies_default_to_the_other() {
    assert_eq!(
        BufferSpec::Auto.or_if_auto(BufferSpec::aligned(64)),
        BufferSpec::aligned(64)
    );
    assert_eq!(
        BufferSpec::aligned(32).or_if_auto(BufferSpec::aligned(64)),
        BufferSpec::aligned(32)
    );
}

#[test]
fn sparse_index_lengths_are_checked() {
    let values = [1i32, 2, 3];
    assert!(matches!(
        SparseTensor::copy_coo(&values, &[2, 3], &[3], &[0, 1], SparseReplies::granted())
            .unwrap_err()
            .error,
        Error::CooLength { got: 2 }
    ));
    assert!(matches!(
        SparseTensor::copy_csr(&values, &[2, 3], &[3], &[0, 1], &[0, 1, 3], SparseReplies::granted())
            .unwrap_err()
            .error,
        Error::CsrInnerLength { .. }
    ));
    assert!(matches!(
        SparseTensor::copy_csr(&values, &[2, 3], &[3], &[1, 0, 2], &[0, 3], SparseReplies::granted())
            .unwrap_err()
            .error,
        Error::CsrOuterLength { .. }
    ));
    assert!(SparseTensor::copy_coo(&values, &[2, 3], &[3], &[0, 1, 5], SparseReplies::granted()).is_ok());
}

#[test]
fn device_values_cannot_be_read_as_slices() {
    let tensor = AllocatedTensor::<i32>::new(&MemoryInfo::cuda(1), &[2], Ok(())).unwrap();
    assert!(matches!(
        tensor.as_slice().unwrap_err(),
        Error::TensorMemoryNotHost { .. }
    ));
    assert_eq!(tensor.len(), 2);
    assert_eq!(tensor.raw_typed_ptr(Ok(64)).unwrap(), 64);
    assert!(tensor.raw_mut_ptr(Ok(0)).is_err());
}

#[test]
fn file_ranges_start_on_a_page() {
    assert_eq!(mapped_bytes::<i32>(&[3, 5]).unwrap(), 60);
    let range = file_range(60, 5000, 6000, "m.bin".to_owned()).unwrap();
    let mapped = map_file_range(range, 4096).unwrap();
    assert_eq!(mapped.map_offset, 4096);
    assert_eq!(mapped.data_offset, 904);
    assert_eq!(mapped.len, 964);
    assert!(matches!(
        file_range(60, 5980, 6000, "m.bin".to_owned()).unwrap_err(),
        Error::MmapRange {
            start: 5980,
            end: 6040,
            file_len: 6000,
            ..
        }
    ));
}

#[test]
fn mapped_files_become_buffers() {
    let mapped = |locked| MappedFile {
        path: "m.bin".to_owned(),
        file_len: Ok(24),
        page_size: Ok(4096),
        address: Ok(8192),
        locked,
        elements: vec![5i32, 6, 7],
    };
    let options = MmapTensorOptions {
        byte_offset: 8,
        locked: true,
        ..MmapTensorOptions::default()
    };
    let mem = MemoryInfo::cpu();
    let buffer =
        TensorBuffer::from_mmap_file_with_options(&[3], &mem, options, mapped(Ok(())), Ok(())).unwrap();
    assert_eq!(buffer.as_slice(), &[5, 6, 7]);
    let refused = Err(Error::new(12, "no pages".to_owned()));
    assert_eq!(
        TensorBuffer::from_mmap_file_with_options(&[3], &mem, options, mapped(refused), Ok(()))
            .unwrap_err()
            .message(),
        "no pages"
    );
    assert!(matches!(
        TensorBuffer::from_mmap_file(&[7], &mem, mapped(Ok(())), Ok(())).unwrap_err(),
        Error::MmapRange { .. }
    ));
    assert_eq!(
        TensorBuffer::from_mmap_file(&[7], &mem, mapped(Ok(())), Ok(()))
            .unwrap_err()
            .message(),
        "mmap tensor range [0..28) exceeds file size 24 for m.bin"
    );
    let odd = MmapTensorOptions {
        byte_offset: 2,
        ..MmapTensorOptions::default()
    };
    assert_eq!(
        TensorBuffer::from_mmap_file_with_options(&[3], &mem, odd, mapped(Ok(())), Ok(()))
            .unwrap_err()
            .message(),
        "mmap tensor data pointer is not aligned for i32"
    );
}

#[test]
fn null_addresses_are_refused() {
    let buffer = TensorBuffer::<u8>::zeros(&[1], &MemoryInfo::cpu(), BufferReplies::granted()).unwrap();
    assert_eq!(buffer.engine_data_ptr(Ok(8)).unwrap(), 8);
    assert!(matches!(
        buffer.engine_data_ptr(Ok(0)).unwrap_err(),
        Error::Fault(Fault::TensorDataNull)
    ));
    let empty = TensorBuffer::<u8>::zeros(&[0], &MemoryInfo::cpu(), BufferReplies::granted()).unwrap();
    assert_eq!(empty.engine_data_ptr(Ok(0)).unwrap(), 0);
}

#[test]
fn bytes_of_values_are_as_many_as_reported() {
    let value = |onnx_type, elem_type| OwnedValue {
        value: 3,
        onnx_type,
        elem_type,
        count: 2,
    };
    let (cpu, cuda) = (MemoryInfo::cpu(), MemoryInfo::cuda(0));
    let data = [1u8, 0, 0, 0, 2, 0, 0, 0];
    let tensor = value(OnnxType::Tensor, ElementType::Int32);
    assert_eq!(tensor.byte_len(Ok(8)).unwrap(), 8);
    assert_eq!(tensor.as_bytes(Ok(8), &cpu, Some(&data)).unwrap(), &data);
    assert!(tensor.as_bytes(Ok(8), &cuda, Some(&data)).is_err());
    assert!(tensor.as_bytes(Ok(8), &cpu, None).is_err());
    assert!(tensor.as_bytes(Ok(0), &cpu, None).unwrap().is_empty());
    let strings = value(OnnxType::Tensor, ElementType::String);
    assert!(matches!(
        strings.byte_len(Ok(8)),
        Err(Error::Fault(Fault::StringByteLen))
    ));
    let list = value(OnnxType::Sequence, ElementType::Undefined);
    assert!(list.byte_len(Ok(8)).is_err());
    assert_eq!(list.value_count(Ok(2)).unwrap(), 2);
    assert!(matches!(
        tensor.tensor_type_and_shape(Ok(None)),
        Err(Error::Fault(Fault::TypeAndShapeNull))
    ));
    assert!(matches!(
        tensor.memory_device(false, true, Ok(1)),
        Err(Error::Fault(Fault::EpApiUnavailable))
    ));
    assert!(matches!(
        tensor.memory_device(true, false, Ok(1)),
        Err(Error::Fault(Fault::MemoryDeviceUnavailable))
    ));
    let device = tensor.into_device_value().unwrap();
    assert_eq!(device.memory_info(Ok(cuda)).unwrap().device_id, 0);
    assert_eq!(device.memory_device(true, true, Ok(7)).unwrap(), 7);
}

#[test]
fn allocated_tensors_are_viewed_on_the_host() {
    let tensor = AllocatedTensor::copy_from_slice(&MemoryInfo::cpu(), &[2], &[5i32, 6], Ok(())).unwrap();
    let view = tensor.as_view().unwrap();
    assert_eq!(view.dims(), vec![2]);
    assert_eq!(view.as_slice::<i32>().unwrap(), &[5, 6]);
    let remote = AllocatedTensor::<i32>::new(&MemoryInfo::cuda(0), &[2], Ok(())).unwrap();
    assert!(remote.as_view().is_none());
}

fn refused() -> Result<(), Error> {
    Err(Error::new(4, "refused".to_owned()))
}

fn is_refusal<T>(result: Result<T, Error>) -> bool {
    matches!(result, Err(Error::Engine { code: 4, .. }))
}

#[test]
fn refused_values_are_not_made() {
    let mem = MemoryInfo::cpu();
    assert!(is_refusal(AllocatedTensor::<i32>::new(&mem, &[2], refused())));
    assert!(is_refusal(AllocatedTensor::copy_from_slice(&mem, &[2], &[1i32, 2], refused())));
    assert!(is_refusal(Tensor::from_buffer(&[1i32, 2], &[2], &mem, refused())));
    assert!(is_refusal(Tensor::copy_from_slice(&[1i32, 2], &[2], refused())));
    assert!(is_refusal(Tensor::from_packed_bytes(
        &[0x21],
        &[2],
        ElementType::Uint4,
        &mem,
        refused()
    )));
    assert!(is_refusal(TensorBuffer::from_vec(vec![1i32, 2], &[2], &mem, refused())));
    assert!(matches!(
        Tensor::from_buffer(&[1i32, 2], &[3], &mem, refused()),
        Err(Error::ShapeLength { .. })
    ));
}

#[test]
fn refused_locks_fail_the_buffers_that_ask_for_them() {
    let mem = MemoryInfo::cpu();
    let unlocked = || BufferReplies {
        locked: refused(),
        created: Ok(()),
    };
    assert!(is_refusal(TensorBuffer::<i32>::zeros_aligned_mlocked(&[4], 64, &mem, unlocked())));
    assert!(is_refusal(TensorBuffer::<i32>::zeros_aligned_hugepage_mlocked_prefaulted(
        &[4],
        64,
        &mem,
        unlocked()
    )));
    assert!(TensorBuffer::<i32>::zeros_aligned(&[4], 64, &mem, unlocked()).is_ok());
    assert!(TensorBuffer::<i32>::zeros_aligned_mlocked(&[0], 64, &mem, unlocked()).is_ok());
    let uncreated = || BufferReplies {
        locked: Ok(()),
        created: refused(),
    };
    assert!(is_refusal(TensorBuffer::<i32>::zeros(&[4], &mem, uncreated())));
    assert!(is_refusal(TensorBuffer::<i32>::zeros_prefaulted(&[4], &mem, uncreated())));
    assert!(matches!(
        TensorBuffer::<i32>::zeros_aligned_mlocked(&[4], 12, &mem, unlocked()),
        Err(Error::BadAlignment { alignment: 12 })
    ));
}

#[test]
fn sparse_values_that_cannot_be_filled_are_released() {
    let values = [1i32, 2, 3];
    let uncreated = SparseReplies {
        created: refused(),
        filled: Ok(()),
    };
    let failure =
        SparseTensor::copy_coo(&values, &[2, 3], &[3], &[0, 1, 5], uncreated).unwrap_err();
    assert!(!failure.release);
    assert!(is_refusal::<()>(Err(failure.error)));
    let unfilled = SparseReplies {
        created: Ok(()),
        filled: refused(),
    };
    let failure =
        SparseTensor::copy_coo(&values, &[2, 3], &[3], &[0, 1, 5], unfilled).unwrap_err();
    assert!(failure.release);
    assert!(is_refusal::<()>(Err(failure.error)));
}

#[test]
fn string_tensors_are_created_before_their_strings_are_read() {
    assert!(is_refusal(StringTensor::new(&["a\0b"], &[1], refused(), Ok(()))));
    assert!(is_refusal(StringTensor::new(&["ab"], &[1], Ok(()), refused())));
    assert!(matches!(
        StringTensor::new(&["a\0b"], &[1], Ok(()), refused()),
        Err(Error::Fault(Fault::StringElementNul))
    ));
}

#[test]
fn writing_one_element_keeps_the_rest() {
    let mem = MemoryInfo::cpu();
    let mut buffer = TensorBuffer::from_vec(vec![1i32, 2, 3], &[3], &mem, Ok(())).unwrap();
    let start = buffer.as_slice().as_ptr();
    buffer.as_mut_slice()[1] = 9;
    assert_eq!(buffer.as_slice(), &[1, 9, 3]);
    assert_eq!(buffer.as_slice().as_ptr(), start);
    assert_eq!(buffer.shape(), &[3]);
    assert_eq!(buffer.memory_info(), &mem);
    assert_eq!(buffer.backing(), BufferSpec::Auto);
}

#[test]
fn device_memory_is_described_in_full() {
    let memory = MemoryInfo::cuda(3);
    assert_eq!(memory.name, "Cuda");
    assert_eq!(memory.device_id, 3);
    assert_eq!(memory.alloc_type, AllocatorType::Arena);
    assert_eq!(memory.mem_type, MemType::Default);
    assert!(!memory.host_accessible);
}
