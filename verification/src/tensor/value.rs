//! Values that the engine owns: what is known of them, and what may be read.
use vstd::prelude::*;

use crate::element::{ElementType, OnnxType, TensorElement};
use crate::error::{fail, Access, Error, Fault};
use crate::memory::MemoryInfo;
use crate::tensor::buffer::ensure_value_host_accessible;
use crate::tensor::strings::read_string_tensor;
use crate::type_info::TensorTypeAndShapeInfo;

verus! {

/// A value that the engine produced.
#[derive(Debug, PartialEq, Eq)]
pub struct OwnedValue {
    /// The engine's handle.
    pub value: u64,
    pub onnx_type: OnnxType,
    pub elem_type: ElementType,
    /// The number of elements; zero where the value is no tensor.
    pub count: usize,
}

/// What the engine answered on being asked about a value. A null handle is zero.
#[derive(Debug)]
pub struct Introspection {
    pub value: u64,
    pub kind: Result<OnnxType, Error>,
    /// The type and shape, which is asked for only where the value is a tensor.
    pub info: Result<TensorTypeAndShapeInfo, Error>,
}

impl Introspection {
    /// What is known of the value, or the first failure.
    pub open spec fn outcome(self) -> Result<OwnedValue, Error> {
        match self.kind {
            Err(error) => Err(error),
            Ok(OnnxType::Tensor) => match self.info {
                Err(error) => Err(error),
                Ok(info) => match crate::shape::count_fault(info.spec_dims()) {
                    Some(error) => Err(error),
                    None => Ok(
                        OwnedValue {
                            value: self.value,
                            onnx_type: OnnxType::Tensor,
                            elem_type: info.spec_elem(),
                            count: crate::shape::product(info.spec_dims()) as usize,
                        },
                    ),
                },
            },
            Ok(kind) => Ok(
                OwnedValue {
                    value: self.value,
                    onnx_type: kind,
                    elem_type: ElementType::Undefined,
                    count: 0,
                },
            ),
        }
    }
}

/// The handles from `start` on that are not null.
pub open spec fn live_handles(values: Seq<u64>, start: int) -> Seq<u64>
    decreases values.len() - start,
{
    if start >= values.len() || start < 0 {
        Seq::empty()
    } else if values[start] != 0 {
        seq![values[start]] + live_handles(values, start + 1)
    } else {
        live_handles(values, start + 1)
    }
}

/// The handles of values.
pub open spec fn handles_of(values: Seq<Introspection>) -> Seq<u64> {
    Seq::new(values.len(), |i: int| values[i].value)
}

/// The first value that could not be understood.
pub open spec fn first_failure(values: Seq<Introspection>, n: int) -> Option<int>
    decreases n,
{
    if n <= 0 {
        None
    } else {
        match first_failure(values, n - 1) {
            Some(i) => Some(i),
            None => if values[n - 1].outcome() is Err {
                Some(n - 1)
            } else {
                None
            },
        }
    }
}

proof fn lemma_first_failure(values: Seq<Introspection>, n: int, m: int)
    requires
        0 <= n <= m,
        first_failure(values, n) is Some,
    ensures
        first_failure(values, m) == first_failure(values, n),
    decreases m - n,
{
    if n < m {
        lemma_first_failure(values, n, m - 1);
    }
}

/// Collect the handles from `start` on that are not null.
pub fn collect_live(values: &Vec<u64>, start: usize) -> (live: Vec<u64>)
    requires
        start <= values@.len(),
    ensures
        live@ == live_handles(values@, start as int),
{
    let mut live: Vec<u64> = Vec::new();
    let mut i: usize = start;
    assert(live@ + live_handles(values@, start as int) =~= live_handles(values@, start as int));
    while i < values.len()
        invariant
            start <= i <= values@.len(),
            live@ + live_handles(values@, i as int) == live_handles(values@, start as int),
        decreases values@.len() - i,
    {
        let ghost before = live@;
        let value: u64 = values[i];
        if value != 0 {
            live.push(value);
            assert(live@ + live_handles(values@, i + 1) =~= before + live_handles(
                values@,
                i as int,
            ));
        }
        i = i + 1;
    }
    assert(live@ + live_handles(values@, i as int) =~= live@);
    live
}

impl OwnedValue {
    /// Understand a value from the engine's answers. A value that cannot be understood is to be
    /// released, unless its handle is null.
    pub fn from_introspect(introspection: Introspection) -> (result: Result<
        OwnedValue,
        (Error, Option<u64>),
    >)
        ensures
            match introspection.outcome() {
                Ok(value) => result == Ok::<OwnedValue, (Error, Option<u64>)>(value),
                Err(error) => result == Err::<OwnedValue, (Error, Option<u64>)>(
                    (
                        error,
                        if introspection.value != 0 {
                            Some(introspection.value)
                        } else {
                            None
                        },
                    ),
                ),
            },
    {
        let value: u64 = introspection.value;
        let release: Option<u64> = if value != 0 {
            Some(value)
        } else {
            None
        };
        let kind: OnnxType = match introspection.kind {
            Err(error) => return Err((error, release)),
            Ok(kind) => kind,
        };
        if kind != OnnxType::Tensor {
            return Ok(
                OwnedValue { value, onnx_type: kind, elem_type: ElementType::Undefined, count: 0 },
            );
        }
        match introspection.info {
            Err(error) => Err((error, release)),
            Ok(info) => match info.element_count() {
                Err(error) => Err((error, release)),
                Ok(count) => Ok(
                    OwnedValue { value, onnx_type: kind, elem_type: info.element_type(), count },
                ),
            },
        }
    }

    /// Understand values one after the other. The first that cannot be understood and all behind
    /// it are to be released, unless their handles are null.
    pub fn collect_from_raw(values: Vec<Introspection>) -> (result: Result<
        Vec<OwnedValue>,
        (Error, Vec<u64>),
    >)
        ensures
            match first_failure(values@, values@.len() as int) {
                None => {
                    &&& result matches Ok(owned)
                    &&& owned@.len() == values@.len()
                    &&& forall|i: int|
                        0 <= i < owned@.len() ==> values@[i].outcome() == Ok::<OwnedValue, Error>(
                            #[trigger] owned@[i],
                        )
                },
                Some(i) => {
                    &&& result matches Err((error, release))
                    &&& values@[i].outcome() == Err::<OwnedValue, Error>(error)
                    &&& release@ == live_handles(handles_of(values@), i)
                },
            },
    {
        let ghost all = values@;
        let mut handles: Vec<u64> = Vec::new();
        let mut k: usize = 0;
        while k < values.len()
            invariant
                k <= values@.len(),
                values@ == all,
                handles@.len() == k,
                forall|j: int| 0 <= j < k ==> #[trigger] handles@[j] == all[j].value,
            decreases values@.len() - k,
        {
            handles.push(values[k].value);
            k = k + 1;
        }
        assert(handles@ =~= handles_of(all));
        let count: usize = values.len();
        let mut owned: Vec<OwnedValue> = Vec::new();
        let mut rest: Vec<Introspection> = values;
        let mut i: usize = 0;
        assert(rest@ =~= all.skip(0));
        while i < count
            invariant
                i <= count,
                count == all.len(),
                all == values@,
                handles@ == handles_of(all),
                rest@ == all.skip(i as int),
                owned@.len() == i,
                first_failure(all, i as int) is None,
                forall|j: int|
                    0 <= j < i ==> all[j].outcome() == Ok::<OwnedValue, Error>(
                        #[trigger] owned@[j],
                    ),
            decreases count - i,
        {
            let introspection: Introspection = rest.remove(0);
            proof {
                assert(introspection == all[i as int]);
                assert(rest@ =~= all.skip(i + 1));
            }
            match Self::from_introspect(introspection) {
                Ok(value) => {
                    owned.push(value);
                },
                Err((error, _)) => {
                    proof {
                        assert(first_failure(all, i + 1) == Some(i as int));
                        lemma_first_failure(all, i + 1, count as int);
                    }
                    return Err((error, collect_live(&handles, i)));
                },
            }
            i = i + 1;
        }
        Ok(owned)
    }

    /// The kind of value.
    pub fn onnx_type(&self) -> (kind: OnnxType)
        ensures
            kind == self.onnx_type,
    {
        self.onnx_type
    }

    /// The element type.
    pub fn element_type(&self) -> (element_type: ElementType)
        ensures
            element_type == self.elem_type,
    {
        self.elem_type
    }

    /// The number of elements.
    pub fn element_count(&self) -> (count: usize)
        ensures
            count == self.count,
    {
        self.count
    }

    /// The number of bytes: what the engine reports for a tensor that has bytes. Strings have none
    /// of their own.
    pub open spec fn byte_count(self, reported: Result<usize, Error>) -> Result<usize, Error> {
        if self.onnx_type != OnnxType::Tensor {
            Err::<usize, Error>(
                Error::NotATensor { access: Access::ByteLen, kind: self.onnx_type },
            )
        } else if self.elem_type == ElementType::String && reported is Ok {
            Err(Error::Fault(Fault::StringByteLen))
        } else {
            reported
        }
    }

    /// The number of bytes, as the engine reports it, where the value is a tensor that has bytes.
    pub fn byte_len(&self, reported: Result<usize, Error>) -> (bytes: Result<usize, Error>)
        ensures
            bytes == self.byte_count(reported),
    {
        if self.onnx_type != OnnxType::Tensor {
            return Err(Error::NotATensor { access: Access::ByteLen, kind: self.onnx_type });
        }
        match reported {
            Err(error) => Err(error),
            Ok(bytes) => {
                if self.elem_type == ElementType::String {
                    return fail(Fault::StringByteLen);
                }
                Ok(bytes)
            },
        }
    }

    /// `result` is what a read of the bytes gives: `reported` is their number and `data` what the
    /// engine gave for them.
    pub open spec fn bytes_read<'a>(
        self,
        reported: Result<usize, Error>,
        memory: MemoryInfo,
        data: Option<&'a [u8]>,
        result: Result<&'a [u8], Error>,
    ) -> bool {
        match self.byte_count(reported) {
            Err(error) => result == Err::<&'a [u8], Error>(error),
            Ok(count) => if !memory.host_accessible {
                result == Err::<&'a [u8], Error>(Error::TensorMemoryNotHost { memory })
            } else {
                match data {
                    Some(bytes) => result == Ok::<&'a [u8], Error>(bytes),
                    None => if count == 0 {
                        result matches Ok(bytes) && bytes@.len() == 0
                    } else {
                        result == Err::<&'a [u8], Error>(Error::Fault(Fault::TensorDataNull))
                    },
                }
            },
        }
    }

    /// The bytes, where they are in host memory. `reported` is their number and `data` what the
    /// engine gave for them; none is a null pointer. Packed elements are read as they are packed.
    pub fn as_bytes<'a>(
        &self,
        reported: Result<usize, Error>,
        memory: &MemoryInfo,
        data: Option<&'a [u8]>,
    ) -> (result: Result<&'a [u8], Error>)
        requires
            reported matches Ok(count) ==> data matches Some(bytes) ==> bytes@.len() == count,
        ensures
            self.bytes_read(reported, *memory, data, result),
    {
        let count: usize = match self.byte_len(reported) {
            Err(error) => return Err(error),
            Ok(count) => count,
        };
        if let Err(error) = ensure_value_host_accessible(memory) {
            return Err(error);
        }
        match data {
            Some(bytes) => Ok(bytes),
            None => {
                if count == 0 {
                    Ok(&[])
                } else {
                    fail(Fault::TensorDataNull)
                }
            },
        }
    }

    /// The element type and the shape, as the engine reports them; it must not be null.
    pub fn tensor_type_and_shape(
        &self,
        reported: Result<Option<TensorTypeAndShapeInfo>, Error>,
    ) -> (info: Result<TensorTypeAndShapeInfo, Error>)
        ensures
            info == match reported {
                Err(error) => Err::<TensorTypeAndShapeInfo, Error>(error),
                Ok(None) => Err(Error::Fault(Fault::TypeAndShapeNull)),
                Ok(Some(info)) => Ok(info),
            },
    {
        match reported {
            Err(error) => Err(error),
            Ok(None) => fail(Fault::TypeAndShapeNull),
            Ok(Some(info)) => Ok(info),
        }
    }

    /// Where the data lies, as the engine reports it.
    pub fn memory_info(&self, reported: Result<MemoryInfo, Error>) -> (memory: Result<
        MemoryInfo,
        Error,
    >)
        ensures
            memory == reported,
    {
        reported
    }

    /// The device of the data, where the engine can be asked for it: whether it has the functions
    /// for providers, whether the one for devices is among them, and what that one says.
    pub fn memory_device<D>(
        &self,
        providers: bool,
        devices: bool,
        reported: Result<D, Error>,
    ) -> (device: Result<D, Error>)
        ensures
            device == (if !providers {
                Err::<D, Error>(Error::Fault(Fault::EpApiUnavailable))
            } else if !devices {
                Err(Error::Fault(Fault::MemoryDeviceUnavailable))
            } else {
                reported
            }),
    {
        if !providers {
            return fail(Fault::EpApiUnavailable);
        }
        if !devices {
            return fail(Fault::MemoryDeviceUnavailable);
        }
        reported
    }

    /// The number of parts of a sequence or map, as the engine reports it.
    pub fn value_count(&self, reported: Result<usize, Error>) -> (count: Result<usize, Error>)
        ensures
            count == reported,
    {
        reported
    }

    /// Check the index of a part of a sequence or map, which the engine takes as a signed number.
    pub fn get_value(&self, index: usize, count: Result<usize, Error>) -> (part: Result<i32, Error>)
        ensures
            part == match count {
                Err(error) => Err::<i32, Error>(error),
                Ok(count) => if index >= count {
                    Err(Error::ValueIndexOutOfRange { index, count })
                } else if index > i32::MAX {
                    Err(Error::Fault(Fault::ValueIndexOverflow))
                } else {
                    Ok(index as i32)
                },
            },
    {
        match self.value_count(count) {
            Err(error) => Err(error),
            Ok(count) => {
                if index >= count {
                    return Err(Error::ValueIndexOutOfRange { index, count });
                }
                if index > i32::MAX as usize {
                    return fail(Fault::ValueIndexOverflow);
                }
                Ok(index as i32)
            },
        }
    }

    /// A value that can be handled on its device.
    pub fn into_device_value(self) -> (result: Result<DeviceValue, Error>)
        ensures
            if self.onnx_type == OnnxType::Tensor {
                result matches Ok(device) && device.inner() == self
            } else {
                result == Err::<DeviceValue, Error>(
                    Error::DeviceValueNotTensor { kind: self.onnx_type },
                )
            },
    {
        DeviceValue::from_owned(self)
    }

    /// Why the elements cannot be read as elements of type `T`.
    pub open spec fn read_fault<T: TensorElement>(self, memory: MemoryInfo) -> Option<Error> {
        if self.onnx_type != OnnxType::Tensor {
            Some(Error::NotATensor { access: Access::Slice, kind: self.onnx_type })
        } else if self.elem_type != T::spec_elem() {
            Some(
                Error::TypeMismatch {
                    access: Access::Slice,
                    requested: T::spec_elem(),
                    actual: self.elem_type,
                },
            )
        } else if !memory.host_accessible {
            Some(Error::TensorMemoryNotHost { memory })
        } else {
            None
        }
    }

    /// Check that the elements can be read as elements of type `T`, from the memory that the
    /// engine reports, before it is asked for them.
    pub fn check_slice<T: TensorElement>(&self, memory: &MemoryInfo) -> (result: Result<(), Error>)
        ensures
            match self.read_fault::<T>(*memory) {
                Some(error) => result == Err::<(), Error>(error),
                None => result is Ok,
            },
    {
        if self.onnx_type != OnnxType::Tensor {
            return Err(Error::NotATensor { access: Access::Slice, kind: self.onnx_type });
        }
        if self.elem_type != T::elem() {
            return Err(
                Error::TypeMismatch {
                    access: Access::Slice,
                    requested: T::elem(),
                    actual: self.elem_type,
                },
            );
        }
        ensure_value_host_accessible(memory)
    }

    /// The elements, where they are of type `T` and in host memory. `data` is what the engine
    /// gave for them; none is a null pointer.
    pub fn as_slice<'a, T: TensorElement>(
        &self,
        memory: &MemoryInfo,
        data: Option<&'a [T]>,
    ) -> (result: Result<&'a [T], Error>)
        requires
            data matches Some(elements) ==> elements@.len() == self.count,
        ensures
            match self.read_fault::<T>(*memory) {
                Some(error) => result == Err::<&'a [T], Error>(error),
                None => match data {
                    Some(elements) => result == Ok::<&'a [T], Error>(elements),
                    None => if self.count == 0 {
                        result matches Ok(elements) && elements@.len() == 0
                    } else {
                        result == Err::<&'a [T], Error>(Error::Fault(Fault::TensorDataNull))
                    },
                },
            },
    {
        if let Err(error) = self.check_slice::<T>(memory) {
            return Err(error);
        }
        match data {
            Some(elements) => Ok(elements),
            None => {
                if self.count == 0 {
                    Ok(&[])
                } else {
                    fail(Fault::TensorDataNull)
                }
            },
        }
    }

    /// Why the value cannot be read as strings.
    pub open spec fn strings_read_fault(self) -> Option<Error> {
        if self.onnx_type != OnnxType::Tensor {
            Some(Error::NotATensor { access: Access::Strings, kind: self.onnx_type })
        } else if self.elem_type != ElementType::String {
            Some(Error::NotStrings { actual: self.elem_type })
        } else {
            None
        }
    }

    /// Check that the value can be read as strings, before the engine is asked for them.
    pub fn check_strings(&self) -> (result: Result<(), Error>)
        ensures
            match self.strings_read_fault() {
                Some(error) => result == Err::<(), Error>(error),
                None => result is Ok,
            },
    {
        if self.onnx_type != OnnxType::Tensor {
            return Err(Error::NotATensor { access: Access::Strings, kind: self.onnx_type });
        }
        if self.elem_type != ElementType::String {
            return Err(Error::NotStrings { actual: self.elem_type });
        }
        Ok(())
    }

    /// The strings, from their bytes and offsets as the engine gave them.
    pub fn as_strings(&self, bytes: &[u8], offsets: &[usize]) -> (result: Result<
        Vec<String>,
        Error,
    >)
        requires
            offsets@.len() == self.count,
        ensures
            match self.strings_read_fault() {
                Some(error) => result == Err::<Vec<String>, Error>(error),
                None => match crate::tensor::strings::strings_fault(
                    bytes@,
                    offsets@,
                    offsets@.len() as int,
                ) {
                    Some(error) => result == Err::<Vec<String>, Error>(error),
                    None => {
                        &&& result matches Ok(strings)
                        &&& strings@.len() == offsets@.len()
                        &&& forall|i: int|
                            0 <= i < strings@.len() ==> vstd::utf8::encode_utf8(
                                (#[trigger] strings@[i])@,
                            ) == crate::tensor::strings::piece(bytes@, offsets@, i)
                    },
                },
            },
    {
        if let Err(error) = self.check_strings() {
            return Err(error);
        }
        read_string_tensor(bytes, offsets)
    }
}

/// A tensor that is handled on its device.
#[derive(Debug, PartialEq, Eq)]
pub struct DeviceValue {
    value: OwnedValue,
}

impl DeviceValue {
    /// The value.
    pub closed spec fn inner(self) -> OwnedValue {
        self.value
    }

    /// A value that can be handled on its device.
    pub fn from_owned(value: OwnedValue) -> (result: Result<DeviceValue, Error>)
        ensures
            if value.onnx_type == OnnxType::Tensor {
                result matches Ok(device) && device.inner() == value
            } else {
                result == Err::<DeviceValue, Error>(
                    Error::DeviceValueNotTensor { kind: value.onnx_type },
                )
            },
    {
        if value.onnx_type != OnnxType::Tensor {
            return Err(Error::DeviceValueNotTensor { kind: value.onnx_type });
        }
        Ok(DeviceValue { value })
    }

    /// The value.
    pub fn as_owned(&self) -> (value: &OwnedValue)
        ensures
            *value == self.inner(),
    {
        &self.value
    }

    /// Give the value away.
    pub fn into_owned(self) -> (value: OwnedValue)
        ensures
            value == self.inner(),
    {
        self.value
    }

    /// The element type.
    pub fn element_type(&self) -> (element_type: ElementType)
        ensures
            element_type == self.inner().elem_type,
    {
        self.value.element_type()
    }

    /// The number of elements.
    pub fn element_count(&self) -> (count: usize)
        ensures
            count == self.inner().count,
    {
        self.value.element_count()
    }

    /// The number of bytes, as the engine reports it, where the elements have bytes.
    pub fn byte_len(&self, reported: Result<usize, Error>) -> (bytes: Result<usize, Error>)
        ensures
            bytes == self.inner().byte_count(reported),
    {
        self.value.byte_len(reported)
    }

    /// Where the data lies, as the engine reports it.
    pub fn memory_info(&self, reported: Result<MemoryInfo, Error>) -> (memory: Result<
        MemoryInfo,
        Error,
    >)
        ensures
            memory == reported,
    {
        self.value.memory_info(reported)
    }

    /// The device of the data, where the engine can be asked for it.
    pub fn memory_device<D>(
        &self,
        providers: bool,
        devices: bool,
        reported: Result<D, Error>,
    ) -> (device: Result<D, Error>)
        ensures
            device == (if !providers {
                Err::<D, Error>(Error::Fault(Fault::EpApiUnavailable))
            } else if !devices {
                Err(Error::Fault(Fault::MemoryDeviceUnavailable))
            } else {
                reported
            }),
    {
        self.value.memory_device(providers, devices, reported)
    }
}

/// Only tensors of other elements than strings have a number of bytes, and a read of the bytes, where
/// the host can read them, gives exactly so many. The engine gives as many as it reports.
pub proof fn byte_reads_have_the_byte_length(
    value: OwnedValue,
    reported: Result<usize, Error>,
    memory: MemoryInfo,
    data: Option<&[u8]>,
    result: Result<&[u8], Error>,
)
    requires
        reported matches Ok(count) ==> data matches Some(bytes) ==> bytes@.len() == count,
        value.bytes_read(reported, memory, data, result),
    ensures
        value.onnx_type != OnnxType::Tensor || value.elem_type == ElementType::String
            ==> value.byte_count(reported) is Err,
        result matches Ok(bytes) ==> value.byte_count(reported) == Ok::<usize, Error>(
            bytes@.len() as usize,
        ),
        value.byte_count(reported) matches Ok(count) ==> memory.host_accessible && (data is Some
            || count == 0) ==> result is Ok,
{
}

} // verus!
