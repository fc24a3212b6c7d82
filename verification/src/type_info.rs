//! What the engine reports of the types and shapes of values.
use vstd::prelude::*;

use crate::element::{ElementType, OnnxType};
use crate::error::{fail, Error, Fault};
use crate::shape::{checked_element_count, copy_dims};
use crate::text::{contains_nul, utf8_text};

verus! {

/// The element type and the shape of a tensor.
#[derive(Debug)]
pub struct TensorTypeAndShapeInfo {
    element_type: ElementType,
    dims: Vec<i64>,
    symbolic: Vec<Option<Vec<u8>>>,
}

impl TensorTypeAndShapeInfo {
    /// The element type.
    pub closed spec fn spec_elem(self) -> ElementType {
        self.element_type
    }

    /// The dimensions.
    pub closed spec fn spec_dims(self) -> Seq<i64> {
        self.dims@
    }

    /// The bytes of the names of the dimensions, as far as they have names.
    pub closed spec fn names(self) -> Seq<Option<Vec<u8>>> {
        self.symbolic@
    }

    /// The bytes of the name of dimension `i`.
    pub open spec fn name_at(self, i: int) -> Option<Vec<u8>> {
        if i < self.names().len() {
            self.names()[i]
        } else {
            None
        }
    }

    /// Nothing is known yet. `created` is the engine's answer.
    pub fn new(created: Result<(), Error>) -> (result: Result<TensorTypeAndShapeInfo, Error>)
        ensures
            match created {
                Err(error) => result == Err::<TensorTypeAndShapeInfo, Error>(error),
                Ok(()) => {
                    &&& result matches Ok(info)
                    &&& info.spec_elem() == ElementType::Undefined
                    &&& info.spec_dims() == Seq::<i64>::empty()
                    &&& info.names() == Seq::<Option<Vec<u8>>>::empty()
                },
            },
    {
        match created {
            Err(error) => Err(error),
            Ok(()) => Ok(
                TensorTypeAndShapeInfo {
                    element_type: ElementType::Undefined,
                    dims: Vec::new(),
                    symbolic: Vec::new(),
                },
            ),
        }
    }

    /// What the engine reported.
    pub fn from_report(
        element_type: ElementType,
        dims: Vec<i64>,
        symbolic: Vec<Option<Vec<u8>>>,
    ) -> (info: TensorTypeAndShapeInfo)
        ensures
            info.spec_elem() == element_type,
            info.spec_dims() == dims@,
            info.names() == symbolic@,
    {
        TensorTypeAndShapeInfo { element_type, dims, symbolic }
    }

    /// Whether the shape is known, as the engine says.
    pub fn has_shape(&self, reported: bool) -> (known: bool)
        ensures
            known == reported,
    {
        reported
    }

    /// The number of elements, as the engine counts them.
    pub fn shape_element_count(&self, reported: Result<usize, Error>) -> (count: Result<usize, Error>)
        ensures
            count == reported,
    {
        reported
    }

    /// Choose the element type. Where the engine refuses, nothing changes.
    pub fn set_element_type(&mut self, element_type: ElementType, reply: Result<(), Error>) -> (result:
        Result<(), Error>)
        ensures
            result == reply,
            match reply {
                Err(_) => *final(self) == *old(self),
                Ok(()) => {
                    &&& final(self).spec_elem() == element_type
                    &&& final(self).spec_dims() == old(self).spec_dims()
                    &&& final(self).names() == old(self).names()
                },
            },
    {
        if reply.is_ok() {
            self.element_type = element_type;
        }
        reply
    }

    /// Choose the dimensions. Where the engine refuses, nothing changes.
    pub fn set_dimensions(&mut self, dims: &[i64], reply: Result<(), Error>) -> (result: Result<
        (),
        Error,
    >)
        ensures
            result == reply,
            match reply {
                Err(_) => *final(self) == *old(self),
                Ok(()) => {
                    &&& final(self).spec_dims() == dims@
                    &&& final(self).spec_elem() == old(self).spec_elem()
                    &&& final(self).names() == old(self).names()
                },
            },
    {
        if reply.is_ok() {
            self.dims = copy_dims(dims);
        }
        reply
    }

    /// Choose the names of the dimensions. They are handed on as NUL-terminated text, so that
    /// none may hold a NUL; where one does, or the engine refuses, nothing changes.
    pub fn set_symbolic_dimensions(
        &mut self,
        dim_params: &[&str],
        reply: Result<(), Error>,
    ) -> (result: Result<(), Error>)
        ensures
            if exists|i: int| 0 <= i < dim_params@.len() && crate::text::has_nul(
                (#[trigger] dim_params@[i])@,
            ) {
                &&& result == Err::<(), Error>(Error::Fault(Fault::SymbolicDimNul))
                &&& *final(self) == *old(self)
            } else if let Err(error) = reply {
                &&& result == Err::<(), Error>(error)
                &&& *final(self) == *old(self)
            } else {
                &&& result is Ok
                &&& final(self).spec_elem() == old(self).spec_elem()
                &&& final(self).spec_dims() == old(self).spec_dims()
                &&& final(self).names().len() == dim_params@.len()
                &&& forall|i: int|
                    0 <= i < dim_params@.len() ==> {
                        &&& (#[trigger] final(self).names()[i]) matches Some(name)
                        &&& name@ == vstd::utf8::encode_utf8(dim_params@[i]@)
                    }
            },
    {
        let mut names: Vec<Option<Vec<u8>>> = Vec::new();
        let mut i: usize = 0;
        while i < dim_params.len()
            invariant
                i <= dim_params@.len(),
                names@.len() == i,
                *self == *old(self),
                forall|k: int| 0 <= k < i ==> !crate::text::has_nul((#[trigger] dim_params@[k])@),
                forall|k: int|
                    0 <= k < i ==> {
                        &&& (#[trigger] names@[k]) matches Some(name)
                        &&& name@ == vstd::utf8::encode_utf8(dim_params@[k]@)
                    },
            decreases dim_params@.len() - i,
        {
            let param: &str = dim_params[i];
            if contains_nul(param) {
                assert(crate::text::has_nul(dim_params@[i as int]@));
                return fail(Fault::SymbolicDimNul);
            }
            names.push(Some(vstd::slice::slice_to_vec(param.as_bytes())));
            i = i + 1;
        }
        if let Err(error) = reply {
            return Err(error);
        }
        self.symbolic = names;
        Ok(())
    }

    /// The element type.
    pub fn element_type(&self) -> (element_type: ElementType)
        ensures
            element_type == self.spec_elem(),
    {
        self.element_type
    }

    /// The number of dimensions.
    pub fn rank(&self) -> (rank: usize)
        ensures
            rank == self.spec_dims().len(),
    {
        self.dims.len()
    }

    /// The number of elements, where every dimension is known and the number fits.
    pub fn element_count(&self) -> (count: Result<usize, Error>)
        ensures
            match crate::shape::count_fault(self.spec_dims()) {
                Some(error) => count == Err::<usize, Error>(error),
                None => count == Ok::<usize, Error>(
                    crate::shape::product(self.spec_dims()) as usize,
                ) && 0 <= crate::shape::product(self.spec_dims()) <= usize::MAX,
            },
    {
        checked_element_count(self.dims.as_slice())
    }

    /// The dimensions.
    pub fn dims(&self) -> (dims: Vec<i64>)
        ensures
            dims@ == self.spec_dims(),
    {
        copy_dims(self.dims.as_slice())
    }

    /// The names of the dimensions, none where a dimension has no name.
    pub fn symbolic_dims(&self) -> (result: Result<Vec<Option<&str>>, Error>)
        ensures
            if exists|i: int|
                0 <= i < self.spec_dims().len() && (#[trigger] self.name_at(i)) is Some
                    && !vstd::utf8::valid_utf8(self.name_at(i)->Some_0@) {
                result == Err::<Vec<Option<&str>>, Error>(Error::Fault(Fault::SymbolicDimNotUtf8))
            } else {
                &&& result matches Ok(names)
                &&& names@.len() == self.spec_dims().len()
                &&& forall|i: int|
                    0 <= i < names@.len() ==> match self.name_at(i) {
                        None => (#[trigger] names@[i]) is None,
                        Some(bytes) => names@[i] matches Some(text) && vstd::utf8::encode_utf8(text@)
                            == bytes@,
                    }
            },
    {
        let mut names: Vec<Option<&str>> = Vec::new();
        let mut i: usize = 0;
        while i < self.dims.len()
            invariant
                i <= self.dims@.len(),
                names@.len() == i,
                forall|k: int|
                    0 <= k < i ==> match self.name_at(k) {
                        None => (#[trigger] names@[k]) is None,
                        Some(bytes) => vstd::utf8::valid_utf8(bytes@) && (names@[k] matches Some(text)
                            && vstd::utf8::encode_utf8(text@) == bytes@),
                    },
            decreases self.dims@.len() - i,
        {
            if i < self.symbolic.len() {
                match &self.symbolic[i] {
                    None => names.push(None),
                    Some(bytes) => match utf8_text(bytes.as_slice()) {
                        None => {
                            assert(self.name_at(i as int) is Some);
                            return fail(Fault::SymbolicDimNotUtf8);
                        },
                        Some(text) => names.push(Some(text)),
                    },
                }
            } else {
                names.push(None);
            }
            i = i + 1;
        }
        proof {
            assert forall|k: int|
                0 <= k < self.spec_dims().len() && (#[trigger] self.name_at(k)) is Some implies
                vstd::utf8::valid_utf8(self.name_at(k)->Some_0@) by {
                assert(names@[k] is Some);
            }
        }
        Ok(names)
    }
}

/// A type, as the engine describes it.
#[derive(Debug)]
#[allow(inconsistent_fields)]
pub enum RuntimeType {
    /// A dense tensor: its element type, whether it has a shape, and how many elements the shape
    /// counts.
    Tensor { element_type: ElementType, has_shape: bool, shape_element_count: usize },
    /// A map: the type of its keys and that of its values.
    Mapping { key_type: ElementType, value_type: Box<RuntimeTypeInfo> },
    /// A sequence: the type of its elements.
    Sequence { element_type: Box<RuntimeTypeInfo> },
    /// An optional value: the type of what it may hold.
    Optional { contained: Box<RuntimeTypeInfo> },
    /// Another kind.
    Other(OnnxType),
}

/// The type of a value, with its denotation.
#[derive(Debug)]
pub struct RuntimeTypeInfo {
    pub kind: RuntimeType,
    pub denotation: Vec<u8>,
}

/// The tensor side of a type.
#[derive(Debug, Clone, Copy)]
pub struct TensorTypeAndShapeInfoView<'a> {
    info: &'a RuntimeTypeInfo,
}

/// The map side of a type.
#[derive(Debug, Clone, Copy)]
pub struct MapTypeInfo<'a> {
    info: &'a RuntimeTypeInfo,
}

/// The sequence side of a type.
#[derive(Debug, Clone, Copy)]
pub struct SequenceTypeInfo<'a> {
    info: &'a RuntimeTypeInfo,
}

/// The optional side of a type.
#[derive(Debug, Clone, Copy)]
pub struct OptionalTypeInfo<'a> {
    info: &'a RuntimeTypeInfo,
}

impl RuntimeTypeInfo {
    /// The kind of value.
    pub open spec fn spec_onnx_type(self) -> OnnxType {
        match self.kind {
            RuntimeType::Tensor { .. } => OnnxType::Tensor,
            RuntimeType::Mapping { .. } => OnnxType::Mapping,
            RuntimeType::Sequence { .. } => OnnxType::Sequence,
            RuntimeType::Optional { .. } => OnnxType::Optional,
            RuntimeType::Other(kind) => kind,
        }
    }

    /// The kind of value.
    pub fn onnx_type(&self) -> (kind: OnnxType)
        ensures
            kind == self.spec_onnx_type(),
    {
        match &self.kind {
            RuntimeType::Tensor { .. } => OnnxType::Tensor,
            RuntimeType::Mapping { .. } => OnnxType::Mapping,
            RuntimeType::Sequence { .. } => OnnxType::Sequence,
            RuntimeType::Optional { .. } => OnnxType::Optional,
            RuntimeType::Other(kind) => *kind,
        }
    }

    /// The denotation of the type, empty where it has none.
    pub fn denotation(&self) -> (text: Result<String, Error>)
        ensures
            if vstd::utf8::valid_utf8(self.denotation@) {
                text matches Ok(decoded) && vstd::utf8::encode_utf8(decoded@) == self.denotation@
            } else {
                text == Err::<String, Error>(Error::Fault(Fault::DenotationNotUtf8))
            },
    {
        match utf8_text(self.denotation.as_slice()) {
            Some(text) => Ok(text.to_owned()),
            None => fail(Fault::DenotationNotUtf8),
        }
    }

    /// The tensor side of the type, where it is one.
    pub fn cast_to_tensor(&self) -> (view: Option<TensorTypeAndShapeInfoView<'_>>)
        ensures
            match view {
                Some(tensor) => self.kind is Tensor && tensor.source() == *self,
                None => !(self.kind is Tensor),
            },
    {
        if let RuntimeType::Tensor { .. } = &self.kind {
            Some(TensorTypeAndShapeInfoView { info: self })
        } else {
            None
        }
    }

    /// The map side of the type, where it is one.
    pub fn cast_to_map(&self) -> (view: Option<MapTypeInfo<'_>>)
        ensures
            match view {
                Some(map) => self.kind is Mapping && map.source() == *self,
                None => !(self.kind is Mapping),
            },
    {
        if let RuntimeType::Mapping { .. } = &self.kind {
            Some(MapTypeInfo { info: self })
        } else {
            None
        }
    }

    /// The sequence side of the type, where it is one.
    pub fn cast_to_sequence(&self) -> (view: Option<SequenceTypeInfo<'_>>)
        ensures
            match view {
                Some(sequence) => self.kind is Sequence && sequence.source() == *self,
                None => !(self.kind is Sequence),
            },
    {
        if let RuntimeType::Sequence { .. } = &self.kind {
            Some(SequenceTypeInfo { info: self })
        } else {
            None
        }
    }

    /// The optional side of the type, where it is one.
    pub fn cast_to_optional(&self) -> (view: Option<OptionalTypeInfo<'_>>)
        ensures
            match view {
                Some(optional) => self.kind is Optional && optional.source() == *self,
                None => !(self.kind is Optional),
            },
    {
        if let RuntimeType::Optional { .. } = &self.kind {
            Some(OptionalTypeInfo { info: self })
        } else {
            None
        }
    }
}

impl<'a> TensorTypeAndShapeInfoView<'a> {
    /// The type that this is a side of.
    pub closed spec fn source(self) -> RuntimeTypeInfo {
        *self.info
    }

    /// The element type.
    pub fn element_type(&self) -> (element_type: ElementType)
        requires
            self.source().kind is Tensor,
        ensures
            element_type == self.source().kind->Tensor_element_type,
    {
        match &self.info.kind {
            RuntimeType::Tensor { element_type, .. } => *element_type,
            _ => ElementType::Undefined,
        }
    }

    /// Whether the tensor has a shape.
    pub fn has_shape(&self) -> (has_shape: bool)
        requires
            self.source().kind is Tensor,
        ensures
            has_shape == self.source().kind->has_shape,
    {
        match &self.info.kind {
            RuntimeType::Tensor { has_shape, .. } => *has_shape,
            _ => false,
        }
    }

    /// How many elements the shape counts, as the engine reports it.
    pub fn shape_element_count(&self) -> (count: usize)
        requires
            self.source().kind is Tensor,
        ensures
            count == self.source().kind->shape_element_count,
    {
        match &self.info.kind {
            RuntimeType::Tensor { shape_element_count, .. } => *shape_element_count,
            _ => 0,
        }
    }
}

impl<'a> MapTypeInfo<'a> {
    /// The type that this is a side of.
    pub closed spec fn source(self) -> RuntimeTypeInfo {
        *self.info
    }

    /// The type of the keys.
    pub fn key_type(&self) -> (key_type: ElementType)
        requires
            self.source().kind is Mapping,
        ensures
            key_type == self.source().kind->key_type,
    {
        match &self.info.kind {
            RuntimeType::Mapping { key_type, .. } => *key_type,
            _ => ElementType::Undefined,
        }
    }

    /// The type of the values.
    pub fn value_type(&self) -> (value_type: &RuntimeTypeInfo)
        requires
            self.source().kind is Mapping,
        ensures
            *value_type == *(self.source().kind->value_type),
    {
        match &self.info.kind {
            RuntimeType::Mapping { value_type, .. } => value_type,
            _ => self.info,
        }
    }
}

impl<'a> SequenceTypeInfo<'a> {
    /// The type that this is a side of.
    pub closed spec fn source(self) -> RuntimeTypeInfo {
        *self.info
    }

    /// The type of the elements.
    pub fn element_type(&self) -> (element_type: &RuntimeTypeInfo)
        requires
            self.source().kind is Sequence,
        ensures
            *element_type == *(self.source().kind->Sequence_element_type),
    {
        match &self.info.kind {
            RuntimeType::Sequence { element_type } => element_type,
            _ => self.info,
        }
    }
}

impl<'a> OptionalTypeInfo<'a> {
    /// The type that this is a side of.
    pub closed spec fn source(self) -> RuntimeTypeInfo {
        *self.info
    }

    /// The type of what the value may hold.
    pub fn contained(&self) -> (contained: &RuntimeTypeInfo)
        requires
            self.source().kind is Optional,
        ensures
            *contained == *(self.source().kind->contained),
    {
        match &self.info.kind {
            RuntimeType::Optional { contained } => contained,
            _ => self.info,
        }
    }
}

} // verus!
