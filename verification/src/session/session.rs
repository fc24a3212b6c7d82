//! A session's interface, resolved once when it is created.
use vstd::prelude::*;

use crate::element::{ElementType, OnnxType};
use crate::error::{fail, Count, Error, Fault, Side};
use crate::runtime::options::CudaStream;
use crate::shape::checked_element_count;
use crate::text::utf8_text;

verus! {

/// The static type of one input or output.
#[derive(Debug, PartialEq, Eq)]
pub struct CachedIo {
    /// The kind of value.
    pub onnx_type: OnnxType,
    /// The element type of a tensor.
    pub elem_type: ElementType,
    /// The element count, where the shape is concrete; zero for other kinds.
    pub count: Option<usize>,
    /// The dimensions of a tensor.
    pub dims: Vec<i64>,
    /// The names of the dimensions of a tensor, where the model gives them.
    pub symbolic: Vec<Option<String>>,
}

/// What the engine reports of the static type of one input or output.
#[derive(Debug)]
pub enum TypeReport {
    /// A tensor.
    Tensor { elem_type: ElementType, dims: Vec<i64>, symbolic: Vec<Option<Vec<u8>>> },
    /// Another kind of value.
    Other(OnnxType),
}

/// The texts are those that the optional names encode.
pub open spec fn decoded(raw: Seq<Option<Vec<u8>>>, texts: Seq<Option<String>>) -> bool {
    &&& raw.len() == texts.len()
    &&& forall|i: int|
        0 <= i < raw.len() ==> match #[trigger] raw[i] {
            Some(bytes) => texts[i] matches Some(text) && vstd::utf8::encode_utf8(text@) == bytes@,
            None => texts[i] is None,
        }
}

/// Every name that is there is valid UTF-8.
pub open spec fn all_decodable(raw: Seq<Option<Vec<u8>>>) -> bool {
    forall|i: int|
        0 <= i < raw.len() ==> (#[trigger] raw[i] matches Some(bytes) ==> vstd::utf8::valid_utf8(
            bytes@,
        ))
}

fn decode_names(raw: &Vec<Option<Vec<u8>>>) -> (texts: Result<Vec<Option<String>>, Error>)
    ensures
        if all_decodable(raw@) {
            texts matches Ok(names) && decoded(raw@, names@)
        } else {
            texts == Err::<Vec<Option<String>>, Error>(Error::Fault(Fault::SymbolicDimNotUtf8))
        },
{
    let mut names: Vec<Option<String>> = Vec::new();
    let mut i: usize = 0;
    while i < raw.len()
        invariant
            0 <= i <= raw.len(),
            names@.len() == i,
            forall|k: int|
                0 <= k < i ==> match #[trigger] raw@[k] {
                    Some(bytes) => vstd::utf8::valid_utf8(bytes@) && (names@[k] matches Some(text)
                        && vstd::utf8::encode_utf8(text@) == bytes@),
                    None => names@[k] is None,
                },
        decreases raw.len() - i,
    {
        match &raw[i] {
            None => {
                names.push(None);
            },
            Some(bytes) => {
                match utf8_text(bytes.as_slice()) {
                    None => {
                        assert(raw@[i as int] matches Some(b) && !vstd::utf8::valid_utf8(b@));
                        return fail(Fault::SymbolicDimNotUtf8);
                    },
                    Some(text) => {
                        names.push(Some(text.to_owned()));
                    },
                }
            },
        }
        i = i + 1;
    }
    assert(all_decodable(raw@));
    Ok(names)
}

impl CachedIo {
    /// This is the cached form of what the engine reported.
    pub open spec fn caches(self, report: TypeReport) -> bool {
        match report {
            TypeReport::Tensor { elem_type, dims, symbolic } => {
                &&& self.onnx_type == OnnxType::Tensor
                &&& self.elem_type == elem_type
                &&& self.dims@ == dims@
                &&& decoded(symbolic@, self.symbolic@)
                &&& self.count == match crate::shape::count_fault(dims@) {
                    Some(_) => None::<usize>,
                    None => Some(crate::shape::product(dims@) as usize),
                }
            },
            TypeReport::Other(kind) => {
                &&& self.onnx_type == kind
                &&& self.elem_type == ElementType::Undefined
                &&& self.count == Some(0usize)
                &&& self.dims@.len() == 0
                &&& self.symbolic@.len() == 0
            },
        }
    }

    /// This is the cached form of a report that the engine gave.
    pub open spec fn caches_reply(self, reply: Result<TypeReport, Error>) -> bool {
        match reply {
            Ok(report) => self.caches(report),
            Err(_) => false,
        }
    }

    /// The report can be cached: the names of its dimensions are text.
    pub open spec fn cacheable(report: TypeReport) -> bool {
        report matches TypeReport::Tensor { symbolic, .. } ==> all_decodable(symbolic@)
    }

    /// Cache what the engine reported.
    pub fn from_report(report: TypeReport) -> (cached: Result<CachedIo, Error>)
        ensures
            if Self::cacheable(report) {
                cached matches Ok(meta) && meta.caches(report)
            } else {
                cached == Err::<CachedIo, Error>(Error::Fault(Fault::SymbolicDimNotUtf8))
            },
    {
        match report {
            TypeReport::Tensor { elem_type, dims, symbolic } => {
                let names: Vec<Option<String>> = match decode_names(&symbolic) {
                    Err(error) => {
                        return Err(error);
                    },
                    Ok(names) => names,
                };
                let count: Option<usize> = match checked_element_count(dims.as_slice()) {
                    Ok(count) => Some(count),
                    Err(_) => None,
                };
                Ok(
                    CachedIo {
                        onnx_type: OnnxType::Tensor,
                        elem_type,
                        count,
                        dims,
                        symbolic: names,
                    },
                )
            },
            TypeReport::Other(kind) => Ok(
                CachedIo {
                    onnx_type: kind,
                    elem_type: ElementType::Undefined,
                    count: Some(0),
                    dims: Vec::new(),
                    symbolic: Vec::new(),
                },
            ),
        }
    }
}

/// The first name that is missing or that the engine failed to give, as the failure it means.
pub open spec fn names_fault(replies: Seq<Result<Option<Vec<u8>>, Error>>) -> Option<Error>
    decreases replies.len(),
{
    if replies.len() == 0 {
        None
    } else {
        match names_fault(replies.drop_last()) {
            Some(error) => Some(error),
            None => match replies.last() {
                Err(error) => Some(error),
                Ok(None) => Some(Error::Fault(Fault::IoNameNull)),
                Ok(Some(_)) => None,
            },
        }
    }
}

proof fn lemma_names_fault_first(replies: Seq<Result<Option<Vec<u8>>, Error>>, n: int)
    requires
        0 <= n <= replies.len(),
        names_fault(replies.take(n)) is Some,
    ensures
        names_fault(replies) == names_fault(replies.take(n)),
    decreases replies.len() - n,
{
    if n < replies.len() {
        assert(replies.take(n + 1).drop_last() =~= replies.take(n));
        lemma_names_fault_first(replies, n + 1);
    } else {
        assert(replies.take(n) =~= replies);
    }
}

/// Collect the names of one side of the interface.
pub fn collect_io_names(replies: Vec<Result<Option<Vec<u8>>, Error>>) -> (names: Result<
    Vec<Vec<u8>>,
    Error,
>)
    ensures
        match names_fault(replies@) {
            Some(error) => names == Err::<Vec<Vec<u8>>, Error>(error),
            None => {
                &&& names matches Ok(all)
                &&& all@.len() == replies@.len()
                &&& forall|i: int|
                    0 <= i < all@.len() ==> replies@[i] == Ok::<Option<Vec<u8>>, Error>(
                        Some(#[trigger] all@[i]),
                    )
            },
        },
{
    let ghost all = replies@;
    let mut pending = replies;
    let mut reversed: Vec<Result<Option<Vec<u8>>, Error>> = Vec::new();
    while pending.len() > 0
        invariant
            pending@.len() + reversed@.len() == all.len(),
            pending@ == all.take(pending@.len() as int),
            forall|k: int|
                0 <= k < reversed@.len() ==> #[trigger] reversed@[k] == all[all.len() - 1 - k],
        decreases pending@.len(),
    {
        if let Some(reply) = pending.pop() {
            reversed.push(reply);
            assert(pending@ =~= all.take(pending@.len() as int));
        }
    }
    let mut names: Vec<Vec<u8>> = Vec::new();
    while reversed.len() > 0
        invariant
            all == replies@,
            reversed@.len() + names@.len() == all.len(),
            forall|k: int|
                0 <= k < reversed@.len() ==> #[trigger] reversed@[k] == all[all.len() - 1 - k],
            names_fault(all.take(names@.len() as int)) is None,
            forall|i: int|
                0 <= i < names@.len() ==> all[i] == Ok::<Option<Vec<u8>>, Error>(
                    Some(#[trigger] names@[i]),
                ),
        decreases reversed@.len(),
    {
        let ghost n = names@.len() as int;
        proof {
            assert(all.take(n + 1).drop_last() =~= all.take(n));
            assert(reversed@[reversed@.len() - 1] == all[n]);
        }
        match reversed.pop() {
            None => {},
            Some(Err(error)) => {
                proof {
                    lemma_names_fault_first(all, n + 1);
                }
                return Err(error);
            },
            Some(Ok(None)) => {
                proof {
                    lemma_names_fault_first(all, n + 1);
                }
                return fail(Fault::IoNameNull);
            },
            Some(Ok(Some(name))) => {
                names.push(name);
            },
        }
    }
    assert(all.take(names@.len() as int) =~= all);
    Ok(names)
}

/// The first report that the engine failed to give or that cannot be cached, as the failure it
/// means.
pub open spec fn meta_fault(replies: Seq<Result<TypeReport, Error>>) -> Option<Error>
    decreases replies.len(),
{
    if replies.len() == 0 {
        None
    } else {
        match meta_fault(replies.drop_last()) {
            Some(error) => Some(error),
            None => match replies.last() {
                Err(error) => Some(error),
                Ok(report) => if CachedIo::cacheable(report) {
                    None
                } else {
                    Some(Error::Fault(Fault::SymbolicDimNotUtf8))
                },
            },
        }
    }
}

proof fn lemma_meta_fault_first(replies: Seq<Result<TypeReport, Error>>, n: int)
    requires
        0 <= n <= replies.len(),
        meta_fault(replies.take(n)) is Some,
    ensures
        meta_fault(replies) == meta_fault(replies.take(n)),
    decreases replies.len() - n,
{
    if n < replies.len() {
        assert(replies.take(n + 1).drop_last() =~= replies.take(n));
        lemma_meta_fault_first(replies, n + 1);
    } else {
        assert(replies.take(n) =~= replies);
    }
}

/// Collect the static types of one side of the interface.
pub fn collect_io_meta(replies: Vec<Result<TypeReport, Error>>) -> (meta: Result<
    Vec<CachedIo>,
    Error,
>)
    ensures
        match meta_fault(replies@) {
            Some(error) => meta == Err::<Vec<CachedIo>, Error>(error),
            None => {
                &&& meta matches Ok(all)
                &&& all@.len() == replies@.len()
                &&& forall|i: int|
                    0 <= i < all@.len() ==> (#[trigger] all@[i]).caches_reply(replies@[i])
            },
        },
{
    let ghost all = replies@;
    let mut pending = replies;
    let mut reversed: Vec<Result<TypeReport, Error>> = Vec::new();
    while pending.len() > 0
        invariant
            pending@.len() + reversed@.len() == all.len(),
            pending@ == all.take(pending@.len() as int),
            forall|k: int|
                0 <= k < reversed@.len() ==> #[trigger] reversed@[k] == all[all.len() - 1 - k],
        decreases pending@.len(),
    {
        if let Some(reply) = pending.pop() {
            reversed.push(reply);
            assert(pending@ =~= all.take(pending@.len() as int));
        }
    }
    let mut meta: Vec<CachedIo> = Vec::new();
    while reversed.len() > 0
        invariant
            all == replies@,
            reversed@.len() + meta@.len() == all.len(),
            forall|k: int|
                0 <= k < reversed@.len() ==> #[trigger] reversed@[k] == all[all.len() - 1 - k],
            meta_fault(all.take(meta@.len() as int)) is None,
            forall|i: int|
                0 <= i < meta@.len() ==> (#[trigger] meta@[i]).caches_reply(all[i]),
        decreases reversed@.len(),
    {
        let ghost n = meta@.len() as int;
        proof {
            assert(all.take(n + 1).drop_last() =~= all.take(n));
            assert(reversed@[reversed@.len() - 1] == all[n]);
        }
        match reversed.pop() {
            None => {},
            Some(Err(error)) => {
                proof {
                    lemma_meta_fault_first(all, n + 1);
                }
                return Err(error);
            },
            Some(Ok(report)) => {
                match CachedIo::from_report(report) {
                    Err(error) => {
                        proof {
                            lemma_meta_fault_first(all, n + 1);
                        }
                        return Err(error);
                    },
                    Ok(cached) => {
                        meta.push(cached);
                    },
                }
            },
        }
    }
    assert(all.take(meta@.len() as int) =~= all);
    Ok(meta)
}

/// One initialized session and what is known of its interface.
#[derive(Debug)]
pub struct Session {
    handle: u64,
    environment: u64,
    input_names: Vec<Vec<u8>>,
    input_meta: Vec<CachedIo>,
    output_names: Vec<Vec<u8>>,
    output_meta: Vec<CachedIo>,
    cuda_streams: Vec<CudaStream>,
}

/// A failure while a session was set up, with the engine handle that is to be released.
#[derive(Debug)]
pub struct SetupFailure {
    pub error: Error,
    pub release: Option<u64>,
}

/// What the engine answered while a session was set up, in the order of the questions.
#[derive(Debug)]
pub struct SetupReplies {
    /// The names of the inputs; none where a pointer was null.
    pub input_names: Result<Vec<Result<Option<Vec<u8>>, Error>>, Error>,
    /// The names of the outputs.
    pub output_names: Result<Vec<Result<Option<Vec<u8>>, Error>>, Error>,
    /// The static types of the inputs.
    pub input_types: Vec<Result<TypeReport, Error>>,
    /// The static types of the outputs.
    pub output_types: Vec<Result<TypeReport, Error>>,
    /// Whether the default run options could be made.
    pub run_options: Result<(), Error>,
}

impl SetupReplies {
    /// The first failure among the answers.
    pub open spec fn fault(self) -> Option<Error> {
        match self.input_names {
            Err(error) => Some(error),
            Ok(inputs) => match names_fault(inputs@) {
                Some(error) => Some(error),
                None => match self.output_names {
                    Err(error) => Some(error),
                    Ok(outputs) => match names_fault(outputs@) {
                        Some(error) => Some(error),
                        None => match meta_fault(self.input_types@) {
                            Some(error) => Some(error),
                            None => match meta_fault(self.output_types@) {
                                Some(error) => Some(error),
                                None => match self.run_options {
                                    Err(error) => Some(error),
                                    Ok(()) => None,
                                },
                            },
                        },
                    },
                },
            },
        }
    }
}

impl Session {
    /// The engine handle.
    pub closed spec fn spec_handle(self) -> u64 {
        self.handle
    }

    /// The environment that the session belongs to.
    pub closed spec fn spec_environment(self) -> u64 {
        self.environment
    }

    /// The names of the inputs.
    pub closed spec fn inputs(self) -> Seq<Vec<u8>> {
        self.input_names@
    }

    /// The names of the outputs.
    pub closed spec fn outputs(self) -> Seq<Vec<u8>> {
        self.output_names@
    }

    /// The static types of the inputs.
    pub closed spec fn input_types(self) -> Seq<CachedIo> {
        self.input_meta@
    }

    /// The static types of the outputs.
    pub closed spec fn output_types(self) -> Seq<CachedIo> {
        self.output_meta@
    }

    /// The CUDA streams that the session was configured with.
    pub closed spec fn streams(self) -> Seq<CudaStream> {
        self.cuda_streams@
    }

    /// The session has a handle, and every input and output has one name and one static type.
    pub open spec fn wf(self) -> bool {
        &&& self.spec_handle() != 0
        &&& self.inputs().len() == self.input_types().len()
        &&& self.outputs().len() == self.output_types().len()
    }

    /// Finish the construction of a session from its fresh engine handle and the answers to the
    /// questions about it. A null handle, or the first failed answer, is the failure; a handle
    /// that was made is then to be released.
    pub fn from_handle_with_resources(
        handle: u64,
        environment: u64,
        replies: SetupReplies,
        cuda_streams: Vec<CudaStream>,
    ) -> (result: Result<Session, SetupFailure>)
        requires
            replies.fault() is None ==> replies.input_names->Ok_0@.len()
                == replies.input_types@.len() && replies.output_names->Ok_0@.len()
                == replies.output_types@.len(),
        ensures
            if handle == 0 {
                result == Err::<Session, SetupFailure>(
                    SetupFailure { error: Error::Fault(Fault::SessionNull), release: None },
                )
            } else {
                match replies.fault() {
                    Some(error) => result == Err::<Session, SetupFailure>(
                        SetupFailure { error, release: Some(handle) },
                    ),
                    None => {
                        &&& result matches Ok(session)
                        &&& session.wf()
                        &&& session.spec_handle() == handle
                        &&& session.spec_environment() == environment
                        &&& session.streams() == cuda_streams@
                        &&& session.inputs().len() == replies.input_types@.len()
                        &&& session.outputs().len() == replies.output_types@.len()
                        &&& forall|i: int|
                            0 <= i < session.inputs().len() ==> {
                                &&& replies.input_names->Ok_0@[i] == Ok::<Option<Vec<u8>>, Error>(
                                    Some(#[trigger] session.inputs()[i]),
                                )
                                &&& session.input_types()[i].caches_reply(
                                    replies.input_types@[i],
                                )
                            }
                        &&& forall|i: int|
                            0 <= i < session.outputs().len() ==> {
                                &&& replies.output_names->Ok_0@[i] == Ok::<Option<Vec<u8>>, Error>(
                                    Some(#[trigger] session.outputs()[i]),
                                )
                                &&& session.output_types()[i].caches_reply(
                                    replies.output_types@[i],
                                )
                            }
                    },
                }
            },
    {
        if handle == 0 {
            return Err(
                SetupFailure { error: Error::Fault(Fault::SessionNull), release: None },
            );
        }
        let input_names: Vec<Vec<u8>> = match replies.input_names {
            Err(error) => {
                return Err(SetupFailure { error, release: Some(handle) });
            },
            Ok(names) => match collect_io_names(names) {
                Err(error) => {
                    return Err(SetupFailure { error, release: Some(handle) });
                },
                Ok(names) => names,
            },
        };
        let output_names: Vec<Vec<u8>> = match replies.output_names {
            Err(error) => {
                return Err(SetupFailure { error, release: Some(handle) });
            },
            Ok(names) => match collect_io_names(names) {
                Err(error) => {
                    return Err(SetupFailure { error, release: Some(handle) });
                },
                Ok(names) => names,
            },
        };
        let input_meta: Vec<CachedIo> = match collect_io_meta(replies.input_types) {
            Err(error) => {
                return Err(SetupFailure { error, release: Some(handle) });
            },
            Ok(meta) => meta,
        };
        let output_meta: Vec<CachedIo> = match collect_io_meta(replies.output_types) {
            Err(error) => {
                return Err(SetupFailure { error, release: Some(handle) });
            },
            Ok(meta) => meta,
        };
        match replies.run_options {
            Err(error) => {
                return Err(SetupFailure { error, release: Some(handle) });
            },
            Ok(()) => {},
        }
        let session = Session {
            handle,
            environment,
            input_names,
            input_meta,
            output_names,
            output_meta,
            cuda_streams,
        };
        proof {
            assert forall|i: int| 0 <= i < session.inputs().len() implies {
                &&& replies.input_names->Ok_0@[i] == Ok::<Option<Vec<u8>>, Error>(
                    Some(#[trigger] session.inputs()[i]),
                )
                &&& session.input_types()[i].caches_reply(replies.input_types@[i])
            } by {
                assert(input_meta@[i] == session.input_types()[i]);
            }
            assert forall|i: int| 0 <= i < session.outputs().len() implies {
                &&& replies.output_names->Ok_0@[i] == Ok::<Option<Vec<u8>>, Error>(
                    Some(#[trigger] session.outputs()[i]),
                )
                &&& session.output_types()[i].caches_reply(replies.output_types@[i])
            } by {
                assert(output_meta@[i] == session.output_types()[i]);
            }
        }
        Ok(session)
    }

    /// The engine handle.
    pub fn handle(&self) -> (handle: u64)
        ensures
            handle == self.spec_handle(),
    {
        self.handle
    }

    /// The environment that the session belongs to.
    pub fn environment(&self) -> (environment: u64)
        ensures
            environment == self.spec_environment(),
    {
        self.environment
    }

    /// Whether the session was configured with the stream.
    pub fn uses_cuda_stream(&self, stream: CudaStream) -> (uses: bool)
        ensures
            uses == self.streams().contains(stream),
    {
        let mut i: usize = 0;
        while i < self.cuda_streams.len()
            invariant
                0 <= i <= self.cuda_streams.len(),
                forall|k: int| 0 <= k < i ==> self.cuda_streams@[k] != stream,
            decreases self.cuda_streams.len() - i,
        {
            if self.cuda_streams[i] == stream {
                assert(self.cuda_streams@[i as int] == stream);
                return true;
            }
            i = i + 1;
        }
        false
    }

    /// The number of inputs.
    pub fn input_count(&self) -> (count: usize)
        ensures
            count == self.inputs().len(),
    {
        self.input_names.len()
    }

    /// The number of outputs.
    pub fn output_count(&self) -> (count: usize)
        ensures
            count == self.outputs().len(),
    {
        self.output_names.len()
    }

    /// The name of input `i`.
    pub fn input_name(&self, i: usize) -> (name: Result<&str, Error>)
        ensures
            name_outcome(name, self.inputs(), Side::Input, i),
    {
        name_at(&self.input_names, Side::Input, i)
    }

    /// The name of output `i`.
    pub fn output_name(&self, i: usize) -> (name: Result<&str, Error>)
        ensures
            name_outcome(name, self.outputs(), Side::Output, i),
    {
        name_at(&self.output_names, Side::Output, i)
    }

    /// The kind, element type and concrete element count of input `i`.
    pub fn input_meta(&self, i: usize) -> (meta: Result<
        (OnnxType, ElementType, Option<usize>),
        Error,
    >)
        ensures
            match meta_at(self.input_types(), Side::Input, i) {
                Ok(cached) => meta == Ok::<(OnnxType, ElementType, Option<usize>), Error>(
                    (cached.onnx_type, cached.elem_type, cached.count),
                ),
                Err(error) => meta == Err::<(OnnxType, ElementType, Option<usize>), Error>(error),
            },
    {
        match cached_at(&self.input_meta, Side::Input, i) {
            Ok(cached) => Ok((cached.onnx_type, cached.elem_type, cached.count)),
            Err(error) => Err(error),
        }
    }

    /// The kind, element type and concrete element count of output `i`.
    pub fn output_meta(&self, i: usize) -> (meta: Result<
        (OnnxType, ElementType, Option<usize>),
        Error,
    >)
        ensures
            match meta_at(self.output_types(), Side::Output, i) {
                Ok(cached) => meta == Ok::<(OnnxType, ElementType, Option<usize>), Error>(
                    (cached.onnx_type, cached.elem_type, cached.count),
                ),
                Err(error) => meta == Err::<(OnnxType, ElementType, Option<usize>), Error>(error),
            },
    {
        match cached_at(&self.output_meta, Side::Output, i) {
            Ok(cached) => Ok((cached.onnx_type, cached.elem_type, cached.count)),
            Err(error) => Err(error),
        }
    }

    /// The dimensions of input `i`.
    pub fn input_shape(&self, i: usize) -> (shape: Result<&[i64], Error>)
        ensures
            match meta_at(self.input_types(), Side::Input, i) {
                Ok(cached) => shape matches Ok(dims) && dims@ == cached.dims@,
                Err(error) => shape == Err::<&[i64], Error>(error),
            },
    {
        match cached_at(&self.input_meta, Side::Input, i) {
            Ok(cached) => Ok(cached.dims.as_slice()),
            Err(error) => Err(error),
        }
    }

    /// The dimensions of output `i`.
    pub fn output_shape(&self, i: usize) -> (shape: Result<&[i64], Error>)
        ensures
            match meta_at(self.output_types(), Side::Output, i) {
                Ok(cached) => shape matches Ok(dims) && dims@ == cached.dims@,
                Err(error) => shape == Err::<&[i64], Error>(error),
            },
    {
        match cached_at(&self.output_meta, Side::Output, i) {
            Ok(cached) => Ok(cached.dims.as_slice()),
            Err(error) => Err(error),
        }
    }

    /// The names of the dimensions of input `i`.
    pub fn input_symbolic_dims(&self, i: usize) -> (names: Result<&[Option<String>], Error>)
        ensures
            match meta_at(self.input_types(), Side::Input, i) {
                Ok(cached) => names matches Ok(all) && all@ == cached.symbolic@,
                Err(error) => names == Err::<&[Option<String>], Error>(error),
            },
    {
        match cached_at(&self.input_meta, Side::Input, i) {
            Ok(cached) => Ok(cached.symbolic.as_slice()),
            Err(error) => Err(error),
        }
    }

    /// The names of the dimensions of output `i`.
    pub fn output_symbolic_dims(&self, i: usize) -> (names: Result<&[Option<String>], Error>)
        ensures
            match meta_at(self.output_types(), Side::Output, i) {
                Ok(cached) => names matches Ok(all) && all@ == cached.symbolic@,
                Err(error) => names == Err::<&[Option<String>], Error>(error),
            },
    {
        match cached_at(&self.output_meta, Side::Output, i) {
            Ok(cached) => Ok(cached.symbolic.as_slice()),
            Err(error) => Err(error),
        }
    }

    /// Keep one more stream.
    pub fn retain_stream(&mut self, stream: CudaStream)
        ensures
            final(self).spec_handle() == old(self).spec_handle(),
            final(self).spec_environment() == old(self).spec_environment(),
            final(self).inputs() == old(self).inputs(),
            final(self).outputs() == old(self).outputs(),
            final(self).input_types() == old(self).input_types(),
            final(self).output_types() == old(self).output_types(),
            final(self).streams() == old(self).streams().push(stream),
    {
        self.cuda_streams.push(stream);
    }

    /// `after` and `result` are what reading the names and static types again leads to.
    pub open spec fn refreshed(
        self,
        after: Session,
        shared: bool,
        replies: SetupReplies,
        result: Result<(), Error>,
    ) -> bool {
        &&& after.wf()
        &&& after.spec_handle() == self.spec_handle()
        &&& after.spec_environment() == self.spec_environment()
        &&& after.streams() == self.streams()
        &&& if shared {
            result == Err::<(), Error>(Error::Fault(Fault::SessionShared)) && after
                == self
        } else {
            match replies.fault() {
                Some(error) => result == Err::<(), Error>(error) && after
                    == self,
                None => {
                    &&& result is Ok
                    &&& after.inputs().len() == replies.input_types@.len()
                    &&& after.outputs().len() == replies.output_types@.len()
                    &&& forall|i: int|
                        0 <= i < after.inputs().len() ==> {
                            &&& replies.input_names->Ok_0@[i] == Ok::<Option<Vec<u8>>, Error>(
                                Some(#[trigger] after.inputs()[i]),
                            )
                            &&& after.input_types()[i].caches_reply(
                                replies.input_types@[i],
                            )
                        }
                    &&& forall|i: int|
                        0 <= i < after.outputs().len() ==> {
                            &&& replies.output_names->Ok_0@[i] == Ok::<Option<Vec<u8>>, Error>(
                                Some(#[trigger] after.outputs()[i]),
                            )
                            &&& after.output_types()[i].caches_reply(
                                replies.output_types@[i],
                            )
                        }
                },
            }
        }
    }

    /// Read the names and static types again, once a session that was edited has been finalized.
    /// Where that fails, nothing changes.
    pub fn refresh_io_metadata(&mut self, shared: bool, replies: SetupReplies) -> (result: Result<
        (),
        Error,
    >)
        requires
            old(self).wf(),
            replies.fault() is None ==> replies.input_names->Ok_0@.len()
                == replies.input_types@.len() && replies.output_names->Ok_0@.len()
                == replies.output_types@.len(),
            replies.run_options is Ok,
        ensures
            old(self).refreshed(*final(self), shared, replies, result),
    {
        if shared {
            return fail(Fault::SessionShared);
        }
        match Session::from_handle_with_resources(
            self.handle,
            self.environment,
            replies,
            Vec::new(),
        ) {
            Ok(read) => {
                self.input_names = read.input_names;
                self.input_meta = read.input_meta;
                self.output_names = read.output_names;
                self.output_meta = read.output_meta;
                Ok(())
            },
            Err(failure) => Err(failure.error),
        }
    }

    /// The static types of the outputs.
    pub fn output_metas(&self) -> (meta: &Vec<CachedIo>)
        ensures
            meta@ == self.output_types(),
    {
        &self.output_meta
    }

    /// The static types of the inputs.
    pub fn input_metas(&self) -> (meta: &Vec<CachedIo>)
        ensures
            meta@ == self.input_types(),
    {
        &self.input_meta
    }

    /// Check a number of inputs.
    pub fn check_input_count(&self, got: usize) -> (result: Result<(), Error>)
        ensures
            if got == self.inputs().len() {
                result is Ok
            } else {
                result == Err::<(), Error>(
                    Error::CountMismatch {
                        what: Count::Input,
                        expected: self.inputs().len() as usize,
                        got,
                    },
                )
            },
    {
        let expected: usize = self.input_names.len();
        if got != expected {
            return Err(Error::CountMismatch { what: Count::Input, expected, got });
        }
        Ok(())
    }

    /// Check a number of outputs, called `what`.
    pub fn check_output_count(&self, got: usize, what: Count) -> (result: Result<(), Error>)
        ensures
            if got == self.outputs().len() {
                result is Ok
            } else {
                result == Err::<(), Error>(
                    Error::CountMismatch { what, expected: self.outputs().len() as usize, got },
                )
            },
    {
        let expected: usize = self.output_names.len();
        if got != expected {
            return Err(Error::CountMismatch { what, expected, got });
        }
        Ok(())
    }

    /// Check that a binding was made for this session.
    pub fn check_binding_session(&self, binding_session: u64) -> (result: Result<(), Error>)
        ensures
            if binding_session == self.spec_handle() {
                result is Ok
            } else {
                result == Err::<(), Error>(Error::Fault(Fault::BindingSessionMismatch))
            },
    {
        if binding_session == self.handle {
            Ok(())
        } else {
            fail(Fault::BindingSessionMismatch)
        }
    }

    /// Check that run options with a sync stream belong to this session's environment.
    pub fn check_run_options(&self, stream_environment: Option<u64>) -> (result: Result<
        (),
        Error,
    >)
        ensures
            if stream_environment is None || stream_environment == Some(self.spec_environment()) {
                result is Ok
            } else {
                result == Err::<(), Error>(Error::Fault(Fault::RunOptionsEnvironmentMismatch))
            },
    {
        match stream_environment {
            None => Ok(()),
            Some(environment) => {
                if environment == self.environment {
                    Ok(())
                } else {
                    fail(Fault::RunOptionsEnvironmentMismatch)
                }
            },
        }
    }

    /// Check that a sync stream belongs to this session's environment.
    pub fn check_sync_stream(&self, stream_environment: u64) -> (result: Result<(), Error>)
        ensures
            if stream_environment == self.spec_environment() {
                result is Ok
            } else {
                result == Err::<(), Error>(Error::Fault(Fault::StreamEnvironmentMismatch))
            },
    {
        if stream_environment == self.environment {
            Ok(())
        } else {
            fail(Fault::StreamEnvironmentMismatch)
        }
    }
}

/// `name` is the outcome of reading name `i` of one side.
pub open spec fn name_outcome(
    name: Result<&str, Error>,
    names: Seq<Vec<u8>>,
    side: Side,
    i: usize,
) -> bool {
    if i >= names.len() {
        name == Err::<&str, Error>(
            Error::SessionIndexOutOfRange { side, index: i, count: names.len() as usize },
        )
    } else if vstd::utf8::valid_utf8(names[i as int]@) {
        name matches Ok(text) && vstd::utf8::encode_utf8(text@) == names[i as int]@
    } else {
        name == Err::<&str, Error>(Error::NameNotUtf8 { side, index: i })
    }
}

fn name_at(names: &Vec<Vec<u8>>, side: Side, i: usize) -> (name: Result<&str, Error>)
    ensures
        name_outcome(name, names@, side, i),
{
    if i >= names.len() {
        return Err(Error::SessionIndexOutOfRange { side, index: i, count: names.len() });
    }
    match utf8_text(names[i].as_slice()) {
        Some(text) => Ok(text),
        None => Err(Error::NameNotUtf8 { side, index: i }),
    }
}

/// The static type at index `i` of one side, or the failure that it is not there.
pub open spec fn meta_at(meta: Seq<CachedIo>, side: Side, i: usize) -> Result<CachedIo, Error> {
    if i < meta.len() {
        Ok(meta[i as int])
    } else {
        Err(Error::SessionIndexOutOfRange { side, index: i, count: meta.len() as usize })
    }
}

fn cached_at(meta: &Vec<CachedIo>, side: Side, i: usize) -> (cached: Result<&CachedIo, Error>)
    ensures
        match meta_at(meta@, side, i) {
            Ok(found) => cached == Ok::<&CachedIo, Error>(&found),
            Err(error) => cached == Err::<&CachedIo, Error>(error),
        },
{
    if i < meta.len() {
        Ok(&meta[i])
    } else {
        Err(Error::SessionIndexOutOfRange { side, index: i, count: meta.len() })
    }
}

} // verus!
