//! How sessions are made: the calls that follow once the handle of the options is built.
//!
//! That handle is released after the last call, whether it succeeded or not, and after the first
//! one that failed.
use vstd::prelude::*;

use crate::calls::CallPlan;
use crate::error::{fail, Error, Fault};
use crate::runtime::options::CudaStream;
use crate::session::session::{Session, SetupReplies};
use crate::session_options::{OptionStep, SessionOptions};
use crate::text::CText;

verus! {

/// What a session is made from.
#[derive(Debug, Clone, Copy, PartialEq, Eq, Structural)]
pub enum ModelSource {
    /// A file.
    Path,
    /// Bytes.
    Bytes,
    /// A model that was built in memory.
    Model,
    /// Bytes, for a session that is edited before it runs.
    Editor,
}

/// What the engine answers on being asked for a function for models that are edited.
#[derive(Debug)]
pub struct EditorReply {
    /// Whether it has such functions at all.
    pub api: bool,
    /// Whether the one that is asked for is among them.
    pub function: Result<(), Error>,
}

impl EditorReply {
    /// Why the function cannot be called.
    pub open spec fn fault(self) -> Option<Error> {
        if !self.api {
            Some(Error::Fault(Fault::EditorApiUnavailable))
        } else {
            match self.function {
                Ok(()) => None,
                Err(error) => Some(error),
            }
        }
    }

    /// Check that the function can be called.
    pub fn check(self) -> (result: Result<(), Error>)
        ensures
            match self.fault() {
                Some(error) => result == Err::<(), Error>(error),
                None => result is Ok,
            },
    {
        if !self.api {
            return fail(Fault::EditorApiUnavailable);
        }
        self.function
    }
}

/// How far finalizing a session that was edited has come.
#[derive(Debug)]
pub enum Finalizing<'a> {
    /// It has failed.
    Failed(Error),
    /// The handle of the options is to be built by these calls.
    Build(CallPlan<OptionStep<'a>>),
    /// The engine is to finalize the session with that handle, which is released after it.
    Finalize,
    /// The engine is to be asked for the names and static types.
    Describe,
    /// The session can be run.
    Done,
}

/// Initializers that stand in for those of the model.
#[derive(Debug, Clone, Copy, PartialEq, Eq, Structural)]
pub enum Initializers {
    /// A number of tensors that the session keeps.
    Owned(usize),
    /// A number of tensors that the model marks as external.
    External(usize),
    /// A number of external files.
    Files(usize),
}

/// One call of making a session.
#[derive(Debug, Clone, Copy, PartialEq, Eq, Structural)]
pub enum CreateCall {
    /// Attach the devices that the options name.
    AttachDevices,
    /// Use the environment's threads.
    DisableSessionThreads,
    /// Add one initializer.
    AddInitializer(usize),
    /// Add all external initializers.
    AddExternalInitializers(usize),
    /// Add all files of external initializers.
    AddInitializerFiles(usize),
    /// Make the session, with or without prepacked weights.
    Create(ModelSource, bool),
}

impl Initializers {
    /// The calls that add them: one by one where the session keeps them, and otherwise all at once
    /// where there are any.
    pub open spec fn calls(self) -> Seq<CreateCall> {
        match self {
            Initializers::Owned(count) => Seq::new(
                count as nat,
                |i: int| CreateCall::AddInitializer(i as usize),
            ),
            Initializers::External(count) => if count == 0 {
                Seq::empty()
            } else {
                seq![CreateCall::AddExternalInitializers(count)]
            },
            Initializers::Files(count) => if count == 0 {
                Seq::empty()
            } else {
                seq![CreateCall::AddInitializerFiles(count)]
            },
        }
    }

    fn push_calls(self, calls: &mut Vec<CreateCall>)
        ensures
            final(calls)@ == old(calls)@ + self.calls(),
    {
        match self {
            Initializers::Owned(count) => {
                let mut i: usize = 0;
                while i < count
                    invariant
                        i <= count,
                        calls@ == old(calls)@ + Initializers::Owned(i).calls(),
                    decreases count - i,
                {
                    calls.push(CreateCall::AddInitializer(i));
                    i = i + 1;
                    assert(calls@ =~= old(calls)@ + Initializers::Owned(i).calls());
                }
            },
            Initializers::External(count) => {
                if count > 0 {
                    calls.push(CreateCall::AddExternalInitializers(count));
                }
            },
            Initializers::Files(count) => {
                if count > 0 {
                    calls.push(CreateCall::AddInitializerFiles(count));
                }
            },
        }
        assert(calls@ =~= old(calls)@ + self.calls());
    }
}

/// The calls of making a session. The environment's threads are used where it has some and the
/// options do not opt out.
pub open spec fn create_calls(
    shared_threads: bool,
    options: SessionOptions,
    initializers: Initializers,
    source: ModelSource,
    prepacked: bool,
) -> Seq<CreateCall> {
    seq![CreateCall::AttachDevices] + (if shared_threads && options.use_global_thread_pool {
        seq![CreateCall::DisableSessionThreads]
    } else {
        Seq::empty()
    }) + initializers.calls() + seq![CreateCall::Create(source, prepacked)]
}

fn plan_create(
    shared_threads: bool,
    options: &SessionOptions,
    initializers: Initializers,
    source: ModelSource,
    prepacked: bool,
) -> (plan: CallPlan<CreateCall>)
    ensures
        plan.fresh(create_calls(shared_threads, *options, initializers, source, prepacked)),
{
    let mut calls: Vec<CreateCall> = Vec::new();
    calls.push(CreateCall::AttachDevices);
    if shared_threads && options.use_global_thread_pool {
        calls.push(CreateCall::DisableSessionThreads);
    }
    initializers.push_calls(&mut calls);
    calls.push(CreateCall::Create(source, prepacked));
    assert(calls@ =~= create_calls(shared_threads, *options, initializers, source, prepacked));
    CallPlan::new(calls)
}

/// The path of a model, and the calls of making a session from it.
#[derive(Debug)]
pub struct PathPlan {
    /// The path.
    pub path: CText,
    /// The names and bytes of external files.
    pub files: Vec<(CText, Vec<u8>)>,
    /// The calls.
    pub calls: CallPlan<CreateCall>,
}

impl PathPlan {
    /// `made` is the outcome of planning a session from a file.
    pub open spec fn is_planned(
        made: Result<PathPlan, Error>,
        path: Seq<char>,
        shared_threads: bool,
        options: SessionOptions,
        initializers: Initializers,
        prepacked: bool,
    ) -> bool {
        if crate::text::has_nul(path) {
            made == Err::<PathPlan, Error>(Error::Fault(Fault::ModelPathNul))
        } else {
            &&& made matches Ok(plan)
            &&& plan.path@ == path
            &&& plan.files@.len() == 0
            &&& plan.calls.fresh(
                create_calls(shared_threads, options, initializers, ModelSource::Path, prepacked),
            )
        }
    }
}

fn plan_path(
    path: &str,
    shared_threads: bool,
    options: &SessionOptions,
    initializers: Initializers,
    prepacked: bool,
) -> (made: Result<PathPlan, Error>)
    ensures
        PathPlan::is_planned(made, path@, shared_threads, *options, initializers, prepacked),
{
    match CText::new(path) {
        Ok(path) => Ok(
            PathPlan {
                path,
                files: Vec::new(),
                calls: plan_create(
                    shared_threads,
                    options,
                    initializers,
                    ModelSource::Path,
                    prepacked,
                ),
            },
        ),
        Err(_) => fail(Fault::ModelPathNul),
    }
}

/// No name of the files holds a NUL byte.
pub open spec fn file_names_are_clean(files: Seq<(String, Vec<u8>)>) -> bool {
    forall|i: int| 0 <= i < files.len() ==> !crate::text::has_nul((#[trigger] files[i]).0@)
}

/// The same files, with the same names and bytes.
pub open spec fn same_files(files: Seq<(String, Vec<u8>)>, named: Seq<(CText, Vec<u8>)>) -> bool {
    &&& files.len() == named.len()
    &&& forall|i: int|
        0 <= i < files.len() ==> (#[trigger] named[i]).0@ == files[i].0@ && named[i].1@
            == files[i].1@
}

fn name_files(files: Vec<(String, Vec<u8>)>) -> (named: Result<Vec<(CText, Vec<u8>)>, Error>)
    ensures
        if file_names_are_clean(files@) {
            named matches Ok(named) && same_files(files@, named@)
        } else {
            named == Err::<Vec<(CText, Vec<u8>)>, Error>(Error::Fault(Fault::InitializerFileNul))
        },
{
    let ghost all = files@;
    let mut rest = files;
    let mut named: Vec<(CText, Vec<u8>)> = Vec::new();
    while rest.len() > 0
        invariant
            all == files@,
            named@.len() + rest@.len() == all.len(),
            rest@ == all.skip(named@.len() as int),
            forall|i: int|
                0 <= i < named@.len() ==> (#[trigger] named@[i]).0@ == all[i].0@ && named@[i].1@
                    == all[i].1@,
            forall|i: int|
                0 <= i < named@.len() ==> !crate::text::has_nul((#[trigger] all[i]).0@),
        decreases rest@.len(),
    {
        let ghost at = named@.len() as int;
        let (name, bytes) = rest.remove(0);
        assert(all[at] == (name, bytes));
        assert(rest@ =~= all.skip(at + 1));
        match CText::from_string(name) {
            Ok(name) => named.push((name, bytes)),
            Err(_) => {
                assert(crate::text::has_nul(all[at].0@));
                return fail(Fault::InitializerFileNul);
            },
        }
    }
    Ok(named)
}

impl Session {
    /// Make a session from a file.
    pub fn new(
        shared_threads: bool,
        model_path: &str,
        options: &SessionOptions,
    ) -> (made: Result<PathPlan, Error>)
        ensures
            PathPlan::is_planned(
                made,
                model_path@,
                shared_threads,
                *options,
                Initializers::Owned(0),
                false,
            ),
    {
        plan_path(model_path, shared_threads, options, Initializers::Owned(0), false)
    }

    /// Make a session from a file, with prepacked weights that sessions share.
    pub fn new_with_prepacked_weights(
        shared_threads: bool,
        model_path: &str,
        options: &SessionOptions,
    ) -> (made: Result<PathPlan, Error>)
        ensures
            PathPlan::is_planned(
                made,
                model_path@,
                shared_threads,
                *options,
                Initializers::Owned(0),
                true,
            ),
    {
        plan_path(model_path, shared_threads, options, Initializers::Owned(0), true)
    }

    /// Make a session from a file, with initializers that it keeps.
    pub fn new_with_owned_initializers(
        shared_threads: bool,
        model_path: &str,
        options: &SessionOptions,
        initializers: usize,
    ) -> (made: Result<PathPlan, Error>)
        ensures
            PathPlan::is_planned(
                made,
                model_path@,
                shared_threads,
                *options,
                Initializers::Owned(initializers),
                false,
            ),
    {
        plan_path(model_path, shared_threads, options, Initializers::Owned(initializers), false)
    }

    /// Make a session from a file, with initializers that the model marks as external.
    pub fn new_with_external_initializers(
        shared_threads: bool,
        model_path: &str,
        options: &SessionOptions,
        initializers: usize,
    ) -> (made: Result<PathPlan, Error>)
        ensures
            PathPlan::is_planned(
                made,
                model_path@,
                shared_threads,
                *options,
                Initializers::External(initializers),
                false,
            ),
    {
        plan_path(model_path, shared_threads, options, Initializers::External(initializers), false)
    }

    /// Make a session from a file, with prepacked weights that sessions share and with initializers that
    /// it keeps.
    pub fn new_with_prepacked_weights_and_owned_initializers(
        shared_threads: bool,
        model_path: &str,
        options: &SessionOptions,
        initializers: usize,
    ) -> (made: Result<PathPlan, Error>)
        ensures
            PathPlan::is_planned(
                made,
                model_path@,
                shared_threads,
                *options,
                Initializers::Owned(initializers),
                true,
            ),
    {
        plan_path(model_path, shared_threads, options, Initializers::Owned(initializers), true)
    }

    /// Make a session from a file, with the contents of the external files of its initializers.
    pub fn new_with_external_initializer_files(
        shared_threads: bool,
        model_path: &str,
        options: &SessionOptions,
        files: Vec<(String, Vec<u8>)>,
    ) -> (made: Result<PathPlan, Error>)
        ensures
            if crate::text::has_nul(model_path@) {
                made == Err::<PathPlan, Error>(Error::Fault(Fault::ModelPathNul))
            } else if !file_names_are_clean(files@) {
                made == Err::<PathPlan, Error>(Error::Fault(Fault::InitializerFileNul))
            } else {
                &&& made matches Ok(plan)
                &&& plan.path@ == model_path@
                &&& same_files(files@, plan.files@)
                &&& plan.calls.fresh(
                    create_calls(
                        shared_threads,
                        *options,
                        Initializers::Files(files@.len() as usize),
                        ModelSource::Path,
                        false,
                    ),
                )
            },
    {
        let path = match CText::new(model_path) {
            Ok(path) => path,
            Err(_) => return fail(Fault::ModelPathNul),
        };
        let count: usize = files.len();
        match name_files(files) {
            Ok(files) => Ok(
                PathPlan {
                    path,
                    files,
                    calls: plan_create(
                        shared_threads,
                        options,
                        Initializers::Files(count),
                        ModelSource::Path,
                        false,
                    ),
                },
            ),
            Err(error) => Err(error),
        }
    }

    /// Make a session from bytes.
    pub fn from_bytes(
        shared_threads: bool,
        options: &SessionOptions,
    ) -> (plan: CallPlan<CreateCall>)
        ensures
            plan.fresh(
                create_calls(
                    shared_threads,
                    *options,
                    Initializers::Owned(0),
                    ModelSource::Bytes,
                    false,
                ),
            ),
    {
        plan_create(shared_threads, options, Initializers::Owned(0), ModelSource::Bytes, false)
    }

    /// Make a session from bytes, with prepacked weights that sessions share.
    pub fn from_bytes_with_prepacked_weights(
        shared_threads: bool,
        options: &SessionOptions,
    ) -> (plan: CallPlan<CreateCall>)
        ensures
            plan.fresh(
                create_calls(
                    shared_threads,
                    *options,
                    Initializers::Owned(0),
                    ModelSource::Bytes,
                    true,
                ),
            ),
    {
        plan_create(shared_threads, options, Initializers::Owned(0), ModelSource::Bytes, true)
    }

    /// Make a session from bytes, with initializers that it keeps.
    pub fn from_bytes_with_owned_initializers(
        shared_threads: bool,
        options: &SessionOptions, initializers: usize,
    ) -> (plan: CallPlan<CreateCall>)
        ensures
            plan.fresh(
                create_calls(
                    shared_threads,
                    *options,
                    Initializers::Owned(initializers),
                    ModelSource::Bytes,
                    false,
                ),
            ),
    {
        plan_create(shared_threads, options, Initializers::Owned(initializers), ModelSource::Bytes, false)
    }

    /// Make a session from bytes, with prepacked weights that sessions share and with initializers that
    /// it keeps.
    pub fn from_bytes_with_prepacked_weights_and_owned_initializers(
        shared_threads: bool,
        options: &SessionOptions, initializers: usize,
    ) -> (plan: CallPlan<CreateCall>)
        ensures
            plan.fresh(
                create_calls(
                    shared_threads,
                    *options,
                    Initializers::Owned(initializers),
                    ModelSource::Bytes,
                    true,
                ),
            ),
    {
        plan_create(shared_threads, options, Initializers::Owned(initializers), ModelSource::Bytes, true)
    }

    /// Make a session from a model that was built in memory, where the engine has the function for it.
    pub fn from_model(
        shared_threads: bool,
        options: &SessionOptions,
        editor: EditorReply,
    ) -> (plan: Result<CallPlan<CreateCall>, Error>)
        ensures
            match editor.fault() {
                Some(error) => plan == Err::<CallPlan<CreateCall>, Error>(error),
                None => plan matches Ok(plan) && plan.fresh(
                    create_calls(
                        shared_threads,
                        *options,
                        Initializers::Owned(0),
                        ModelSource::Model,
                        false,
                    ),
                ),
            },
    {
        if let Err(error) = editor.check() {
            return Err(error);
        }
        Ok(plan_create(shared_threads, options, Initializers::Owned(0), ModelSource::Model, false))
    }

    /// Make a session from bytes that is edited before it runs, where the engine has the function for
    /// it.
    pub fn from_bytes_for_editing(
        shared_threads: bool,
        options: &SessionOptions,
        editor: EditorReply,
    ) -> (plan: Result<CallPlan<CreateCall>, Error>)
        ensures
            match editor.fault() {
                Some(error) => plan == Err::<CallPlan<CreateCall>, Error>(error),
                None => plan matches Ok(plan) && plan.fresh(
                    create_calls(
                        shared_threads,
                        *options,
                        Initializers::Owned(0),
                        ModelSource::Editor,
                        false,
                    ),
                ),
            },
    {
        if let Err(error) = editor.check() {
            return Err(error);
        }
        Ok(plan_create(shared_threads, options, Initializers::Owned(0), ModelSource::Editor, false))
    }

    /// `after` is this session with the streams that it did not keep yet.
    pub open spec fn retains(self, after: Session, streams: Seq<CudaStream>) -> bool {
        &&& after.spec_handle() == self.spec_handle()
        &&& after.spec_environment() == self.spec_environment()
        &&& after.inputs() == self.inputs()
        &&& after.outputs() == self.outputs()
        &&& after.input_types() == self.input_types()
        &&& after.output_types() == self.output_types()
        &&& after.streams() == merged(self.streams(), streams)
    }

    fn retain_streams(&mut self, streams: &Vec<CudaStream>)
        ensures
            old(self).retains(*final(self), streams@),
    {
        let mut i: usize = 0;
        proof {
            assert(merged(self.streams(), streams@.take(0)) == self.streams());
        }
        while i < streams.len()
            invariant
                i <= streams@.len(),
                old(self).retains(*self, streams@.take(i as int)),
            decreases streams@.len() - i,
        {
            let stream = streams[i];
            proof {
                assert(streams@.take(i + 1).drop_last() =~= streams@.take(i as int));
                assert(streams@.take(i + 1).last() == stream);
            }
            if !self.uses_cuda_stream(stream) {
                self.retain_stream(stream);
            }
            i = i + 1;
        }
        assert(streams@.take(streams@.len() as int) =~= streams@);
    }

    /// Begin to finalize a session that was edited, while nothing else uses it and where the engine has
    /// the function for it. The streams of the options are kept from then on, and the handle of the
    /// options is built once those that the providers are given have been found valid.
    pub fn finalize<'a>(
        &mut self,
        shared: bool,
        editor: EditorReply,
        streams: &Vec<CudaStream>,
        valid: Result<(), Error>,
        options: &'a SessionOptions,
    ) -> (step: Finalizing<'a>)
        ensures
            if shared {
                &&& step == Finalizing::<'a>::Failed(Error::Fault(Fault::FinalizeShared))
                &&& *final(self) == *old(self)
            } else {
                match editor.fault() {
                    Some(error) => step == Finalizing::<'a>::Failed(error) && *final(self)
                        == *old(self),
                    None => {
                        &&& old(self).retains(*final(self), streams@)
                        &&& match valid {
                            Err(error) => step == Finalizing::<'a>::Failed(error),
                            Ok(()) => step matches Finalizing::Build(plan) && plan.fresh(
                                options.steps(true),
                            ),
                        }
                    },
                }
            },
    {
        if shared {
            return Finalizing::Failed(Error::Fault(Fault::FinalizeShared));
        }
        if let Err(error) = editor.check() {
            return Finalizing::Failed(error);
        }
        self.retain_streams(streams);
        match options.build_handle_for_session(valid) {
            Err(error) => Finalizing::Failed(error),
            Ok(plan) => Finalizing::Build(plan),
        }
    }

    /// The answer to building the handle of the options.
    pub fn finalize_with_options<'a>(&self, built: Result<(), Error>) -> (step: Finalizing<'a>)
        ensures
            step == match built {
                Err(error) => Finalizing::<'a>::Failed(error),
                Ok(()) => Finalizing::<'a>::Finalize,
            },
    {
        match built {
            Err(error) => Finalizing::Failed(error),
            Ok(()) => Finalizing::Finalize,
        }
    }

    /// The engine's answer to finalizing the session.
    pub fn finalize_answered<'a>(&self, reply: Result<(), Error>) -> (step: Finalizing<'a>)
        ensures
            step == match reply {
                Err(error) => Finalizing::<'a>::Failed(error),
                Ok(()) => Finalizing::<'a>::Describe,
            },
    {
        match reply {
            Err(error) => Finalizing::Failed(error),
            Ok(()) => Finalizing::Describe,
        }
    }

    /// The names and static types of the session that was finalized. Where they cannot be read, those
    /// from before stay.
    pub fn finalize_described<'a>(&mut self, shared: bool, replies: SetupReplies) -> (step: Finalizing<
        'a,
    >)
        requires
            old(self).wf(),
            replies.fault() is None ==> replies.input_names->Ok_0@.len()
                == replies.input_types@.len() && replies.output_names->Ok_0@.len()
                == replies.output_types@.len(),
            replies.run_options is Ok,
        ensures
            exists|result: Result<(), Error>|
                #[trigger] old(self).refreshed(*final(self), shared, replies, result) && step
                    == match result {
                    Err(error) => Finalizing::<'a>::Failed(error),
                    Ok(()) => Finalizing::<'a>::Done,
                },
    {
        let result = self.refresh_io_metadata(shared, replies);
        match result {
            Err(error) => Finalizing::Failed(error),
            Ok(()) => Finalizing::Done,
        }
    }
}

/// A session that was finalized is the one that it was, with the streams of the options, and with the
/// inputs and outputs that the engine reports of it.
pub proof fn finalized_sessions_are_described(
    session: Session,
    streams: Seq<CudaStream>,
    retained: Session,
    replies: SetupReplies,
    after: Session,
)
    requires
        session.retains(retained, streams),
        retained.refreshed(after, false, replies, Ok(())),
    ensures
        after.wf(),
        after.spec_handle() == session.spec_handle(),
        after.spec_environment() == session.spec_environment(),
        after.streams() == merged(session.streams(), streams),
        after.inputs().len() == replies.input_types@.len(),
        after.outputs().len() == replies.output_types@.len(),
        forall|i: int|
            0 <= i < after.inputs().len() ==> replies.input_names->Ok_0@[i] == Ok::<
                Option<Vec<u8>>,
                Error,
            >(Some(#[trigger] after.inputs()[i])),
        forall|i: int|
            0 <= i < after.outputs().len() ==> replies.output_names->Ok_0@[i] == Ok::<
                Option<Vec<u8>>,
                Error,
            >(Some(#[trigger] after.outputs()[i])),
{
}

/// The streams, and those of `more` that are not among them, each once.
pub open spec fn merged(streams: Seq<CudaStream>, more: Seq<CudaStream>) -> Seq<CudaStream>
    decreases more.len(),
{
    if more.len() == 0 {
        streams
    } else {
        let before = merged(streams, more.drop_last());
        if before.contains(more.last()) {
            before
        } else {
            before.push(more.last())
        }
    }
}

proof fn lemma_merged(streams: Seq<CudaStream>, more: Seq<CudaStream>)
    requires
        streams.no_duplicates(),
    ensures
        merged(streams, more).no_duplicates(),
        forall|stream: CudaStream|
            #[trigger] merged(streams, more).contains(stream) <==> streams.contains(stream)
                || more.contains(stream),
    decreases more.len(),
{
    if more.len() > 0 {
        lemma_merged(streams, more.drop_last());
        let before = merged(streams, more.drop_last());
        let last = more.last();
        assert forall|stream: CudaStream| #[trigger]
            merged(streams, more).contains(stream) <==> streams.contains(stream)
                || more.contains(stream) by {
            assert(more =~= more.drop_last().push(last));
            if merged(streams, more).contains(stream) && stream != last {
                let i = merged(streams, more).index_of(stream);
                assert(before.contains(stream)) by {
                    assert(merged(streams, more)[i] == stream);
                    if !before.contains(last) {
                        assert(i < before.len());
                        assert(before[i] == stream);
                    }
                }
                let k = if streams.contains(stream) {
                    0
                } else {
                    more.drop_last().index_of(stream)
                };
                if !streams.contains(stream) {
                    assert(more[k] == stream);
                }
            }
            if stream == last {
                assert(more[more.len() - 1] == stream);
                if !before.contains(last) {
                    assert(before.push(last)[before.len() as int] == last);
                }
            }
            if (streams.contains(stream) || more.contains(stream)) && stream != last {
                if more.contains(stream) {
                    let k = more.index_of(stream);
                    assert(more.drop_last()[k] == stream);
                }
                assert(before.contains(stream));
                let k = before.index_of(stream);
                if !before.contains(last) {
                    assert(before.push(last)[k] == stream);
                }
            }
        }
    } else {
        assert(forall|stream: CudaStream| !more.contains(stream));
    }
}

/// Finalizing keeps every stream that the session kept before and every one of the options, each
/// once.
pub proof fn finalizing_keeps_streams(session: Session, after: Session, streams: Seq<CudaStream>)
    requires
        session.streams().no_duplicates(),
        session.retains(after, streams),
    ensures
        after.streams().no_duplicates(),
        forall|stream: CudaStream|
            #[trigger] after.streams().contains(stream) <==> session.streams().contains(stream)
                || streams.contains(stream),
{
    lemma_merged(session.streams(), streams);
}

/// The handle of the options is built, then the devices are attached, and the session is made last:
/// whatever the options and initializers are.
pub proof fn sessions_are_made_last(
    shared_threads: bool,
    options: SessionOptions,
    initializers: Initializers,
    source: ModelSource,
    prepacked: bool,
)
    ensures
        create_calls(shared_threads, options, initializers, source, prepacked)[0]
            == CreateCall::AttachDevices,
        create_calls(shared_threads, options, initializers, source, prepacked).last()
            == CreateCall::Create(source, prepacked),
        create_calls(shared_threads, options, initializers, source, prepacked).contains(
            CreateCall::DisableSessionThreads,
        ) <==> shared_threads && options.use_global_thread_pool,
{
    let calls = create_calls(shared_threads, options, initializers, source, prepacked);
    if shared_threads && options.use_global_thread_pool {
        assert(calls[1] == CreateCall::DisableSessionThreads);
    } else {
        assert forall|i: int| 0 <= i < calls.len() implies calls[i]
            != CreateCall::DisableSessionThreads by {
            if 0 < i < calls.len() - 1 {
                assert(calls[i] == initializers.calls()[i - 1]);
            }
        }
    }
}

} // verus!
