//! The threads that all sessions of an environment share.
use vstd::prelude::*;

use crate::error::{fail, Error, Fault};
use crate::text::CText;

verus! {

/// What makes and joins the shared threads for the engine.
///
/// The environment keeps it until the engine has joined the last thread.
pub trait ThreadManager: Send + Sync + 'static {
    /// What a thread is joined by.
    type Thread: Send + 'static;

    /// Make a thread that does `work`.
    fn create<F: FnOnce() + Send + 'static>(&self, work: F) -> (thread: Result<Self::Thread, Error>)
        requires
            call_requires(work, ()),
    ;

    /// Join a thread.
    fn join(thread: Self::Thread) -> (joined: Result<(), Error>);
}

/// One call that hands an option to the engine.
#[derive(Debug)]
pub enum ThreadCall {
    /// Set the threads within a node.
    IntraThreads(i32),
    /// Set the threads across nodes.
    InterThreads(i32),
    /// Set whether threads spin while they wait: one where they do, and zero where they do not.
    SpinControl(i32),
    /// Pin the threads within a node.
    IntraAffinity(CText),
    /// Take denormal numbers for zero.
    DenormalAsZero,
    /// Set the state for the callback that makes threads.
    CreationOptions(u64),
    /// Set the callback that makes threads.
    CreateThread,
    /// Set the callback that joins threads.
    JoinThread,
}

/// The options of the shared threads: the calls that hand them to the engine, in order.
#[derive(Debug)]
pub struct ThreadingOptions {
    calls: Vec<ThreadCall>,
    manager: Option<u64>,
}

impl ThreadingOptions {
    /// The calls, in order.
    pub closed spec fn spec_calls(self) -> Seq<ThreadCall> {
        self.calls@
    }

    /// What makes and joins the threads, if it was set.
    pub closed spec fn spec_manager(self) -> Option<u64> {
        self.manager
    }

    /// These options with one more call.
    pub open spec fn called(self, call: ThreadCall, options: ThreadingOptions) -> bool {
        &&& options.spec_calls() == self.spec_calls().push(call)
        &&& options.spec_manager() == self.spec_manager()
    }

    /// No options.
    pub fn new() -> (options: ThreadingOptions)
        ensures
            options.spec_calls().len() == 0,
            options.spec_manager() is None,
    {
        ThreadingOptions { calls: Vec::new(), manager: None }
    }

    /// The calls, in order.
    pub fn calls(&self) -> (calls: &Vec<ThreadCall>)
        ensures
            calls@ == self.spec_calls(),
    {
        &self.calls
    }

    fn with_call(self, call: ThreadCall) -> (options: ThreadingOptions)
        ensures
            self.called(call, options),
    {
        let mut options = self;
        options.calls.push(call);
        options
    }

    /// Set the threads within a node.
    pub fn with_intra_threads(self, n: i32) -> (options: ThreadingOptions)
        ensures
            self.called(ThreadCall::IntraThreads(n), options),
    {
        self.with_call(ThreadCall::IntraThreads(n))
    }

    /// Set the threads across nodes.
    pub fn with_inter_threads(self, n: i32) -> (options: ThreadingOptions)
        ensures
            self.called(ThreadCall::InterThreads(n), options),
    {
        self.with_call(ThreadCall::InterThreads(n))
    }

    /// Set whether threads spin while they wait.
    pub fn with_spin_control(self, allow_spinning: bool) -> (options: ThreadingOptions)
        ensures
            self.called(
                ThreadCall::SpinControl(
                    if allow_spinning {
                        1i32
                    } else {
                        0i32
                    },
                ),
                options,
            ),
    {
        self.with_call(
            ThreadCall::SpinControl(
                if allow_spinning {
                    1
                } else {
                    0
                },
            ),
        )
    }

    /// Let no thread spin while it waits.
    pub fn disable_spinning(self) -> (options: ThreadingOptions)
        ensures
            self.called(ThreadCall::SpinControl(0i32), options),
    {
        self.with_spin_control(false)
    }

    /// Pin the threads within a node, by a text such as `1;2;3`, which may hold no NUL byte.
    pub fn with_intra_thread_affinity(self, affinity: &str) -> (options: Result<
        ThreadingOptions,
        Error,
    >)
        ensures
            match options {
                Ok(options) => {
                    &&& !crate::text::has_nul(affinity@)
                    &&& options.spec_calls().len() == self.spec_calls().len() + 1
                    &&& options.spec_calls().drop_last() == self.spec_calls()
                    &&& options.spec_calls().last() matches ThreadCall::IntraAffinity(text)
                        && text@ == affinity@
                    &&& options.spec_manager() == self.spec_manager()
                },
                Err(error) => crate::text::has_nul(affinity@) && error == Error::Fault(
                    Fault::ThreadAffinityNul,
                ),
            },
    {
        match CText::new(affinity) {
            Ok(text) => {
                let options = self.with_call(ThreadCall::IntraAffinity(text));
                assert(options.spec_calls().drop_last() =~= self.spec_calls());
                Ok(options)
            },
            Err(_) => fail(Fault::ThreadAffinityNul),
        }
    }

    /// Take denormal numbers for zero.
    pub fn with_denormal_as_zero(self) -> (options: ThreadingOptions)
        ensures
            self.called(ThreadCall::DenormalAsZero, options),
    {
        self.with_call(ThreadCall::DenormalAsZero)
    }

    /// Set what makes and joins the threads, at most once.
    pub fn with_thread_manager(self, manager: u64) -> (options: Result<ThreadingOptions, Error>)
        ensures
            match options {
                Ok(options) => {
                    &&& self.spec_manager() is None
                    &&& options.spec_manager() == Some(manager)
                    &&& options.spec_calls() == self.spec_calls() + seq![
                        ThreadCall::CreationOptions(manager),
                        ThreadCall::CreateThread,
                        ThreadCall::JoinThread,
                    ]
                },
                Err(error) => self.spec_manager() is Some && error == Error::Fault(
                    Fault::ThreadManagerConfigured,
                ),
            },
    {
        if self.manager.is_some() {
            return fail(Fault::ThreadManagerConfigured);
        }
        let mut options = self;
        options.calls.push(ThreadCall::CreationOptions(manager));
        options.calls.push(ThreadCall::CreateThread);
        options.calls.push(ThreadCall::JoinThread);
        options.manager = Some(manager);
        assert(options.calls@ =~= self.calls@ + seq![
            ThreadCall::CreationOptions(manager),
            ThreadCall::CreateThread,
            ThreadCall::JoinThread,
        ]);
        Ok(options)
    }
}

} // verus!
