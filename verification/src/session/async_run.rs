//! Asynchronous runs: the engine completes them from a thread of its own, and a task polls.
//!
//! The state is shared behind a lock, so that a completion and a poll exclude each other.
use vstd::prelude::*;

use crate::error::{fail, Error, Fault};
use crate::session::run::null_handles;
use crate::session::session::Session;
use crate::tensor::value::OwnedValue;
use futures_util::task::AtomicWaker;
use std::task::Waker;

verus! {

/// The cell that holds the waker of the polling task.
#[verifier::external_type_specification]
#[verifier::external_body]
pub struct ExAtomicWaker(futures_util::task::AtomicWaker);

/// The handle by which a task is woken.
#[verifier::external_type_specification]
#[verifier::external_body]
pub struct ExWaker(std::task::Waker);

/// Whether the cell holds a waker that wakes the same task as `task`.
pub uninterp spec fn wakes(cell: futures_util::task::AtomicWaker, task: std::task::Waker) -> bool;

/// `AtomicWaker::new` makes a cell without a waker.
pub assume_specification[ futures_util::task::AtomicWaker::new ]() -> (cell:
    futures_util::task::AtomicWaker)
    ensures
        forall|task: std::task::Waker| !#[trigger] wakes(cell, task),
;

/// Calls `AtomicWaker::register`, which stores a clone of the waker in place of the one that was
/// stored before, or keeps that one where it wakes the same task. The cell is borrowed exclusively,
/// so that no other call comes between.
#[verifier::external_body]
fn register_waker(cell: &mut AtomicWaker, waker: &Waker)
    ensures
        wakes(*final(cell), *waker),
{
    cell.register(waker);
}

/// Calls `AtomicWaker::take`, which takes the stored waker out of the cell, if there is one. The
/// cell is borrowed exclusively, so that no other call comes between.
#[verifier::external_body]
fn take_waker(cell: &mut AtomicWaker) -> (held: Option<Waker>)
    ensures
        match held {
            Some(task) => wakes(*old(cell), task),
            None => forall|task: std::task::Waker| !#[trigger] wakes(*old(cell), task),
        },
        forall|task: std::task::Waker| !#[trigger] wakes(*final(cell), task),
{
    cell.take()
}

/// What a poll gives.
#[derive(Debug)]
pub enum RunPoll<V> {
    /// The run has completed.
    Ready(Result<Vec<V>, Error>),
    /// The run goes on, and the task will be woken.
    Pending,
}

/// What the engine's callback was called with.
#[derive(Debug)]
pub enum AsyncReply<V> {
    /// Taking the outputs unwound.
    Panicked,
    /// There was a status.
    Status(Result<(), Error>),
    /// There was no status, and no array of outputs.
    NoOutputs,
    /// There was no status, and the outputs were taken.
    Outputs(Result<Vec<V>, Error>),
}

/// The engine's code for an unspecific failure.
pub const ENGINE_FAIL: i32 = 1;

impl<V> AsyncReply<V> {
    /// What the run gives.
    pub open spec fn is_outcome(self, result: Result<Vec<V>, Error>) -> bool {
        match self {
            AsyncReply::Panicked => result matches Err(Error::Engine { code, message }) && code
                == ENGINE_FAIL && message@ == "panic in RunAsync callback"@,
            AsyncReply::Status(Err(error)) => result == Err::<Vec<V>, Error>(error),
            AsyncReply::Status(Ok(())) => result matches Err(Error::Engine { code, message })
                && code == ENGINE_FAIL && message@ == "RunAsync returned a non-null but Ok status"@,
            AsyncReply::NoOutputs => result matches Ok(values) && values@.len() == 0,
            AsyncReply::Outputs(outputs) => result == outputs,
        }
    }

    /// What the run gives.
    pub fn outcome(self) -> (result: Result<Vec<V>, Error>)
        ensures
            self.is_outcome(result),
    {
        match self {
            AsyncReply::Panicked => Err(
                Error::Engine {
                    code: ENGINE_FAIL,
                    message: "panic in RunAsync callback".to_owned(),
                },
            ),
            AsyncReply::Status(Err(error)) => Err(error),
            AsyncReply::Status(Ok(())) => Err(
                Error::Engine {
                    code: ENGINE_FAIL,
                    message: "RunAsync returned a non-null but Ok status".to_owned(),
                },
            ),
            AsyncReply::NoOutputs => Ok(Vec::new()),
            AsyncReply::Outputs(outputs) => outputs,
        }
    }
}

/// The state of one asynchronous run, with the handle arrays that the engine reads and fills.
pub struct AsyncState<V> {
    result: Option<Result<Vec<V>, Error>>,
    done: bool,
    waker: AtomicWaker,
    in_handles: Vec<u64>,
    out_handles: Vec<u64>,
    owned_inputs: Option<Vec<OwnedValue>>,
}

impl<V> AsyncState<V> {
    /// The result, until it is taken.
    pub closed spec fn spec_result(self) -> Option<Result<Vec<V>, Error>> {
        self.result
    }

    /// Whether the run has completed.
    pub closed spec fn spec_done(self) -> bool {
        self.done
    }

    /// Whether the task of `task` waits for the run: it is woken by the waker that the run holds.
    pub closed spec fn waits(self, task: Waker) -> bool {
        wakes(self.waker, task)
    }

    /// Whether a task waits for the run.
    pub open spec fn waiting(self) -> bool {
        exists|task: Waker| #[trigger] self.waits(task)
    }

    /// `woken` is the waker of a task that waits for the run, if there is one.
    pub open spec fn hands_over(self, woken: Option<Waker>) -> bool {
        match woken {
            Some(task) => self.waits(task),
            None => !self.waiting(),
        }
    }

    /// The handles of the inputs.
    pub closed spec fn inputs(self) -> Seq<u64> {
        self.in_handles@
    }

    /// The handles of the outputs; null ones are zero.
    pub closed spec fn outputs(self) -> Seq<u64> {
        self.out_handles@
    }

    /// The inputs that the run owns, where it does.
    pub closed spec fn owned(self) -> Option<Vec<OwnedValue>> {
        self.owned_inputs
    }

    /// There is a result only once the run has completed.
    pub open spec fn wf(self) -> bool {
        self.spec_result() is Some ==> self.spec_done()
    }

    /// A run that has not completed.
    pub open spec fn fresh(self, inputs: Seq<u64>, outputs: nat) -> bool {
        &&& self.wf()
        &&& !self.spec_done()
        &&& !self.waiting()
        &&& self.inputs() == inputs
        &&& self.outputs() == Seq::new(outputs, |i: int| 0u64)
    }

    /// The same handle arrays and inputs.
    pub open spec fn same_handles(self, other: AsyncState<V>) -> bool {
        &&& self.inputs() == other.inputs()
        &&& self.outputs() == other.outputs()
        &&& self.owned() == other.owned()
    }

    /// `after` is this state once the run has completed with `result`.
    pub open spec fn completed(self, after: AsyncState<V>, result: Result<Vec<V>, Error>) -> bool {
        &&& after.wf()
        &&& after.spec_done()
        &&& after.spec_result() == Some(result)
        &&& !after.waiting()
        &&& after.same_handles(self)
    }

    /// `after` is this state once it has been polled by the task of `waker`, which gave `poll`.
    pub open spec fn polled(self, after: AsyncState<V>, waker: Waker, poll: RunPoll<V>) -> bool {
        &&& after.wf()
        &&& after.spec_done() == self.spec_done()
        &&& after.same_handles(self)
        &&& if self.spec_done() {
            &&& after.spec_result() is None
            &&& poll == RunPoll::Ready(
                match self.spec_result() {
                    Some(result) => result,
                    None => Err::<Vec<V>, Error>(Error::Fault(Fault::AsyncResultConsumed)),
                },
            )
        } else {
            poll is Pending && after.spec_result() == self.spec_result() && after.waits(waker)
        }
    }

    /// The engine's answer to starting the run: a run that was never started has no state.
    pub fn start(self, started: Result<(), Error>) -> (result: Result<AsyncState<V>, Error>)
        ensures
            match started {
                Ok(()) => result == Ok::<AsyncState<V>, Error>(self),
                Err(error) => result == Err::<AsyncState<V>, Error>(error),
            },
    {
        match started {
            Ok(()) => Ok(self),
            Err(error) => Err(error),
        }
    }

    /// Whether the run has completed.
    pub fn is_done(&self) -> (done: bool)
        ensures
            done == self.spec_done(),
    {
        self.done
    }

    /// Take the outcome of the run, and hand over the waker of the task that waits for it, if there is
    /// one: the caller wakes it.
    #[must_use]
    pub fn complete(&mut self, result: Result<Vec<V>, Error>) -> (woken: Option<Waker>)
        requires
            old(self).wf(),
            !old(self).spec_done(),
        ensures
            old(self).completed(*final(self), result),
            old(self).hands_over(woken),
    {
        let woken = take_waker(&mut self.waker);
        self.result = Some(result);
        self.done = true;
        assert(forall|task: Waker| self.waits(task) == wakes(self.waker, task));
        assert(forall|task: Waker| old(self).waits(task) == wakes(old(self).waker, task));
        woken
    }

    fn take_result(&mut self) -> (result: Result<Vec<V>, Error>)
        requires
            old(self).spec_done(),
        ensures
            final(self).spec_done(),
            final(self).spec_result() is None,
            final(self).same_handles(*old(self)),
            result == match old(self).spec_result() {
                Some(result) => result,
                None => Err::<Vec<V>, Error>(Error::Fault(Fault::AsyncResultConsumed)),
            },
    {
        match self.result.take() {
            Some(result) => result,
            None => fail(Fault::AsyncResultConsumed),
        }
    }

    /// Poll the run: its result once it has completed, or else the task waits.
    pub fn poll(&mut self, waker: &Waker) -> (poll: RunPoll<V>)
        requires
            old(self).wf(),
        ensures
            old(self).polled(*final(self), *waker, poll),
    {
        if self.done {
            return RunPoll::Ready(self.take_result());
        }
        register_waker(&mut self.waker, waker);
        assert(self.waits(*waker));
        RunPoll::Pending
    }
}

impl Session {
    /// `state` is the outcome of preparing an asynchronous run.
    pub open spec fn async_outcome<V>(
        self,
        state: Result<AsyncState<V>, Error>,
        in_handles: Seq<u64>,
        owned_inputs: Option<Vec<OwnedValue>>,
    ) -> bool {
        if in_handles.len() != self.inputs().len() {
            state == Err::<AsyncState<V>, Error>(
                Error::CountMismatch {
                    what: crate::error::Count::Input,
                    expected: self.inputs().len() as usize,
                    got: in_handles.len() as usize,
                },
            )
        } else {
            &&& state matches Ok(fresh)
            &&& fresh.fresh(in_handles, self.outputs().len())
            &&& fresh.owned() == owned_inputs
        }
    }

    /// Prepare an asynchronous run of inputs that the caller keeps until it has completed.
    pub fn run_async<V>(&self, in_handles: Vec<u64>) -> (state: Result<AsyncState<V>, Error>)
        ensures
            self.async_outcome(state, in_handles@, None),
    {
        self.run_async_owned(in_handles, None)
    }

    /// Prepare an asynchronous run that owns its inputs.
    pub fn run_async_owned_inputs<V>(&self, inputs: Vec<OwnedValue>) -> (state: Result<
        AsyncState<V>,
        Error,
    >)
        ensures
            self.async_outcome(
                state,
                Seq::new(inputs@.len(), |i: int| inputs@[i].value),
                Some(inputs),
            ),
    {
        let mut in_handles: Vec<u64> = Vec::new();
        let mut i: usize = 0;
        while i < inputs.len()
            invariant
                i <= inputs@.len(),
                in_handles@ == Seq::new(i as nat, |k: int| inputs@[k].value),
            decreases inputs@.len() - i,
        {
            in_handles.push(inputs[i].value);
            i = i + 1;
            assert(in_handles@ =~= Seq::new(i as nat, |k: int| inputs@[k].value));
        }
        self.run_async_owned(in_handles, Some(inputs))
    }

    /// Prepare an asynchronous run: the inputs must be as many as the session has.
    pub fn run_async_owned<V>(
        &self,
        in_handles: Vec<u64>,
        owned_inputs: Option<Vec<OwnedValue>>,
    ) -> (state: Result<AsyncState<V>, Error>)
        ensures
            self.async_outcome(state, in_handles@, owned_inputs),
    {
        if let Err(error) = self.check_input_count(in_handles.len()) {
            return Err(error);
        }
        let state = AsyncState {
            result: None,
            done: false,
            waker: AtomicWaker::new(),
            in_handles,
            out_handles: null_handles(self.output_count()),
            owned_inputs,
        };
        assert(forall|task: Waker| state.waits(task) == wakes(state.waker, task));
        Ok(state)
    }
}

/// A run that a task waits for gives its result once: polls before the completion are pending, the
/// completion hands over the waker of the waiting task, which waits no longer, the next poll gives
/// the result, and every later one reports that the result was consumed.
pub proof fn results_are_delivered_once<V>(
    waker: Waker,
    fresh: AsyncState<V>,
    early: RunPoll<V>,
    waiting: AsyncState<V>,
    result: Result<Vec<V>, Error>,
    done: AsyncState<V>,
    woken: Option<Waker>,
    first: RunPoll<V>,
    taken: AsyncState<V>,
    second: RunPoll<V>,
    spent: AsyncState<V>,
)
    requires
        !fresh.spec_done(),
        fresh.polled(waiting, waker, early),
        waiting.completed(done, result),
        waiting.hands_over(woken),
        done.polled(taken, waker, first),
        taken.polled(spent, waker, second),
    ensures
        early is Pending,
        waiting.waits(waker),
        woken matches Some(task) && waiting.waits(task),
        !done.waiting(),
        first == RunPoll::Ready(result),
        second == RunPoll::Ready(
            Err::<Vec<V>, Error>(Error::Fault(Fault::AsyncResultConsumed)),
        ),
        spent.spec_done() && spent.spec_result() is None,
        spent.same_handles(fresh),
{
}

} // verus!
