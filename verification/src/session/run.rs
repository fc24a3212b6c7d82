//! Plain runs: inputs in, values of the engine out.
use vstd::prelude::*;

use crate::calls::Repeats;
use crate::element::OnnxType;
use crate::error::{Count, Error, Slot};
use crate::session::session::{CachedIo, Session};
use crate::tensor::value::{collect_live, OwnedValue};

verus! {

/// The handle arrays of one run: those of the inputs, and those that the engine fills.
#[derive(Debug)]
pub struct RunArrays {
    /// The handles of the inputs.
    pub inputs: Vec<u64>,
    /// The handles of the outputs; null ones are zero.
    pub outputs: Vec<u64>,
}

impl RunArrays {
    /// The arrays before the engine has filled them.
    pub open spec fn fresh(self, inputs: Seq<u64>, outputs: nat) -> bool {
        self.inputs@ == inputs && self.outputs@ == Seq::new(outputs, |i: int| 0u64)
    }
}

/// Handles that the engine has not filled yet.
pub fn null_handles(count: usize) -> (handles: Vec<u64>)
    ensures
        handles@ == Seq::new(count as nat, |i: int| 0u64),
{
    let mut handles: Vec<u64> = Vec::new();
    let mut i: usize = 0;
    while i < count
        invariant
            i <= count,
            handles@ == Seq::new(i as nat, |k: int| 0u64),
        decreases count - i,
    {
        handles.push(0);
        i = i + 1;
        assert(handles@ =~= Seq::new(i as nat, |k: int| 0u64));
    }
    handles
}

/// Why the values of a run could not be taken, and the handles that are to be released.
#[derive(Debug)]
pub struct StampFailure {
    /// The failure.
    pub error: Error,
    /// The handles that no value owns.
    pub release: Vec<u64>,
}

/// The value that a handle becomes: its element count is the static one, or else the one that the
/// engine reports of a tensor; other kinds have none.
pub open spec fn stamped(meta: CachedIo, handle: u64, count: Result<usize, Error>) -> Result<
    OwnedValue,
    Error,
> {
    match meta.count {
        Some(count) => Ok(
            OwnedValue {
                value: handle,
                onnx_type: meta.onnx_type,
                elem_type: meta.elem_type,
                count,
            },
        ),
        None => if meta.onnx_type == OnnxType::Tensor {
            match count {
                Ok(count) => Ok(
                    OwnedValue {
                        value: handle,
                        onnx_type: meta.onnx_type,
                        elem_type: meta.elem_type,
                        count,
                    },
                ),
                Err(error) => Err(error),
            }
        } else {
            Ok(
                OwnedValue {
                    value: handle,
                    onnx_type: meta.onnx_type,
                    elem_type: meta.elem_type,
                    count: 0,
                },
            )
        },
    }
}

/// The first of `n` handles that becomes no value.
pub open spec fn stamp_fault(
    meta: Seq<CachedIo>,
    handles: Seq<u64>,
    counts: Seq<Result<usize, Error>>,
    n: int,
) -> Option<int>
    decreases n,
{
    if n <= 0 {
        None
    } else {
        match stamp_fault(meta, handles, counts, n - 1) {
            Some(i) => Some(i),
            None => if stamped(meta[n - 1], handles[n - 1], counts[n - 1]) is Err {
                Some(n - 1)
            } else {
                None
            },
        }
    }
}

proof fn lemma_stamp_fault_first(
    meta: Seq<CachedIo>,
    handles: Seq<u64>,
    counts: Seq<Result<usize, Error>>,
    n: int,
    m: int,
)
    requires
        0 <= n <= m,
        stamp_fault(meta, handles, counts, n) is Some,
    ensures
        stamp_fault(meta, handles, counts, m) == stamp_fault(meta, handles, counts, n),
    decreases m - n,
{
    if n < m {
        lemma_stamp_fault_first(meta, handles, counts, n, m - 1);
    }
}

/// The slots after the first `n` handles have become values.
pub open spec fn stamped_slots(
    meta: Seq<CachedIo>,
    handles: Seq<u64>,
    counts: Seq<Result<usize, Error>>,
    before: Seq<Option<OwnedValue>>,
    after: Seq<Option<OwnedValue>>,
    n: int,
) -> bool {
    &&& after.len() == before.len()
    &&& forall|k: int|
        0 <= k < n ==> #[trigger] after[k] == Some(
            stamped(meta[k], handles[k], counts[k])->Ok_0,
        )
    &&& forall|k: int| n <= k < after.len() ==> #[trigger] after[k] == before[k]
}

/// Take over the handles that a run filled. The first that becomes no value ends it: the handles
/// from there on are to be released, and the values before stay.
pub fn stamp_handles(
    meta: &Vec<CachedIo>,
    handles: &Vec<u64>,
    counts: Vec<Result<usize, Error>>,
    outputs: &mut Vec<Option<OwnedValue>>,
) -> (result: Result<(), StampFailure>)
    requires
        handles@.len() == meta@.len(),
        counts@.len() == meta@.len(),
        old(outputs)@.len() == meta@.len(),
    ensures
        match stamp_fault(meta@, handles@, counts@, meta@.len() as int) {
            None => {
                &&& result is Ok
                &&& stamped_slots(
                    meta@,
                    handles@,
                    counts@,
                    old(outputs)@,
                    final(outputs)@,
                    meta@.len() as int,
                )
            },
            Some(at) => {
                &&& result matches Err(failure)
                &&& stamped(meta@[at], handles@[at], counts@[at]) == Err::<OwnedValue, Error>(
                    failure.error,
                )
                &&& failure.release@ == crate::tensor::value::live_handles(handles@, at)
                &&& stamped_slots(meta@, handles@, counts@, old(outputs)@, final(outputs)@, at)
            },
        },
{
    let ghost before = outputs@;
    let ghost all = counts@;
    let mut replies = counts;
    let mut i: usize = 0;
    while i < handles.len()
        invariant
            i <= handles@.len(),
            handles@.len() == meta@.len(),
            replies@ == all,
            all == counts@,
            all.len() == meta@.len(),
            before.len() == meta@.len(),
            before == old(outputs)@,
            stamp_fault(meta@, handles@, all, i as int) is None,
            stamped_slots(meta@, handles@, all, before, outputs@, i as int),
        decreases handles@.len() - i,
    {
        let known: Option<usize> = match meta[i].count {
            Some(count) => Some(count),
            None => if meta[i].onnx_type == OnnxType::Tensor {
                match &replies[i] {
                    Ok(count) => Some(*count),
                    Err(_) => None,
                }
            } else {
                Some(0)
            },
        };
        match known {
            Some(count) => {
                let ghost earlier = outputs@;
                outputs[i] = Some(
                    OwnedValue {
                        value: handles[i],
                        onnx_type: meta[i].onnx_type,
                        elem_type: meta[i].elem_type,
                        count,
                    },
                );
                assert(outputs@ == earlier.update(i as int, outputs@[i as int]));
            },
            None => {
                let reply = replies.remove(i);
                proof {
                    lemma_stamp_fault_first(meta@, handles@, all, i + 1, meta@.len() as int);
                }
                let release = collect_live(handles, i);
                match reply {
                    Err(error) => {
                        return Err(StampFailure { error, release });
                    },
                    Ok(_) => {},
                }
            },
        }
        i = i + 1;
    }
    Ok(())
}

impl Session {
    /// Take over the handles that a run filled.
    pub fn stamp_outputs(
        &self,
        handles: &Vec<u64>,
        counts: Vec<Result<usize, Error>>,
        outputs: &mut Vec<Option<OwnedValue>>,
    ) -> (result: Result<(), StampFailure>)
        requires
            self.wf(),
            handles@.len() == self.outputs().len(),
            counts@.len() == self.outputs().len(),
            old(outputs)@.len() == self.outputs().len(),
        ensures
            self.is_stamped(result, handles@, counts@, old(outputs)@, final(outputs)@),
    {
        stamp_handles(self.output_metas(), handles, counts, outputs)
    }

    /// `result` and the slots `after` are what comes of taking over the handles that a run filled.
    pub open spec fn is_stamped(
        self,
        result: Result<(), StampFailure>,
        handles: Seq<u64>,
        counts: Seq<Result<usize, Error>>,
        before: Seq<Option<OwnedValue>>,
        after: Seq<Option<OwnedValue>>,
    ) -> bool {
        let meta = self.output_types();
        match stamp_fault(meta, handles, counts, meta.len() as int) {
            None => {
                &&& result is Ok
                &&& stamped_slots(meta, handles, counts, before, after, meta.len() as int)
            },
            Some(at) => {
                &&& result matches Err(failure)
                &&& stamped(meta[at], handles[at], counts[at]) == Err::<OwnedValue, Error>(
                    failure.error,
                )
                &&& failure.release@ == crate::tensor::value::live_handles(handles, at)
                &&& stamped_slots(meta, handles, counts, before, after, at)
            },
        }
    }

    /// Why a run cannot be made: its options come from another environment, or it has too few or
    /// too many inputs or output slots.
    pub open spec fn run_fault(
        self,
        inputs: nat,
        slots: nat,
        stream_environment: Option<u64>,
    ) -> Option<Error> {
        if stream_environment matches Some(environment) && environment != self.spec_environment() {
            Some(Error::Fault(crate::error::Fault::RunOptionsEnvironmentMismatch))
        } else if inputs != self.inputs().len() {
            Some(
                Error::CountMismatch {
                    what: Count::Input,
                    expected: self.inputs().len() as usize,
                    got: inputs as usize,
                },
            )
        } else if slots != self.outputs().len() {
            Some(
                Error::CountMismatch {
                    what: Count::OutputSlot,
                    expected: self.outputs().len() as usize,
                    got: slots as usize,
                },
            )
        } else {
            None
        }
    }

    /// `arrays` is the outcome of preparing a run.
    pub open spec fn run_outcome(
        self,
        arrays: Result<RunArrays, Error>,
        inputs: Seq<u64>,
        slots: nat,
        stream_environment: Option<u64>,
    ) -> bool {
        match self.run_fault(inputs.len(), slots, stream_environment) {
            Some(error) => arrays == Err::<RunArrays, Error>(error),
            None => arrays matches Ok(arrays) && arrays.fresh(inputs, slots),
        }
    }

    /// The handle arrays of a run with the session's own run options.
    pub fn run(&self, inputs: Vec<u64>, slots: usize) -> (arrays: Result<RunArrays, Error>)
        ensures
            self.run_outcome(arrays, inputs@, slots as nat, None),
    {
        self.run_with(inputs, slots, None)
    }

    /// The handle arrays of a run with run options, which may be tied to a stream of some
    /// environment.
    pub fn run_with(
        &self,
        inputs: Vec<u64>,
        slots: usize,
        stream_environment: Option<u64>,
    ) -> (arrays: Result<RunArrays, Error>)
        ensures
            self.run_outcome(arrays, inputs@, slots as nat, stream_environment),
    {
        if let Err(error) = self.check_run_options(stream_environment) {
            return Err(error);
        }
        if let Err(error) = self.check_input_count(inputs.len()) {
            return Err(error);
        }
        if let Err(error) = self.check_output_count(slots, Count::OutputSlot) {
            return Err(error);
        }
        Ok(RunArrays { inputs, outputs: null_handles(slots) })
    }

    /// The handle arrays of a run with a fixed number of inputs and output slots.
    pub fn run_array<const INPUTS: usize, const OUTPUTS: usize>(&self, inputs: [u64; INPUTS]) -> (arrays:
        Result<RunArrays, Error>)
        ensures
            self.run_outcome(arrays, inputs@, OUTPUTS as nat, None),
    {
        self.run_array_with::<INPUTS, OUTPUTS>(inputs, None)
    }

    /// The handle arrays of a run with a fixed number of inputs and output slots, and with run
    /// options.
    pub fn run_array_with<const INPUTS: usize, const OUTPUTS: usize>(
        &self,
        inputs: [u64; INPUTS],
        stream_environment: Option<u64>,
    ) -> (arrays: Result<RunArrays, Error>)
        ensures
            self.run_outcome(arrays, inputs@, OUTPUTS as nat, stream_environment),
    {
        let mut handles: Vec<u64> = Vec::new();
        let mut i: usize = 0;
        while i < INPUTS
            invariant
                i <= INPUTS,
                inputs@.len() == INPUTS,
                handles@ == inputs@.take(i as int),
            decreases INPUTS - i,
        {
            handles.push(inputs[i]);
            i = i + 1;
            assert(handles@ =~= inputs@.take(i as int));
        }
        assert(inputs@.take(INPUTS as int) =~= inputs@);
        self.run_with(handles, OUTPUTS, stream_environment)
    }

    /// Prepare repeated runs with the same inputs.
    pub fn prepare_run(&self, inputs: Vec<u64>) -> (prepared: Result<PreparedRun, Error>)
        ensures
            if inputs@.len() == self.inputs().len() {
                prepared matches Ok(run) && run.spec_session() == self.spec_handle()
                    && run.spec_inputs() == inputs@ && run.cleared(self.outputs().len())
            } else {
                prepared == Err::<PreparedRun, Error>(
                    Error::CountMismatch {
                        what: Count::Input,
                        expected: self.inputs().len() as usize,
                        got: inputs@.len() as usize,
                    },
                )
            },
    {
        if let Err(error) = self.check_input_count(inputs.len()) {
            return Err(error);
        }
        let count: usize = self.output_count();
        let outputs = empty_slots(count);
        Ok(
            PreparedRun {
                session: self.handle(),
                inputs,
                handles: null_handles(count),
                outputs,
            },
        )
    }
}

fn empty_slots(count: usize) -> (slots: Vec<Option<OwnedValue>>)
    ensures
        slots@ == Seq::new(count as nat, |i: int| None::<OwnedValue>),
{
    let mut slots: Vec<Option<OwnedValue>> = Vec::new();
    let mut i: usize = 0;
    while i < count
        invariant
            i <= count,
            slots@ == Seq::new(i as nat, |k: int| None::<OwnedValue>),
        decreases count - i,
    {
        slots.push(None);
        i = i + 1;
        assert(slots@ =~= Seq::new(i as nat, |k: int| None::<OwnedValue>));
    }
    slots
}

/// Repeated runs with the same inputs. The handle arrays and the slots are kept.
#[derive(Debug)]
pub struct PreparedRun {
    session: u64,
    inputs: Vec<u64>,
    handles: Vec<u64>,
    outputs: Vec<Option<OwnedValue>>,
}

impl PreparedRun {
    /// The session that it was made for.
    pub closed spec fn spec_session(self) -> u64 {
        self.session
    }

    /// The handles of the inputs.
    pub closed spec fn spec_inputs(self) -> Seq<u64> {
        self.inputs@
    }

    /// The handles that the engine fills.
    pub closed spec fn spec_handles(self) -> Seq<u64> {
        self.handles@
    }

    /// The values of the last run.
    pub closed spec fn slots(self) -> Seq<Option<OwnedValue>> {
        self.outputs@
    }

    /// There are `count` handles and slots, all empty.
    pub open spec fn cleared(self, count: nat) -> bool {
        &&& self.spec_handles() == Seq::new(count, |i: int| 0u64)
        &&& self.slots() == Seq::new(count, |i: int| None::<OwnedValue>)
    }

    /// Drop the values of the last run, so that the engine can use their memory, before the next.
    pub fn run(&mut self)
        ensures
            final(self).spec_session() == old(self).spec_session(),
            final(self).spec_inputs() == old(self).spec_inputs(),
            final(self).cleared(old(self).slots().len()),
    {
        let count: usize = self.outputs.len();
        self.outputs = empty_slots(count);
        self.handles = null_handles(count);
    }

    /// Take the values of a run: `filled` are the handles that the engine filled.
    pub fn finish_run(
        &mut self,
        session: &Session,
        filled: Result<Vec<u64>, Error>,
        counts: Vec<Result<usize, Error>>,
    ) -> (result: Result<(), StampFailure>)
        requires
            session.wf(),
            old(self).slots().len() == session.outputs().len(),
            filled matches Ok(handles) ==> handles@.len() == session.outputs().len(),
            counts@.len() == session.outputs().len(),
        ensures
            final(self).spec_session() == old(self).spec_session(),
            final(self).spec_inputs() == old(self).spec_inputs(),
            match filled {
                Err(error) => {
                    &&& result matches Err(failure)
                    &&& failure.error == error
                    &&& failure.release@ == Seq::<u64>::empty()
                    &&& *final(self) == *old(self)
                },
                Ok(handles) => {
                    &&& final(self).spec_handles() == handles@
                    &&& session.is_stamped(
                        result,
                        handles@,
                        counts@,
                        old(self).slots(),
                        final(self).slots(),
                    )
                },
            },
    {
        match filled {
            Err(error) => Err(StampFailure { error, release: Vec::new() }),
            Ok(handles) => {
                self.handles = handles;
                session.stamp_outputs(&self.handles, counts, &mut self.outputs)
            },
        }
    }

    /// Runs before serving.
    pub fn prime(&mut self, runs: usize) -> (repeats: Repeats)
        ensures
            repeats.spec_left() == runs,
            *final(self) == *old(self),
    {
        Repeats::new(runs)
    }

    /// The values of the last run.
    pub fn outputs(&self) -> (outputs: &[Option<OwnedValue>])
        ensures
            outputs@ == self.slots(),
    {
        self.outputs.as_slice()
    }

    /// One value of the last run.
    pub fn output(&self, i: usize) -> (output: Result<Option<&OwnedValue>, Error>)
        ensures
            if i < self.slots().len() {
                match self.slots()[i as int] {
                    Some(value) => output == Ok::<Option<&OwnedValue>, Error>(Some(&value)),
                    None => output == Ok::<Option<&OwnedValue>, Error>(None),
                }
            } else {
                output == Err::<Option<&OwnedValue>, Error>(
                    Error::IndexOutOfRange { what: Slot::Output, index: i },
                )
            },
    {
        if i >= self.outputs.len() {
            return Err(Error::IndexOutOfRange { what: Slot::Output, index: i });
        }
        match &self.outputs[i] {
            Some(value) => Ok(Some(value)),
            None => Ok(None),
        }
    }
}

/// Every handle that a run filled ends up in one place: in a value, or among those that are to be
/// released.
pub proof fn handles_are_owned(
    session: Session,
    result: Result<(), StampFailure>,
    handles: Seq<u64>,
    counts: Seq<Result<usize, Error>>,
    before: Seq<Option<OwnedValue>>,
    after: Seq<Option<OwnedValue>>,
    i: int,
)
    requires
        session.wf(),
        handles.len() == session.outputs().len(),
        counts.len() == handles.len(),
        before.len() == handles.len(),
        session.is_stamped(result, handles, counts, before, after),
        0 <= i < handles.len(),
        handles[i] != 0,
    ensures
        match result {
            Ok(()) => after[i] matches Some(value) && value.value == handles[i],
            Err(failure) => (after[i] matches Some(value) && value.value == handles[i])
                || failure.release@.contains(handles[i]),
        },
{
    let meta = session.output_types();
    match stamp_fault(meta, handles, counts, meta.len() as int) {
        None => {
            lemma_none_failed(meta, handles, counts, meta.len() as int, i);
        },
        Some(at) => {
            lemma_fault_at(meta, handles, counts, meta.len() as int);
            if i < at {
                lemma_none_failed(meta, handles, counts, at, i);
            } else {
                lemma_live(handles, at, i);
            }
        },
    }
}

/// A run whose handles were all taken over gives, for every output, the handle that the engine filled as
/// a value of the kind and the element type that the session reports for that output. Its count is the
/// static one where there is one, the engine's where the output is another tensor, and zero elsewhere.
pub proof fn outputs_have_the_types_of_the_session(
    session: Session,
    handles: Seq<u64>,
    counts: Seq<Result<usize, Error>>,
    before: Seq<Option<OwnedValue>>,
    after: Seq<Option<OwnedValue>>,
    i: int,
)
    requires
        session.wf(),
        handles.len() == session.outputs().len(),
        counts.len() == handles.len(),
        before.len() == handles.len(),
        session.is_stamped(Ok(()), handles, counts, before, after),
        0 <= i < handles.len(),
    ensures
        after.len() == handles.len(),
        after[i] is Some,
        ({
            let value = after[i]->Some_0;
            let reported = session.output_types()[i];
            &&& value.value == handles[i]
            &&& value.onnx_type == reported.onnx_type
            &&& value.elem_type == reported.elem_type
            &&& match reported.count {
                Some(count) => value.count == count,
                None => if reported.onnx_type is Tensor {
                    counts[i] == Ok::<usize, Error>(value.count)
                } else {
                    value.count == 0
                },
            }
        }),
{
    let meta = session.output_types();
    assert(stamp_fault(meta, handles, counts, meta.len() as int) is None);
    lemma_none_failed(meta, handles, counts, meta.len() as int, i);
}

/// A run is refused its values exactly where the engine cannot count the elements of a tensor without a
/// static count. The error is that of the first such output. The outputs before it keep their values,
/// the slots from it on are as they were, and the handles from it on are handed back.
pub proof fn refused_counts_keep_the_outputs_before(
    session: Session,
    result: Result<(), StampFailure>,
    handles: Seq<u64>,
    counts: Seq<Result<usize, Error>>,
    before: Seq<Option<OwnedValue>>,
    after: Seq<Option<OwnedValue>>,
)
    requires
        session.wf(),
        handles.len() == session.outputs().len(),
        counts.len() == handles.len(),
        before.len() == handles.len(),
        session.is_stamped(result, handles, counts, before, after),
    ensures
        result is Err <==> exists|k: int|
            0 <= k < handles.len() && #[trigger] session.output_types()[k].count is None
                && session.output_types()[k].onnx_type is Tensor && counts[k] is Err,
        result matches Err(failure) ==> exists|at: int|
            {
                &&& 0 <= at < handles.len()
                &&& #[trigger] counts[at] == Err::<usize, Error>(failure.error)
                &&& session.output_types()[at].count is None
                &&& session.output_types()[at].onnx_type is Tensor
                &&& forall|k: int|
                    0 <= k < at ==> (#[trigger] after[k] matches Some(value) && value.value
                        == handles[k] && value.onnx_type == session.output_types()[k].onnx_type
                        && value.elem_type == session.output_types()[k].elem_type)
                &&& forall|k: int| at <= k < handles.len() ==> #[trigger] after[k] == before[k]
                &&& forall|k: int|
                    at <= k < handles.len() && handles[k] != 0 ==> failure.release@.contains(
                        #[trigger] handles[k],
                    )
            },
{
    let meta = session.output_types();
    match stamp_fault(meta, handles, counts, meta.len() as int) {
        None => {
            assert forall|k: int| 0 <= k < handles.len() implies !(
            #[trigger] meta[k].count is None && meta[k].onnx_type is Tensor && counts[k] is Err) by {
                lemma_none_failed(meta, handles, counts, meta.len() as int, k);
            }
        },
        Some(at) => {
            lemma_fault_at(meta, handles, counts, meta.len() as int);
            lemma_fault_fails(meta, handles, counts, meta.len() as int);
            assert(meta[at].count is None);
            assert forall|k: int| 0 <= k < at implies stamped(
                meta[k],
                #[trigger] handles[k],
                counts[k],
            ) is Ok by {
                lemma_none_failed(meta, handles, counts, at, k);
            }
            assert forall|k: int| 0 <= k < at implies (#[trigger] after[k] matches Some(value)
                && value.value == handles[k] && value.onnx_type == meta[k].onnx_type
                && value.elem_type == meta[k].elem_type) by {
                assert(stamped(meta[k], handles[k], counts[k]) is Ok);
            }
            assert forall|k: int| at <= k < handles.len() && handles[k] != 0 implies result->Err_0.release@.contains(
                #[trigger] handles[k],
            ) by {
                lemma_live(handles, at, k);
            }
            assert(counts[at] is Err);
        },
    }
}

/// The handles that are handed back are those that the engine filled, each as often as it filled it:
/// no other handle, and no null one.
pub proof fn only_filled_handles_are_released(handles: Seq<u64>, start: int, handle: u64)
    requires
        0 <= start <= handles.len(),
    ensures
        crate::tensor::value::live_handles(handles, start).to_multiset().count(handle) == (
        if handle == 0 {
            0
        } else {
            handles.skip(start).to_multiset().count(handle)
        }),
    decreases handles.len() - start,
{
    broadcast use vstd::seq_lib::group_to_multiset_ensures;

    let live = crate::tensor::value::live_handles(handles, start);
    if start < handles.len() {
        only_filled_handles_are_released(handles, start + 1, handle);
        let rest = crate::tensor::value::live_handles(handles, start + 1);
        let left = handles.skip(start);
        assert(left =~= seq![handles[start]] + handles.skip(start + 1));
        vstd::seq_lib::lemma_multiset_commutative(seq![handles[start]], handles.skip(start + 1));
        assert(seq![handles[start]] =~= Seq::<u64>::empty().push(handles[start]));
        if handles[start] != 0 {
            assert(live =~= seq![handles[start]] + rest);
            vstd::seq_lib::lemma_multiset_commutative(seq![handles[start]], rest);
        } else {
            assert(live =~= rest);
        }
    } else {
        assert(live =~= Seq::empty());
        assert(handles.skip(start) =~= Seq::empty());
    }
}

proof fn lemma_fault_fails(
    meta: Seq<CachedIo>,
    handles: Seq<u64>,
    counts: Seq<Result<usize, Error>>,
    n: int,
)
    requires
        stamp_fault(meta, handles, counts, n) is Some,
    ensures
        ({
            let at = stamp_fault(meta, handles, counts, n)->Some_0;
            stamped(meta[at], handles[at], counts[at]) is Err
        }),
    decreases n,
{
    if n > 0 && stamp_fault(meta, handles, counts, n - 1) is Some {
        lemma_fault_fails(meta, handles, counts, n - 1);
    }
}

proof fn lemma_none_failed(
    meta: Seq<CachedIo>,
    handles: Seq<u64>,
    counts: Seq<Result<usize, Error>>,
    n: int,
    i: int,
)
    requires
        stamp_fault(meta, handles, counts, n) is None,
        0 <= i < n,
    ensures
        stamped(meta[i], handles[i], counts[i]) is Ok,
    decreases n,
{
    if i < n - 1 {
        lemma_none_failed(meta, handles, counts, n - 1, i);
    }
}

proof fn lemma_fault_at(
    meta: Seq<CachedIo>,
    handles: Seq<u64>,
    counts: Seq<Result<usize, Error>>,
    n: int,
)
    requires
        stamp_fault(meta, handles, counts, n) is Some,
    ensures
        0 <= stamp_fault(meta, handles, counts, n)->Some_0 < n,
        stamp_fault(meta, handles, counts, stamp_fault(meta, handles, counts, n)->Some_0) is None,
    decreases n,
{
    if n > 0 && stamp_fault(meta, handles, counts, n - 1) is Some {
        lemma_fault_at(meta, handles, counts, n - 1);
    }
}

proof fn lemma_live(handles: Seq<u64>, start: int, i: int)
    requires
        0 <= start <= i < handles.len(),
        handles[i] != 0,
    ensures
        crate::tensor::value::live_handles(handles, start).contains(handles[i]),
    decreases handles.len() - start,
{
    let live = crate::tensor::value::live_handles(handles, start);
    if start == i {
        assert(live[0] == handles[i]);
    } else {
        lemma_live(handles, start + 1, i);
        let rest = crate::tensor::value::live_handles(handles, start + 1);
        let k = rest.index_of(handles[i]);
        assert(rest[k] == handles[i]);
        if handles[start] != 0 {
            assert(live[k + 1] == handles[i]);
        } else {
            assert(live[k] == handles[i]);
        }
    }
}

} // verus!
