//! The lanes that are prepared for one concrete shape.
use vstd::prelude::*;

use crate::element::TensorElement;
use crate::error::{Error, Slot};
use crate::runtime::audit::LaneHotPathAudit;
use crate::runtime::lane::ServingLane;
use crate::runtime::options::ShapeKey;
use crate::runtime::owned_run::PreparedBucketId;
use crate::runtime::static_io::{assert_lanes_zero_copy, audit_lanes, LaneAddresses};

verus! {

/// Lanes for one concrete shape, some of which may be detached into pending runs.
#[derive(Debug)]
pub struct ShapeBucket<I: TensorElement, O: TensorElement, const INPUTS: usize, const OUTPUTS: usize> {
    key: ShapeKey<INPUTS, OUTPUTS>,
    id: PreparedBucketId,
    lanes: Vec<ServingLane<I, O, INPUTS, OUTPUTS>>,
    last_used: u64,
    detached_lanes: usize,
    graph_id: Option<i32>,
}

/// What a bucket holds.
pub struct BucketView<I: TensorElement, O: TensorElement, const INPUTS: usize, const OUTPUTS: usize> {
    pub key: ShapeKey<INPUTS, OUTPUTS>,
    pub id: PreparedBucketId,
    pub lanes: Seq<ServingLane<I, O, INPUTS, OUTPUTS>>,
    pub last_used: u64,
    pub detached: usize,
    pub graph_id: Option<i32>,
}

impl<I: TensorElement, O: TensorElement, const INPUTS: usize, const OUTPUTS: usize> View for ShapeBucket<
    I,
    O,
    INPUTS,
    OUTPUTS,
> {
    type V = BucketView<I, O, INPUTS, OUTPUTS>;

    closed spec fn view(&self) -> BucketView<I, O, INPUTS, OUTPUTS> {
        BucketView {
            key: self.key,
            id: self.id,
            lanes: self.lanes@,
            last_used: self.last_used,
            detached: self.detached_lanes,
            graph_id: self.graph_id,
        }
    }
}

/// How many of the first `n` lanes may still have provider work pending.
pub open spec fn in_flight_count<
    I: TensorElement,
    O: TensorElement,
    const INPUTS: usize,
    const OUTPUTS: usize,
>(lanes: Seq<ServingLane<I, O, INPUTS, OUTPUTS>>, n: int) -> nat
    decreases n,
{
    if n <= 0 {
        0
    } else {
        in_flight_count(lanes, n - 1) + (if lanes[n - 1].in_flight() {
            1nat
        } else {
            0nat
        })
    }
}

proof fn lemma_in_flight_count<
    I: TensorElement,
    O: TensorElement,
    const INPUTS: usize,
    const OUTPUTS: usize,
>(lanes: Seq<ServingLane<I, O, INPUTS, OUTPUTS>>, n: int)
    requires
        0 <= n <= lanes.len(),
    ensures
        in_flight_count(lanes, n) <= n,
        (in_flight_count(lanes, n) > 0) == (exists|i: int|
            0 <= i < n && (#[trigger] lanes[i]).in_flight()),
    decreases n,
{
    if n > 0 {
        lemma_in_flight_count(lanes, n - 1);
        if in_flight_count(lanes, n) > 0 {
            if lanes[n - 1].in_flight() {
                assert(0 <= n - 1 < n && lanes[n - 1].in_flight());
            } else {
                let i = choose|i: int| 0 <= i < n - 1 && (#[trigger] lanes[i]).in_flight();
                assert(0 <= i < n && lanes[i].in_flight());
            }
        }
        if exists|i: int| 0 <= i < n && (#[trigger] lanes[i]).in_flight() {
            let i = choose|i: int| 0 <= i < n && (#[trigger] lanes[i]).in_flight();
            if i < n - 1 {
                assert(0 <= i < n - 1 && lanes[i].in_flight());
            }
        }
    }
}

impl<I: TensorElement, O: TensorElement, const INPUTS: usize, const OUTPUTS: usize> BucketView<
    I,
    O,
    INPUTS,
    OUTPUTS,
> {
    /// The key has its shapes, and every lane is sound and has no operation under way.
    pub open spec fn wf(self) -> bool {
        &&& self.key.wf()
        &&& forall|k: int|
            0 <= k < self.lanes.len() ==> (#[trigger] self.lanes[k]).wf()
                && self.lanes[k].at_rest()
    }

    /// Some lane that is not detached may still have provider work pending.
    pub open spec fn any_in_flight(self) -> bool {
        exists|k: int| 0 <= k < self.lanes.len() && (#[trigger] self.lanes[k]).in_flight()
    }

    /// The bucket after one lane was detached.
    pub open spec fn detach(self) -> Self {
        BucketView {
            lanes: self.lanes.drop_last(),
            detached: (self.detached + 1) as usize,
            ..self
        }
    }

    /// The bucket after a detached lane came back.
    pub open spec fn attach(self, lane: ServingLane<I, O, INPUTS, OUTPUTS>) -> Self {
        BucketView {
            lanes: self.lanes.push(lane),
            detached: (self.detached - 1) as usize,
            ..self
        }
    }

    /// The bucket after an access.
    pub open spec fn touch(self, tick: u64) -> Self {
        BucketView { last_used: tick, ..self }
    }
}

impl<I: TensorElement, O: TensorElement, const INPUTS: usize, const OUTPUTS: usize> ShapeBucket<
    I,
    O,
    INPUTS,
    OUTPUTS,
> {
    /// A bucket with all its lanes.
    pub(crate) fn new(
        key: ShapeKey<INPUTS, OUTPUTS>,
        id: PreparedBucketId,
        lanes: Vec<ServingLane<I, O, INPUTS, OUTPUTS>>,
        last_used: u64,
        graph_id: Option<i32>,
    ) -> (bucket: Self)
        ensures
            bucket@ == (BucketView { key, id, lanes: lanes@, last_used, detached: 0, graph_id }),
    {
        ShapeBucket { key, id, lanes, last_used, detached_lanes: 0, graph_id }
    }

    /// Note an access.
    pub(crate) fn touch(&mut self, tick: u64)
        ensures
            final(self)@ == old(self)@.touch(tick),
    {
        self.last_used = tick;
    }

    /// Detach one lane, if one is left.
    pub(crate) fn detach(&mut self) -> (lane: Option<ServingLane<I, O, INPUTS, OUTPUTS>>)
        requires
            old(self)@.detached < usize::MAX,
        ensures
            if old(self)@.lanes.len() == 0 {
                lane is None && final(self)@ == old(self)@
            } else {
                lane == Some(old(self)@.lanes.last()) && final(self)@ == old(self)@.detach()
            },
    {
        match self.lanes.pop() {
            None => None,
            Some(lane) => {
                self.detached_lanes = self.detached_lanes + 1;
                Some(lane)
            },
        }
    }

    /// Take a detached lane back.
    pub(crate) fn attach(&mut self, lane: ServingLane<I, O, INPUTS, OUTPUTS>)
        requires
            old(self)@.detached > 0,
        ensures
            final(self)@ == old(self)@.attach(lane),
    {
        self.detached_lanes = self.detached_lanes - 1;
        self.lanes.push(lane);
    }

    /// How many lanes that are not detached may still have provider work pending.
    pub(crate) fn in_flight(&self) -> (count: usize)
        ensures
            count == in_flight_count(self@.lanes, self@.lanes.len() as int),
            (count > 0) == self@.any_in_flight(),
    {
        let mut count: usize = 0;
        let mut k: usize = 0;
        while k < self.lanes.len()
            invariant
                k <= self.lanes@.len(),
                count == in_flight_count(self.lanes@, k as int),
            decreases self.lanes@.len() - k,
        {
            proof {
                lemma_in_flight_count(self.lanes@, k as int);
            }
            if self.lanes[k].is_in_flight() {
                count = count + 1;
            }
            k = k + 1;
        }
        proof {
            lemma_in_flight_count(self.lanes@, self.lanes@.len() as int);
            let lanes = self@.lanes;
            if self@.any_in_flight() {
                let k = choose|k: int| 0 <= k < lanes.len() && (#[trigger] lanes[k]).in_flight();
                assert(self.lanes@[k].in_flight());
            }
        }
        count
    }

    /// The concrete shapes.
    pub fn key(&self) -> (key: &ShapeKey<INPUTS, OUTPUTS>)
        ensures
            *key == self@.key,
    {
        &self.key
    }

    /// The bucket's handle.
    pub fn id(&self) -> (id: PreparedBucketId)
        ensures
            id == self@.id,
    {
        self.id
    }

    /// The number of detached lanes.
    pub fn detached_lane_count(&self) -> (count: usize)
        ensures
            count == self@.detached,
    {
        self.detached_lanes
    }

    /// When the bucket was last accessed, by the runtime's own count.
    pub fn last_used(&self) -> (tick: u64)
        ensures
            tick == self@.last_used,
    {
        self.last_used
    }

    /// The captured-graph annotation of the bucket's lanes.
    pub fn graph_id(&self) -> (id: Option<i32>)
        ensures
            id == self@.graph_id,
    {
        self.graph_id
    }

    /// The lanes that are not detached.
    pub fn lanes(&self) -> (lanes: &[ServingLane<I, O, INPUTS, OUTPUTS>])
        ensures
            lanes@ == self@.lanes,
    {
        self.lanes.as_slice()
    }

    /// The lanes that are not detached, to be run.
    pub fn lanes_mut(&mut self) -> (lanes: &mut [ServingLane<I, O, INPUTS, OUTPUTS>])
        ensures
            lanes@ == old(self)@.lanes,
            final(self)@ == (BucketView { lanes: final(lanes)@, ..old(self)@ }),
    {
        self.lanes.as_mut_slice()
    }

    /// One lane that is not detached.
    pub fn lane(&self, i: usize) -> (lane: Result<&ServingLane<I, O, INPUTS, OUTPUTS>, Error>)
        ensures
            lane == (if i < self@.lanes.len() {
                Ok::<&ServingLane<I, O, INPUTS, OUTPUTS>, Error>(&self@.lanes[i as int])
            } else {
                Err(Error::IndexOutOfRange { what: Slot::ServingLane, index: i })
            }),
    {
        if i < self.lanes.len() {
            Ok(&self.lanes[i])
        } else {
            Err(Error::IndexOutOfRange { what: Slot::ServingLane, index: i })
        }
    }

    /// One lane that is not detached, to be run.
    pub fn lane_mut(&mut self, i: usize) -> (lane: Result<
        &mut ServingLane<I, O, INPUTS, OUTPUTS>,
        Error,
    >)
        ensures
            if i < old(self)@.lanes.len() {
                &&& lane is Ok
                &&& *(lane->Ok_0) == old(self)@.lanes[i as int]
                &&& final(self)@ == (BucketView {
                    lanes: old(self)@.lanes.update(i as int, *final(lane->Ok_0)),
                    ..old(self)@
                })
            } else {
                &&& lane is Err
                &&& lane->Err_0 == (Error::IndexOutOfRange { what: Slot::ServingLane, index: i })
                &&& *final(self) == *old(self)
            },
    {
        if i < self.lanes.len() {
            Ok(&mut self.lanes[i])
        } else {
            Err(Error::IndexOutOfRange { what: Slot::ServingLane, index: i })
        }
    }

    /// Snapshots of all lanes that are not detached, or the first failure.
    pub fn audit_hot_path(&self, addresses: &[LaneAddresses]) -> (result: Result<
        Vec<LaneHotPathAudit>,
        Error,
    >)
        requires
            self@.wf(),
            addresses@.len() == self@.lanes.len(),
            forall|k: int|
                0 <= k < addresses@.len() ==> (#[trigger] addresses@[k]).inputs@.len() == INPUTS
                    && addresses@[k].outputs@.len() == OUTPUTS,
        ensures
            crate::runtime::static_io::audits_of(result, self@.lanes, addresses@),
    {
        audit_lanes(&self.lanes, addresses)
    }

    /// Check that the engine reads and writes every lane's own host memory.
    pub fn assert_zero_copy_plan(&self, addresses: &[LaneAddresses]) -> (result: Result<(), Error>)
        requires
            self@.wf(),
            addresses@.len() == self@.lanes.len(),
            forall|k: int|
                0 <= k < addresses@.len() ==> (#[trigger] addresses@[k]).inputs@.len() == INPUTS
                    && addresses@[k].outputs@.len() == OUTPUTS,
        ensures
            match crate::runtime::static_io::set_zero_copy_fault(
                self@.lanes,
                addresses@,
                self@.lanes.len() as int,
            ) {
                Some(error) => result == Err::<(), Error>(error),
                None => result is Ok,
            },
    {
        assert_lanes_zero_copy(&self.lanes, addresses)
    }
}

/// Taking a lane back undoes detaching it.
pub proof fn attach_undoes_detach<
    I: TensorElement,
    O: TensorElement,
    const INPUTS: usize,
    const OUTPUTS: usize,
>(bucket: BucketView<I, O, INPUTS, OUTPUTS>)
    requires
        bucket.lanes.len() > 0,
        bucket.detached < usize::MAX,
    ensures
        bucket.detach().attach(bucket.lanes.last()) == bucket,
{
    assert(bucket.lanes.drop_last().push(bucket.lanes.last()) =~= bucket.lanes);
}

/// Detaching a lane and taking one back keep the number of lanes, detached ones included.
pub proof fn lanes_are_accounted_for<
    I: TensorElement,
    O: TensorElement,
    const INPUTS: usize,
    const OUTPUTS: usize,
>(bucket: BucketView<I, O, INPUTS, OUTPUTS>, lane: ServingLane<I, O, INPUTS, OUTPUTS>)
    ensures
        bucket.lanes.len() > 0 && bucket.detached < usize::MAX ==> bucket.detach().lanes.len()
            + bucket.detach().detached == bucket.lanes.len() + bucket.detached,
        bucket.detached > 0 ==> bucket.attach(lane).lanes.len() + bucket.attach(lane).detached
            == bucket.lanes.len() + bucket.detached,
{
}

} // verus!
