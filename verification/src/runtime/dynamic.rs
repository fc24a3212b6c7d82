//! A bounded cache of shape buckets, with lanes that are built on first use of a shape.
use vstd::prelude::*;

use crate::element::TensorElement;
use crate::error::{fail, Error, Fault};
use crate::memory::MemoryInfo;
use crate::runtime::bucket::{BucketView, ShapeBucket};
use crate::runtime::lane::{LaneRecipe, Placement, ServingLane};
use crate::runtime::options::{CudaStream, DynamicIoOptions, RuntimeMode, ShapeKey};
use crate::runtime::owned_run::{Disposal, OwnedDynamicIoRun, PreparedBucketId, RecoveredDynamicLane};
use crate::runtime::prepared::PreparedSlots;
use crate::runtime::recovery::RecoverySlots;
use crate::runtime::static_io::{LaneStreams, SetCalls, StaticIoRuntime};
use crate::session::session::Session;
use crate::shape::shapes_equal;
use crate::shape_plan::{CanonicalShape, ClassifyError, OutputPolicy, ServingShapePlan, ShapeId};
use crate::tensor::buffer::BufferSpec;

verus! {

/// The sessions of a runtime.
#[derive(Debug)]
pub enum DynamicSessions {
    /// All lanes share one.
    Shared(Session),
    /// Every lane of a bucket has its own.
    Replicated(Vec<Session>),
}

impl DynamicSessions {
    /// How the sessions are arranged.
    pub open spec fn mode(self) -> RuntimeMode {
        match self {
            DynamicSessions::Shared(_) => RuntimeMode::SharedSession,
            DynamicSessions::Replicated(_) => RuntimeMode::ReplicatedSessions,
        }
    }

    /// The sessions fit a number of lanes.
    pub open spec fn serve(self, lane_count: usize) -> bool {
        self matches DynamicSessions::Replicated(sessions) ==> sessions@.len() == lane_count
    }
}

/// What a runtime is made of for all its life but for the plan, which is installed once.
#[derive(Debug)]
pub struct RuntimeSetup {
    pub input_memory: MemoryInfo,
    pub output_memory: MemoryInfo,
    pub options: DynamicIoOptions,
    pub shape_plan: Option<ServingShapePlan>,
    pub sessions: DynamicSessions,
    pub lane_count: usize,
}

/// How a request is classified on a sealed plan.
pub open spec fn classified(plan: ServingShapePlan, inputs: Seq<Seq<i64>>) -> Result<
    ShapeId,
    ClassifyError,
> {
    choose|result: Result<ShapeId, ClassifyError>|
        crate::shape_plan::outcome(plan.shapes(), plan.policy(), inputs, result)
}

/// A plan's placement of outputs is the one that the options ask for.
pub open spec fn placement_matches(policy: OutputPolicy, device_outputs: bool) -> bool {
    match policy {
        OutputPolicy::HostBuffer => !device_outputs,
        OutputPolicy::CudaPinned => false,
        OutputPolicy::DeviceResident => device_outputs,
    }
}

impl RuntimeSetup {
    /// The options can be served, every bucket has a lane, and a plan is sealed and fits.
    pub open spec fn wf(self, inputs: usize, outputs: usize) -> bool {
        &&& self.options.fault() is None
        &&& self.options.mode_fault(self.sessions.mode(), self.lane_count) is None
        &&& self.lane_count > 0
        &&& self.sessions.serve(self.lane_count)
        &&& self.options.max_buckets * self.lane_count <= usize::MAX
        &&& self.shape_plan matches Some(plan) ==> plan.sealed() && self.plan_fault(
            plan,
            inputs,
            outputs,
            plan.shapes().len() as int,
        ) is None && plan.shapes().len() <= self.options.max_buckets
    }

    /// Why one of the first `n` shapes of a plan does not fit: the first reason.
    pub open spec fn plan_fault(
        self,
        plan: ServingShapePlan,
        inputs: usize,
        outputs: usize,
        n: int,
    ) -> Option<Error>
        decreases n,
    {
        if n <= 0 {
            None
        } else {
            match self.plan_fault(plan, inputs, outputs, n - 1) {
                Some(error) => Some(error),
                None => {
                    let shape = plan.shapes()[n - 1];
                    if shape.inputs().len() != inputs || shape.outputs().len() != outputs {
                        Some(
                            Error::PlanArity {
                                inputs,
                                outputs,
                                plan_inputs: shape.inputs().len() as usize,
                                plan_outputs: shape.outputs().len() as usize,
                            },
                        )
                    } else if !placement_matches(shape.placement(), self.options.device_outputs) {
                        Some(Error::Fault(Fault::PlanOutputPlacement))
                    } else {
                        None
                    }
                },
            }
        }
    }

    proof fn lemma_plan_fault_first(
        self,
        plan: ServingShapePlan,
        inputs: usize,
        outputs: usize,
        n: int,
        m: int,
    )
        requires
            0 <= n <= m,
            self.plan_fault(plan, inputs, outputs, n) is Some,
        ensures
            self.plan_fault(plan, inputs, outputs, m) == self.plan_fault(plan, inputs, outputs, n),
        decreases m - n,
    {
        if n < m {
            self.lemma_plan_fault_first(plan, inputs, outputs, n, m - 1);
        }
    }

    proof fn lemma_plan_fits(
        self,
        plan: ServingShapePlan,
        inputs: usize,
        outputs: usize,
        n: int,
        k: int,
    )
        requires
            0 <= k < n,
            self.plan_fault(plan, inputs, outputs, n) is None,
        ensures
            plan.shapes()[k].inputs().len() == inputs,
            plan.shapes()[k].outputs().len() == outputs,
        decreases n,
    {
        if k < n - 1 {
            self.lemma_plan_fits(plan, inputs, outputs, n - 1, k);
        }
    }

    /// Why shapes may not be served: with a plan, only its canonical shapes are; captured graphs
    /// need a plan.
    pub open spec fn planned_fault(self, inputs: Seq<Seq<i64>>, outputs: Seq<Seq<i64>>) -> Option<
        Error,
    > {
        match self.shape_plan {
            None => if self.options.cuda_graph {
                Some(Error::Fault(Fault::GraphWithoutPlan))
            } else {
                None
            },
            Some(plan) => match classified(plan, inputs) {
                Err(error) => Some(Error::ShapeRejected { error }),
                Ok(id) => {
                    let shape = plan.shapes()[id.index() as int];
                    if shape.inputs() != inputs || shape.outputs() != outputs {
                        Some(Error::Fault(Fault::RequestNotCanonical))
                    } else {
                        None
                    }
                },
            },
        }
    }
}

/// A bucket that was taken out of the cache and waits for the release of its captured graph.
#[derive(Debug)]
pub struct RetiredShapeBucket<
    I: TensorElement,
    O: TensorElement,
    const INPUTS: usize,
    const OUTPUTS: usize,
> {
    pub bucket: ShapeBucket<I, O, INPUTS, OUTPUTS>,
    pub graph_id: i32,
    pub released: bool,
}

/// A dynamic-shape runtime: at most one bucket per shape, at most so many buckets.
pub struct DynamicIoRuntime<
    I: TensorElement,
    O: TensorElement,
    const INPUTS: usize,
    const OUTPUTS: usize,
> {
    buckets: Vec<ShapeBucket<I, O, INPUTS, OUTPUTS>>,
    retired_buckets: Vec<RetiredShapeBucket<I, O, INPUTS, OUTPUTS>>,
    recovery: RecoverySlots<RecoveredDynamicLane<I, O, INPUTS, OUTPUTS>>,
    setup: RuntimeSetup,
    hot_bucket: Option<usize>,
    prepared: PreparedSlots,
    tick: u64,
    wrapped: Ghost<bool>,
}

/// What changes while a runtime serves.
pub struct RuntimeView<I: TensorElement, O: TensorElement, const INPUTS: usize, const OUTPUTS: usize> {
    /// The cached buckets.
    pub buckets: Seq<BucketView<I, O, INPUTS, OUTPUTS>>,
    /// The buckets that wait for the release of their captured graph.
    pub retired: Seq<RetiredShapeBucket<I, O, INPUTS, OUTPUTS>>,
    /// The lanes of dropped runs, with their slots.
    pub waiting: Seq<(usize, RecoveredDynamicLane<I, O, INPUTS, OUTPUTS>)>,
    /// The bucket of the last access.
    pub hot: Option<usize>,
    /// The count of accesses.
    pub tick: u64,
    /// Whether the count has started over.
    pub wrapped: bool,
}

/// What buckets hold.
pub open spec fn views<I: TensorElement, O: TensorElement, const INPUTS: usize, const OUTPUTS: usize>(
    buckets: Seq<ShapeBucket<I, O, INPUTS, OUTPUTS>>,
) -> Seq<BucketView<I, O, INPUTS, OUTPUTS>> {
    Seq::new(buckets.len(), |i: int| buckets[i]@)
}

impl<I: TensorElement, O: TensorElement, const INPUTS: usize, const OUTPUTS: usize> View for DynamicIoRuntime<
    I,
    O,
    INPUTS,
    OUTPUTS,
> {
    type V = RuntimeView<I, O, INPUTS, OUTPUTS>;

    closed spec fn view(&self) -> RuntimeView<I, O, INPUTS, OUTPUTS> {
        RuntimeView {
            buckets: views(self.buckets@),
            retired: self.retired_buckets@,
            waiting: self.recovery@,
            hot: self.hot_bucket,
            tick: self.tick,
            wrapped: self.wrapped@,
        }
    }
}

/// The handles resolve to the buckets that bear them, and to nothing else.
pub open spec fn handles_resolve<
    I: TensorElement,
    O: TensorElement,
    const INPUTS: usize,
    const OUTPUTS: usize,
>(buckets: Seq<BucketView<I, O, INPUTS, OUTPUTS>>, handles: PreparedSlots) -> bool {
    &&& forall|i: int|
        0 <= i < buckets.len() ==> handles.resolve((#[trigger] buckets[i]).id) == Some(i as usize)
    &&& forall|id: PreparedBucketId|
        (#[trigger] handles.resolve(id)) matches Some(i) ==> i < buckets.len()
            && buckets[i as int].id == id
}

/// No two buckets are for the same shape.
pub open spec fn distinct_shapes<
    I: TensorElement,
    O: TensorElement,
    const INPUTS: usize,
    const OUTPUTS: usize,
>(buckets: Seq<BucketView<I, O, INPUTS, OUTPUTS>>) -> bool {
    forall|i: int, j: int|
        0 <= i < j < buckets.len() ==> !(#[trigger] buckets[i]).key.selects(
            (#[trigger] buckets[j]).key.inputs(),
            buckets[j].key.outputs(),
        )
}

/// No bucket was accessed later than the count says.
pub open spec fn stamps_fit<
    I: TensorElement,
    O: TensorElement,
    const INPUTS: usize,
    const OUTPUTS: usize,
>(buckets: Seq<BucketView<I, O, INPUTS, OUTPUTS>>, tick: u64) -> bool {
    forall|i: int| 0 <= i < buckets.len() ==> (#[trigger] buckets[i]).last_used <= tick
}

/// The lanes of dropped runs are sound and have no operation under way.
pub open spec fn waiting_wf<
    I: TensorElement,
    O: TensorElement,
    const INPUTS: usize,
    const OUTPUTS: usize,
>(waiting: Seq<(usize, RecoveredDynamicLane<I, O, INPUTS, OUTPUTS>)>) -> bool {
    forall|k: int|
        0 <= k < waiting.len() ==> (#[trigger] waiting[k]).1.lane.wf() && waiting[k].1.lane.at_rest()
}

/// The buckets after the lane of a dropped run came back; none where its bucket is gone or
/// misses no lane.
pub open spec fn receive<
    I: TensorElement,
    O: TensorElement,
    const INPUTS: usize,
    const OUTPUTS: usize,
>(
    buckets: Seq<BucketView<I, O, INPUTS, OUTPUTS>>,
    handles: PreparedSlots,
    recovered: RecoveredDynamicLane<I, O, INPUTS, OUTPUTS>,
) -> Option<Seq<BucketView<I, O, INPUTS, OUTPUTS>>> {
    match handles.resolve(recovered.bucket_id) {
        None => None,
        Some(i) => if buckets[i as int].detached == 0 {
            None
        } else {
            Some(buckets.update(i as int, buckets[i as int].attach(recovered.lane)))
        },
    }
}

/// What taking back the lanes of dropped runs leads to.
pub struct Reclaimed<I: TensorElement, O: TensorElement, const INPUTS: usize, const OUTPUTS: usize> {
    /// The buckets afterwards.
    pub buckets: Seq<BucketView<I, O, INPUTS, OUTPUTS>>,
    /// The number of lanes that came back.
    pub count: nat,
    /// The lanes that no bucket took.
    pub leaked: Seq<ServingLane<I, O, INPUTS, OUTPUTS>>,
}

/// What taking back the lanes of dropped runs leads to, the last one first.
pub open spec fn reclaim<
    I: TensorElement,
    O: TensorElement,
    const INPUTS: usize,
    const OUTPUTS: usize,
>(
    buckets: Seq<BucketView<I, O, INPUTS, OUTPUTS>>,
    handles: PreparedSlots,
    waiting: Seq<(usize, RecoveredDynamicLane<I, O, INPUTS, OUTPUTS>)>,
) -> Reclaimed<I, O, INPUTS, OUTPUTS>
    decreases waiting.len(),
{
    if waiting.len() == 0 {
        Reclaimed { buckets, count: 0, leaked: Seq::empty() }
    } else {
        let recovered = waiting.last().1;
        match receive(buckets, handles, recovered) {
            None => {
                let rest = reclaim(buckets, handles, waiting.drop_last());
                Reclaimed { leaked: seq![recovered.lane] + rest.leaked, ..rest }
            },
            Some(after) => {
                let rest = reclaim(after, handles, waiting.drop_last());
                Reclaimed { count: rest.count + 1, ..rest }
            },
        }
    }
}

/// Provider work of a bucket may be pending, in a detached lane or in another.
pub open spec fn busy<
    I: TensorElement,
    O: TensorElement,
    const INPUTS: usize,
    const OUTPUTS: usize,
>(bucket: BucketView<I, O, INPUTS, OUTPUTS>) -> bool {
    bucket.detached > 0 || bucket.any_in_flight()
}

/// Why no bucket may be built for captured graphs: the first of the first `n` buckets with
/// pending work.
pub open spec fn busy_fault<
    I: TensorElement,
    O: TensorElement,
    const INPUTS: usize,
    const OUTPUTS: usize,
>(buckets: Seq<BucketView<I, O, INPUTS, OUTPUTS>>, n: int) -> Option<Error>
    decreases n,
{
    if n <= 0 {
        None
    } else {
        match busy_fault(buckets, n - 1) {
            Some(error) => Some(error),
            None => if busy(buckets[n - 1]) {
                Some(
                    Error::GraphCreationInFlight {
                        bucket: (n - 1) as usize,
                        detached: buckets[n - 1].detached,
                        in_flight: crate::runtime::bucket::in_flight_count(
                            buckets[n - 1].lanes,
                            buckets[n - 1].lanes.len() as int,
                        ) as usize,
                    },
                )
            } else {
                None
            },
        }
    }
}

proof fn lemma_busy_fault_first<
    I: TensorElement,
    O: TensorElement,
    const INPUTS: usize,
    const OUTPUTS: usize,
>(buckets: Seq<BucketView<I, O, INPUTS, OUTPUTS>>, n: int, m: int)
    requires
        0 <= n <= m,
        busy_fault(buckets, n) is Some,
    ensures
        busy_fault(buckets, m) == busy_fault(buckets, n),
    decreases m - n,
{
    if n < m {
        lemma_busy_fault_first(buckets, n, m - 1);
    }
}

/// Bucket `v` is the one to evict: of those without a detached lane it was accessed least
/// recently, and it is the first such one.
pub open spec fn is_victim<
    I: TensorElement,
    O: TensorElement,
    const INPUTS: usize,
    const OUTPUTS: usize,
>(buckets: Seq<BucketView<I, O, INPUTS, OUTPUTS>>, v: int) -> bool {
    &&& 0 <= v < buckets.len()
    &&& buckets[v].detached == 0
    &&& forall|j: int|
        0 <= j < buckets.len() && (#[trigger] buckets[j]).detached == 0 ==> {
            &&& buckets[v].last_used <= buckets[j].last_used
            &&& j < v ==> buckets[v].last_used < buckets[j].last_used
        }
}

/// Every bucket has a detached lane.
pub open spec fn all_detached<
    I: TensorElement,
    O: TensorElement,
    const INPUTS: usize,
    const OUTPUTS: usize,
>(buckets: Seq<BucketView<I, O, INPUTS, OUTPUTS>>) -> bool {
    forall|j: int| 0 <= j < buckets.len() ==> (#[trigger] buckets[j]).detached > 0
}

/// Changing a bucket but for its handle and its shapes keeps what holds of the buckets.
proof fn lemma_bucket_changed<
    I: TensorElement,
    O: TensorElement,
    const INPUTS: usize,
    const OUTPUTS: usize,
>(
    buckets: Seq<BucketView<I, O, INPUTS, OUTPUTS>>,
    handles: PreparedSlots,
    i: int,
    bucket: BucketView<I, O, INPUTS, OUTPUTS>,
)
    requires
        handles_resolve(buckets, handles),
        distinct_shapes(buckets),
        forall|k: int| 0 <= k < buckets.len() ==> (#[trigger] buckets[k]).wf(),
        0 <= i < buckets.len(),
        bucket.id == buckets[i].id,
        bucket.key == buckets[i].key,
        bucket.wf(),
    ensures
        handles_resolve(buckets.update(i, bucket), handles),
        distinct_shapes(buckets.update(i, bucket)),
        forall|k: int|
            0 <= k < buckets.len() ==> (#[trigger] buckets.update(i, bucket)[k]).wf(),
        forall|tick: u64|
            #[trigger] stamps_fit(buckets, tick) && bucket.last_used <= tick ==> stamps_fit(
                buckets.update(i, bucket),
                tick,
            ),
{
    let after = buckets.update(i, bucket);
    assert forall|k: int| 0 <= k < after.len() implies handles.resolve((#[trigger] after[k]).id)
        == Some(k as usize) by {
        assert(buckets[k].id == after[k].id);
    }
    assert forall|id: PreparedBucketId|
        (#[trigger] handles.resolve(id)) is Some implies handles.resolve(id)->Some_0 < after.len()
        && after[handles.resolve(id)->Some_0 as int].id == id by {
        let k = handles.resolve(id)->Some_0;
        assert(buckets[k as int].id == id);
    }
    assert forall|k: int, j: int| 0 <= k < j < after.len() implies !(#[trigger] after[k]).key.selects(
        (#[trigger] after[j]).key.inputs(),
        after[j].key.outputs(),
    ) by {
        assert(after[k].key == buckets[k].key && after[j].key == buckets[j].key);
        assert(!buckets[k].key.selects(buckets[j].key.inputs(), buckets[j].key.outputs()));
    }
}

/// What a request finds in the cache.
#[derive(Debug, Clone, Copy, PartialEq, Eq, Structural)]
pub enum Lookup {
    /// The bucket for its shapes.
    Hit(usize),
    /// No bucket. One has to be built, after this bucket, if any, was evicted.
    Miss(Option<usize>),
}

impl<I: TensorElement, O: TensorElement, const INPUTS: usize, const OUTPUTS: usize> RuntimeView<
    I,
    O,
    INPUTS,
    OUTPUTS,
> {
    /// Bucket `i` is the one for these shapes.
    pub open spec fn is_bucket(self, i: int, inputs: Seq<Seq<i64>>, outputs: Seq<Seq<i64>>) -> bool {
        0 <= i < self.buckets.len() && self.buckets[i].key.selects(inputs, outputs)
    }

    /// There is a bucket for these shapes.
    pub open spec fn has_bucket(self, inputs: Seq<Seq<i64>>, outputs: Seq<Seq<i64>>) -> bool {
        exists|i: int| #[trigger] self.is_bucket(i, inputs, outputs)
    }

    /// The next count of accesses. It is never zero.
    pub open spec fn next_tick(self) -> u64 {
        if self.tick == u64::MAX {
            1
        } else {
            (self.tick + 1) as u64
        }
    }

    /// The state with the next count of accesses.
    pub open spec fn ticked(self) -> Self {
        RuntimeView {
            tick: self.next_tick(),
            wrapped: self.wrapped || self.tick == u64::MAX,
            ..self
        }
    }

    /// The state after the lanes of dropped runs were taken back.
    pub open spec fn reclaimed(self, handles: PreparedSlots) -> Self {
        RuntimeView {
            buckets: reclaim(self.buckets, handles, self.waiting).buckets,
            waiting: Seq::empty(),
            ..self
        }
    }

    /// The state without the retired buckets whose captured graph was released.
    pub open spec fn reaped(self) -> Self {
        RuntimeView {
            retired: self.retired.filter(
                |retired: RetiredShapeBucket<I, O, INPUTS, OUTPUTS>| !retired.released,
            ),
            ..self
        }
    }

    /// `after` and `result` are what looking for a bucket to evict leads to. A full cache of
    /// captured graphs never evicts.
    pub open spec fn victim_chosen(
        self,
        options: DynamicIoOptions,
        after: Self,
        result: Result<Option<usize>, Error>,
    ) -> bool {
        if self.buckets.len() < options.max_buckets {
            after == self && result == Ok::<Option<usize>, Error>(None)
        } else if options.cuda_graph {
            after == self && result == Err::<Option<usize>, Error>(
                Error::GraphCacheFull { max_buckets: options.max_buckets },
            )
        } else {
            &&& after == RuntimeView { hot: None, ..self }
            &&& if all_detached(self.buckets) {
                result == Err::<Option<usize>, Error>(Error::Fault(Fault::CacheFullInFlight))
            } else {
                result matches Ok(Some(v)) && is_victim(self.buckets, v as int)
            }
        }
    }

    /// `after` and `result` are what a lookup leads to, from a state without waiting lanes.
    pub open spec fn looked_up(
        self,
        setup: RuntimeSetup,
        inputs: Seq<Seq<i64>>,
        outputs: Seq<Seq<i64>>,
        allow_create: bool,
        after: Self,
        result: Result<Lookup, Error>,
    ) -> bool {
        match setup.planned_fault(inputs, outputs) {
            Some(error) => after == self && result == Err::<Lookup, Error>(error),
            None => {
                let reaped = self.reaped();
                if self.has_bucket(inputs, outputs) {
                    &&& result matches Ok(Lookup::Hit(i))
                    &&& reaped.is_bucket(i as int, inputs, outputs)
                    &&& after == reaped.accessed(i as int)
                } else if !allow_create {
                    after == reaped && result == Err::<Lookup, Error>(
                        Error::Fault(Fault::StrictCacheMiss),
                    )
                } else if setup.options.cuda_graph && busy_fault(
                    self.buckets,
                    self.buckets.len() as int,
                ) is Some {
                    after == reaped && result == Err::<Lookup, Error>(
                        busy_fault(self.buckets, self.buckets.len() as int)->Some_0,
                    )
                } else {
                    match result {
                        Err(error) => reaped.victim_chosen(setup.options, after, Err(error)),
                        Ok(Lookup::Miss(evict)) => reaped.victim_chosen(
                            setup.options,
                            after,
                            Ok(evict),
                        ),
                        Ok(Lookup::Hit(_)) => false,
                    }
                }
            },
        }
    }

    /// The state after an access to bucket `i`.
    pub open spec fn accessed(self, i: int) -> Self {
        RuntimeView {
            buckets: self.buckets.update(i, self.buckets[i].touch(self.next_tick())),
            hot: Some(i as usize),
            ..self.ticked()
        }
    }
}

impl<I: TensorElement, O: TensorElement, const INPUTS: usize, const OUTPUTS: usize> DynamicIoRuntime<
    I,
    O,
    INPUTS,
    OUTPUTS,
> {
    /// What the runtime is made of.
    pub closed spec fn spec_setup(self) -> RuntimeSetup {
        self.setup
    }

    /// The handles of the buckets.
    pub closed spec fn handles(self) -> PreparedSlots {
        self.prepared
    }

    /// The slots for lanes of dropped runs.
    closed spec fn recovery_wf(self) -> bool {
        &&& self.recovery.wf()
        &&& self.recovery.capacity() == self.setup.options.max_buckets * self.setup.lane_count
    }

    /// What always holds of a runtime.
    pub closed spec fn wf(self) -> bool {
        &&& self.setup.wf(INPUTS, OUTPUTS)
        &&& self.recovery_wf()
        &&& self.prepared.wf()
        &&& self@.buckets.len() <= self.setup.options.max_buckets
        &&& handles_resolve(self@.buckets, self.prepared)
        &&& distinct_shapes(self@.buckets)
        &&& forall|i: int| 0 <= i < self@.buckets.len() ==> (#[trigger] self@.buckets[i]).wf()
        &&& waiting_wf(self@.waiting)
        &&& self@.wrapped || stamps_fit(self@.buckets, self@.tick)
    }

    /// The rest of a runtime is that of another one: what it is made of and its handles.
    pub open spec fn same_frame(self, other: Self) -> bool {
        self.spec_setup() == other.spec_setup() && self.handles() == other.handles()
    }

    /// Why a runtime cannot be made.
    pub open spec fn setup_fault(mode: RuntimeMode, lanes: usize, options: DynamicIoOptions) -> Option<
        Error,
    > {
        if lanes == 0 {
            match mode {
                RuntimeMode::SharedSession => Some(Error::Fault(Fault::DynamicWithoutLanes)),
                RuntimeMode::ReplicatedSessions => Some(
                    Error::Fault(Fault::DynamicWithoutSessions),
                ),
            }
        } else {
            match options.fault() {
                Some(fault) => Some(Error::Fault(fault)),
                None => match options.mode_fault(mode, lanes) {
                    Some(error) => Some(error),
                    None => if options.max_buckets * lanes > usize::MAX {
                        Some(Error::Fault(Fault::RecoveryCapacityOverflow))
                    } else {
                        None
                    },
                },
            }
        }
    }

    /// `result` is the outcome of making a runtime.
    pub open spec fn made(
        result: Result<Self, Error>,
        sessions: DynamicSessions,
        lanes: usize,
        input_memory: MemoryInfo,
        output_memory: MemoryInfo,
        options: DynamicIoOptions,
    ) -> bool {
        match Self::setup_fault(sessions.mode(), lanes, options) {
            Some(error) => result == Err::<Self, Error>(error),
            None => {
                &&& result matches Ok(runtime)
                &&& runtime.wf()
                &&& runtime.spec_setup() == (RuntimeSetup {
                    input_memory,
                    output_memory,
                    options,
                    shape_plan: None,
                    sessions,
                    lane_count: lanes,
                })
                &&& runtime@ == (RuntimeView::<I, O, INPUTS, OUTPUTS> {
                    buckets: Seq::empty(),
                    retired: Seq::empty(),
                    waiting: Seq::empty(),
                    hot: None,
                    tick: 0,
                    wrapped: false,
                })
            },
        }
    }

    fn make(
        sessions: DynamicSessions,
        lanes: usize,
        input_memory: MemoryInfo,
        output_memory: MemoryInfo,
        options: DynamicIoOptions,
    ) -> (result: Result<Self, Error>)
        requires
            sessions.serve(lanes),
        ensures
            Self::made(result, sessions, lanes, input_memory, output_memory, options),
    {
        let mode: RuntimeMode = match &sessions {
            DynamicSessions::Shared(_) => RuntimeMode::SharedSession,
            DynamicSessions::Replicated(_) => RuntimeMode::ReplicatedSessions,
        };
        if lanes == 0 {
            return match mode {
                RuntimeMode::SharedSession => fail(Fault::DynamicWithoutLanes),
                RuntimeMode::ReplicatedSessions => fail(Fault::DynamicWithoutSessions),
            };
        }
        let options: DynamicIoOptions = match options.validate() {
            Err(error) => return Err(error),
            Ok(options) => options,
        };
        if let Err(error) = options.validate_runtime_mode(mode, lanes) {
            return Err(error);
        }
        let capacity: usize = match options.max_buckets.checked_mul(lanes) {
            None => return fail(Fault::RecoveryCapacityOverflow),
            Some(capacity) => capacity,
        };
        let runtime = DynamicIoRuntime {
            buckets: Vec::new(),
            retired_buckets: Vec::new(),
            recovery: RecoverySlots::new(capacity),
            setup: RuntimeSetup {
                input_memory,
                output_memory,
                options,
                shape_plan: None,
                sessions,
                lane_count: lanes,
            },
            hot_bucket: None,
            prepared: PreparedSlots::new(),
            tick: 0,
            wrapped: Ghost(false),
        };
        assert(runtime@.buckets =~= Seq::empty());
        Ok(runtime)
    }

    /// A runtime with one shared session and so many lanes per shape, with default options.
    pub fn shared_session(session: Session, memory: MemoryInfo, lanes: usize) -> (result: Result<
        Self,
        Error,
    >)
        ensures
            exists|options: DynamicIoOptions| #[trigger]
                options.is_default_for(16) && Self::made(
                    result,
                    DynamicSessions::Shared(session),
                    lanes,
                    memory,
                    memory,
                    options,
                ),
    {
        let output_memory: MemoryInfo = memory.try_clone_descriptor();
        let options: DynamicIoOptions = DynamicIoOptions::default();
        let result = Self::shared_session_with_options(
            session,
            memory,
            output_memory,
            lanes,
            options,
        );
        assert(options.is_default_for(16));
        result
    }

    /// A runtime with one shared session, explicit memories and options.
    pub fn shared_session_with_options(
        session: Session,
        input_memory: MemoryInfo,
        output_memory: MemoryInfo,
        lanes: usize,
        options: DynamicIoOptions,
    ) -> (result: Result<Self, Error>)
        ensures
            Self::made(
                result,
                DynamicSessions::Shared(session),
                lanes,
                input_memory,
                output_memory,
                options,
            ),
    {
        Self::make(DynamicSessions::Shared(session), lanes, input_memory, output_memory, options)
    }

    /// A runtime with one lane per session and shape, with default options.
    pub fn from_sessions(sessions: Vec<Session>, memory: MemoryInfo) -> (result: Result<
        Self,
        Error,
    >)
        ensures
            exists|options: DynamicIoOptions| #[trigger]
                options.is_default_for(16) && Self::made(
                    result,
                    DynamicSessions::Replicated(sessions),
                    sessions@.len() as usize,
                    memory,
                    memory,
                    options,
                ),
    {
        let output_memory: MemoryInfo = memory.try_clone_descriptor();
        let options: DynamicIoOptions = DynamicIoOptions::default();
        let result = Self::from_sessions_with_options(sessions, memory, output_memory, options);
        assert(options.is_default_for(16));
        result
    }

    /// A runtime with one lane per session and shape, explicit memories and options.
    pub fn from_sessions_with_options(
        sessions: Vec<Session>,
        input_memory: MemoryInfo,
        output_memory: MemoryInfo,
        options: DynamicIoOptions,
    ) -> (result: Result<Self, Error>)
        ensures
            Self::made(
                result,
                DynamicSessions::Replicated(sessions),
                sessions@.len() as usize,
                input_memory,
                output_memory,
                options,
            ),
    {
        let lanes: usize = sessions.len();
        Self::make(
            DynamicSessions::Replicated(sessions),
            lanes,
            input_memory,
            output_memory,
            options,
        )
    }

    /// A runtime from what a session factory made of `lanes` requests, with explicit memories
    /// and options.
    pub fn from_session_factory_with_options(
        lanes: usize,
        input_memory: MemoryInfo,
        output_memory: MemoryInfo,
        options: DynamicIoOptions,
        sessions: Result<Vec<Session>, Error>,
    ) -> (result: Result<Self, Error>)
        requires
            sessions matches Ok(made) ==> made@.len() == lanes,
        ensures
            if lanes == 0 {
                result == Err::<Self, Error>(Error::Fault(Fault::DynamicWithoutLanes))
            } else {
                match sessions {
                    Err(error) => result == Err::<Self, Error>(error),
                    Ok(made) => Self::made(
                        result,
                        DynamicSessions::Replicated(made),
                        lanes,
                        input_memory,
                        output_memory,
                        options,
                    ),
                }
            },
    {
        if lanes == 0 {
            return fail(Fault::DynamicWithoutLanes);
        }
        match sessions {
            Err(error) => Err(error),
            Ok(made) => Self::from_sessions_with_options(
                made,
                input_memory,
                output_memory,
                options,
            ),
        }
    }

    /// A runtime from what a session factory made of `lanes` requests, with default options.
    pub fn from_session_factory(
        lanes: usize,
        memory: MemoryInfo,
        sessions: Result<Vec<Session>, Error>,
    ) -> (result: Result<Self, Error>)
        requires
            sessions matches Ok(made) ==> made@.len() == lanes,
        ensures
            if lanes == 0 {
                result == Err::<Self, Error>(Error::Fault(Fault::DynamicWithoutLanes))
            } else {
                match sessions {
                    Err(error) => result == Err::<Self, Error>(error),
                    Ok(made) => exists|options: DynamicIoOptions| #[trigger]
                        options.is_default_for(16) && Self::made(
                            result,
                            DynamicSessions::Replicated(made),
                            lanes,
                            memory,
                            memory,
                            options,
                        ),
                }
            },
    {
        let output_memory: MemoryInfo = memory.try_clone_descriptor();
        let options: DynamicIoOptions = DynamicIoOptions::default();
        let result = Self::from_session_factory_with_options(
            lanes,
            memory,
            output_memory,
            options,
            sessions,
        );
        assert(options.is_default_for(16));
        result
    }

    /// The number of cached buckets.
    pub fn bucket_count(&self) -> (count: usize)
        ensures
            count == self@.buckets.len(),
    {
        self.buckets.len()
    }

    /// The greatest number of cached buckets.
    pub fn max_buckets(&self) -> (count: usize)
        ensures
            count == self.spec_setup().options.max_buckets,
    {
        self.setup.options.max_buckets
    }

    /// The number of lanes of every bucket.
    pub fn lane_count(&self) -> (count: usize)
        ensures
            count == self.spec_setup().lane_count,
    {
        self.setup.lane_count
    }

    /// How the sessions are arranged.
    pub fn session_mode(&self) -> (mode: RuntimeMode)
        ensures
            mode == self.spec_setup().sessions.mode(),
    {
        match &self.setup.sessions {
            DynamicSessions::Shared(_) => RuntimeMode::SharedSession,
            DynamicSessions::Replicated(_) => RuntimeMode::ReplicatedSessions,
        }
    }

    /// The options.
    pub fn options(&self) -> (options: DynamicIoOptions)
        ensures
            options.same(self.spec_setup().options),
    {
        self.setup.options.clone()
    }

    /// The cached buckets.
    pub fn buckets(&self) -> (buckets: &[ShapeBucket<I, O, INPUTS, OUTPUTS>])
        ensures
            views(buckets@) == self@.buckets,
    {
        self.buckets.as_slice()
    }

    /// The installed plan.
    pub fn shape_plan(&self) -> (plan: Option<&ServingShapePlan>)
        ensures
            plan == (match self.spec_setup().shape_plan {
                Some(plan) => Some(&plan),
                None => None,
            }),
    {
        match &self.setup.shape_plan {
            Some(plan) => Some(plan),
            None => None,
        }
    }

    /// Why a plan cannot be installed.
    pub open spec fn install_fault(self, plan: ServingShapePlan) -> Option<Error> {
        if self@.buckets.len() > 0 || self@.retired.len() > 0 {
            Some(Error::Fault(Fault::PlanAfterBuckets))
        } else if plan.shapes().len() > self.spec_setup().options.max_buckets {
            Some(
                Error::PlanTooLarge {
                    buckets: plan.shapes().len() as usize,
                    capacity: self.spec_setup().options.max_buckets,
                },
            )
        } else {
            self.spec_setup().plan_fault(plan, INPUTS, OUTPUTS, plan.shapes().len() as int)
        }
    }

    /// Install the plan of the shapes that may be served, before any bucket is built.
    pub fn install_shape_plan(&mut self, plan: ServingShapePlan) -> (result: Result<(), Error>)
        requires
            old(self).wf(),
            plan.sealed(),
        ensures
            final(self).wf(),
            final(self)@ == old(self)@,
            final(self).handles() == old(self).handles(),
            match old(self).install_fault(plan) {
                Some(error) => {
                    &&& result == Err::<(), Error>(error)
                    &&& final(self).spec_setup() == old(self).spec_setup()
                },
                None => {
                    &&& result is Ok
                    &&& final(self).spec_setup() == (RuntimeSetup {
                        shape_plan: Some(plan),
                        ..old(self).spec_setup()
                    })
                },
            },
    {
        if self.buckets.len() > 0 || self.retired_buckets.len() > 0 {
            return fail(Fault::PlanAfterBuckets);
        }
        if plan.len() > self.setup.options.max_buckets {
            return Err(
                Error::PlanTooLarge {
                    buckets: plan.len(),
                    capacity: self.setup.options.max_buckets,
                },
            );
        }
        let shapes: &[CanonicalShape] = plan.buckets();
        let device_outputs: bool = self.setup.options.device_outputs;
        let mut k: usize = 0;
        while k < shapes.len()
            invariant
                k <= shapes@.len(),
                shapes@ == plan.shapes(),
                device_outputs == self.setup.options.device_outputs,
                *self == *old(self),
                old(self).wf(),
                old(self)@.buckets.len() == 0,
                old(self)@.retired.len() == 0,
                plan.shapes().len() <= self.setup.options.max_buckets,
                self.setup.plan_fault(plan, INPUTS, OUTPUTS, k as int) is None,
            decreases shapes@.len() - k,
        {
            let shape: &CanonicalShape = &shapes[k];
            let plan_inputs: usize = shape.input_shapes().len();
            let plan_outputs: usize = shape.output_shapes().len();
            let placed: bool = match shape.output_policy() {
                OutputPolicy::HostBuffer => !device_outputs,
                OutputPolicy::CudaPinned => false,
                OutputPolicy::DeviceResident => device_outputs,
            };
            if plan_inputs != INPUTS || plan_outputs != OUTPUTS || !placed {
                proof {
                    self.setup.lemma_plan_fault_first(
                        plan,
                        INPUTS,
                        OUTPUTS,
                        k + 1,
                        shapes@.len() as int,
                    );
                }
                if plan_inputs != INPUTS || plan_outputs != OUTPUTS {
                    return Err(
                        Error::PlanArity {
                            inputs: INPUTS,
                            outputs: OUTPUTS,
                            plan_inputs,
                            plan_outputs,
                        },
                    );
                }
                return fail(Fault::PlanOutputPlacement);
            }
            k = k + 1;
        }
        let ghost before = self.setup;
        self.setup.shape_plan = Some(plan);
        proof {
            lemma_plan_fault_frame(before, self.setup, plan, INPUTS, OUTPUTS, plan.shapes().len() as int);
        }
        Ok(())
    }

    /// Check that shapes may be served.
    pub fn validate_planned_shape(
        &self,
        input_shapes: [&[i64]; INPUTS],
        output_shapes: [&[i64]; OUTPUTS],
    ) -> (result: Result<(), Error>)
        requires
            self.wf(),
        ensures
            match self.spec_setup().planned_fault(
                crate::shape::slice_shapes(input_shapes@),
                crate::shape::slice_shapes(output_shapes@),
            ) {
                Some(error) => result == Err::<(), Error>(error),
                None => result is Ok,
            },
    {
        let ghost inputs = crate::shape::slice_shapes(input_shapes@);
        let plan: &ServingShapePlan = match &self.setup.shape_plan {
            None => {
                if self.setup.options.cuda_graph {
                    return fail(Fault::GraphWithoutPlan);
                }
                return Ok(());
            },
            Some(plan) => plan,
        };
        let result: Result<ShapeId, ClassifyError> = plan.classify(input_shapes.as_slice());
        proof {
            crate::shape_plan::sealed_plans_are_canonical(*plan);
            crate::shape_plan::classification_is_unique(
                plan.shapes(),
                plan.policy(),
                inputs,
                result,
                classified(*plan, inputs),
            );
        }
        let id: ShapeId = match result {
            Err(error) => return Err(Error::ShapeRejected { error }),
            Ok(id) => id,
        };
        proof {
            crate::shape_plan::admitted_request_fits(plan.shapes(), plan.policy(), inputs, id);
        }
        match plan.bucket(id) {
            None => fail(Fault::PlanInvalidShapeId),
            Some(shape) => {
                if !shapes_equal(shape.input_shapes(), input_shapes.as_slice()) || !shapes_equal(
                    shape.output_shapes(),
                    output_shapes.as_slice(),
                ) {
                    return fail(Fault::RequestNotCanonical);
                }
                Ok(())
            },
        }
    }

    /// Take back the lanes of dropped runs: how many came back, and those that no bucket took,
    /// which must be leaked.
    pub fn reclaim_dropped_runs(&mut self) -> (result: (
        usize,
        Vec<ServingLane<I, O, INPUTS, OUTPUTS>>,
    ))
        requires
            old(self).wf(),
        ensures
            final(self).wf(),
            final(self).same_frame(*old(self)),
            final(self)@ == old(self)@.reclaimed(old(self).handles()),
            ({
                let reclaimed = reclaim(
                    old(self)@.buckets,
                    old(self).handles(),
                    old(self)@.waiting,
                );
                &&& result.0 == reclaimed.count
                &&& result.1@ == reclaimed.leaked
            }),
    {
        let ghost all = reclaim(self@.buckets, self.prepared, self@.waiting);
        let mut count: usize = 0;
        let mut leaked: Vec<ServingLane<I, O, INPUTS, OUTPUTS>> = Vec::new();
        proof {
            crate::runtime::recovery::waiting_values_fit(self.recovery);
        }
        let ghost capacity = self.recovery.capacity();
        let mut remaining: bool = true;
        assert(leaked@ + all.leaked =~= all.leaked);
        while remaining
            invariant
                self.wf(),
                self.setup == old(self).setup,
                self.prepared == old(self).prepared,
                self.retired_buckets@ == old(self).retired_buckets@,
                self.hot_bucket == old(self).hot_bucket,
                self.tick == old(self).tick,
                self.wrapped == old(self).wrapped,
                capacity <= usize::MAX,
                count + self@.waiting.len() <= capacity,
                !remaining ==> self@.waiting.len() == 0,
                ({
                    let rest = reclaim(self@.buckets, self.prepared, self@.waiting);
                    &&& rest.buckets == all.buckets
                    &&& rest.count + count == all.count
                    &&& leaked@ + rest.leaked == all.leaked
                }),
            decreases self@.waiting.len(), (if remaining { 1int } else { 0int }),
        {
            let ghost before = *self;
            let ghost waiting = self@.waiting;
            match self.recovery.pop_ready() {
                None => {
                    remaining = false;
                },
                Some((slot, recovered)) => {
                    assert(self@.waiting == waiting.drop_last());
                    assert(waiting.last().1 == recovered);
                    assert(waiting[waiting.len() - 1].1.lane.wf());
                    assert(waiting_wf(self@.waiting));
                    assert(self.wf());
                    match self.prepared.bucket_index(recovered.bucket_id) {
                        None => {
                            leaked.push(recovered.lane);
                            proof {
                                let rest = reclaim(self@.buckets, self.prepared, self@.waiting);
                                assert(leaked@ + rest.leaked =~= leaked@.drop_last() + (seq![
                                    recovered.lane,
                                ] + rest.leaked));
                            }
                        },
                        Some(i) => {
                            if self.buckets[i].detached_lane_count() == 0 {
                                leaked.push(recovered.lane);
                                proof {
                                    let rest = reclaim(self@.buckets, self.prepared, self@.waiting);
                                    assert(leaked@ + rest.leaked =~= leaked@.drop_last() + (seq![
                                        recovered.lane,
                                    ] + rest.leaked));
                                }
                            } else {
                                proof {
                                    assert(self@.buckets[i as int].wf());
                                    lemma_bucket_changed(
                                        self@.buckets,
                                        self.prepared,
                                        i as int,
                                        self@.buckets[i as int].attach(recovered.lane),
                                    );
                                }
                                self.buckets[i].attach(recovered.lane);
                                count = count + 1;
                                assert(self@.buckets =~= before@.buckets.update(
                                    i as int,
                                    before@.buckets[i as int].attach(recovered.lane),
                                ));
                            }
                        },
                    }
                },
            }
        }
        assert(self@.waiting =~= Seq::empty());
        let ghost rest = reclaim(self@.buckets, self.prepared, self@.waiting);
        assert(leaked@ + rest.leaked =~= leaked@);
        (count, leaked)
    }

    /// The bucket for these shapes. The bucket of the last access is looked at first.
    pub fn find_bucket_index(
        &self,
        input_shapes: [&[i64]; INPUTS],
        output_shapes: [&[i64]; OUTPUTS],
    ) -> (found: Option<usize>)
        requires
            self.wf(),
        ensures
            match found {
                Some(i) => self@.is_bucket(
                    i as int,
                    crate::shape::slice_shapes(input_shapes@),
                    crate::shape::slice_shapes(output_shapes@),
                ),
                None => !self@.has_bucket(crate::shape::slice_shapes(input_shapes@), crate::shape::slice_shapes(output_shapes@)),
            },
    {
        if self.buckets.len() > 1 {
            if let Some(i) = self.hot_bucket {
                if i < self.buckets.len() && self.buckets[i].key().matches(
                    input_shapes,
                    output_shapes,
                ) {
                    return Some(i);
                }
            }
        }
        let mut i: usize = 0;
        while i < self.buckets.len()
            invariant
                i <= self.buckets@.len(),
                forall|k: int|
                    0 <= k < i ==> !(#[trigger] self@.buckets[k]).key.selects(
                        crate::shape::slice_shapes(input_shapes@),
                        crate::shape::slice_shapes(output_shapes@),
                    ),
            decreases self.buckets@.len() - i,
        {
            if self.buckets[i].key().matches(input_shapes, output_shapes) {
                return Some(i);
            }
            i = i + 1;
        }
        None
    }

    /// Check that nothing is pending in any bucket: capturing a graph must not overlap a replay.
    pub fn refuse_graph_bucket_creation_while_in_flight(&self) -> (result: Result<(), Error>)
        ensures
            match busy_fault(self@.buckets, self@.buckets.len() as int) {
                Some(error) => result == Err::<(), Error>(error),
                None => result is Ok,
            },
    {
        let mut i: usize = 0;
        while i < self.buckets.len()
            invariant
                i <= self.buckets@.len(),
                busy_fault(self@.buckets, i as int) is None,
            decreases self.buckets@.len() - i,
        {
            let detached: usize = self.buckets[i].detached_lane_count();
            let in_flight: usize = self.buckets[i].in_flight();
            if detached > 0 || in_flight > 0 {
                proof {
                    lemma_busy_fault_first(self@.buckets, i + 1, self@.buckets.len() as int);
                }
                return Err(Error::GraphCreationInFlight { bucket: i, detached, in_flight });
            }
            i = i + 1;
        }
        Ok(())
    }

    /// Choose the bucket to evict where the cache is full.
    fn choose_victim(&mut self) -> (result: Result<Option<usize>, Error>)
        requires
            old(self).wf(),
        ensures
            final(self).wf(),
            final(self).same_frame(*old(self)),
            old(self)@.victim_chosen(old(self).spec_setup().options, final(self)@, result),
    {
        if self.buckets.len() < self.setup.options.max_buckets {
            return Ok(None);
        }
        if self.setup.options.cuda_graph {
            return Err(Error::GraphCacheFull { max_buckets: self.setup.options.max_buckets });
        }
        self.hot_bucket = None;
        let mut oldest: Option<usize> = None;
        let mut i: usize = 0;
        while i < self.buckets.len()
            invariant
                i <= self.buckets@.len(),
                match oldest {
                    None => forall|j: int|
                        0 <= j < i ==> (#[trigger] self@.buckets[j]).detached > 0,
                    Some(v) => {
                        &&& v < i
                        &&& self@.buckets[v as int].detached == 0
                        &&& forall|j: int|
                            0 <= j < i && (#[trigger] self@.buckets[j]).detached == 0 ==> {
                                &&& self@.buckets[v as int].last_used <= self@.buckets[j].last_used
                                &&& j < v ==> self@.buckets[v as int].last_used
                                    < self@.buckets[j].last_used
                            }
                    },
                },
            decreases self.buckets@.len() - i,
        {
            if self.buckets[i].detached_lane_count() == 0 {
                match oldest {
                    None => {
                        oldest = Some(i);
                    },
                    Some(v) => {
                        if self.buckets[i].last_used() < self.buckets[v].last_used() {
                            oldest = Some(i);
                        }
                    },
                }
            }
            i = i + 1;
        }
        match oldest {
            None => fail(Fault::CacheFullInFlight),
            Some(v) => {
                assert(self@.buckets[v as int].detached == 0);
                Ok(Some(v))
            },
        }
    }

    /// Drop the retired buckets whose captured graph was released.
    pub fn reap_retired_buckets(&mut self)
        requires
            old(self).wf(),
        ensures
            final(self).wf(),
            final(self).same_frame(*old(self)),
            final(self)@ == old(self)@.reaped(),
    {
        let ghost all = self.retired_buckets@;
        let ghost keep = |retired: RetiredShapeBucket<I, O, INPUTS, OUTPUTS>| !retired.released;
        let ghost mut done: int = 0;
        let mut i: usize = 0;
        proof {
            reveal(Seq::filter);
            assert(all.take(0).filter(keep) =~= Seq::empty());
            assert(all.skip(0) =~= all);
        }
        while i < self.retired_buckets.len()
            invariant
                0 <= done <= all.len(),
                i <= self.retired_buckets@.len(),
                i == all.take(done).filter(keep).len(),
                self.retired_buckets@ == all.take(done).filter(keep) + all.skip(done),
                keep == (|retired: RetiredShapeBucket<I, O, INPUTS, OUTPUTS>| !retired.released),
                self.buckets == old(self).buckets,
                self.recovery == old(self).recovery,
                self.setup == old(self).setup,
                self.prepared == old(self).prepared,
                self.hot_bucket == old(self).hot_bucket,
                self.tick == old(self).tick,
                self.wrapped == old(self).wrapped,
            decreases all.len() - done,
        {
            let ghost kept = all.take(done).filter(keep);
            assert(done < all.len());
            assert(self.retired_buckets@[i as int] == all[done]);
            proof {
                assert(all.take(done + 1).drop_last() =~= all.take(done));
                reveal(Seq::filter);
            }
            if self.retired_buckets[i].released {
                let _ = self.retired_buckets.remove(i);
                assert(self.retired_buckets@ =~= kept + all.skip(done + 1));
            } else {
                assert(self.retired_buckets@ =~= kept.push(all[done]) + all.skip(done + 1));
                i = i + 1;
            }
            proof {
                done = done + 1;
            }
        }
        assert(all.skip(done).len() == 0);
        assert(all.take(done) =~= all);
        assert(self.retired_buckets@ =~= all.filter(keep));
    }

    /// Note that the captured graph of retired buckets was released.
    pub fn graph_released(&mut self, graph_id: i32)
        requires
            old(self).wf(),
        ensures
            final(self).wf(),
            final(self).same_frame(*old(self)),
            final(self)@ == (RuntimeView { retired: final(self)@.retired, ..old(self)@ }),
            final(self)@.retired.len() == old(self)@.retired.len(),
            forall|k: int|
                0 <= k < final(self)@.retired.len() ==> #[trigger] final(self)@.retired[k]
                    == (RetiredShapeBucket {
                    released: old(self)@.retired[k].released || old(self)@.retired[k].graph_id
                        == graph_id,
                    ..old(self)@.retired[k]
                }),
    {
        let mut k: usize = 0;
        while k < self.retired_buckets.len()
            invariant
                k <= self.retired_buckets@.len(),
                self.retired_buckets@.len() == old(self)@.retired.len(),
                self.buckets == old(self).buckets,
                self.recovery == old(self).recovery,
                self.setup == old(self).setup,
                self.prepared == old(self).prepared,
                self.hot_bucket == old(self).hot_bucket,
                self.tick == old(self).tick,
                self.wrapped == old(self).wrapped,
                forall|j: int|
                    0 <= j < k ==> #[trigger] self.retired_buckets@[j] == (RetiredShapeBucket {
                        released: old(self)@.retired[j].released || old(self)@.retired[j].graph_id
                            == graph_id,
                        ..old(self)@.retired[j]
                    }),
                forall|j: int|
                    k <= j < self.retired_buckets@.len() ==> #[trigger] self.retired_buckets@[j]
                        == old(self)@.retired[j],
            decreases self.retired_buckets@.len() - k,
        {
            if self.retired_buckets[k].graph_id == graph_id {
                self.retired_buckets[k].released = true;
            }
            k = k + 1;
        }
    }

    /// Look a request up: its bucket, or what has to be done before one is built. The lanes of
    /// dropped runs are taken back first; those that no bucket took must be leaked.
    pub fn lookup(
        &mut self,
        input_shapes: [&[i64]; INPUTS],
        output_shapes: [&[i64]; OUTPUTS],
        allow_create: bool,
    ) -> (result: (Vec<ServingLane<I, O, INPUTS, OUTPUTS>>, Result<Lookup, Error>))
        requires
            old(self).wf(),
        ensures
            final(self).wf(),
            final(self).same_frame(*old(self)),
            result.0@ == reclaim(
                old(self)@.buckets,
                old(self).handles(),
                old(self)@.waiting,
            ).leaked,
            old(self)@.reclaimed(old(self).handles()).looked_up(
                old(self).spec_setup(),
                crate::shape::slice_shapes(input_shapes@),
                crate::shape::slice_shapes(output_shapes@),
                allow_create,
                final(self)@,
                result.1,
            ),
    {
        let (_, leaked) = self.reclaim_dropped_runs();
        let ghost base = self@;
        if let Err(error) = self.validate_planned_shape(input_shapes, output_shapes) {
            return (leaked, Err(error));
        }
        self.reap_retired_buckets();
        let ghost reaped = *self;
        match self.find_bucket_index(input_shapes, output_shapes) {
            Some(i) => {
                proof {
                    assert(base.is_bucket(
                        i as int,
                        crate::shape::slice_shapes(input_shapes@),
                        crate::shape::slice_shapes(output_shapes@),
                    ));
                }
                self.access(i);
                (leaked, Ok(Lookup::Hit(i)))
            },
            None => {
                proof {
                    if base.has_bucket(crate::shape::slice_shapes(input_shapes@), crate::shape::slice_shapes(output_shapes@)) {
                        let i = choose|i: int| #[trigger]
                            base.is_bucket(
                                i,
                                crate::shape::slice_shapes(input_shapes@),
                                crate::shape::slice_shapes(output_shapes@),
                            );
                        assert(self@.is_bucket(
                            i,
                            crate::shape::slice_shapes(input_shapes@),
                            crate::shape::slice_shapes(output_shapes@),
                        ));
                    }
                }
                if !allow_create {
                    return (leaked, fail(Fault::StrictCacheMiss));
                }
                if self.setup.options.cuda_graph {
                    if let Err(error) = self.refuse_graph_bucket_creation_while_in_flight() {
                        return (leaked, Err(error));
                    }
                }
                match self.choose_victim() {
                    Err(error) => (leaked, Err(error)),
                    Ok(evict) => (leaked, Ok(Lookup::Miss(evict))),
                }
            },
        }
    }

    /// Look a request up, where a bucket may be built for it unless the cache is strict.
    pub fn get_or_create_bucket(
        &mut self,
        input_shapes: [&[i64]; INPUTS],
        output_shapes: [&[i64]; OUTPUTS],
    ) -> (result: (Vec<ServingLane<I, O, INPUTS, OUTPUTS>>, Result<Lookup, Error>))
        requires
            old(self).wf(),
        ensures
            final(self).wf(),
            final(self).same_frame(*old(self)),
            result.0@ == reclaim(
                old(self)@.buckets,
                old(self).handles(),
                old(self)@.waiting,
            ).leaked,
            old(self)@.reclaimed(old(self).handles()).looked_up(
                old(self).spec_setup(),
                crate::shape::slice_shapes(input_shapes@),
                crate::shape::slice_shapes(output_shapes@),
                !old(self).spec_setup().options.strict_shape_cache,
                final(self)@,
                result.1,
            ),
    {
        let allow_create: bool = !self.setup.options.strict_shape_cache;
        self.lookup(input_shapes, output_shapes, allow_create)
    }

    /// Note an access to a bucket.
    fn access(&mut self, i: usize)
        requires
            old(self).wf(),
            i < old(self)@.buckets.len(),
        ensures
            final(self).wf(),
            final(self).same_frame(*old(self)),
            final(self)@ == old(self)@.accessed(i as int),
    {
        let tick: u64 = self.next_tick();
        proof {
            assert(self@.buckets[i as int].wf());
            lemma_bucket_changed(
                self@.buckets,
                self.prepared,
                i as int,
                self@.buckets[i as int].touch(tick),
            );
        }
        let ghost before = self@;
        self.buckets[i].touch(tick);
        self.hot_bucket = Some(i);
        assert(self@.buckets =~= before.buckets.update(
            i as int,
            before.buckets[i as int].touch(tick),
        ));
    }

    fn next_tick(&mut self) -> (tick: u64)
        requires
            old(self).wf(),
        ensures
            final(self).wf(),
            final(self).same_frame(*old(self)),
            tick == old(self)@.next_tick(),
            final(self)@ == old(self)@.ticked(),
    {
        proof {
            self.wrapped@ = self.wrapped@ || self.tick == u64::MAX;
        }
        self.tick = if self.tick == u64::MAX {
            1
        } else {
            self.tick + 1
        };
        self.tick
    }

    /// `after` and `retirement` are what taking a bucket out of the cache leads to.
    pub open spec fn retired_at(
        self,
        index: int,
        after: Self,
        retirement: Retirement<I, O, INPUTS, OUTPUTS>,
    ) -> bool {
        if self@.buckets[index].detached != 0 {
            &&& retirement is Refused
            &&& after@ == self@
            &&& after.handles() == self.handles()
        } else {
            let bucket = self@.buckets[index];
            &&& after@.buckets == swap_removed(self@.buckets, index)
            &&& after@ == (RuntimeView {
                buckets: after@.buckets,
                retired: after@.retired,
                ..self@
            })
            &&& after.handles().stale(bucket.id)
            &&& forall|id: PreparedBucketId|
                self.handles().stale(id) ==> #[trigger] after.handles().stale(id)
            &&& if bucket.any_in_flight() {
                &&& retirement matches Retirement::Leaked(leaked)
                &&& leaked@ == bucket
                &&& after@.retired == self@.retired
            } else {
                match bucket.graph_id {
                    None => {
                        &&& retirement matches Retirement::Dropped(dropped)
                        &&& dropped@ == bucket
                        &&& after@.retired == self@.retired
                    },
                    Some(graph_id) => {
                        &&& retirement matches Retirement::Releasing(releasing)
                        &&& releasing == graph_id
                        &&& after@.retired.len() == self@.retired.len() + 1
                        &&& after@.retired.drop_last() == self@.retired
                        &&& after@.retired.last().bucket@ == bucket
                        &&& after@.retired.last().graph_id == graph_id
                        &&& !after@.retired.last().released
                    },
                }
            }
        }
    }

    /// Take a bucket out of the cache. Its lanes must have been waited for as far as possible. A
    /// bucket with detached lanes stays. One with pending work must be leaked. One with a
    /// captured graph waits for the release of the graph.
    pub fn retire_bucket_at(&mut self, index: usize) -> (retirement: Retirement<
        I,
        O,
        INPUTS,
        OUTPUTS,
    >)
        requires
            old(self).wf(),
            index < old(self)@.buckets.len(),
        ensures
            final(self).wf(),
            final(self).spec_setup() == old(self).spec_setup(),
            old(self).retired_at(index as int, *final(self), retirement),
    {
        if self.buckets[index].detached_lane_count() != 0 {
            return Retirement::Refused;
        }
        let ghost before = *self;
        let in_flight: usize = self.buckets[index].in_flight();
        let graph_id: Option<i32> = self.buckets[index].graph_id();
        let retired_id: PreparedBucketId = self.buckets[index].id();
        proof {
            assert(self.prepared.resolve(self@.buckets[index as int].id) == Some(index));
            lemma_resolved_is_issued(self.prepared, retired_id);
        }
        self.prepared.retire(retired_id);
        let bucket = self.buckets.swap_remove(index);
        proof {
            assert(self@.buckets =~= swap_removed(before@.buckets, index as int));
        }
        if index < self.buckets.len() {
            let moved_id: PreparedBucketId = self.buckets[index].id();
            proof {
                let last = before@.buckets.len() - 1;
                assert(before@.buckets[last].id == moved_id);
                assert(before.prepared.resolve(before@.buckets[last].id) == Some(last as usize));
            }
            self.prepared.repair(moved_id, index);
        }
        proof {
            lemma_swap_removed(before@.buckets, before.prepared, self.prepared, index as int);
        }
        assert(self.retired_buckets@ == before.retired_buckets@);
        if in_flight > 0 {
            return Retirement::Leaked(bucket);
        }
        match graph_id {
            None => Retirement::Dropped(bucket),
            Some(graph_id) => {
                self.retired_buckets.push(
                    RetiredShapeBucket { bucket, graph_id, released: false },
                );
                assert(self@.retired.drop_last() =~= before@.retired);
                Retirement::Releasing(graph_id)
            },
        }
    }

    /// `built` is the outcome of building lanes of one recipe on the runtime's sessions.
    pub open spec fn lanes_placed(
        setup: RuntimeSetup,
        built: Result<(StaticIoRuntime<I, O, INPUTS, OUTPUTS>, SetCalls), Error>,
        streams: LaneStreams,
        recipe: LaneRecipe,
        inputs: Seq<Seq<i64>>,
        outputs: Seq<Seq<i64>>,
    ) -> bool {
        match setup.sessions {
            DynamicSessions::Shared(session) => StaticIoRuntime::shared_outcome(
                built,
                session,
                setup.lane_count as int,
                streams,
                recipe,
                inputs,
                outputs,
            ),
            DynamicSessions::Replicated(sessions) => StaticIoRuntime::replicated_outcome(
                built,
                sessions@,
                streams,
                recipe,
                inputs,
                outputs,
            ),
        }
    }

    /// `built` is the outcome of building lanes with device-resident inputs.
    pub open spec fn device_lanes_placed(
        setup: RuntimeSetup,
        built: Result<(StaticIoRuntime<I, O, INPUTS, OUTPUTS>, SetCalls), Error>,
        streams: LaneStreams,
        device_id: i32,
        inputs: Seq<Seq<i64>>,
        outputs: Seq<Seq<i64>>,
    ) -> bool {
        if setup.options.device_outputs {
            exists|host: MemoryInfo| #[trigger]
                host.is_cpu() && Self::lanes_placed(
                    setup,
                    built,
                    streams,
                    LaneRecipe {
                        input_memory: &setup.input_memory,
                        output_memory: &host,
                        input_policy: setup.options.input_policy,
                        output_policy: BufferSpec::Auto,
                        placement: Placement::DeviceIo(device_id),
                    },
                    inputs,
                    outputs,
                )
        } else {
            Self::lanes_placed(
                setup,
                built,
                streams,
                LaneRecipe {
                    input_memory: &setup.input_memory,
                    output_memory: &setup.output_memory,
                    input_policy: setup.options.input_policy,
                    output_policy: setup.options.output_policy,
                    placement: Placement::DeviceInputs(device_id),
                },
                inputs,
                outputs,
            )
        }
    }

    /// `built` is the outcome of building the lanes of a bucket, before their rebinding is chosen.
    pub open spec fn lane_set_built(
        setup: RuntimeSetup,
        built: Result<(StaticIoRuntime<I, O, INPUTS, OUTPUTS>, SetCalls), Error>,
        inputs: Seq<Seq<i64>>,
        outputs: Seq<Seq<i64>>,
    ) -> bool {
        match setup.options.device_id {
            None => Self::lanes_placed(
                setup,
                built,
                LaneStreams::Unused,
                LaneRecipe {
                    input_memory: &setup.input_memory,
                    output_memory: &setup.output_memory,
                    input_policy: setup.options.input_policy,
                    output_policy: setup.options.output_policy,
                    placement: Placement::Host,
                },
                inputs,
                outputs,
            ),
            Some(device_id) => if setup.sessions is Replicated
                && setup.options.lane_streams@.len() > 0 {
                exists|own: &[CudaStream]| #[trigger]
                    own@ == setup.options.lane_streams@ && Self::device_lanes_placed(
                        setup,
                        built,
                        LaneStreams::PerLane(own),
                        device_id,
                        inputs,
                        outputs,
                    )
            } else {
                Self::device_lanes_placed(
                    setup,
                    built,
                    LaneStreams::Shared(setup.options.stream->Some_0),
                    device_id,
                    inputs,
                    outputs,
                )
            },
        }
    }

    /// `result` is `built` with the rebinding of every lane chosen.
    pub open spec fn rebinding_chosen(
        built: Result<(StaticIoRuntime<I, O, INPUTS, OUTPUTS>, SetCalls), Error>,
        result: Result<(StaticIoRuntime<I, O, INPUTS, OUTPUTS>, SetCalls), Error>,
        enabled: bool,
    ) -> bool {
        match built {
            Err(error) => result == Err::<
                (StaticIoRuntime<I, O, INPUTS, OUTPUTS>, SetCalls),
                Error,
            >(error),
            Ok((before, made)) => {
                &&& result matches Ok((set, calls))
                &&& calls == made
                &&& set.wf()
                &&& set.arrangement() == before.arrangement()
                &&& set.members().len() == before.members().len()
                &&& forall|k: int|
                    0 <= k < set.members().len() ==> StaticIoRuntime::rebinds(
                        #[trigger] set.members()[k],
                        before.members()[k],
                        enabled,
                    )
            },
        }
    }

    /// Build the lanes of a bucket: on the shared session or one on each, over host buffers or
    /// device-resident ones, on the streams that the options give.
    pub fn build_lane_set(
        &self,
        input_shapes: [&[i64]; INPUTS],
        output_shapes: [&[i64]; OUTPUTS],
    ) -> (result: Result<(StaticIoRuntime<I, O, INPUTS, OUTPUTS>, SetCalls), Error>)
        requires
            self.wf(),
        ensures
            exists|built: Result<(StaticIoRuntime<I, O, INPUTS, OUTPUTS>, SetCalls), Error>|
                #[trigger] Self::lane_set_built(
                    self.spec_setup(),
                    built,
                    crate::shape::slice_shapes(input_shapes@),
                    crate::shape::slice_shapes(output_shapes@),
                ) && Self::rebinding_chosen(
                    built,
                    result,
                    self.spec_setup().options.rebind_inputs_each_run,
                ),
    {
        let options: &DynamicIoOptions = &self.setup.options;
        let input_memory: &MemoryInfo = &self.setup.input_memory;
        let output_memory: &MemoryInfo = &self.setup.output_memory;
        let built: Result<(StaticIoRuntime<I, O, INPUTS, OUTPUTS>, SetCalls), Error> =
            match options.device_id {
            None => match &self.setup.sessions {
                DynamicSessions::Shared(session) => StaticIoRuntime::shared_session_with_buffer_policy(
                    session,
                    input_memory,
                    output_memory,
                    input_shapes,
                    output_shapes,
                    self.setup.lane_count,
                    options.input_policy,
                    options.output_policy,
                ),
                DynamicSessions::Replicated(sessions) => StaticIoRuntime::from_session_refs_with_buffer_policy(
                    sessions.as_slice(),
                    input_memory,
                    output_memory,
                    input_shapes,
                    output_shapes,
                    options.input_policy,
                    options.output_policy,
                ),
            },
            Some(device_id) => match &self.setup.sessions {
                DynamicSessions::Shared(session) => match options.stream {
                    None => fail(Fault::DeviceStreamMissing),
                    Some(stream) => {
                        if options.device_outputs {
                            StaticIoRuntime::shared_session_with_device_io(
                                session,
                                input_memory,
                                input_shapes,
                                output_shapes,
                                self.setup.lane_count,
                                options.input_policy,
                                device_id,
                                stream,
                            )
                        } else {
                            StaticIoRuntime::shared_session_with_device_inputs(
                                session,
                                input_memory,
                                output_memory,
                                input_shapes,
                                output_shapes,
                                self.setup.lane_count,
                                options.input_policy,
                                options.output_policy,
                                device_id,
                                stream,
                            )
                        }
                    },
                },
                DynamicSessions::Replicated(sessions) => {
                    if options.lane_streams.len() == 0 {
                        match options.stream {
                            None => fail(Fault::DeviceStreamMissing),
                            Some(stream) => {
                                if options.device_outputs {
                                    StaticIoRuntime::from_session_refs_with_device_io(
                                        sessions.as_slice(),
                                        input_memory,
                                        input_shapes,
                                        output_shapes,
                                        options.input_policy,
                                        device_id,
                                        stream,
                                    )
                                } else {
                                    StaticIoRuntime::from_session_refs_with_device_inputs(
                                        sessions.as_slice(),
                                        input_memory,
                                        output_memory,
                                        input_shapes,
                                        output_shapes,
                                        options.input_policy,
                                        options.output_policy,
                                        device_id,
                                        stream,
                                    )
                                }
                            },
                        }
                    } else {
                        let own: &[CudaStream] = options.lane_streams.as_slice();
                        assert(own@ == options.lane_streams@);
                        if options.device_outputs {
                            StaticIoRuntime::from_session_refs_with_device_io_streams(
                                sessions.as_slice(),
                                input_memory,
                                input_shapes,
                                output_shapes,
                                options.input_policy,
                                device_id,
                                own,
                            )
                        } else {
                            StaticIoRuntime::from_session_refs_with_device_input_streams(
                                sessions.as_slice(),
                                input_memory,
                                output_memory,
                                input_shapes,
                                output_shapes,
                                options.input_policy,
                                options.output_policy,
                                device_id,
                                own,
                            )
                        }
                    }
                },
            },
        };
        let ghost outcome = built;
        proof {
            assert(Self::lane_set_built(
                self.setup,
                outcome,
                crate::shape::slice_shapes(input_shapes@),
                crate::shape::slice_shapes(output_shapes@),
            ));
        }
        match built {
            Err(error) => Err(error),
            Ok((set, calls)) => {
                let mut set = set;
                set.set_rebind_inputs_each_run(options.rebind_inputs_each_run);
                let result = Ok((set, calls));
                assert(Self::rebinding_chosen(outcome, result, options.rebind_inputs_each_run));
                result
            },
        }
    }

    /// The lanes of a new bucket are as many as a bucket has, sound and without an operation
    /// under way. In a runtime of captured graphs each has captured its own.
    pub open spec fn lanes_ready(
        setup: RuntimeSetup,
        lanes: Seq<ServingLane<I, O, INPUTS, OUTPUTS>>,
        graph_id: Option<i32>,
    ) -> bool {
        &&& lanes.len() == setup.lane_count
        &&& setup.options.cuda_graph == (graph_id is Some)
        &&& forall|k: int|
            0 <= k < lanes.len() ==> {
                &&& (#[trigger] lanes[k]).wf()
                &&& lanes[k].at_rest()
                &&& setup.options.cuda_graph ==> lanes[k].lane_state().graph_captured
            }
    }

    /// `lane` is `before` with a slot for recovery.
    pub open spec fn slotted(
        lane: ServingLane<I, O, INPUTS, OUTPUTS>,
        before: ServingLane<I, O, INPUTS, OUTPUTS>,
        slot: int,
    ) -> bool {
        &&& lane.wf()
        &&& lane.parts() == before.parts()
        &&& lane.lane_state() == before.lane_state()
        &&& lane.pending_failure() == before.pending_failure()
        &&& lane.slot() == Some(slot as usize)
    }

    /// `after` and `result` are what putting the lanes of a shape into the cache leads to.
    pub open spec fn installed(
        self,
        inputs: Seq<Seq<i64>>,
        outputs: Seq<Seq<i64>>,
        lanes: Seq<ServingLane<I, O, INPUTS, OUTPUTS>>,
        graph_id: Option<i32>,
        after: Self,
        result: Result<usize, Error>,
    ) -> bool {
        match self.handles().next_id() {
            None => {
                &&& result == Err::<usize, Error>(Error::Fault(Fault::SlotSpaceExhausted))
                &&& after@ == self@.ticked()
            },
            Some(id) => {
                let base = id.slot * self.spec_setup().lane_count;
                if base + self.spec_setup().lane_count > usize::MAX {
                    &&& result == Err::<usize, Error>(Error::Fault(Fault::RecoverySlotOverflow))
                    &&& after@ == self@.ticked()
                    &&& after.handles().stale(id)
                } else {
                    let place = self@.buckets.len();
                    &&& result == Ok::<usize, Error>(place as usize)
                    &&& !self.handles().issued(id)
                    &&& after@ == (RuntimeView {
                        buckets: after@.buckets,
                        hot: Some(place as usize),
                        ..self@.ticked()
                    })
                    &&& after@.buckets.len() == place + 1
                    &&& after@.buckets.drop_last() == self@.buckets
                    &&& ({
                        let bucket = after@.buckets.last();
                        &&& bucket.key.selects(
                            inputs,
                            outputs,
                        )
                        &&& bucket.id == id
                        &&& bucket.last_used == self@.next_tick()
                        &&& bucket.detached == 0
                        &&& bucket.graph_id == graph_id
                        &&& bucket.lanes.len() == lanes.len()
                        &&& forall|k: int|
                            0 <= k < bucket.lanes.len() ==> Self::slotted(
                                #[trigger] bucket.lanes[k],
                                lanes[k],
                                base + k,
                            )
                    })
                }
            },
        }
    }

    /// Put the lanes of a shape into the cache, as a bucket of their own.
    pub fn install_bucket(
        &mut self,
        input_shapes: [&[i64]; INPUTS],
        output_shapes: [&[i64]; OUTPUTS],
        lanes: Vec<ServingLane<I, O, INPUTS, OUTPUTS>>,
        graph_id: Option<i32>,
    ) -> (result: Result<usize, Error>)
        requires
            old(self).wf(),
            !old(self)@.has_bucket(crate::shape::slice_shapes(input_shapes@), crate::shape::slice_shapes(output_shapes@)),
            old(self)@.buckets.len() < old(self).spec_setup().options.max_buckets,
            Self::lanes_ready(old(self).spec_setup(), lanes@, graph_id),
        ensures
            final(self).wf(),
            final(self).spec_setup() == old(self).spec_setup(),
            forall|id: PreparedBucketId|
                old(self).handles().stale(id) ==> #[trigger] final(self).handles().stale(id),
            old(self).installed(
                crate::shape::slice_shapes(input_shapes@),
                crate::shape::slice_shapes(output_shapes@),
                lanes@,
                graph_id,
                *final(self),
                result,
            ),
    {
        let ghost before = *self;
        let key: ShapeKey<INPUTS, OUTPUTS> = ShapeKey::new(input_shapes, output_shapes);
        let last_used: u64 = self.next_tick();
        let place: usize = self.buckets.len();
        let ghost ticked = *self;
        let id: PreparedBucketId = match self.prepared.allocate(place) {
            Err(error) => return Err(error),
            Ok(id) => id,
        };
        let ghost allocated = self.prepared;
        let lane_count: usize = self.setup.lane_count;
        let base: usize = match (id.slot as usize).checked_mul(lane_count) {
            None => 0,
            Some(base) => base,
        };
        let fits: bool = match (id.slot as usize).checked_mul(lane_count) {
            None => false,
            Some(base) => base <= usize::MAX - lane_count,
        };
        if !fits {
            self.prepared.retire(id);
            proof {
                assert(self@.buckets == before@.buckets);
                assert forall|i: int| 0 <= i < self@.buckets.len() implies self.prepared.resolve(
                    (#[trigger] self@.buckets[i]).id,
                ) == Some(i as usize) by {
                    assert(before.prepared.resolve(before@.buckets[i].id) == Some(i as usize));
                    lemma_resolved_is_issued(before.prepared, before@.buckets[i].id);
                }
                assert forall|other: PreparedBucketId|
                    (#[trigger] self.prepared.resolve(other)) is Some implies
                    self.prepared.resolve(other)->Some_0 < self@.buckets.len()
                    && self@.buckets[self.prepared.resolve(other)->Some_0 as int].id == other by {
                    assert(allocated.resolve(other) == before.prepared.resolve(other));
                    assert(before.prepared.resolve(other) is Some);
                }
                assert forall|other: PreparedBucketId|
                    before.prepared.stale(other) implies #[trigger] self.prepared.stale(other) by {
                    assert(allocated.stale(other));
                }
                assert(allocated.issued(id));
                assert(self.prepared.issued(id));
            }
            return fail(Fault::RecoverySlotOverflow);
        }
        let mut lanes = lanes;
        let ghost given = lanes@;
        let mut k: usize = 0;
        while k < lanes.len()
            invariant
                k <= lanes@.len(),
                lanes@.len() == given.len(),
                given.len() == lane_count,
                base + lane_count <= usize::MAX,
                Self::lanes_ready(before.setup, given, graph_id),
                forall|j: int|
                    0 <= j < k ==> Self::slotted(#[trigger] lanes@[j], given[j], base + j),
                forall|j: int| k <= j < lanes@.len() ==> #[trigger] lanes@[j] == given[j],
            decreases lanes@.len() - k,
        {
            assert(given[k as int].wf());
            lanes[k].set_recovery_slot(base + k);
            k = k + 1;
        }
        let ghost slotted = lanes@;
        let bucket = ShapeBucket::new(key, id, lanes, last_used, graph_id);
        let ghost added = bucket@;
        self.buckets.push(bucket);
        self.hot_bucket = Some(place);
        proof {
            assert(self@.buckets =~= before@.buckets.push(added));
            assert(self@.buckets.drop_last() =~= before@.buckets);
            assert forall|j: int| 0 <= j < added.lanes.len() implies (#[trigger] added.lanes[j]).wf()
                && added.lanes[j].at_rest() by {
                assert(Self::slotted(slotted[j], given[j], base + j));
                assert(given[j].at_rest());
            }
            lemma_bucket_added(
                before@,
                before.prepared,
                self.prepared,
                added,
                crate::shape::slice_shapes(input_shapes@),
                crate::shape::slice_shapes(output_shapes@),
            );
        }
        Ok(place)
    }

    /// The handle of the bucket for these shapes.
    pub fn prepared_bucket_id(
        &self,
        input_shapes: [&[i64]; INPUTS],
        output_shapes: [&[i64]; OUTPUTS],
    ) -> (result: Result<PreparedBucketId, Error>)
        requires
            self.wf(),
        ensures
            if self@.has_bucket(crate::shape::slice_shapes(input_shapes@), crate::shape::slice_shapes(output_shapes@)) {
                &&& result matches Ok(id)
                &&& self.handles().resolve(id) matches Some(i)
                &&& self@.is_bucket(
                    i as int,
                    crate::shape::slice_shapes(input_shapes@),
                    crate::shape::slice_shapes(output_shapes@),
                )
                &&& self@.buckets[i as int].id == id
            } else {
                result == Err::<PreparedBucketId, Error>(Error::Fault(Fault::BucketNotPrepared))
            },
    {
        match self.find_bucket_index(input_shapes, output_shapes) {
            None => fail(Fault::BucketNotPrepared),
            Some(i) => {
                assert(self.prepared.resolve(self@.buckets[i as int].id) == Some(i));
                Ok(self.buckets[i].id())
            },
        }
    }

    /// The bucket for these shapes, if it is cached.
    pub fn bucket(
        &self,
        input_shapes: [&[i64]; INPUTS],
        output_shapes: [&[i64]; OUTPUTS],
    ) -> (bucket: Option<&ShapeBucket<I, O, INPUTS, OUTPUTS>>)
        requires
            self.wf(),
        ensures
            match bucket {
                Some(found) => exists|i: int|
                    self@.is_bucket(
                        i,
                        crate::shape::slice_shapes(input_shapes@),
                        crate::shape::slice_shapes(output_shapes@),
                    ) && found@ == #[trigger] self@.buckets[i],
                None => !self@.has_bucket(crate::shape::slice_shapes(input_shapes@), crate::shape::slice_shapes(output_shapes@)),
            },
    {
        match self.find_bucket_index(input_shapes, output_shapes) {
            None => None,
            Some(i) => {
                assert(self.buckets@[i as int]@ == self@.buckets[i as int]);
                Some(&self.buckets[i])
            },
        }
    }

    /// One bucket, to be run. It must keep its handle and its shapes.
    pub fn bucket_at(&mut self, i: usize) -> (bucket: &mut ShapeBucket<I, O, INPUTS, OUTPUTS>)
        requires
            old(self).wf(),
            i < old(self)@.buckets.len(),
        ensures
            bucket@ == old(self)@.buckets[i as int],
            final(self).same_frame(*old(self)),
            final(self)@ == (RuntimeView {
                buckets: old(self)@.buckets.update(i as int, final(bucket)@),
                ..old(self)@
            }),
            final(bucket)@.id == bucket@.id && final(bucket)@.key == bucket@.key
                && final(bucket)@.last_used == bucket@.last_used && final(bucket)@.wf()
                ==> final(self).wf(),
    {
        proof {
            let buckets = self.buckets@;
            let now = self@.buckets;
            assert(now[i as int] == buckets[i as int]@);
            assert forall|after: ShapeBucket<I, O, INPUTS, OUTPUTS>| #[trigger]
                views(buckets.update(i as int, after)) == now.update(i as int, after@) by {
                assert(views(buckets.update(i as int, after)) =~= now.update(i as int, after@));
            }
            assert forall|after: BucketView<I, O, INPUTS, OUTPUTS>|
                after.id == now[i as int].id && after.key == now[i as int].key
                    && after.last_used == now[i as int].last_used && after.wf() implies {
                &&& handles_resolve(#[trigger] now.update(i as int, after), self.prepared)
                &&& distinct_shapes(now.update(i as int, after))
                &&& stamps_fit(now, self.tick) ==> stamps_fit(
                    now.update(i as int, after),
                    self.tick,
                )
                &&& forall|k: int|
                    0 <= k < now.len() ==> (#[trigger] now.update(i as int, after)[k]).wf()
            } by {
                lemma_bucket_changed(now, self.prepared, i as int, after);
            }
        }
        &mut self.buckets[i]
    }

    /// Find the cached bucket for these shapes, to be run, and note the access. The lanes of dropped runs are
    /// taken back first; those that no bucket took must be leaked.
    pub fn bucket_mut(
        &mut self,
        input_shapes: [&[i64]; INPUTS],
        output_shapes: [&[i64]; OUTPUTS],
    ) -> (result: (Vec<ServingLane<I, O, INPUTS, OUTPUTS>>, Option<usize>))
        requires
            old(self).wf(),
        ensures
            final(self).wf(),
            final(self).same_frame(*old(self)),
            result.0@ == reclaim(
                old(self)@.buckets,
                old(self).handles(),
                old(self)@.waiting,
            ).leaked,
            ({
                let base = old(self)@.reclaimed(old(self).handles());
                match result.1 {
                    Some(i) => {
                        &&& base.is_bucket(
                            i as int,
                            crate::shape::slice_shapes(input_shapes@),
                            crate::shape::slice_shapes(output_shapes@),
                        )
                        &&& final(self)@ == base.accessed(i as int)
                    },
                    None => {
                        &&& !base.has_bucket(
                            crate::shape::slice_shapes(input_shapes@),
                            crate::shape::slice_shapes(output_shapes@),
                        )
                        &&& final(self)@ == base
                    },
                }
            }),
    {
        let (_, leaked) = self.reclaim_dropped_runs();
        match self.find_bucket_index(input_shapes, output_shapes) {
            None => (leaked, None),
            Some(i) => {
                self.access(i);
                (leaked, Some(i))
            },
        }
    }

    /// Find the bucket to remove for these shapes: none where it is not cached or has detached
    /// lanes. The lanes of dropped runs are taken back first; those that no bucket took must be
    /// leaked.
    pub fn remove_bucket(
        &mut self,
        input_shapes: [&[i64]; INPUTS],
        output_shapes: [&[i64]; OUTPUTS],
    ) -> (result: (Vec<ServingLane<I, O, INPUTS, OUTPUTS>>, Option<usize>))
        requires
            old(self).wf(),
        ensures
            final(self).wf(),
            final(self).same_frame(*old(self)),
            result.0@ == reclaim(
                old(self)@.buckets,
                old(self).handles(),
                old(self)@.waiting,
            ).leaked,
            ({
                let base = old(self)@.reclaimed(old(self).handles());
                match result.1 {
                    Some(i) => {
                        &&& base.is_bucket(
                            i as int,
                            crate::shape::slice_shapes(input_shapes@),
                            crate::shape::slice_shapes(output_shapes@),
                        )
                        &&& base.buckets[i as int].detached == 0
                        &&& final(self)@ == (RuntimeView { hot: None, ..base })
                    },
                    None => {
                        &&& final(self)@ == base
                        &&& forall|i: int| #[trigger]
                            base.is_bucket(
                                i,
                                crate::shape::slice_shapes(input_shapes@),
                                crate::shape::slice_shapes(output_shapes@),
                            ) ==> base.buckets[i].detached > 0
                    },
                }
            }),
    {
        let (_, leaked) = self.reclaim_dropped_runs();
        match self.find_bucket_index(input_shapes, output_shapes) {
            None => {
                assert(forall|i: int| #[trigger]
                    self@.is_bucket(i, crate::shape::slice_shapes(input_shapes@), crate::shape::slice_shapes(output_shapes@))
                        ==> false);
                (leaked, None)
            },
            Some(i) => {
                if self.buckets[i].detached_lane_count() != 0 {
                    assert forall|j: int| #[trigger]
                        self@.is_bucket(
                            j,
                            crate::shape::slice_shapes(input_shapes@),
                            crate::shape::slice_shapes(output_shapes@),
                        ) implies self@.buckets[j].detached > 0 by {
                        one_bucket_per_shape(
                            *self,
                            crate::shape::slice_shapes(input_shapes@),
                            crate::shape::slice_shapes(output_shapes@),
                            i as int,
                            j,
                        );
                    }
                    return (leaked, None);
                }
                self.hot_bucket = None;
                (leaked, Some(i))
            },
        }
    }

    /// Queue the lane of a dropped run for recovery, or hand it out where it must be leaked.
    pub fn recover_dropped(&mut self, run: OwnedDynamicIoRun<I, O, INPUTS, OUTPUTS>) -> (leaked:
        Option<ServingLane<I, O, INPUTS, OUTPUTS>>)
        requires
            old(self).wf(),
            run.held().wf(),
            run.held().at_rest(),
        ensures
            final(self).wf(),
            final(self).same_frame(*old(self)),
            ({
                let setup = old(self).spec_setup();
                if !run.held().in_flight() && run.held().slot() is Some
                    && run.held().slot()->Some_0 < setup.options.max_buckets * setup.lane_count
                    && !crate::runtime::recovery::has_slot(
                    old(self)@.waiting,
                    run.held().slot()->Some_0,
                ) {
                    &&& leaked is None
                    &&& final(self)@ == (RuntimeView {
                        waiting: old(self)@.waiting.push(
                            (
                                run.held().slot()->Some_0,
                                RecoveredDynamicLane {
                                    lane: run.held(),
                                    bucket_id: run.source(),
                                },
                            ),
                        ),
                        ..old(self)@
                    })
                } else {
                    leaked == Some(run.held()) && final(self)@ == old(self)@
                }
            }),
    {
        run.release(&mut self.recovery)
    }

    /// `after` and `result` are what detaching a lane of a bucket leads to.
    pub open spec fn lane_detached(
        self,
        id: PreparedBucketId,
        after: Self,
        result: Result<ServingLane<I, O, INPUTS, OUTPUTS>, Error>,
    ) -> bool {
        match self.handles().resolve(id) {
            None => after@ == self@ && result == Err::<ServingLane<I, O, INPUTS, OUTPUTS>, Error>(
                Error::Fault(Fault::BucketUnavailable),
            ),
            Some(i) => {
                let bucket = self@.buckets[i as int];
                if bucket.detached + bucket.lanes.len() != self.spec_setup().lane_count {
                    after@ == self@ && result == Err::<ServingLane<I, O, INPUTS, OUTPUTS>, Error>(
                        Error::Fault(Fault::LaneAccountingDiverged),
                    )
                } else if bucket.lanes.len() == 0 {
                    after@ == self@ && result == Err::<ServingLane<I, O, INPUTS, OUTPUTS>, Error>(
                        Error::Fault(Fault::AllLanesInFlight),
                    )
                } else {
                    &&& result == Ok::<ServingLane<I, O, INPUTS, OUTPUTS>, Error>(bucket.lanes.last())
                    &&& after@ == (RuntimeView {
                        buckets: self@.buckets.update(i as int, bucket.detach()),
                        ..self@
                    })
                }
            },
        }
    }

    fn detach_lane(&mut self, id: PreparedBucketId) -> (result: Result<ServingLane<I, O, INPUTS, OUTPUTS>, Error>)
        requires
            old(self).wf(),
        ensures
            final(self).wf(),
            final(self).same_frame(*old(self)),
            old(self).lane_detached(id, *final(self), result),
            result matches Ok(lane) ==> lane.wf() && lane.at_rest(),
    {
        let lane_count: usize = self.setup.lane_count;
        let i: usize = match self.prepared.bucket_index(id) {
            None => return fail(Fault::BucketUnavailable),
            Some(i) => i,
        };
        let ghost before = *self;
        assert(self@.buckets[i as int].wf());
        let idle: usize = self.buckets[i].lanes().len();
        match self.buckets[i].detached_lane_count().checked_add(idle) {
            None => return fail(Fault::LaneAccountingDiverged),
            Some(all) => {
                if all != lane_count {
                    return fail(Fault::LaneAccountingDiverged);
                }
            },
        }
        if idle == 0 {
            return fail(Fault::AllLanesInFlight);
        }
        proof {
            let bucket = self@.buckets[i as int];
            assert forall|k: int| 0 <= k < bucket.detach().lanes.len() implies (
            #[trigger] bucket.detach().lanes[k]).wf() && bucket.detach().lanes[k].at_rest() by {
                assert(bucket.lanes[k].wf());
            }
            lemma_bucket_changed(self@.buckets, self.prepared, i as int, bucket.detach());
        }
        let lane = self.buckets[i].detach();
        assert(self@.buckets =~= before@.buckets.update(
            i as int,
            before@.buckets[i as int].detach(),
        ));
        match lane {
            None => fail(Fault::AllLanesInFlight),
            Some(lane) => {
                assert(before@.buckets[i as int].lanes[before@.buckets[i as int].lanes.len()
                    - 1].wf());
                Ok(lane)
            },
        }
    }

    /// Detach a lane of a prepared bucket, to be filled and enqueued. The lanes of dropped runs
    /// are taken back first; those that no bucket took must be leaked.
    pub fn enqueue_prepared(&mut self, id: PreparedBucketId) -> (result: (
        Vec<ServingLane<I, O, INPUTS, OUTPUTS>>,
        Result<ServingLane<I, O, INPUTS, OUTPUTS>, Error>,
    ))
        requires
            old(self).wf(),
        ensures
            final(self).wf(),
            final(self).same_frame(*old(self)),
            result.0@ == reclaim(
                old(self)@.buckets,
                old(self).handles(),
                old(self)@.waiting,
            ).leaked,
            exists|base: Self|
                base@ == old(self)@.reclaimed(old(self).handles()) && base.same_frame(*old(self))
                    && #[trigger] base.lane_detached(id, *final(self), result.1),
            result.1 matches Ok(lane) ==> lane.wf() && lane.at_rest(),
    {
        let (_, leaked) = self.reclaim_dropped_runs();
        let ghost base = *self;
        let lane = self.detach_lane(id);
        assert(base.lane_detached(id, *self, lane));
        (leaked, lane)
    }

    /// `after` and `result` are what giving a detached lane back to its bucket leads to.
    pub open spec fn lane_returned(
        self,
        id: PreparedBucketId,
        lane: ServingLane<I, O, INPUTS, OUTPUTS>,
        after: Self,
        result: Result<(), (Error, Disposal<ServingLane<I, O, INPUTS, OUTPUTS>>)>,
    ) -> bool {
        match self.handles().resolve(id) {
            None => {
                &&& after@ == self@
                &&& result matches Err((error, disposal))
                &&& error == Error::Fault(Fault::BucketRetiredInFlight)
                &&& disposal == (if lane.in_flight() {
                    Disposal::Leak(lane)
                } else {
                    Disposal::Destroy(lane)
                })
            },
            Some(i) => {
                let bucket = self@.buckets[i as int];
                if bucket.detached == 0 || bucket.lanes.len() >= self.spec_setup().lane_count {
                    &&& after@ == self@
                    &&& result == Err::<(), (Error, Disposal<ServingLane<I, O, INPUTS, OUTPUTS>>)>(
                        (Error::Fault(Fault::LaneAccountingInconsistent), Disposal::Leak(lane)),
                    )
                } else {
                    &&& after@ == (RuntimeView {
                        buckets: self@.buckets.update(i as int, bucket.attach(lane)),
                        ..self@
                    })
                    &&& result is Ok
                }
            },
        }
    }

    /// Give a detached lane back to its bucket.
    pub fn return_detached_lane(&mut self, id: PreparedBucketId, lane: ServingLane<I, O, INPUTS, OUTPUTS>) -> (result: Result<
        (),
        (Error, Disposal<ServingLane<I, O, INPUTS, OUTPUTS>>),
    >)
        requires
            old(self).wf(),
            lane.wf(),
            lane.at_rest(),
        ensures
            final(self).wf(),
            final(self).same_frame(*old(self)),
            old(self).lane_returned(id, lane, *final(self), result),
    {
        let i: usize = match self.prepared.bucket_index(id) {
            None => return Err((Error::Fault(Fault::BucketRetiredInFlight), lane.dispose())),
            Some(i) => i,
        };
        if self.buckets[i].detached_lane_count() == 0 || self.buckets[i].lanes().len()
            >= self.setup.lane_count {
            return Err((Error::Fault(Fault::LaneAccountingInconsistent), Disposal::Leak(lane)));
        }
        let ghost before = *self;
        proof {
            let bucket = self@.buckets[i as int];
            assert(bucket.wf());
            assert forall|k: int| 0 <= k < bucket.attach(lane).lanes.len() implies (
            #[trigger] bucket.attach(lane).lanes[k]).wf() && bucket.attach(
                lane,
            ).lanes[k].at_rest() by {
                if k < bucket.lanes.len() {
                    assert(bucket.lanes[k].wf());
                }
            }
            lemma_bucket_changed(self@.buckets, self.prepared, i as int, bucket.attach(lane));
        }
        self.buckets[i].attach(lane);
        assert(self@.buckets =~= before@.buckets.update(
            i as int,
            before@.buckets[i as int].attach(lane),
        ));
        Ok(())
    }

    /// Take the outcome of filling and enqueueing a detached lane: a run that owns it, or the
    /// failure, with the lane where it went back to no bucket.
    pub fn finish_enqueue(&mut self, id: PreparedBucketId, lane: ServingLane<I, O, INPUTS, OUTPUTS>, outcome: EnqueueOutcome) -> (result: Result<
        OwnedDynamicIoRun<I, O, INPUTS, OUTPUTS>,
        (Error, Option<Disposal<ServingLane<I, O, INPUTS, OUTPUTS>>>),
    >)
        requires
            old(self).wf(),
            lane.wf(),
            lane.at_rest(),
        ensures
            final(self).wf(),
            final(self).same_frame(*old(self)),
            match outcome {
                EnqueueOutcome::Queued => {
                    &&& result matches Ok(run)
                    &&& run.held() == lane
                    &&& run.source() == id
                    &&& final(self)@ == old(self)@
                },
                EnqueueOutcome::RunFailed(error) if lane.in_flight() => {
                    &&& result matches Err((failure, disposal))
                    &&& failure == error
                    &&& disposal == Some(Disposal::Leak(lane))
                    &&& final(self)@ == old(self)@
                },
                EnqueueOutcome::PrepareFailed(error) | EnqueueOutcome::RunFailed(error) => {
                    &&& result matches Err((failure, disposal))
                    &&& failure == error
                    &&& exists|returned: Result<(), (Error, Disposal<ServingLane<I, O, INPUTS, OUTPUTS>>)>|
                        #[trigger] old(self).lane_returned(id, lane, *final(self), returned)
                            && disposal == match returned {
                            Ok(()) => None,
                            Err((_, disposal)) => Some(disposal),
                        }
                },
            },
    {
        let error: Error = match outcome {
            EnqueueOutcome::Queued => return Ok(OwnedDynamicIoRun::new(lane, id)),
            EnqueueOutcome::RunFailed(error) => {
                if lane.is_in_flight() {
                    return Err((error, Some(Disposal::Leak(lane))));
                }
                error
            },
            EnqueueOutcome::PrepareFailed(error) => error,
        };
        let returned = self.return_detached_lane(id, lane);
        assert(old(self).lane_returned(id, lane, *self, returned));
        match returned {
            Ok(()) => Err((error, None)),
            Err((_, disposal)) => Err((error, Some(disposal))),
        }
    }

    /// Take a run that was waited for, with what its consumer made of it or the failure of the
    /// wait: what is reported, and the lane where it went back to no bucket.
    pub fn complete_owned<R>(
        &mut self,
        run: OwnedDynamicIoRun<I, O, INPUTS, OUTPUTS>,
        consumed: Result<R, Error>,
    ) -> (result: (Result<R, Error>, Option<Disposal<ServingLane<I, O, INPUTS, OUTPUTS>>>))
        requires
            old(self).wf(),
            run.held().wf(),
            run.held().at_rest(),
        ensures
            final(self).wf(),
            final(self).same_frame(*old(self)),
            if run.held().in_flight() {
                &&& result == (consumed, Some(Disposal::Leak(run.held())))
                &&& final(self)@ == old(self)@
            } else {
                exists|returned: Result<(), (Error, Disposal<ServingLane<I, O, INPUTS, OUTPUTS>>)>|
                    #[trigger] old(self).lane_returned(
                        run.source(),
                        run.held(),
                        *final(self),
                        returned,
                    ) && match returned {
                        Ok(()) => result == (consumed, None::<Disposal<ServingLane<I, O, INPUTS, OUTPUTS>>>),
                        Err((failure, disposal)) => result.1 == Some(disposal) && result.0
                            == match consumed {
                            Err(error) => Err::<R, Error>(error),
                            Ok(_) => Err(failure),
                        },
                    }
            },
    {
        let (lane, id) = run.into_parts();
        if lane.is_in_flight() {
            return (consumed, Some(Disposal::Leak(lane)));
        }
        let ghost held = lane;
        let returned = self.return_detached_lane(id, lane);
        assert(old(self).lane_returned(id, held, *self, returned));
        match returned {
            Ok(()) => (consumed, None),
            Err((failure, disposal)) => match consumed {
                Err(error) => (Err(error), Some(disposal)),
                Ok(_) => (Err(failure), Some(disposal)),
            },
        }
    }

    /// Check that the cache may be cleared: no lane is detached. The lanes of dropped runs are
    /// taken back first; those that no bucket took must be leaked. What is left pending is to be
    /// waited for before [`Self::clear_buckets`].
    pub fn start_clear(&mut self) -> (result: (Vec<ServingLane<I, O, INPUTS, OUTPUTS>>, Result<(), Error>))
        requires
            old(self).wf(),
        ensures
            final(self).wf(),
            final(self).same_frame(*old(self)),
            result.0@ == reclaim(
                old(self)@.buckets,
                old(self).handles(),
                old(self)@.waiting,
            ).leaked,
            ({
                let base = old(self)@.reclaimed(old(self).handles());
                if none_detached(base.buckets) {
                    result.1 is Ok && final(self)@ == (RuntimeView { hot: None, ..base })
                } else {
                    result.1 == Err::<(), Error>(Error::Fault(Fault::ClearWhileInFlight))
                        && final(self)@ == base
                }
            }),
    {
        let (_, leaked) = self.reclaim_dropped_runs();
        let mut detached: bool = false;
        let mut i: usize = 0;
        while i < self.buckets.len()
            invariant
                i <= self.buckets@.len(),
                detached == (exists|k: int|
                    0 <= k < i && (#[trigger] self@.buckets[k]).detached != 0),
            decreases self.buckets@.len() - i,
        {
            if self.buckets[i].detached_lane_count() != 0 {
                assert(self@.buckets[i as int].detached != 0);
                detached = true;
            }
            i = i + 1;
        }
        if detached {
            return (leaked, fail(Fault::ClearWhileInFlight));
        }
        self.hot_bucket = None;
        (leaked, Ok(()))
    }

    /// Drop the retired buckets, after the release of their captured graphs was waited for.
    pub fn clear_retired(&mut self)
        requires
            old(self).wf(),
        ensures
            final(self).wf(),
            final(self).same_frame(*old(self)),
            final(self)@ == (RuntimeView { retired: Seq::empty(), ..old(self)@ }),
    {
        self.retired_buckets = Vec::new();
        assert(self@.retired =~= Seq::empty());
    }

    /// Empty the cache: every handle is taken back, the buckets with pending work must be leaked,
    /// and the captured graphs of the others, if they miss no lane, are to be released.
    pub fn clear_buckets(&mut self) -> (drained: Drained<I, O, INPUTS, OUTPUTS>)
        requires
            old(self).wf(),
        ensures
            final(self).wf(),
            final(self).spec_setup() == old(self).spec_setup(),
            final(self)@ == (RuntimeView { buckets: Seq::empty(), ..old(self)@ }),
            forall|id: PreparedBucketId|
                old(self).handles().stale(id) ==> #[trigger] final(self).handles().stale(id),
            forall|i: int|
                0 <= i < old(self)@.buckets.len() ==> final(self).handles().stale(
                    (#[trigger] old(self)@.buckets[i]).id,
                ),
            drained.graph_ids@ == released_graphs(old(self)@.buckets),
            views(drained.leaked@) == unfenced(old(self)@.buckets),
    {
        let ghost all = self@.buckets;
        let ghost before = *self;
        let mut graph_ids: Vec<i32> = Vec::new();
        let mut leaked: Vec<ShapeBucket<I, O, INPUTS, OUTPUTS>> = Vec::new();
        let mut buckets: Vec<ShapeBucket<I, O, INPUTS, OUTPUTS>> = Vec::new();
        core::mem::swap(&mut buckets, &mut self.buckets);
        assert(views(buckets@) =~= all);
        let mut i: usize = 0;
        while i < buckets.len()
            invariant
                i <= buckets@.len(),
                views(buckets@) == all,
                all == before@.buckets,
                before.wf(),
                self.prepared.wf(),
                self.buckets@ == Seq::<ShapeBucket<I, O, INPUTS, OUTPUTS>>::empty(),
                self.retired_buckets == before.retired_buckets,
                self.recovery == before.recovery,
                self.setup == before.setup,
                self.hot_bucket == before.hot_bucket,
                self.tick == before.tick,
                self.wrapped == before.wrapped,
                forall|k: int|
                    0 <= k < i ==> self.prepared.stale((#[trigger] all[k]).id),
                forall|k: int|
                    i <= k < all.len() ==> self.prepared.resolve((#[trigger] all[k]).id) == Some(
                        k as usize,
                    ),
                forall|id: PreparedBucketId|
                    (#[trigger] self.prepared.resolve(id)) is Some ==> {
                        &&& before.prepared.resolve(id) == self.prepared.resolve(id)
                        &&& self.prepared.resolve(id)->Some_0 >= i
                    },
                forall|id: PreparedBucketId|
                    before.prepared.stale(id) ==> #[trigger] self.prepared.stale(id),
            decreases buckets@.len() - i,
        {
            let id: PreparedBucketId = buckets[i].id();
            proof {
                assert(all[i as int].id == id);
                lemma_resolved_is_issued(self.prepared, id);
            }
            let ghost held = self.prepared;
            self.prepared.retire(id);
            proof {
                assert forall|k: int| 0 <= k < i + 1 implies self.prepared.stale(
                    (#[trigger] all[k]).id,
                ) by {
                    if k == i {
                        assert(self.prepared.issued(id) == held.issued(id));
                        assert(self.prepared.resolve(id) is None);
                    } else {
                        assert(held.stale(all[k].id));
                    }
                }
                assert forall|k: int| i + 1 <= k < all.len() implies self.prepared.resolve(
                    (#[trigger] all[k]).id,
                ) == Some(k as usize) by {
                    assert(held.resolve(all[k].id) == Some(k as usize));
                    assert(held.resolve(all[i as int].id) == Some(i));
                }
                assert forall|other: PreparedBucketId|
                    (#[trigger] self.prepared.resolve(other)) is Some implies {
                    &&& before.prepared.resolve(other) == self.prepared.resolve(other)
                    &&& self.prepared.resolve(other)->Some_0 >= i + 1
                } by {
                    assert(held.resolve(other) == self.prepared.resolve(other));
                    let j = held.resolve(other)->Some_0;
                    assert(before.prepared.resolve(other) == Some(j));
                    assert(before@.buckets[j as int].id == other);
                }
                assert forall|other: PreparedBucketId|
                    before.prepared.stale(other) implies #[trigger] self.prepared.stale(other) by {
                    assert(held.stale(other));
                }
            }
            i = i + 1;
        }
        proof {
            assert forall|id: PreparedBucketId| (#[trigger] self.prepared.resolve(id)) is None by {
                if self.prepared.resolve(id) is Some {
                    let j = self.prepared.resolve(id)->Some_0;
                    assert(before.prepared.resolve(id) == Some(j));
                    assert(j < before@.buckets.len());
                }
            }
            assert(self@.buckets =~= Seq::empty());
        }
        proof {
            assert(all.skip(0) =~= all);
            assert(views(leaked@) + unfenced(all.skip(0)) =~= unfenced(all));
            assert(graph_ids@ + released_graphs(all.skip(0)) =~= released_graphs(all));
        }
        let ghost mut done: int = 0;
        while buckets.len() > 0
            invariant
                0 <= done <= all.len(),
                views(buckets@) == all.skip(done),
                views(leaked@) + unfenced(all.skip(done)) == unfenced(all),
                graph_ids@ + released_graphs(all.skip(done)) == released_graphs(all),
            decreases buckets@.len(),
        {
            let ghost rest = all.skip(done);
            let ghost held = buckets@;
            let bucket = buckets.remove(0);
            proof {
                assert(held[0]@ == rest[0]);
                assert(bucket@ == rest[0]);
                assert(rest.skip(1) =~= all.skip(done + 1));
                assert(rest.drop_first() =~= all.skip(done + 1));
                assert(views(buckets@) =~= all.skip(done + 1));
            }
            if bucket.in_flight() > 0 {
                let ghost earlier = leaked@;
                leaked.push(bucket);
                proof {
                    assert(views(leaked@) =~= views(earlier).push(rest[0]));
                    assert(views(leaked@) + unfenced(all.skip(done + 1)) =~= views(earlier)
                        + unfenced(rest));
                    assert(released_graphs(rest) =~= released_graphs(all.skip(done + 1)));
                }
            } else if bucket.detached_lane_count() == 0 {
                if let Some(graph_id) = bucket.graph_id() {
                    let ghost earlier = graph_ids@;
                    graph_ids.push(graph_id);
                    proof {
                        assert(graph_ids@ + released_graphs(all.skip(done + 1)) =~= earlier
                            + released_graphs(rest));
                    }
                }
            }
            proof {
                done = done + 1;
            }
        }
        proof {
            assert(all.skip(done).len() == 0);
            assert(views(leaked@) =~= unfenced(all));
            assert(graph_ids@ =~= released_graphs(all));
        }
        Drained { graph_ids, leaked }
    }
}

/// How filling and enqueueing a detached lane ended.
#[derive(Debug, PartialEq, Eq)]
pub enum EnqueueOutcome {
    /// The run is queued.
    Queued,
    /// Filling the inputs failed.
    PrepareFailed(Error),
    /// The run failed, and what it may have left was waited for as far as possible.
    RunFailed(Error),
}

/// What emptying the cache leaves to be done.
#[derive(Debug)]
pub struct Drained<I: TensorElement, O: TensorElement, const INPUTS: usize, const OUTPUTS: usize> {
    /// The captured graphs that are to be released.
    pub graph_ids: Vec<i32>,
    /// The buckets that must be leaked.
    pub leaked: Vec<ShapeBucket<I, O, INPUTS, OUTPUTS>>,
}

impl<I: TensorElement, O: TensorElement, const INPUTS: usize, const OUTPUTS: usize> Drained<
    I,
    O,
    INPUTS,
    OUTPUTS,
> {
    /// What clearing the cache reports.
    pub fn report(&self) -> (result: Result<(), Error>)
        ensures
            if self.leaked@.len() == 0 {
                result is Ok
            } else {
                result == Err::<(), Error>(Error::Fault(Fault::ClearUnfenced))
            },
    {
        if self.leaked.len() == 0 {
            Ok(())
        } else {
            fail(Fault::ClearUnfenced)
        }
    }
}

/// The buckets with pending work, in order.
pub open spec fn unfenced<
    I: TensorElement,
    O: TensorElement,
    const INPUTS: usize,
    const OUTPUTS: usize,
>(buckets: Seq<BucketView<I, O, INPUTS, OUTPUTS>>) -> Seq<BucketView<I, O, INPUTS, OUTPUTS>>
    decreases buckets.len(),
{
    if buckets.len() == 0 {
        Seq::empty()
    } else if buckets[0].any_in_flight() {
        seq![buckets[0]] + unfenced(buckets.drop_first())
    } else {
        unfenced(buckets.drop_first())
    }
}

/// The captured graphs of the buckets without pending work and without detached lanes, in order.
pub open spec fn released_graphs<
    I: TensorElement,
    O: TensorElement,
    const INPUTS: usize,
    const OUTPUTS: usize,
>(buckets: Seq<BucketView<I, O, INPUTS, OUTPUTS>>) -> Seq<i32>
    decreases buckets.len(),
{
    if buckets.len() == 0 {
        Seq::empty()
    } else {
        let rest = released_graphs(buckets.drop_first());
        if !buckets[0].any_in_flight() && buckets[0].detached == 0 && buckets[0].graph_id is Some {
            seq![buckets[0].graph_id->Some_0] + rest
        } else {
            rest
        }
    }
}

/// No bucket has a detached lane.
pub open spec fn none_detached<
    I: TensorElement,
    O: TensorElement,
    const INPUTS: usize,
    const OUTPUTS: usize,
>(buckets: Seq<BucketView<I, O, INPUTS, OUTPUTS>>) -> bool {
    forall|i: int| 0 <= i < buckets.len() ==> (#[trigger] buckets[i]).detached == 0
}

/// A shape has at most one bucket.
pub proof fn one_bucket_per_shape<
    I: TensorElement,
    O: TensorElement,
    const INPUTS: usize,
    const OUTPUTS: usize,
>(
    runtime: DynamicIoRuntime<I, O, INPUTS, OUTPUTS>,
    inputs: Seq<Seq<i64>>,
    outputs: Seq<Seq<i64>>,
    i: int,
    j: int,
)
    requires
        runtime.wf(),
        runtime@.is_bucket(i, inputs, outputs),
        runtime@.is_bucket(j, inputs, outputs),
    ensures
        i == j,
{
    let buckets = runtime@.buckets;
    if i < j {
        assert(!buckets[i].key.selects(buckets[j].key.inputs(), buckets[j].key.outputs()));
    } else if j < i {
        assert(!buckets[j].key.selects(buckets[i].key.inputs(), buckets[i].key.outputs()));
    }
}

/// The cache never holds more buckets than its options allow.
pub proof fn cache_is_bounded<
    I: TensorElement,
    O: TensorElement,
    const INPUTS: usize,
    const OUTPUTS: usize,
>(runtime: DynamicIoRuntime<I, O, INPUTS, OUTPUTS>)
    requires
        runtime.wf(),
    ensures
        runtime@.buckets.len() <= runtime.spec_setup().options.max_buckets,
{
}

/// The setup of a runtime is sound.
pub(crate) proof fn lemma_setup_fits<
    I: TensorElement,
    O: TensorElement,
    const INPUTS: usize,
    const OUTPUTS: usize,
>(runtime: DynamicIoRuntime<I, O, INPUTS, OUTPUTS>)
    requires
        runtime.wf(),
    ensures
        runtime.spec_setup().wf(INPUTS, OUTPUTS),
{
}

/// The handles of a runtime resolve to the buckets that bear them.
pub(crate) proof fn lemma_handles_resolve<
    I: TensorElement,
    O: TensorElement,
    const INPUTS: usize,
    const OUTPUTS: usize,
>(runtime: DynamicIoRuntime<I, O, INPUTS, OUTPUTS>)
    requires
        runtime.wf(),
    ensures
        handles_resolve(runtime@.buckets, runtime.handles()),
{
}

/// A handle resolves to the bucket that bears it and to no other, wherever the bucket has moved.
pub proof fn handles_name_their_buckets<
    I: TensorElement,
    O: TensorElement,
    const INPUTS: usize,
    const OUTPUTS: usize,
>(
    runtime: DynamicIoRuntime<I, O, INPUTS, OUTPUTS>,
    id: PreparedBucketId,
    i: int,
)
    requires
        runtime.wf(),
        0 <= i < runtime@.buckets.len(),
    ensures
        runtime@.buckets[i].id == id <==> runtime.handles().resolve(id) == Some(i as usize),
{
    assert(runtime.handles().resolve(runtime@.buckets[i].id) == Some(i as usize));
}

/// Reclaiming the lanes of dropped runs loses none: every waiting lane came back to its bucket or
/// is handed out.
pub proof fn reclaim_loses_no_lane<
    I: TensorElement,
    O: TensorElement,
    const INPUTS: usize,
    const OUTPUTS: usize,
>(
    buckets: Seq<BucketView<I, O, INPUTS, OUTPUTS>>,
    handles: PreparedSlots,
    waiting: Seq<(usize, RecoveredDynamicLane<I, O, INPUTS, OUTPUTS>)>,
)
    ensures
        reclaim(buckets, handles, waiting).count + reclaim(buckets, handles, waiting).leaked.len()
            == waiting.len(),
    decreases waiting.len(),
{
    if waiting.len() > 0 {
        let recovered = waiting.last().1;
        match receive(buckets, handles, recovered) {
            None => reclaim_loses_no_lane(buckets, handles, waiting.drop_last()),
            Some(after) => reclaim_loses_no_lane(after, handles, waiting.drop_last()),
        }
    }
}

/// Reclaiming the lanes of dropped runs keeps every bucket's number of lanes, detached ones
/// included, and its handle, its shapes and its captured graph.
pub proof fn reclaim_keeps_accounting<
    I: TensorElement,
    O: TensorElement,
    const INPUTS: usize,
    const OUTPUTS: usize,
>(
    buckets: Seq<BucketView<I, O, INPUTS, OUTPUTS>>,
    handles: PreparedSlots,
    waiting: Seq<(usize, RecoveredDynamicLane<I, O, INPUTS, OUTPUTS>)>,
    i: int,
)
    requires
        handles_resolve(buckets, handles),
        0 <= i < buckets.len(),
    ensures
        ({
            let after = reclaim(buckets, handles, waiting).buckets;
            &&& after.len() == buckets.len()
            &&& after[i].lanes.len() + after[i].detached == buckets[i].lanes.len()
                + buckets[i].detached
            &&& after[i].id == buckets[i].id
            &&& after[i].key == buckets[i].key
            &&& after[i].graph_id == buckets[i].graph_id
            &&& after[i].last_used == buckets[i].last_used
        }),
    decreases waiting.len(),
{
    if waiting.len() > 0 {
        let recovered = waiting.last().1;
        match receive(buckets, handles, recovered) {
            None => reclaim_keeps_accounting(buckets, handles, waiting.drop_last(), i),
            Some(after) => {
                let k = handles.resolve(recovered.bucket_id)->Some_0 as int;
                assert(k < buckets.len());
                assert forall|j: int| 0 <= j < after.len() implies handles.resolve(
                    (#[trigger] after[j]).id,
                ) == Some(j as usize) by {
                    assert(after[j].id == buckets[j].id);
                }
                assert forall|id: PreparedBucketId| (#[trigger] handles.resolve(id)) is Some implies
                    handles.resolve(id)->Some_0 < after.len()
                    && after[handles.resolve(id)->Some_0 as int].id == id by {
                    let j = handles.resolve(id)->Some_0 as int;
                    assert(buckets[j].id == id);
                    assert(after[j].id == buckets[j].id);
                }
                reclaim_keeps_accounting(after, handles, waiting.drop_last(), i);
            },
        }
    }
}

/// Until the count of accesses starts over, no bucket was accessed later than the count says.
pub proof fn stamps_follow_the_count<
    I: TensorElement,
    O: TensorElement,
    const INPUTS: usize,
    const OUTPUTS: usize,
>(runtime: DynamicIoRuntime<I, O, INPUTS, OUTPUTS>, i: int)
    requires
        runtime.wf(),
        !runtime@.wrapped,
        0 <= i < runtime@.buckets.len(),
    ensures
        runtime@.buckets[i].last_used <= runtime@.tick,
{
}

/// The buckets, after the lanes of dropped runs came back, are as many, for the same shapes, and
/// were accessed when they were.
proof fn lemma_reclaimed_stamps<
    I: TensorElement,
    O: TensorElement,
    const INPUTS: usize,
    const OUTPUTS: usize,
>(runtime: DynamicIoRuntime<I, O, INPUTS, OUTPUTS>)
    requires
        runtime.wf(),
    ensures
        ({
            let base = runtime@.reclaimed(runtime.handles());
            &&& base.buckets.len() == runtime@.buckets.len()
            &&& !runtime@.wrapped ==> stamps_fit(base.buckets, runtime@.tick)
        }),
{
    let base = runtime@.reclaimed(runtime.handles());
    if runtime@.buckets.len() > 0 {
        reclaim_keeps_accounting(runtime@.buckets, runtime.handles(), runtime@.waiting, 0);
    } else {
        lemma_reclaim_nothing(runtime@.buckets, runtime.handles(), runtime@.waiting);
    }
    assert forall|i: int| 0 <= i < base.buckets.len() && !runtime@.wrapped implies (
    #[trigger] base.buckets[i]).last_used <= runtime@.tick by {
        reclaim_keeps_accounting(runtime@.buckets, runtime.handles(), runtime@.waiting, i);
        assert(runtime@.buckets[i].last_used <= runtime@.tick);
    }
}

proof fn lemma_reclaim_nothing<
    I: TensorElement,
    O: TensorElement,
    const INPUTS: usize,
    const OUTPUTS: usize,
>(
    buckets: Seq<BucketView<I, O, INPUTS, OUTPUTS>>,
    handles: PreparedSlots,
    waiting: Seq<(usize, RecoveredDynamicLane<I, O, INPUTS, OUTPUTS>)>,
)
    requires
        handles_resolve(buckets, handles),
        buckets.len() == 0,
    ensures
        reclaim(buckets, handles, waiting).buckets == buckets,
    decreases waiting.len(),
{
    if waiting.len() > 0 {
        assert(receive(buckets, handles, waiting.last().1) is None);
        lemma_reclaim_nothing(buckets, handles, waiting.drop_last());
    }
}

/// Bucket `i` was accessed later than every other one.
pub open spec fn is_latest<
    I: TensorElement,
    O: TensorElement,
    const INPUTS: usize,
    const OUTPUTS: usize,
>(buckets: Seq<BucketView<I, O, INPUTS, OUTPUTS>>, i: int) -> bool {
    &&& 0 <= i < buckets.len()
    &&& forall|j: int|
        0 <= j < buckets.len() && j != i ==> (#[trigger] buckets[j]).last_used
            < buckets[i].last_used
}

/// A request that finds its bucket makes it the one that was accessed last. No bucket is added or
/// dropped, and no other one changes, but for the lanes of dropped runs that come back.
pub proof fn hits_refresh_their_bucket<
    I: TensorElement,
    O: TensorElement,
    const INPUTS: usize,
    const OUTPUTS: usize,
>(
    before: DynamicIoRuntime<I, O, INPUTS, OUTPUTS>,
    inputs: Seq<Seq<i64>>,
    outputs: Seq<Seq<i64>>,
    allow_create: bool,
    after: RuntimeView<I, O, INPUTS, OUTPUTS>,
    i: usize,
)
    requires
        before.wf(),
        !before@.wrapped,
        before@.tick < u64::MAX,
        before@.reclaimed(before.handles()).looked_up(
            before.spec_setup(),
            inputs,
            outputs,
            allow_create,
            after,
            Ok(Lookup::Hit(i)),
        ),
    ensures
        after.is_bucket(i as int, inputs, outputs),
        is_latest(after.buckets, i as int),
        after.buckets.len() == before@.buckets.len(),
        after.buckets.len() <= before.spec_setup().options.max_buckets,
        after.buckets == before@.reclaimed(before.handles()).buckets.update(
            i as int,
            after.buckets[i as int],
        ),
{
    lemma_reclaimed_stamps(before);
}

/// A request that is refused adds and drops no bucket; one without a bucket is refused where none
/// may be created.
pub proof fn refusals_keep_the_buckets<
    I: TensorElement,
    O: TensorElement,
    const INPUTS: usize,
    const OUTPUTS: usize,
>(
    before: DynamicIoRuntime<I, O, INPUTS, OUTPUTS>,
    inputs: Seq<Seq<i64>>,
    outputs: Seq<Seq<i64>>,
    allow_create: bool,
    after: RuntimeView<I, O, INPUTS, OUTPUTS>,
    result: Result<Lookup, Error>,
)
    requires
        before.wf(),
        before@.reclaimed(before.handles()).looked_up(
            before.spec_setup(),
            inputs,
            outputs,
            allow_create,
            after,
            result,
        ),
    ensures
        result is Err ==> after.buckets == before@.reclaimed(before.handles()).buckets,
        !allow_create && !before@.has_bucket(inputs, outputs) ==> result is Err,
        after.buckets.len() == before@.buckets.len(),
{
    lemma_reclaimed_stamps(before);
    let base = before@.reclaimed(before.handles());
    if base.has_bucket(inputs, outputs) {
        let i = choose|i: int| #[trigger] base.is_bucket(i, inputs, outputs);
        reclaim_keeps_accounting(before@.buckets, before.handles(), before@.waiting, i);
        assert(before@.is_bucket(i, inputs, outputs));
    }
}

/// `after` is the cache once the lanes of bucket `v` were waited for.
pub open spec fn fenced<
    I: TensorElement,
    O: TensorElement,
    const INPUTS: usize,
    const OUTPUTS: usize,
>(
    before: RuntimeView<I, O, INPUTS, OUTPUTS>,
    v: int,
    after: RuntimeView<I, O, INPUTS, OUTPUTS>,
) -> bool {
    &&& after == (RuntimeView {
        buckets: before.buckets.update(v, after.buckets[v]),
        ..before
    })
    &&& after.buckets[v].detached == before.buckets[v].detached
}

/// A request that misses gets a bucket of its own, which is then the one that was accessed last,
/// and the cache stays bounded. Where there was room, every other bucket stays as it was. Where
/// there was none, exactly one is dropped: of those without a detached lane, the one that was
/// accessed least recently.
///
/// From `before`, the lookup leads to `missed`, waiting for the bucket to evict to `waited`, the
/// eviction to `roomy`, and putting the new lanes into the cache to `after`.
pub proof fn misses_replace_the_least_recent_bucket<
    I: TensorElement,
    O: TensorElement,
    const INPUTS: usize,
    const OUTPUTS: usize,
>(
    before: DynamicIoRuntime<I, O, INPUTS, OUTPUTS>,
    inputs: Seq<Seq<i64>>,
    outputs: Seq<Seq<i64>>,
    allow_create: bool,
    missed: DynamicIoRuntime<I, O, INPUTS, OUTPUTS>,
    evict: Option<usize>,
    waited: DynamicIoRuntime<I, O, INPUTS, OUTPUTS>,
    retirement: Retirement<I, O, INPUTS, OUTPUTS>,
    roomy: DynamicIoRuntime<I, O, INPUTS, OUTPUTS>,
    lanes: Seq<ServingLane<I, O, INPUTS, OUTPUTS>>,
    graph_id: Option<i32>,
    after: DynamicIoRuntime<I, O, INPUTS, OUTPUTS>,
    place: usize,
)
    requires
        before.wf(),
        !before@.wrapped,
        before@.tick < u64::MAX,
        before@.reclaimed(before.handles()).looked_up(
            before.spec_setup(),
            inputs,
            outputs,
            allow_create,
            missed@,
            Ok(Lookup::Miss(evict)),
        ),
        match evict {
            Some(v) => fenced(missed@, v as int, waited@) && waited.retired_at(
                v as int,
                roomy,
                retirement,
            ),
            None => roomy@ == missed@,
        },
        roomy.installed(inputs, outputs, lanes, graph_id, after, Ok(place)),
    ensures
        after@.is_bucket(place as int, inputs, outputs),
        is_latest(after@.buckets, place as int),
        after@.buckets.len() <= before.spec_setup().options.max_buckets,
        ({
            let base = before@.reclaimed(before.handles()).buckets;
            match evict {
                None => {
                    &&& base.len() < before.spec_setup().options.max_buckets
                    &&& after@.buckets.drop_last() == base
                },
                Some(v) => {
                    &&& base.len() == before.spec_setup().options.max_buckets
                    &&& !before.spec_setup().options.cuda_graph
                    &&& is_victim(base, v as int)
                    &&& after@.buckets.drop_last() == swap_removed(base, v as int)
                },
            }
        }),
{
    lemma_reclaimed_stamps(before);
    let base = before@.reclaimed(before.handles()).buckets;
    assert(missed@.buckets == base);
    assert(roomy.handles().next_id() is Some);
    match evict {
        None => {},
        Some(v) => {
            assert(waited@.buckets[v as int].detached == 0);
            assert(roomy@.buckets =~= swap_removed(base, v as int));
        },
    }
    assert(roomy@.tick == before@.tick);
    assert forall|j: int| 0 <= j < roomy@.buckets.len() implies (#[trigger] roomy@.buckets[j]).last_used
        <= before@.tick by {
        match evict {
            None => {
                assert(base[j].last_used <= before@.tick);
            },
            Some(v) => {
                let from = if j == v { base.len() - 1 } else { j };
                assert(roomy@.buckets[j] == base[from]);
                assert(base[from].last_used <= before@.tick);
            },
        }
    }
    assert(place == roomy@.buckets.len());
    assert(after@.buckets.drop_last() == roomy@.buckets);
    assert forall|j: int| 0 <= j < after@.buckets.len() && j != place implies (
    #[trigger] after@.buckets[j]).last_used < after@.buckets[place as int].last_used by {
        assert(after@.buckets.drop_last()[j] == after@.buckets[j]);
        assert(roomy@.buckets[j].last_used <= before@.tick);
    }
}

/// Giving a lane back undoes detaching it: the buckets are what they were.
pub proof fn return_undoes_detach<
    I: TensorElement,
    O: TensorElement,
    const INPUTS: usize,
    const OUTPUTS: usize,
>(
    before: DynamicIoRuntime<I, O, INPUTS, OUTPUTS>,
    detached: DynamicIoRuntime<I, O, INPUTS, OUTPUTS>,
    after: DynamicIoRuntime<I, O, INPUTS, OUTPUTS>,
    id: PreparedBucketId,
    lane: ServingLane<I, O, INPUTS, OUTPUTS>,
    result: Result<(), (Error, Disposal<ServingLane<I, O, INPUTS, OUTPUTS>>)>,
)
    requires
        before.wf(),
        detached.same_frame(before),
        before.lane_detached(id, detached, Ok(lane)),
        detached.lane_returned(id, lane, after, result),
    ensures
        result is Ok,
        after@.buckets == before@.buckets,
{
    let i = before.handles().resolve(id)->Some_0 as int;
    let bucket = before@.buckets[i];
    assert(i < before@.buckets.len());
    crate::runtime::bucket::attach_undoes_detach(bucket);
    assert(detached@.buckets[i] == bucket.detach());
    assert(after@.buckets =~= before@.buckets);
}

/// What becomes of a bucket that is taken out of the cache.
#[derive(Debug)]
pub enum Retirement<I: TensorElement, O: TensorElement, const INPUTS: usize, const OUTPUTS: usize> {
    /// It has detached lanes and stays.
    Refused,
    /// Provider work may still reach its resources: never free them.
    Leaked(ShapeBucket<I, O, INPUTS, OUTPUTS>),
    /// Nothing is pending: destroy it.
    Dropped(ShapeBucket<I, O, INPUTS, OUTPUTS>),
    /// It waits for the release of its captured graph, which is to be asked for.
    Releasing(i32),
}

impl<I: TensorElement, O: TensorElement, const INPUTS: usize, const OUTPUTS: usize> Retirement<
    I,
    O,
    INPUTS,
    OUTPUTS,
> {
    /// Where the bucket made room for another one: it is a fault that it stayed.
    pub fn evicted(&self) -> (result: Result<(), Error>)
        ensures
            match self {
                Retirement::Refused => result == Err::<(), Error>(
                    Error::Fault(Fault::EvictionRefused),
                ),
                _ => result == Ok::<(), Error>(()),
            },
    {
        match self {
            Retirement::Refused => fail(Fault::EvictionRefused),
            _ => Ok(()),
        }
    }
}

/// A sequence without element `i`, in whose place the last one stands.
pub open spec fn swap_removed<T>(items: Seq<T>, i: int) -> Seq<T> {
    items.update(i, items.last()).drop_last()
}

/// A handle that resolves was given out.
proof fn lemma_resolved_is_issued(handles: PreparedSlots, id: PreparedBucketId)
    requires
        handles.wf(),
        handles.resolve(id) is Some,
    ensures
        handles.issued(id),
{
    assert(handles.table()[id.slot as int].generation >= 1);
    if handles.free_slots().contains(id.slot) {
        let i = choose|i: int|
            0 <= i < handles.free_slots().len() && handles.free_slots()[i] == id.slot;
        assert(handles.table()[handles.free_slots()[i] as int].bucket_index is None);
    }
}

/// Taking a bucket out keeps what holds of the others, once the moved bucket's handle follows it.
proof fn lemma_swap_removed<
    I: TensorElement,
    O: TensorElement,
    const INPUTS: usize,
    const OUTPUTS: usize,
>(buckets: Seq<BucketView<I, O, INPUTS, OUTPUTS>>, before: PreparedSlots, after: PreparedSlots, index: int)
    requires
        buckets.len() <= usize::MAX,
        handles_resolve(buckets, before),
        distinct_shapes(buckets),
        forall|k: int| 0 <= k < buckets.len() ==> (#[trigger] buckets[k]).wf(),
        0 <= index < buckets.len(),
        forall|id: PreparedBucketId| #[trigger]
            after.resolve(id) == (if index < buckets.len() - 1 && id == buckets.last().id {
                Some(index as usize)
            } else if id == buckets[index].id {
                None
            } else {
                before.resolve(id)
            }),
    ensures
        handles_resolve(swap_removed(buckets, index), after),
        distinct_shapes(swap_removed(buckets, index)),
        forall|k: int|
            0 <= k < buckets.len() - 1 ==> (#[trigger] swap_removed(buckets, index)[k]).wf(),
{
    let rest = swap_removed(buckets, index);
    let last = buckets.len() - 1;
    assert(before.resolve(buckets[index].id) == Some(index as usize));
    assert(before.resolve(buckets[last].id) == Some(last as usize));
    assert forall|k: int| 0 <= k < rest.len() implies after.resolve((#[trigger] rest[k]).id) == Some(
        k as usize,
    ) by {
        if k == index {
            assert(rest[k] == buckets[last]);
        } else {
            assert(rest[k] == buckets[k]);
            assert(before.resolve(buckets[k].id) == Some(k as usize));
        }
    }
    assert forall|id: PreparedBucketId| (#[trigger] after.resolve(id)) is Some implies after.resolve(
        id,
    )->Some_0 < rest.len() && rest[after.resolve(id)->Some_0 as int].id == id by {
        let i = after.resolve(id)->Some_0 as int;
        if index < last && id == buckets[last].id {
            assert(rest[index] == buckets[last]);
        } else {
            assert(before.resolve(id) == Some(i as usize));
            assert(buckets[i].id == id);
            assert(rest[i] == buckets[i]);
        }
    }
    assert forall|i: int, j: int| 0 <= i < j < rest.len() implies !(#[trigger] rest[i]).key.selects(
        (#[trigger] rest[j]).key.inputs(),
        rest[j].key.outputs(),
    ) by {
        let a = if i == index {
            last
        } else {
            i
        };
        let b = if j == index {
            last
        } else {
            j
        };
        assert(rest[i] == buckets[a] && rest[j] == buckets[b]);
        if a < b {
            assert(!buckets[a].key.selects(buckets[b].key.inputs(), buckets[b].key.outputs()));
        } else {
            assert(!buckets[b].key.selects(buckets[a].key.inputs(), buckets[a].key.outputs()));
        }
    }
    assert forall|k: int| 0 <= k < buckets.len() - 1 implies (#[trigger] rest[k]).wf() by {
        if k == index {
            assert(buckets[last].wf());
        } else {
            assert(buckets[k].wf());
        }
    }
}

/// Adding a bucket of a new shape under a new handle keeps what holds of the others.
proof fn lemma_bucket_added<
    I: TensorElement,
    O: TensorElement,
    const INPUTS: usize,
    const OUTPUTS: usize,
>(
    state: RuntimeView<I, O, INPUTS, OUTPUTS>,
    before: PreparedSlots,
    after: PreparedSlots,
    added: BucketView<I, O, INPUTS, OUTPUTS>,
    inputs: Seq<Seq<i64>>,
    outputs: Seq<Seq<i64>>,
)
    requires
        state.buckets.len() < usize::MAX,
        before.wf(),
        handles_resolve(state.buckets, before),
        distinct_shapes(state.buckets),
        forall|k: int| 0 <= k < state.buckets.len() ==> (#[trigger] state.buckets[k]).wf(),
        !state.has_bucket(inputs, outputs),
        added.key.selects(inputs, outputs),
        added.wf(),
        !before.issued(added.id),
        forall|id: PreparedBucketId| #[trigger]
            after.resolve(id) == (if id == added.id {
                Some(state.buckets.len() as usize)
            } else {
                before.resolve(id)
            }),
    ensures
        handles_resolve(state.buckets.push(added), after),
        distinct_shapes(state.buckets.push(added)),
        forall|k: int|
            0 <= k <= state.buckets.len() ==> (#[trigger] state.buckets.push(added)[k]).wf(),
{
    let buckets = state.buckets;
    let all = buckets.push(added);
    assert forall|k: int| 0 <= k < all.len() implies after.resolve((#[trigger] all[k]).id) == Some(
        k as usize,
    ) by {
        if k < buckets.len() {
            assert(before.resolve(buckets[k].id) == Some(k as usize));
            lemma_resolved_is_issued(before, buckets[k].id);
        }
    }
    assert forall|id: PreparedBucketId| (#[trigger] after.resolve(id)) is Some implies after.resolve(
        id,
    )->Some_0 < all.len() && all[after.resolve(id)->Some_0 as int].id == id by {
        if id != added.id {
            assert(before.resolve(id) is Some);
        }
    }
    assert forall|i: int, j: int| 0 <= i < j < all.len() implies !(#[trigger] all[i]).key.selects(
        (#[trigger] all[j]).key.inputs(),
        all[j].key.outputs(),
    ) by {
        if j == buckets.len() {
            assert(!state.is_bucket(i, inputs, outputs));
        } else {
            assert(!buckets[i].key.selects(buckets[j].key.inputs(), buckets[j].key.outputs()));
        }
    }
}

proof fn lemma_plan_fault_frame(
    left: RuntimeSetup,
    right: RuntimeSetup,
    plan: ServingShapePlan,
    inputs: usize,
    outputs: usize,
    n: int,
)
    requires
        left.options == right.options,
    ensures
        left.plan_fault(plan, inputs, outputs, n) == right.plan_fault(plan, inputs, outputs, n),
    decreases n,
{
    if n > 0 {
        lemma_plan_fault_frame(left, right, plan, inputs, outputs, n - 1);
    }
}

} // verus!
