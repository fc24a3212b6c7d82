//! What the cache of buckets keeps.
use vstd::prelude::*;

use crate::element::TensorElement;
use crate::error::{Error, Fault};
use crate::runtime::bucket::BucketView;
use crate::runtime::dynamic::{
    DynamicIoRuntime, DynamicSessions, Lookup, RetiredShapeBucket, Retirement, RuntimeSetup,
    RuntimeView,
};
use crate::runtime::lane::ServingLane;
use crate::runtime::options::{DynamicIoOptions, RuntimeMode};
use crate::runtime::owned_run::{Disposal, PreparedBucketId, RecoveredDynamicLane};
use crate::runtime::prepared::PreparedSlots;
use crate::runtime::static_io::{SetCalls, StaticIoRuntime};
use crate::shape_plan::{ClassifyError, OutputPolicy, ServingShapePlan, ShapeId};

verus! {

/// Without a plan every request is served, but where graphs are captured. With a plan those and only those
/// are that are one of its shapes, in the inputs and in the outputs. `result` is what the plan says of the
/// inputs.
pub proof fn requests_are_those_of_the_plan(
    setup: RuntimeSetup,
    inputs: Seq<Seq<i64>>,
    outputs: Seq<Seq<i64>>,
    result: Result<ShapeId, ClassifyError>,
)
    requires
        setup.shape_plan matches Some(plan) ==> plan.sealed() && crate::shape_plan::outcome(
            plan.shapes(),
            plan.policy(),
            inputs,
            result,
        ),
    ensures
        setup.shape_plan is None ==> (setup.planned_fault(inputs, outputs) is None
            <==> !setup.options.cuda_graph),
        setup.shape_plan matches Some(plan) ==> {
            &&& setup.planned_fault(inputs, outputs) is None <==> exists|i: int|
                0 <= i < plan.shapes().len() && (#[trigger] plan.shapes()[i]).inputs() == inputs
                    && plan.shapes()[i].outputs() == outputs
            &&& result matches Err(error) ==> setup.planned_fault(inputs, outputs) == Some(
                Error::ShapeRejected { error },
            )
        },
{
    if setup.shape_plan is Some {
        let plan = setup.shape_plan->Some_0;
        crate::shape_plan::sealed_plans_are_canonical(plan);
        let found = crate::runtime::dynamic::classified(plan, inputs);
        crate::shape_plan::classification_is_unique(
            plan.shapes(),
            plan.policy(),
            inputs,
            result,
            found,
        );
        if result is Ok {
            crate::shape_plan::admitted_request_fits(
                plan.shapes(),
                plan.policy(),
                inputs,
                result->Ok_0,
            );
            let at = result->Ok_0.index() as int;
            if exists|i: int|
                0 <= i < plan.shapes().len() && (#[trigger] plan.shapes()[i]).inputs() == inputs
                    && plan.shapes()[i].outputs() == outputs {
                let i = choose|i: int|
                    0 <= i < plan.shapes().len() && (#[trigger] plan.shapes()[i]).inputs() == inputs
                        && plan.shapes()[i].outputs() == outputs;
                crate::shape_plan::canonical_shape_is_its_own_bucket(
                    plan.shapes(),
                    plan.policy(),
                    i,
                    result,
                );
                assert(plan.shapes()[i].spec_id().index() == i);
                assert(at == i);
            }
            if setup.planned_fault(inputs, outputs) is None {
                assert(plan.shapes()[at].inputs() == inputs && plan.shapes()[at].outputs() == outputs);
            }
        } else if exists|i: int|
            0 <= i < plan.shapes().len() && (#[trigger] plan.shapes()[i]).inputs() == inputs
                && plan.shapes()[i].outputs() == outputs {
            let i = choose|i: int|
                0 <= i < plan.shapes().len() && (#[trigger] plan.shapes()[i]).inputs() == inputs
                    && plan.shapes()[i].outputs() == outputs;
            crate::shape_plan::canonical_shape_is_its_own_bucket(
                plan.shapes(),
                plan.policy(),
                i,
                result,
            );
        }
    }
}

/// Shape `i` of a plan can be served: it has as many inputs and outputs as the runtime, and its outputs are on
/// the host exactly where the runtime's are.
pub open spec fn is_servable(
    setup: RuntimeSetup,
    plan: ServingShapePlan,
    inputs: usize,
    outputs: usize,
    i: int,
) -> bool {
    let shape = plan.shapes()[i];
    &&& shape.inputs().len() == inputs
    &&& shape.outputs().len() == outputs
    &&& shape.placement() == (if setup.options.device_outputs {
        OutputPolicy::DeviceResident
    } else {
        OutputPolicy::HostBuffer
    })
}

/// A plan fits a runtime exactly where each of its shapes can be served.
pub proof fn plans_fit_where_every_shape_does(
    setup: RuntimeSetup,
    plan: ServingShapePlan,
    inputs: usize,
    outputs: usize,
    n: int,
)
    requires
        0 <= n <= plan.shapes().len(),
    ensures
        setup.plan_fault(plan, inputs, outputs, n) is None <==> forall|i: int|
            0 <= i < n ==> #[trigger] is_servable(setup, plan, inputs, outputs, i),
    decreases n,
{
    if n > 0 {
        let last: int = n - 1;
        plans_fit_where_every_shape_does(setup, plan, inputs, outputs, last);
        let rest = setup.plan_fault(plan, inputs, outputs, last);
        let fault = setup.plan_fault(plan, inputs, outputs, n);
        assert(fault is None <==> rest is None && is_servable(setup, plan, inputs, outputs, last));
        if fault is None {
            assert forall|i: int| 0 <= i < n implies #[trigger] is_servable(
                setup,
                plan,
                inputs,
                outputs,
                i,
            ) by {
                assert(i == last || i < last);
            }
        } else if rest is Some {
            let i = choose|i: int|
                0 <= i < last && !#[trigger] is_servable(setup, plan, inputs, outputs, i);
            assert(0 <= i < n && !is_servable(setup, plan, inputs, outputs, i));
        }
    }
}

/// A plan is installed exactly where no bucket was made yet, every shape has room for its bucket, and every
/// shape can be served.
pub proof fn plans_are_installed_into_empty_caches<
    I: TensorElement,
    O: TensorElement,
    const INPUTS: usize,
    const OUTPUTS: usize,
>(
    runtime: DynamicIoRuntime<I, O, INPUTS, OUTPUTS>,
    plan: ServingShapePlan,
)
    ensures
        runtime.install_fault(plan) is None <==> {
            &&& runtime@.buckets.len() == 0
            &&& runtime@.retired.len() == 0
            &&& plan.shapes().len() <= runtime.spec_setup().options.max_buckets
            &&& forall|i: int|
                0 <= i < plan.shapes().len() ==> #[trigger] is_servable(
                    runtime.spec_setup(),
                    plan,
                    INPUTS,
                    OUTPUTS,
                    i,
                )
        },
{
    plans_fit_where_every_shape_does(
        runtime.spec_setup(),
        plan,
        INPUTS,
        OUTPUTS,
        plan.shapes().len() as int,
    );
}

/// A runtime is made exactly where it has lanes, its options are sound and fit the sessions, and every lane of
/// every bucket has a place to come back to.
pub proof fn runtimes_have_lanes_and_room<
    I: TensorElement,
    O: TensorElement,
    const INPUTS: usize,
    const OUTPUTS: usize,
>(
    mode: RuntimeMode,
    lanes: usize,
    options: DynamicIoOptions,
)
    ensures
        ({
            let fault = DynamicIoRuntime::<I, O, INPUTS, OUTPUTS>::setup_fault(mode, lanes, options);
            &&& fault is None <==> {
                &&& lanes > 0
                &&& options.fault() is None
                &&& options.mode_fault(mode, lanes) is None
                &&& options.max_buckets * lanes <= usize::MAX
            }
            &&& lanes == 0 ==> fault == Some(
                Error::Fault(
                    if mode == RuntimeMode::SharedSession {
                        Fault::DynamicWithoutLanes
                    } else {
                        Fault::DynamicWithoutSessions
                    },
                ),
            )
            &&& lanes > 0 ==> (options.fault() matches Some(of) ==> fault == Some(Error::Fault(of)))
        }),
{
}

/// The lanes in flight are counted one by one: none are exactly where no lane is.
pub proof fn lanes_in_flight_are_counted<
    I: TensorElement,
    O: TensorElement,
    const INPUTS: usize,
    const OUTPUTS: usize,
>(
    lanes: Seq<ServingLane<I, O, INPUTS, OUTPUTS>>,
    n: int,
)
    requires
        0 <= n <= lanes.len(),
    ensures
        crate::runtime::bucket::in_flight_count(lanes, n) == lanes.take(n).filter(
            |lane: ServingLane<I, O, INPUTS, OUTPUTS>| lane.in_flight(),
        ).len(),
        crate::runtime::bucket::in_flight_count(lanes, n) == 0 <==> forall|k: int|
            0 <= k < n ==> !(#[trigger] lanes[k]).in_flight(),
    decreases n,
{
    let pred = |lane: ServingLane<I, O, INPUTS, OUTPUTS>| lane.in_flight();
    reveal(Seq::filter);
    if n > 0 {
        lanes_in_flight_are_counted(lanes, n - 1);
        assert(lanes.take(n).drop_last() == lanes.take(n - 1));
        assert(lanes.take(n).last() == lanes[n - 1]);
        if crate::runtime::bucket::in_flight_count(lanes, n) == 0 {
            assert forall|k: int| 0 <= k < n implies !(#[trigger] lanes[k]).in_flight() by {
                assert(k == n - 1 || k < n - 1);
            }
        } else if lanes[n - 1].in_flight() {
        } else {
            let k = choose|k: int| 0 <= k < n - 1 && (#[trigger] lanes[k]).in_flight();
            assert(lanes[k].in_flight());
        }
    }
}

/// The bucket has none of its lanes in a run, and none that is still at work.
pub open spec fn is_quiet<
    I: TensorElement,
    O: TensorElement,
    const INPUTS: usize,
    const OUTPUTS: usize,
>(bucket: BucketView<I, O, INPUTS, OUTPUTS>) -> bool {
    bucket.detached == 0 && forall|k: int|
        0 <= k < bucket.lanes.len() ==> !(#[trigger] bucket.lanes[k]).in_flight()
}

/// Graphs may be captured exactly where every bucket is quiet. A refusal names the first that is not.
pub proof fn captures_need_quiet_buckets<
    I: TensorElement,
    O: TensorElement,
    const INPUTS: usize,
    const OUTPUTS: usize,
>(buckets: Seq<BucketView<I, O, INPUTS, OUTPUTS>>, n: int)
    requires
        0 <= n <= buckets.len() <= usize::MAX,
    ensures
        crate::runtime::dynamic::busy_fault(buckets, n) is None <==> forall|i: int|
            0 <= i < n ==> #[trigger] is_quiet(buckets[i]),
        crate::runtime::dynamic::busy_fault(buckets, n) matches Some(error) ==> exists|i: int|
            {
                &&& 0 <= i < n
                &&& !#[trigger] is_quiet(buckets[i])
                &&& error matches Error::GraphCreationInFlight { bucket, detached, in_flight: _ } && bucket
                    == i && detached == buckets[i].detached
                &&& forall|j: int| 0 <= j < i ==> #[trigger] is_quiet(buckets[j])
            },
    decreases n,
{
    if n > 0 {
        let last: int = n - 1;
        captures_need_quiet_buckets(buckets, last);
        let rest = crate::runtime::dynamic::busy_fault(buckets, last);
        let fault = crate::runtime::dynamic::busy_fault(buckets, n);
        assert(crate::runtime::dynamic::busy(buckets[last]) == !is_quiet(buckets[last]));
        assert(fault is None <==> rest is None && is_quiet(buckets[last]));
        if fault is None {
            assert forall|i: int| 0 <= i < n implies #[trigger] is_quiet(buckets[i]) by {
                assert(i == last || i < last);
            }
        } else if rest is Some {
            let i = choose|i: int|
                {
                    &&& 0 <= i < last
                    &&& !#[trigger] is_quiet(buckets[i])
                    &&& rest->Some_0 matches Error::GraphCreationInFlight {
                        bucket,
                        detached,
                        in_flight: _,
                    } && bucket == i && detached == buckets[i].detached
                    &&& forall|j: int| 0 <= j < i ==> #[trigger] is_quiet(buckets[j])
                };
            assert(0 <= i < n && !is_quiet(buckets[i]));
        } else {
            assert(!is_quiet(buckets[last]));
        }
    }
}

/// Room is made exactly where the cache is full, and never where graphs are captured. The bucket that goes
/// has no detached lane, and of those without one it was accessed least recently.
pub proof fn the_least_recent_bucket_goes<
    I: TensorElement,
    O: TensorElement,
    const INPUTS: usize,
    const OUTPUTS: usize,
>(
    before: RuntimeView<I, O, INPUTS, OUTPUTS>,
    options: DynamicIoOptions,
    after: RuntimeView<I, O, INPUTS, OUTPUTS>,
    result: Result<Option<usize>, Error>,
)
    requires
        before.victim_chosen(options, after, result),
    ensures
        after.buckets == before.buckets,
        after.retired == before.retired && after.waiting == before.waiting && after.tick == before.tick,
        result == Ok::<Option<usize>, Error>(None) <==> before.buckets.len() < options.max_buckets,
        result matches Ok(Some(v)) ==> {
            &&& !options.cuda_graph
            &&& v < before.buckets.len()
            &&& before.buckets[v as int].detached == 0
            &&& forall|j: int|
                0 <= j < before.buckets.len() && (#[trigger] before.buckets[j]).detached == 0
                    ==> before.buckets[v as int].last_used <= before.buckets[j].last_used
        },
        result is Err ==> options.cuda_graph || forall|j: int|
            0 <= j < before.buckets.len() ==> (#[trigger] before.buckets[j]).detached > 0,
        result is Err && options.cuda_graph ==> result == Err::<Option<usize>, Error>(
            Error::GraphCacheFull { max_buckets: options.max_buckets },
        ),
        result is Err && !options.cuda_graph ==> result == Err::<Option<usize>, Error>(
            Error::Fault(Fault::CacheFullInFlight),
        ),
{
}

/// What is taken out leaves all the others, each where it was but for the last, which takes the free place.
pub proof fn removal_keeps_all_others<T>(items: Seq<T>, i: int, j: int)
    requires
        0 <= i < items.len(),
        0 <= j < items.len(),
    ensures
        crate::runtime::dynamic::swap_removed(items, i).len() == items.len() - 1,
        j != i && j < items.len() - 1 ==> crate::runtime::dynamic::swap_removed(items, i)[j] == items[j],
        i < items.len() - 1 ==> crate::runtime::dynamic::swap_removed(items, i)[i] == items[items.len() - 1],
{
}

/// An access stamps its bucket with the next count and changes no other bucket, and the count that follows
/// the largest is one.
pub proof fn accesses_are_counted<
    I: TensorElement,
    O: TensorElement,
    const INPUTS: usize,
    const OUTPUTS: usize,
>(
    before: RuntimeView<I, O, INPUTS, OUTPUTS>,
    i: int,
    j: int,
)
    requires
        0 <= i < before.buckets.len(),
        0 <= j < before.buckets.len(),
        i != j,
    ensures
        ({
            let after = before.accessed(i);
            &&& after.tick == (if before.tick == u64::MAX {
                1int
            } else {
                before.tick + 1
            })
            &&& after.buckets.len() == before.buckets.len()
            &&& after.buckets[j] == before.buckets[j]
            &&& after.buckets[i].last_used == after.tick
            &&& after.buckets[i].lanes == before.buckets[i].lanes
            &&& after.buckets[i].id == before.buckets[i].id
            &&& after.buckets[i].key == before.buckets[i].key
            &&& after.buckets[i].detached == before.buckets[i].detached
            &&& after.buckets[i].graph_id == before.buckets[i].graph_id
            &&& after.hot == Some(i as usize)
            &&& after.retired == before.retired && after.waiting == before.waiting
        }),
{
}

/// A request that finds its bucket is served from it whatever the limits of the cache, one that finds none
/// is only refused for want of permission, of quiet buckets or of room.
pub proof fn cached_shapes_are_always_served<
    I: TensorElement,
    O: TensorElement,
    const INPUTS: usize,
    const OUTPUTS: usize,
>(
    before: RuntimeView<I, O, INPUTS, OUTPUTS>,
    setup: RuntimeSetup,
    inputs: Seq<Seq<i64>>,
    outputs: Seq<Seq<i64>>,
    allow_create: bool,
    after: RuntimeView<I, O, INPUTS, OUTPUTS>,
    result: Result<Lookup, Error>,
)
    requires
        before.looked_up(setup, inputs, outputs, allow_create, after, result),
        setup.planned_fault(inputs, outputs) is None,
    ensures
        (exists|i: int|
            0 <= i < before.buckets.len() && (#[trigger] before.buckets[i]).key.inputs() == inputs
                && before.buckets[i].key.outputs() == outputs) <==> result matches Ok(Lookup::Hit(_)),
        result matches Ok(Lookup::Hit(i)) ==> i < before.buckets.len()
            && before.buckets[i as int].key.inputs() == inputs
            && before.buckets[i as int].key.outputs() == outputs,
        result matches Ok(Lookup::Miss(evict)) ==> allow_create && (evict is None
            <==> before.buckets.len() < setup.options.max_buckets),
        result is Err && !allow_create ==> result == Err::<Lookup, Error>(
            Error::Fault(Fault::StrictCacheMiss),
        ),
        result is Err ==> !allow_create || setup.options.cuda_graph || (before.buckets.len()
            >= setup.options.max_buckets && forall|j: int|
            0 <= j < before.buckets.len() ==> (#[trigger] before.buckets[j]).detached > 0),
{
    if exists|i: int|
        0 <= i < before.buckets.len() && (#[trigger] before.buckets[i]).key.inputs() == inputs
            && before.buckets[i].key.outputs() == outputs {
        let i = choose|i: int|
            0 <= i < before.buckets.len() && (#[trigger] before.buckets[i]).key.inputs() == inputs
                && before.buckets[i].key.outputs() == outputs;
        assert(before.is_bucket(i, inputs, outputs));
    }
    match result {
        Ok(Lookup::Hit(i)) => {
            assert(before.buckets[i as int].key.inputs() == inputs);
        },
        _ => {},
    }
}

/// Buckets whose graph was released are let go, and only those.
pub proof fn released_buckets_are_let_go<
    I: TensorElement,
    O: TensorElement,
    const INPUTS: usize,
    const OUTPUTS: usize,
>(
    before: RuntimeView<I, O, INPUTS, OUTPUTS>,
    retired: RetiredShapeBucket<I, O, INPUTS, OUTPUTS>,
)
    ensures
        before.reaped().retired.contains(retired) <==> before.retired.contains(retired) && !retired.released,
        before.reaped().buckets == before.buckets,
{
    let pred = |retired: RetiredShapeBucket<I, O, INPUTS, OUTPUTS>| !retired.released;
    lemma_filter_contains(before.retired, pred, retired);
}

proof fn lemma_filter_contains<T>(items: Seq<T>, pred: spec_fn(T) -> bool, item: T)
    ensures
        items.filter(pred).contains(item) <==> items.contains(item) && pred(item),
    decreases items.len(),
{
    reveal(Seq::filter);
    if items.len() > 0 {
        let front = items.drop_last();
        lemma_filter_contains(front, pred, item);
        let kept = items.filter(pred);
        let rest = front.filter(pred);
        assert(items.contains(item) <==> front.contains(item) || item == items.last()) by {
            if front.contains(item) {
                let k = choose|k: int| 0 <= k < front.len() && front[k] == item;
                assert(items[k] == item);
            }
            if item == items.last() {
                assert(items[items.len() - 1] == item);
            }
            if items.contains(item) && item != items.last() {
                let k = choose|k: int| 0 <= k < items.len() && items[k] == item;
                assert(front[k] == item);
            }
        }
        if pred(items.last()) {
            assert(kept == rest.push(items.last()));
            if rest.contains(item) {
                let k = choose|k: int| 0 <= k < rest.len() && rest[k] == item;
                assert(kept[k] == item);
            }
            if item == items.last() {
                assert(kept[kept.len() - 1] == item);
            }
            if kept.contains(item) && item != items.last() {
                let k = choose|k: int| 0 <= k < kept.len() && kept[k] == item;
                assert(rest[k] == item);
            }
        }
    }
}

/// A bucket with a detached lane stays. Of the others, one with a lane at work is never freed, one with a
/// captured graph waits for its release, and the rest are dropped.
pub proof fn buckets_go_as_their_lanes_allow<
    I: TensorElement,
    O: TensorElement,
    const INPUTS: usize,
    const OUTPUTS: usize,
>(
    before: DynamicIoRuntime<I, O, INPUTS, OUTPUTS>,
    index: int,
    after: DynamicIoRuntime<I, O, INPUTS, OUTPUTS>,
    retirement: Retirement<I, O, INPUTS, OUTPUTS>,
)
    requires
        before.retired_at(index, after, retirement),
        0 <= index < before@.buckets.len(),
    ensures
        ({
            let bucket = before@.buckets[index];
            let at_work = exists|k: int|
                0 <= k < bucket.lanes.len() && (#[trigger] bucket.lanes[k]).in_flight();
            &&& retirement is Refused <==> bucket.detached != 0
            &&& retirement is Leaked <==> bucket.detached == 0 && at_work
            &&& retirement is Releasing <==> bucket.detached == 0 && !at_work && bucket.graph_id is Some
            &&& retirement is Dropped <==> bucket.detached == 0 && !at_work && bucket.graph_id is None
            &&& retirement matches Retirement::Releasing(graph_id) ==> bucket.graph_id == Some(graph_id)
                && after@.retired.len() == before@.retired.len() + 1
                && after@.retired.last().graph_id == graph_id && !after@.retired.last().released
                && after@.retired.last().bucket@ == bucket
            &&& retirement matches Retirement::Leaked(leaked) ==> leaked@ == bucket
            &&& retirement matches Retirement::Dropped(dropped) ==> dropped@ == bucket
            &&& after@.buckets.len() == (if bucket.detached == 0 {
                before@.buckets.len() - 1
            } else {
                before@.buckets.len() as int
            })
            &&& bucket.detached == 0 ==> after.handles().resolve(bucket.id) is None
        }),
{
}

/// A lane is taken from the bucket that the handle names, which then has one less and one more detached, and
/// no other bucket changes.
pub proof fn detached_lanes_come_from_their_bucket<
    I: TensorElement,
    O: TensorElement,
    const INPUTS: usize,
    const OUTPUTS: usize,
>(
    before: DynamicIoRuntime<I, O, INPUTS, OUTPUTS>,
    id: PreparedBucketId,
    after: DynamicIoRuntime<I, O, INPUTS, OUTPUTS>,
    result: Result<ServingLane<I, O, INPUTS, OUTPUTS>, Error>,
    i: int,
    j: int,
)
    requires
        before.wf(),
        before.lane_detached(id, after, result),
        0 <= i < before@.buckets.len() <= usize::MAX,
        before@.buckets[i].id == id,
        before@.buckets[i].detached < usize::MAX,
        0 <= j < before@.buckets.len(),
        j != i,
    ensures
        result matches Ok(lane) ==> {
            let old_bucket = before@.buckets[i];
            let bucket = after@.buckets[i];
            &&& old_bucket.lanes.contains(lane)
            &&& old_bucket.lanes == bucket.lanes.push(lane)
            &&& bucket.detached == old_bucket.detached + 1
            &&& bucket.id == id && bucket.key == old_bucket.key && bucket.last_used == old_bucket.last_used
                && bucket.graph_id == old_bucket.graph_id
            &&& after@.buckets[j] == before@.buckets[j]
            &&& after@.buckets.len() == before@.buckets.len()
        },
        result is Err ==> after@ == before@,
        result is Err <==> before@.buckets[i].lanes.len() == 0 || before@.buckets[i].detached
            + before@.buckets[i].lanes.len() != before.spec_setup().lane_count,
{
    crate::runtime::dynamic::handles_name_their_buckets(before, id, i);
    if result is Ok {
        let lanes = before@.buckets[i].lanes;
        assert(lanes.contains(lanes.last()));
        assert(lanes =~= lanes.drop_last().push(lanes.last()));
    }
}

/// A lane that comes back to the bucket that its handle names is one of its lanes again. Where the bucket is
/// gone the lane is destroyed, but never while it is at work.
pub proof fn lanes_come_back_to_their_bucket<
    I: TensorElement,
    O: TensorElement,
    const INPUTS: usize,
    const OUTPUTS: usize,
>(
    before: DynamicIoRuntime<I, O, INPUTS, OUTPUTS>,
    id: PreparedBucketId,
    lane: ServingLane<I, O, INPUTS, OUTPUTS>,
    after: DynamicIoRuntime<I, O, INPUTS, OUTPUTS>,
    result: Result<(), (Error, Disposal<ServingLane<I, O, INPUTS, OUTPUTS>>)>,
)
    requires
        before.wf(),
        before.lane_returned(id, lane, after, result),
    ensures
        result is Ok ==> exists|i: int|
            {
                &&& 0 <= i < before@.buckets.len()
                &&& (#[trigger] before@.buckets[i]).id == id
                &&& before@.buckets[i].detached > 0
                &&& after@.buckets.len() == before@.buckets.len()
                &&& after@.buckets[i].lanes == before@.buckets[i].lanes.push(lane)
                &&& after@.buckets[i].detached == before@.buckets[i].detached - 1
                &&& after@.buckets[i].id == id
                &&& forall|j: int|
                    0 <= j < before@.buckets.len() && j != i ==> #[trigger] after@.buckets[j]
                        == before@.buckets[j]
            },
        result is Err ==> after@ == before@,
        result matches Err((error, disposal)) ==> {
            &&& lane.in_flight() ==> disposal == Disposal::Leak(lane)
            &&& disposal == Disposal::Leak(lane) || disposal == Disposal::Destroy(lane)
            &&& disposal == Disposal::Destroy(lane) ==> error == Error::Fault(Fault::BucketRetiredInFlight)
        },
        (forall|i: int| 0 <= i < before@.buckets.len() ==> (#[trigger] before@.buckets[i]).id != id)
            ==> result is Err && result->Err_0.0 == Error::Fault(Fault::BucketRetiredInFlight),
{
    crate::runtime::dynamic::lemma_handles_resolve(before);
    if before.handles().resolve(id) is Some {
        let i = before.handles().resolve(id)->Some_0 as int;
        assert(before@.buckets[i].id == id);
    }
}

/// The buckets that must be waited for are those with a lane at work.
pub proof fn buckets_at_work_are_not_freed<
    I: TensorElement,
    O: TensorElement,
    const INPUTS: usize,
    const OUTPUTS: usize,
>(
    buckets: Seq<BucketView<I, O, INPUTS, OUTPUTS>>,
    bucket: BucketView<I, O, INPUTS, OUTPUTS>,
)
    ensures
        crate::runtime::dynamic::unfenced(buckets).contains(bucket) <==> buckets.contains(bucket)
            && exists|k: int| 0 <= k < bucket.lanes.len() && (#[trigger] bucket.lanes[k]).in_flight(),
    decreases buckets.len(),
{
    if buckets.len() > 0 {
        let rest = buckets.drop_first();
        buckets_at_work_are_not_freed(rest, bucket);
        lemma_first_or_rest(buckets, bucket);
        if buckets[0].any_in_flight() {
            let all = seq![buckets[0]] + crate::runtime::dynamic::unfenced(rest);
            lemma_first_or_rest(all, bucket);
            assert(all.drop_first() == crate::runtime::dynamic::unfenced(rest));
        }
    }
}

proof fn lemma_first_or_rest<T>(items: Seq<T>, item: T)
    requires
        items.len() > 0,
    ensures
        items.contains(item) <==> items[0] == item || items.drop_first().contains(item),
{
    let rest = items.drop_first();
    if items.contains(item) && items[0] != item {
        let k = choose|k: int| 0 <= k < items.len() && items[k] == item;
        assert(rest[k - 1] == item);
    }
    if rest.contains(item) {
        let k = choose|k: int| 0 <= k < rest.len() && rest[k] == item;
        assert(items[k + 1] == item);
    }
    if items[0] == item {
        assert(items[0] == item);
    }
}

/// The graphs that are released are those of quiet buckets.
pub proof fn graphs_of_quiet_buckets_are_released<
    I: TensorElement,
    O: TensorElement,
    const INPUTS: usize,
    const OUTPUTS: usize,
>(
    buckets: Seq<BucketView<I, O, INPUTS, OUTPUTS>>,
    graph_id: i32,
)
    ensures
        crate::runtime::dynamic::released_graphs(buckets).contains(graph_id) <==> exists|i: int|
            0 <= i < buckets.len() && (#[trigger] buckets[i]).graph_id == Some(graph_id) && is_quiet(buckets[i]),
    decreases buckets.len(),
{
    if buckets.len() > 0 {
        let rest = buckets.drop_first();
        let first = buckets[0];
        graphs_of_quiet_buckets_are_released(rest, graph_id);
        assert(is_quiet(first) <==> !first.any_in_flight() && first.detached == 0);
        let released = crate::runtime::dynamic::released_graphs(rest);
        if is_quiet(first) && first.graph_id is Some {
            let all = seq![first.graph_id->Some_0] + released;
            lemma_first_or_rest(all, graph_id);
            assert(all.drop_first() == released);
        }
        if released.contains(graph_id) {
            let i = choose|i: int|
                0 <= i < rest.len() && (#[trigger] rest[i]).graph_id == Some(graph_id) && is_quiet(rest[i]);
            assert(buckets[i + 1] == rest[i]);
        }
        if exists|i: int|
            0 <= i < buckets.len() && (#[trigger] buckets[i]).graph_id == Some(graph_id) && is_quiet(
                buckets[i],
            ) {
            let i = choose|i: int|
                0 <= i < buckets.len() && (#[trigger] buckets[i]).graph_id == Some(graph_id) && is_quiet(
                    buckets[i],
                );
            if i > 0 {
                assert(rest[i - 1] == buckets[i]);
            }
        }
    }
}

/// The lanes of a bucket have the shapes of their request and stand where the options say: with a device the
/// inputs are on it, and the outputs where that was asked for, behind the stream of the lane. Without one
/// both are on the host. Every lane has the shared session, or its own.
pub proof fn cached_lanes_stand_where_the_options_say<
    I: TensorElement,
    O: TensorElement,
    const INPUTS: usize,
    const OUTPUTS: usize,
>(
    setup: RuntimeSetup,
    set: StaticIoRuntime<I, O, INPUTS, OUTPUTS>,
    calls: SetCalls,
    inputs: Seq<Seq<i64>>,
    outputs: Seq<Seq<i64>>,
    k: int,
)
    requires
        DynamicIoRuntime::lane_set_built(setup, Ok((set, calls)), inputs, outputs),
        0 <= k < set.members().len(),
    ensures
        ({
            let parts = set.members()[k].parts();
            let options = setup.options;
            &&& match setup.sessions {
                DynamicSessions::Shared(session) => {
                    &&& set.members().len() == setup.lane_count
                    &&& parts.session == session.spec_handle()
                },
                DynamicSessions::Replicated(sessions) => {
                    &&& set.members().len() == sessions@.len()
                    &&& parts.session == sessions@[k].spec_handle()
                },
            }
            &&& parts.inputs.len() == inputs.len() && parts.outputs.len() == outputs.len()
            &&& forall|i: int|
                0 <= i < inputs.len() ==> (#[trigger] parts.inputs[i]).dims() == inputs[i]
                    && parts.inputs[i].spec_memory() == setup.input_memory
            &&& forall|i: int|
                0 <= i < outputs.len() ==> (#[trigger] parts.outputs[i]).dims() == outputs[i]
            &&& options.device_id is None ==> {
                &&& parts.device_inputs is None
                &&& parts.device_outputs is None
                &&& parts.stream is None
            }
            &&& options.device_id matches Some(id) ==> {
                &&& parts.device_inputs matches Some(tensors) && tensors.len() == inputs.len() && forall|
                    i: int,
                |
                    0 <= i < tensors.len() ==> (#[trigger] tensors[i]).dims() == inputs[i]
                        && tensors[i].spec_memory().device_id == id
                &&& parts.device_outputs is Some <==> options.device_outputs
                &&& parts.device_outputs matches Some(tensors) ==> tensors.len() == outputs.len() && forall|
                    i: int,
                |
                    0 <= i < tensors.len() ==> (#[trigger] tensors[i]).dims() == outputs[i]
                        && tensors[i].spec_memory().device_id == id
                &&& parts.stream == if setup.sessions is Replicated && options.lane_streams@.len() > 0 {
                    Some(options.lane_streams@[k])
                } else {
                    Some(options.stream->Some_0)
                }
            }
        }),
{
}

/// A lane of a dropped run comes back exactly where its bucket is still there and misses one. It is then one
/// of the bucket's lanes again, and no other bucket changes.
pub proof fn dropped_lanes_come_back_to_their_bucket<
    I: TensorElement,
    O: TensorElement,
    const INPUTS: usize,
    const OUTPUTS: usize,
>(
    buckets: Seq<BucketView<I, O, INPUTS, OUTPUTS>>,
    handles: PreparedSlots,
    recovered: RecoveredDynamicLane<I, O, INPUTS, OUTPUTS>,
    j: int,
)
    requires
        crate::runtime::dynamic::handles_resolve(buckets, handles),
        0 <= j < buckets.len() <= usize::MAX,
    ensures
        ({
            let received = crate::runtime::dynamic::receive(buckets, handles, recovered);
            &&& received is None ==> buckets[j].id != recovered.bucket_id || buckets[j].detached == 0
            &&& received matches Some(after) ==> {
                &&& after.len() == buckets.len()
                &&& buckets[j].id == recovered.bucket_id ==> {
                    &&& buckets[j].detached > 0
                    &&& after[j].lanes == buckets[j].lanes.push(recovered.lane)
                    &&& after[j].detached == buckets[j].detached - 1
                    &&& after[j].id == buckets[j].id
                    &&& after[j].key == buckets[j].key
                    &&& after[j].last_used == buckets[j].last_used
                    &&& after[j].graph_id == buckets[j].graph_id
                }
                &&& buckets[j].id != recovered.bucket_id ==> after[j] == buckets[j]
            }
        }),
{
    assert(handles.resolve(buckets[j].id) == Some(j as usize));
}

proof fn lemma_received_resolve<
    I: TensorElement,
    O: TensorElement,
    const INPUTS: usize,
    const OUTPUTS: usize,
>(
    buckets: Seq<BucketView<I, O, INPUTS, OUTPUTS>>,
    handles: PreparedSlots,
    recovered: RecoveredDynamicLane<I, O, INPUTS, OUTPUTS>,
)
    requires
        crate::runtime::dynamic::handles_resolve(buckets, handles),
    ensures
        crate::runtime::dynamic::receive(buckets, handles, recovered) matches Some(after)
            ==> crate::runtime::dynamic::handles_resolve(after, handles) && after.len() == buckets.len(),
{
    let received = crate::runtime::dynamic::receive(buckets, handles, recovered);
    if received is Some {
        let after = received->Some_0;
        assert forall|i: int| 0 <= i < after.len() implies handles.resolve((#[trigger] after[i]).id) == Some(
            i as usize,
        ) by {
            assert(after[i].id == buckets[i].id);
        }
        assert forall|id: PreparedBucketId| handles.resolve(id) is Some implies {
            let i = (#[trigger] handles.resolve(id))->Some_0;
            i < after.len() && after[i as int].id == id
        } by {
            let i = handles.resolve(id)->Some_0 as int;
            assert(buckets[i].id == id);
            assert(after[i].id == buckets[i].id);
        }
    }
}

/// Bucket `i` keeps the lanes that it has while the lanes of dropped runs come back.
pub proof fn reclaim_keeps_the_lanes_in_place<
    I: TensorElement,
    O: TensorElement,
    const INPUTS: usize,
    const OUTPUTS: usize,
>(
    buckets: Seq<BucketView<I, O, INPUTS, OUTPUTS>>,
    handles: PreparedSlots,
    waiting: Seq<(usize, RecoveredDynamicLane<I, O, INPUTS, OUTPUTS>)>,
    i: int,
    k: int,
)
    requires
        crate::runtime::dynamic::handles_resolve(buckets, handles),
        0 <= i < buckets.len() <= usize::MAX,
        0 <= k < buckets[i].lanes.len(),
    ensures
        ({
            let after = crate::runtime::dynamic::reclaim(buckets, handles, waiting).buckets;
            &&& after.len() == buckets.len()
            &&& after[i].id == buckets[i].id
            &&& k < after[i].lanes.len()
            &&& after[i].lanes[k] == buckets[i].lanes[k]
        }),
    decreases waiting.len(),
{
    if waiting.len() > 0 {
        let recovered = waiting.last().1;
        match crate::runtime::dynamic::receive(buckets, handles, recovered) {
            None => reclaim_keeps_the_lanes_in_place(buckets, handles, waiting.drop_last(), i, k),
            Some(after) => {
                lemma_received_resolve(buckets, handles, recovered);
                dropped_lanes_come_back_to_their_bucket(buckets, handles, recovered, i);
                reclaim_keeps_the_lanes_in_place(after, handles, waiting.drop_last(), i, k);
            },
        }
    }
}

/// Every lane of a dropped run is among the lanes of the bucket that its handle names, or among those that are
/// handed out.
pub proof fn every_dropped_lane_is_somewhere<
    I: TensorElement,
    O: TensorElement,
    const INPUTS: usize,
    const OUTPUTS: usize,
>(
    buckets: Seq<BucketView<I, O, INPUTS, OUTPUTS>>,
    handles: PreparedSlots,
    waiting: Seq<(usize, RecoveredDynamicLane<I, O, INPUTS, OUTPUTS>)>,
    w: int,
)
    requires
        crate::runtime::dynamic::handles_resolve(buckets, handles),
        0 <= w < waiting.len(),
        buckets.len() <= usize::MAX,
    ensures
        ({
            let recovered = waiting[w].1;
            let reclaimed = crate::runtime::dynamic::reclaim(buckets, handles, waiting);
            ||| reclaimed.leaked.contains(recovered.lane)
            ||| exists|i: int, k: int|
                {
                    &&& 0 <= i < reclaimed.buckets.len()
                    &&& 0 <= k < reclaimed.buckets[i].lanes.len()
                    &&& #[trigger] reclaimed.buckets[i].lanes[k] == recovered.lane
                    &&& reclaimed.buckets[i].id == recovered.bucket_id
                }
        }),
    decreases waiting.len(),
{
    let recovered = waiting[w].1;
    let front = waiting.drop_last();
    let last = waiting.last().1;
    let reclaimed = crate::runtime::dynamic::reclaim(buckets, handles, waiting);
    match crate::runtime::dynamic::receive(buckets, handles, last) {
        None => {
            let rest = crate::runtime::dynamic::reclaim(buckets, handles, front);
            if w == waiting.len() - 1 {
                assert(reclaimed.leaked[0] == recovered.lane);
            } else {
                every_dropped_lane_is_somewhere(buckets, handles, front, w);
                assert(front[w] == waiting[w]);
                if rest.leaked.contains(recovered.lane) {
                    let k = choose|k: int| 0 <= k < rest.leaked.len() && rest.leaked[k] == recovered.lane;
                    assert(reclaimed.leaked[k + 1] == recovered.lane);
                }
            }
        },
        Some(after) => {
            lemma_received_resolve(buckets, handles, last);
            if w == waiting.len() - 1 {
                let i = handles.resolve(last.bucket_id)->Some_0 as int;
                assert(buckets[i].id == last.bucket_id);
                dropped_lanes_come_back_to_their_bucket(buckets, handles, last, i);
                let k: int = after[i].lanes.len() - 1;
                assert(after[i].lanes[k] == recovered.lane);
                reclaim_keeps_the_lanes_in_place(after, handles, front, i, k);
                assert(reclaimed.buckets[i].lanes[k] == recovered.lane);
            } else {
                every_dropped_lane_is_somewhere(after, handles, front, w);
                assert(front[w] == waiting[w]);
            }
        },
    }
}

/// The lanes of different buckets, and the lanes of one bucket, have different places to come back to.
pub proof fn lanes_come_back_to_places_of_their_own<
    I: TensorElement,
    O: TensorElement,
    const INPUTS: usize,
    const OUTPUTS: usize,
>(
    one: DynamicIoRuntime<I, O, INPUTS, OUTPUTS>,
    other: DynamicIoRuntime<I, O, INPUTS, OUTPUTS>,
    one_inputs: Seq<Seq<i64>>,
    one_outputs: Seq<Seq<i64>>,
    other_inputs: Seq<Seq<i64>>,
    other_outputs: Seq<Seq<i64>>,
    one_lanes: Seq<ServingLane<I, O, INPUTS, OUTPUTS>>,
    other_lanes: Seq<ServingLane<I, O, INPUTS, OUTPUTS>>,
    one_graph: Option<i32>,
    other_graph: Option<i32>,
    one_after: DynamicIoRuntime<I, O, INPUTS, OUTPUTS>,
    other_after: DynamicIoRuntime<I, O, INPUTS, OUTPUTS>,
    one_place: usize,
    other_place: usize,
    j: int,
    k: int,
)
    requires
        one.installed(one_inputs, one_outputs, one_lanes, one_graph, one_after, Ok(one_place)),
        other.installed(
            other_inputs,
            other_outputs,
            other_lanes,
            other_graph,
            other_after,
            Ok(other_place),
        ),
        one.spec_setup().lane_count == other.spec_setup().lane_count,
        one_lanes.len() == one.spec_setup().lane_count,
        other_lanes.len() == one.spec_setup().lane_count,
        0 <= j < one_lanes.len(),
        0 <= k < other_lanes.len(),
    ensures
        ({
            let here = one_after@.buckets.last();
            let there = other_after@.buckets.last();
            &&& here.lanes.len() == one_lanes.len()
            &&& here.lanes[j].slot() is Some
            &&& here.lanes[j].slot() == there.lanes[k].slot() <==> here.id.slot == there.id.slot && j == k
        }),
{
    let here = one_after@.buckets.last();
    let there = other_after@.buckets.last();
    let count = one.spec_setup().lane_count as int;
    let a = here.id.slot as int;
    let b = there.id.slot as int;
    assert(DynamicIoRuntime::slotted(here.lanes[j], one_lanes[j], a * count + j));
    assert(DynamicIoRuntime::slotted(there.lanes[k], other_lanes[k], b * count + k));
    assert(0 <= a * count) by (nonlinear_arith)
        requires
            0 <= a,
            0 <= count,
    ;
    assert(0 <= b * count) by (nonlinear_arith)
        requires
            0 <= b,
            0 <= count,
    ;
    if a * count + j == b * count + k {
        assert(a == b) by (nonlinear_arith)
            requires
                a * count + j == b * count + k,
                0 <= j < count,
                0 <= k < count,
        ;
    }
}

/// A new bucket stands last, for the shapes that it was built for, with the lanes that were built, none of
/// which is detached. No other bucket changes.
pub proof fn new_buckets_stand_last<
    I: TensorElement,
    O: TensorElement,
    const INPUTS: usize,
    const OUTPUTS: usize,
>(
    before: DynamicIoRuntime<I, O, INPUTS, OUTPUTS>,
    inputs: Seq<Seq<i64>>,
    outputs: Seq<Seq<i64>>,
    lanes: Seq<ServingLane<I, O, INPUTS, OUTPUTS>>,
    graph_id: Option<i32>,
    after: DynamicIoRuntime<I, O, INPUTS, OUTPUTS>,
    place: usize,
    j: int,
    k: int,
)
    requires
        before.installed(inputs, outputs, lanes, graph_id, after, Ok(place)),
        before@.buckets.len() < usize::MAX,
        0 <= j < before@.buckets.len(),
        0 <= k < lanes.len(),
    ensures
        place == before@.buckets.len(),
        after@.buckets.len() == place + 1,
        after@.buckets[j] == before@.buckets[j],
        ({
            let bucket = after@.buckets[place as int];
            &&& bucket.key.inputs() == inputs && bucket.key.outputs() == outputs
            &&& bucket.detached == 0
            &&& bucket.graph_id == graph_id
            &&& bucket.lanes.len() == lanes.len()
            &&& bucket.lanes[k].parts() == lanes[k].parts()
            &&& bucket.lanes[k].lane_state() == lanes[k].lane_state()
            &&& before@.tick < u64::MAX ==> bucket.last_used == before@.tick + 1
        }),
{
    assert(after@.buckets.drop_last()[j] == after@.buckets[j]);
    let bucket = after@.buckets.last();
    assert(DynamicIoRuntime::slotted(
        bucket.lanes[k],
        lanes[k],
        bucket.id.slot * before.spec_setup().lane_count + k,
    ));
}

} // verus!
