//! What making, binding, running and copying on a session amounts to.
use vstd::prelude::*;

use crate::error::{Error, Side};
use crate::runtime::lane_build::BuildCall;
use crate::session::copy::{HostPair, PairStep};
use crate::session::create::{CreateCall, EditorReply, Initializers, ModelSource};
use crate::session::graph_lease::{CapturedGraphLease, LeaseEvent};
use crate::session::session::{CachedIo, Session, SetupReplies, TypeReport};
use crate::session_options::SessionOptions;

verus! {

/// A run of a binding runs it exactly once. Where it is synchronized, it waits for the bound inputs before
/// and for the bound outputs behind the run; where it is not, it makes no other call.
pub proof fn bound_runs_wait_on_both_sides(synchronized: bool)
    ensures
        ({
            let calls = crate::session::binding::binding_calls(synchronized);
            &&& synchronized ==> {
                &&& calls.len() == 3
                &&& calls[0] is SynchronizeInputs
                &&& calls[1] is Run
                &&& calls[2] is SynchronizeOutputs
            }
            &&& !synchronized ==> calls.len() == 1 && calls[0] is Run
        }),
{
}

/// A session runs exactly the bindings that were made for it, with options of its own environment or of
/// none.
pub proof fn sessions_run_their_own_bindings(
    session: Session,
    binding: u64,
    stream_environment: Option<u64>,
)
    ensures
        session.binding_fault(binding, stream_environment) is None <==> binding
            == session.spec_handle() && (stream_environment is None || stream_environment == Some(
            session.spec_environment(),
        )),
{
}

/// A run is prepared exactly where its options are of the session's environment and it has as many inputs
/// and slots as the session.
pub proof fn runs_fit_their_session(
    session: Session,
    inputs: nat,
    slots: nat,
    stream_environment: Option<u64>,
)
    ensures
        session.run_fault(inputs, slots, stream_environment) is None <==> {
            &&& stream_environment is None || stream_environment == Some(session.spec_environment())
            &&& inputs == session.inputs().len()
            &&& slots == session.outputs().len()
        },
{
}

/// Values are bound behind the binding that holds them, every input and every output once and in order.
pub proof fn values_are_bound_once(inputs: nat, outputs: nat)
    ensures
        ({
            let calls = crate::session::binding::bind_calls(inputs, outputs);
            &&& calls.len() == 1 + inputs + outputs
            &&& calls[0] == BuildCall::CreateBinding
            &&& forall|i: int|
                0 <= i < inputs ==> #[trigger] calls[1 + i] == BuildCall::BindValue(
                    Side::Input,
                    i as usize,
                )
            &&& forall|i: int|
                0 <= i < outputs ==> #[trigger] calls[1 + inputs + i] == BuildCall::BindValue(
                    Side::Output,
                    i as usize,
                )
        }),
{
}

/// The names of one side can be used exactly where all of them are text, and the first that is not is
/// reported.
pub proof fn names_are_text_or_refused(names: Seq<Vec<u8>>, side: Side, n: int)
    requires
        0 <= n <= names.len(),
    ensures
        match crate::runtime::host_lane::text_names_fault(names, side, n) {
            None => forall|i: int|
                0 <= i < n ==> vstd::utf8::valid_utf8((#[trigger] names[i])@),
            Some(error) => exists|i: int|
                {
                    &&& 0 <= i < n
                    &&& !vstd::utf8::valid_utf8((#[trigger] names[i])@)
                    &&& error == (Error::NameNotUtf8 { side, index: i as usize })
                    &&& forall|k: int|
                        0 <= k < i ==> vstd::utf8::valid_utf8((#[trigger] names[k])@)
                },
        },
    decreases n,
{
    if n > 0 {
        names_are_text_or_refused(names, side, n - 1);
        if crate::runtime::host_lane::text_names_fault(names, side, n - 1) is None {
            assert(vstd::utf8::valid_utf8(names[n - 1]@) || !vstd::utf8::valid_utf8(
                names[n - 1]@,
            ));
        }
    }
}

/// The host copies a pair exactly where it can reach both sides, they have as many bytes, and both have an
/// address. Where one side is out of its reach it leaves the pair alone.
pub proof fn hosts_copy_what_they_reach(pair: HostPair)
    ensures
        pair.spec_step() is Copy <==> {
            &&& pair.source_on_host == Ok::<bool, Error>(true)
            &&& pair.destination_on_host == Ok::<bool, Error>(true)
            &&& pair.source_bytes is Ok
            &&& pair.destination_bytes == pair.source_bytes
            &&& pair.source_data is Ok
            &&& pair.destination_data is Ok
        },
        pair.spec_step() is Unreachable <==> {
            &&& pair.source_on_host is Ok
            &&& pair.destination_on_host is Ok
            &&& !(pair.source_on_host->Ok_0 && pair.destination_on_host->Ok_0)
        },
        pair.spec_step() matches PairStep::Fail(error) ==> {
            ||| pair.source_on_host == Err::<bool, Error>(error)
            ||| pair.destination_on_host == Err::<bool, Error>(error)
            ||| pair.source_bytes == Err::<usize, Error>(error)
            ||| pair.destination_bytes == Err::<usize, Error>(error)
            ||| pair.source_data == Err::<(), Error>(error)
            ||| pair.destination_data == Err::<(), Error>(error)
            ||| pair.source_bytes is Ok && pair.destination_bytes is Ok && pair.source_bytes
                != pair.destination_bytes && error == (Error::CopyBytesMismatch {
                source: pair.source_bytes->Ok_0,
                destination: pair.destination_bytes->Ok_0,
            })
        },
{
}

/// The host copies pairs in order, up to the first that it cannot copy.
pub proof fn hosts_copy_a_prefix(pairs: Seq<HostPair>)
    ensures
        crate::session::copy::pairs_copied(pairs) <= pairs.len(),
        forall|i: int|
            0 <= i < crate::session::copy::pairs_copied(pairs) ==> (
            #[trigger] pairs[i]).spec_step() is Copy,
        crate::session::copy::pairs_copied(pairs) < pairs.len() ==> pairs[crate::session::copy::pairs_copied(
            pairs,
        ) as int].spec_step() !is Copy,
    decreases pairs.len(),
{
    if pairs.len() > 0 && pairs[0].spec_step() is Copy {
        let rest = pairs.drop_first();
        hosts_copy_a_prefix(rest);
        assert forall|i: int|
            0 <= i < crate::session::copy::pairs_copied(pairs) implies (
        #[trigger] pairs[i]).spec_step() is Copy by {
            if i > 0 {
                assert(rest[i - 1] == pairs[i]);
            }
        }
    }
}

/// A copy succeeds exactly where there are as many destinations as sources and the engine copies, or else
/// the host can copy every pair. Where neither can, the host's failure is reported, or the engine's where
/// the host only cannot reach.
pub proof fn copies_fall_back_to_the_host(
    result: Result<(), Error>,
    sources: usize,
    destinations: usize,
    engine: Result<(), Error>,
    pairs: Seq<HostPair>,
)
    requires
        Session::copy_outcome(result, sources, destinations, engine, pairs),
    ensures
        result is Ok <==> sources == destinations && (engine is Ok || forall|i: int|
            0 <= i < pairs.len() ==> (#[trigger] pairs[i]).spec_step() is Copy),
        sources == destinations ==> (result matches Err(error) ==> {
            ||| engine == Err::<(), Error>(error)
            ||| exists|i: int|
                0 <= i < pairs.len() && #[trigger] pairs[i].spec_step() == PairStep::Fail(error)
        }),
{
    hosts_copy_a_prefix(pairs);
}

/// Behind the attached devices and before the session is made, each initializer is added exactly once: those
/// of one's own one by one and in order, and external ones and files in one call where there are any. No
/// other initializer is added, and one session is made.
pub proof fn initializers_are_added_once(
    shared_threads: bool,
    options: SessionOptions,
    initializers: Initializers,
    source: ModelSource,
    prepacked: bool,
)
    ensures
        ({
            let calls = crate::session::create::create_calls(
                shared_threads,
                options,
                initializers,
                source,
                prepacked,
            );
            let first: int = if shared_threads && options.use_global_thread_pool {
                2
            } else {
                1
            };
            &&& match initializers {
                Initializers::Owned(count) => {
                    &&& calls.len() == first + count + 1
                    &&& forall|i: int|
                        0 <= i < count ==> #[trigger] calls[first + i] == CreateCall::AddInitializer(
                            i as usize,
                        )
                },
                Initializers::External(count) => if count == 0 {
                    calls.len() == first + 1
                } else {
                    calls.len() == first + 2 && calls[first] == CreateCall::AddExternalInitializers(
                        count,
                    )
                },
                Initializers::Files(count) => if count == 0 {
                    calls.len() == first + 1
                } else {
                    calls.len() == first + 2 && calls[first] == CreateCall::AddInitializerFiles(
                        count,
                    )
                },
            }
            &&& calls[0] == CreateCall::AttachDevices
            &&& first == 2 ==> calls[1] == CreateCall::DisableSessionThreads
            &&& calls.last() == CreateCall::Create(source, prepacked)
        }),
{
}

/// The functions for models that are edited can be called exactly where the engine has them and the one that
/// is asked for.
pub proof fn editors_need_their_function(reply: EditorReply)
    ensures
        reply.fault() is None <==> reply.api && reply.function is Ok,
        reply.api ==> (reply.function matches Err(error) ==> reply.fault() == Some(error)),
{
}

/// A run of a captured graph begins exactly while no release is under way, and is then counted. The end of
/// the last run wakes the release that waits for it, and no other end does. A release leaves nothing
/// behind.
pub proof fn leases_count_their_runs(lease: CapturedGraphLease)
    requires
        lease.active < crate::session::graph_lease::max_active(),
    ensures
        lease.attempt() is Granted <==> !lease.releasing,
        lease.after(LeaseEvent::BeginRun).active == lease.active + (if lease.releasing {
            0int
        } else {
            1
        }),
        lease.after(LeaseEvent::BeginRun).releasing == lease.releasing,
        lease.active > 0 ==> lease.after(LeaseEvent::EndRun).active == lease.active - 1,
        lease.active == 0 ==> lease.after(LeaseEvent::EndRun) == lease,
        lease.after(LeaseEvent::EndRun).releasing == lease.releasing,
        lease.run_end() is WakeRelease <==> lease.releasing && lease.active > 0 && lease.after(
            LeaseEvent::EndRun,
        ).active == 0,
        lease.run_end() is Unaccounted <==> lease.active == 0,
        lease.after(LeaseEvent::BeginRelease).releasing,
        lease.after(LeaseEvent::BeginRelease).active == lease.active,
        !lease.after(LeaseEvent::EndRelease).releasing,
        lease.after(LeaseEvent::EndRelease).active == 0,
{
}

/// What is kept of a static type is what the engine reports of it: the kind, the element type, the
/// dimensions, and the count that the dimensions give where all of them are fixed. Other kinds than tensors
/// have neither elements nor dimensions.
pub proof fn cached_types_are_the_reported_ones(cached: CachedIo, report: TypeReport)
    requires
        cached.caches(report),
    ensures
        match report {
            TypeReport::Tensor { elem_type, dims, .. } => {
                &&& cached.onnx_type is Tensor
                &&& cached.elem_type == elem_type
                &&& cached.dims@ == dims@
                &&& cached.symbolic@.len() == report->Tensor_symbolic@.len()
                &&& cached.count matches Some(count) ==> count == crate::shape::product(dims@)
                &&& (exists|k: int| 0 <= k < dims@.len() && #[trigger] dims@[k] < 0)
                    ==> cached.count is None
            },
            TypeReport::Other(kind) => {
                &&& cached.onnx_type == kind
                &&& cached.elem_type is Undefined
                &&& cached.count == Some(0usize)
                &&& cached.dims@.len() == 0
            },
        },
{
    if let TypeReport::Tensor { dims, .. } = report {
        if crate::shape::count_fault(dims@) is None {
            crate::shape::lemma_count_fault_none(dims@);
        }
    }
}

/// A session is set up exactly where every name and every type was answered and can be kept, and the run
/// options were made.
pub proof fn sessions_need_every_answer(replies: SetupReplies)
    ensures
        replies.fault() is None <==> {
            &&& replies.input_names matches Ok(names) && crate::session::session::names_fault(
                names@,
            ) is None
            &&& replies.output_names matches Ok(names) && crate::session::session::names_fault(
                names@,
            ) is None
            &&& crate::session::session::meta_fault(replies.input_types@) is None
            &&& crate::session::session::meta_fault(replies.output_types@) is None
            &&& replies.run_options is Ok
        },
{
}

/// Names are taken over exactly where each of them was answered and is not null; the first failure is
/// reported.
pub proof fn every_name_is_answered(replies: Seq<Result<Option<Vec<u8>>, Error>>)
    ensures
        crate::session::session::names_fault(replies) is None <==> forall|i: int|
            0 <= i < replies.len() ==> (#[trigger] replies[i] matches Ok(Some(_))),
        crate::session::session::names_fault(replies) matches Some(error) ==> exists|i: int|
            {
                &&& 0 <= i < replies.len()
                &&& match #[trigger] replies[i] {
                    Err(reported) => error == reported,
                    Ok(None) => error == Error::Fault(crate::error::Fault::IoNameNull),
                    Ok(Some(_)) => false,
                }
                &&& forall|k: int| 0 <= k < i ==> (#[trigger] replies[k] matches Ok(Some(_)))
            },
    decreases replies.len(),
{
    if replies.len() > 0 {
        let before = replies.drop_last();
        every_name_is_answered(before);
        assert forall|i: int| 0 <= i < before.len() implies before[i] == #[trigger] replies[i] by {}
        if crate::session::session::names_fault(before) is Some {
            let i = choose|i: int|
                {
                    &&& 0 <= i < before.len()
                    &&& match #[trigger] before[i] {
                        Err(reported) => crate::session::session::names_fault(before) == Some(
                            reported,
                        ),
                        Ok(None) => crate::session::session::names_fault(before) == Some(
                            Error::Fault(crate::error::Fault::IoNameNull),
                        ),
                        Ok(Some(_)) => false,
                    }
                    &&& forall|k: int| 0 <= k < i ==> (#[trigger] before[k] matches Ok(Some(_)))
                };
            assert(replies[i] == before[i]);
            assert forall|k: int| 0 <= k < i implies (#[trigger] replies[k] matches Ok(Some(_))) by {
                assert(before[k] matches Ok(Some(_)));
            }
        } else {
            assert forall|k: int| 0 <= k < before.len() implies (
            #[trigger] replies[k] matches Ok(Some(_))) by {
                assert(before[k] matches Ok(Some(_)));
            }
            assert(replies[replies.len() - 1] == replies.last());
        }
    }
}

/// Types are taken over exactly where each of them was answered and its named dimensions are text.
pub proof fn every_type_is_answered(replies: Seq<Result<TypeReport, Error>>)
    ensures
        crate::session::session::meta_fault(replies) is None <==> forall|i: int|
            0 <= i < replies.len() ==> (#[trigger] replies[i] matches Ok(report)
                && CachedIo::cacheable(report)),
    decreases replies.len(),
{
    if replies.len() > 0 {
        let before = replies.drop_last();
        every_type_is_answered(before);
        if crate::session::session::meta_fault(before) is None {
            assert forall|k: int| 0 <= k < before.len() implies (
            #[trigger] replies[k] matches Ok(report) && CachedIo::cacheable(report)) by {
                assert(before[k] == replies[k]);
            }
            assert(replies[replies.len() - 1] == replies.last());
        } else if forall|i: int|
            0 <= i < replies.len() ==> (#[trigger] replies[i] matches Ok(report)
                && CachedIo::cacheable(report)) {
            assert forall|k: int| 0 <= k < before.len() implies (
            #[trigger] before[k] matches Ok(report) && CachedIo::cacheable(report)) by {
                assert(before[k] == replies[k]);
            }
        }
    }
}

/// A name or a type is found under every index below their number, and under no other; the side and the
/// number are reported with the index.
pub proof fn indices_name_their_entry(meta: Seq<CachedIo>, side: Side, i: usize)
    ensures
        match crate::session::session::meta_at(meta, side, i) {
            Ok(found) => i < meta.len() && found == meta[i as int],
            Err(error) => i >= meta.len() && error == (Error::SessionIndexOutOfRange {
                side,
                index: i,
                count: meta.len() as usize,
            }),
        },
{
}

} // verus!
