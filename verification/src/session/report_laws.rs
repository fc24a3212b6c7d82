//! What sessions report of their tensors, and what asynchronous runs hand over.
use vstd::prelude::*;

use crate::error::{Error, Side};
use crate::memory::MemoryInfo;
use crate::runtime::audit::IoDirection;
use crate::session::async_run::AsyncReply;
use crate::session::placement::{ExecutionProviderDeviceSnapshot, IoPlacement, PlacementReplies};
use crate::session::session::{CachedIo, Session};

verus! {

/// The placement of every tensor of a side is reported once, in order, with its own name, type, shape, memory
/// and device.
pub proof fn placements_describe_their_tensor(
    placed: Seq<IoPlacement>,
    start: int,
    n: int,
    direction: IoDirection,
    names: Seq<Vec<u8>>,
    meta: Seq<CachedIo>,
    memory: Seq<MemoryInfo>,
    devices: Seq<Option<ExecutionProviderDeviceSnapshot>>,
    i: int,
)
    requires
        crate::session::placement::side_placed(
            placed,
            start,
            n,
            direction,
            names,
            meta,
            memory,
            devices,
        ),
        0 <= i < n,
    ensures
        placed[start + i].index == i,
        placed[start + i].direction == direction,
        vstd::utf8::encode_utf8(placed[start + i].name@) == names[i]@,
        placed[start + i].onnx_type == meta[i].onnx_type,
        placed[start + i].element_type == meta[i].elem_type,
        placed[start + i].shape@ == meta[i].dims@,
        placed[start + i].memory_info == memory[i],
        placed[start + i].symbolic_dims@.len() == meta[i].symbolic@.len(),
        forall|k: int|
            0 <= k < meta[i].symbolic@.len() ==> {
                &&& (#[trigger] placed[start + i].symbolic_dims@[k]) is Some <==> meta[i].symbolic@[k] is Some
                &&& meta[i].symbolic@[k] matches Some(name) ==> placed[start + i].symbolic_dims@[k]->Some_0@
                    == name@
            },
        placed[start + i].ep_device is Some <==> devices[i] is Some,
        devices[i] matches Some(device) ==> {
            &&& placed[start + i].ep_device->Some_0.ep_name@ == device.ep_name@
            &&& placed[start + i].ep_device->Some_0.ep_vendor@ == device.ep_vendor@
        },
{
    assert(crate::session::placement::placed_at(
        placed,
        start,
        i,
        direction,
        names,
        meta,
        memory,
        devices,
    ));
    assert forall|k: int| 0 <= k < meta[i].symbolic@.len() implies {
        &&& (#[trigger] placed[start + i].symbolic_dims@[k]) is Some <==> meta[i].symbolic@[k] is Some
        &&& meta[i].symbolic@[k] matches Some(name) ==> placed[start + i].symbolic_dims@[k]->Some_0@
            == name@
    } by {
        let name = placed[start + i].symbolic_dims@[k];
    }
}

/// Placements are reported exactly where the engine answered all four questions, and the first failure is the
/// one that is passed on.
pub proof fn placements_need_every_answer(replies: PlacementReplies)
    ensures
        replies.fault() is None <==> {
            &&& replies.input_memory is Ok
            &&& replies.output_memory is Ok
            &&& replies.input_devices is Ok
            &&& replies.output_devices is Ok
        },
        replies.input_memory matches Err(error) ==> replies.fault() == Some(error),
        replies.input_memory is Ok ==> (replies.output_memory matches Err(error) ==> replies.fault() == Some(
            error,
        )),
        replies.input_memory is Ok && replies.output_memory is Ok ==> (
        replies.input_devices matches Err(error) ==> replies.fault() == Some(error)),
{
}

/// A question about one tensor is answered with that tensor's own entry, and one about a tensor that there is
/// not is refused whatever the engine says.
pub proof fn questions_are_answered_at_their_index<R>(
    found: Result<R, Error>,
    i: usize,
    side: Side,
    count: nat,
    reports: Result<Vec<R>, Error>,
)
    requires
        Session::report_at(found, i, side, count, reports),
        reports matches Ok(all) ==> all@.len() == count,
        count <= usize::MAX,
    ensures
        found is Ok <==> i < count && reports is Ok,
        found matches Ok(one) ==> one == reports->Ok_0@[i as int],
        i >= count ==> found == Err::<R, Error>(
            Error::SessionIndexOutOfRange { side, index: i, count: count as usize },
        ),
        i < count ==> (reports matches Err(error) ==> found == Err::<R, Error>(error)),
{
}

/// The two sides of a session are asked for by their direction.
pub proof fn directions_name_their_side(session: Session)
    ensures
        session.side(IoDirection::Input).0 == session.inputs(),
        session.side(IoDirection::Output).0 == session.outputs(),
        session.side(IoDirection::Input).1 == session.input_types(),
        session.side(IoDirection::Output).1 == session.output_types(),
        session.side(IoDirection::Input).2 is Input,
        session.side(IoDirection::Output).2 is Output,
{
}

/// An asynchronous run succeeds exactly where there was no status and the outputs, if there were any, could be
/// taken. They are then handed over as they are, and so is an error.
pub proof fn async_replies_are_handed_over<V>(reply: AsyncReply<V>, result: Result<Vec<V>, Error>)
    requires
        reply.is_outcome(result),
    ensures
        result is Ok <==> {
            ||| reply is NoOutputs
            ||| (reply is Outputs && reply->Outputs_0 is Ok)
        },
        reply matches AsyncReply::Outputs(outputs) ==> result == outputs,
        reply is NoOutputs ==> result->Ok_0@.len() == 0,
        reply matches AsyncReply::Status(status) ==> result is Err && (status matches Err(error) ==> result
            == Err::<Vec<V>, Error>(error)),
{
}

} // verus!
