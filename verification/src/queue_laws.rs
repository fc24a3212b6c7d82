//! What a queue does with what is sent.
use vstd::prelude::*;

use crate::spsc::{Inner, Pause, QueueView, TryRecvError, TrySendError};

verus! {

/// A value is taken exactly where both sides are open and there is room, and then stands behind all others.
/// A value that is not taken is given back, and the queue is as it was.
pub proof fn queues_take_what_fits<T>(
    before: QueueView<T>,
    value: T,
    after: QueueView<T>,
    result: Result<(), TrySendError<T>>,
)
    requires
        before.tried_send(value, after, result),
        before.contents.len() <= before.capacity,
    ensures
        result is Ok <==> !before.sender_closed && !before.receiver_closed && before.contents.len()
            < before.capacity,
        result is Ok ==> {
            &&& after.contents.len() == before.contents.len() + 1
            &&& after.contents.take(before.contents.len() as int) == before.contents
            &&& after.contents[before.contents.len() as int] == value
            &&& after.contents.len() <= after.capacity
        },
        result is Err ==> after == before,
        result matches Err(TrySendError::Closed(returned)) ==> returned == value && (before.sender_closed
            || before.receiver_closed),
        result matches Err(TrySendError::Full(returned)) ==> returned == value && !before.sender_closed
            && !before.receiver_closed && before.contents.len() == before.capacity,
        after.capacity == before.capacity,
        after.sender_closed == before.sender_closed && after.receiver_closed == before.receiver_closed,
{
    if result is Ok {
        assert(after.contents.take(before.contents.len() as int) =~= before.contents);
    }
}

/// A value comes out exactly where one is queued, closed or not, and it is the one that was sent first of
/// those. An empty queue says whether more can come.
pub proof fn queues_give_the_oldest_value<T>(
    before: QueueView<T>,
    after: QueueView<T>,
    result: Result<T, TryRecvError>,
)
    requires
        before.tried_recv(after, result),
    ensures
        result is Ok <==> before.contents.len() > 0,
        result matches Ok(value) ==> {
            &&& before.contents[0] == value
            &&& before.contents == seq![value] + after.contents
        },
        result is Err ==> after == before,
        result == Err::<T, TryRecvError>(TryRecvError::Closed) <==> before.contents.len() == 0
            && before.sender_closed,
        after.capacity == before.capacity,
        after.sender_closed == before.sender_closed && after.receiver_closed == before.receiver_closed,
{
    if result is Ok {
        assert(before.contents =~= seq![before.contents[0]] + after.contents);
    }
}

/// A queue has room for as many values as the smallest power of two that holds the requested count.
pub proof fn capacities_are_rounded_up<T>(queue: Inner<T>, capacity: usize, exponent: nat)
    requires
        crate::spsc::is_fresh(queue, capacity),
        vstd::arithmetic::power2::pow2(exponent) >= capacity,
    ensures
        capacity <= queue@.capacity <= vstd::arithmetic::power2::pow2(exponent),
        queue@.contents.len() == 0,
        !queue@.sender_closed && !queue@.receiver_closed,
{
    let own = choose|own: nat| queue@.capacity == #[trigger] vstd::arithmetic::power2::pow2(own);
    if own > exponent {
        vstd::arithmetic::power2::lemma_pow2_unfold(own);
        if own - 1 > exponent {
            vstd::arithmetic::power2::lemma_pow2_strictly_increases(exponent, (own - 1) as nat);
        }
    } else if own < exponent {
        vstd::arithmetic::power2::lemma_pow2_strictly_increases(own, exponent);
    }
}

/// A waiting side tries again at once, spins until it has failed as often as it may, and then parks. A side
/// that never spins parks at once.
pub proof fn waits_spin_before_they_park(spins: usize, failed: usize)
    requires
        failed <= spins,
    ensures
        crate::spsc::pause(spins, failed) == (if failed == spins {
            if spins == 0 {
                Pause::Park
            } else {
                Pause::SpinAndPark
            }
        } else if failed == 0 {
            Pause::Retry
        } else {
            Pause::Spin
        }),
        failed < spins ==> crate::spsc::failures(spins, failed) == failed + 1,
        failed == spins ==> crate::spsc::failures(spins, failed) == 0,
{
}

} // verus!
