//! The bounded queue between one producer and one consumer.
use st_zrt::spsc::{
    bounded_spsc, bounded_spsc_with_spins, Pause, RecvStep, SendError, SendStep, TryRecvError,
    TrySendError,
};

#[test]
fn capacities_round_up_to_a_power_of_two() {
    for (asked, given) in [(1, 1), (2, 2), (3, 4), (5, 8), (8, 8)] {
        let (queue, sender, receiver) = bounded_spsc::<u32>(asked);
        assert_eq!(sender.capacity(&queue), given);
        assert_eq!(receiver.capacity(&queue), given);
    }
}

#[test]
fn values_keep_their_order_around_the_ring() {
    let (mut queue, sender, receiver) = bounded_spsc::<u32>(4);
    let mut next = 0;
    for round in 0..50u32 {
        for k in 0..3 {
            sender.try_send(&mut queue, round * 3 + k).unwrap();
        }
        for _ in 0..3 {
            assert_eq!(receiver.try_recv(&mut queue), Ok(next));
            next += 1;
        }
    }
    assert!(receiver.is_empty(&queue));
}

#[test]
fn full_queues_give_the_value_back() {
    let (mut queue, sender, _) = bounded_spsc::<u32>(2);
    sender.try_send(&mut queue, 1).unwrap();
    sender.try_send(&mut queue, 2).unwrap();
    assert_eq!(
        sender.try_send(&mut queue, 3),
        Err(TrySendError::Full(3))
    );
    assert_eq!(sender.len(&queue), 2);
}

#[test]
fn closed_senders_drain() {
    let (mut queue, sender, receiver) = bounded_spsc::<u32>(2);
    sender.try_send(&mut queue, 1).unwrap();
    sender.close(&mut queue);
    assert_eq!(
        sender.try_send(&mut queue, 2),
        Err(TrySendError::Closed(2))
    );
    assert!(!receiver.is_closed(&queue));
    assert_eq!(receiver.try_recv(&mut queue), Ok(1));
    assert_eq!(receiver.try_recv(&mut queue), Err(TryRecvError::Closed));
    assert!(receiver.is_closed(&queue));
}

#[test]
fn closed_receivers_refuse_values() {
    let (mut queue, mut sender, receiver) = bounded_spsc::<u32>(2);
    assert_eq!(receiver.try_recv(&mut queue), Err(TryRecvError::Empty));
    receiver.close(&mut queue);
    assert!(sender.is_closed(&queue));
    match sender.send(&mut queue, 5) {
        SendStep::Closed(SendError(value)) => assert_eq!(value, 5),
        other => panic!("{other:?}"),
    }
}

#[test]
fn blocking_operations_spin_and_then_park() {
    let (mut queue, _, mut receiver) = bounded_spsc_with_spins::<u32>(1, 3);
    let mut pauses = Vec::new();
    for _ in 0..5 {
        match receiver.recv(&mut queue) {
            RecvStep::Wait(pause) => pauses.push(pause),
            other => panic!("{other:?}"),
        }
    }
    assert_eq!(
        pauses,
        [
            Pause::Retry,
            Pause::Spin,
            Pause::Spin,
            Pause::SpinAndPark,
            Pause::Retry
        ]
    );
}

#[test]
fn blocking_sends_wait_for_room() {
    let (mut queue, mut sender, mut receiver) = bounded_spsc_with_spins::<u32>(1, 0);
    assert!(matches!(sender.send(&mut queue, 1), SendStep::Sent));
    match sender.send(&mut queue, 2) {
        SendStep::Wait(2, Pause::Park) => {},
        other => panic!("{other:?}"),
    }
    assert!(matches!(receiver.recv(&mut queue), RecvStep::Received(1)));
    assert!(matches!(sender.send(&mut queue, 2), SendStep::Sent));
    sender.close(&mut queue);
    assert!(matches!(receiver.recv(&mut queue), RecvStep::Received(2)));
    assert!(matches!(receiver.recv(&mut queue), RecvStep::Closed));
}
