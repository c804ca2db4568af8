use keyboard::channel::Channel;

#[test]
fn single_slot_backpressure() {
    let mut ch: Channel<u32> = Channel::new();
    assert!(!ch.is_full());

    // The first send goes through.
    assert_eq!(ch.try_send(1), Ok(()));
    assert!(ch.is_full());

    // A second send while the first value has not been consumed does not
    // go through: nothing is dropped or overwritten, and the sender keeps
    // its value to retry.
    assert_eq!(ch.try_send(2), Err(2));
    assert!(ch.is_full());

    // Only consumption frees the slot; the pending value is the first.
    assert_eq!(ch.try_recv(), Some(1));
    assert!(!ch.is_full());

    // Now the retried send goes through.
    assert_eq!(ch.try_send(2), Ok(()));
    assert_eq!(ch.try_recv(), Some(2));
    assert_eq!(ch.try_recv(), None);
}

#[test]
fn events_are_delivered_in_send_order() {
    // Within one producer, values arrive in send order: the slot forces
    // strict alternation of send and receive.
    let mut ch: Channel<u32> = Channel::new();
    let mut received = Vec::new();
    for value in [10u32, 20, 30] {
        assert_eq!(ch.try_send(value), Ok(()));
        received.push(ch.try_recv().expect("value lost"));
    }
    assert_eq!(received, vec![10, 20, 30]);
}
