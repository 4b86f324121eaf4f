use rosrust_async::oneshot_blocking::{channel, RecvError, State, TryRecvError};

#[test]
fn channel_starts_empty() {
    let (_tx, _rx, mut slot) = channel::<u32>();
    assert!(matches!(slot, State::NotSent));
    assert!(matches!(slot.take(), State::NotSent));
}

#[test]
fn send_then_recv_delivers_exactly_the_value() {
    let (tx, rx, mut slot) = channel::<u32>();
    assert_eq!(tx.send(&mut slot, 42), Ok(()));
    assert!(matches!(slot, State::Sent(42)));
    assert_eq!(rx.recv(&mut slot), Ok(42));
    assert!(matches!(slot, State::Closed));
}

#[test]
fn send_into_closed_slot_returns_the_value() {
    let (tx, rx, mut slot) = channel::<&'static str>();
    rx.close(&mut slot);
    assert!(matches!(slot, State::Closed));
    assert_eq!(tx.send(&mut slot, "lost"), Err("lost"));
    assert!(matches!(slot, State::Closed));
}

#[test]
fn sender_close_makes_recv_fail() {
    let (tx, rx, mut slot) = channel::<u32>();
    tx.close(&mut slot);
    assert_eq!(rx.recv(&mut slot), Err(RecvError));
}

#[test]
fn try_recv_reports_empty_value_closed() {
    let (tx, mut rx, mut slot) = channel::<u32>();
    assert_eq!(rx.try_recv(&mut slot), Err(TryRecvError::Empty));
    assert_eq!(tx.send(&mut slot, 7), Ok(()));
    assert_eq!(rx.try_recv(&mut slot), Ok(7));
    assert_eq!(rx.try_recv(&mut slot), Err(TryRecvError::Closed));
}

#[test]
fn close_after_send_keeps_the_value() {
    let (tx, rx, mut slot) = channel::<u32>();
    assert_eq!(tx.send(&mut slot, 5), Ok(()));
    rx.close(&mut slot);
    assert!(matches!(slot, State::Sent(5)));
}
