use rosrust_async::oneshot_blocking::State;
use rosrust_async::publisher::Publisher;

#[test]
fn dispatch_and_await_the_real_outcome() {
    let mut publisher: Publisher<i32> = Publisher::new("chatter".to_string(), 8);
    assert_eq!(publisher.topic().as_str(), "chatter");
    let (message, tx, rx, mut slot) = publisher.send(99);
    // the worker receives exactly the message that was sent
    assert_eq!(message, 99);
    // worker side: transmit done, report success
    assert_eq!(tx.send(&mut slot, Ok(())), Ok(()));
    // task side: the awaited operation resolves with the real outcome
    assert_eq!(rx.recv(&mut slot), Ok(Ok(())));
}

#[test]
fn transport_error_reaches_the_awaiting_task() {
    let mut publisher: Publisher<i32> = Publisher::new("chatter".to_string(), 8);
    let (_message, tx, rx, mut slot) = publisher.send(1);
    assert_eq!(tx.send(&mut slot, Err("wire down".to_string())), Ok(()));
    assert_eq!(rx.recv(&mut slot), Ok(Err("wire down".to_string())));
}

#[test]
fn abandoned_await_never_alters_the_outcome() {
    let mut publisher: Publisher<i32> = Publisher::new("chatter".to_string(), 8);
    let (message, tx, rx, mut slot) = publisher.send(5);
    // the task abandons the await before the worker finishes
    rx.close(&mut slot);
    // the transmit still ran to completion with this message
    assert_eq!(message, 5);
    // the report is merely discarded: the worker gets the real outcome
    // back unchanged, nothing is fabricated for anyone
    assert_eq!(tx.send(&mut slot, Err("wire down".to_string())), Err(Err("wire down".to_string())));
    assert!(matches!(slot, State::Closed));
}

#[test]
fn reconfiguration_only_affects_future_sends() {
    let mut publisher: Publisher<i32> = Publisher::new("latched".to_string(), 1);
    assert!(!publisher.latching());
    assert_eq!(publisher.queue_size(), 1);
    publisher.set_latching(true);
    publisher.set_queue_size(16);
    assert!(publisher.latching());
    assert_eq!(publisher.queue_size(), 16);
}
