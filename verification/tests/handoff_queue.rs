use rosrust_async::handoff::Handoff;

#[test]
fn items_come_out_in_arrival_order() {
    let mut q: Handoff<u32> = Handoff::new(3);
    assert_eq!(q.try_push(1), Ok(()));
    assert_eq!(q.try_push(2), Ok(()));
    assert_eq!(q.try_push(3), Ok(()));
    assert_eq!(q.pop(), Some(1));
    assert_eq!(q.pop(), Some(2));
    assert_eq!(q.pop(), Some(3));
    assert_eq!(q.pop(), None);
}

#[test]
fn full_queue_hands_the_item_back() {
    let mut q: Handoff<&'static str> = Handoff::new(1);
    assert_eq!(q.capacity(), 1);
    assert_eq!(q.try_push("first"), Ok(()));
    assert_eq!(q.try_push("second"), Err("second"));
    assert_eq!(q.len(), 1);
    assert_eq!(q.pop(), Some("first"));
    assert_eq!(q.try_push("second"), Ok(()));
}
