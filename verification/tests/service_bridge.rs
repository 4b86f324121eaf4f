use rosrust_async::service::{dropped_reply, Service};

#[test]
fn accept_reply_roundtrip() {
    let mut svc: Service<u32, u32> = Service::new("add_one".to_string());
    assert_eq!(svc.topic().as_str(), "add_one");

    let id = svc.accept(5).expect("queue was empty");
    assert_eq!(id, 0);
    // the handler thread has nothing to take yet
    assert_eq!(svc.poll_reply(id), None);

    let handle = svc.next_request().expect("one request was queued");
    assert_eq!(*handle.request(), 5);
    assert_eq!(handle.send_ok(&mut svc, 6), Ok(()));

    assert_eq!(svc.poll_reply(id), Some(Ok(6)));
    // the reply can only be taken once
    assert_eq!(svc.poll_reply(id), None);
}

#[test]
fn replies_pair_with_their_own_requests() {
    let mut svc: Service<u32, u32> = Service::new("double".to_string());
    let mut handles = Vec::new();
    let mut ids = Vec::new();
    // capacity-1 intake: each request must be taken out before the next
    // can be accepted
    for request in [10u32, 20, 30] {
        let id = svc.accept(request).expect("queue had room");
        ids.push(id);
        handles.push(svc.next_request().expect("request was queued"));
    }
    // answer out of arrival order
    let h_last = handles.pop().expect("three handles");
    let h_mid = handles.pop().expect("two handles");
    let h_first = handles.pop().expect("one handle");
    assert_eq!(h_mid.send_ok(&mut svc, 40), Ok(()));
    assert_eq!(h_last.send_ok(&mut svc, 60), Ok(()));
    assert_eq!(h_first.send_ok(&mut svc, 20), Ok(()));
    // each waiting call takes exactly the response to its own request
    assert_eq!(svc.poll_reply(ids[0]), Some(Ok(20)));
    assert_eq!(svc.poll_reply(ids[1]), Some(Ok(40)));
    assert_eq!(svc.poll_reply(ids[2]), Some(Ok(60)));
}

#[test]
fn full_intake_queue_blocks_the_producer() {
    let mut svc: Service<u32, u32> = Service::new("busy".to_string());
    assert_eq!(svc.accept(1), Ok(0));
    // the hand-off queue holds one request: the next accept is refused
    // until the consumer takes the first out
    assert_eq!(svc.accept(2), Err(2));
    let handle = svc.next_request().expect("first request");
    assert_eq!(svc.accept(2), Ok(1));
    assert_eq!(handle.send_ok(&mut svc, 0), Ok(()));
}

#[test]
fn error_reply_is_delivered() {
    let mut svc: Service<u32, u32> = Service::new("failing".to_string());
    let id = svc.accept(9).expect("queue was empty");
    let handle = svc.next_request().expect("request was queued");
    assert_eq!(handle.send_err(&mut svc, "no such thing".to_string()), Ok(()));
    assert_eq!(svc.poll_reply(id), Some(Err("no such thing".to_string())));
}

#[test]
fn dropped_handle_completes_the_call_with_an_error() {
    let mut svc: Service<u32, u32> = Service::new("dropped".to_string());
    let id = svc.accept(1).expect("queue was empty");
    let handle = svc.next_request().expect("request was queued");
    // abandoning the handle delivers the default error reply instead of
    // leaving the handler thread blocked forever
    assert!(handle.close(&mut svc));
    assert_eq!(svc.poll_reply(id), Some(Err(dropped_reply())));
}

#[test]
fn default_drop_reply_text() {
    assert_eq!(dropped_reply(), "request handle dropped without a reply");
}
