use rosrust_async::subscriber::{subscribe, StreamError, Subscriber};

#[test]
fn messages_arrive_in_order() {
    let (mut chan, mut sub) = subscribe::<i32>("chatter".to_string(), 4);
    assert_eq!(chan.topic().as_str(), "chatter");
    chan.publish(1);
    chan.publish(2);
    assert_eq!(sub.recv(&chan), Some(&1));
    assert_eq!(sub.recv(&chan), Some(&2));
    assert_eq!(sub.try_recv(&chan), Err(StreamError::Empty));
}

#[test]
fn overflow_drops_oldest_and_recv_yields_newest() {
    // buffer bound 1, as the bridge registers it: publishing a second
    // message before any read drops the first
    let (mut chan, mut sub) = subscribe::<i32>("fast".to_string(), 1);
    chan.publish(10);
    chan.publish(20);
    assert_eq!(sub.recv(&chan), Some(&20));
    assert_eq!(sub.try_recv(&chan), Err(StreamError::Empty));
}

#[test]
fn lag_is_reported_and_resynchronized_not_an_error() {
    let (mut chan, mut sub) = subscribe::<i32>("wide".to_string(), 2);
    chan.publish(1);
    chan.publish(2);
    chan.publish(3);
    // one message fell out of the window: the cursor moves up to the
    // oldest retained message
    assert_eq!(sub.try_recv(&chan), Err(StreamError::Lagged(1)));
    assert_eq!(sub.try_recv(&chan), Ok(&2));
    assert_eq!(sub.try_recv(&chan), Ok(&3));
}

#[test]
fn clone_and_original_both_observe_the_next_message_once() {
    let (mut chan, mut sub) = subscribe::<i32>("shared".to_string(), 1);
    chan.publish(5);
    assert_eq!(sub.recv(&chan), Some(&5));
    let mut cloned: Subscriber<i32> = sub.clone_cursor(&chan);
    chan.publish(6);
    assert_eq!(sub.recv(&chan), Some(&6));
    assert_eq!(cloned.recv(&chan), Some(&6));
    // exactly once each
    assert_eq!(sub.try_recv(&chan), Err(StreamError::Empty));
    assert_eq!(cloned.try_recv(&chan), Err(StreamError::Empty));
}

#[test]
fn teardown_yields_end_of_stream_after_the_backlog() {
    let (mut chan, mut sub) = subscribe::<i32>("closing".to_string(), 2);
    chan.publish(7);
    chan.close();
    assert_eq!(sub.recv(&chan), Some(&7));
    assert_eq!(sub.recv(&chan), None);
    assert_eq!(sub.try_recv(&chan), Err(StreamError::Closed));
}
