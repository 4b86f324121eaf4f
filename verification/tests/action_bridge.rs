use rosrust_async::action::{
    ActionHandle, ActionServer, GoalState, PubFeedBackError, ACTION_QUEUE_CAPACITY,
};

#[test]
fn accepted_goal_reaches_the_consumer() {
    let mut server: ActionServer<u8, u8> = ActionServer::new("move_base".to_string());
    assert_eq!(server.topic().as_str(), "move_base");
    assert!(server.recv().is_none());
    let handle = ActionHandle::new(7, "goal-1".to_string(), GoalState::Active, false);
    assert!(server.accept(handle).is_ok());
    let handle = server.recv().expect("one goal was queued");
    assert_eq!(*handle.goal(), 7);
    assert_eq!(handle.goal_id().as_str(), "goal-1");
    assert_eq!(handle.goal_status(), GoalState::Active);
    assert!(!handle.canceled());
}

#[test]
fn goal_intake_throttles_at_the_bound() {
    let mut server: ActionServer<u8, u8> = ActionServer::new("busy".to_string());
    for i in 0..ACTION_QUEUE_CAPACITY {
        let handle =
            ActionHandle::new(i as u8, format!("goal-{}", i), GoalState::Accepted, false);
        assert!(server.accept(handle).is_ok());
    }
    let overflow = ActionHandle::new(99, "goal-overflow".to_string(), GoalState::Accepted, false);
    // the queue is full: the callback thread gets the handle back and
    // must wait for the consumer
    assert!(server.accept(overflow).is_err());
    assert_eq!(*server.recv().expect("oldest goal").goal(), 0);
}

#[test]
fn second_feedback_is_refused_while_one_is_in_flight() {
    let mut handle: ActionHandle<u8, u8> =
        ActionHandle::new(1, "goal-2".to_string(), GoalState::Active, false);
    let (feedback, guard) = handle.begin_feedback(10).expect("nothing was in flight");
    assert_eq!(feedback, 10);
    // the first publish has not been joined yet: a concurrent second
    // publish over the same borrowed goal handle is rejected
    assert!(matches!(handle.begin_feedback(11), Err(11)));
    assert_eq!(handle.finish_feedback(guard, true), Ok(()));
    // once joined, the next publish may begin
    let (feedback, guard) = handle.begin_feedback(12).expect("in-flight publish was finished");
    assert_eq!(feedback, 12);
    assert_eq!(handle.finish_feedback(guard, true), Ok(()));
}

#[test]
fn failed_feedback_publish_is_reported_not_fatal() {
    let mut handle: ActionHandle<u8, u8> =
        ActionHandle::new(1, "goal-3".to_string(), GoalState::Canceling, true);
    assert!(handle.canceled());
    let (_feedback, guard) = handle.begin_feedback(1).expect("nothing was in flight");
    assert_eq!(handle.finish_feedback(guard, false), Err(PubFeedBackError));
    // the handle stays usable
    let (_feedback, guard) = handle.begin_feedback(2).expect("nothing was in flight");
    assert_eq!(handle.finish_feedback(guard, true), Ok(()));
}
