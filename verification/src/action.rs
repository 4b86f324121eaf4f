//! Action bridge: goal-lifecycle analogue of the service bridge, plus
//! asynchronous feedback publishing under a borrowed-handle constraint.
//!
//! The goal-lifecycle layer has the same synchronous-callback shape as the
//! service layer: accepted goals arrive on a runtime-managed thread and are
//! pushed, as [`ActionHandle`]s, through the same bounded hand-off pattern
//! ([`ActionServer::accept`] / [`ActionServer::recv`]).
//!
//! Feedback publishing is the delicate part: the underlying goal handle is
//! only valid while the originating callback runs, yet the publish executes
//! on a blocking worker while the async caller awaits it. No further
//! feedback may start, and the handle may not be given up, while one
//! publish is still in flight. That is enforced structurally here: a
//! publish begins with [`ActionHandle::begin_feedback`], which refuses a
//! second publish while one is in flight and hands out a [`FeedbackGuard`]
//! that only this module can mint, and ends with
//! [`ActionHandle::finish_feedback`], which surrenders the guard once the
//! worker has been joined. The worker, the join and the goal-lifecycle
//! protocol itself live outside.

use vstd::prelude::*;

use crate::handoff::Handoff;

verus! {

/// How many accepted goals may sit in the hand-off queue before goal
/// acceptance throttles the runtime's dispatch thread.
pub const ACTION_QUEUE_CAPACITY: usize = 16;

/// The feedback publish reported failure (the goal was no longer active,
/// or the transport refused it). Non-fatal to the handle.
#[derive(Debug, PartialEq, Eq, Structural)]
pub struct PubFeedBackError;

/// Where a goal stands in its lifecycle.
#[derive(Clone, Copy, Debug, PartialEq, Eq, Structural)]
pub enum GoalState {
    /// Accepted but not yet active.
    Accepted,
    /// Being executed.
    Active,
    /// A cancellation has been requested and is being honoured.
    Canceling,
    /// Finished, in whatever terminal way.
    Terminal,
}

/// Proof that one feedback publish is in flight on its handle. Only
/// [`ActionHandle::begin_feedback`] mints one, and only
/// [`ActionHandle::finish_feedback`] accepts it back, so the caller
/// cannot mark the in-flight publish finished without surrendering it.
pub struct FeedbackGuard {
    marker: core::marker::PhantomData<()>,
}

/// One accepted goal taken out of the bridge: the goal body (read-only),
/// its identity and lifecycle facts, and the feedback-publish state.
pub struct ActionHandle<G, F> {
    goal_id: String,
    status: GoalState,
    canceled: bool,
    goal: G,
    feedback_in_flight: bool,
    feedbacks: Ghost<Seq<F>>,
}

impl<G, F> ActionHandle<G, F> {
    /// The goal body.
    pub closed spec fn spec_goal(&self) -> G {
        self.goal
    }

    /// The goal's identity.
    pub closed spec fn spec_goal_id(&self) -> Seq<char> {
        self.goal_id@
    }

    /// Where the goal stands in its lifecycle.
    pub closed spec fn spec_status(&self) -> GoalState {
        self.status
    }

    /// Whether a cancellation has been requested for this goal.
    pub closed spec fn is_canceled(&self) -> bool {
        self.canceled
    }

    /// Whether a feedback publish is in flight right now.
    pub closed spec fn feedback_busy(&self) -> bool {
        self.feedback_in_flight
    }

    /// Every feedback dispatched over this handle so far, in order.
    pub closed spec fn spec_feedbacks(&self) -> Seq<F> {
        self.feedbacks@
    }

    /// The two handles agree on everything but the feedback-publish state.
    pub open spec fn same_goal(&self, other: &ActionHandle<G, F>) -> bool {
        &&& self.spec_goal() == other.spec_goal()
        &&& self.spec_goal_id() == other.spec_goal_id()
        &&& self.spec_status() == other.spec_status()
        &&& self.is_canceled() == other.is_canceled()
    }

    /// Wraps one goal freshly accepted by the goal-lifecycle layer (the
    /// registration and the callback live outside). No feedback is in
    /// flight on a fresh handle.
    pub fn new(goal: G, goal_id: String, status: GoalState, canceled: bool) -> (h: ActionHandle<
        G,
        F,
    >)
        ensures
            h.spec_goal() == goal,
            h.spec_goal_id() == goal_id@,
            h.spec_status() == status,
            h.is_canceled() == canceled,
            !h.feedback_busy(),
            h.spec_feedbacks() == Seq::<F>::empty(),
    {
        ActionHandle {
            goal_id,
            status,
            canceled,
            goal,
            feedback_in_flight: false,
            feedbacks: Ghost(Seq::empty()),
        }
    }

    /// Read-only access to the goal body.
    pub fn goal(&self) -> (g: &G)
        ensures
            *g == self.spec_goal(),
    {
        &self.goal
    }

    /// The goal's identity.
    pub fn goal_id(&self) -> (id: &String)
        ensures
            id@ == self.spec_goal_id(),
    {
        &self.goal_id
    }

    /// Where the goal stands in its lifecycle.
    pub fn goal_status(&self) -> (s: GoalState)
        ensures
            s == self.spec_status(),
    {
        self.status
    }

    /// Whether a cancellation has been requested for this goal.
    pub fn canceled(&self) -> (c: bool)
        ensures
            c == self.is_canceled(),
    {
        self.canceled
    }

    /// Starts one feedback publish: hands the feedback back for the
    /// blocking worker together with the in-flight guard — unless a
    /// publish is already in flight, in which case this second publish is
    /// refused outright and the handle is left untouched. Two publishes
    /// can therefore never run over the same borrowed goal handle at
    /// once.
    pub fn begin_feedback(&mut self, feedback: F) -> (r: Result<(F, FeedbackGuard), F>)
        ensures
            final(self).same_goal(old(self)),
            !old(self).feedback_busy() ==> (r matches Ok(p) && p.0 == feedback)
                && final(self).feedback_busy() && final(self).spec_feedbacks() == old(self).spec_feedbacks().push(feedback),
            old(self).feedback_busy() ==> r == Err::<(F, FeedbackGuard), F>(feedback) && final(self).feedback_busy() && final(self).spec_feedbacks() == old(self).spec_feedbacks(),
    {
        if self.feedback_in_flight {
            Err(feedback)
        } else {
            self.feedback_in_flight = true;
            proof {
                self.feedbacks@ = self.feedbacks@.push(feedback);
            }
            Ok((feedback, FeedbackGuard { marker: core::marker::PhantomData }))
        }
    }

    /// Ends the in-flight feedback publish, after the worker has been
    /// joined, surrendering the guard; reports the worker's outcome as a
    /// non-fatal result. Only now may the next publish begin.
    pub fn finish_feedback(&mut self, guard: FeedbackGuard, delivered: bool) -> (r: Result<
        (),
        PubFeedBackError,
    >)
        ensures
            final(self).same_goal(old(self)),
            final(self).spec_feedbacks() == old(self).spec_feedbacks(),
            !final(self).feedback_busy(),
            delivered ==> r == Ok::<(), PubFeedBackError>(()),
            !delivered ==> r == Err::<(), PubFeedBackError>(PubFeedBackError),
    {
        let FeedbackGuard { marker: _ } = guard;
        self.feedback_in_flight = false;
        if delivered {
            Ok(())
        } else {
            Err(PubFeedBackError)
        }
    }
}

/// The bridge for one registered action server: the bounded hand-off
/// queue of accepted goals.
pub struct ActionServer<G, F> {
    topic: String,
    queue: Handoff<ActionHandle<G, F>>,
}

impl<G, F> ActionServer<G, F> {
    /// The accepted goals not yet taken by the consumer, in arrival order.
    pub closed spec fn pending(&self) -> Seq<ActionHandle<G, F>> {
        self.queue@
    }

    /// The topic the server was created for.
    pub closed spec fn spec_topic(&self) -> Seq<char> {
        self.topic@
    }

    /// The hand-off queue is within its bound, and no queued handle has a
    /// feedback publish in flight.
    pub closed spec fn queue_wf(&self) -> bool {
        self.queue.wf() && self.queue.cap() == ACTION_QUEUE_CAPACITY as nat
    }

    /// Every queued handle is fresh: within the bound, with no feedback in
    /// flight.
    pub open spec fn wf(&self) -> bool {
        &&& self.queue_wf()
        &&& forall|i: int|
            0 <= i < self.pending().len() ==> !(#[trigger] self.pending()[i]).feedback_busy()
    }

    /// Creates the bridge state for one registered action server (the
    /// registration with the goal-lifecycle layer lives outside).
    pub fn new(topic: String) -> (s: ActionServer<G, F>)
        ensures
            s.wf(),
            s.pending() == Seq::<ActionHandle<G, F>>::empty(),
            s.spec_topic() == topic@,
    {
        ActionServer { topic, queue: Handoff::new(ACTION_QUEUE_CAPACITY) }
    }

    /// The topic the server was created for.
    pub fn topic(&self) -> (t: &String)
        ensures
            t@ == self.spec_topic(),
    {
        &self.topic
    }

    /// The intake step run (from outside) by the goal-accept callback:
    /// queues the freshly wrapped goal. When the queue is full the handle
    /// is given back and the callback thread must retry — backpressure on
    /// the runtime's dispatch thread, throttling goal acceptance to the
    /// consumer's pace.
    pub fn accept(&mut self, handle: ActionHandle<G, F>) -> (r: Result<(), ActionHandle<G, F>>)
        requires
            old(self).wf(),
            !handle.feedback_busy(),
        ensures
            final(self).wf(),
            final(self).spec_topic() == old(self).spec_topic(),
            old(self).pending().len() < ACTION_QUEUE_CAPACITY as nat ==> r == Ok::<
                (),
                ActionHandle<G, F>,
            >(()) && final(self).pending() == old(self).pending().push(handle),
            old(self).pending().len() >= ACTION_QUEUE_CAPACITY as nat ==> r == Err::<
                (),
                ActionHandle<G, F>,
            >(handle) && final(self).pending() == old(self).pending(),
    {
        self.queue.try_push(handle)
    }

    /// The consumer's dequeue: the oldest accepted goal, if any is queued
    /// (the consuming task awaits delivery otherwise). The returned handle
    /// is fresh: its first feedback publish is never refused.
    pub fn recv(&mut self) -> (r: Option<ActionHandle<G, F>>)
        requires
            old(self).wf(),
        ensures
            final(self).wf(),
            final(self).spec_topic() == old(self).spec_topic(),
            old(self).pending().len() == 0 ==> r is None && final(self).pending() == old(self).pending(),
            old(self).pending().len() > 0 ==> (r matches Some(h) && h == old(self).pending()[0]
                && !h.feedback_busy()) && final(self).pending() == old(self).pending().remove(0),
    {
        self.queue.pop()
    }
}

} // verus!
