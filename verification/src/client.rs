//! Client bridge: an async wrapper around the runtime's blocking service
//! call, with availability polling.
//!
//! Before first use the client polls the runtime's availability probe at a
//! fixed interval. Each poll yields one [`Probe`]; [`wait_step`] is the
//! verified decision on it: a timed-out probe is retried for as long as no
//! shutdown has been requested — the mere absence of the service so far is
//! never an error — while a registered service completes the wait with
//! success, and a shutdown or any other probe failure is terminal. The
//! polling loop, its sleep interval and the shutdown flag live outside;
//! they feed every observation through this one decision.
//!
//! A call itself is dispatched like a publish: the request travels to a
//! blocking worker that performs the synchronous round trip and delivers
//! the transport result — which itself wraps the remote handler's own
//! success or failure — through a rendezvous slot the calling task awaits.

use vstd::prelude::*;

use crate::oneshot_blocking::{channel, Receiver, Sender, State};

verus! {

/// One observation of the runtime's availability probe.
#[derive(Debug, PartialEq, Eq)]
pub enum Probe {
    /// The service is registered.
    Available,
    /// The probe timed out: the service is merely not there yet.
    TimedOut,
    /// The probe failed for some other reason, with its message.
    Failed(String),
}

/// Why waiting for a service ended without success.
#[derive(Debug, PartialEq, Eq)]
pub enum ClientError {
    /// A process-wide shutdown was requested while waiting.
    Shutdown,
    /// The availability probe failed, with its message.
    Failed(String),
}

/// What the waiting loop does after one probe.
#[derive(Debug, PartialEq, Eq)]
pub enum WaitStep {
    /// Poll again after the interval.
    Retry,
    /// The wait is over, with this result.
    Complete(Result<(), ClientError>),
}

/// The decision taken on one probe observation, given whether a
/// process-wide shutdown has been requested by then.
pub open spec fn wait_step_spec(probe: Probe, shutdown_requested: bool) -> WaitStep {
    match probe {
        Probe::Available => WaitStep::Complete(Ok(())),
        Probe::TimedOut => if shutdown_requested {
            WaitStep::Complete(Err(ClientError::Shutdown))
        } else {
            WaitStep::Retry
        },
        Probe::Failed(message) => WaitStep::Complete(Err(ClientError::Failed(message))),
    }
}

/// The decision step of the availability wait: retry on a timeout while
/// the process is still running; stop on registration, shutdown, or any
/// other probe failure. The loop around it (probe, sleep, poll the
/// shutdown flag) lives outside.
pub fn wait_step(probe: Probe, shutdown_requested: bool) -> (r: WaitStep)
    ensures
        r == wait_step_spec(probe, shutdown_requested),
{
    match probe {
        Probe::Available => WaitStep::Complete(Ok(())),
        Probe::TimedOut => if shutdown_requested {
            WaitStep::Complete(Err(ClientError::Shutdown))
        } else {
            WaitStep::Retry
        },
        Probe::Failed(message) => WaitStep::Complete(Err(ClientError::Failed(message))),
    }
}

/// The result the waiting loop reaches on a given sequence of
/// observations (each probe paired with the shutdown flag read beside
/// it): the first decisive step's result, or nothing when every
/// observation so far said retry.
pub open spec fn wait_outcome(events: Seq<(Probe, bool)>) -> Option<Result<(), ClientError>>
    decreases events.len(),
{
    if events.len() == 0 {
        None
    } else {
        match wait_step_spec(events[0].0, events[0].1) {
            WaitStep::Retry => wait_outcome(events.drop_first()),
            WaitStep::Complete(r) => Some(r),
        }
    }
}

/// A service that appears after any number of quiet polls is waited out
/// successfully: when every observation before the `k`-th was a timeout
/// with no shutdown requested, and the `k`-th finds the service
/// registered, the wait completes with success — never with an error
/// manufactured from the service's absence so far.
pub proof fn lemma_wait_succeeds_once_available(events: Seq<(Probe, bool)>, k: int)
    requires
        0 <= k < events.len(),
        forall|i: int| 0 <= i < k ==> (#[trigger] events[i]).0 is TimedOut && !events[i].1,
        events[k].0 is Available,
    ensures
        wait_outcome(events) == Some(Ok::<(), ClientError>(())),
    decreases k,
{
    if k == 0 {
    } else {
        assert(events[0].0 is TimedOut && !events[0].1);
        assert forall|i: int| 0 <= i < k - 1 implies (#[trigger] events.drop_first()[i]).0
            is TimedOut && !events.drop_first()[i].1 by {
            assert(events.drop_first()[i] == events[i + 1]);
        }
        assert(events.drop_first()[k - 1] == events[k]);
        lemma_wait_succeeds_once_available(events.drop_first(), k - 1);
    }
}

/// The absence of the service so far is not an error: a timed-out probe
/// while the process is still running always decides to poll again.
pub proof fn lemma_absence_is_not_an_error()
    ensures
        wait_step_spec(Probe::TimedOut, false) == WaitStep::Retry,
{
}

/// The transport result of one round trip, wrapping the remote handler's
/// own success or failure.
pub type CallOutcome<Resp> = Result<Result<Resp, String>, String>;

/// The bridge state for one service client handle. The availability wait
/// that precedes its creation runs outside, through [`wait_step`].
pub struct Client<Req, Resp> {
    topic: String,
    requests: Ghost<Seq<Req>>,
    marker: core::marker::PhantomData<Resp>,
}

impl<Req, Resp> Client<Req, Resp> {
    /// The topic the client calls.
    pub closed spec fn spec_topic(&self) -> Seq<char> {
        self.topic@
    }

    /// Every request dispatched so far, in program order.
    pub closed spec fn dispatched(&self) -> Seq<Req> {
        self.requests@
    }

    /// Creates the bridge state for one client handle (the runtime handle
    /// itself, and the availability wait before it, live outside).
    pub fn new(topic: String) -> (c: Client<Req, Resp>)
        ensures
            c.spec_topic() == topic@,
            c.dispatched() == Seq::<Req>::empty(),
    {
        Client { topic, requests: Ghost(Seq::empty()), marker: core::marker::PhantomData }
    }

    /// The topic the client calls.
    pub fn topic(&self) -> (t: &String)
        ensures
            t@ == self.spec_topic(),
    {
        &self.topic
    }

    /// Dispatches one round trip: records the request as handed to the
    /// worker and creates the rendezvous through which the worker will
    /// report the transport result. Once dispatched, the round trip runs
    /// to completion whether or not the awaiting task is abandoned.
    pub fn req(&mut self, request: Req) -> (r: (
        Req,
        Sender<CallOutcome<Resp>>,
        Receiver<CallOutcome<Resp>>,
        State<CallOutcome<Resp>>,
    ))
        ensures
            r.0 == request,
            r.3 is NotSent,
            final(self).dispatched() == old(self).dispatched().push(request),
            final(self).spec_topic() == old(self).spec_topic(),
    {
        proof {
            self.requests@ = self.requests@.push(request);
        }
        let (tx, rx, slot) = channel();
        (request, tx, rx, slot)
    }
}

} // verus!
