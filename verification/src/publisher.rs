//! Publisher bridge: a non-blocking handle around the runtime's synchronous
//! topic transmit.
//!
//! A send moves the message (with a clone of the underlying handle) onto a
//! blocking-capable worker thread; the worker performs the synchronous
//! transmit there and delivers the real outcome through a fresh rendezvous
//! slot, on which the sending task awaits. The dispatch is not cancellable:
//! once [`Publisher::send`] has handed the message over, the transmit runs
//! to completion whether or not the awaiting task is abandoned — an
//! abandoned await closes its end of the slot and thereby discards the
//! outcome report, but can neither stop the transmit nor change what the
//! outcome was ([`lemma_transmit_outcome_survives_abandonment`]).

use vstd::prelude::*;

use crate::oneshot_blocking::{channel, send_transition, Receiver, Sender, State};

verus! {

/// What the synchronous transmit reported: success, or a transport error
/// message.
pub type TransmitOutcome = Result<(), String>;

/// The bridge state for one registered publisher handle.
pub struct Publisher<M> {
    topic: String,
    latching: bool,
    queue_size: usize,
    dispatched: Ghost<Seq<M>>,
}

impl<M> Publisher<M> {
    /// The topic the handle publishes to.
    pub closed spec fn spec_topic(&self) -> Seq<char> {
        self.topic@
    }

    /// Whether late subscribers are to receive the last sent message.
    pub closed spec fn is_latching(&self) -> bool {
        self.latching
    }

    /// The transmit-side queue bound configured on the handle.
    pub closed spec fn spec_queue_size(&self) -> nat {
        self.queue_size as nat
    }

    /// Every message handed to the transport so far, in program order.
    pub closed spec fn dispatched(&self) -> Seq<M> {
        self.dispatched@
    }

    /// Creates the bridge state for one registered publisher (the runtime
    /// registration itself lives outside). Latching starts off.
    pub fn new(topic: String, queue_size: usize) -> (p: Publisher<M>)
        ensures
            p.spec_topic() == topic@,
            !p.is_latching(),
            p.spec_queue_size() == queue_size as nat,
            p.dispatched() == Seq::<M>::empty(),
    {
        Publisher { topic, latching: false, queue_size, dispatched: Ghost(Seq::empty()) }
    }

    /// The topic the handle publishes to.
    pub fn topic(&self) -> (t: &String)
        ensures
            t@ == self.spec_topic(),
    {
        &self.topic
    }

    /// Whether late subscribers are to receive the last sent message.
    pub fn latching(&self) -> (l: bool)
        ensures
            l == self.is_latching(),
    {
        self.latching
    }

    /// The transmit-side queue bound configured on the handle.
    pub fn queue_size(&self) -> (n: usize)
        ensures
            n as nat == self.spec_queue_size(),
    {
        self.queue_size
    }

    /// Reconfigures latching on the underlying handle; only future sends
    /// are affected.
    pub fn set_latching(&mut self, latching: bool)
        ensures
            final(self).is_latching() == latching,
            final(self).spec_topic() == old(self).spec_topic(),
            final(self).spec_queue_size() == old(self).spec_queue_size(),
            final(self).dispatched() == old(self).dispatched(),
    {
        self.latching = latching;
    }

    /// Reconfigures the transmit-side queue bound; only future sends are
    /// affected.
    pub fn set_queue_size(&mut self, queue_size: usize)
        ensures
            final(self).spec_queue_size() == queue_size as nat,
            final(self).spec_topic() == old(self).spec_topic(),
            final(self).is_latching() == old(self).is_latching(),
            final(self).dispatched() == old(self).dispatched(),
    {
        self.queue_size = queue_size;
    }

    /// Dispatches one message: records it as handed to the transport and
    /// creates the rendezvous through which the worker will report the real
    /// transmit outcome. The caller moves the message and the producing end
    /// to the blocking worker; the awaiting task keeps the receiving end
    /// and the slot. Abandoning the await does not undo the dispatch.
    pub fn send(&mut self, message: M) -> (r: (
        M,
        Sender<TransmitOutcome>,
        Receiver<TransmitOutcome>,
        State<TransmitOutcome>,
    ))
        ensures
            r.0 == message,
            r.3 is NotSent,
            final(self).dispatched() == old(self).dispatched().push(message),
            final(self).spec_topic() == old(self).spec_topic(),
            final(self).is_latching() == old(self).is_latching(),
            final(self).spec_queue_size() == old(self).spec_queue_size(),
    {
        proof {
            self.dispatched@ = self.dispatched@.push(message);
        }
        let (tx, rx, slot) = channel();
        (message, tx, rx, slot)
    }
}

/// A send's outcome is the real one even when the awaiting task is
/// abandoned mid-await: whatever the receiving end did to the slot, the
/// worker's report either lands unchanged (the slot was still open) or is
/// merely discarded (the abandoned end had closed the slot) — it is never
/// replaced by a made-up outcome, and the dispatch itself, recorded by
/// [`Publisher::send`] before the worker runs, stands regardless.
pub proof fn lemma_transmit_outcome_survives_abandonment(
    slot: State<TransmitOutcome>,
    outcome: TransmitOutcome,
)
    ensures
        slot is NotSent ==> send_transition(slot, outcome) == State::Sent(outcome),
        !(slot is NotSent) ==> send_transition(slot, outcome) == slot,
{
}

} // verus!
