//! Single-slot rendezvous: exactly-once handoff of one value from a producer
//! to a consumer.
//!
//! The slot is tri-state: `NotSent`, `Sent(value)` and `Closed`. The only
//! transitions are `NotSent -> Sent` (the producer delivers) and
//! `NotSent -> Closed` (an end gives up without delivering); `Sent` and
//! `Closed` are terminal for the producer, and receiving a value marks the
//! slot `Closed` so that the handoff cannot be observed twice.
//!
//! In a threaded program the slot sits under a mutex, and a condition
//! variable parks the receiving thread while the slot is still `NotSent`.
//! That waiting cannot stand in verified code, so here the slot is an
//! explicit value handed to every operation: `Sender` and `Receiver` are
//! consume-once capabilities over it, and the caller that owns the lock
//! decides when `recv` may run (namely once the slot has left `NotSent`).
//! Abandoning an end without delivering is the explicit `close` operation,
//! to be called on every exit path.

use vstd::prelude::*;

verus! {

/// Error returned by [`Receiver::try_recv`] when no value can be taken.
#[derive(Debug, PartialEq, Eq, Structural)]
pub enum TryRecvError {
    /// Nothing has been sent yet; the caller may wait and try again.
    Empty,
    /// The slot is closed: no value will ever arrive.
    Closed,
}

/// Error returned by [`Receiver::recv`] when the producer closed the slot
/// without sending.
#[derive(Debug, PartialEq, Eq, Structural)]
pub struct RecvError;

/// The rendezvous slot shared by one [`Sender`] and one [`Receiver`].
pub enum State<T> {
    /// The producer has delivered a value that nobody has taken yet.
    Sent(T),
    /// Nothing has happened yet.
    NotSent,
    /// No value will ever be delivered or taken again.
    Closed,
}

impl<T> State<T> {
    /// Moves the current state out, leaving `NotSent` behind.
    pub fn take(&mut self) -> (prev: State<T>)
        ensures
            prev == *old(self),
            *final(self) is NotSent,
    {
        let mut out = State::NotSent;
        core::mem::swap(self, &mut out);
        out
    }
}

/// What a send does to the slot: it fills a `NotSent` slot and leaves any
/// other slot as it was.
pub open spec fn send_transition<T>(s: State<T>, val: T) -> State<T> {
    if s is NotSent {
        State::Sent(val)
    } else {
        s
    }
}

/// What closing an end does to the slot: it closes a `NotSent` slot and
/// leaves any other slot as it was.
pub open spec fn close_transition<T>(s: State<T>) -> State<T> {
    if s is NotSent {
        State::Closed
    } else {
        s
    }
}

/// The producing end of a rendezvous pair. Consumed by [`Sender::send`] or
/// [`Sender::close`], so a producer can deliver at most once.
pub struct Sender<T> {
    marker: core::marker::PhantomData<T>,
}

impl<T> Sender<T> {
    /// Delivers `val` into the slot. Succeeds exactly when the slot is still
    /// `NotSent`; a slot that is already `Closed` (or already holds a value)
    /// refuses the send and hands the value back to the caller.
    pub fn send(self, slot: &mut State<T>, val: T) -> (r: Result<(), T>)
        ensures
            *final(slot) == send_transition(*old(slot), val),
            *old(slot) is NotSent ==> r == Ok::<(), T>(()),
            !(*old(slot) is NotSent) ==> r == Err::<(), T>(val),
    {
        match slot {
            State::NotSent => {
                *slot = State::Sent(val);
                Ok(())
            },
            _ => Err(val),
        }
    }

    /// Abandons the producing end: a slot still waiting for a value becomes
    /// `Closed`, so the receiver is released instead of waiting forever.
    pub fn close(self, slot: &mut State<T>)
        ensures
            *final(slot) == close_transition(*old(slot)),
    {
        match slot {
            State::NotSent => {
                *slot = State::Closed;
            },
            _ => {},
        }
    }
}

/// The consuming end of a rendezvous pair.
pub struct Receiver<T> {
    marker: core::marker::PhantomData<T>,
}

impl<T> Receiver<T> {
    /// Takes the rendezvous outcome once the slot has been resolved. The
    /// caller must first wait until the slot has left `NotSent` (in a
    /// threaded program: block on the condition variable while it is still
    /// `NotSent`); this wait is the caller's, never the scheduler's.
    pub fn recv(self, slot: &mut State<T>) -> (r: Result<T, RecvError>)
        requires
            !(*old(slot) is NotSent),
        ensures
            *final(slot) is Closed,
            *old(slot) matches State::Sent(v) ==> r == Ok::<T, RecvError>(v),
            *old(slot) is Closed ==> r == Err::<T, RecvError>(RecvError),
    {
        let prev = slot.take();
        *slot = State::Closed;
        match prev {
            State::Sent(v) => Ok(v),
            _ => Err(RecvError),
        }
    }

    /// Polls the slot without waiting: the value if one is ready, `Empty`
    /// while the producer has not resolved the slot, `Closed` once no value
    /// can ever arrive. Taking the value closes the slot.
    pub fn try_recv(&mut self, slot: &mut State<T>) -> (r: Result<T, TryRecvError>)
        ensures
            *old(slot) matches State::Sent(v)
                ==> r == Ok::<T, TryRecvError>(v) && *final(slot) is Closed,
            *old(slot) is NotSent
                ==> r == Err::<T, TryRecvError>(TryRecvError::Empty) && *final(slot) is NotSent,
            *old(slot) is Closed
                ==> r == Err::<T, TryRecvError>(TryRecvError::Closed) && *final(slot) is Closed,
    {
        let prev = slot.take();
        match prev {
            State::Sent(v) => {
                *slot = State::Closed;
                Ok(v)
            },
            State::NotSent => Err(TryRecvError::Empty),
            State::Closed => {
                *slot = State::Closed;
                Err(TryRecvError::Closed)
            },
        }
    }

    /// Abandons the consuming end: a slot still waiting for a value becomes
    /// `Closed`, so a later send fails instead of filling a slot nobody
    /// will ever read.
    pub fn close(self, slot: &mut State<T>)
        ensures
            *final(slot) == close_transition(*old(slot)),
    {
        match slot {
            State::NotSent => {
                *slot = State::Closed;
            },
            _ => {},
        }
    }
}

/// Creates a linked producer/consumer pair together with their fresh slot.
/// The caller owns the slot (in a threaded program: under the mutex both
/// ends share) and passes it to every operation on either end.
pub fn channel<T>() -> (r: (Sender<T>, Receiver<T>, State<T>))
    ensures
        r.2 is NotSent,
{
    (
        Sender { marker: core::marker::PhantomData },
        Receiver { marker: core::marker::PhantomData },
        State::NotSent,
    )
}

/// A producer delivers at most once: after a send has filled the slot, any
/// further send is refused and hands its value back.
pub proof fn lemma_send_exactly_once<T>(s: State<T>, first: T, second: T)
    requires
        s is NotSent,
    ensures
        send_transition(s, first) == State::Sent(first),
        !(send_transition(s, first) is NotSent),
        send_transition(send_transition(s, first), second) == State::Sent(first),
{
}

} // verus!
