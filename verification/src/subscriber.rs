//! Subscriber bridge: fan-out turning the runtime's push callback into a
//! cloneable stream of messages.
//!
//! One registration with the node runtime feeds one [`Broadcast`] source;
//! every delivered message is published into it by the callback, which
//! never blocks — when the bounded buffer is full the oldest retained
//! message is dropped instead, so the runtime's dispatch thread is never
//! stalled by a slow reader. Each [`Subscriber`] is an independent read
//! cursor over that shared source: reading never removes a message for the
//! other cursors, and a cursor that has fallen behind the retained window
//! silently resynchronizes to the oldest retained message (reported as a
//! lag, never as an error). Tearing the registration down closes the
//! source; a cursor that has read everything then sees the end of the
//! stream.
//!
//! The registration itself and the cooperative waits live outside; here the
//! source is an explicit value handed to every cursor operation.

use vstd::prelude::*;

verus! {

/// Why [`Subscriber::try_recv`] returned no message.
#[derive(Debug, PartialEq, Eq, Structural)]
pub enum StreamError {
    /// Nothing new has been published yet; the reading task may wait.
    Empty,
    /// The source is closed and every published message has been read.
    Closed,
    /// The cursor had fallen behind the retained window by this many
    /// messages and was moved forward to the oldest retained one.
    Lagged(usize),
}

/// The shared fan-out source fed by one runtime subscription callback.
pub struct Broadcast<M> {
    topic: String,
    retained: Vec<M>,
    published: usize,
    capacity: usize,
    closed: bool,
    history: Ghost<Seq<M>>,
}

/// Where a cursor actually reads next: a cursor that has fallen behind the
/// oldest retained message is first moved up to it.
pub open spec fn resync_cursor(cursor: nat, oldest: nat) -> nat {
    if cursor < oldest {
        oldest
    } else {
        cursor
    }
}

impl<M> Broadcast<M> {
    /// Every message ever published into the source, in arrival order.
    pub closed spec fn history(&self) -> Seq<M> {
        self.history@
    }

    /// How many messages have ever been published.
    pub closed spec fn published(&self) -> nat {
        self.published as nat
    }

    /// The buffer bound: how many recent messages stay readable.
    pub closed spec fn cap(&self) -> nat {
        self.capacity as nat
    }

    /// Whether the registration has been torn down.
    pub closed spec fn is_closed(&self) -> bool {
        self.closed
    }

    /// The messages still readable, oldest first.
    pub closed spec fn retained(&self) -> Seq<M> {
        self.retained@
    }

    /// The topic the registration was made for.
    pub closed spec fn spec_topic(&self) -> Seq<char> {
        self.topic@
    }

    /// The stream index of the oldest message still retained.
    pub open spec fn oldest_retained(&self) -> nat {
        (self.published() - self.retained().len()) as nat
    }

    /// The buffer holds exactly the newest messages, up to its bound.
    pub open spec fn wf(&self) -> bool {
        &&& self.cap() >= 1
        &&& self.history().len() == self.published()
        &&& self.retained().len() == if self.published() < self.cap() {
            self.published()
        } else {
            self.cap()
        }
        &&& self.retained() == self.history().skip(self.oldest_retained() as int)
    }

    /// The publish step run (from outside) by the subscription callback for
    /// each delivered message: appends the message, dropping the oldest
    /// retained one when the buffer is full. Never blocks the caller.
    pub fn publish(&mut self, message: M)
        requires
            old(self).wf(),
            !old(self).is_closed(),
            old(self).published() < usize::MAX as nat,
        ensures
            final(self).wf(),
            final(self).cap() == old(self).cap(),
            !final(self).is_closed(),
            final(self).spec_topic() == old(self).spec_topic(),
            final(self).published() == old(self).published() + 1,
            final(self).history() == old(self).history().push(message),
    {
        if self.retained.len() >= self.capacity {
            self.retained.remove(0);
        }
        self.retained.push(message);
        self.published = self.published + 1;
        proof {
            self.history@ = self.history@.push(message);
            assert(self.retained@ =~= self.history@.skip(self.oldest_retained() as int));
        }
    }

    /// Tears the source down: no further message will be published, and
    /// every cursor sees the end of the stream once it has read what was
    /// retained.
    pub fn close(&mut self)
        requires
            old(self).wf(),
        ensures
            final(self).wf(),
            final(self).is_closed(),
            final(self).cap() == old(self).cap(),
            final(self).spec_topic() == old(self).spec_topic(),
            final(self).published() == old(self).published(),
            final(self).history() == old(self).history(),
    {
        self.closed = true;
    }

    /// The topic the registration was made for.
    pub fn topic(&self) -> (t: &String)
        ensures
            t@ == self.spec_topic(),
    {
        &self.topic
    }

    /// Whether the source still accepts messages.
    pub fn is_open(&self) -> (b: bool)
        ensures
            b == !self.is_closed(),
    {
        !self.closed
    }

    /// How many messages have ever been published, as a value.
    pub fn published_total(&self) -> (n: usize)
        ensures
            n as nat == self.published(),
    {
        self.published
    }
}

/// One independent read cursor over a [`Broadcast`] source.
pub struct Subscriber<M> {
    next: usize,
    marker: core::marker::PhantomData<M>,
}

impl<M> Subscriber<M> {
    /// The stream index this cursor reads next.
    pub closed spec fn cursor(&self) -> nat {
        self.next as nat
    }

    /// The cursor never points past the stream head.
    pub open spec fn wf_for(&self, chan: &Broadcast<M>) -> bool {
        self.cursor() <= chan.published()
    }

    /// Creates the source for one runtime registration together with its
    /// first cursor. Equivalent to [`subscribe`].
    pub fn new(topic: String, capacity: usize) -> (r: (Broadcast<M>, Subscriber<M>))
        requires
            capacity >= 1,
        ensures
            r.0.wf(),
            r.0.published() == 0,
            r.0.history() == Seq::<M>::empty(),
            r.0.cap() == capacity as nat,
            !r.0.is_closed(),
            r.0.spec_topic() == topic@,
            r.1.cursor() == 0,
            r.1.wf_for(&r.0),
    {
        subscribe(topic, capacity)
    }

    /// A new independent cursor over the same source, starting at the
    /// stream head: it observes exactly the messages published from now
    /// on. This is what cloning a subscriber does — the underlying
    /// registration is shared, never repeated.
    pub fn clone_cursor(&self, chan: &Broadcast<M>) -> (s: Subscriber<M>)
        ensures
            s.cursor() == chan.published(),
            s.wf_for(chan),
    {
        Subscriber { next: chan.published, marker: core::marker::PhantomData }
    }

    /// Polls the source without waiting: the next message for this cursor,
    /// `Empty` while nothing new has been published, `Closed` at the end of
    /// the stream, or `Lagged` when the cursor had fallen behind the
    /// retained window and was moved up to the oldest retained message
    /// (the dropped messages are skipped silently, never reported as an
    /// error to the caller).
    pub fn try_recv<'a>(&mut self, chan: &'a Broadcast<M>) -> (r: Result<&'a M, StreamError>)
        requires
            chan.wf(),
            old(self).wf_for(chan),
        ensures
            final(self).wf_for(chan),
            old(self).cursor() == chan.published() && chan.is_closed() ==> r == Err::<
                &'a M,
                StreamError,
            >(StreamError::Closed) && final(self).cursor() == old(self).cursor(),
            old(self).cursor() == chan.published() && !chan.is_closed() ==> r == Err::<
                &'a M,
                StreamError,
            >(StreamError::Empty) && final(self).cursor() == old(self).cursor(),
            old(self).cursor() < chan.oldest_retained() ==> r == Err::<&'a M, StreamError>(
                StreamError::Lagged((chan.oldest_retained() - old(self).cursor()) as usize),
            ) && final(self).cursor() == chan.oldest_retained(),
            chan.oldest_retained() <= old(self).cursor() < chan.published() ==> (r matches Ok(m)
                && *m == chan.history()[old(self).cursor() as int] && final(self).cursor() == old(
                self,
            ).cursor() + 1),
    {
        let oldest = chan.published - chan.retained.len();
        if self.next >= chan.published {
            if chan.closed {
                Err(StreamError::Closed)
            } else {
                Err(StreamError::Empty)
            }
        } else if self.next < oldest {
            let missed = oldest - self.next;
            self.next = oldest;
            Err(StreamError::Lagged(missed))
        } else {
            let idx = self.next - oldest;
            let message = &chan.retained[idx];
            self.next = self.next + 1;
            proof {
                assert(chan.retained()[idx as int] == chan.history()[old(self).cursor() as int]);
            }
            Ok(message)
        }
    }

    /// The next message this cursor observes, once one is deliverable (the
    /// cooperative wait for that lives outside): a cursor that lagged is
    /// silently resynchronized to the oldest retained message, and only
    /// the end of the stream yields nothing.
    pub fn recv<'a>(&mut self, chan: &'a Broadcast<M>) -> (r: Option<&'a M>)
        requires
            chan.wf(),
            old(self).wf_for(chan),
            old(self).cursor() < chan.published() || chan.is_closed(),
        ensures
            final(self).wf_for(chan),
            old(self).cursor() == chan.published() ==> r is None && final(self).cursor() == old(
                self,
            ).cursor(),
            old(self).cursor() < chan.published() ==> (r matches Some(m) && *m
                == chan.history()[resync_cursor(old(self).cursor(), chan.oldest_retained()) as int]
                && final(self).cursor() == resync_cursor(
                old(self).cursor(),
                chan.oldest_retained(),
            ) + 1),
    {
        match self.try_recv(chan) {
            Ok(message) => Some(message),
            Err(StreamError::Closed) => None,
            Err(StreamError::Empty) => None,
            Err(StreamError::Lagged(_)) => match self.try_recv(chan) {
                Ok(message) => Some(message),
                Err(_) => None,
            },
        }
    }
}

/// Registers one fan-out source for a topic (the runtime registration
/// itself lives outside) and returns it with its first read cursor.
pub fn subscribe<M>(topic: String, capacity: usize) -> (r: (Broadcast<M>, Subscriber<M>))
    requires
        capacity >= 1,
    ensures
        r.0.wf(),
        r.0.published() == 0,
        r.0.history() == Seq::<M>::empty(),
        r.0.cap() == capacity as nat,
        !r.0.is_closed(),
        r.0.spec_topic() == topic@,
        r.1.cursor() == 0,
        r.1.wf_for(&r.0),
{
    let chan = Broadcast {
        topic,
        retained: Vec::new(),
        published: 0,
        capacity,
        closed: false,
        history: Ghost(Seq::empty()),
    };
    let sub = Subscriber { next: 0, marker: core::marker::PhantomData };
    proof {
        assert(chan.retained() =~= chan.history().skip(chan.oldest_retained() as int));
    }
    (chan, sub)
}

/// Filling the buffer past its bound drops the oldest message(s), never
/// fails: after `capacity + 1` messages have been published, a cursor that
/// saw none of them resynchronizes past exactly one dropped message and
/// reads the oldest retained one — which, with the buffer bound the bridge
/// registers (a single slot), is the newest message itself.
pub proof fn lemma_overflow_drops_oldest<M>(chan: &Broadcast<M>)
    requires
        chan.wf(),
        chan.published() == chan.cap() + 1,
    ensures
        resync_cursor(0, chan.oldest_retained()) == 1,
        chan.cap() == 1 ==> resync_cursor(0, chan.oldest_retained()) == chan.published() - 1,
{
}

/// Per cursor, delivery order matches arrival order: each delivered
/// message stands strictly later in the stream than the one delivered
/// before it. A lag moves the cursor forward past dropped messages, never
/// backwards, so messages can be skipped but never reordered or repeated.
pub proof fn lemma_delivery_never_reorders(cursor: nat, oldest_then: nat, oldest_later: nat)
    ensures
        resync_cursor(resync_cursor(cursor, oldest_then) + 1, oldest_later) > resync_cursor(
            cursor,
            oldest_then,
        ),
{
}

/// A cursor standing at the stream head — a freshly cloned cursor always
/// does, and so does any cursor that has read everything — observes the
/// next published message itself, exactly once: the message is delivered
/// without resynchronization, and afterwards the cursor stands at the new
/// head with nothing further to read.
pub proof fn lemma_cursor_at_head_sees_next_publish<M>(
    before: &Broadcast<M>,
    after: &Broadcast<M>,
    message: M,
    cursor: nat,
)
    requires
        before.wf(),
        after.wf(),
        cursor == before.published(),
        after.published() == before.published() + 1,
        after.history() == before.history().push(message),
    ensures
        resync_cursor(cursor, after.oldest_retained()) == cursor,
        after.history()[cursor as int] == message,
        cursor + 1 == after.published(),
{
}

} // verus!
