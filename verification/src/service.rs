//! Service bridge: turns the node runtime's must-reply-before-returning
//! request handler into an async request/response queue.
//!
//! The runtime invokes a registered handler per incoming request on one of
//! its own threads, and that handler must produce the reply before it
//! returns. The bridge makes this satisfiable for an async consumer: each
//! arriving request is assigned a fresh reply slot and queued as a
//! [`RequestHandle`] on a capacity-1 hand-off queue ([`Service::accept`]);
//! the handler thread then waits on its own slot ([`Service::poll_reply`])
//! until the consumer, having dequeued the handle
//! ([`Service::next_request`]), answers it exactly once with
//! [`RequestHandle::send_ok`] or [`RequestHandle::send_err`] — or abandons
//! it with [`RequestHandle::close`], which still completes the waiting call
//! with a defined error instead of leaving the thread blocked forever.
//!
//! The threads themselves, the condition-variable waits and the runtime
//! registration stay outside; every state change of the bridge is one of
//! the verified transitions below.

use vstd::prelude::*;
use vstd::pervasive::unreached;
use vstd::string::StringExecFns;

use crate::handoff::Handoff;
use crate::oneshot_blocking::State;

verus! {

/// A reply slot holds the handler's outcome: the response, or an
/// application-level error message.
pub type ReplyOutcome<Resp> = Result<Resp, String>;

/// A slot at `id` is still awaiting its reply.
pub open spec fn slot_open<Resp>(replies: Seq<State<ReplyOutcome<Resp>>>, id: nat) -> bool {
    id < replies.len() && replies[id as int] is NotSent
}

/// What answering the request `id` with `outcome` does to the reply slots.
pub open spec fn send_reply_view<Resp>(
    replies: Seq<State<ReplyOutcome<Resp>>>,
    id: nat,
    outcome: ReplyOutcome<Resp>,
) -> Seq<State<ReplyOutcome<Resp>>> {
    replies.update(id as int, State::Sent(outcome))
}

/// The outcome the handler thread waiting on slot `id` can take right now,
/// if any.
pub open spec fn reply_outcome<Resp>(
    replies: Seq<State<ReplyOutcome<Resp>>>,
    id: nat,
) -> Option<ReplyOutcome<Resp>> {
    if id < replies.len() && replies[id as int] is Sent {
        Some(replies[id as int]->0)
    } else {
        None
    }
}

/// The text of the default error reply delivered when a request handle is
/// abandoned without an answer.
pub open spec fn dropped_reply_text() -> Seq<char> {
    "request handle dropped without a reply"@
}

/// The default error reply delivered when a request handle is abandoned
/// without an answer.
pub fn dropped_reply() -> (s: String)
    ensures
        s@ == dropped_reply_text(),
{
    String::from_str("request handle dropped without a reply")
}

/// One request taken out of the bridge: the request body, and the right to
/// answer its reply slot exactly once. The handle is consumed by
/// [`RequestHandle::send_ok`], [`RequestHandle::send_err`] or
/// [`RequestHandle::close`]; call one of them on every exit path.
pub struct RequestHandle<Req> {
    id: usize,
    request: Req,
}

impl<Req> RequestHandle<Req> {
    /// The reply slot this handle answers.
    pub closed spec fn req_id(&self) -> nat {
        self.id as nat
    }

    /// The request body this handle was created for.
    pub closed spec fn spec_request(&self) -> Req {
        self.request
    }

    /// Read-only access to the request body.
    pub fn request(&self) -> (r: &Req)
        ensures
            *r == self.spec_request(),
    {
        &self.request
    }

    /// Answers the request with a successful response. Fails, handing the
    /// response back, only when the slot is no longer open — which cannot
    /// happen to a handle freshly taken from [`Service::next_request`].
    pub fn send_ok<Resp>(self, service: &mut Service<Req, Resp>, response: Resp) -> (r: Result<
        (),
        Resp,
    >)
        requires
            old(service).wf(),
        ensures
            final(service).wf(),
            final(service).spec_topic() == old(service).spec_topic(),
            final(service).pending() == old(service).pending(),
            old(service).can_reply(self.req_id()) ==> r == Ok::<(), Resp>(()) && final(service).replies() == send_reply_view(
                old(service).replies(),
                self.req_id(),
                Ok(response),
            ),
            !old(service).can_reply(self.req_id()) ==> r == Err::<(), Resp>(response) && final(service).replies() == old(service).replies(),
    {
        match service.deliver(self.id, Ok(response)) {
            Ok(()) => Ok(()),
            Err(outcome) => match outcome {
                Ok(response) => Err(response),
                Err(_) => unreached(),
            },
        }
    }

    /// Answers the request with an application-level error message. Fails,
    /// handing the message back, only when the slot is no longer open.
    pub fn send_err<Resp>(self, service: &mut Service<Req, Resp>, message: String) -> (r: Result<
        (),
        String,
    >)
        requires
            old(service).wf(),
        ensures
            final(service).wf(),
            final(service).spec_topic() == old(service).spec_topic(),
            final(service).pending() == old(service).pending(),
            old(service).can_reply(self.req_id()) ==> r == Ok::<(), String>(()) && final(service).replies() == send_reply_view(
                old(service).replies(),
                self.req_id(),
                Err(message),
            ),
            !old(service).can_reply(self.req_id()) ==> r == Err::<(), String>(message) && final(service).replies() == old(service).replies(),
    {
        match service.deliver(self.id, Err(message)) {
            Ok(()) => Ok(()),
            Err(outcome) => match outcome {
                Ok(_) => unreached(),
                Err(message) => Err(message),
            },
        }
    }

    /// Abandons the handle without a real answer. The originating
    /// synchronous call is still completed, with the default error reply,
    /// so the handler thread is released instead of blocking forever.
    /// Returns whether the default reply was delivered (it always is for a
    /// handle freshly taken from [`Service::next_request`]).
    pub fn close<Resp>(self, service: &mut Service<Req, Resp>) -> (r: bool)
        requires
            old(service).wf(),
        ensures
            final(service).wf(),
            final(service).spec_topic() == old(service).spec_topic(),
            final(service).pending() == old(service).pending(),
            r == old(service).can_reply(self.req_id()),
            old(service).can_reply(self.req_id()) ==> {
                &&& final(service).replies().len() == old(service).replies().len()
                &&& final(service).replies()[self.req_id() as int] matches State::Sent(o)
                    && o matches Err(m) && m@ == dropped_reply_text()
                &&& forall|k: int|
                    0 <= k < old(service).replies().len() && k != self.req_id() as int ==> final(service).replies()[k] == old(service).replies()[k]
            },
            !old(service).can_reply(self.req_id()) ==> final(service).replies() == old(service).replies(),
    {
        let message = dropped_reply();
        match service.deliver(self.id, Err(message)) {
            Ok(()) => true,
            Err(_) => false,
        }
    }
}

/// The bridge for one registered service: the capacity-1 hand-off queue of
/// unanswered requests, and one reply slot per accepted request.
pub struct Service<Req, Resp> {
    topic: String,
    queue: Handoff<RequestHandle<Req>>,
    slots: Vec<State<ReplyOutcome<Resp>>>,
}

impl<Req, Resp> Service<Req, Resp> {
    /// The requests accepted but not yet taken by the consumer, in arrival
    /// order.
    pub closed spec fn pending(&self) -> Seq<RequestHandle<Req>> {
        self.queue@
    }

    /// All reply slots ever created, indexed by request id.
    pub closed spec fn replies(&self) -> Seq<State<ReplyOutcome<Resp>>> {
        self.slots@
    }

    /// The topic the service was created for.
    pub closed spec fn spec_topic(&self) -> Seq<char> {
        self.topic@
    }

    /// Some queued (not yet taken) request has this id.
    pub open spec fn id_queued(&self, id: nat) -> bool {
        exists|i: int| 0 <= i < self.pending().len() && (#[trigger] self.pending()[i]).req_id() == id
    }

    /// The slot `id` can still be answered: it exists, is still awaiting
    /// its reply, and its handle has been taken out of the queue.
    pub open spec fn can_reply(&self, id: nat) -> bool {
        slot_open(self.replies(), id) && !self.id_queued(id)
    }

    /// The hand-off queue is within its bound, which is 1.
    pub closed spec fn queue_wf(&self) -> bool {
        self.queue.wf() && self.queue.cap() == 1
    }

    /// Every queued handle answers an existing, still-open slot, and no two
    /// queued handles answer the same one.
    pub open spec fn wf(&self) -> bool {
        &&& self.queue_wf()
        &&& forall|i: int|
            0 <= i < self.pending().len() ==> slot_open(
                self.replies(),
                (#[trigger] self.pending()[i]).req_id(),
            )
        &&& forall|i: int, j: int|
            0 <= i < j < self.pending().len() ==> (#[trigger] self.pending()[i]).req_id() != (
            #[trigger] self.pending()[j]).req_id()
    }

    /// Creates the bridge state for one registered service. The runtime
    /// registration itself (and the handler threads) live outside.
    pub fn new(topic: String) -> (s: Service<Req, Resp>)
        ensures
            s.wf(),
            s.pending() == Seq::<RequestHandle<Req>>::empty(),
            s.replies() == Seq::<State<ReplyOutcome<Resp>>>::empty(),
            s.spec_topic() == topic@,
    {
        Service { topic, queue: Handoff::new(1), slots: Vec::new() }
    }

    /// The topic the service was created for.
    pub fn topic(&self) -> (t: &String)
        ensures
            t@ == self.spec_topic(),
    {
        &self.topic
    }

    /// How many requests have ever been accepted (one reply slot each), as
    /// a value.
    pub fn accepted_total(&self) -> (n: usize)
        ensures
            n as nat == self.replies().len(),
    {
        self.slots.len()
    }

    /// The intake step run (from outside) by the runtime's handler for each
    /// arriving request: opens a fresh reply slot and queues the request's
    /// handle. When the queue is still full the request is handed back and
    /// the handler thread must retry once the consumer has made room — this
    /// backpressure deliberately stalls the runtime's dispatch thread.
    /// On success the returned id is the slot the handler thread must then
    /// wait on with [`Service::poll_reply`].
    pub fn accept(&mut self, request: Req) -> (r: Result<usize, Req>)
        requires
            old(self).wf(),
            old(self).replies().len() < usize::MAX as nat,
        ensures
            final(self).wf(),
            final(self).spec_topic() == old(self).spec_topic(),
            old(self).pending().len() == 0 ==> {
                &&& r matches Ok(id) && id as nat == old(self).replies().len()
                &&& final(self).replies() == old(self).replies().push(
                    State::<ReplyOutcome<Resp>>::NotSent,
                )
                &&& final(self).pending().len() == 1
                &&& final(self).pending()[0].req_id() == old(self).replies().len()
                &&& final(self).pending()[0].spec_request() == request
            },
            old(self).pending().len() > 0 ==> r == Err::<usize, Req>(request)
                && final(self).pending() == old(self).pending()
                && final(self).replies() == old(self).replies(),
    {
        let id = self.slots.len();
        let handle = RequestHandle { id, request };
        match self.queue.try_push(handle) {
            Ok(()) => {
                self.slots.push(State::NotSent);
                Ok(id)
            },
            Err(handle) => Err(handle.request),
        }
    }

    /// The consumer's dequeue: the oldest unanswered request, if one is
    /// queued (the consuming task awaits delivery otherwise). The returned
    /// handle can always be answered: its slot is open and no longer
    /// queued.
    pub fn next_request(&mut self) -> (r: Option<RequestHandle<Req>>)
        requires
            old(self).wf(),
        ensures
            final(self).wf(),
            final(self).spec_topic() == old(self).spec_topic(),
            final(self).replies() == old(self).replies(),
            old(self).pending().len() == 0 ==> r is None && final(self).pending() == old(self).pending(),
            old(self).pending().len() > 0 ==> {
                &&& r == Some(old(self).pending()[0])
                &&& final(self).pending() == old(self).pending().remove(0)
                &&& final(self).can_reply(old(self).pending()[0].req_id())
            },
    {
        let r = self.queue.pop();
        proof {
            if old(self).pending().len() > 0 {
                let id = old(self).pending()[0].req_id();
                assert forall|i: int| 0 <= i < self.pending().len() implies (
                #[trigger] self.pending()[i]).req_id() != id by {
                    assert(self.pending()[i] == old(self).pending()[i + 1]);
                }
            }
        }
        r
    }

    /// The wait step run (from outside) by the handler thread that accepted
    /// request `id`: takes the reply once the consumer has delivered one,
    /// closing the slot; returns nothing while the reply is still owed (the
    /// thread then blocks on its condition variable and polls again).
    pub fn poll_reply(&mut self, id: usize) -> (r: Option<ReplyOutcome<Resp>>)
        requires
            old(self).wf(),
        ensures
            final(self).wf(),
            final(self).spec_topic() == old(self).spec_topic(),
            final(self).pending() == old(self).pending(),
            r == reply_outcome(old(self).replies(), id as nat),
            reply_outcome(old(self).replies(), id as nat) is Some ==> final(self).replies() == old(self).replies().update(id as int, State::Closed),
            reply_outcome(old(self).replies(), id as nat) is None ==> final(self).replies() == old(self).replies(),
    {
        if id >= self.slots.len() {
            return None;
        }
        let prev = self.slots.remove(id);
        match prev {
            State::Sent(outcome) => {
                self.slots.insert(id, State::Closed);
                proof {
                    assert(self.slots@ =~= old(self).slots@.update(id as int, State::Closed));
                    assert forall|k: nat|
                        #[trigger] old(self).id_queued(k) && slot_open(
                            old(self).replies(),
                            k,
                        ) implies slot_open(self.replies(), k) by {
                        assert(k != id as nat);
                    }
                    Self::lemma_wf_preserved(old(self), self);
                }
                Some(outcome)
            },
            prev => {
                self.slots.insert(id, prev);
                proof {
                    assert(self.slots@ =~= old(self).slots@);
                    Self::lemma_wf_preserved(old(self), self);
                }
                None
            },
        }
    }

    /// Well-formedness carries over to a state with the same queue whose
    /// reply slots stayed open wherever a queued handle points.
    proof fn lemma_wf_preserved(pre: &Service<Req, Resp>, post: &Service<Req, Resp>)
        requires
            pre.wf(),
            post.queue_wf(),
            post.pending() == pre.pending(),
            post.replies().len() >= pre.replies().len(),
            forall|k: nat|
                #[trigger] pre.id_queued(k) && slot_open(pre.replies(), k) ==> slot_open(
                    post.replies(),
                    k,
                ),
        ensures
            post.wf(),
    {
        assert forall|i: int| 0 <= i < post.pending().len() implies slot_open(
            post.replies(),
            (#[trigger] post.pending()[i]).req_id(),
        ) by {
            let h = pre.pending()[i];
            assert(slot_open(pre.replies(), h.req_id()));
            assert(pre.id_queued(h.req_id()));
        }
        assert forall|i: int, j: int| 0 <= i < j < post.pending().len() implies (
        #[trigger] post.pending()[i]).req_id() != (#[trigger] post.pending()[j]).req_id() by {
            let hi = pre.pending()[i];
            let hj = pre.pending()[j];
            assert(hi.req_id() != hj.req_id());
        }
    }

    /// Whether some queued handle has this id.
    fn id_is_queued(&self, id: usize) -> (b: bool)
        requires
            self.wf(),
        ensures
            b == self.id_queued(id as nat),
    {
        let n = self.queue.len();
        let mut i: usize = 0;
        while i < n
            invariant
                self.wf(),
                n as nat == self.pending().len(),
                i <= n,
                forall|k: int|
                    0 <= k < i as int ==> (#[trigger] self.pending()[k]).req_id() != id as nat,
            decreases n - i,
        {
            if self.queue.get(i).id == id {
                return true;
            }
            i += 1;
        }
        false
    }

    /// Answers slot `id` with `outcome` if it can still be answered;
    /// otherwise hands the outcome back untouched.
    fn deliver(&mut self, id: usize, outcome: ReplyOutcome<Resp>) -> (r: Result<
        (),
        ReplyOutcome<Resp>,
    >)
        requires
            old(self).wf(),
        ensures
            final(self).wf(),
            final(self).spec_topic() == old(self).spec_topic(),
            final(self).pending() == old(self).pending(),
            old(self).can_reply(id as nat) ==> r == Ok::<(), ReplyOutcome<Resp>>(()) && final(self).replies() == send_reply_view(old(self).replies(), id as nat, outcome),
            !old(self).can_reply(id as nat) ==> r == Err::<(), ReplyOutcome<Resp>>(outcome)
                && final(self).replies() == old(self).replies(),
    {
        if self.id_is_queued(id) {
            return Err(outcome);
        }
        if id >= self.slots.len() {
            return Err(outcome);
        }
        let prev = self.slots.remove(id);
        match prev {
            State::NotSent => {
                self.slots.insert(id, State::Sent(outcome));
                proof {
                    assert(self.slots@ =~= send_reply_view(old(self).slots@, id as nat, outcome));
                    assert forall|k: nat|
                        #[trigger] old(self).id_queued(k) && slot_open(
                            old(self).replies(),
                            k,
                        ) implies slot_open(self.replies(), k) by {
                        let i = choose|i: int|
                            0 <= i < old(self).pending().len() && (#[trigger] old(
                                self,
                            ).pending()[i]).req_id() == k;
                        assert(old(self).pending()[i].req_id() != id as nat);
                    }
                    Self::lemma_wf_preserved(old(self), self);
                }
                Ok(())
            },
            prev => {
                self.slots.insert(id, prev);
                proof {
                    assert(self.slots@ =~= old(self).slots@);
                    Self::lemma_wf_preserved(old(self), self);
                }
                Err(outcome)
            },
        }
    }
}

/// Answering a whole batch of requests, one after the other: each outcome
/// goes into its own request's slot.
pub open spec fn send_replies_view<Resp>(
    replies: Seq<State<ReplyOutcome<Resp>>>,
    ids: Seq<nat>,
    outcomes: Seq<ReplyOutcome<Resp>>,
) -> Seq<State<ReplyOutcome<Resp>>>
    decreases ids.len(),
{
    if ids.len() == 0 {
        replies
    } else {
        send_replies_view(
            send_reply_view(replies, ids[0], outcomes[0]),
            ids.drop_first(),
            outcomes.drop_first(),
        )
    }
}

/// Answering requests never changes how many slots there are.
pub proof fn lemma_send_replies_len<Resp>(
    replies: Seq<State<ReplyOutcome<Resp>>>,
    ids: Seq<nat>,
    outcomes: Seq<ReplyOutcome<Resp>>,
)
    requires
        ids.len() == outcomes.len(),
        forall|i: int| 0 <= i < ids.len() ==> #[trigger] ids[i] < replies.len(),
    ensures
        send_replies_view(replies, ids, outcomes).len() == replies.len(),
    decreases ids.len(),
{
    if ids.len() > 0 {
        lemma_send_replies_len(
            send_reply_view(replies, ids[0], outcomes[0]),
            ids.drop_first(),
            outcomes.drop_first(),
        );
    }
}

/// A slot whose request is not among the answered ones is left exactly as
/// it was.
pub proof fn lemma_send_replies_untouched<Resp>(
    replies: Seq<State<ReplyOutcome<Resp>>>,
    ids: Seq<nat>,
    outcomes: Seq<ReplyOutcome<Resp>>,
    other: nat,
)
    requires
        ids.len() == outcomes.len(),
        forall|i: int| 0 <= i < ids.len() ==> #[trigger] ids[i] < replies.len(),
        forall|i: int| 0 <= i < ids.len() ==> #[trigger] ids[i] != other,
        other < replies.len(),
    ensures
        send_replies_view(replies, ids, outcomes)[other as int] == replies[other as int],
    decreases ids.len(),
{
    if ids.len() > 0 {
        lemma_send_replies_untouched(
            send_reply_view(replies, ids[0], outcomes[0]),
            ids.drop_first(),
            outcomes.drop_first(),
            other,
        );
    }
}

/// Request/response pairing holds for any number of concurrent callers:
/// when a batch of distinct, still-open requests is answered — each with
/// its own outcome, in any order relative to the waiting threads — every
/// waiting handler thread finds in its slot exactly the outcome addressed
/// to its own request, never a neighbour's.
pub proof fn lemma_reply_pairing_all<Resp>(
    replies: Seq<State<ReplyOutcome<Resp>>>,
    ids: Seq<nat>,
    outcomes: Seq<ReplyOutcome<Resp>>,
)
    requires
        ids.len() == outcomes.len(),
        forall|i: int| 0 <= i < ids.len() ==> #[trigger] ids[i] < replies.len(),
        forall|i: int| 0 <= i < ids.len() ==> replies[#[trigger] ids[i] as int] is NotSent,
        forall|i: int, j: int| 0 <= i < j < ids.len() ==> #[trigger] ids[i] != #[trigger] ids[j],
    ensures
        forall|k: int|
            0 <= k < ids.len() ==> reply_outcome(
                send_replies_view(replies, ids, outcomes),
                #[trigger] ids[k],
            ) == Some(outcomes[k]),
    decreases ids.len(),
{
    if ids.len() > 0 {
        let first = send_reply_view(replies, ids[0], outcomes[0]);
        let tail_ids = ids.drop_first();
        let tail_outcomes = outcomes.drop_first();
        assert forall|i: int| 0 <= i < tail_ids.len() implies #[trigger] tail_ids[i]
            < first.len() && first[tail_ids[i] as int] is NotSent by {
            assert(tail_ids[i] == ids[i + 1]);
            assert(ids[i + 1] != ids[0]);
        }
        assert forall|i: int, j: int| 0 <= i < j < tail_ids.len() implies #[trigger] tail_ids[i]
            != #[trigger] tail_ids[j] by {
            assert(tail_ids[i] == ids[i + 1]);
            assert(tail_ids[j] == ids[j + 1]);
        }
        lemma_reply_pairing_all(first, tail_ids, tail_outcomes);
        assert forall|i: int| 0 <= i < tail_ids.len() implies #[trigger] tail_ids[i] != ids[0] by {
            assert(tail_ids[i] == ids[i + 1]);
        }
        lemma_send_replies_untouched(first, tail_ids, tail_outcomes, ids[0]);
        lemma_send_replies_len(first, tail_ids, tail_outcomes);
        assert forall|k: int| 0 <= k < ids.len() implies reply_outcome(
            send_replies_view(replies, ids, outcomes),
            #[trigger] ids[k],
        ) == Some(outcomes[k]) by {
            if k > 0 {
                assert(tail_ids[k - 1] == ids[k]);
                assert(tail_outcomes[k - 1] == outcomes[k]);
            } else {
                assert(send_replies_view(first, tail_ids, tail_outcomes)[ids[0] as int]
                    == first[ids[0] as int]);
                assert(first[ids[0] as int] == State::Sent(outcomes[0]));
            }
        }
    }
}

/// No request is ever answered twice: once an outcome has been delivered
/// into a slot, that slot is no longer open, so a second delivery to the
/// same request is refused (it returns the outcome to its caller).
pub proof fn lemma_no_second_reply<Resp>(
    replies: Seq<State<ReplyOutcome<Resp>>>,
    id: nat,
    outcome: ReplyOutcome<Resp>,
)
    requires
        id < replies.len(),
    ensures
        !slot_open(send_reply_view(replies, id, outcome), id),
{
}

/// A dropped request handle still completes the originating synchronous
/// call: delivering the default error reply into an open slot makes that
/// slot's outcome exactly the default error, ready for the waiting handler
/// thread to take.
pub proof fn lemma_drop_completes_call<Resp>(
    replies: Seq<State<ReplyOutcome<Resp>>>,
    id: nat,
    message: String,
)
    requires
        slot_open(replies, id),
    ensures
        reply_outcome(send_reply_view(replies, id, Err(message)), id) == Some(
            Err::<Resp, String>(message),
        ),
{
}

} // verus!
