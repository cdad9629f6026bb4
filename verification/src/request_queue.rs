use vstd::prelude::*;
use crate::operation::Request;

verus! {

/// What a worker should do after looking at the queue.
#[derive(Debug, PartialEq, Eq)]
pub enum PopStep {
    /// Here is the next request.
    Ready(Request),
    /// The queue is empty and no more clients will send requests: stop.
    Exhausted,
    /// The queue is empty but clients may still send requests: wait.
    Wait,
}

/// The pending requests, served last in first out, and whether all clients
/// have finished sending.
pub struct RequestQueue {
    queue: Vec<Request>,
    no_more_clients: bool,
}

impl View for RequestQueue {
    type V = Seq<Request>;

    closed spec fn view(&self) -> Seq<Request> {
        self.queue@
    }
}

impl RequestQueue {
    pub closed spec fn spec_no_more_clients(&self) -> bool {
        self.no_more_clients
    }

    /// An empty queue that still expects clients.
    pub fn new() -> (q: RequestQueue)
        ensures
            q@ == Seq::<Request>::empty(),
            !q.spec_no_more_clients(),
    {
        RequestQueue { queue: Vec::new(), no_more_clients: false }
    }

    /// Adds a request at the top.
    pub fn push(&mut self, request: Request)
        ensures
            final(self)@ == old(self)@.push(request),
            final(self).spec_no_more_clients() == old(self).spec_no_more_clients(),
    {
        self.queue.push(request);
    }

    /// Takes the most recently pushed request; when there is none, says
    /// whether to stop (no more clients) or to wait.
    pub fn pop(&mut self) -> (r: PopStep)
        ensures
            final(self).spec_no_more_clients() == old(self).spec_no_more_clients(),
            old(self)@.len() > 0 ==> r == PopStep::Ready(old(self)@.last()) && final(self)@
                == old(self)@.drop_last(),
            old(self)@.len() == 0 ==> final(self)@ == old(self)@ && r == (
            if old(self).spec_no_more_clients() {
                PopStep::Exhausted
            } else {
                PopStep::Wait
            }),
    {
        match self.queue.pop() {
            Some(request) => PopStep::Ready(request),
            None => {
                if self.no_more_clients {
                    PopStep::Exhausted
                } else {
                    PopStep::Wait
                }
            },
        }
    }

    pub fn is_empty(&self) -> (r: bool)
        ensures
            r == (self@.len() == 0),
    {
        self.queue.len() == 0
    }

    pub fn len(&self) -> (r: usize)
        ensures
            r == self@.len(),
    {
        self.queue.len()
    }

    /// Records that every client has finished sending requests.
    pub fn set_no_more_clients(&mut self)
        ensures
            final(self)@ == old(self)@,
            final(self).spec_no_more_clients(),
    {
        self.no_more_clients = true;
    }

    pub fn no_more_clients(&self) -> (r: bool)
        ensures
            r == self.spec_no_more_clients(),
    {
        self.no_more_clients
    }
}

/// A call on the queue: a push of a request, or a pop.
#[derive(Clone, Copy, Debug, PartialEq, Eq, Structural)]
pub enum QueueEvent {
    Push(Request),
    Pop,
}

/// The queue's contents, together with every request pushed and every
/// request handed out by a pop, in order.
pub struct QueueHistory {
    pub queue: Seq<Request>,
    pub pushed: Seq<Request>,
    pub popped: Seq<Request>,
}

/// The history after one more call, as `push` and `pop` state it: a push
/// adds at the top; a pop of a non-empty queue hands out the top request;
/// a pop of an empty queue changes nothing.
pub open spec fn replay_event(h: QueueHistory, e: QueueEvent) -> QueueHistory {
    match e {
        QueueEvent::Push(r) => QueueHistory {
            queue: h.queue.push(r),
            pushed: h.pushed.push(r),
            popped: h.popped,
        },
        QueueEvent::Pop => if h.queue.len() > 0 {
            QueueHistory {
                queue: h.queue.drop_last(),
                pushed: h.pushed,
                popped: h.popped.push(h.queue.last()),
            }
        } else {
            h
        },
    }
}

/// The history after a sequence of calls, in order.
pub open spec fn replay(h: QueueHistory, events: Seq<QueueEvent>) -> QueueHistory
    decreases events.len(),
{
    if events.len() == 0 {
        h
    } else {
        replay(replay_event(h, events[0]), events.drop_first())
    }
}

proof fn lemma_replay_balance(h: QueueHistory, events: Seq<QueueEvent>)
    ensures
        ({
            let f = replay(h, events);
            f.queue.to_multiset().add(f.popped.to_multiset()).add(h.pushed.to_multiset())
                =~= h.queue.to_multiset().add(h.popped.to_multiset()).add(f.pushed.to_multiset())
        }),
    decreases events.len(),
{
    broadcast use vstd::seq_lib::group_to_multiset_ensures, vstd::multiset::group_multiset_axioms;

    let f = replay(h, events);
    if events.len() > 0 {
        let h1 = replay_event(h, events[0]);
        lemma_replay_balance(h1, events.drop_first());
        assert(f == replay(h1, events.drop_first()));
        match events[0] {
            QueueEvent::Push(r) => {
                assert(h1.queue.to_multiset() =~= h.queue.to_multiset().insert(r));
                assert(h1.pushed.to_multiset() =~= h.pushed.to_multiset().insert(r));
                assert(h1.popped == h.popped);
            },
            QueueEvent::Pop => {
                if h.queue.len() > 0 {
                    assert(h.queue =~= h.queue.drop_last().push(h.queue.last()));
                    assert(h.queue.to_multiset() =~= h1.queue.to_multiset().insert(
                        h.queue.last(),
                    ));
                    assert(h1.popped.to_multiset() =~= h.popped.to_multiset().insert(
                        h.queue.last(),
                    ));
                    assert(h1.pushed == h.pushed);
                }
            },
        }
        assert forall|x: Request|
            #[trigger] f.queue.to_multiset().add(f.popped.to_multiset()).add(
                h.pushed.to_multiset(),
            ).count(x) == h.queue.to_multiset().add(h.popped.to_multiset()).add(
                f.pushed.to_multiset(),
            ).count(x) by {
            assert(f.queue.to_multiset().add(f.popped.to_multiset()).add(h1.pushed.to_multiset()).count(x)
                == h1.queue.to_multiset().add(h1.popped.to_multiset()).add(f.pushed.to_multiset()).count(x));
        }
    }
}

/// No request is lost, duplicated or invented: over any sequence of pushes
/// and pops, what the queue held at the start together with everything
/// pushed equals everything popped together with what the queue holds at
/// the end, counted with multiplicity.
pub proof fn lemma_requests_conserved(start: Seq<Request>, events: Seq<QueueEvent>)
    ensures
        ({
            let f = replay(QueueHistory { queue: start, pushed: Seq::empty(), popped: Seq::empty() }, events);
            start.to_multiset().add(f.pushed.to_multiset()) =~= f.popped.to_multiset().add(
                f.queue.to_multiset(),
            )
        }),
{
    broadcast use vstd::seq_lib::group_to_multiset_ensures, vstd::multiset::group_multiset_axioms;

    let h = QueueHistory { queue: start, pushed: Seq::empty(), popped: Seq::empty() };
    lemma_replay_balance(h, events);
    let f = replay(h, events);
    let e = Seq::<Request>::empty().to_multiset();
    assert(e.len() == 0);
    assert forall|x: Request|
        #[trigger] start.to_multiset().add(f.pushed.to_multiset()).count(x)
            == f.popped.to_multiset().add(f.queue.to_multiset()).count(x) by {
        assert(e.count(x) <= e.len());
        assert(f.queue.to_multiset().add(f.popped.to_multiset()).add(e).count(x)
            == start.to_multiset().add(e).add(f.pushed.to_multiset()).count(x));
    }
}

/// The queue serves last in first out: a request pushed and then popped
/// comes straight back, and the queue is as it was.
pub proof fn lemma_push_then_pop(s: Seq<Request>, r: Request)
    ensures
        s.push(r).len() > 0,
        s.push(r).last() == r,
        s.push(r).drop_last() == s,
{
    assert(s.push(r).drop_last() =~= s);
}

} // verus!
