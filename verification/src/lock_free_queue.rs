use std::collections::VecDeque;
use vstd::prelude::*;

verus! {

/// A first in, first out queue of operations shared between clients, the
/// server and the workers.
pub struct LockFreeQueue<T> {
    items: VecDeque<T>,
}

impl<T> View for LockFreeQueue<T> {
    type V = Seq<T>;

    closed spec fn view(&self) -> Seq<T> {
        self.items@
    }
}

/// What a dequeue gives back from a queue holding `s`.
pub open spec fn dequeue_result<T>(s: Seq<T>) -> Option<T> {
    if s.len() == 0 {
        None
    } else {
        Some(s[0])
    }
}

/// What a queue holding `s` holds after a dequeue.
pub open spec fn after_dequeue<T>(s: Seq<T>) -> Seq<T> {
    if s.len() == 0 {
        s
    } else {
        s.drop_first()
    }
}

impl<T> LockFreeQueue<T> {
    /// An empty queue.
    pub fn new() -> (q: LockFreeQueue<T>)
        ensures
            q@ == Seq::<T>::empty(),
    {
        LockFreeQueue { items: VecDeque::new() }
    }

    /// Adds a value at the back.
    pub fn enqueue(&mut self, value: T)
        ensures
            final(self)@ == old(self)@.push(value),
    {
        self.items.push_back(value);
    }

    /// Takes the value at the front, or `None` when the queue is empty.
    pub fn dequeue(&mut self) -> (r: Option<T>)
        ensures
            r == dequeue_result(old(self)@),
            final(self)@ == after_dequeue(old(self)@),
            old(self)@.len() > 0 ==> r == Some(old(self)@[0]) && final(self)@ == old(
                self,
            )@.subrange(1, old(self)@.len() as int),
            old(self)@.len() == 0 ==> r is None && final(self)@ == old(self)@,
    {
        self.items.pop_front()
    }

    pub fn is_empty(&self) -> (r: bool)
        ensures
            r == (self@.len() == 0),
    {
        self.items.len() == 0
    }

    pub fn len(&self) -> (r: usize)
        ensures
            r == self@.len(),
    {
        self.items.len()
    }
}

/// Enqueueing and dequeueing commute on a non-empty queue, and a value
/// enqueued on an empty queue is the next one out: values leave in the
/// order they came in.
pub proof fn lemma_enqueue_dequeue<T>(s: Seq<T>, x: T)
    ensures
        s.len() > 0 ==> dequeue_result(s.push(x)) == dequeue_result(s) && after_dequeue(s.push(x))
            == after_dequeue(s).push(x),
        s.len() == 0 ==> dequeue_result(s.push(x)) == Some(x) && after_dequeue(s.push(x)) == s,
{
    if s.len() > 0 {
        assert(s.push(x).drop_first() =~= s.drop_first().push(x));
    } else {
        assert(s.push(x).drop_first() =~= s);
    }
}

/// Dequeueing `k` times from a queue holding `s + t`, where `s` has length `k`,
/// yields the values of `s` in order and leaves `t`.
pub open spec fn dequeue_n<T>(s: Seq<T>, k: nat) -> (Seq<T>, Seq<T>)
    decreases k,
{
    if k == 0 {
        (Seq::empty(), s)
    } else {
        let (out, rest) = dequeue_n(after_dequeue(s), (k - 1) as nat);
        match dequeue_result(s) {
            Some(x) => (seq![x] + out, rest),
            None => (out, rest),
        }
    }
}

/// Values come out in the order they went in: from a queue that holds
/// `s + t`, the first `s.len()` dequeues give back exactly `s`.
pub proof fn lemma_fifo<T>(s: Seq<T>, t: Seq<T>)
    ensures
        dequeue_n(s + t, s.len()) == (s, t),
    decreases s.len(),
{
    if s.len() > 0 {
        assert((s + t).drop_first() =~= s.drop_first() + t);
        lemma_fifo(s.drop_first(), t);
        assert(seq![s[0]] + s.drop_first() =~= s);
    } else {
        assert(s + t =~= t);
    }
}

} // verus!
