use std::collections::VecDeque;
use vstd::prelude::*;

verus! {

/// An unbounded first-in first-out buffer.
pub struct Queue<T> {
    items: VecDeque<T>,
}

impl<T> View for Queue<T> {
    type V = Seq<T>;

    /// The buffered items, head first.
    closed spec fn view(&self) -> Seq<T> {
        self.items@
    }
}

impl<T> Queue<T> {
    pub fn new() -> (r: Queue<T>)
        ensures
            r@ == Seq::<T>::empty(),
    {
        Queue { items: VecDeque::new() }
    }

    /// Appends `item` at the tail.
    pub fn enqueue(&mut self, item: T)
        ensures
            final(self)@ == old(self)@.push(item),
    {
        self.items.push_back(item);
    }

    /// The head, left in place.
    pub fn peek(&self) -> (r: Option<&T>)
        ensures
            self@.len() == 0 ==> r.is_none(),
            self@.len() > 0 ==> r == Some(&self@[0]),
    {
        if self.items.len() == 0 {
            None
        } else {
            Some(&self.items[0])
        }
    }

    /// Removes and returns the head; an empty queue is left as it is.
    pub fn dequeue(&mut self) -> (r: Option<T>)
        ensures
            old(self)@.len() == 0 ==> r.is_none() && final(self)@ == old(self)@,
            old(self)@.len() > 0 ==> r == Some(old(self)@[0]) && final(self)@ == old(self)@.drop_first(),
    {
        let r = self.items.pop_front();
        proof {
            if old(self)@.len() > 0 {
                assert(self@ =~= old(self)@.drop_first());
            }
        }
        r
    }

    pub fn len(&self) -> (r: usize)
        ensures
            r == self@.len(),
    {
        self.items.len()
    }

    pub fn is_empty(&self) -> (r: bool)
        ensures
            r == (self@.len() == 0),
    {
        self.items.len() == 0
    }
}

/// The contents after `xs` are enqueued one by one onto contents `q`.
pub open spec fn enqueue_all<T>(q: Seq<T>, xs: Seq<T>) -> Seq<T>
    decreases xs.len(),
{
    if xs.len() == 0 {
        q
    } else {
        enqueue_all(q.push(xs[0]), xs.drop_first())
    }
}

/// The heads returned by `n` successive dequeues from contents `q`.
pub open spec fn drain<T>(q: Seq<T>, n: nat) -> Seq<T>
    decreases n,
{
    if n == 0 || q.len() == 0 {
        Seq::empty()
    } else {
        seq![q[0]] + drain(q.drop_first(), (n - 1) as nat)
    }
}

proof fn lemma_enqueue_all_appends<T>(q: Seq<T>, xs: Seq<T>)
    ensures
        enqueue_all(q, xs) == q + xs,
    decreases xs.len(),
{
    if xs.len() > 0 {
        lemma_enqueue_all_appends(q.push(xs[0]), xs.drop_first());
        assert(q.push(xs[0]) + xs.drop_first() =~= q + xs);
    } else {
        assert(q + xs =~= q);
    }
}

proof fn lemma_drain_whole<T>(q: Seq<T>)
    ensures
        drain(q, q.len()) == q,
    decreases q.len(),
{
    if q.len() > 0 {
        lemma_drain_whole(q.drop_first());
        assert(seq![q[0]] + q.drop_first() =~= q);
    } else {
        assert(drain(q, q.len()) =~= q);
    }
}

/// FIFO order: items enqueued one by one behind the present contents come
/// out of successive dequeues exactly in the order in which they went in,
/// after the items that were already there.
pub proof fn lemma_fifo_order<T>(q: Seq<T>, xs: Seq<T>)
    ensures
        drain(enqueue_all(q, xs), q.len() + xs.len()) == q + xs,
        drain(enqueue_all(Seq::empty(), xs), xs.len()) == xs,
{
    lemma_enqueue_all_appends(q, xs);
    lemma_drain_whole(q + xs);
    lemma_enqueue_all_appends(Seq::empty(), xs);
    assert(Seq::<T>::empty() + xs =~= xs);
    lemma_drain_whole(xs);
}

} // verus!
