use vstd::prelude::*;
use std::collections::VecDeque;

verus! {

/// A bounded first-in first-out queue of outbound frames.
///
/// Besides its contents it keeps, as ghost state, every item it ever accepted
/// and every item it ever handed out, so that its order can be stated.
pub struct MessageQueue<T> {
    items: VecDeque<T>,
    capacity: usize,
    closed: bool,
    accepted: Ghost<Seq<T>>,
    delivered: Ghost<Seq<T>>,
}

impl<T> MessageQueue<T> {
    /// The items waiting, oldest first.
    pub closed spec fn view(&self) -> Seq<T> {
        self.items@
    }

    pub closed spec fn spec_capacity(&self) -> nat {
        self.capacity as nat
    }

    /// Whether the queue has been closed: it then accepts nothing more.
    pub closed spec fn spec_closed(&self) -> bool {
        self.closed
    }

    /// Every item accepted so far, in order of acceptance.
    pub closed spec fn accepted(&self) -> Seq<T> {
        self.accepted@
    }

    /// Every item handed out so far, in order of hand-out.
    pub closed spec fn delivered(&self) -> Seq<T> {
        self.delivered@
    }

    pub closed spec fn wf(&self) -> bool {
        &&& self.capacity > 0
        &&& self.items@.len() <= self.capacity
        &&& self.accepted@ == self.delivered@ + self.items@
    }

    /// An empty queue that holds at most `capacity` items.
    pub fn new(capacity: usize) -> (r: Self)
        requires
            capacity > 0,
        ensures
            r.wf(),
            r@ == Seq::<T>::empty(),
            r.spec_capacity() == capacity,
            !r.spec_closed(),
            r.accepted() == Seq::<T>::empty(),
            r.delivered() == Seq::<T>::empty(),
    {
        MessageQueue {
            items: VecDeque::new(),
            capacity,
            closed: false,
            accepted: Ghost(Seq::empty()),
            delivered: Ghost(Seq::empty()),
        }
    }

    pub fn len(&self) -> (r: usize)
        ensures
            r == self@.len(),
    {
        self.items.len()
    }

    pub fn capacity(&self) -> (r: usize)
        ensures
            r == self.spec_capacity(),
    {
        self.capacity
    }

    pub fn is_full(&self) -> (r: bool)
        requires
            self.wf(),
        ensures
            r == (self@.len() == self.spec_capacity()),
    {
        self.items.len() == self.capacity
    }

    pub fn is_closed(&self) -> (r: bool)
        ensures
            r == self.spec_closed(),
    {
        self.closed
    }

    /// Closes the queue; what it holds can still be taken out.
    pub fn close(&mut self)
        requires
            old(self).wf(),
        ensures
            final(self).wf(),
            final(self).spec_closed(),
            final(self)@ == old(self)@,
            final(self).spec_capacity() == old(self).spec_capacity(),
            final(self).accepted() == old(self).accepted(),
            final(self).delivered() == old(self).delivered(),
    {
        self.closed = true;
    }

    /// Appends `item` at the back, or hands it back when the queue is full or
    /// closed.
    pub fn try_push(&mut self, item: T) -> (r: Result<(), T>)
        requires
            old(self).wf(),
        ensures
            final(self).wf(),
            final(self).spec_capacity() == old(self).spec_capacity(),
            final(self).delivered() == old(self).delivered(),
            final(self).spec_closed() == old(self).spec_closed(),
            !old(self).spec_closed() && old(self)@.len() < old(self).spec_capacity() ==> {
                &&& r is Ok
                &&& final(self)@ == old(self)@.push(item)
                &&& final(self).accepted() == old(self).accepted().push(item)
            },
            (old(self).spec_closed() || old(self)@.len() == old(self).spec_capacity()) ==> {
                &&& r == Err::<(), T>(item)
                &&& final(self)@ == old(self)@
                &&& final(self).accepted() == old(self).accepted()
            },
    {
        if !self.closed && self.items.len() < self.capacity {
            self.items.push_back(item);
            self.accepted = Ghost(self.accepted@.push(item));
            proof {
                assert(self.accepted@ =~= self.delivered@ + self.items@);
            }
            Ok(())
        } else {
            Err(item)
        }
    }

    /// Removes and returns the oldest item, if any.
    pub fn pop(&mut self) -> (r: Option<T>)
        requires
            old(self).wf(),
        ensures
            final(self).wf(),
            final(self).spec_capacity() == old(self).spec_capacity(),
            final(self).accepted() == old(self).accepted(),
            final(self).spec_closed() == old(self).spec_closed(),
            old(self)@.len() == 0 ==> {
                &&& r is None
                &&& final(self)@ == old(self)@
                &&& final(self).delivered() == old(self).delivered()
            },
            old(self)@.len() > 0 ==> {
                &&& r == Some(old(self)@[0])
                &&& final(self)@ == old(self)@.drop_first()
                &&& final(self).delivered() == old(self).delivered().push(old(self)@[0])
            },
    {
        let r = self.items.pop_front();
        match r {
            Some(x) => {
                self.delivered = Ghost(self.delivered@.push(x));
                proof {
                    assert(old(self)@ =~= seq![x] + self.items@);
                    assert(self.accepted@ =~= self.delivered@ + self.items@);
                }
                Some(x)
            },
            None => None,
        }
    }
}

/// Items leave the queue in the order in which they were accepted: the k-th
/// item handed out is the k-th item accepted. So if `a` was accepted before
/// `b` and `b` has been handed out, `a` was handed out before it.
pub proof fn lemma_delivered_in_acceptance_order<T>(q: MessageQueue<T>, i: int, j: int)
    requires
        q.wf(),
        0 <= i < j,
        j < q.delivered().len(),
    ensures
        q.delivered().is_prefix_of(q.accepted()),
        q.delivered()[i] == q.accepted()[i],
        q.delivered()[j] == q.accepted()[j],
{
    reveal_with_fuel(Seq::is_prefix_of, 1);
    assert(q.accepted().subrange(0, q.delivered().len() as int) =~= q.delivered());
}

} // verus!
