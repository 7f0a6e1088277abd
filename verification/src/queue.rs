use vstd::prelude::*;
use std::collections::VecDeque;

verus! {

/// Number of items that each queue of a session holds at most.
pub const QUEUE_CAPACITY: usize = 10;

/// A first-in, first-out queue that never holds more than its limit.
///
/// A producer that meets a full queue gets its item back and has to wait:
/// nothing is dropped and nothing overtakes.
pub struct BoundedQueue<T> {
    items: VecDeque<T>,
    limit: usize,
}

impl<T> View for BoundedQueue<T> {
    type V = Seq<T>;

    closed spec fn view(&self) -> Seq<T> {
        self.items@
    }
}

impl<T> BoundedQueue<T> {
    /// Whether the queue respects its limit. Every queue made by [`Self::new`]
    /// does, and no method breaks it.
    pub open spec fn wf(&self) -> bool {
        0 < self.limit() && self@.len() <= self.limit()
    }

    /// The most items that the queue holds.
    pub closed spec fn limit(&self) -> nat {
        self.limit as nat
    }

    /// An empty queue that holds at most `limit` items.
    pub fn new(limit: usize) -> (res: Self)
        requires
            limit > 0,
        ensures
            res@ == Seq::<T>::empty(),
            res.limit() == limit,
            res.wf(),
    {
        BoundedQueue { items: VecDeque::new(), limit }
    }

    /// The most items that the queue holds.
    pub fn capacity(&self) -> (res: usize)
        ensures
            res == self.limit(),
    {
        self.limit
    }

    /// The number of items waiting.
    pub fn len(&self) -> (res: usize)
        ensures
            res == self@.len(),
    {
        self.items.len()
    }

    /// Whether nothing is waiting.
    pub fn is_empty(&self) -> (res: bool)
        ensures
            res == (self@.len() == 0),
    {
        self.items.len() == 0
    }

    /// Whether a producer has to wait.
    pub fn is_full(&self) -> (res: bool)
        ensures
            res == (self@.len() >= self.limit()),
    {
        self.items.len() >= self.limit
    }

    /// Puts `item` behind all that wait. A full queue is left as it is and
    /// hands the item back.
    pub fn offer(&mut self, item: T) -> (res: Result<(), T>)
        ensures
            final(self).limit() == old(self).limit(),
            old(self).wf() ==> final(self).wf(),
            old(self)@.len() < old(self).limit() ==> res is Ok && final(self)@ == old(self)@.push(item),
            old(self)@.len() >= old(self).limit() ==> res == Err::<(), T>(item) && final(self)@ == old(
                self,
            )@,
    {
        if self.items.len() >= self.limit {
            Err(item)
        } else {
            self.items.push_back(item);
            Ok(())
        }
    }

    /// Takes the item that has waited longest, if there is one.
    pub fn take(&mut self) -> (res: Option<T>)
        ensures
            final(self).limit() == old(self).limit(),
            old(self).wf() ==> final(self).wf(),
            old(self)@.len() == 0 ==> res is None && final(self)@ == old(self)@,
            old(self)@.len() > 0 ==> res == Some(old(self)@[0]) && final(self)@ == old(self)@.drop_first(),
    {
        let res = self.items.pop_front();
        proof {
            if old(self)@.len() > 0 {
                assert(final(self).items@ =~= old(self)@.drop_first());
            }
        }
        res
    }
}

} // verus!
