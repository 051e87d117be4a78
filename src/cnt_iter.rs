//! A sequence of items handed out one at a time, counting how many were taken.
use vstd::prelude::*;

verus! {

/// Hands out the items of a vector in order and counts those taken.
pub struct CounterIterator<T> {
    inner: Vec<T>,
    taken: usize,
}

impl<T> CounterIterator<T> {
    /// The items not yet taken, in order.
    pub closed spec fn remaining(&self) -> Seq<T> {
        self.inner@
    }

    /// How many items were taken so far.
    pub closed spec fn count(&self) -> nat {
        self.taken as nat
    }

    /// The count cannot overflow while items remain.
    pub closed spec fn wf(&self) -> bool {
        self.taken + self.inner@.len() <= usize::MAX
    }

    /// Starts with all of `it` remaining and nothing taken.
    pub fn new(it: Vec<T>) -> (r: Self)
        ensures
            r.remaining() == it@,
            r.count() == 0,
            r.wf(),
    {
        let total: usize = it.len();
        proof {
            assert(total == it@.len());
        }
        Self { inner: it, taken: 0 }
    }

    /// How many items were taken so far.
    pub fn taken(&self) -> (r: usize)
        ensures
            r == self.count(),
    {
        self.taken
    }

    /// The next item, counted as taken; `None` once none remains.
    pub fn next(&mut self) -> (r: Option<T>)
        requires
            old(self).wf(),
        ensures
            final(self).wf(),
            old(self).remaining().len() == 0 ==> r is None && *final(self) == *old(self),
            old(self).remaining().len() > 0 ==> r == Some(old(self).remaining()[0]),
            old(self).remaining().len() > 0 ==> final(self).remaining()
                == old(self).remaining().drop_first(),
            old(self).remaining().len() > 0 ==> final(self).count() == old(self).count() + 1,
    {
        if self.inner.len() == 0 {
            None
        } else {
            let item = self.inner.remove(0);
            self.taken = self.taken + 1;
            proof {
                assert(self.inner@ =~= old(self).remaining().drop_first());
            }
            Some(item)
        }
    }

    /// All the remaining items, counted as taken.
    pub fn take_rest(&mut self) -> (r: Vec<T>)
        requires
            old(self).wf(),
        ensures
            final(self).wf(),
            r@ == old(self).remaining(),
            final(self).remaining().len() == 0,
            final(self).count() == old(self).count() + old(self).remaining().len(),
    {
        let rest = self.inner.split_off(0);
        self.taken = self.taken + rest.len();
        rest
    }
}

} // verus!
