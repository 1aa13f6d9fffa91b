//! The three ways to walk a queue: by taking it apart, by reading it, and by
//! rewriting its elements in place.
//!
//! All three advance in the same way, from a node to the node linked behind
//! it; they differ in what they hand out at each step. The view of each walk
//! is the sequence of elements still before it.

use vstd::prelude::*;
use crate::model::{behind, front};
use crate::queue::List;

verus! {

/// Walks a queue by emptying it: each step pops the front element.
pub struct IntoIter<T>(List<T>);

/// Walks a queue front to back and lends out each element for reading.
pub struct Iter<'a, T> {
    list: &'a List<T>,
    /// The node whose element comes next.
    next: Option<usize>,
    /// How many elements have been handed out.
    at: Ghost<int>,
}

/// Walks a queue front to back and lends out each element for rewriting.
pub struct IterMut<'a, T> {
    list: &'a mut List<T>,
    /// The node whose element comes next.
    next: Option<usize>,
    /// How many elements have been handed out.
    at: Ghost<int>,
}

impl<T> View for IntoIter<T> {
    type V = Seq<T>;

    /// The elements still to come, in the order in which they will come.
    closed spec fn view(&self) -> Seq<T> {
        self.0@
    }
}

impl<T> IntoIter<T> {
    /// The queue that the walk owns is well formed.
    pub closed spec fn wf(&self) -> bool {
        self.0.wf()
    }

    /// The next element, or `None` once the queue is used up.
    pub fn next(&mut self) -> (elem: Option<T>)
        requires
            old(self).wf(),
        ensures
            final(self).wf(),
            elem == front(old(self)@),
            final(self)@ == behind(old(self)@),
    {
        self.0.pop()
    }
}

impl<'a, T> View for Iter<'a, T> {
    type V = Seq<T>;

    /// The elements still to come, in the order in which they will come.
    closed spec fn view(&self) -> Seq<T> {
        self.list@.subrange(self.at@, self.list@.len() as int)
    }
}

impl<'a, T> Iter<'a, T> {
    /// The queue is well formed and the walk stands at one of its nodes, or
    /// behind the last.
    pub closed spec fn wf(&self) -> bool {
        &&& self.list.wf()
        &&& 0 <= self.at@ <= self.list@.len()
        &&& self.next == self.list.handle(self.at@)
        &&& self.next is Some <==> self.at@ < self.list@.len()
    }

    /// The next element, or `None` once the walk has passed the last one.
    pub fn next(&mut self) -> (elem: Option<&'a T>)
        requires
            old(self).wf(),
        ensures
            final(self).wf(),
            elem == match front(old(self)@) {
                Some(e) => Some(&e),
                None => None,
            },
            final(self)@ == behind(old(self)@),
    {
        match self.next {
            None => None,
            Some(h) => {
                let elem = self.list.elem(h, self.at);
                self.next = self.list.after(h, self.at);
                proof {
                    self.at@ = self.at@ + 1;
                }
                elem
            },
        }
    }
}

impl<'a, T> View for IterMut<'a, T> {
    type V = Seq<T>;

    /// The elements still to come, in the order in which they will come.
    closed spec fn view(&self) -> Seq<T> {
        self.list@.subrange(self.at@, self.list@.len() as int)
    }
}

impl<'a, T> IterMut<'a, T> {
    /// The queue is well formed and the walk stands at one of its nodes, or
    /// behind the last.
    pub closed spec fn wf(&self) -> bool {
        &&& self.list.wf()
        &&& 0 <= self.at@ <= self.list@.len()
        &&& self.next == self.list.handle(self.at@)
        &&& self.next is Some <==> self.at@ < self.list@.len()
    }

    /// The borrow of the queue that the walk holds. Its final value is the
    /// queue that the owner gets back.
    pub closed spec fn queue(&self) -> &'a mut List<T> {
        self.list
    }

    /// The elements that the walk has passed, as it left them.
    pub closed spec fn passed(&self) -> Seq<T> {
        self.list@.subrange(0, self.at@)
    }

    /// The next element, or `None` once the walk has passed the last one.
    /// What the caller leaves behind the reference joins the elements passed.
    pub fn next(&mut self) -> (elem: Option<&mut T>)
        requires
            old(self).wf(),
        ensures
            final(self).wf(),
            final(self)@ == behind(old(self)@),
            *final(final(self).queue()) == *final(old(self).queue()),
            match elem {
                Some(e) => {
                    &&& front(old(self)@) == Some(*e)
                    &&& final(self).passed() == old(self).passed().push(*final(e))
                },
                None => {
                    &&& front(old(self)@) is None
                    &&& final(self).passed() == old(self).passed()
                },
            },
    {
        match self.next {
            None => None,
            Some(h) => {
                self.next = self.list.after(h, self.at);
                let elem = self.list.elem_mut(h, self.at);
                proof {
                    self.at@ = self.at@ + 1;
                }
                elem
            },
        }
    }

    /// When a walk is given up, the owner gets the queue back as the walk
    /// left it: well formed, holding the elements that the walk passed, as it
    /// left them, and behind them those that it did not reach.
    pub proof fn lemma_walk_given_up(&self)
        requires
            self.wf(),
            has_resolved(*self),
        ensures
            final(self.queue()).wf(),
            final(self.queue())@ == self.passed() + self@,
    {
        assert(self.list@ =~= self.passed() + self@);
    }
}

impl<T> List<T> {
    /// Turns the queue into a walk that empties it.
    pub fn into_iter(self) -> (iter: IntoIter<T>)
        requires
            self.wf(),
        ensures
            iter.wf(),
            iter@ == self@,
    {
        IntoIter(self)
    }

    /// A walk over the elements, front to back, that leaves the queue as it is.
    pub fn iter(&self) -> (iter: Iter<'_, T>)
        requires
            self.wf(),
        ensures
            iter.wf(),
            iter@ == self@,
    {
        Iter { list: self, next: self.first(), at: Ghost(0) }
    }

    /// A walk over the elements, front to back, through which each can be
    /// rewritten in place. The queue afterwards is the final value of the
    /// borrow that the walk holds.
    pub fn iter_mut(&mut self) -> (iter: IterMut<'_, T>)
        requires
            old(self).wf(),
        ensures
            iter.wf(),
            iter@ == old(self)@,
            iter.passed() == Seq::<T>::empty(),
            *final(self) == *final(iter.queue()),
    {
        let next = self.first();
        IterMut { list: self, next, at: Ghost(0) }
    }
}

} // verus!
