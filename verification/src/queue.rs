//! The queue itself: an arena of nodes, a chain through it, and a handle on
//! the chain's last node.

use vstd::prelude::*;
use crate::model::{behind, front, pushed};

verus! {

/// One link of a chain. A node that is in the queue holds an element; a node
/// that waits for reuse holds none.
struct Node<T> {
    elem: Option<T>,
    next: Option<usize>,
}

/// A first-in, first-out queue.
pub struct List<T> {
    /// Every node the queue has ever allocated, in use or not.
    nodes: Vec<Node<T>>,
    /// The node whose element `pop` hands out next.
    head: Option<usize>,
    /// The node that the next `push` links behind.
    tail: Option<usize>,
    /// The first of the nodes that wait for reuse.
    free: Option<usize>,
    /// The handles of the nodes in the queue, front to back.
    order: Ghost<Seq<usize>>,
    /// The handles of the nodes that wait for reuse, in the order of their chain.
    spare: Ghost<Seq<usize>>,
}

/// `path` lists the handles of a chain through `nodes` that starts at `first`:
/// each node links to the one listed after it, the last one links to nothing,
/// no node is listed twice, and all of them hold an element, or none does.
spec fn chained<T>(nodes: Seq<Node<T>>, first: Option<usize>, path: Seq<usize>, full: bool) -> bool {
    &&& first == (if path.len() == 0 { None } else { Some(path[0]) })
    &&& forall|i: int| 0 <= i < path.len() ==> {
        &&& (#[trigger] path[i]) < nodes.len()
        &&& nodes[path[i] as int].elem is Some <==> full
        &&& nodes[path[i] as int].next == (if i + 1 < path.len() { Some(path[i + 1]) } else { None })
    }
    &&& forall|i: int, j: int| 0 <= i < j < path.len() ==> #[trigger] path[i] != #[trigger] path[j]
}

impl<T> View for List<T> {
    type V = Seq<T>;

    /// The elements in the queue, oldest first.
    closed spec fn view(&self) -> Seq<T> {
        Seq::new(self.order@.len(), |i: int| self.nodes@[self.order@[i] as int].elem->0)
    }
}

impl<T> List<T> {
    /// The representation invariant. The occupied nodes form one chain from
    /// `head`, without a cycle, and `tail` names the last node of that chain:
    /// it is `None` exactly when `head` is. The vacant nodes form the chain of
    /// spares from `free`, and every node of the arena is on one of the two
    /// chains.
    pub closed spec fn wf(&self) -> bool {
        &&& chained(self.nodes@, self.head, self.order@, true)
        &&& chained(self.nodes@, self.free, self.spare@, false)
        &&& self.tail is None <==> self.head is None
        &&& self.tail == (if self.order@.len() == 0 { None } else { Some(self.order@.last()) })
        &&& self.order@.len() + self.spare@.len() == self.nodes@.len()
    }

    /// An empty queue.
    pub fn new() -> (list: Self)
        ensures
            list.wf(),
            list@ == Seq::<T>::empty(),
    {
        List {
            nodes: Vec::new(),
            head: None,
            tail: None,
            free: None,
            order: Ghost(Seq::empty()),
            spare: Ghost(Seq::empty()),
        }
    }

    /// Appends `elem` behind every element already in the queue.
    pub fn push(&mut self, elem: T)
        requires
            old(self).wf(),
        ensures
            final(self).wf(),
            final(self)@ == pushed(old(self)@, elem),
    {
        let at: usize = match self.free {
            Some(f) => {
                self.free = self.nodes[f].next;
                self.nodes[f].elem = Some(elem);
                self.nodes[f].next = None;
                proof {
                    self.spare@ = self.spare@.subrange(1, self.spare@.len() as int);
                }
                f
            },
            None => {
                self.nodes.push(Node { elem: Some(elem), next: None });
                self.nodes.len() - 1
            },
        };
        match self.tail {
            Some(t) => {
                self.nodes[t].next = Some(at);
            },
            None => {
                self.head = Some(at);
            },
        }
        self.tail = Some(at);
        proof {
            self.order@ = self.order@.push(at);
        }
    }

    /// Removes the element at the front and returns it; `None` when the queue
    /// is empty.
    pub fn pop(&mut self) -> (elem: Option<T>)
        requires
            old(self).wf(),
        ensures
            final(self).wf(),
            elem == front(old(self)@),
            final(self)@ == behind(old(self)@),
    {
        match self.head {
            None => None,
            Some(h) => {
                let elem = self.nodes[h].elem.take();
                self.head = self.nodes[h].next;
                if self.head.is_none() {
                    self.tail = None;
                }
                self.nodes[h].next = self.free;
                self.free = Some(h);
                proof {
                    self.order@ = self.order@.subrange(1, self.order@.len() as int);
                    self.spare@ = seq![h] + self.spare@;
                }
                elem
            },
        }
    }

    /// The element at the front, left in place; `None` when the queue is empty.
    pub fn peek(&self) -> (elem: Option<&T>)
        requires
            self.wf(),
        ensures
            elem == match front(self@) {
                Some(e) => Some(&e),
                None => None,
            },
    {
        match self.head {
            None => None,
            Some(h) => self.nodes[h].elem.as_ref(),
        }
    }

    /// Exclusive access to the element at the front; `None` when the queue is
    /// empty. Whatever the caller leaves behind the reference is the new front
    /// element; nothing else about the queue can change through it.
    pub fn peek_mut(&mut self) -> (elem: Option<&mut T>)
        requires
            old(self).wf(),
        ensures
            final(self).wf(),
            match elem {
                Some(e) => {
                    &&& front(old(self)@) == Some(*e)
                    &&& final(self)@ == old(self)@.update(0, *final(e))
                },
                None => {
                    &&& front(old(self)@) is None
                    &&& final(self)@ == old(self)@
                },
            },
    {
        match self.head {
            None => None,
            Some(h) => self.nodes[h].elem.as_mut(),
        }
    }

    /// Empties the queue by walking it from the front: each step detaches the
    /// front node and releases its element before the walk moves on, so the
    /// elements go in the order in which they came.
    pub fn clear(&mut self)
        requires
            old(self).wf(),
        ensures
            final(self).wf(),
            final(self)@ == Seq::<T>::empty(),
    {
        while self.head.is_some()
            invariant
                self.wf(),
                self.head is Some <==> self@.len() > 0,
            decreases self@.len(),
        {
            self.pop();
        }
    }

    /// The handle of the node that holds the `i`-th element, counted from the
    /// front; `None` where the queue has no such element.
    pub(crate) closed spec fn handle(&self, i: int) -> Option<usize> {
        if 0 <= i < self.order@.len() {
            Some(self.order@[i])
        } else {
            None
        }
    }

    /// The handle of the front node.
    pub(crate) fn first(&self) -> (h: Option<usize>)
        requires
            self.wf(),
        ensures
            h == self.handle(0),
            h is Some <==> 0 < self@.len(),
    {
        self.head
    }

    /// The handle of the node linked behind node `h`.
    pub(crate) fn after(&self, h: usize, Ghost(i): Ghost<int>) -> (next: Option<usize>)
        requires
            self.wf(),
            self.handle(i) == Some(h),
        ensures
            next == self.handle(i + 1),
            next is Some <==> i + 1 < self@.len(),
            0 <= i < self@.len(),
    {
        self.nodes[h].next
    }

    /// The element that node `h` holds.
    pub(crate) fn elem(&self, h: usize, Ghost(i): Ghost<int>) -> (elem: Option<&T>)
        requires
            self.wf(),
            self.handle(i) == Some(h),
        ensures
            0 <= i < self@.len(),
            elem == Some(&self@[i]),
    {
        self.nodes[h].elem.as_ref()
    }

    /// Exclusive access to the element that node `h` holds. The links stay as
    /// they are, so every handle keeps its place.
    pub(crate) fn elem_mut(&mut self, h: usize, Ghost(i): Ghost<int>) -> (elem: Option<&mut T>)
        requires
            old(self).wf(),
            old(self).handle(i) == Some(h),
        ensures
            0 <= i < old(self)@.len(),
            elem is Some,
            *elem->0 == old(self)@[i],
            final(self).wf(),
            final(self)@ == old(self)@.update(i, *final(elem->0)),
            forall|j: int| final(self).handle(j) == old(self).handle(j),
    {
        self.nodes[h].elem.as_mut()
    }
}

} // verus!
