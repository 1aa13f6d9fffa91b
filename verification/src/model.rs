//! The mathematical model of the queue: a sequence, oldest element first.

use vstd::prelude::*;

verus! {

/// The queue `q` after `elem` has joined it at the back.
pub open spec fn pushed<T>(q: Seq<T>, elem: T) -> Seq<T> {
    q.push(elem)
}

/// The element at the front of `q`, the one that has waited longest.
pub open spec fn front<T>(q: Seq<T>) -> Option<T> {
    if q.len() == 0 {
        None
    } else {
        Some(q[0])
    }
}

/// What is left of `q` once its front element has gone; the empty queue stays
/// empty.
pub open spec fn behind<T>(q: Seq<T>) -> Seq<T> {
    if q.len() == 0 {
        q
    } else {
        q.subrange(1, q.len() as int)
    }
}

/// One request made of a queue.
pub enum Op<T> {
    /// Append this element at the back.
    Push(T),
    /// Hand out the front element, if there is one.
    Pop,
}

/// The queue that `q` has become once the requests `ops` have been served, in
/// their order.
pub open spec fn served<T>(q: Seq<T>, ops: Seq<Op<T>>) -> Seq<T>
    decreases ops.len(),
{
    if ops.len() == 0 {
        q
    } else {
        let before = served(q, ops.drop_last());
        match ops.last() {
            Op::Push(elem) => pushed(before, elem),
            Op::Pop => behind(before),
        }
    }
}

/// The elements that the pops among `ops` have handed out, in the order in
/// which they left, when the requests started on the queue `q`. A pop that
/// found the queue empty handed out nothing.
pub open spec fn yielded<T>(q: Seq<T>, ops: Seq<Op<T>>) -> Seq<T>
    decreases ops.len(),
{
    if ops.len() == 0 {
        Seq::empty()
    } else {
        let earlier = yielded(q, ops.drop_last());
        match (ops.last(), front(served(q, ops.drop_last()))) {
            (Op::Pop, Some(elem)) => earlier.push(elem),
            _ => earlier,
        }
    }
}

/// The elements that the pushes among `ops` have brought, in the order in
/// which they came.
pub open spec fn offered<T>(ops: Seq<Op<T>>) -> Seq<T>
    decreases ops.len(),
{
    if ops.len() == 0 {
        Seq::empty()
    } else {
        match ops.last() {
            Op::Push(elem) => offered(ops.drop_last()).push(elem),
            Op::Pop => offered(ops.drop_last()),
        }
    }
}

/// The requests that push the elements of `elems`, one after the other.
pub open spec fn pushes<T>(elems: Seq<T>) -> Seq<Op<T>> {
    Seq::new(elems.len(), |i: int| Op::Push(elems[i]))
}

/// `n` pops in a row.
pub open spec fn pops<T>(n: nat) -> Seq<Op<T>> {
    Seq::new(n, |i: int| Op::Pop)
}

/// The queue after a walk that lends out its elements for rewriting has gone
/// over `rest`, with `passed` already behind it, and has left `written[0]` in
/// place of the first element it met, `written[1]` in place of the second,
/// and so on until `written` or `rest` ran out.
pub open spec fn rewritten<T>(passed: Seq<T>, rest: Seq<T>, written: Seq<T>) -> Seq<T>
    decreases written.len(),
{
    if written.len() == 0 || rest.len() == 0 {
        passed + rest
    } else {
        rewritten(passed.push(written[0]), behind(rest), written.subrange(1, written.len() as int))
    }
}

} // verus!
