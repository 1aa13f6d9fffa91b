//! What holds of every queue, proved over the model.

use vstd::prelude::*;
use crate::model::{behind, front, offered, pops, pushed, pushes, rewritten, served, yielded, Op};

verus! {

/// Serving `a` and then `b` is serving `a + b`: the queue that results is the
/// same, and so is what the pops have handed out.
pub proof fn law_served_in_turn<T>(q: Seq<T>, a: Seq<Op<T>>, b: Seq<Op<T>>)
    ensures
        served(q, a + b) == served(served(q, a), b),
        yielded(q, a + b) == yielded(q, a) + yielded(served(q, a), b),
        offered(a + b) == offered(a) + offered(b),
    decreases b.len(),
{
    if b.len() > 0 {
        assert((a + b).drop_last() =~= a + b.drop_last());
        law_served_in_turn(q, a, b.drop_last());
    }
}

/// Nothing is lost and nothing overtakes: whatever was in the queue at the
/// start or has been pushed since has either been handed out, in its order of
/// arrival, or still waits, in that order. So at every point of any
/// interleaving the next pop returns the earliest arrival not yet handed out,
/// and `None` exactly when all of them have been.
pub proof fn law_first_in_first_out<T>(q: Seq<T>, ops: Seq<Op<T>>)
    ensures
        q + offered(ops) == yielded(q, ops) + served(q, ops),
        yielded(q, ops).len() <= (q + offered(ops)).len(),
        front(served(q, ops)) == (if yielded(q, ops).len() < (q + offered(ops)).len() {
            Some((q + offered(ops))[yielded(q, ops).len() as int])
        } else {
            None
        }),
    decreases ops.len(),
{
    if ops.len() > 0 {
        let earlier = ops.drop_last();
        law_first_in_first_out(q, earlier);
        if let Op::Push(elem) = ops.last() {
            assert(yielded(q, ops) + served(q, ops) =~= (yielded(q, earlier) + served(q, earlier)).push(
                elem,
            ));
        }
    }
}

/// A queue hands out what it holds from the front: `n` pops in a row hand out
/// the first `n` elements in their order and leave the others; once the queue
/// is empty, further pops hand out nothing and leave it empty.
pub proof fn law_pops_drain<T>(q: Seq<T>, n: nat)
    ensures
        n <= q.len() ==> yielded(q, pops(n)) == q.subrange(0, n as int),
        n <= q.len() ==> served(q, pops(n)) == q.subrange(n as int, q.len() as int),
        n >= q.len() ==> yielded(q, pops(n)) == q,
        n >= q.len() ==> served(q, pops(n)) == Seq::<T>::empty(),
    decreases n,
{
    if n > 0 {
        assert(pops::<T>(n).drop_last() =~= pops::<T>((n - 1) as nat));
        law_pops_drain(q, (n - 1) as nat);
    }
}

/// Pushes line the elements up behind what is there, in the order in which
/// they come, and hand out nothing.
pub proof fn law_pushes_line_up<T>(q: Seq<T>, elems: Seq<T>)
    ensures
        served(q, pushes(elems)) == q + elems,
        yielded(q, pushes(elems)) == Seq::<T>::empty(),
    decreases elems.len(),
{
    if elems.len() > 0 {
        assert(pushes(elems).drop_last() =~= pushes(elems.drop_last()));
        law_pushes_line_up(q, elems.drop_last());
    }
}

/// First in, first out: when the elements of `elems` are pushed onto an empty
/// queue and as many pops follow, the pops return those elements in the order
/// in which they were pushed, and the queue is empty again.
pub proof fn law_pushes_then_pops<T>(elems: Seq<T>)
    ensures
        yielded(Seq::empty(), pushes(elems) + pops(elems.len())) == elems,
        served(Seq::empty(), pushes(elems) + pops(elems.len())) == Seq::<T>::empty(),
{
    let start = Seq::<T>::empty();
    law_served_in_turn(start, pushes(elems), pops(elems.len()));
    law_pushes_line_up(start, elems);
    law_pops_drain(elems, elems.len());
}

/// A queue that was just made is empty: a pop finds nothing in it and leaves
/// it empty.
pub proof fn law_pop_finds_new_queue_empty<T>()
    ensures
        front(Seq::<T>::empty()) is None,
        behind(Seq::<T>::empty()) == Seq::<T>::empty(),
{
}

/// A queue that pops have emptied is as good as new: the next push followed
/// by a pop returns just the element pushed, and the queue is empty again.
pub proof fn law_emptied_queue_starts_over<T>(q: Seq<T>, elem: T)
    ensures
        served(q, pops(q.len())) == Seq::<T>::empty(),
        front(pushed(served(q, pops(q.len())), elem)) == Some(elem),
        behind(pushed(served(q, pops(q.len())), elem)) == Seq::<T>::empty(),
{
    law_pops_drain(q, q.len());
}

/// Looking does not take: a queue whose front element was lent out for
/// rewriting and came back as it was found is the queue it was, so the next
/// pop returns the element that the look showed.
pub proof fn law_peek_leaves_front<T>(q: Seq<T>, seen: T)
    requires
        front(q) == Some(seen),
    ensures
        q.update(0, seen) == q,
        front(q.update(0, seen)) == Some(seen),
{
}

/// A walk that lends out the elements for rewriting replaces them in place:
/// when it leaves `written[i]` where it met the `i`-th of the elements still
/// before it, the queue afterwards holds what the walk had passed, then
/// `written`, then the elements that the walk did not reach.
pub proof fn law_walk_rewrites_in_place<T>(passed: Seq<T>, rest: Seq<T>, written: Seq<T>)
    requires
        written.len() <= rest.len(),
    ensures
        rewritten(passed, rest, written) == passed + written + rest.subrange(
            written.len() as int,
            rest.len() as int,
        ),
    decreases written.len(),
{
    if written.len() > 0 {
        law_walk_rewrites_in_place(
            passed.push(written[0]),
            behind(rest),
            written.subrange(1, written.len() as int),
        );
    }
}

} // verus!
