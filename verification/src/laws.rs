//! The broker's cross-call guarantees, each proved from the transition
//! contracts alone.

use vstd::prelude::*;
use crate::broker::{
    lemma_table_push, lemma_table_remove, registers, resolves, table_has, Broker,
};

verus! {

/// At-most-once delivery: once a poll has claimed the identifier at the head
/// of the queue, the queue holds no trace of it, so a later poll — which
/// yields the head of the remaining queue — can never hand it out again.
pub proof fn lemma_at_most_once_delivery<W, N>(
    pre: Broker<W, N>,
    post: Broker<W, N>,
    claimed: Seq<char>,
)
    requires
        pre.wf(),
        pre.queue().len() > 0,
        claimed == pre.queue()[0].0,
        post.queue() == pre.queue().remove(0),
    ensures
        !post.queue_has(claimed),
        post.queue().len() > 0 ==> post.queue()[0].0 != claimed,
{
    lemma_table_remove(pre.queue(), 0);
    if post.queue().len() > 0 && post.queue()[0].0 == claimed {
        assert(table_has(post.queue(), claimed));
    }
}

/// At-most-once resolution: a delivery that resolves the waiter under an
/// identifier consumes the correlation entry, so any later delivery attempt
/// for the same identifier finds nothing — the result endpoint then answers
/// not-found, by its own contract.
pub proof fn lemma_at_most_once_resolution<W, N>(
    pre: Broker<W, N>,
    post: Broker<W, N>,
    id: Seq<char>,
    w: W,
)
    requires
        resolves(pre, post, id, w),
    ensures
        !post.corr_has(id),
{
}

/// First submitted, first served: registration appends to the queue, so after
/// two submissions the older stands at the head and polling — which always
/// claims the head — hands them out in submission order.
pub proof fn lemma_fifo_order<W, N>(
    b0: Broker<W, N>,
    b1: Broker<W, N>,
    b2: Broker<W, N>,
    id_a: Seq<char>,
    cmd_a: Seq<char>,
    w_a: W,
    n_a: N,
    id_b: Seq<char>,
    cmd_b: Seq<char>,
    w_b: W,
    n_b: N,
)
    requires
        b0.queue().len() == 0,
        registers(b0, b1, id_a, cmd_a, w_a, n_a),
        registers(b1, b2, id_b, cmd_b, w_b, n_b),
    ensures
        b2.queue().len() == 2,
        b2.queue()[0].0 == id_a,
        b2.queue()[1].0 == id_b,
{
}

/// Correlation integrity: two submissions registered one after the other and
/// answered in the reverse order each receive exactly the waiter that was
/// registered under their own identifier.
pub proof fn lemma_correlation_integrity<W, N>(
    b0: Broker<W, N>,
    b1: Broker<W, N>,
    b2: Broker<W, N>,
    b3: Broker<W, N>,
    b4: Broker<W, N>,
    id_a: Seq<char>,
    cmd_a: Seq<char>,
    w_a: W,
    n_a: N,
    id_b: Seq<char>,
    cmd_b: Seq<char>,
    w_b: W,
    n_b: N,
    r_b: W,
    r_a: W,
)
    requires
        b0.wf(),
        registers(b0, b1, id_a, cmd_a, w_a, n_a),
        registers(b1, b2, id_b, cmd_b, w_b, n_b),
        resolves(b2, b3, id_b, r_b),
        resolves(b3, b4, id_a, r_a),
    ensures
        id_a != id_b,
        r_b == w_b,
        r_a == w_a,
{
    lemma_table_push(b0.corr(), id_a, w_a);
    assert(b1.corr_has(id_a) && b1.waiter_of(id_a) == w_a);
    assert(id_a != id_b);
    lemma_table_push(b1.corr(), id_b, w_b);
    assert(b2.waiter_of(id_b) == w_b);
    assert(b2.waiter_of(id_a) == w_a && b2.corr_has(id_a));
    assert(r_b == w_b);
    assert(b3.waiter_of(id_a) == w_a && b3.corr_has(id_a));
    assert(r_a == w_a);
}

} // verus!
