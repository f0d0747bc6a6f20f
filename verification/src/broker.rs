//! The broker's two shared tables and every transition they admit.
//!
//! A `Broker` holds the correlation table (identifier to response waiter) and
//! the pickup queue (identifier to pending command and pickup notifier, in
//! strict first-in-first-out order). The waiter and notifier handles are type
//! parameters: the broker registers, routes and removes them but never looks
//! inside one.

use std::collections::VecDeque;

use vstd::prelude::*;

verus! {

/// One pending command as the consumer sees it: the correlation identifier
/// and the command text. Parameters are not carried to the consumer.
pub struct PendingCommand {
    pub request_id: String,
    pub command: String,
}

/// Does the table hold an entry under key `k`?
pub open spec fn table_has<V>(t: Seq<(Seq<char>, V)>, k: Seq<char>) -> bool {
    exists|i: int| 0 <= i < t.len() && (#[trigger] t[i]).0 == k
}

/// The position of the entry under key `k` (meaningful only when the keys are
/// distinct and `table_has` holds).
pub open spec fn table_index<V>(t: Seq<(Seq<char>, V)>, k: Seq<char>) -> int {
    choose|i: int| 0 <= i < t.len() && (#[trigger] t[i]).0 == k
}

/// The value stored under key `k`.
pub open spec fn table_at<V>(t: Seq<(Seq<char>, V)>, k: Seq<char>) -> V {
    t[table_index(t, k)].1
}

/// No two entries share a key.
pub open spec fn table_unique<V>(t: Seq<(Seq<char>, V)>) -> bool {
    forall|i: int, j: int| 0 <= i < j < t.len() ==> (#[trigger] t[i]).0 != (#[trigger] t[j]).0
}

/// In a table with distinct keys, the entry at any position is the one its
/// own key looks up.
pub proof fn lemma_table_witness<V>(t: Seq<(Seq<char>, V)>, w: int)
    requires
        table_unique(t),
        0 <= w < t.len(),
    ensures
        table_has(t, t[w].0),
        table_index(t, t[w].0) == w,
        table_at(t, t[w].0) == t[w].1,
{
    assert(table_has(t, t[w].0));
    let i = table_index(t, t[w].0);
    if i < w {
        assert(t[i].0 != t[w].0);
    } else if w < i {
        assert(t[w].0 != t[i].0);
    }
}

/// Appending an entry under a fresh key keeps the keys distinct, stores the
/// new value under the new key, and leaves every other key untouched.
pub proof fn lemma_table_push<V>(t: Seq<(Seq<char>, V)>, k: Seq<char>, v: V)
    requires
        table_unique(t),
        !table_has(t, k),
    ensures
        table_unique(t.push((k, v))),
        table_has(t.push((k, v)), k),
        table_at(t.push((k, v)), k) == v,
        forall|k2: Seq<char>| k2 != k ==> table_has(t.push((k, v)), k2) == table_has(t, k2),
        forall|k2: Seq<char>|
            k2 != k && table_has(t, k2) ==> table_at(t.push((k, v)), k2) == table_at(t, k2),
{
    let t2 = t.push((k, v));
    assert forall|i: int, j: int| 0 <= i < j < t2.len() implies (#[trigger] t2[i]).0 != (
    #[trigger] t2[j]).0 by {
        if j < t.len() {
            assert(t2[i] == t[i] && t2[j] == t[j]);
        } else {
            assert(t2[j] == (k, v));
            assert(t2[i] == t[i]);
            assert(t[i].0 != k) by {
                if t[i].0 == k {
                    assert(table_has(t, k));
                }
            }
        }
    }
    assert(t2[t.len() as int] == (k, v));
    lemma_table_witness(t2, t.len() as int);
    assert forall|k2: Seq<char>| k2 != k implies table_has(t2, k2) == table_has(t, k2) by {
        if table_has(t, k2) {
            let i = table_index(t, k2);
            assert(t2[i] == t[i]);
            assert(table_has(t2, k2));
        }
        if table_has(t2, k2) {
            let i = choose|i: int| 0 <= i < t2.len() && (#[trigger] t2[i]).0 == k2;
            assert(i < t.len());
            assert(t2[i] == t[i]);
            assert(table_has(t, k2));
        }
    }
    assert forall|k2: Seq<char>| k2 != k && table_has(t, k2) implies table_at(t2, k2) == table_at(
        t,
        k2,
    ) by {
        let i = table_index(t, k2);
        lemma_table_witness(t, i);
        assert(t2[i] == t[i]);
        lemma_table_witness(t2, i);
    }
}

/// Removing the entry at one position drops its key and leaves every other
/// key, and the value under it, untouched.
pub proof fn lemma_table_remove<V>(t: Seq<(Seq<char>, V)>, w: int)
    requires
        table_unique(t),
        0 <= w < t.len(),
    ensures
        table_unique(t.remove(w)),
        !table_has(t.remove(w), t[w].0),
        forall|k2: Seq<char>| k2 != t[w].0 ==> table_has(t.remove(w), k2) == table_has(t, k2),
        forall|k2: Seq<char>|
            k2 != t[w].0 && table_has(t, k2) ==> table_at(t.remove(w), k2) == table_at(t, k2),
{
    let t2 = t.remove(w);
    t.remove_ensures(w);
    assert forall|i: int, j: int| 0 <= i < j < t2.len() implies (#[trigger] t2[i]).0 != (
    #[trigger] t2[j]).0 by {
        let i0: int = if i < w {
            i
        } else {
            i + 1
        };
        let j0: int = if j < w {
            j
        } else {
            j + 1
        };
        assert(t2[i] == t[i0] && t2[j] == t[j0]);
    }
    assert forall|i: int| 0 <= i < t2.len() implies (#[trigger] t2[i]).0 != t[w].0 by {
        let i0: int = if i < w {
            i
        } else {
            i + 1
        };
        assert(t2[i] == t[i0]);
        if i0 < w {
            assert(t[i0].0 != t[w].0);
        } else {
            assert(t[w].0 != t[i0].0);
        }
    }
    assert forall|k2: Seq<char>| k2 != t[w].0 implies table_has(t2, k2) == table_has(t, k2) by {
        if table_has(t, k2) {
            let i = table_index(t, k2);
            let i2: int = if i < w {
                i
            } else {
                i - 1
            };
            assert(t2[i2] == t[i]);
            assert(table_has(t2, k2));
        }
        if table_has(t2, k2) {
            let i = choose|i: int| 0 <= i < t2.len() && (#[trigger] t2[i]).0 == k2;
            let i0: int = if i < w {
                i
            } else {
                i + 1
            };
            assert(t2[i] == t[i0]);
            assert(table_has(t, k2));
        }
    }
    assert forall|k2: Seq<char>| k2 != t[w].0 && table_has(t, k2) implies table_at(t2, k2)
        == table_at(t, k2) by {
        let i = table_index(t, k2);
        lemma_table_witness(t, i);
        let i2: int = if i < w {
            i
        } else {
            i - 1
        };
        assert(t2[i2] == t[i]);
        lemma_table_witness(t2, i2);
    }
}

/// Neither table moved: what a refused or unfound request leaves behind.
pub open spec fn untouched<W, N>(pre: Broker<W, N>, post: Broker<W, N>) -> bool {
    post.corr() == pre.corr() && post.queue() == pre.queue()
}

/// One successful registration: a fresh identifier enters both tables — the
/// waiter into the correlation table, the command and its notifier at the
/// back of the pickup queue — and nothing else moves.
pub open spec fn registers<W, N>(
    pre: Broker<W, N>,
    post: Broker<W, N>,
    id: Seq<char>,
    command: Seq<char>,
    waiter: W,
    notifier: N,
) -> bool {
    &&& !pre.corr_has(id)
    &&& !pre.queue_has(id)
    &&& post.corr() == pre.corr().push((id, waiter))
    &&& post.queue() == pre.queue().push((id, (command, notifier)))
}

/// One successful delivery: the waiter registered under `id` — and only it —
/// leaves the correlation table, every other identifier keeps its own waiter,
/// and the pickup queue is untouched.
pub open spec fn resolves<W, N>(pre: Broker<W, N>, post: Broker<W, N>, id: Seq<char>, w: W) -> bool {
    &&& pre.corr_has(id)
    &&& w == pre.waiter_of(id)
    &&& !post.corr_has(id)
    &&& forall|k: Seq<char>| k != id ==> #[trigger] post.corr_has(k) == pre.corr_has(k)
    &&& forall|k: Seq<char>|
        k != id && pre.corr_has(k) ==> #[trigger] post.waiter_of(k) == pre.waiter_of(k)
    &&& post.corr().len() == pre.corr().len() - 1
    &&& post.queue() == pre.queue()
}

/// The broker instance shared by every endpoint handler. `W` is the response
/// waiter handle owned by a blocked submission; `N` is the pickup notifier
/// handle resolved when the consumer claims a command.
pub struct Broker<W, N> {
    pending: Vec<(String, W)>,
    queue: VecDeque<(PendingCommand, N)>,
}

impl<W, N> Broker<W, N> {
    /// The correlation table: identifier to response waiter, in order of
    /// registration.
    pub closed spec fn corr(&self) -> Seq<(Seq<char>, W)> {
        Seq::new(self.pending@.len(), |i: int| (self.pending@[i].0@, self.pending@[i].1))
    }

    /// The pickup queue: identifier to (command text, pickup notifier), oldest
    /// submission first.
    pub closed spec fn queue(&self) -> Seq<(Seq<char>, (Seq<char>, N))> {
        Seq::new(
            self.queue@.len(),
            |i: int| (self.queue@[i].0.request_id@, (self.queue@[i].0.command@, self.queue@[i].1)),
        )
    }

    /// Is a waiter registered under this identifier?
    pub open spec fn corr_has(&self, id: Seq<char>) -> bool {
        table_has(self.corr(), id)
    }

    /// The waiter registered under this identifier.
    pub open spec fn waiter_of(&self, id: Seq<char>) -> W {
        table_at(self.corr(), id)
    }

    /// Is a command queued under this identifier, still unclaimed?
    pub open spec fn queue_has(&self, id: Seq<char>) -> bool {
        table_has(self.queue(), id)
    }

    /// Each table holds at most one entry per identifier. Every operation
    /// preserves this; `new` establishes it.
    pub open spec fn wf(&self) -> bool {
        table_unique(self.corr()) && table_unique(self.queue())
    }

    /// A broker with no registered identifiers at all.
    pub fn new() -> (b: Self)
        ensures
            b.wf(),
            b.corr() == Seq::<(Seq<char>, W)>::empty(),
            b.queue() == Seq::<(Seq<char>, (Seq<char>, N))>::empty(),
    {
        let b = Broker { pending: Vec::new(), queue: VecDeque::new() };
        proof {
            assert(b.corr() =~= Seq::<(Seq<char>, W)>::empty());
            assert(b.queue() =~= Seq::<(Seq<char>, (Seq<char>, N))>::empty());
        }
        b
    }

    /// How many submissions currently await a result.
    pub fn pending_count(&self) -> (n: usize)
        ensures
            n == self.corr().len(),
    {
        self.pending.len()
    }

    /// How many commands currently await pickup.
    pub fn queued_count(&self) -> (n: usize)
        ensures
            n == self.queue().len(),
    {
        self.queue.len()
    }

    /// The position of the correlation entry for `id`, if any.
    fn find_pending(&self, id: &String) -> (r: Option<usize>)
        ensures
            match r {
                Option::Some(i) => 0 <= i < self.corr().len() && self.corr()[i as int].0 == id@,
                Option::None => !self.corr_has(id@),
            },
    {
        let mut i: usize = 0;
        while i < self.pending.len()
            invariant
                0 <= i <= self.pending@.len(),
                forall|j: int| 0 <= j < i ==> self.corr()[j].0 != id@,
            decreases self.pending@.len() - i,
        {
            if self.pending[i].0 == *id {
                return Option::Some(i);
            }
            i += 1;
        }
        Option::None
    }

    /// Registers a fresh submission: the waiter goes into the correlation
    /// table and the command, paired with its pickup notifier, to the back of
    /// the pickup queue, both under `id`. An identifier already present in
    /// either table is refused without any change: identifiers are minted
    /// collision-free, so a caller that is refused simply reports failure.
    pub fn register(&mut self, id: String, command: String, waiter: W, notifier: N) -> (fresh:
        bool)
        requires
            old(self).wf(),
        ensures
            final(self).wf(),
            fresh == (!old(self).corr_has(id@) && !old(self).queue_has(id@)),
            fresh ==> registers(*old(self), *final(self), id@, command@, waiter, notifier),
            fresh ==> final(self).corr_has(id@) && final(self).waiter_of(id@) == waiter
                && final(self).queue_has(id@),
            fresh ==> forall|k: Seq<char>|
                k != id@ ==> #[trigger] final(self).corr_has(k) == old(self).corr_has(k)
                    && final(self).queue_has(k) == old(self).queue_has(k),
            fresh ==> forall|k: Seq<char>|
                k != id@ && old(self).corr_has(k) ==> #[trigger] final(self).waiter_of(k)
                    == old(self).waiter_of(k),
            !fresh ==> final(self).corr() == old(self).corr() && final(self).queue() == old(
                self,
            ).queue(),
    {
        let in_corr = self.find_pending(&id);
        let in_queue = self.find_queued(&id);
        match (in_corr, in_queue) {
            (Option::None, Option::None) => {
                proof {
                    lemma_table_push(self.corr(), id@, waiter);
                    lemma_table_push(self.queue(), id@, (command@, notifier));
                }
                let cmd = PendingCommand { request_id: id.clone(), command };
                self.pending.push((id, waiter));
                self.queue.push_back((cmd, notifier));
                proof {
                    assert(self.corr() =~= old(self).corr().push((id@, waiter)));
                    assert(self.queue() =~= old(self).queue().push((id@, (command@, notifier))));
                }
                true
            },
            _ => {
                proof {
                    if let Option::Some(i) = in_corr {
                        lemma_table_witness(self.corr(), i as int);
                    }
                    if let Option::Some(i) = in_queue {
                        lemma_table_witness(self.queue(), i as int);
                    }
                }
                false
            },
        }
    }

    /// Claims the oldest queued command, if any: it leaves the queue for good
    /// and its pickup notifier is handed to the caller to resolve. The
    /// correlation table is untouched, so the result for the claimed command
    /// can still be delivered.
    pub fn poll(&mut self) -> (r: Option<(PendingCommand, N)>)
        requires
            old(self).wf(),
        ensures
            final(self).wf(),
            final(self).corr() == old(self).corr(),
            old(self).queue().len() == 0 ==> r is None && final(self).queue() == old(self).queue(),
            old(self).queue().len() > 0 ==> match r {
                Option::Some(p) => p.0.request_id@ == old(self).queue()[0].0 && p.0.command@ == old(
                    self,
                ).queue()[0].1.0 && p.1 == old(self).queue()[0].1.1 && final(self).queue() == old(
                    self,
                ).queue().remove(0) && !final(self).queue_has(old(self).queue()[0].0),
                Option::None => false,
            },
    {
        proof {
            if old(self).queue().len() > 0 {
                lemma_table_remove(self.queue(), 0);
            }
        }
        match self.queue.pop_front() {
            Option::None => Option::None,
            Option::Some((cmd, notifier)) => {
                proof {
                    assert(self.queue() =~= old(self).queue().remove(0));
                    assert(self.corr() =~= old(self).corr());
                }
                Option::Some((cmd, notifier))
            },
        }
    }

    /// Takes the response waiter registered under `id` out of the correlation
    /// table, if it is there. Once taken, the identifier is gone for good: a
    /// second take, however late, finds nothing. Every other registration,
    /// and the pickup queue, stay exactly as they were.
    pub fn take_waiter(&mut self, id: &String) -> (r: Option<W>)
        requires
            old(self).wf(),
        ensures
            final(self).wf(),
            final(self).queue() == old(self).queue(),
            r is Some <==> old(self).corr_has(id@),
            old(self).corr_has(id@) ==> resolves(
                *old(self),
                *final(self),
                id@,
                old(self).waiter_of(id@),
            ) && r == Option::Some(old(self).waiter_of(id@)),
            !old(self).corr_has(id@) ==> final(self).corr() == old(self).corr(),
    {
        match self.find_pending(id) {
            Option::None => Option::None,
            Option::Some(i) => {
                proof {
                    lemma_table_witness(self.corr(), i as int);
                    lemma_table_remove(self.corr(), i as int);
                }
                let (_, waiter) = self.pending.remove(i);
                proof {
                    assert(self.corr() =~= old(self).corr().remove(i as int));
                    assert(self.queue() =~= old(self).queue());
                }
                Option::Some(waiter)
            },
        }
    }

    /// Removes the queued command under `id`, if it is still unclaimed, and
    /// returns it with its notifier. The relative order of everything else in
    /// the queue, and the whole correlation table, are untouched.
    pub fn remove_queued(&mut self, id: &String) -> (r: Option<(PendingCommand, N)>)
        requires
            old(self).wf(),
        ensures
            final(self).wf(),
            final(self).corr() == old(self).corr(),
            r is Some <==> old(self).queue_has(id@),
            !final(self).queue_has(id@),
            forall|k: Seq<char>|
                k != id@ ==> #[trigger] final(self).queue_has(k) == old(self).queue_has(k),
            old(self).queue_has(id@) ==> final(self).queue() == old(self).queue().remove(
                table_index(old(self).queue(), id@),
            ),
            !old(self).queue_has(id@) ==> final(self).queue() == old(self).queue(),
    {
        match self.find_queued(id) {
            Option::None => Option::None,
            Option::Some(i) => {
                proof {
                    lemma_table_witness(self.queue(), i as int);
                    lemma_table_remove(self.queue(), i as int);
                }
                match self.queue.remove(i) {
                    Option::None => Option::None,
                    Option::Some((cmd, notifier)) => {
                        proof {
                            assert(self.queue() =~= old(self).queue().remove(i as int));
                            assert(self.corr() =~= old(self).corr());
                        }
                        Option::Some((cmd, notifier))
                    },
                }
            },
        }
    }

    /// The pickup-deadline cleanup: whatever stage the submission under `id`
    /// reached, afterwards neither table holds any trace of it, and no other
    /// identifier is disturbed. Safe to call when the entries are already
    /// gone.
    pub fn cancel_submission(&mut self, id: &String)
        requires
            old(self).wf(),
        ensures
            final(self).wf(),
            !final(self).corr_has(id@),
            !final(self).queue_has(id@),
            forall|k: Seq<char>|
                k != id@ ==> #[trigger] final(self).corr_has(k) == old(self).corr_has(k),
            forall|k: Seq<char>|
                k != id@ && old(self).corr_has(k) ==> final(self).waiter_of(k) == old(
                    self,
                ).waiter_of(k),
            forall|k: Seq<char>|
                k != id@ ==> #[trigger] final(self).queue_has(k) == old(self).queue_has(k),
    {
        let _ = self.remove_queued(id);
        let ghost mid = *self;
        let _ = self.take_waiter(id);
        proof {
            assert forall|k: Seq<char>| k != id@ implies #[trigger] self.queue_has(k) == old(
                self,
            ).queue_has(k) by {
                assert(mid.queue_has(k) == old(self).queue_has(k));
                assert(self.queue() == mid.queue());
            }
        }
    }

    /// The position of the queued command for `id`, if any.
    fn find_queued(&self, id: &String) -> (r: Option<usize>)
        ensures
            match r {
                Option::Some(i) => 0 <= i < self.queue().len() && self.queue()[i as int].0 == id@,
                Option::None => !self.queue_has(id@),
            },
    {
        let mut i: usize = 0;
        while i < self.queue.len()
            invariant
                0 <= i <= self.queue@.len(),
                forall|j: int| 0 <= j < i ==> self.queue()[j].0 != id@,
            decreases self.queue@.len() - i,
        {
            if self.queue[i].0.request_id == *id {
                return Option::Some(i);
            }
            i += 1;
        }
        Option::None
    }
}

} // verus!
