//! Completion registry: a bounded set of per-connection completion queues.
//! The backend's completion path appends a finished request's handle to the
//! queue of the owning connection; the connection's consumer takes handles
//! back out one at a time.

use vstd::multiset::Multiset;
use vstd::prelude::*;

verus! {

/// The fixed number of connection slots the registry holds.
pub const MAX_CONNS: u16 = 100;

/// The per-queue capacity reserved up front; a hint only, a queue may grow
/// past it.
pub const CAPACITY_PER_INSTANCE: usize = 1024;

/// What a fresh registry holds: one empty queue per connection slot.
pub open spec fn empty_queues() -> Seq<Seq<u64>> {
    Seq::new(MAX_CONNS as nat, |i: int| Seq::<u64>::empty())
}

/// A bounded set of per-connection completion queues, indexed by connection
/// id. Allocated once; queues never shrink except by consumption.
pub struct CompletionRegistry {
    queues: Vec<Vec<u64>>,
}

impl View for CompletionRegistry {
    type V = Seq<Seq<u64>>;

    closed spec fn view(&self) -> Seq<Seq<u64>> {
        Seq::new(self.queues@.len(), |i: int| self.queues@[i]@)
    }
}

impl CompletionRegistry {
    /// A fresh registry: one empty queue per connection slot.
    pub fn new() -> (r: CompletionRegistry)
        ensures
            r@ == empty_queues(),
            r@.len() == MAX_CONNS as int,
            forall|c: int| 0 <= c < r@.len() ==> (#[trigger] r@[c]).len() == 0,
    {
        let mut queues: Vec<Vec<u64>> = Vec::with_capacity(MAX_CONNS as usize);
        let mut i: usize = 0;
        while i < MAX_CONNS as usize
            invariant
                i <= MAX_CONNS as usize,
                queues@.len() == i,
                forall|c: int| 0 <= c < i ==> (#[trigger] queues@[c])@.len() == 0,
            decreases MAX_CONNS as usize - i,
        {
            queues.push(Vec::with_capacity(CAPACITY_PER_INSTANCE));
            i = i + 1;
        }
        let r = CompletionRegistry { queues };
        proof {
            assert(r@ =~~= empty_queues());
        }
        r
    }

    /// Appends `handle` to connection `conn_id`'s completion queue and
    /// touches no other queue.
    pub fn notify(&mut self, conn_id: u16, handle: u64)
        requires
            (conn_id as int) < old(self)@.len(),
        ensures
            final(self)@ == old(self)@.update(
                conn_id as int,
                old(self)@[conn_id as int].push(handle),
            ),
    {
        let q: &mut Vec<u64> = &mut self.queues[conn_id as usize];
        q.push(handle);
        assert(self@ =~= old(self)@.update(conn_id as int, old(self)@[conn_id as int].push(handle)));
    }

    /// Removes and returns the most recently recorded handle of connection
    /// `conn_id`, or `None` when its queue is empty; no other queue changes.
    pub fn try_take(&mut self, conn_id: u16) -> (r: Option<u64>)
        requires
            (conn_id as int) < old(self)@.len(),
        ensures
            old(self)@[conn_id as int].len() == 0 ==> r == None::<u64> && final(self)@ == old(
                self,
            )@,
            old(self)@[conn_id as int].len() > 0 ==> r == Some(
                old(self)@[conn_id as int].last(),
            ) && final(self)@ == old(self)@.update(
                conn_id as int,
                old(self)@[conn_id as int].drop_last(),
            ),
    {
        let q: &mut Vec<u64> = &mut self.queues[conn_id as usize];
        let r = q.pop();
        proof {
            if old(self)@[conn_id as int].len() == 0 {
                assert(self@ =~= old(self)@);
            } else {
                assert(self@ =~= old(self)@.update(
                    conn_id as int,
                    old(self)@[conn_id as int].drop_last(),
                ));
            }
        }
        r
    }

    /// Drains connection `conn_id`'s queue completely: the result holds
    /// exactly the queued handles — most recently recorded first — and the
    /// queue is left empty. Together with the conservation of `notify`, a
    /// batch of distinct notifications is taken back exactly once each.
    #[verifier::loop_isolation(false)]
    pub fn take_all(&mut self, conn_id: u16) -> (r: Vec<u64>)
        requires
            (conn_id as int) < old(self)@.len(),
        ensures
            r@ == old(self)@[conn_id as int].reverse(),
            final(self)@ == old(self)@.update(conn_id as int, Seq::<u64>::empty()),
    {
        let ghost q = self@[conn_id as int];
        let mut r: Vec<u64> = Vec::new();
        let mut done = false;
        proof {
            assert(q.subrange(0, q.len() as int) =~= q);
            assert(old(self)@.update(conn_id as int, q.subrange(0, q.len() as int)) =~~= self@);
        }
        while !done
            invariant
                (conn_id as int) < self@.len(),
                self@ == old(self)@.update(conn_id as int, q.subrange(0, q.len() - r@.len())),
                r@.len() <= q.len(),
                forall|k: int| 0 <= k < r@.len() ==> r@[k] == q[q.len() - 1 - k],
                done ==> r@.len() == q.len(),
            decreases q.len() - r@.len() + (if done { 0int } else { 1int }),
        {
            let ghost m = q.len() - r@.len();
            proof {
                assert(self@[conn_id as int] =~= q.subrange(0, m as int));
            }
            match self.try_take(conn_id) {
                Some(h) => {
                    r.push(h);
                    proof {
                        assert(q.subrange(0, m as int).drop_last() =~= q.subrange(0, m - 1));
                        assert(self@ =~~= old(self)@.update(
                            conn_id as int,
                            q.subrange(0, q.len() - r@.len()),
                        ));
                        assert(r@.last() == q.subrange(0, m as int).last());
                    }
                },
                None => {
                    done = true;
                    proof {
                        assert(q.subrange(0, m as int).len() == 0);
                    }
                },
            }
        }
        proof {
            assert(r@ =~= q.reverse());
            assert(q.subrange(0, 0) =~= Seq::<u64>::empty());
            assert(self@ =~~= old(self)@.update(conn_id as int, Seq::<u64>::empty()));
        }
        r
    }

    /// Whether connection `conn_id`'s completion queue holds nothing.
    pub fn is_empty(&self, conn_id: u16) -> (r: bool)
        requires
            (conn_id as int) < self@.len(),
        ensures
            r == (self@[conn_id as int].len() == 0),
    {
        self.queues[conn_id as usize].len() == 0
    }

    /// The number of connection slots.
    pub fn num_slots(&self) -> (r: usize)
        ensures
            r == self@.len(),
    {
        self.queues.len()
    }
}

/// The registry contents after recording a sequence of completion events,
/// each a (connection id, handle) pair, in order.
pub open spec fn notify_all(v: Seq<Seq<u64>>, evs: Seq<(u16, u64)>) -> Seq<Seq<u64>>
    decreases evs.len(),
{
    if evs.len() == 0 {
        v
    } else {
        let w = notify_all(v, evs.drop_last());
        let e = evs.last();
        w.update(e.0 as int, w[e.0 as int].push(e.1))
    }
}

/// The handles among `evs` that belong to connection `c`, in order.
pub open spec fn handles_for(evs: Seq<(u16, u64)>, c: u16) -> Seq<u64> {
    evs.filter(|e: (u16, u64)| e.0 == c).map_values(|e: (u16, u64)| e.1)
}

/// Completion conservation: recording any sequence of in-range completion
/// events adds to each connection's queue exactly the handles notified for
/// it — one occurrence per notification, none lost, none duplicated, and no
/// cross-talk between connections.
pub proof fn lemma_notify_conserves(v: Seq<Seq<u64>>, evs: Seq<(u16, u64)>, c: u16)
    requires
        forall|k: int| 0 <= k < evs.len() ==> ((#[trigger] evs[k]).0 as int) < v.len(),
        (c as int) < v.len(),
    ensures
        notify_all(v, evs).len() == v.len(),
        notify_all(v, evs)[c as int].to_multiset() == v[c as int].to_multiset().add(
            handles_for(evs, c).to_multiset(),
        ),
    decreases evs.len(),
{
    broadcast use vstd::seq_lib::group_to_multiset_ensures;

    reveal(Seq::filter);
    let pred = |e: (u16, u64)| e.0 == c;
    let f = |e: (u16, u64)| e.1;
    if evs.len() == 0 {
        assert(evs.filter(pred) =~= evs);
        assert(handles_for(evs, c) =~= Seq::<u64>::empty());
        assert(handles_for(evs, c).to_multiset() =~= Multiset::<u64>::empty());
        assert(v[c as int].to_multiset().add(Multiset::<u64>::empty()) =~= v[
            c as int
        ].to_multiset());
    } else {
        let head = evs.drop_last();
        let e = evs.last();
        lemma_notify_conserves(v, head, c);
        let w = notify_all(v, head);
        if e.0 == c {
            assert(evs.filter(pred) == head.filter(pred).push(e));
            assert(handles_for(evs, c) =~= handles_for(head, c).push(e.1)) by {
                assert(evs.filter(pred).map_values(f) =~= head.filter(pred).map_values(f).push(
                    f(e),
                ));
            }
            assert(notify_all(v, evs)[c as int] == w[c as int].push(e.1));
            assert(w[c as int].push(e.1).to_multiset() =~= w[c as int].to_multiset().insert(e.1));
            assert(handles_for(head, c).push(e.1).to_multiset() =~= handles_for(
                head,
                c,
            ).to_multiset().insert(e.1));
            assert(v[c as int].to_multiset().add(
                handles_for(head, c).to_multiset().insert(e.1),
            ) =~= v[c as int].to_multiset().add(handles_for(head, c).to_multiset()).insert(e.1));
        } else {
            assert(evs.filter(pred) == head.filter(pred));
            assert(handles_for(evs, c) =~= handles_for(head, c));
            assert(notify_all(v, evs)[c as int] == w[c as int]);
        }
    }
}

/// Completion correctness end to end: recording any batch of in-range
/// completion events in a fresh registry leaves connection `c` holding — and
/// a full drain returning — exactly the handles notified for `c`, each
/// exactly once.
pub proof fn lemma_fresh_registry_completions_exact(evs: Seq<(u16, u64)>, c: u16)
    requires
        forall|k: int| 0 <= k < evs.len() ==> (#[trigger] evs[k]).0 < MAX_CONNS,
        c < MAX_CONNS,
    ensures
        notify_all(empty_queues(), evs)[c as int].to_multiset() == handles_for(
            evs,
            c,
        ).to_multiset(),
        notify_all(empty_queues(), evs)[c as int].reverse().to_multiset() == handles_for(
            evs,
            c,
        ).to_multiset(),
{
    broadcast use vstd::seq_lib::group_to_multiset_ensures;

    lemma_notify_conserves(empty_queues(), evs, c);
    assert(empty_queues()[c as int].to_multiset() =~= Multiset::<u64>::empty());
    assert(Multiset::<u64>::empty().add(handles_for(evs, c).to_multiset()) =~= handles_for(
        evs,
        c,
    ).to_multiset());
    notify_all(empty_queues(), evs)[c as int].lemma_reverse_to_multiset();
}

} // verus!
