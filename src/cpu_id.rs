//! Allocation of vCPU identifiers.

use vstd::prelude::*;

verus! {

/// Hands out vCPU identifiers `0, 1, 2, ...`; identifier `i` is also the
/// index of vCPU `i`'s shared channel page.
pub struct Allocator {
    next_cpu: usize,
    /// Identifiers given back by torn-down vCPUs. Nothing reissues them yet:
    /// the list is kept for later reuse and never read.
    reclaimed: Vec<usize>,
}

impl Allocator {
    /// The identifier that the next call of `next` returns.
    pub closed spec fn next_id(&self) -> nat {
        self.next_cpu as nat
    }

    /// The identifiers given back for later reuse.
    pub closed spec fn reclaimed(&self) -> Seq<usize> {
        self.reclaimed@
    }

    /// The identifiers handed out so far.
    pub open spec fn issued(&self) -> Set<nat> {
        Set::new(|i: nat| i < self.next_id())
    }

    /// An allocator that has handed out nothing and been given nothing
    /// back.
    pub open spec fn is_fresh(&self) -> bool {
        &&& self.next_id() == 0
        &&& self.reclaimed() == Seq::<usize>::empty()
    }

    /// One call of `next` on `pre` returned `id` and left `post`.
    pub open spec fn next_step(pre: Allocator, post: Allocator, id: usize) -> bool {
        &&& id as nat == pre.next_id()
        &&& post.next_id() == pre.next_id() + 1
        &&& post.reclaimed() == pre.reclaimed()
    }

    pub fn new() -> (r: Self)
        ensures
            r.is_fresh(),
    {
        let r = Allocator { next_cpu: 0, reclaimed: Vec::new() };
        proof {
            assert(r.reclaimed() =~= Seq::<usize>::empty());
        }
        r
    }

    /// Returns the lowest identifier not handed out yet and advances past it.
    /// Reclaimed identifiers are not reissued, and the reclaimed list is left
    /// as it was.
    pub fn next(&mut self) -> (r: usize)
        requires
            old(self).next_id() < usize::MAX,
        ensures
            Self::next_step(*old(self), *final(self), r),
            !old(self).issued().contains(r as nat),
            final(self).issued() == old(self).issued().insert(r as nat),
    {
        let allocated = self.next_cpu;
        self.next_cpu = self.next_cpu + 1;
        proof {
            assert(final(self).issued() =~= old(self).issued().insert(allocated as nat));
        }
        allocated
    }
}

/// The k-th identifier that a fresh allocator hands out is k, so no
/// identifier is handed out twice.
pub proof fn lemma_ids_sequential(states: Seq<Allocator>, ids: Seq<usize>)
    requires
        states.len() == ids.len() + 1,
        states[0].is_fresh(),
        forall|k: int|
            0 <= k < ids.len() ==> #[trigger] Allocator::next_step(states[k], states[k + 1], ids[k]),
    ensures
        forall|k: int| 0 <= k < ids.len() ==> ids[k] == k,
        forall|j: int, k: int| 0 <= j < k < ids.len() ==> ids[j] != ids[k],
{
    assert forall|k: int| 0 <= k < states.len() implies states[k].next_id() == k by {
        lemma_state_count(states, ids, k);
    }
    assert forall|k: int| 0 <= k < ids.len() implies ids[k] == k by {
        assert(Allocator::next_step(states[k], states[k + 1], ids[k]));
    }
}

proof fn lemma_state_count(states: Seq<Allocator>, ids: Seq<usize>, k: int)
    requires
        states.len() == ids.len() + 1,
        states[0].is_fresh(),
        forall|k: int|
            0 <= k < ids.len() ==> #[trigger] Allocator::next_step(states[k], states[k + 1], ids[k]),
        0 <= k < states.len(),
    ensures
        states[k].next_id() == k,
    decreases k,
{
    if k > 0 {
        let j = k - 1;
        lemma_state_count(states, ids, j);
        assert(Allocator::next_step(states[j], states[j + 1], ids[j]));
    }
}

} // verus!
