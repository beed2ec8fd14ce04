use vstd::prelude::*;

verus! {

/// Groups of threads that are all prepared before any of them starts, and are
/// then released one at a time, the earliest prepared first.
pub struct GroupQueue<G> {
    pending: Vec<G>,
}

impl<G> View for GroupQueue<G> {
    type V = Seq<G>;

    /// The prepared groups not yet released, earliest prepared first.
    closed spec fn view(&self) -> Seq<G> {
        self.pending@
    }
}

impl<G> GroupQueue<G> {
    /// A queue with no prepared group.
    pub fn new() -> (q: GroupQueue<G>)
        ensures
            q@ == Seq::<G>::empty(),
    {
        GroupQueue { pending: Vec::new() }
    }

    /// The number of prepared groups not yet released.
    pub fn len(&self) -> (n: usize)
        ensures
            n == self@.len(),
    {
        self.pending.len()
    }

    /// Adds a prepared group behind every group prepared before it.
    pub fn prepare(&mut self, group: G)
        ensures
            final(self)@ == old(self)@.push(group),
    {
        self.pending.push(group);
    }

    /// Takes the earliest prepared group that is not yet released, or `None`
    /// when every prepared group has been released.
    pub fn release_next(&mut self) -> (next: Option<G>)
        ensures
            old(self)@.len() == 0 ==> next is None && final(self)@ == old(self)@,
            old(self)@.len() > 0 ==> next == Some(old(self)@[0])
                && final(self)@ == old(self)@.drop_first(),
    {
        if self.pending.len() == 0 {
            None
        } else {
            let first = self.pending.remove(0);
            assert(old(self)@.remove(0) =~= old(self)@.drop_first());
            Some(first)
        }
    }
}

/// Groups leave the queue in the order they were prepared: once groups `gs`
/// are prepared into an empty queue, `k` releases leave it holding `gs.skip(k)`
/// (by `release_next`'s contract), so the next release hands out `gs[k]` and
/// leaves `gs.skip(k + 1)`.
pub proof fn lemma_release_order<G>(gs: Seq<G>, k: int)
    requires
        0 <= k < gs.len(),
    ensures
        gs.skip(k).len() > 0,
        gs.skip(k)[0] == gs[k],
        gs.skip(k).drop_first() == gs.skip(k + 1),
{
    assert(gs.skip(k).drop_first() =~= gs.skip(k + 1));
}

/// The time a released group took, in milliseconds, from the clock readings
/// taken before its release and after its last thread finished.
pub fn elapsed_millis(start: u128, end: u128) -> (took: u128)
    requires
        start <= end,
    ensures
        took == end - start,
{
    end - start
}

} // verus!
