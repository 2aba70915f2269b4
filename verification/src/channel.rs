//! The scope publish channel, as a verified single-threaded model of
//! the triple-buffering discipline.
//!
//! Three equally ranked slots rotate through three roles: one the
//! producer writes, one holding the last published snapshot, one the
//! consumer reads.  Publishing swaps the writer's slot into the
//! published role, newest wins and nothing queues; polling hands the
//! published snapshot to the reader's role exactly once.  The
//! cross-thread carrier the audio path uses has the same contract (see
//! [`crate::source`]); this model is where the discipline itself is
//! stated and proved.

use vstd::prelude::*;

verus! {

/// Copy a sample buffer element for element.
pub fn clone_samples(v: &Vec<i64>) -> (r: Vec<i64>)
    ensures
        r@ == v@,
{
    let mut r: Vec<i64> = Vec::new();
    let mut i: usize = 0;
    while i < v.len()
        invariant
            i <= v@.len(),
            r@ == v@.take(i as int),
        decreases v@.len() - i,
    {
        r.push(v[i]);
        i = i + 1;
        proof {
            assert(r@ =~= v@.take(i as int));
        }
    }
    proof {
        assert(r@ =~= v@);
    }
    r
}

/// A three-slot, newest-wins snapshot handoff.
pub struct ScopeChannel {
    /// The three sample buffers.
    slots: Vec<Vec<i64>>,
    /// Index of the slot the producer writes next.
    write_idx: usize,
    /// Index of the slot holding the last published snapshot.
    ready_idx: usize,
    /// Index of the slot the consumer last took.
    read_idx: usize,
    /// Whether a published snapshot is still unread.
    fresh: bool,
}

impl ScopeChannel {
    /// The three indices name three distinct slots.
    pub closed spec fn wf(self) -> bool {
        &&& self.slots@.len() == 3
        &&& self.write_idx < 3
        &&& self.ready_idx < 3
        &&& self.read_idx < 3
        &&& self.write_idx != self.ready_idx
        &&& self.write_idx != self.read_idx
        &&& self.ready_idx != self.read_idx
    }

    /// Whether a snapshot has been published and not yet polled.
    pub closed spec fn has_fresh(self) -> bool {
        self.fresh
    }

    /// The most recently published snapshot still reachable by the
    /// consumer: the published slot while unread, the consumer's slot
    /// after.
    pub closed spec fn latest(self) -> Seq<i64> {
        if self.fresh {
            self.slots@[self.ready_idx as int]@
        } else {
            self.slots@[self.read_idx as int]@
        }
    }

    /// An empty channel with nothing published.
    pub fn new() -> (c: ScopeChannel)
        ensures
            c.wf(),
            !c.has_fresh(),
            c.latest() == Seq::<i64>::empty(),
    {
        let mut slots: Vec<Vec<i64>> = Vec::new();
        slots.push(Vec::new());
        slots.push(Vec::new());
        slots.push(Vec::new());
        ScopeChannel { slots, write_idx: 0, ready_idx: 1, read_idx: 2, fresh: false }
    }

    /// Publish a snapshot: it becomes the latest, unconditionally and
    /// whether or not the previous one was ever polled.
    pub fn publish(&mut self, buf: Vec<i64>)
        requires
            old(self).wf(),
        ensures
            final(self).wf(),
            final(self).has_fresh(),
            final(self).latest() == buf@,
    {
        let w: usize = self.write_idx;
        self.slots.set(w, buf);
        self.write_idx = self.ready_idx;
        self.ready_idx = w;
        self.fresh = true;
    }

    /// Poll for a snapshot: the latest published one arrives exactly
    /// once, and polling again before the next publish yields nothing.
    pub fn poll(&mut self) -> (r: Option<Vec<i64>>)
        requires
            old(self).wf(),
        ensures
            final(self).wf(),
            !final(self).has_fresh(),
            final(self).latest() == old(self).latest(),
            old(self).has_fresh() ==> (r matches Some(s) && s@ == old(self).latest()),
            !old(self).has_fresh() ==> r is None && *final(self) == *old(self),
    {
        if self.fresh {
            let rd: usize = self.read_idx;
            self.read_idx = self.ready_idx;
            self.ready_idx = rd;
            self.fresh = false;
            let snap: Vec<i64> = clone_samples(&self.slots[self.read_idx]);
            Some(snap)
        } else {
            None
        }
    }
}

} // verus!
