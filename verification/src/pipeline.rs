//! One destination's delivery pipeline, as the worker sees it: the
//! events still pending in arrival order, and — as ghost history — the
//! events already handed to the transport. Its invariant is the
//! ordering guarantee: delivered followed by pending is always exactly
//! what was queued, so batches carry events in queue order.
use vstd::prelude::*;

use crate::batch::{all_wf, fill_batch, Batch};
use crate::event::LogEvent;

verus! {

/// The worker-side state of one destination's queue.
pub struct Pipeline {
    pending: Vec<LogEvent>,
    delivered: Ghost<Seq<LogEvent>>,
    queued: Ghost<Seq<LogEvent>>,
}

impl Pipeline {
    /// Everything ever queued for this destination, in arrival order.
    pub closed spec fn queued_view(self) -> Seq<LogEvent> {
        self.queued@
    }

    /// What was already drawn into batches, in delivery order.
    pub closed spec fn delivered_view(self) -> Seq<LogEvent> {
        self.delivered@
    }

    /// What still waits in the queue, in arrival order.
    pub closed spec fn pending_view(self) -> Seq<LogEvent> {
        self.pending@
    }

    /// The ordering invariant: nothing is lost, duplicated or
    /// reordered between arrival and delivery.
    pub open spec fn wf(self) -> bool {
        &&& self.queued_view() == self.delivered_view() + self.pending_view()
        &&& all_wf(self.pending_view())
    }

    /// An empty pipeline.
    pub fn new() -> (p: Pipeline)
        ensures
            p.wf(),
            p.queued_view() == Seq::<LogEvent>::empty(),
            p.delivered_view() == Seq::<LogEvent>::empty(),
            p.pending_view() == Seq::<LogEvent>::empty(),
    {
        let p = Pipeline {
            pending: Vec::new(),
            delivered: Ghost(Seq::empty()),
            queued: Ghost(Seq::empty()),
        };
        proof {
            assert(p.queued_view() =~= p.delivered_view() + p.pending_view());
        }
        p
    }

    /// How many events wait in the queue.
    pub fn pending_len(&self) -> (n: usize)
        ensures
            n == self.pending_view().len(),
    {
        self.pending.len()
    }

    /// Take one arriving event at the back of the queue.
    pub fn enqueue(&mut self, e: LogEvent)
        requires
            old(self).wf(),
            e.wf(),
        ensures
            final(self).wf(),
            final(self).queued_view() == old(self).queued_view().push(e),
            final(self).delivered_view() == old(self).delivered_view(),
            final(self).pending_view() == old(self).pending_view().push(e),
    {
        self.pending.push(e);
        proof {
            self.queued@ = self.queued@.push(e);
            assert(self.queued_view() =~= self.delivered_view() + self.pending_view());
        }
    }

    /// Draw the next batch from the front of the queue: the longest
    /// prefix of the pending events that respects both batch ceilings.
    /// The batch counts as delivered the moment it is drawn — it is
    /// handed to the transport exactly once in this order, whether the
    /// append ultimately succeeds or the batch is dropped.
    pub fn next_batch(&mut self) -> (b: Batch)
        requires
            old(self).wf(),
        ensures
            final(self).wf(),
            b.wf(),
            final(self).queued_view() == old(self).queued_view(),
            final(self).delivered_view() == old(self).delivered_view() + b@,
            old(self).pending_view() == b@ + final(self).pending_view(),
            old(self).pending_view().len() > 0 ==> b@.len() > 0,
            final(self).pending_view().len() > 0 ==> !b.spec_fits(final(self).pending_view()[0]),
    {
        let b = fill_batch(&mut self.pending);
        proof {
            self.delivered@ = self.delivered@ + b@;
            assert(self.queued_view() =~= self.delivered_view() + self.pending_view());
        }
        b
    }
}

/// The per-destination ordering guarantee: at every point, what has
/// been delivered to the transport is exactly the first events ever
/// queued, in their arrival order — independent of any other
/// destination's traffic.
pub proof fn lemma_delivered_is_ordered_prefix(p: Pipeline)
    requires
        p.wf(),
    ensures
        p.delivered_view() == p.queued_view().take(p.delivered_view().len() as int),
{
    assert(p.delivered_view() =~= p.queued_view().take(p.delivered_view().len() as int));
}

} // verus!
