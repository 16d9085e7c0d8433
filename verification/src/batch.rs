//! Batch building: a worker drains its queue front-to-back into batches
//! bounded by a hard event count and a hard serialized byte size.
use vstd::prelude::*;

use crate::event::LogEvent;
use crate::{MAX_BATCH_EVENTS, MAX_BATCH_SIZE};

verus! {

/// Total bytes a sequence of events charges against the size ceiling.
pub open spec fn batch_size(events: Seq<LogEvent>) -> int
    decreases events.len(),
{
    if events.len() == 0 {
        0
    } else {
        batch_size(events.drop_last()) + events.last().spec_size()
    }
}

/// Every event in the sequence is well formed.
pub open spec fn all_wf(events: Seq<LogEvent>) -> bool {
    forall|i: int| 0 <= i < events.len() ==> events[i].wf()
}

/// An ordered group of events that fits one append call: at most
/// `MAX_BATCH_EVENTS` events whose combined charged size is at most
/// `MAX_BATCH_SIZE` bytes.
#[derive(Debug)]
pub struct Batch {
    events: Vec<LogEvent>,
    size: usize,
}

impl View for Batch {
    type V = Seq<LogEvent>;

    closed spec fn view(&self) -> Seq<LogEvent> {
        self.events@
    }
}

impl Batch {
    /// Both ceilings hold, the cached size is the real one, and every
    /// event in the batch is well formed.
    pub closed spec fn wf(self) -> bool {
        &&& self.events@.len() <= MAX_BATCH_EVENTS
        &&& batch_size(self.events@) <= MAX_BATCH_SIZE
        &&& self.size == batch_size(self.events@)
        &&& all_wf(self.events@)
    }

    /// An empty batch.
    pub fn new() -> (b: Batch)
        ensures
            b.wf(),
            b@ == Seq::<LogEvent>::empty(),
    {
        Batch { events: Vec::new(), size: 0 }
    }

    /// Whether one more event would fit under both ceilings.
    pub open spec fn spec_fits(self, e: LogEvent) -> bool {
        &&& self@.len() < MAX_BATCH_EVENTS
        &&& batch_size(self@) + e.spec_size() <= MAX_BATCH_SIZE
    }

    pub fn len(&self) -> (r: usize)
        ensures
            r == self@.len(),
    {
        self.events.len()
    }

    /// The batch's charged byte size.
    pub fn byte_size(&self) -> (r: usize)
        requires
            self.wf(),
        ensures
            r == batch_size(self@),
    {
        self.size
    }

    pub fn events(&self) -> (r: &Vec<LogEvent>)
        ensures
            r@ == self@,
    {
        &self.events
    }

    /// Give up the batch's events, in order.
    pub fn into_events(self) -> (r: Vec<LogEvent>)
        ensures
            r@ == self@,
    {
        self.events
    }

    /// Append `e` if both ceilings allow it; hand it back untouched
    /// otherwise.
    pub fn try_push(&mut self, e: LogEvent) -> (r: Result<(), LogEvent>)
        requires
            old(self).wf(),
            e.wf(),
        ensures
            final(self).wf(),
            old(self).spec_fits(e) ==> {
                &&& r is Ok
                &&& final(self)@ == old(self)@.push(e)
            },
            !old(self).spec_fits(e) ==> {
                &&& r == Result::<(), LogEvent>::Err(e)
                &&& final(self)@ == old(self)@
            },
    {
        let esize = e.size();
        if self.events.len() < MAX_BATCH_EVENTS && self.size + esize <= MAX_BATCH_SIZE {
            self.events.push(e);
            self.size = self.size + esize;
            proof {
                assert(self.events@.drop_last() == old(self).events@);
            }
            Ok(())
        } else {
            Err(e)
        }
    }
}

/// Drain the front of `queue` into one batch: the longest prefix that
/// respects both ceilings. The batch plus what remains is exactly the
/// old queue, in order — a worker never reorders events.
pub fn fill_batch(queue: &mut Vec<LogEvent>) -> (b: Batch)
    requires
        all_wf(old(queue)@),
    ensures
        b.wf(),
        old(queue)@ == b@ + final(queue)@,
        all_wf(final(queue)@),
        final(queue)@.len() > 0 ==> !b.spec_fits(final(queue)@[0]),
        old(queue)@.len() > 0 ==> b@.len() > 0,
{
    let mut b = Batch::new();
    loop
        invariant
            b.wf(),
            all_wf(queue@),
            old(queue)@ == b@ + queue@,
        ensures
            queue@.len() > 0 ==> !b.spec_fits(queue@[0]),
            old(queue)@.len() > 0 ==> b@.len() > 0,
        decreases queue@.len(),
    {
        if queue.len() == 0 {
            proof {
                assert(old(queue)@ =~= b@);
            }
            break;
        }
        let ghost q_pre = queue@;
        let ghost b_pre = b@;
        let e = queue.remove(0);
        match b.try_push(e) {
            Ok(()) => {
                proof {
                    assert(seq![e] + queue@ =~= q_pre);
                    assert(b@ + queue@ =~= b_pre + q_pre);
                }
            },
            Err(e) => {
                proof {
                    // An empty batch always has room for one well-formed
                    // event, so a refused push means the batch is nonempty.
                    assert(b@.len() > 0);
                }
                queue.insert(0, e);
                proof {
                    assert(queue@ =~= q_pre);
                }
                break;
            },
        }
    }
    b
}

/// The count and size ceilings hold of every batch the library builds.
pub proof fn lemma_batch_within_limits(b: Batch)
    requires
        b.wf(),
    ensures
        b@.len() <= MAX_BATCH_EVENTS,
        batch_size(b@) <= MAX_BATCH_SIZE,
        all_wf(b@),
{
}

/// The batches of one drain history, concatenated in delivery order.
pub open spec fn concat_batches(batches: Seq<Seq<LogEvent>>) -> Seq<LogEvent>
    decreases batches.len(),
{
    if batches.len() == 0 {
        Seq::empty()
    } else {
        batches.first() + concat_batches(batches.drop_first())
    }
}

/// Per-destination order is kept across any number of drains: when each
/// batch is split off the front of the queue — as `fill_batch` ensures —
/// the batches, concatenated in delivery order, followed by whatever is
/// still queued, are exactly the stream as it was first queued.
pub proof fn lemma_delivery_preserves_order(batches: Seq<Seq<LogEvent>>, queues: Seq<
    Seq<LogEvent>,
>)
    requires
        queues.len() == batches.len() + 1,
        forall|i: int| 0 <= i < batches.len() ==> queues[i] == batches[i] + queues[i + 1],
    ensures
        queues.first() == concat_batches(batches) + queues.last(),
    decreases batches.len(),
{
    if batches.len() == 0 {
        assert(queues.first() =~= concat_batches(batches) + queues.last());
    } else {
        let bs = batches.drop_first();
        let qs = queues.drop_first();
        assert forall|i: int| 0 <= i < bs.len() implies qs[i] == bs[i] + qs[i + 1] by {
            assert(queues[i + 1] == batches[i + 1] + queues[i + 2]);
        }
        lemma_delivery_preserves_order(bs, qs);
        assert(queues[0] == batches[0] + queues[1]);
        assert(queues.first() =~= concat_batches(batches) + queues.last());
    }
}

} // verus!
