//! A non-blocking log shipper: byte writes are framed into timestamped
//! events, routed to per-destination queues, batched under hard count and
//! size limits, and appended to a remote log-storage service in order.
use vstd::prelude::*;

pub mod batch;
pub mod error;
pub mod event;
pub mod pipeline;
pub mod router;
pub mod sink;
pub mod worker;

verus! {

/// Hard ceiling on the number of events in one append call.
pub const MAX_BATCH_EVENTS: usize = 10_000;

/// Hard ceiling on the serialized byte size of one append call.
pub const MAX_BATCH_SIZE: usize = 1_048_576;

/// Fixed per-event overhead charged against `MAX_BATCH_SIZE`.
pub const EVENT_OVERHEAD: usize = 26;

/// Largest message body that fits a batch: `MAX_BATCH_SIZE - EVENT_OVERHEAD`.
pub const MAX_MESSAGE_LEN: usize = 1_048_550;

} // verus!
