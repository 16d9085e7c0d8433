//! The log event: one framed message with its capture timestamp.
use vstd::prelude::*;
use vstd::utf8::valid_utf8;

use crate::{EVENT_OVERHEAD, MAX_MESSAGE_LEN};

verus! {

/// One log message, immutable once framed. The message is kept as its
/// UTF-8 encoding so that every size limit can be stated in bytes.
#[derive(Debug, Clone, PartialEq, Eq)]
pub struct LogEvent {
    /// UTF-8 encoded message body.
    pub message: Vec<u8>,
    /// Capture time in milliseconds since the Unix epoch; negative before it.
    pub timestamp: i64,
}

impl LogEvent {
    /// A framed event holds valid UTF-8 no longer than the largest body
    /// that fits one batch.
    pub open spec fn wf(self) -> bool {
        &&& valid_utf8(self.message@)
        &&& self.message@.len() <= MAX_MESSAGE_LEN
    }

    /// The bytes this event charges against a batch's size ceiling.
    pub open spec fn spec_size(self) -> int {
        self.message@.len() + EVENT_OVERHEAD
    }

    /// Byte size charged against the batch ceiling: body length plus the
    /// fixed per-event overhead.
    pub fn size(&self) -> (r: usize)
        requires
            self.message@.len() + EVENT_OVERHEAD <= usize::MAX,
        ensures
            r == self.spec_size(),
    {
        self.message.len() + EVENT_OVERHEAD
    }
}

} // verus!
