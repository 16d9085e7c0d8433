//! The per-destination worker protocol: sequencing, creation on demand,
//! and the two narrowly-bounded retries. The worker is a state machine
//! from (state, transport outcome) to (state, next action); the driver
//! that owns the queue and the transport performs the actions.
use vstd::prelude::*;

verus! {

/// The transport's verdict on one append call, already classified.
#[derive(Debug, Clone, PartialEq, Eq)]
pub enum AppendResult {
    /// The append succeeded, with the next cursor when the transport
    /// supplied one.
    Success(Option<String>),
    /// The destination stream does not exist yet.
    NotFound,
    /// The cursor was stale, with the corrected cursor when the
    /// transport surfaced one.
    InvalidSequence(Option<String>),
    /// Any other transport failure; not expected to be transient within
    /// the lifetime of one batch.
    Other,
}

/// The transport's verdict on one create-stream call.
#[derive(Debug, Clone, PartialEq, Eq)]
pub enum CreateResult {
    Created,
    /// Benign race with another initializer.
    AlreadyExists,
    Failed,
}

/// What the worker's driver must do next with the batch in flight.
#[derive(Debug, Clone, PartialEq, Eq)]
pub enum Action {
    /// (Re)issue the append of the current batch with this cursor.
    Append(Option<String>),
    /// Ask the transport to create the destination stream.
    CreateStream,
    /// Report a diagnostic and drop the current batch; the worker goes
    /// on with the next one.
    DropBatch,
    /// The batch was delivered; take the next one.
    BatchDone,
}

/// Where the worker stands with the batch in flight.
#[derive(Debug, Clone, PartialEq, Eq)]
pub enum Phase {
    /// No batch in flight.
    Idle,
    /// An append was issued; the flags record which of the two bounded
    /// retries were already spent on this batch.
    Awaiting { create_used: bool, seq_retry_used: bool },
    /// A create-stream call was issued after a not-found append.
    AwaitingCreate { seq_retry_used: bool },
    /// The channel was closed and drained; terminal.
    Done,
}

/// One destination's worker state: the private append cursor and the
/// phase of the batch in flight. The cursor is `None` while the
/// destination is uninitialized (no cursor confirmed yet) and after a
/// stale cursor was cleared to force a fresh acquisition; it is known
/// once an append succeeded. Draining — the channel closed with events
/// still queued — is the driver's knowledge: it keeps feeding batches
/// and calls `finish` once the queue is empty and nothing is in flight.
#[derive(Debug, Clone, PartialEq, Eq)]
pub struct Worker {
    pub cursor: Option<String>,
    pub phase: Phase,
}

/// The transition taken when the append of the current batch comes back.
pub open spec fn spec_on_append(w: Worker, r: AppendResult) -> (Worker, Action) {
    match r {
        AppendResult::Success(tok) => {
            let cursor = if tok is Some {
                tok
            } else {
                w.cursor
            };
            (Worker { cursor, phase: Phase::Idle }, Action::BatchDone)
        },
        AppendResult::NotFound => {
            match w.phase {
                Phase::Awaiting { create_used: false, seq_retry_used } => (
                    Worker { cursor: w.cursor, phase: Phase::AwaitingCreate { seq_retry_used } },
                    Action::CreateStream,
                ),
                _ => (Worker { cursor: w.cursor, phase: Phase::Idle }, Action::DropBatch),
            }
        },
        AppendResult::InvalidSequence(tok) => {
            match w.phase {
                Phase::Awaiting { create_used, seq_retry_used: false } => (
                    Worker {
                        cursor: tok,
                        phase: Phase::Awaiting { create_used, seq_retry_used: true },
                    },
                    Action::Append(tok),
                ),
                _ => (Worker { cursor: tok, phase: Phase::Idle }, Action::DropBatch),
            }
        },
        AppendResult::Other => (
            Worker { cursor: w.cursor, phase: Phase::Idle },
            Action::DropBatch,
        ),
    }
}

/// The transition taken when the create-stream call comes back.
pub open spec fn spec_on_create(w: Worker, r: CreateResult) -> (Worker, Action) {
    match r {
        CreateResult::Created | CreateResult::AlreadyExists => {
            let seq_retry_used = match w.phase {
                Phase::AwaitingCreate { seq_retry_used } => seq_retry_used,
                _ => false,
            };
            (
                Worker {
                    cursor: None,
                    phase: Phase::Awaiting { create_used: true, seq_retry_used },
                },
                Action::Append(None),
            )
        },
        CreateResult::Failed => (
            Worker { cursor: w.cursor, phase: Phase::Idle },
            Action::DropBatch,
        ),
    }
}

impl Worker {
    /// A fresh worker: uninitialized cursor, nothing in flight.
    pub fn new() -> (w: Worker)
        ensures
            w.cursor is None,
            w.phase == Phase::Idle,
    {
        Worker { cursor: None, phase: Phase::Idle }
    }

    /// A copy of the current cursor.
    fn cursor_copy(&self) -> (r: Option<String>)
        ensures
            r == self.cursor,
    {
        match &self.cursor {
            Some(t) => Some(t.clone()),
            None => None,
        }
    }

    /// Take the next batch in flight: the first attempt appends with the
    /// destination's current cursor.
    pub fn start_batch(&mut self) -> (a: Action)
        requires
            old(self).phase == Phase::Idle,
        ensures
            final(self).cursor == old(self).cursor,
            final(self).phase == (Phase::Awaiting { create_used: false, seq_retry_used: false }),
            a == Action::Append(old(self).cursor),
    {
        self.phase = Phase::Awaiting { create_used: false, seq_retry_used: false };
        Action::Append(self.cursor_copy())
    }

    /// Digest the outcome of the append in flight.
    ///
    /// Success adopts the returned cursor and finishes the batch. A
    /// not-found stream is created on demand, once per batch. A stale
    /// cursor is retried once per batch, with the corrected cursor when
    /// the transport surfaced one and a cleared cursor otherwise. Every
    /// other failure, and every repeat of the two transient conditions,
    /// drops the batch and leaves the worker ready for the next one.
    pub fn on_append_result(&mut self, r: AppendResult) -> (a: Action)
        requires
            old(self).phase matches Phase::Awaiting { .. },
        ensures
            (*final(self), a) == spec_on_append(*old(self), r),
    {
        match r {
            AppendResult::Success(tok) => {
                if tok.is_some() {
                    self.cursor = tok;
                }
                self.phase = Phase::Idle;
                Action::BatchDone
            },
            AppendResult::NotFound => {
                match self.phase {
                    Phase::Awaiting { create_used: false, seq_retry_used } => {
                        self.phase = Phase::AwaitingCreate { seq_retry_used };
                        Action::CreateStream
                    },
                    _ => {
                        self.phase = Phase::Idle;
                        Action::DropBatch
                    },
                }
            },
            AppendResult::InvalidSequence(tok) => {
                self.cursor = tok;
                match self.phase {
                    Phase::Awaiting { create_used, seq_retry_used: false } => {
                        self.phase = Phase::Awaiting { create_used, seq_retry_used: true };
                        Action::Append(self.cursor_copy())
                    },
                    _ => {
                        self.phase = Phase::Idle;
                        Action::DropBatch
                    },
                }
            },
            AppendResult::Other => {
                self.phase = Phase::Idle;
                Action::DropBatch
            },
        }
    }

    /// Digest the outcome of the create-stream call: an existing stream
    /// is a benign race, so both success and already-exists re-issue the
    /// append with no cursor; any other failure drops the batch.
    pub fn on_create_result(&mut self, r: CreateResult) -> (a: Action)
        requires
            old(self).phase matches Phase::AwaitingCreate { .. },
        ensures
            (*final(self), a) == spec_on_create(*old(self), r),
    {
        match r {
            CreateResult::Created | CreateResult::AlreadyExists => {
                let seq_retry_used = match self.phase {
                    Phase::AwaitingCreate { seq_retry_used } => seq_retry_used,
                    _ => false,
                };
                self.cursor = None;
                self.phase = Phase::Awaiting { create_used: true, seq_retry_used };
                Action::Append(None)
            },
            CreateResult::Failed => {
                self.phase = Phase::Idle;
                Action::DropBatch
            },
        }
    }

    /// The channel is closed and drained: the worker is done and its
    /// router entry becomes eligible for replacement.
    pub fn finish(&mut self)
        requires
            old(self).phase == Phase::Idle,
        ensures
            final(self).cursor == old(self).cursor,
            final(self).phase == Phase::Done,
    {
        self.phase = Phase::Done;
    }
}

/// Creation on demand: the first not-found append of a batch always
/// leads to a create-stream call, and a created or already-existing
/// stream always leads to a retry of the same append with no cursor.
pub proof fn lemma_not_found_creates_then_retries(w: Worker, s: bool, c: CreateResult)
    requires
        w.phase == (Phase::Awaiting { create_used: false, seq_retry_used: s }),
        c is Created || c is AlreadyExists,
    ensures
        spec_on_append(w, AppendResult::NotFound).1 == Action::CreateStream,
        spec_on_create(spec_on_append(w, AppendResult::NotFound).0, c).1 == Action::Append(
            None::<String>,
        ),
        spec_on_create(spec_on_append(w, AppendResult::NotFound).0, c).0.phase == (
        Phase::Awaiting { create_used: true, seq_retry_used: s }),
{
}

/// The two per-batch retries are bounded: a create-stream call is only
/// ever issued while the batch's create retry is unspent, a re-issued
/// append only while its sequence retry is unspent — and it spends the
/// flag — and once both are spent every failure drops the batch.
pub proof fn lemma_retries_are_bounded(w: Worker, r: AppendResult)
    requires
        w.phase matches Phase::Awaiting { .. },
    ensures
        spec_on_append(w, r).1 is CreateStream ==> w.phase matches Phase::Awaiting {
            create_used: false,
            ..
        },
        spec_on_append(w, r).1 matches Action::Append(_) ==> {
            &&& w.phase matches Phase::Awaiting { seq_retry_used: false, .. }
            &&& spec_on_append(w, r).0.phase matches Phase::Awaiting { seq_retry_used: true, .. }
        },
        w.phase == (Phase::Awaiting { create_used: true, seq_retry_used: true }) && !(r
            is Success) ==> spec_on_append(w, r).1 == Action::DropBatch,
{
}

/// A stale cursor is retried exactly once: the first invalid-sequence
/// outcome of a batch re-issues the append with the corrected cursor
/// (or none, forcing a fresh acquisition), and a second consecutive one
/// drops the batch instead of retrying again.
pub proof fn lemma_invalid_sequence_retries_once(
    w: Worker,
    c: bool,
    t1: Option<String>,
    t2: Option<String>,
)
    requires
        w.phase == (Phase::Awaiting { create_used: c, seq_retry_used: false }),
    ensures
        spec_on_append(w, AppendResult::InvalidSequence(t1)).1 == Action::Append(t1),
        spec_on_append(
            spec_on_append(w, AppendResult::InvalidSequence(t1)).0,
            AppendResult::InvalidSequence(t2),
        ).1 == Action::DropBatch,
{
}

} // verus!
