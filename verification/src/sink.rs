//! The sink front-end: turns one byte-oriented write into a framed,
//! timestamped event, stripping one trailing newline, truncating an
//! oversized body, and rejecting invalid UTF-8.
use vstd::prelude::*;
use vstd::slice::{slice_index_get, slice_subrange, slice_to_vec};
use vstd::utf8::valid_utf8;

use crate::event::LogEvent;
use crate::MAX_MESSAGE_LEN;

verus! {

/// The write's bytes were not valid UTF-8 after stripping and truncation;
/// nothing was framed and nothing will be queued.
#[derive(Debug, PartialEq, Eq)]
pub struct InvalidUtf8;

/// The outcome of framing one write.
#[derive(Debug, PartialEq, Eq)]
pub struct Framed {
    /// The event to queue.
    pub event: LogEvent,
    /// The byte count to report to the caller: always the write's full
    /// length, truncation notwithstanding.
    pub count: usize,
    /// True when the body was cut to `MAX_MESSAGE_LEN` bytes; the caller
    /// should emit a diagnostic on its side channel.
    pub truncated: bool,
}

/// The candidate message body: the input with a single trailing newline
/// stripped, if one is present.
pub open spec fn stripped(buf: Seq<u8>) -> Seq<u8> {
    if buf.len() > 0 && buf.last() == 10u8 {
        buf.drop_last()
    } else {
        buf
    }
}

/// The body that is actually framed: the stripped candidate, cut to
/// `MAX_MESSAGE_LEN` bytes when longer.
pub open spec fn framed_body(buf: Seq<u8>) -> Seq<u8> {
    if stripped(buf).len() > MAX_MESSAGE_LEN {
        stripped(buf).take(MAX_MESSAGE_LEN as int)
    } else {
        stripped(buf)
    }
}

/// Exactly one trailing terminator is stripped: a write that ends in a
/// newline frames the bytes before it — even when those end in a
/// newline themselves — and a write that does not ends up framed whole.
pub proof fn lemma_one_terminator_stripped(buf: Seq<u8>)
    ensures
        stripped(buf.push(10u8)) == buf,
        buf.len() == 0 || buf.last() != 10u8 ==> stripped(buf) == buf,
{
    assert(stripped(buf.push(10u8)) =~= buf);
}

/// Relies on str::from_utf8: it returns Ok exactly when the slice is
/// valid UTF-8, the same property vstd's `valid_utf8` states.
#[verifier::external_body]
fn utf8_valid(bytes: &[u8]) -> (r: bool)
    ensures
        r == valid_utf8(bytes@),
{
    core::str::from_utf8(bytes).is_ok()
}

/// Frame one write into an event stamped with `timestamp`.
///
/// Strips at most one trailing newline, truncates the remainder to
/// `MAX_MESSAGE_LEN` bytes, and fails exactly when what remains is not
/// valid UTF-8. The reported count is always the full input length.
pub fn frame_message(buf: &[u8], timestamp: i64) -> (r: Result<Framed, InvalidUtf8>)
    ensures
        r is Ok <==> valid_utf8(framed_body(buf@)),
        r matches Ok(f) ==> {
            &&& f.event.message@ == framed_body(buf@)
            &&& f.event.timestamp == timestamp
            &&& f.event.wf()
            &&& f.count == buf@.len()
            &&& f.truncated == (stripped(buf@).len() > MAX_MESSAGE_LEN)
        },
{
    let count = buf.len();
    let body: &[u8] = if count > 0 && *slice_index_get(buf, count - 1) == 10u8 {
        slice_subrange(buf, 0, count - 1)
    } else {
        buf
    };
    proof {
        assert(body@ == stripped(buf@));
    }
    let truncated = body.len() > MAX_MESSAGE_LEN;
    let body: &[u8] = if truncated {
        slice_subrange(body, 0, MAX_MESSAGE_LEN)
    } else {
        body
    };
    proof {
        assert(body@ == framed_body(buf@));
    }
    if !utf8_valid(body) {
        return Err(InvalidUtf8);
    }
    let message = slice_to_vec(body);
    Ok(Framed { event: LogEvent { message, timestamp }, count, truncated })
}

/// Frame one write, stamped with the capture time of the call itself.
///
/// The behaviour is `frame_message`'s; only the timestamp comes from
/// the clock, of which nothing is promised.
pub fn frame_write(buf: &[u8]) -> (r: Result<Framed, InvalidUtf8>)
    ensures
        r is Ok <==> valid_utf8(framed_body(buf@)),
        r matches Ok(f) ==> {
            &&& f.event.message@ == framed_body(buf@)
            &&& f.event.wf()
            &&& f.count == buf@.len()
            &&& f.truncated == (stripped(buf@).len() > MAX_MESSAGE_LEN)
        },
{
    let ts = timestamp();
    frame_message(buf, ts)
}

/// Relies on std::time::SystemTime: whole milliseconds between the
/// clock's now and the Unix epoch, `Ok` when now is at or after the
/// epoch and `Err` when it is before. The value depends on the clock,
/// so nothing is promised of it.
#[verifier::external_body]
fn millis_since_epoch() -> Result<u128, u128> {
    match std::time::SystemTime::now().duration_since(std::time::SystemTime::UNIX_EPOCH) {
        Ok(duration) => Ok(duration.as_millis()),
        Err(err) => Err(err.duration().as_millis()),
    }
}

/// Fold a millisecond distance from the epoch into a signed stamp:
/// negative before the epoch, saturating at the ends of `i64`.
pub fn millis_to_stamp(r: Result<u128, u128>) -> (t: i64)
    ensures
        r matches Ok(m) ==> t == if m <= i64::MAX as u128 {
            m as int
        } else {
            i64::MAX as int
        },
        r matches Err(m) ==> t == if m <= i64::MAX as u128 {
            -(m as int)
        } else {
            i64::MIN as int
        },
{
    match r {
        Ok(m) => {
            if m <= i64::MAX as u128 {
                m as i64
            } else {
                i64::MAX
            }
        },
        Err(m) => {
            if m <= i64::MAX as u128 {
                -(m as i64)
            } else {
                i64::MIN
            }
        },
    }
}

/// The current Unix timestamp in milliseconds, negative before the
/// epoch; the clock alone decides the value.
pub fn timestamp() -> i64 {
    millis_to_stamp(millis_since_epoch())
}

} // verus!
