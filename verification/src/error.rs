//! The error adapter: the transport's heterogeneous failures are
//! normalized into one error type for diagnostics, and classified into
//! the few outcomes the worker protocol distinguishes.
use vstd::prelude::*;

use rusoto_core::RusotoError;
use rusoto_logs::{CreateLogStreamError, PutLogEventsError, PutLogEventsResponse};

use crate::worker::{AppendResult, CreateResult};

verus! {

#[verifier::external_type_specification]
#[verifier::external_body]
#[verifier::reject_recursive_types(E)]
pub struct ExRusotoError<E>(RusotoError<E>);

#[verifier::external_type_specification]
#[verifier::external_body]
pub struct ExPutLogEventsError(PutLogEventsError);

#[verifier::external_type_specification]
#[verifier::external_body]
pub struct ExCreateLogStreamError(CreateLogStreamError);

#[verifier::external_type_specification]
#[verifier::external_body]
pub struct ExPutLogEventsResponse(PutLogEventsResponse);

/// One normalized delivery error: either a transport-level failure, or
/// one of the two distinguished service errors.
#[derive(Debug)]
pub enum RusotoLogsError {
    RusotoError(RusotoError<std::convert::Infallible>),
    PutLogEventsError(PutLogEventsError),
    CreateLogStreamError(CreateLogStreamError),
}

impl From<RusotoError<PutLogEventsError>> for RusotoLogsError {
    /// Relies on rusoto_core::RusotoError's variants: a `Service` error
    /// carries the append call's service error; every other variant is
    /// transport-level and is kept as it is.
    #[verifier::external_body]
    fn from(error: RusotoError<PutLogEventsError>) -> Self {
        match error {
            RusotoError::Service(error) => Self::PutLogEventsError(error),
            RusotoError::HttpDispatch(err) => Self::RusotoError(RusotoError::HttpDispatch(err)),
            RusotoError::Credentials(err) => Self::RusotoError(RusotoError::Credentials(err)),
            RusotoError::Validation(msg) => Self::RusotoError(RusotoError::Validation(msg)),
            RusotoError::ParseError(msg) => Self::RusotoError(RusotoError::ParseError(msg)),
            RusotoError::Unknown(resp) => Self::RusotoError(RusotoError::Unknown(resp)),
            RusotoError::Blocking => Self::RusotoError(RusotoError::Blocking),
        }
    }
}

impl From<RusotoError<CreateLogStreamError>> for RusotoLogsError {
    /// Relies on rusoto_core::RusotoError's variants: a `Service` error
    /// carries the create call's service error; every other variant is
    /// transport-level and is kept as it is.
    #[verifier::external_body]
    fn from(error: RusotoError<CreateLogStreamError>) -> Self {
        match error {
            RusotoError::Service(error) => Self::CreateLogStreamError(error),
            RusotoError::HttpDispatch(err) => Self::RusotoError(RusotoError::HttpDispatch(err)),
            RusotoError::Credentials(err) => Self::RusotoError(RusotoError::Credentials(err)),
            RusotoError::Validation(msg) => Self::RusotoError(RusotoError::Validation(msg)),
            RusotoError::ParseError(msg) => Self::RusotoError(RusotoError::ParseError(msg)),
            RusotoError::Unknown(resp) => Self::RusotoError(RusotoError::Unknown(resp)),
            RusotoError::Blocking => Self::RusotoError(RusotoError::Blocking),
        }
    }
}

/// The classification of one append failure: a function of the error
/// value alone.
pub uninterp spec fn put_class_of(e: RusotoError<PutLogEventsError>) -> AppendResult;

/// The classification of one create-stream failure: a function of the
/// error value alone.
pub uninterp spec fn create_class_of(e: RusotoError<CreateLogStreamError>) -> CreateResult;

/// The next sequence cursor carried by one append response: a function
/// of the response alone.
pub uninterp spec fn token_of(resp: PutLogEventsResponse) -> Option<String>;

/// Relies on rusoto_logs::PutLogEventsError's variants: only a
/// `Service(ResourceNotFound)` means the stream is missing and only a
/// `Service(InvalidSequenceToken)` means the cursor is stale; rusoto
/// surfaces no corrected cursor, only the raw message, so the stale
/// case carries no token. No classified value reports success.
#[verifier::external_body]
fn classify_put_error(e: &RusotoError<PutLogEventsError>) -> (r: AppendResult)
    ensures
        r == put_class_of(*e),
        !(r is Success),
        r matches AppendResult::InvalidSequence(t) ==> t is None,
{
    match e {
        RusotoError::Service(PutLogEventsError::ResourceNotFound(_)) => AppendResult::NotFound,
        RusotoError::Service(PutLogEventsError::InvalidSequenceToken(_)) => {
            AppendResult::InvalidSequence(None)
        },
        _ => AppendResult::Other,
    }
}

/// Relies on rusoto_logs::CreateLogStreamError's variants: only a
/// `Service(ResourceAlreadyExists)` is the benign already-exists
/// outcome; everything else is a creation failure. No classified value
/// reports a created stream.
#[verifier::external_body]
fn classify_create_error(e: &RusotoError<CreateLogStreamError>) -> (r: CreateResult)
    ensures
        r == create_class_of(*e),
        !(r is Created),
{
    match e {
        RusotoError::Service(CreateLogStreamError::ResourceAlreadyExists(_)) => {
            CreateResult::AlreadyExists
        },
        _ => CreateResult::Failed,
    }
}

/// Relies on rusoto_logs::PutLogEventsResponse: hands out its
/// `next_sequence_token` field.
#[verifier::external_body]
fn next_token_of(resp: PutLogEventsResponse) -> (r: Option<String>)
    ensures
        r == token_of(resp),
{
    resp.next_sequence_token
}

/// Digest the transport's answer to one append call: the classified
/// outcome for the worker protocol, and the normalized error for the
/// diagnostic side channel when the call failed.
pub fn interpret_append(r: Result<PutLogEventsResponse, RusotoError<PutLogEventsError>>) -> (out: (
    AppendResult,
    Option<RusotoLogsError>,
))
    ensures
        r matches Ok(resp) ==> out.0 == AppendResult::Success(token_of(resp)) && out.1 is None,
        r matches Err(e) ==> out.0 == put_class_of(e) && !(out.0 is Success) && out.1 is Some,
        out.0 matches AppendResult::InvalidSequence(t) ==> t is None,
{
    match r {
        Ok(resp) => (AppendResult::Success(next_token_of(resp)), None),
        Err(e) => {
            let outcome = classify_put_error(&e);
            (outcome, Some(RusotoLogsError::from(e)))
        },
    }
}

/// Digest the transport's answer to one create-stream call: the
/// classified outcome for the worker protocol, and the normalized
/// error for the diagnostic side channel when the call failed.
pub fn interpret_create(r: Result<(), RusotoError<CreateLogStreamError>>) -> (out: (
    CreateResult,
    Option<RusotoLogsError>,
))
    ensures
        r is Ok ==> out.0 is Created && out.1 is None,
        r matches Err(e) ==> out.0 == create_class_of(e) && !(out.0 is Created) && out.1 is Some,
{
    match r {
        Ok(()) => (CreateResult::Created, None),
        Err(e) => {
            let outcome = classify_create_error(&e);
            (outcome, Some(RusotoLogsError::from(e)))
        },
    }
}

} // verus!
