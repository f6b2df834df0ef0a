//! The error taxonomy shared by the router, the loader and the management
//! operations.

use vstd::prelude::*;

verus! {

/// Every failure the dispatch pipeline and the management surface can report.
#[derive(Clone, Copy, Debug, PartialEq, Eq, Structural)]
pub enum Error {
    /// An organization, webhook or tenant application is absent; expected
    /// and user-facing.
    NotFound,
    /// A duplicate idempotent creation; suppressed and treated as success by
    /// the router.
    Conflict,
    /// A management operation arrived without an actor identity.
    Unauthenticated,
    /// A gateway or directory call failed for infrastructure reasons; the
    /// caller may retry.
    UpstreamFailure,
    /// A project resolves to more than one tenant application; a defect,
    /// not retryable.
    DataIntegrityFault,
    /// A declared topic carried a record whose inner fields cannot be
    /// decoded; fatal for that message only.
    MalformedEvent,
}

impl Error {
    /// A human-readable reason string for user-facing reporting.
    pub fn message(self) -> (r: String)
        ensures
            r@ == error_message_str(self),
    {
        match self {
            Error::NotFound => "not found".to_owned(),
            Error::Conflict => "already exists".to_owned(),
            Error::Unauthenticated => "X-USER-ID header not found".to_owned(),
            Error::UpstreamFailure => "upstream call failed".to_owned(),
            Error::DataIntegrityFault => "project is linked to more than one organization".to_owned(),
            Error::MalformedEvent => "malformed event record".to_owned(),
        }
    }
}

/// The reason string of each error.
pub open spec fn error_message_str(e: Error) -> Seq<char> {
    match e {
        Error::NotFound => "not found"@,
        Error::Conflict => "already exists"@,
        Error::Unauthenticated => "X-USER-ID header not found"@,
        Error::UpstreamFailure => "upstream call failed"@,
        Error::DataIntegrityFault => "project is linked to more than one organization"@,
        Error::MalformedEvent => "malformed event record"@,
    }
}

} // verus!
