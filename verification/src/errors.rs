//! The error classifier: the single place where retry policy is defined.
//! Every operation that can fail against the remote service consults this
//! triage before deciding to retry, reauthorize, or give up.
use vstd::prelude::*;

verus! {

/// Three-way triage of a remote-service failure.
#[derive(Clone, Copy, Debug, PartialEq, Eq, Structural)]
pub enum Classification {
    /// Transient network or server condition: back off and retry the
    /// same request.
    Retriable,
    /// The current authorization is no longer valid: reauthorize, then
    /// retry the failed operation once.
    SessionExpired,
    /// Anything else: abort the owning job.
    Fatal,
}

/// What the core logic reads out of an error returned by the remote-API
/// collaborator: whether the service asked the client to back off, and
/// whether it asked for a fresh authorization. The numeric status is kept
/// only for reporting.
#[derive(Clone, Copy, Debug, PartialEq, Eq, Structural)]
pub struct RemoteError {
    /// The service reported a transient condition.
    pub backoff: bool,
    /// The service reported that the authorization must be renewed.
    pub needs_new_auth: bool,
    /// Protocol status code, carried through for reporting.
    pub status: u32,
}

/// The classification a given remote error receives. A renewal demand
/// outranks a backoff hint; everything else is fatal.
pub open spec fn classification_of(e: RemoteError) -> Classification {
    if e.needs_new_auth {
        Classification::SessionExpired
    } else if e.backoff {
        Classification::Retriable
    } else {
        Classification::Fatal
    }
}

/// Classify a remote error for retry policy.
pub fn classify(e: &RemoteError) -> (c: Classification)
    ensures
        c == classification_of(*e),
{
    if e.needs_new_auth {
        Classification::SessionExpired
    } else if e.backoff {
        Classification::Retriable
    } else {
        Classification::Fatal
    }
}

/// Why a single transfer job failed. Job failures are independent: none
/// of these aborts a sibling job.
#[derive(Clone, Copy, Debug, PartialEq, Eq, Structural)]
pub enum TransferFailure {
    /// A local file open/read/write/metadata call failed. Never retried.
    LocalIo,
    /// The remote service failed the job fatally.
    Remote(RemoteError),
    /// The bounded in-place retry budget for transient errors ran out.
    RetriesExhausted,
    /// Too many consecutive session renewals without progress.
    ReauthorizationsExhausted,
}

/// Decision after a failed attempt to open a transfer request, with a
/// single-retry budget: an expired session buys one renewal followed by
/// one retried request, a transient failure one retry in place; once the
/// budget is spent, or on any other failure, the job fails.
#[derive(Clone, Copy, Debug, PartialEq, Eq, Structural)]
pub enum RequestRecovery {
    /// Renew the session, obtain a fresh credential, retry once.
    ReauthorizeAndRetry,
    /// Retry once with the same credential.
    RetryInPlace,
    /// Give the job up with this failure.
    Fail(TransferFailure),
}

/// The recovery a failed request-open receives, given whether the single
/// retry was already spent.
pub open spec fn request_recovery_of(e: RemoteError, retried: bool) -> RequestRecovery {
    if retried {
        RequestRecovery::Fail(TransferFailure::Remote(e))
    } else {
        match classification_of(e) {
            Classification::SessionExpired => RequestRecovery::ReauthorizeAndRetry,
            Classification::Retriable => RequestRecovery::RetryInPlace,
            Classification::Fatal => RequestRecovery::Fail(TransferFailure::Remote(e)),
        }
    }
}

/// Decide how a failed request-open is recovered.
pub fn request_recovery(e: &RemoteError, retried: bool) -> (d: RequestRecovery)
    ensures
        d == request_recovery_of(*e, retried),
{
    if retried {
        RequestRecovery::Fail(TransferFailure::Remote(*e))
    } else {
        match classify(e) {
            Classification::SessionExpired => RequestRecovery::ReauthorizeAndRetry,
            Classification::Retriable => RequestRecovery::RetryInPlace,
            Classification::Fatal => RequestRecovery::Fail(TransferFailure::Remote(*e)),
        }
    }
}

/// Why session creation failed; this aborts the whole run before any
/// job starts.
#[derive(Clone, Debug, PartialEq, Eq, Structural)]
pub enum CreateFailure {
    /// No bucket of the requested name exists in the account.
    BucketNotFound,
    /// More than one bucket matched the requested name.
    BucketNotUnique,
    /// The authorize call failed fatally.
    Authorization(RemoteError),
    /// The authorize call kept failing transiently until the retry
    /// budget ran out.
    RetriesExhausted,
}

} // verus!
