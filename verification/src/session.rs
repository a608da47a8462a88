//! The session manager: the shared authorization state, the bounded
//! authorize retry loop used both at session creation and at renewal, the
//! bucket resolution done once at startup, and the policy under which an
//! upload credential is requested from the current session.
//!
//! The network calls themselves (authorize, list buckets, request an
//! upload URL) are performed by the surrounding binary; the functions here
//! decide, from each call's outcome, what happens next.
use vstd::prelude::*;

use crate::errors::{Classification, CreateFailure, RemoteError, TransferFailure, classification_of};

verus! {

/// How many consecutive transient failures an authorize loop tolerates
/// before it gives up.
pub const MAX_AUTHORIZE_ATTEMPTS: u32 = 16;

/// How many consecutive transient failures a request for an upload URL
/// tolerates before the job gives up.
pub const MAX_URL_RETRIES: u32 = 16;

/// How many consecutive session renewals a request for an upload URL may
/// trigger before it escalates to a failure.
pub const MAX_REAUTHORIZATIONS: u32 = 4;

/// The backoff delay before transient retry number `attempt`, in
/// milliseconds: it doubles from a small base and is capped, so waiting
/// is bounded. The surrounding binary sleeps for this long between
/// attempts; any jitter it adds on top changes no decision here.
pub open spec fn backoff_ms_spec(attempt: u32) -> int
    decreases attempt,
{
    if attempt == 0 {
        50
    } else if backoff_ms_spec((attempt - 1) as u32) >= 1600 {
        3200
    } else {
        2 * backoff_ms_spec((attempt - 1) as u32)
    }
}

/// Compute the backoff delay for a retry attempt.
pub fn backoff_ms(attempt: u32) -> (d: u64)
    ensures
        d == backoff_ms_spec(attempt),
        50 <= d <= 3200,
{
    let mut d: u64 = 50;
    let mut i: u32 = 0;
    while i < attempt
        invariant
            i <= attempt,
            d == backoff_ms_spec(i),
            50 <= d <= 3200,
        decreases attempt - i,
    {
        if d >= 1600 {
            d = 3200;
        } else {
            d = 2 * d;
        }
        i = i + 1;
    }
    d
}

/// The result of one successful authorize call: what later operations
/// need from a live session. Replaced wholesale on renewal, never mutated
/// in place.
#[derive(Clone, Debug, PartialEq, Eq)]
pub struct AuthToken {
    /// Session credential presented with each API request.
    pub authorization: String,
    /// Endpoint for API requests under this session.
    pub api_url: String,
    /// Base endpoint for downloads under this session.
    pub download_url: String,
}

/// One entry of the account's bucket listing.
#[derive(Clone, Debug, PartialEq, Eq)]
pub struct BucketInfo {
    pub name: String,
    pub id: String,
}

/// The bucket all transfers run against, resolved once at startup.
#[derive(Clone, Debug, PartialEq, Eq)]
pub struct BucketIdentity {
    pub name: String,
    pub id: String,
}

/// A credential scoped to downloads, derived from the current session
/// token without any further network call.
#[derive(Clone, Debug, PartialEq, Eq)]
pub struct DownloadAuthorization {
    pub authorization: String,
    pub download_url: String,
}

/// A single-use credential scoped to one upload attempt, requested fresh
/// from the current session for every retry.
#[derive(Clone, Debug, PartialEq, Eq)]
pub struct UploadAuthorization {
    pub upload_url: String,
    pub authorization: String,
}

/// How many entries of a bucket listing carry the requested name.
pub open spec fn matching_buckets(buckets: Seq<BucketInfo>, name: Seq<char>) -> nat
    decreases buckets.len(),
{
    if buckets.len() == 0 {
        0
    } else {
        matching_buckets(buckets.drop_last(), name) + if buckets.last().name@ == name {
            1nat
        } else {
            0nat
        }
    }
}

proof fn lemma_matching_prefix_le(buckets: Seq<BucketInfo>, name: Seq<char>, k: int)
    requires
        0 <= k <= buckets.len(),
    ensures
        matching_buckets(buckets.take(k), name) <= matching_buckets(buckets, name),
    decreases buckets.len() - k,
{
    if k == buckets.len() {
        assert(buckets.take(k) =~= buckets);
    } else {
        lemma_matching_prefix_le(buckets, name, k + 1);
        assert(buckets.take(k + 1).drop_last() =~= buckets.take(k));
        assert(buckets.take(k + 1).last() == buckets[k]);
    }
}

/// Resolve the requested bucket name against the account's listing.
/// Succeeds exactly when one listing entry carries the name; reports a
/// missing bucket and an ambiguous name as distinct fatal failures.
pub fn resolve_bucket(buckets: &Vec<BucketInfo>, name: &String) -> (r: Result<
    BucketIdentity,
    CreateFailure,
>)
    ensures
        r is Ok <==> matching_buckets(buckets@, name@) == 1,
        r == Err::<BucketIdentity, CreateFailure>(CreateFailure::BucketNotFound) <==> matching_buckets(buckets@, name@) == 0,
        r == Err::<BucketIdentity, CreateFailure>(CreateFailure::BucketNotUnique) <==> matching_buckets(buckets@, name@) >= 2,
        r matches Ok(b) ==> b.name@ == name@ && exists|j: int|
            0 <= j < buckets@.len() && buckets@[j].name@ == name@ && b.id@ == #[trigger] buckets@[j].id@,
{
    let mut found: Option<BucketIdentity> = None;
    let mut i: usize = 0;
    while i < buckets.len()
        invariant
            0 <= i <= buckets@.len(),
            match found {
                Option::None => matching_buckets(buckets@.take(i as int), name@) == 0,
                Option::Some(b) => matching_buckets(buckets@.take(i as int), name@) == 1
                    && b.name@ == name@ && exists|j: int|
                    0 <= j < i && buckets@[j].name@ == name@ && b.id@
                        == #[trigger] buckets@[j].id@,
            },
        decreases buckets@.len() - i,
    {
        proof {
            assert(buckets@.take(i + 1).drop_last() =~= buckets@.take(i as int));
            assert(buckets@.take(i + 1).last() == buckets@[i as int]);
        }
        let b = &buckets[i];
        let matched = b.name == *name;
        proof {
            assert(matched == (buckets@[i as int].name@ == name@));
            assert(matching_buckets(buckets@.take(i + 1), name@) == matching_buckets(
                buckets@.take(i as int),
                name@,
            ) + if buckets@[i as int].name@ == name@ {
                1nat
            } else {
                0nat
            });
        }
        if matched {
            match found {
                Option::None => {
                    found = Some(BucketIdentity { name: b.name.clone(), id: b.id.clone() });
                    proof {
                        assert(buckets@[i as int].name@ == name@ && found->Some_0.id@
                            == buckets@[i as int].id@);
                    }
                },
                Option::Some(_) => {
                    proof {
                        lemma_matching_prefix_le(buckets@, name@, i + 1);
                    }
                    return Err(CreateFailure::BucketNotUnique);
                },
            }
        }
        i = i + 1;
    }
    proof {
        assert(buckets@.take(buckets@.len() as int) =~= buckets@);
    }
    match found {
        Option::Some(b) => Ok(b),
        Option::None => Err(CreateFailure::BucketNotFound),
    }
}

/// Outcome of one authorize attempt, as reported by the remote-API
/// collaborator.
#[derive(Clone, Debug, PartialEq, Eq)]
pub enum AuthorizeOutcome {
    Granted(AuthToken),
    Denied(RemoteError),
}

/// What an authorize loop does after one attempt.
#[derive(Clone, Debug, PartialEq, Eq)]
pub enum AuthorizeStep {
    /// Perform another authorize attempt.
    Retry,
    /// The session is live; install this token.
    Accept(AuthToken),
    /// The failure is fatal; no session can be had.
    Abort(RemoteError),
    /// The transient-retry budget ran out.
    GiveUp,
}

/// The bounded authorize retry loop, shared by session creation and by
/// renewal: transient failures are retried until the budget runs out,
/// anything else is fatal.
#[derive(Clone, Copy, Debug, PartialEq, Eq, Structural)]
pub struct AuthorizeLoop {
    pub attempts_left: u32,
}

/// The loop's reaction to one attempt: a granted token is accepted as is;
/// a denial is retried exactly when it is classified transient and budget
/// remains, and the budget shrinks by one on each retry.
pub open spec fn authorize_step_spec(pre: AuthorizeLoop, outcome: AuthorizeOutcome) -> (
    AuthorizeLoop,
    AuthorizeStep,
) {
    match outcome {
        AuthorizeOutcome::Granted(t) => (pre, AuthorizeStep::Accept(t)),
        AuthorizeOutcome::Denied(e) => {
            if classification_of(e) is Retriable {
                if pre.attempts_left > 0 {
                    (
                        (AuthorizeLoop { attempts_left: (pre.attempts_left - 1) as u32 }),
                        AuthorizeStep::Retry,
                    )
                } else {
                    (pre, AuthorizeStep::GiveUp)
                }
            } else {
                (pre, AuthorizeStep::Abort(e))
            }
        },
    }
}

impl AuthorizeLoop {
    /// A fresh loop with the full retry budget.
    pub fn new() -> (s: Self)
        ensures
            s.attempts_left == MAX_AUTHORIZE_ATTEMPTS,
    {
        AuthorizeLoop { attempts_left: MAX_AUTHORIZE_ATTEMPTS }
    }

    /// Feed the loop the outcome of one authorize attempt.
    pub fn step(&mut self, outcome: AuthorizeOutcome) -> (d: AuthorizeStep)
        ensures
            (*final(self), d) == authorize_step_spec(*old(self), outcome),
    {
        match outcome {
            AuthorizeOutcome::Granted(t) => AuthorizeStep::Accept(t),
            AuthorizeOutcome::Denied(e) => {
                let c = crate::errors::classify(&e);
                if c == Classification::Retriable {
                    if self.attempts_left > 0 {
                        self.attempts_left = self.attempts_left - 1;
                        AuthorizeStep::Retry
                    } else {
                        AuthorizeStep::GiveUp
                    }
                } else {
                    AuthorizeStep::Abort(e)
                }
            },
        }
    }
}

/// Interpret the end of an authorize loop for session creation: an
/// accepted token yields the session, a fatal denial carries the remote
/// error, an exhausted transient budget is its own fatal failure. A
/// Retry step is not an end of the loop.
pub fn authorize_conclusion(step: AuthorizeStep) -> (r: Result<AuthToken, CreateFailure>)
    requires
        !(step is Retry),
    ensures
        step matches AuthorizeStep::Accept(t) ==> r == Ok::<AuthToken, CreateFailure>(t),
        step matches AuthorizeStep::Abort(e) ==> r == Err::<AuthToken, CreateFailure>(
            CreateFailure::Authorization(e),
        ),
        step is GiveUp ==> r == Err::<AuthToken, CreateFailure>(CreateFailure::RetriesExhausted),
{
    match step {
        AuthorizeStep::Accept(t) => Ok(t),
        AuthorizeStep::Abort(e) => Err(CreateFailure::Authorization(e)),
        _ => Err(CreateFailure::RetriesExhausted),
    }
}

/// The shared authorization state every worker reads: the live session
/// token and the bucket identity resolved at startup. The surrounding
/// binary guards it with a readers-writer lock; renewal replaces the
/// token wholesale and never touches the bucket.
#[derive(Clone, Debug, PartialEq, Eq)]
pub struct SessionCore {
    pub token: AuthToken,
    pub bucket: BucketIdentity,
}

impl SessionCore {
    /// Assemble the session state after a successful creation.
    pub fn new(token: AuthToken, bucket: BucketIdentity) -> (s: Self)
        ensures
            s.token == token,
            s.bucket == bucket,
    {
        SessionCore { token, bucket }
    }

    /// Replace the session token after a successful renewal. The bucket
    /// identity is untouched.
    pub fn install_token(&mut self, token: AuthToken)
        ensures
            final(self).token == token,
            final(self).bucket == old(self).bucket,
    {
        self.token = token;
    }

    /// Derive a download credential from the current token. Purely local:
    /// reusable across downloads, no per-request minting, never blocks on
    /// renewal.
    pub fn download_credential(&self) -> (d: DownloadAuthorization)
        ensures
            d.authorization@ == self.token.authorization@,
            d.download_url@ == self.token.download_url@,
    {
        DownloadAuthorization {
            authorization: self.token.authorization.clone(),
            download_url: self.token.download_url.clone(),
        }
    }
}

/// State of one upload-credential request against the session manager.
#[derive(Clone, Debug, PartialEq, Eq)]
pub enum UploadCredState {
    /// Ask the current session for a fresh upload URL.
    Requesting { retries_left: u32, reauths_left: u32 },
    /// Renew the session, then ask again.
    Reauthorizing { retries_left: u32, reauths_left: u32 },
    /// A credential was granted.
    Granted(UploadAuthorization),
    /// The request failed; the owning job fails with this.
    Failed(TransferFailure),
}

/// What the surrounding loop reports back to the machine.
#[derive(Clone, Debug, PartialEq, Eq)]
pub enum UploadCredEvent {
    /// The session granted an upload URL.
    UrlGranted(UploadAuthorization),
    /// The request for an upload URL failed.
    UrlDenied(RemoteError),
    /// The session was renewed and a fresh token installed.
    Reauthorized,
}

/// The state a fresh upload-credential request starts in.
pub open spec fn upload_cred_start() -> UploadCredState {
    UploadCredState::Requesting {
        retries_left: MAX_URL_RETRIES,
        reauths_left: MAX_REAUTHORIZATIONS,
    }
}

/// Begin a new upload-credential request with full budgets.
pub fn new_upload_cred() -> (s: UploadCredState)
    ensures
        s == upload_cred_start(),
{
    UploadCredState::Requesting { retries_left: MAX_URL_RETRIES, reauths_left: MAX_REAUTHORIZATIONS }
}

/// Which events a state is prepared to receive; the two final states
/// receive none.
pub open spec fn upload_cred_accepts(s: UploadCredState, e: UploadCredEvent) -> bool {
    match (s, e) {
        (UploadCredState::Requesting { .. }, UploadCredEvent::UrlGranted(_)) => true,
        (UploadCredState::Requesting { .. }, UploadCredEvent::UrlDenied(_)) => true,
        (UploadCredState::Reauthorizing { .. }, UploadCredEvent::Reauthorized) => true,
        _ => false,
    }
}

/// The transition relation: a granted URL ends the request; a denial is
/// triaged by the error classifier — transient failures retry in place on
/// a shrinking budget, an expired session buys exactly one renewal from a
/// separate shrinking budget, anything else fails the request; a renewal
/// is followed by exactly one retried request.
pub open spec fn upload_cred_next(s: UploadCredState, e: UploadCredEvent) -> UploadCredState {
    match (s, e) {
        (
            UploadCredState::Requesting { retries_left, reauths_left },
            UploadCredEvent::UrlGranted(u),
        ) => UploadCredState::Granted(u),
        (
            UploadCredState::Requesting { retries_left, reauths_left },
            UploadCredEvent::UrlDenied(err),
        ) => {
            match classification_of(err) {
                Classification::Retriable => {
                    if retries_left > 0 {
                        UploadCredState::Requesting {
                            retries_left: (retries_left - 1) as u32,
                            reauths_left,
                        }
                    } else {
                        UploadCredState::Failed(TransferFailure::RetriesExhausted)
                    }
                },
                Classification::SessionExpired => {
                    if reauths_left > 0 {
                        UploadCredState::Reauthorizing {
                            retries_left,
                            reauths_left: (reauths_left - 1) as u32,
                        }
                    } else {
                        UploadCredState::Failed(TransferFailure::ReauthorizationsExhausted)
                    }
                },
                Classification::Fatal => UploadCredState::Failed(TransferFailure::Remote(err)),
            }
        },
        (
            UploadCredState::Reauthorizing { retries_left, reauths_left },
            UploadCredEvent::Reauthorized,
        ) => UploadCredState::Requesting { retries_left, reauths_left },
        _ => s,
    }
}

/// Drive the upload-credential request one step.
pub fn upload_cred_step(s: UploadCredState, e: UploadCredEvent) -> (next: UploadCredState)
    requires
        upload_cred_accepts(s, e),
    ensures
        next == upload_cred_next(s, e),
{
    match (s, e) {
        (
            UploadCredState::Requesting { retries_left, reauths_left },
            UploadCredEvent::UrlGranted(u),
        ) => UploadCredState::Granted(u),
        (
            UploadCredState::Requesting { retries_left, reauths_left },
            UploadCredEvent::UrlDenied(err),
        ) => {
            match crate::errors::classify(&err) {
                Classification::Retriable => {
                    if retries_left > 0 {
                        UploadCredState::Requesting { retries_left: retries_left - 1, reauths_left }
                    } else {
                        UploadCredState::Failed(TransferFailure::RetriesExhausted)
                    }
                },
                Classification::SessionExpired => {
                    if reauths_left > 0 {
                        UploadCredState::Reauthorizing {
                            retries_left,
                            reauths_left: reauths_left - 1,
                        }
                    } else {
                        UploadCredState::Failed(TransferFailure::ReauthorizationsExhausted)
                    }
                },
                Classification::Fatal => UploadCredState::Failed(TransferFailure::Remote(err)),
            }
        },
        (
            UploadCredState::Reauthorizing { retries_left, reauths_left },
            UploadCredEvent::Reauthorized,
        ) => UploadCredState::Requesting { retries_left, reauths_left },
        (other, _) => other,
    }
}

/// A measure that shrinks on every accepted step: the request machine
/// cannot loop forever, whatever the remote service answers.
pub open spec fn upload_cred_measure(s: UploadCredState) -> int {
    match s {
        UploadCredState::Requesting { retries_left, reauths_left } => 3 * reauths_left
            + retries_left + 1,
        UploadCredState::Reauthorizing { retries_left, reauths_left } => 3 * reauths_left
            + retries_left + 2,
        _ => 0,
    }
}

/// Law (liveness): every accepted event strictly shrinks the measure, so
/// an upload-credential request reaches Granted or Failed after finitely
/// many steps — there is no unbounded renewal or retry loop.
pub proof fn lemma_upload_cred_terminates(s: UploadCredState, e: UploadCredEvent)
    requires
        upload_cred_accepts(s, e),
    ensures
        upload_cred_measure(upload_cred_next(s, e)) < upload_cred_measure(s),
{
}

/// Law (single recovery after an expired session): while renewal budget
/// remains, a request that is denied because the session expired performs
/// exactly one renewal followed by exactly one retried request; if that
/// retry is granted, the request ends there.
pub proof fn lemma_expired_session_single_recovery(
    retries: u32,
    renewals: u32,
    e: RemoteError,
    u: UploadAuthorization,
)
    requires
        renewals >= 1,
        classification_of(e) == Classification::SessionExpired,
    ensures
        ({
            let s0 = UploadCredState::Requesting {
                retries_left: retries,
                reauths_left: renewals,
            };
            let s1 = upload_cred_next(s0, UploadCredEvent::UrlDenied(e));
            let s2 = upload_cred_next(s1, UploadCredEvent::Reauthorized);
            let s3 = upload_cred_next(s2, UploadCredEvent::UrlGranted(u));
            &&& s1 == (UploadCredState::Reauthorizing {
                retries_left: retries,
                reauths_left: (renewals - 1) as u32,
            })
            &&& s2 == (UploadCredState::Requesting {
                retries_left: retries,
                reauths_left: (renewals - 1) as u32,
            })
            &&& s3 == UploadCredState::Granted(u)
        }),
{
}

} // verus!
