use b2cli::errors::{
    classify, request_recovery, Classification, CreateFailure, RemoteError, RequestRecovery,
    TransferFailure,
};
use b2cli::session::{
    authorize_conclusion, backoff_ms, new_upload_cred, resolve_bucket, upload_cred_step, AuthToken, AuthorizeLoop,
    AuthorizeOutcome, AuthorizeStep, BucketIdentity, BucketInfo, SessionCore, UploadAuthorization,
    UploadCredEvent, UploadCredState, MAX_AUTHORIZE_ATTEMPTS, MAX_REAUTHORIZATIONS,
    MAX_URL_RETRIES,
};

fn remote(backoff: bool, needs_new_auth: bool) -> RemoteError {
    RemoteError {
        backoff,
        needs_new_auth,
        status: 503,
    }
}

fn token(tag: &str) -> AuthToken {
    AuthToken {
        authorization: format!("tok-{}", tag),
        api_url: format!("https://api.example/{}", tag),
        download_url: format!("https://dl.example/{}", tag),
    }
}

fn upload_auth(tag: &str) -> UploadAuthorization {
    UploadAuthorization {
        upload_url: format!("https://up.example/{}", tag),
        authorization: format!("up-tok-{}", tag),
    }
}

#[test]
fn classify_transient_is_retriable() {
    assert_eq!(classify(&remote(true, false)), Classification::Retriable);
}

#[test]
fn classify_expired_session() {
    assert_eq!(classify(&remote(false, true)), Classification::SessionExpired);
}

#[test]
fn classify_expiry_outranks_backoff() {
    assert_eq!(classify(&remote(true, true)), Classification::SessionExpired);
}

#[test]
fn classify_anything_else_fatal() {
    assert_eq!(classify(&remote(false, false)), Classification::Fatal);
}

#[test]
fn recovery_expired_buys_one_reauthorization() {
    assert_eq!(
        request_recovery(&remote(false, true), false),
        RequestRecovery::ReauthorizeAndRetry
    );
}

#[test]
fn recovery_transient_retries_in_place() {
    assert_eq!(
        request_recovery(&remote(true, false), false),
        RequestRecovery::RetryInPlace
    );
}

#[test]
fn recovery_fatal_fails_job() {
    let e = remote(false, false);
    assert_eq!(
        request_recovery(&e, false),
        RequestRecovery::Fail(TransferFailure::Remote(e))
    );
}

#[test]
fn recovery_budget_spent_fails_job() {
    let e = remote(false, true);
    assert_eq!(
        request_recovery(&e, true),
        RequestRecovery::Fail(TransferFailure::Remote(e))
    );
}

fn listing() -> Vec<BucketInfo> {
    vec![
        BucketInfo {
            name: "photos".to_string(),
            id: "b2id-photos".to_string(),
        },
        BucketInfo {
            name: "backups".to_string(),
            id: "b2id-backups".to_string(),
        },
    ]
}

#[test]
fn create_succeeds_on_unique_bucket() {
    let r = resolve_bucket(&listing(), &"photos".to_string());
    assert_eq!(
        r,
        Ok(BucketIdentity {
            name: "photos".to_string(),
            id: "b2id-photos".to_string(),
        })
    );
}

#[test]
fn create_fails_on_missing_bucket() {
    let r = resolve_bucket(&listing(), &"missing".to_string());
    assert_eq!(r, Err(CreateFailure::BucketNotFound));
}

#[test]
fn create_fails_on_ambiguous_bucket() {
    let mut buckets = listing();
    buckets.push(BucketInfo {
        name: "photos".to_string(),
        id: "b2id-photos-2".to_string(),
    });
    let r = resolve_bucket(&buckets, &"photos".to_string());
    assert_eq!(r, Err(CreateFailure::BucketNotUnique));
}

#[test]
fn create_fails_on_empty_listing() {
    let r = resolve_bucket(&Vec::new(), &"photos".to_string());
    assert_eq!(r, Err(CreateFailure::BucketNotFound));
}

#[test]
fn authorize_accepts_granted_token() {
    let mut l = AuthorizeLoop::new();
    let t = token("first");
    assert_eq!(
        l.step(AuthorizeOutcome::Granted(t.clone())),
        AuthorizeStep::Accept(t)
    );
    assert_eq!(l.attempts_left, MAX_AUTHORIZE_ATTEMPTS);
}

#[test]
fn authorize_retries_transient_denial() {
    let mut l = AuthorizeLoop::new();
    assert_eq!(
        l.step(AuthorizeOutcome::Denied(remote(true, false))),
        AuthorizeStep::Retry
    );
    assert_eq!(l.attempts_left, MAX_AUTHORIZE_ATTEMPTS - 1);
}

#[test]
fn authorize_gives_up_when_budget_runs_out() {
    let mut l = AuthorizeLoop::new();
    for _ in 0..MAX_AUTHORIZE_ATTEMPTS {
        assert_eq!(
            l.step(AuthorizeOutcome::Denied(remote(true, false))),
            AuthorizeStep::Retry
        );
    }
    assert_eq!(l.attempts_left, 0);
    assert_eq!(
        l.step(AuthorizeOutcome::Denied(remote(true, false))),
        AuthorizeStep::GiveUp
    );
}

#[test]
fn authorize_aborts_on_fatal_denial() {
    let mut l = AuthorizeLoop::new();
    let e = remote(false, false);
    assert_eq!(
        l.step(AuthorizeOutcome::Denied(e)),
        AuthorizeStep::Abort(e)
    );
}

#[test]
fn authorize_aborts_on_expired_denial() {
    let mut l = AuthorizeLoop::new();
    let e = remote(false, true);
    assert_eq!(
        l.step(AuthorizeOutcome::Denied(e)),
        AuthorizeStep::Abort(e)
    );
}

#[test]
fn renewal_replaces_token_and_keeps_bucket() {
    let bucket = BucketIdentity {
        name: "photos".to_string(),
        id: "b2id-photos".to_string(),
    };
    let mut s = SessionCore::new(token("first"), bucket.clone());
    s.install_token(token("second"));
    assert_eq!(s.token, token("second"));
    assert_eq!(s.bucket, bucket);
}

#[test]
fn download_credential_mirrors_current_token() {
    let bucket = BucketIdentity {
        name: "photos".to_string(),
        id: "b2id-photos".to_string(),
    };
    let s = SessionCore::new(token("live"), bucket);
    let d = s.download_credential();
    assert_eq!(d.authorization, token("live").authorization);
    assert_eq!(d.download_url, token("live").download_url);
}

#[test]
fn upload_credential_granted_first_try() {
    let s = new_upload_cred();
    let u = upload_auth("one");
    assert_eq!(
        upload_cred_step(s, UploadCredEvent::UrlGranted(u.clone())),
        UploadCredState::Granted(u)
    );
}

#[test]
fn upload_credential_single_reauth_after_expiry() {
    // A forced expired-session denial leads to exactly one renewal and
    // exactly one retried request, which then succeeds.
    let s0 = new_upload_cred();
    let s1 = upload_cred_step(s0, UploadCredEvent::UrlDenied(remote(false, true)));
    assert_eq!(
        s1,
        UploadCredState::Reauthorizing {
            retries_left: MAX_URL_RETRIES,
            reauths_left: MAX_REAUTHORIZATIONS - 1,
        }
    );
    let s2 = upload_cred_step(s1, UploadCredEvent::Reauthorized);
    assert_eq!(
        s2,
        UploadCredState::Requesting {
            retries_left: MAX_URL_RETRIES,
            reauths_left: MAX_REAUTHORIZATIONS - 1,
        }
    );
    let u = upload_auth("after-renewal");
    let s3 = upload_cred_step(s2, UploadCredEvent::UrlGranted(u.clone()));
    assert_eq!(s3, UploadCredState::Granted(u));
}

#[test]
fn upload_credential_renewals_are_bounded() {
    let mut s = new_upload_cred();
    for _ in 0..MAX_REAUTHORIZATIONS {
        s = upload_cred_step(s, UploadCredEvent::UrlDenied(remote(false, true)));
        assert!(matches!(s, UploadCredState::Reauthorizing { .. }));
        s = upload_cred_step(s, UploadCredEvent::Reauthorized);
        assert!(matches!(s, UploadCredState::Requesting { .. }));
    }
    s = upload_cred_step(s, UploadCredEvent::UrlDenied(remote(false, true)));
    assert_eq!(
        s,
        UploadCredState::Failed(TransferFailure::ReauthorizationsExhausted)
    );
}

#[test]
fn upload_credential_transient_retries_are_bounded() {
    let mut s = new_upload_cred();
    for _ in 0..MAX_URL_RETRIES {
        s = upload_cred_step(s, UploadCredEvent::UrlDenied(remote(true, false)));
        assert!(matches!(s, UploadCredState::Requesting { .. }));
    }
    s = upload_cred_step(s, UploadCredEvent::UrlDenied(remote(true, false)));
    assert_eq!(s, UploadCredState::Failed(TransferFailure::RetriesExhausted));
}

#[test]
fn upload_credential_fatal_denial_fails() {
    let s = new_upload_cred();
    let e = remote(false, false);
    assert_eq!(
        upload_cred_step(s, UploadCredEvent::UrlDenied(e)),
        UploadCredState::Failed(TransferFailure::Remote(e))
    );
}

#[test]
fn backoff_doubles_and_is_capped() {
    assert_eq!(backoff_ms(0), 50);
    assert_eq!(backoff_ms(1), 100);
    assert_eq!(backoff_ms(2), 200);
    assert_eq!(backoff_ms(5), 1600);
    assert_eq!(backoff_ms(6), 3200);
    assert_eq!(backoff_ms(7), 3200);
    assert_eq!(backoff_ms(1000), 3200);
}

#[test]
fn conclusion_maps_loop_endings_to_startup_failures() {
    let t = token("fine");
    assert_eq!(
        authorize_conclusion(AuthorizeStep::Accept(t.clone())),
        Ok(t)
    );
    let e = remote(false, false);
    assert_eq!(
        authorize_conclusion(AuthorizeStep::Abort(e)),
        Err(CreateFailure::Authorization(e))
    );
    assert_eq!(
        authorize_conclusion(AuthorizeStep::GiveUp),
        Err(CreateFailure::RetriesExhausted)
    );
}
