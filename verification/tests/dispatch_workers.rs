use b2cli::dispatch::{
    any_failure, build_jobs, download_success_message, pair_values, upload_success_message,
    TransferJob, TransferOutcome,
};
use b2cli::download::{
    download_step, new_download_phase, DownloadEvent, DownloadPhase,
};
use b2cli::errors::{RemoteError, TransferFailure};
use b2cli::upload::{new_upload_phase, upload_step, UploadEvent, UploadPhase};

fn remote(backoff: bool, needs_new_auth: bool) -> RemoteError {
    RemoteError {
        backoff,
        needs_new_auth,
        status: 500,
    }
}

#[test]
fn pairing_keeps_order() {
    let values = vec![
        "a.txt".to_string(),
        "remote/a".to_string(),
        "b.txt".to_string(),
        "remote/b".to_string(),
    ];
    let pairs = pair_values(&values).unwrap();
    assert_eq!(
        pairs,
        vec![
            ("a.txt".to_string(), "remote/a".to_string()),
            ("b.txt".to_string(), "remote/b".to_string()),
        ]
    );
}

#[test]
fn pairing_rejects_odd_lists() {
    let values = vec!["a.txt".to_string()];
    assert_eq!(pair_values(&values), None);
}

#[test]
fn pairing_of_nothing_is_empty() {
    assert_eq!(pair_values(&Vec::new()), Some(Vec::new()));
}

#[test]
fn jobs_cover_every_request_in_order() {
    let uploads = vec![
        ("a.txt".to_string(), "ra".to_string()),
        ("b.txt".to_string(), "rb".to_string()),
    ];
    let downloads = vec![("rc".to_string(), "c.txt".to_string())];
    let jobs = build_jobs(&uploads, &downloads);
    assert_eq!(jobs.len(), 3);
    assert_eq!(
        jobs[0],
        TransferJob::Upload {
            local: "a.txt".to_string(),
            remote: "ra".to_string(),
        }
    );
    assert_eq!(
        jobs[1],
        TransferJob::Upload {
            local: "b.txt".to_string(),
            remote: "rb".to_string(),
        }
    );
    assert_eq!(
        jobs[2],
        TransferJob::Download {
            remote: "rc".to_string(),
            local: "c.txt".to_string(),
        }
    );
}

#[test]
fn run_fails_exactly_when_a_job_failed() {
    let ok = TransferOutcome::Success("file x uploaded".to_string());
    let bad = TransferOutcome::Failure(TransferFailure::LocalIo);
    assert!(!any_failure(&vec![ok.clone(), ok.clone()]));
    assert!(any_failure(&vec![ok.clone(), bad.clone(), ok.clone()]));
    assert!(!any_failure(&Vec::new()));
}

#[test]
fn upload_success_line_names_file_and_url() {
    let m = upload_success_message(
        "a.txt",
        "id-123",
        "https://dl.example",
        "photos",
        "holiday/a.txt",
    );
    assert_eq!(
        m,
        "file a.txt uploaded, id: id-123\ndownload url: https://dl.example/file/photos/holiday/a.txt"
    );
}

#[test]
fn download_success_line_names_key() {
    assert_eq!(
        download_success_message("holiday/a.txt"),
        "file holiday/a.txt downloaded"
    );
}

#[test]
fn upload_worker_happy_path() {
    let mut p = new_upload_phase();
    assert_eq!(p, UploadPhase::Authorizing { retried: false });
    p = upload_step(p, UploadEvent::CredentialGranted);
    assert_eq!(p, UploadPhase::Requesting { retried: false });
    p = upload_step(p, UploadEvent::RequestOpened);
    assert_eq!(p, UploadPhase::Streaming);
    p = upload_step(p, UploadEvent::ChunkStreamed);
    p = upload_step(p, UploadEvent::ChunkStreamed);
    assert_eq!(p, UploadPhase::Streaming);
    p = upload_step(p, UploadEvent::SourceDrained);
    assert_eq!(p, UploadPhase::Finalizing);
    p = upload_step(p, UploadEvent::FinalizeAccepted);
    assert_eq!(p, UploadPhase::Done);
}

#[test]
fn upload_worker_reauthorizes_once_then_fails() {
    let mut p = new_upload_phase();
    p = upload_step(p, UploadEvent::CredentialGranted);
    p = upload_step(p, UploadEvent::RequestDenied(remote(false, true)));
    assert_eq!(p, UploadPhase::Authorizing { retried: true });
    p = upload_step(p, UploadEvent::CredentialGranted);
    assert_eq!(p, UploadPhase::Requesting { retried: true });
    let second = remote(false, true);
    p = upload_step(p, UploadEvent::RequestDenied(second));
    assert_eq!(p, UploadPhase::Failed(TransferFailure::Remote(second)));
}

#[test]
fn upload_worker_retries_transient_request_once() {
    let mut p = new_upload_phase();
    p = upload_step(p, UploadEvent::CredentialGranted);
    p = upload_step(p, UploadEvent::RequestDenied(remote(true, false)));
    assert_eq!(p, UploadPhase::Requesting { retried: true });
    p = upload_step(p, UploadEvent::RequestOpened);
    assert_eq!(p, UploadPhase::Streaming);
}

#[test]
fn upload_worker_fails_on_stream_error() {
    let mut p = new_upload_phase();
    p = upload_step(p, UploadEvent::CredentialGranted);
    p = upload_step(p, UploadEvent::RequestOpened);
    p = upload_step(p, UploadEvent::StreamFailed(TransferFailure::LocalIo));
    assert_eq!(p, UploadPhase::Failed(TransferFailure::LocalIo));
}

#[test]
fn upload_worker_fails_on_rejected_finalize() {
    let mut p = new_upload_phase();
    p = upload_step(p, UploadEvent::CredentialGranted);
    p = upload_step(p, UploadEvent::RequestOpened);
    p = upload_step(p, UploadEvent::SourceDrained);
    let e = remote(false, false);
    p = upload_step(p, UploadEvent::FinalizeDenied(e));
    assert_eq!(p, UploadPhase::Failed(TransferFailure::Remote(e)));
}

#[test]
fn download_worker_happy_path() {
    let mut p = new_download_phase();
    assert_eq!(p, DownloadPhase::Authorizing { retried: false });
    p = download_step(p, DownloadEvent::CredentialReady);
    assert_eq!(p, DownloadPhase::Requesting { retried: false });
    p = download_step(p, DownloadEvent::RequestOpened);
    assert_eq!(p, DownloadPhase::Streaming);
    p = download_step(p, DownloadEvent::ChunkStored);
    p = download_step(p, DownloadEvent::RemoteDrained);
    assert_eq!(p, DownloadPhase::Done);
}

#[test]
fn download_worker_recovers_like_uploads() {
    let mut p = new_download_phase();
    p = download_step(p, DownloadEvent::CredentialReady);
    p = download_step(p, DownloadEvent::RequestDenied(remote(false, true)));
    assert_eq!(p, DownloadPhase::Authorizing { retried: true });
    p = download_step(p, DownloadEvent::CredentialReady);
    p = download_step(p, DownloadEvent::RequestOpened);
    assert_eq!(p, DownloadPhase::Streaming);
}

#[test]
fn download_worker_fails_on_request_error() {
    let mut p = new_download_phase();
    p = download_step(p, DownloadEvent::CredentialReady);
    let e = remote(false, false);
    p = download_step(p, DownloadEvent::RequestDenied(e));
    assert_eq!(p, DownloadPhase::Failed(TransferFailure::Remote(e)));
}

#[test]
fn job_outcomes_are_independent() {
    // Two uploads and one download against one session: each job is
    // driven on its own machine; one failing job leaves the outcomes of
    // the others untouched, and the run as a whole reports failure.
    let uploads = vec![
        ("a.txt".to_string(), "ra".to_string()),
        ("b.txt".to_string(), "rb".to_string()),
    ];
    let downloads = vec![("rc".to_string(), "c.txt".to_string())];
    let jobs = build_jobs(&uploads, &downloads);
    let mut outcomes: Vec<TransferOutcome> = Vec::new();
    for (n, job) in jobs.iter().enumerate() {
        match job {
            TransferJob::Upload { remote: key, .. } => {
                let mut p = new_upload_phase();
                p = upload_step(p, UploadEvent::CredentialGranted);
                if n == 1 {
                    p = upload_step(p, UploadEvent::RequestDenied(remote(false, false)));
                } else {
                    p = upload_step(p, UploadEvent::RequestOpened);
                    p = upload_step(p, UploadEvent::SourceDrained);
                    p = upload_step(p, UploadEvent::FinalizeAccepted);
                }
                match p {
                    UploadPhase::Done => outcomes.push(TransferOutcome::Success(
                        upload_success_message(key, "id", "https://dl.example", "photos", key),
                    )),
                    UploadPhase::Failed(f) => outcomes.push(TransferOutcome::Failure(f)),
                    _ => unreachable!(),
                }
            }
            TransferJob::Download { remote: key, .. } => {
                let mut p = new_download_phase();
                p = download_step(p, DownloadEvent::CredentialReady);
                p = download_step(p, DownloadEvent::RequestOpened);
                p = download_step(p, DownloadEvent::RemoteDrained);
                match p {
                    DownloadPhase::Done => outcomes
                        .push(TransferOutcome::Success(download_success_message(key))),
                    DownloadPhase::Failed(f) => outcomes.push(TransferOutcome::Failure(f)),
                    _ => unreachable!(),
                }
            }
        }
    }
    assert_eq!(outcomes.len(), jobs.len());
    assert!(matches!(outcomes[0], TransferOutcome::Success(_)));
    assert_eq!(
        outcomes[1],
        TransferOutcome::Failure(TransferFailure::Remote(remote(false, false)))
    );
    assert_eq!(
        outcomes[2],
        TransferOutcome::Success("file rc downloaded".to_string())
    );
    assert!(any_failure(&outcomes));
}
