//! The download worker: a per-job state machine that derives a download
//! credential, opens a remote byte stream, and writes it to the local
//! destination chunk by chunk, in receipt order. The network reads and
//! file writes are done by the surrounding binary; everything decided
//! here is verified.
use vstd::prelude::*;

use crate::errors::{RemoteError, RequestRecovery, TransferFailure, request_recovery_of};

verus! {

/// The streaming half of a download: the bytes it accounts are exactly
/// the bytes received, in receipt order — the local file a worker writes
/// this way is byte-identical to what the remote stream delivered.
pub struct DownloadStream {
    received: Ghost<Seq<u8>>,
    stored: u64,
}

impl DownloadStream {
    /// The bytes received and written so far, in order.
    pub closed spec fn content(self) -> Seq<u8> {
        self.received@
    }

    /// How many bytes have been written.
    pub closed spec fn bytes_stored(self) -> u64 {
        self.stored
    }

    /// The byte count always matches the recorded content.
    pub open spec fn wf(self) -> bool {
        self.content().len() == self.bytes_stored()
    }

    /// Begin a download with nothing received yet.
    pub fn new() -> (s: Self)
        ensures
            s.wf(),
            s.content() == Seq::<u8>::empty(),
            s.bytes_stored() == 0,
    {
        DownloadStream { received: Ghost(Seq::empty()), stored: 0 }
    }

    /// Account one received chunk, in receipt order: it joins the
    /// content after everything received before it, with no gap and no
    /// reordering, and the running byte count is reported as progress.
    pub fn record_chunk(&mut self, chunk: &[u8]) -> (bytes: u64)
        requires
            old(self).wf(),
            old(self).bytes_stored() + chunk@.len() <= u64::MAX,
        ensures
            final(self).wf(),
            final(self).content() == old(self).content() + chunk@,
            final(self).bytes_stored() == old(self).bytes_stored() + chunk@.len(),
            bytes == final(self).bytes_stored(),
    {
        self.received = Ghost(self.received@ + chunk@);
        self.stored = self.stored + chunk.len() as u64;
        self.stored
    }
}

/// Control state of one download job.
#[derive(Clone, Copy, Debug, PartialEq, Eq, Structural)]
pub enum DownloadPhase {
    /// Derive a download credential from the session manager; `retried`
    /// records whether the single request retry is already spent.
    Authorizing { retried: bool },
    /// Open the remote byte stream for the requested key.
    Requesting { retried: bool },
    /// Stream the remote bytes to the local file chunk by chunk.
    Streaming,
    /// The download succeeded.
    Done,
    /// The job failed; sibling jobs are unaffected.
    Failed(TransferFailure),
}

/// What the surrounding loop reports back to the download machine.
#[derive(Clone, Copy, Debug, PartialEq, Eq, Structural)]
pub enum DownloadEvent {
    /// A download credential was derived from the current session.
    CredentialReady,
    /// The remote byte stream was opened.
    RequestOpened,
    /// Opening the remote stream failed.
    RequestDenied(RemoteError),
    /// One chunk was received and written.
    ChunkStored,
    /// The remote stream reported its end.
    RemoteDrained,
    /// A remote read or local write failed.
    StreamFailed(TransferFailure),
}

/// Which events each phase is prepared to receive.
pub open spec fn download_accepts(p: DownloadPhase, e: DownloadEvent) -> bool {
    match (p, e) {
        (DownloadPhase::Authorizing { .. }, DownloadEvent::CredentialReady) => true,
        (DownloadPhase::Requesting { .. }, DownloadEvent::RequestOpened) => true,
        (DownloadPhase::Requesting { .. }, DownloadEvent::RequestDenied(_)) => true,
        (DownloadPhase::Streaming, DownloadEvent::ChunkStored) => true,
        (DownloadPhase::Streaming, DownloadEvent::RemoteDrained) => true,
        (DownloadPhase::Streaming, DownloadEvent::StreamFailed(_)) => true,
        _ => false,
    }
}

/// The transition relation of the download worker. Deriving a credential
/// is local and cannot fail; a denied request-open receives the same
/// classifier-driven recovery as an upload, with the same single retry
/// budget; any streaming failure fails the job; the end of the remote
/// stream completes it.
pub open spec fn download_next(p: DownloadPhase, e: DownloadEvent) -> DownloadPhase {
    match (p, e) {
        (DownloadPhase::Authorizing { retried }, DownloadEvent::CredentialReady) => (
        DownloadPhase::Requesting { retried }),
        (DownloadPhase::Requesting { .. }, DownloadEvent::RequestOpened) => DownloadPhase::Streaming,
        (DownloadPhase::Requesting { retried }, DownloadEvent::RequestDenied(err)) => {
            match request_recovery_of(err, retried) {
                RequestRecovery::ReauthorizeAndRetry => (DownloadPhase::Authorizing {
                    retried: true,
                }),
                RequestRecovery::RetryInPlace => (DownloadPhase::Requesting { retried: true }),
                RequestRecovery::Fail(f) => DownloadPhase::Failed(f),
            }
        },
        (DownloadPhase::Streaming, DownloadEvent::ChunkStored) => DownloadPhase::Streaming,
        (DownloadPhase::Streaming, DownloadEvent::RemoteDrained) => DownloadPhase::Done,
        (DownloadPhase::Streaming, DownloadEvent::StreamFailed(f)) => DownloadPhase::Failed(f),
        _ => p,
    }
}

/// The phase a fresh download job starts in.
pub open spec fn download_start() -> DownloadPhase {
    DownloadPhase::Authorizing { retried: false }
}

/// Begin a new download job.
pub fn new_download_phase() -> (p: DownloadPhase)
    ensures
        p == download_start(),
{
    DownloadPhase::Authorizing { retried: false }
}

/// Drive the download job one step.
pub fn download_step(p: DownloadPhase, e: DownloadEvent) -> (next: DownloadPhase)
    requires
        download_accepts(p, e),
    ensures
        next == download_next(p, e),
{
    match (p, e) {
        (DownloadPhase::Authorizing { retried }, DownloadEvent::CredentialReady) => (
        DownloadPhase::Requesting { retried }),
        (DownloadPhase::Requesting { .. }, DownloadEvent::RequestOpened) => DownloadPhase::Streaming,
        (DownloadPhase::Requesting { retried }, DownloadEvent::RequestDenied(err)) => {
            match crate::errors::request_recovery(&err, retried) {
                RequestRecovery::ReauthorizeAndRetry => (DownloadPhase::Authorizing {
                    retried: true,
                }),
                RequestRecovery::RetryInPlace => (DownloadPhase::Requesting { retried: true }),
                RequestRecovery::Fail(f) => DownloadPhase::Failed(f),
            }
        },
        (DownloadPhase::Streaming, DownloadEvent::ChunkStored) => DownloadPhase::Streaming,
        (DownloadPhase::Streaming, DownloadEvent::RemoteDrained) => DownloadPhase::Done,
        (DownloadPhase::Streaming, DownloadEvent::StreamFailed(f)) => DownloadPhase::Failed(f),
        (other, _) => other,
    }
}

/// Control measure for the download worker, mirroring the upload one.
pub open spec fn download_measure(p: DownloadPhase) -> int {
    match p {
        DownloadPhase::Authorizing { retried } => if retried {
            4
        } else {
            6
        },
        DownloadPhase::Requesting { retried } => if retried {
            3
        } else {
            5
        },
        DownloadPhase::Streaming => 2,
        DownloadPhase::Done => 0,
        DownloadPhase::Failed(_) => 0,
    }
}

/// Law (liveness of the control loop): every accepted event except a
/// stored chunk strictly shrinks the measure.
pub proof fn lemma_download_control_progress(p: DownloadPhase, e: DownloadEvent)
    requires
        download_accepts(p, e),
        !(e is ChunkStored),
    ensures
        download_measure(download_next(p, e)) < download_measure(p),
{
}

} // verus!
