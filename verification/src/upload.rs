//! The upload worker: a per-job state machine that obtains an upload
//! credential, opens an upload request, streams the file in fixed-size
//! chunks while hashing exactly the bytes it sends, and finalizes the
//! upload with the digest. The file reads and network writes are done by
//! the surrounding binary; everything decided here is verified.
use vstd::prelude::*;

use crate::chunking::chunk_len_of;
use crate::errors::{RemoteError, RequestRecovery, TransferFailure, request_recovery_of};
use crate::hashing::{sha1_absorb, sha1_fed, sha1_hex_digest, sha1_hex_of, sha1_start};

verus! {

/// Progress reported after each streamed chunk.
#[derive(Clone, Copy, Debug, PartialEq, Eq, Structural)]
pub struct ChunkProgress {
    /// Bytes sent so far, this chunk included.
    pub bytes_sent: u64,
    /// Whole-number percentage of the total file size now sent.
    pub percent: u64,
}

/// The whole-number percentage that `done` is of `total`; an empty
/// transfer counts as complete.
pub open spec fn percent_of(done: u64, total: u64) -> int {
    if total == 0 {
        100
    } else {
        (done as int) * 100 / (total as int)
    }
}

/// Compute the progress percentage without overflow.
pub fn percent_done(done: u64, total: u64) -> (p: u64)
    requires
        done <= total,
    ensures
        p == percent_of(done, total),
        p <= 100,
{
    if total == 0 {
        100
    } else {
        proof {
            assert((done as int) * 100 / (total as int) <= 100) by (nonlinear_arith)
                requires
                    0 < total,
                    done <= total,
            ;
        }
        (((done as u128) * 100) / (total as u128)) as u64
    }
}

/// The streaming half of an upload: counts the bytes sent and feeds each
/// chunk, in sending order, into the running content hash. The digest
/// handed to finalize therefore covers the exact byte sequence written,
/// with no gaps and no reordering.
pub struct UploadStream {
    hasher: sha1::Sha1,
    sent: u64,
    total: u64,
}

impl UploadStream {
    /// The bytes streamed so far, in order.
    pub closed spec fn content(self) -> Seq<u8> {
        sha1_fed(self.hasher)
    }

    /// How many bytes have been streamed.
    pub closed spec fn bytes_sent(self) -> u64 {
        self.sent
    }

    /// The file size announced when the request was opened.
    pub closed spec fn total_size(self) -> u64 {
        self.total
    }

    /// The hash state always covers exactly the bytes streamed so far.
    pub open spec fn wf(self) -> bool {
        self.content().len() == self.bytes_sent() && self.bytes_sent() <= self.total_size()
    }

    /// Begin streaming a file of the given size.
    pub fn new(total: u64) -> (s: Self)
        ensures
            s.wf(),
            s.content() == Seq::<u8>::empty(),
            s.bytes_sent() == 0,
            s.total_size() == total,
    {
        UploadStream { hasher: sha1_start(), sent: 0, total }
    }

    /// How many bytes the next read should ask for; zero exactly when
    /// the whole file has been streamed, so the streaming loop of an
    /// empty file performs no iterations.
    pub fn next_len(&self) -> (n: u64)
        requires
            self.wf(),
        ensures
            n == chunk_len_of(self.total_size(), self.bytes_sent()),
            n == 0 <==> self.bytes_sent() == self.total_size(),
    {
        crate::chunking::next_chunk_len(self.total, self.sent)
    }

    /// Account one chunk, in the order it was read and written: the
    /// chunk joins the hashed content after everything sent before it,
    /// and progress is reported.
    pub fn record_chunk(&mut self, chunk: &[u8]) -> (p: ChunkProgress)
        requires
            old(self).wf(),
            old(self).bytes_sent() + chunk@.len() <= old(self).total_size(),
        ensures
            final(self).wf(),
            final(self).content() == old(self).content() + chunk@,
            final(self).bytes_sent() == old(self).bytes_sent() + chunk@.len(),
            final(self).total_size() == old(self).total_size(),
            p.bytes_sent == final(self).bytes_sent(),
            p.percent == percent_of(final(self).bytes_sent(), final(self).total_size()),
    {
        sha1_absorb(&mut self.hasher, chunk);
        self.sent = self.sent + chunk.len() as u64;
        ChunkProgress { bytes_sent: self.sent, percent: percent_done(self.sent, self.total) }
    }

    /// The hex digest submitted at finalize: it is the digest of exactly
    /// the byte sequence streamed, in order.
    pub fn digest_hex(&self) -> (d: String)
        ensures
            d@ == sha1_hex_of(self.content()),
            d@.len() == 40,
    {
        sha1_hex_digest(&self.hasher)
    }
}

/// Law (empty upload): a zero-length file streams no chunks — the next
/// chunk length is zero from the start, so the streaming loop performs
/// zero iterations — and the digest submitted at finalize is the digest
/// of the empty byte sequence.
pub proof fn lemma_empty_upload(s: UploadStream)
    requires
        s.wf(),
        s.total_size() == 0,
    ensures
        s.bytes_sent() == 0,
        s.content() == Seq::<u8>::empty(),
        chunk_len_of(s.total_size(), s.bytes_sent()) == 0,
        sha1_hex_of(s.content()) == sha1_hex_of(Seq::<u8>::empty()),
{
    assert(s.content() =~= Seq::<u8>::empty());
}

/// Law (upload integrity): streaming a source in its chunk order hashes
/// the whole source — the chunks of `data` concatenate back to exactly
/// `data`, so the digest submitted after streaming them all is the
/// digest of `data`, and a recomputation over the bytes received must
/// reproduce the submitted value.
pub proof fn lemma_upload_digest_covers_source(data: Seq<u8>)
    ensures
        crate::chunking::concat_chunks(crate::chunking::chunks_of(data)) == data,
        sha1_hex_of(crate::chunking::concat_chunks(crate::chunking::chunks_of(data)))
            == sha1_hex_of(data),
{
    crate::chunking::lemma_chunked_round_trip(data);
}

/// Control state of one upload job.
#[derive(Clone, Copy, Debug, PartialEq, Eq, Structural)]
pub enum UploadPhase {
    /// Obtain an upload credential from the session manager; `retried`
    /// records whether the single request retry is already spent.
    Authorizing { retried: bool },
    /// Open the upload request with the credential in hand.
    Requesting { retried: bool },
    /// Stream the file chunk by chunk.
    Streaming,
    /// Submit the digest to close the upload.
    Finalizing,
    /// The upload succeeded.
    Done,
    /// The job failed; sibling jobs are unaffected.
    Failed(TransferFailure),
}

/// What the surrounding loop reports back to the upload machine.
#[derive(Clone, Copy, Debug, PartialEq, Eq, Structural)]
pub enum UploadEvent {
    /// The session manager granted an upload credential.
    CredentialGranted,
    /// The session manager could not grant one.
    CredentialDenied(TransferFailure),
    /// The upload request was opened.
    RequestOpened,
    /// Opening the upload request failed.
    RequestDenied(RemoteError),
    /// One chunk was read, written and hashed.
    ChunkStreamed,
    /// The local read returned no further bytes.
    SourceDrained,
    /// A local read or remote write failed.
    StreamFailed(TransferFailure),
    /// The service accepted the digest and closed the upload.
    FinalizeAccepted,
    /// The service rejected the finalize call.
    FinalizeDenied(RemoteError),
}

/// Which events each phase is prepared to receive.
pub open spec fn upload_accepts(p: UploadPhase, e: UploadEvent) -> bool {
    match (p, e) {
        (UploadPhase::Authorizing { .. }, UploadEvent::CredentialGranted) => true,
        (UploadPhase::Authorizing { .. }, UploadEvent::CredentialDenied(_)) => true,
        (UploadPhase::Requesting { .. }, UploadEvent::RequestOpened) => true,
        (UploadPhase::Requesting { .. }, UploadEvent::RequestDenied(_)) => true,
        (UploadPhase::Streaming, UploadEvent::ChunkStreamed) => true,
        (UploadPhase::Streaming, UploadEvent::SourceDrained) => true,
        (UploadPhase::Streaming, UploadEvent::StreamFailed(_)) => true,
        (UploadPhase::Finalizing, UploadEvent::FinalizeAccepted) => true,
        (UploadPhase::Finalizing, UploadEvent::FinalizeDenied(_)) => true,
        _ => false,
    }
}

/// The transition relation of the upload worker: authorization failures
/// fail the job; a denied request-open is triaged by the classifier with
/// a single retry budget, renewing the session first when it expired;
/// any streaming failure fails the job; finalize either completes the
/// job or fails it with the remote error.
pub open spec fn upload_next(p: UploadPhase, e: UploadEvent) -> UploadPhase {
    match (p, e) {
        (UploadPhase::Authorizing { retried }, UploadEvent::CredentialGranted) => (
        UploadPhase::Requesting { retried }),
        (UploadPhase::Authorizing { .. }, UploadEvent::CredentialDenied(f)) => UploadPhase::Failed(
            f,
        ),
        (UploadPhase::Requesting { .. }, UploadEvent::RequestOpened) => UploadPhase::Streaming,
        (UploadPhase::Requesting { retried }, UploadEvent::RequestDenied(err)) => {
            match request_recovery_of(err, retried) {
                RequestRecovery::ReauthorizeAndRetry => (UploadPhase::Authorizing {
                    retried: true,
                }),
                RequestRecovery::RetryInPlace => (UploadPhase::Requesting { retried: true }),
                RequestRecovery::Fail(f) => UploadPhase::Failed(f),
            }
        },
        (UploadPhase::Streaming, UploadEvent::ChunkStreamed) => UploadPhase::Streaming,
        (UploadPhase::Streaming, UploadEvent::SourceDrained) => UploadPhase::Finalizing,
        (UploadPhase::Streaming, UploadEvent::StreamFailed(f)) => UploadPhase::Failed(f),
        (UploadPhase::Finalizing, UploadEvent::FinalizeAccepted) => UploadPhase::Done,
        (UploadPhase::Finalizing, UploadEvent::FinalizeDenied(err)) => UploadPhase::Failed(
            TransferFailure::Remote(err),
        ),
        _ => p,
    }
}

/// The phase a fresh upload job starts in.
pub open spec fn upload_start() -> UploadPhase {
    UploadPhase::Authorizing { retried: false }
}

/// Begin a new upload job.
pub fn new_upload_phase() -> (p: UploadPhase)
    ensures
        p == upload_start(),
{
    UploadPhase::Authorizing { retried: false }
}

/// Drive the upload job one step.
pub fn upload_step(p: UploadPhase, e: UploadEvent) -> (next: UploadPhase)
    requires
        upload_accepts(p, e),
    ensures
        next == upload_next(p, e),
{
    match (p, e) {
        (UploadPhase::Authorizing { retried }, UploadEvent::CredentialGranted) => (
        UploadPhase::Requesting { retried }),
        (UploadPhase::Authorizing { .. }, UploadEvent::CredentialDenied(f)) => UploadPhase::Failed(
            f,
        ),
        (UploadPhase::Requesting { .. }, UploadEvent::RequestOpened) => UploadPhase::Streaming,
        (UploadPhase::Requesting { retried }, UploadEvent::RequestDenied(err)) => {
            match crate::errors::request_recovery(&err, retried) {
                RequestRecovery::ReauthorizeAndRetry => (UploadPhase::Authorizing {
                    retried: true,
                }),
                RequestRecovery::RetryInPlace => (UploadPhase::Requesting { retried: true }),
                RequestRecovery::Fail(f) => UploadPhase::Failed(f),
            }
        },
        (UploadPhase::Streaming, UploadEvent::ChunkStreamed) => UploadPhase::Streaming,
        (UploadPhase::Streaming, UploadEvent::SourceDrained) => UploadPhase::Finalizing,
        (UploadPhase::Streaming, UploadEvent::StreamFailed(f)) => UploadPhase::Failed(f),
        (UploadPhase::Finalizing, UploadEvent::FinalizeAccepted) => UploadPhase::Done,
        (UploadPhase::Finalizing, UploadEvent::FinalizeDenied(err)) => UploadPhase::Failed(
            TransferFailure::Remote(err),
        ),
        (other, _) => other,
    }
}

/// Control measure: every accepted event other than a streamed chunk
/// strictly shrinks it, so the control loop cannot revisit a phase
/// forever; chunk steps are bounded separately, by the bytes the stream
/// still owes.
pub open spec fn upload_measure(p: UploadPhase) -> int {
    match p {
        UploadPhase::Authorizing { retried } => if retried {
            4
        } else {
            6
        },
        UploadPhase::Requesting { retried } => if retried {
            3
        } else {
            5
        },
        UploadPhase::Streaming => 2,
        UploadPhase::Finalizing => 1,
        UploadPhase::Done => 0,
        UploadPhase::Failed(_) => 0,
    }
}

/// Law (liveness of the control loop): every accepted event except a
/// streamed chunk strictly shrinks the measure; in particular the single
/// retry budget admits at most one renewal and one retried request-open
/// per job.
pub proof fn lemma_upload_control_progress(p: UploadPhase, e: UploadEvent)
    requires
        upload_accepts(p, e),
        !(e is ChunkStreamed),
    ensures
        upload_measure(upload_next(p, e)) < upload_measure(p),
{
}

} // verus!
