//! The transfer job dispatcher: builds the job list from the validated
//! command-line pairs, and aggregates one outcome per job. The spawning
//! of one worker per job, and the joining in spawn order, are done by the
//! surrounding binary; what is decided here — which jobs exist, in which
//! order, and whether the run as a whole failed — is verified.
use vstd::prelude::*;

use vstd::string::StringExecFns;

use crate::errors::TransferFailure;

verus! {

/// One requested file transfer: the unit of concurrent work and of
/// outcome reporting. Created once from parsed input, immutable,
/// consumed by exactly one worker.
#[derive(Clone, Debug, PartialEq, Eq)]
pub enum TransferJob {
    /// Send the local file to the remote key.
    Upload { local: String, remote: String },
    /// Fetch the remote key into the local file.
    Download { remote: String, local: String },
}

/// What one job ended with. Produced exactly once per job; job failures
/// never cancel sibling jobs.
#[derive(Clone, Debug, PartialEq, Eq)]
pub enum TransferOutcome {
    /// A human-readable success line.
    Success(String),
    /// A structured failure.
    Failure(TransferFailure),
}

/// Group a flat list of command-line values into (first, second) pairs,
/// keeping their order. Fails exactly when the list has odd length.
pub fn pair_values(values: &Vec<String>) -> (r: Option<Vec<(String, String)>>)
    ensures
        r is Some <==> values@.len() % 2 == 0,
        r matches Some(pairs) ==> pairs@.len() == values@.len() / 2 && forall|i: int|
            0 <= i < pairs@.len() ==> #[trigger] pairs@[i].0 == values@[2 * i] && pairs@[i].1
                == values@[2 * i + 1],
{
    if values.len() % 2 != 0 {
        return None;
    }
    let mut pairs: Vec<(String, String)> = Vec::new();
    let mut idx: usize = 0;
    while idx < values.len()
        invariant
            0 <= idx <= values@.len(),
            values@.len() % 2 == 0,
            idx % 2 == 0,
            pairs@.len() == idx / 2,
            forall|j: int|
                0 <= j < pairs@.len() ==> #[trigger] pairs@[j].0 == values@[2 * j] && pairs@[j].1
                    == values@[2 * j + 1],
        decreases values@.len() - idx,
    {
        proof {
            assert(2 * (idx as int / 2) == idx as int);
        }
        let a = values[idx].clone();
        let b = values[idx + 1].clone();
        pairs.push((a, b));
        proof {
            let jnew = pairs@.len() - 1;
            assert(pairs@[jnew].0 == values@[2 * jnew]);
            assert(pairs@[jnew].1 == values@[2 * jnew + 1]);
        }
        idx = idx + 2;
    }
    Some(pairs)
}

/// Build the job list: every requested upload, in request order, then
/// every requested download, in request order — one job per request.
pub fn build_jobs(uploads: &Vec<(String, String)>, downloads: &Vec<(String, String)>) -> (jobs: Vec<
    TransferJob,
>)
    ensures
        jobs@.len() == uploads@.len() + downloads@.len(),
        forall|i: int|
            0 <= i < uploads@.len() ==> #[trigger] jobs@[i] == (TransferJob::Upload {
                local: uploads@[i].0,
                remote: uploads@[i].1,
            }),
        forall|i: int|
            0 <= i < downloads@.len() ==> #[trigger] jobs@[uploads@.len() + i] == (
            TransferJob::Download { remote: downloads@[i].0, local: downloads@[i].1 }),
{
    let mut jobs: Vec<TransferJob> = Vec::new();
    let mut i: usize = 0;
    while i < uploads.len()
        invariant
            0 <= i <= uploads@.len(),
            jobs@.len() == i,
            forall|j: int|
                0 <= j < i ==> #[trigger] jobs@[j] == (TransferJob::Upload {
                    local: uploads@[j].0,
                    remote: uploads@[j].1,
                }),
        decreases uploads@.len() - i,
    {
        let (l, r) = (uploads[i].0.clone(), uploads[i].1.clone());
        jobs.push(TransferJob::Upload { local: l, remote: r });
        i = i + 1;
    }
    let mut k: usize = 0;
    while k < downloads.len()
        invariant
            0 <= k <= downloads@.len(),
            i == uploads@.len(),
            jobs@.len() == i + k,
            forall|j: int|
                0 <= j < i ==> #[trigger] jobs@[j] == (TransferJob::Upload {
                    local: uploads@[j].0,
                    remote: uploads@[j].1,
                }),
            forall|j: int|
                0 <= j < k ==> #[trigger] jobs@[uploads@.len() + j] == (TransferJob::Download {
                    remote: downloads@[j].0,
                    local: downloads@[j].1,
                }),
        decreases downloads@.len() - k,
    {
        let (r, l) = (downloads[k].0.clone(), downloads[k].1.clone());
        jobs.push(TransferJob::Download { remote: r, local: l });
        k = k + 1;
    }
    jobs
}

/// Whether any job failed: decides the process exit status once all
/// outcomes are collected.
pub fn any_failure(outcomes: &Vec<TransferOutcome>) -> (b: bool)
    ensures
        b == exists|i: int| 0 <= i < outcomes@.len() && (#[trigger] outcomes@[i]) is Failure,
{
    let mut i: usize = 0;
    while i < outcomes.len()
        invariant
            0 <= i <= outcomes@.len(),
            forall|j: int| 0 <= j < i ==> !((#[trigger] outcomes@[j]) is Failure),
        decreases outcomes@.len() - i,
    {
        if let TransferOutcome::Failure(_) = &outcomes[i] {
            return true;
        }
        i = i + 1;
    }
    false
}

/// The success line of a finished upload: names the stored file, its
/// remote identifier, and the constructed download URL — base endpoint,
/// bucket name and remote key.
pub fn upload_success_message(
    file_name: &str,
    file_id: &str,
    download_url: &str,
    bucket_name: &str,
    remote_key: &str,
) -> (m: String)
    ensures
        m@ == "file "@ + file_name@ + " uploaded, id: "@ + file_id@ + "\ndownload url: "@
            + download_url@ + "/file/"@ + bucket_name@ + "/"@ + remote_key@,
{
    let mut m = String::from_str("file ");
    m.append(file_name);
    m.append(" uploaded, id: ");
    m.append(file_id);
    m.append("\ndownload url: ");
    m.append(download_url);
    m.append("/file/");
    m.append(bucket_name);
    m.append("/");
    m.append(remote_key);
    m
}

/// The success line of a finished download: names the remote key.
pub fn download_success_message(remote_key: &str) -> (m: String)
    ensures
        m@ == "file "@ + remote_key@ + " downloaded"@,
{
    let mut m = String::from_str("file ");
    m.append(remote_key);
    m.append(" downloaded");
    m
}

} // verus!
