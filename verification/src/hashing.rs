//! Incremental content hashing for uploads. The upload worker feeds each
//! chunk into a running SHA-1 state in the exact order the bytes are read,
//! and submits the hex digest once streaming completes; the hashing itself
//! is done by the `sha1` crate behind the trusted items below.
use vstd::prelude::*;

verus! {

#[verifier::external_type_specification]
#[verifier::external_body]
pub struct ExSha1(sha1::Sha1);

/// The byte sequence a hasher has absorbed so far, in absorption order.
pub uninterp spec fn sha1_fed(h: sha1::Sha1) -> Seq<u8>;

/// The lowercase hex digest that SHA-1 assigns to a byte sequence. The
/// digest is a function of the bytes alone; its value is not stated here,
/// only used by name.
pub uninterp spec fn sha1_hex_of(bytes: Seq<u8>) -> Seq<char>;

/// Relies on sha1::Sha1::new: a fresh hasher has absorbed no bytes.
#[verifier::external_body]
pub(crate) fn sha1_start() -> (h: sha1::Sha1)
    ensures
        sha1_fed(h) == Seq::<u8>::empty(),
{
    sha1::Sha1::new()
}

/// Relies on sha1::Sha1::update: the given bytes are absorbed after, and
/// in addition to, everything absorbed before.
#[verifier::external_body]
pub(crate) fn sha1_absorb(h: &mut sha1::Sha1, chunk: &[u8])
    ensures
        sha1_fed(*final(h)) == sha1_fed(*old(h)) + chunk@,
{
    h.update(chunk)
}

/// Relies on sha1::Sha1::digest and the hex rendering of sha1::Digest:
/// forty lowercase hex characters, determined by the absorbed bytes alone;
/// the hasher itself is left as it was.
#[verifier::external_body]
pub(crate) fn sha1_hex_digest(h: &sha1::Sha1) -> (d: String)
    ensures
        d@ == sha1_hex_of(sha1_fed(*h)),
        d@.len() == 40,
{
    format!("{}", h.digest())
}

} // verus!
