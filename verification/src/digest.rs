//! Digests of project-relevant files.
//!
//! A [`Digest`] is a tri-state fingerprint of one file at one point in logical
//! time: the file existed and had a particular content hash, the file did not
//! exist, or reading the file failed with an I/O error.  Digests are pure data
//! (copy, compare, hash); by being stored and compared by the incremental
//! database they act as a cache-busting token when the contents of relevant
//! files change.

use vstd::prelude::*;

verus! {

/// The 64-bit content hash of a byte string, as computed by the XXH3 hash
/// function.  The hash is a pure function of the bytes alone, stable across
/// processes and platforms.
pub uninterp spec fn xxh3_64_of(bytes: Seq<u8>) -> u64;

/// Relies on xxhash_rust::xxh3::xxh3_64: a 64-bit hash computed from the
/// input bytes alone (default secret, seed 0), stable across runs and
/// platforms.
#[verifier::external_body]
fn content_hash(bytes: &[u8]) -> (r: u64)
    ensures
        r == xxh3_64_of(bytes@),
{
    xxhash_rust::xxh3::xxh3_64(bytes)
}

/// The three states a digest can carry.
#[derive(Copy, Clone, Debug, Eq, PartialEq, Hash, Structural)]
pub enum DigestKind {
    /// The file existed and its full content hashed to this value.
    Hash(u64),
    /// The file did not exist.
    FileNotFound,
    /// Reading the file failed with an I/O error other than "not found".
    /// The payload is a nonce drawn from a [`NonceSource`]; a fresh nonce per
    /// occurrence makes every such digest unequal to every other digest.
    IoError(usize),
}

/// An opaque object carrying digests of files.
///
/// Digests carry internally one of three state kinds:
/// 1. File exists and has specific content hash.
/// 2. File does not exist.
/// 3. Some I/O error occurs when trying to read the file, each error
///    occurrence yields a new digest instance.
#[derive(Copy, Clone, Debug, Eq, PartialEq, Hash, Structural)]
pub struct Digest(pub DigestKind);

/// A source of pairwise-distinct nonces: a monotonically increasing counter.
///
/// One source is expected per database/session; every I/O-error digest draws
/// its nonce from it, so all nonces ever issued by one source are distinct.
pub struct NonceSource {
    next: usize,
}

impl NonceSource {
    /// The value the next call to [`NonceSource::fresh`] will return.
    /// Every nonce issued so far is strictly below it.
    pub closed spec fn next_nonce(&self) -> usize {
        self.next
    }

    /// A fresh source; no nonce has been issued yet.
    pub fn new() -> (r: Self)
        ensures
            r.next_nonce() == 0,
    {
        NonceSource { next: 0 }
    }

    /// Issues a nonce never issued by this source before and never to be
    /// issued again.
    pub fn fresh(&mut self) -> (r: usize)
        requires
            old(self).next_nonce() < usize::MAX,
        ensures
            r == old(self).next_nonce(),
            final(self).next_nonce() == old(self).next_nonce() + 1,
    {
        let r = self.next;
        self.next = self.next + 1;
        r
    }
}

impl Digest {
    /// Digest of a file that existed and hashed to `hash`.
    pub fn ok(hash: u64) -> (r: Self)
        ensures
            r == Digest(DigestKind::Hash(hash)),
    {
        Digest(DigestKind::Hash(hash))
    }

    /// Digest of a file that did not exist.
    pub fn file_not_found() -> (r: Self)
        ensures
            r == Digest(DigestKind::FileNotFound),
    {
        Digest(DigestKind::FileNotFound)
    }

    /// Digest of one I/O-error occurrence.  Draws a fresh nonce, so the
    /// result differs from every digest previously built from `nonces` and
    /// from every digest of the other two kinds.
    pub fn io_error(nonces: &mut NonceSource) -> (r: Self)
        requires
            old(nonces).next_nonce() < usize::MAX,
        ensures
            r == Digest(DigestKind::IoError(old(nonces).next_nonce())),
            final(nonces).next_nonce() == old(nonces).next_nonce() + 1,
    {
        let count = nonces.fresh();
        Digest(DigestKind::IoError(count))
    }
}

/// The outcome of one attempt, made by the caller, to read a file's full
/// byte content.
pub enum FileReadOutcome {
    /// The file existed; these are its bytes.
    Content(Vec<u8>),
    /// The file did not exist.
    NotFound,
    /// Reading failed with some other I/O error.
    OtherError,
}

/// The digest a read outcome classifies to, given the nonce the I/O-error
/// branch would draw.
pub open spec fn spec_digest_of_read(read: FileReadOutcome, nonce: usize) -> Digest {
    match read {
        FileReadOutcome::Content(bytes) => Digest(DigestKind::Hash(xxh3_64_of(bytes@))),
        FileReadOutcome::NotFound => Digest(DigestKind::FileNotFound),
        FileReadOutcome::OtherError => Digest(DigestKind::IoError(nonce)),
    }
}

/// Classifies a read outcome into a digest: content hashes to `Ok`, absence
/// to `FileNotFound`, any other I/O error to a fresh `IoError`.
///
/// Deterministic for identical bytes: two successful reads of byte-identical
/// content always classify to the same digest.
pub fn digest_of_read(read: &FileReadOutcome, nonces: &mut NonceSource) -> (r: Digest)
    requires
        old(nonces).next_nonce() < usize::MAX,
    ensures
        r == spec_digest_of_read(*read, old(nonces).next_nonce()),
        *read matches FileReadOutcome::OtherError ==> final(nonces).next_nonce()
            == old(nonces).next_nonce() + 1,
        !(*read matches FileReadOutcome::OtherError) ==> final(nonces).next_nonce()
            == old(nonces).next_nonce(),
{
    match read {
        FileReadOutcome::Content(bytes) => Digest::ok(content_hash(bytes.as_slice())),
        FileReadOutcome::NotFound => Digest::file_not_found(),
        FileReadOutcome::OtherError => Digest::io_error(nonces),
    }
}

/// Law: digest computation is deterministic for identical bytes — two reads
/// that observed the same content classify to equal `Ok` digests, whatever
/// nonces the error branches would have drawn.
pub proof fn lemma_digest_deterministic(v1: Vec<u8>, v2: Vec<u8>, n1: usize, n2: usize)
    requires
        v1@ == v2@,
    ensures
        spec_digest_of_read(FileReadOutcome::Content(v1), n1)
            == spec_digest_of_read(FileReadOutcome::Content(v2), n2),
{
}

/// Law: an I/O-error digest is unequal to every digest that is not an
/// I/O-error digest with the very same nonce.  Together with the freshness of
/// nonces this makes every I/O-error digest unequal to every other digest
/// ever produced in the same session.
pub proof fn lemma_io_error_digest_distinct(n: usize, d: Digest)
    requires
        !(d matches Digest(DigestKind::IoError(m)) && m == n),
    ensures
        d != Digest(DigestKind::IoError(n)),
{
}

/// Law: two `Ok` digests are equal exactly when their content hashes are
/// equal, so an unchanged hash is what "nothing to redo" means.
pub proof fn lemma_ok_digest_eq(h1: u64, h2: u64)
    ensures
        (Digest(DigestKind::Hash(h1)) == Digest(DigestKind::Hash(h2))) <==> h1 == h2,
{
}

} // verus!
