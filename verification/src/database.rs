//! The incremental digests database.
//!
//! [`LsDigestsGroup`] is the group of capabilities a digests database offers:
//! interning of [`Digestible`] identities into cheap [`DigestId`] handles,
//! a memoized digest query, dependency recording, and the read marks
//! (synthetic and untracked) that tell the incremental engine how durable a
//! cached result is.  [`LsDigestsDatabase`] is the verified in-memory
//! implementation of that group.
//!
//! File contents never enter this module directly: the caller performs the
//! read and hands over a [`FileReadOutcome`], so every function here is
//! verified for every possible outcome of the read.

use vstd::prelude::*;

use crate::digest::{Digest, DigestKind, FileReadOutcome, NonceSource, spec_digest_of_read};
use crate::paths::{Digestible, is_trackable_path, spec_file_name};

verus! {

/// A handle standing for one interned [`Digestible`] for the lifetime of the
/// database that issued it.  Handles are plain comparable values; the handle
/// of an identity is its position in the interning order.
#[derive(Copy, Clone, Debug, Eq, PartialEq, Hash, Structural)]
pub struct DigestId(pub usize);

/// Whether a memo entry's nonce, if it is an I/O-error digest, lies below
/// `bound` — the nonce the next error digest would draw.
pub open spec fn io_nonce_bounded(entry: Option<Digest>, bound: usize) -> bool {
    match entry {
        Some(d) => match d.0 {
            DigestKind::IoError(n) => n < bound,
            _ => true,
        },
        None => true,
    }
}

/// Well-formedness of a digests database, over its interned identities, its
/// memo table and its next nonce: one memo slot per interned identity;
/// interned identities pairwise distinct, so each identity has exactly one
/// handle; and every memoized I/O-error nonce below the next one to be
/// drawn, so a fresh error digest differs from everything on record.
pub open spec fn db_wf(
    identities: Seq<Seq<char>>,
    memo: Seq<Option<Digest>>,
    next_nonce: usize,
) -> bool {
    &&& memo.len() == identities.len()
    &&& forall|j: int, k: int|
        0 <= j < k < identities.len() ==> identities[j] != identities[k]
    &&& forall|j: int| 0 <= j < memo.len() ==> io_nonce_bounded(memo[j], next_nonce)
}

/// A group of queries for tracking [`Digest`]s of files.
pub trait LsDigestsGroup: Sized {
    /// The paths of the identities interned so far, in interning order.
    spec fn identities(&self) -> Seq<Seq<char>>;

    /// The memoized digest per handle; `None` where no digest has been
    /// computed yet or the last one was invalidated.
    spec fn memo(&self) -> Seq<Option<Digest>>;

    /// The digest dependency edges recorded for the current query.
    spec fn deps(&self) -> Seq<DigestId>;

    /// Whether the current query took a synthetic, low-durability read.
    spec fn synthetic_read(&self) -> bool;

    /// Whether the current query took an untracked read.
    spec fn untracked_read(&self) -> bool;

    /// The nonce the next I/O-error digest will carry.
    spec fn next_nonce(&self) -> usize;

    /// Interns an identity: an identity seen before keeps its handle, a new
    /// one is appended and gets the next free handle.
    fn intern_digest(&mut self, path: Digestible) -> (id: DigestId)
        requires
            db_wf(old(self).identities(), old(self).memo(), old(self).next_nonce()),
        ensures
            db_wf(final(self).identities(), final(self).memo(), final(self).next_nonce()),
            id.0 < final(self).identities().len(),
            final(self).identities()[id.0 as int] == path@,
            old(self).identities().contains(path@) ==> {
                &&& final(self).identities() == old(self).identities()
                &&& final(self).memo() == old(self).memo()
            },
            !old(self).identities().contains(path@) ==> {
                &&& final(self).identities() == old(self).identities().push(path@)
                &&& final(self).memo() == old(self).memo().push(None::<Digest>)
                &&& id.0 == old(self).identities().len()
            },
            final(self).deps() == old(self).deps(),
            final(self).synthetic_read() == old(self).synthetic_read(),
            final(self).untracked_read() == old(self).untracked_read(),
            final(self).next_nonce() == old(self).next_nonce(),
    ;

    /// Returns the identity a handle was issued for.  The handle must have
    /// originated from this database.
    fn lookup_intern_digest(&self, id: DigestId) -> (d: Digestible)
        requires
            db_wf(self.identities(), self.memo(), self.next_nonce()),
            id.0 < self.identities().len(),
        ensures
            d@ == self.identities()[id.0 as int],
    ;

    /// Compute digest of a digestible file.
    ///
    /// The query is memoized: a digest still on record for the handle is
    /// returned as is, otherwise the given read outcome is classified and
    /// recorded.  Every invocation records a dependency edge on the handle
    /// and marks the current query as having taken a synthetic,
    /// low-durability read.
    fn digest(&mut self, digest: DigestId, read: &FileReadOutcome) -> (r: Digest)
        requires
            db_wf(old(self).identities(), old(self).memo(), old(self).next_nonce()),
            digest.0 < old(self).identities().len(),
            old(self).next_nonce() < usize::MAX,
        ensures
            db_wf(final(self).identities(), final(self).memo(), final(self).next_nonce()),
            final(self).identities() == old(self).identities(),
            final(self).deps() == old(self).deps().push(digest),
            final(self).synthetic_read(),
            final(self).untracked_read() == old(self).untracked_read(),
            final(self).memo()[digest.0 as int] == Some(r),
            old(self).memo()[digest.0 as int] matches Some(d) ==> {
                &&& r == d
                &&& final(self).memo() == old(self).memo()
                &&& final(self).next_nonce() == old(self).next_nonce()
            },
            old(self).memo()[digest.0 as int] is None ==> {
                &&& r == spec_digest_of_read(*read, old(self).next_nonce())
                &&& final(self).memo() == old(self).memo().update(
                    digest.0 as int,
                    Some(r),
                )
                &&& (*read matches FileReadOutcome::OtherError ==> final(self).next_nonce()
                    == old(self).next_nonce() + 1)
                &&& (!(*read matches FileReadOutcome::OtherError) ==> final(self).next_nonce()
                    == old(self).next_nonce())
            },
            old(self).next_nonce() <= final(self).next_nonce() <= old(self).next_nonce() + 1,
    ;

    /// Drops the memoized digest for a handle, forcing recomputation on the
    /// next digest query.
    fn invalidate(&mut self, digest: DigestId)
        requires
            db_wf(old(self).identities(), old(self).memo(), old(self).next_nonce()),
            digest.0 < old(self).identities().len(),
        ensures
            db_wf(final(self).identities(), final(self).memo(), final(self).next_nonce()),
            final(self).identities() == old(self).identities(),
            final(self).memo() == old(self).memo().update(digest.0 as int, None::<Digest>),
            final(self).deps() == old(self).deps(),
            final(self).synthetic_read() == old(self).synthetic_read(),
            final(self).untracked_read() == old(self).untracked_read(),
            final(self).next_nonce() == old(self).next_nonce(),
    ;

    /// Marks the current query as having taken a synthetic, low-durability
    /// read: its result is filesystem-volatile and must not be trusted as a
    /// long-lived cache entry.
    fn report_synthetic_read(&mut self)
        requires
            db_wf(old(self).identities(), old(self).memo(), old(self).next_nonce()),
        ensures
            db_wf(final(self).identities(), final(self).memo(), final(self).next_nonce()),
            final(self).synthetic_read(),
            final(self).identities() == old(self).identities(),
            final(self).memo() == old(self).memo(),
            final(self).deps() == old(self).deps(),
            final(self).untracked_read() == old(self).untracked_read(),
            final(self).next_nonce() == old(self).next_nonce(),
    ;

    /// Marks the current query as having taken an untracked read: its result
    /// must not be memoized even though no tracked dependency changed.
    fn report_untracked_read(&mut self)
        requires
            db_wf(old(self).identities(), old(self).memo(), old(self).next_nonce()),
        ensures
            db_wf(final(self).identities(), final(self).memo(), final(self).next_nonce()),
            final(self).untracked_read(),
            final(self).identities() == old(self).identities(),
            final(self).memo() == old(self).memo(),
            final(self).deps() == old(self).deps(),
            final(self).synthetic_read() == old(self).synthetic_read(),
            final(self).next_nonce() == old(self).next_nonce(),
    ;

    /// Marks the start of one query evaluation: clears the dependency edges
    /// and the read marks left by the previous evaluation.  Interned
    /// identities and memoized digests persist.
    fn begin_query(&mut self)
        requires
            db_wf(old(self).identities(), old(self).memo(), old(self).next_nonce()),
        ensures
            db_wf(final(self).identities(), final(self).memo(), final(self).next_nonce()),
            final(self).identities() == old(self).identities(),
            final(self).memo() == old(self).memo(),
            final(self).deps() == Seq::<DigestId>::empty(),
            !final(self).synthetic_read(),
            !final(self).untracked_read(),
            final(self).next_nonce() == old(self).next_nonce(),
    ;
}

/// The verified in-memory digests database: an arena-style interning table
/// whose indices are the handles, a memo table aligned with it, and the
/// per-query dependency edges and read marks.
pub struct LsDigestsDatabase {
    ids: Vec<Digestible>,
    memos: Vec<Option<Digest>>,
    dep_edges: Vec<DigestId>,
    synth: bool,
    untracked: bool,
    nonces: NonceSource,
}

impl LsDigestsDatabase {
    /// An empty database: nothing interned, nothing memoized, no marks.
    pub fn new() -> (r: Self)
        ensures
            db_wf(r.identities(), r.memo(), r.next_nonce()),
            r.identities() == Seq::<Seq<char>>::empty(),
            r.memo() == Seq::<Option<Digest>>::empty(),
            r.deps() == Seq::<DigestId>::empty(),
            !r.synthetic_read(),
            !r.untracked_read(),
            r.next_nonce() == 0,
    {
        let r = LsDigestsDatabase {
            ids: Vec::new(),
            memos: Vec::new(),
            dep_edges: Vec::new(),
            synth: false,
            untracked: false,
            nonces: NonceSource::new(),
        };
        proof {
            assert(r.identities() =~= Seq::<Seq<char>>::empty());
        }
        r
    }

    /// How many identities have been interned so far.
    pub fn interned_len(&self) -> (n: usize)
        ensures
            n == self.identities().len(),
    {
        self.ids.len()
    }

    /// How many dependency edges the current query has recorded.
    pub fn dep_edges_len(&self) -> (n: usize)
        ensures
            n == self.deps().len(),
    {
        self.dep_edges.len()
    }

    /// Introspection: whether the current query took a synthetic,
    /// low-durability read.
    pub fn took_synthetic_read(&self) -> (r: bool)
        ensures
            r == self.synthetic_read(),
    {
        self.synth
    }

    /// Introspection: whether the current query took an untracked read.
    pub fn took_untracked_read(&self) -> (r: bool)
        ensures
            r == self.untracked_read(),
    {
        self.untracked
    }
}

impl LsDigestsGroup for LsDigestsDatabase {
    closed spec fn identities(&self) -> Seq<Seq<char>> {
        self.ids@.map(|i: int, d: Digestible| d@)
    }

    closed spec fn memo(&self) -> Seq<Option<Digest>> {
        self.memos@
    }

    closed spec fn deps(&self) -> Seq<DigestId> {
        self.dep_edges@
    }

    closed spec fn synthetic_read(&self) -> bool {
        self.synth
    }

    closed spec fn untracked_read(&self) -> bool {
        self.untracked
    }

    closed spec fn next_nonce(&self) -> usize {
        self.nonces.next_nonce()
    }

    fn intern_digest(&mut self, path: Digestible) -> (id: DigestId) {
        let n = self.ids.len();
        let mut i: usize = 0;
        while i < n
            invariant
                *self == *old(self),
                db_wf(old(self).identities(), old(self).memo(), old(self).next_nonce()),
                n == self.ids.len(),
                i <= n,
                forall|k: int| 0 <= k < i ==> self.identities()[k] != path@,
            decreases n - i,
        {
            proof {
                assert(self.identities()[i as int] == self.ids@[i as int]@);
            }
            if self.ids[i] == path {
                proof {
                    assert(self.identities().contains(path@));
                }
                return DigestId(i);
            }
            i = i + 1;
        }
        proof {
            assert forall|k: int| 0 <= k < self.identities().len() implies self.identities()[k]
                != path@ by {}
            assert(!self.identities().contains(path@));
        }
        self.ids.push(path);
        self.memos.push(None);
        proof {
            assert(self.identities() =~= old(self).identities().push(self.ids@[n as int]@));
        }
        DigestId(n)
    }

    fn lookup_intern_digest(&self, id: DigestId) -> (d: Digestible) {
        proof {
            assert(self.identities()[id.0 as int] == self.ids@[id.0 as int]@);
        }
        self.ids[id.0].clone()
    }

    fn digest(&mut self, digest: DigestId, read: &FileReadOutcome) -> (r: Digest) {
        self.synth = true;
        self.dep_edges.push(digest);
        match self.memos[digest.0] {
            Some(d) => {
                proof {
                    assert(self.memo() =~= old(self).memo());
                }
                d
            },
            None => {
                let d = crate::digest::digest_of_read(read, &mut self.nonces);
                self.memos[digest.0] = Some(d);
                d
            },
        }
    }

    fn invalidate(&mut self, digest: DigestId) {
        self.memos[digest.0] = None;
    }

    fn report_synthetic_read(&mut self) {
        self.synth = true;
    }

    fn report_untracked_read(&mut self) {
        self.untracked = true;
    }

    fn begin_query(&mut self) {
        self.dep_edges = Vec::new();
        self.synth = false;
        self.untracked = false;
    }
}

/// Tell the database that executing the current query depends on reading the
/// contents of the given file, whose read outcome the caller supplies.
///
/// The file path is expected to be digestible; for any other path the
/// database is left untouched and the caller is expected to log the misuse.
pub fn report_digest_dependency<D: LsDigestsGroup>(
    db: &mut D,
    path: &str,
    read: &FileReadOutcome,
)
    requires
        db_wf(old(db).identities(), old(db).memo(), old(db).next_nonce()),
        old(db).next_nonce() < usize::MAX,
    ensures
        db_wf(final(db).identities(), final(db).memo(), final(db).next_nonce()),
        !is_trackable_path(path@) ==> *final(db) == *old(db),
        is_trackable_path(path@) ==> {
            &&& final(db).synthetic_read()
            &&& exists|id: DigestId|
                {
                    &&& final(db).deps() == old(db).deps().push(id)
                    &&& id.0 < final(db).identities().len()
                    &&& final(db).memo()[id.0 as int] is Some
                    &&& spec_file_name(final(db).identities()[id.0 as int]) == spec_file_name(
                        path@,
                    )
                }
        },
        final(db).untracked_read() == old(db).untracked_read(),
        old(db).next_nonce() <= final(db).next_nonce() <= old(db).next_nonce() + 1,
{
    let digestible = match Digestible::try_new(path) {
        Some(digestible) => digestible,
        None => {
            return;
        },
    };
    let id = db.intern_digest(digestible);
    db.digest(id, read);
}

/// Invalidates the digest of the given digestible file, forcing the database
/// to recompute it on the next query computation.
pub fn invalidate_digest<D: LsDigestsGroup>(db: &mut D, digest: DigestId)
    requires
        db_wf(old(db).identities(), old(db).memo(), old(db).next_nonce()),
        digest.0 < old(db).identities().len(),
    ensures
        db_wf(final(db).identities(), final(db).memo(), final(db).next_nonce()),
        final(db).identities() == old(db).identities(),
        final(db).memo() == old(db).memo().update(digest.0 as int, None::<Digest>),
        final(db).deps() == old(db).deps(),
        final(db).synthetic_read() == old(db).synthetic_read(),
        final(db).untracked_read() == old(db).untracked_read(),
        final(db).next_nonce() == old(db).next_nonce(),
{
    db.invalidate(digest);
}

/// Law: in a well-formed database, every digest on record differs from the
/// I/O-error digest the next error read would produce: memoized error
/// digests carry nonces drawn earlier, all below the next one.  With the
/// digest query's contract (a recomputed error digest carries exactly the
/// next nonce) this makes every I/O-error digest unequal to every other
/// digest the database ever held.
pub proof fn lemma_io_error_digest_fresh<D: LsDigestsGroup>(db: &D, j: int, d: Digest)
    requires
        db_wf(db.identities(), db.memo(), db.next_nonce()),
        0 <= j < db.memo().len(),
        db.memo()[j] == Some(d),
    ensures
        d != Digest(DigestKind::IoError(db.next_nonce())),
{
    assert(io_nonce_bounded(db.memo()[j], db.next_nonce()));
}

/// Law: within one well-formed database, handles and identities correspond
/// one to one — two valid handles name the same identity exactly when they
/// are the same handle.  With the interning contract this makes interning
/// idempotent: equal identities always yield equal handles, distinct
/// identities distinct handles.
pub proof fn lemma_intern_handles_unique<D: LsDigestsGroup>(db: &D, id1: DigestId, id2: DigestId)
    requires
        db_wf(db.identities(), db.memo(), db.next_nonce()),
        id1.0 < db.identities().len(),
        id2.0 < db.identities().len(),
    ensures
        db.identities()[id1.0 as int] == db.identities()[id2.0 as int] <==> id1 == id2,
{
}

} // verus!
