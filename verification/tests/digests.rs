//! Tests for the digest subsystem: identities, interning, digests and the
//! dependency-reporting protocol.

use project_digests::database::{
    invalidate_digest, report_digest_dependency, LsDigestsDatabase, LsDigestsGroup,
};
use project_digests::digest::{digest_of_read, Digest, DigestKind, FileReadOutcome, NonceSource};
use project_digests::paths::Digestible;

#[test]
fn try_new_accepts_allowlisted_names() {
    for path in [
        "cairo_project.toml",
        "Scarb.toml",
        "Scarb.lock",
        "/tmp/proj/cairo_project.toml",
        "rel/dir/Scarb.lock",
        "./Scarb.toml",
        "/deeply/nested/dir/Scarb.toml",
        "x/Scarb.toml/",
        "proj/cairo_project.toml/.",
        "Scarb.lock//",
        "/x/Scarb.toml/.//",
    ] {
        assert!(Digestible::try_new(path).is_some(), "expected Some for {path}");
    }
}

#[test]
fn try_new_rejects_other_names() {
    for path in [
        "",
        "foo.toml",
        "cairo_project.tom",
        "scarb.toml",
        "Scarb.Lock",
        "Scarb.toml/..",
        ".",
        "..",
        "/",
        "a/b/",
        "Scarb.lock.bak",
        "cairo_project",
        "/tmp/other.toml",
        "/tmp/cairo_project.toml.old",
    ] {
        assert!(Digestible::try_new(path).is_none(), "expected None for {path}");
    }
}

#[test]
fn identity_path_is_absolutized_best_effort() {
    let relative = Digestible::try_new("cairo_project.toml").unwrap();
    assert!(relative.path().starts_with('/'));
    assert!(relative.path().ends_with("cairo_project.toml"));

    let absolute = Digestible::try_new("/x/y/Scarb.toml").unwrap();
    assert!(absolute.path().starts_with('/'));
    assert!(absolute.path().ends_with("Scarb.toml"));
}

#[test]
fn equal_paths_give_equal_identities() {
    let a = Digestible::try_new("/x/y/Scarb.toml").unwrap();
    let b = Digestible::try_new("/x/y/Scarb.toml").unwrap();
    assert_eq!(a, b);
    let c = Digestible::try_new("/x/z/Scarb.toml").unwrap();
    assert_ne!(a, c);
}

#[test]
fn digest_constructors_compare_structurally() {
    assert_eq!(Digest::ok(5), Digest::ok(5));
    assert_ne!(Digest::ok(5), Digest::ok(6));
    assert_eq!(Digest::file_not_found(), Digest::file_not_found());
    assert_ne!(Digest::ok(5), Digest::file_not_found());
}

#[test]
fn digest_deterministic_for_identical_bytes() {
    let mut nonces = NonceSource::new();
    let d1 = digest_of_read(&FileReadOutcome::Content(b"hello manifest".to_vec()), &mut nonces);
    let d2 = digest_of_read(&FileReadOutcome::Content(b"hello manifest".to_vec()), &mut nonces);
    assert_eq!(d1, d2);
    assert!(matches!(d1, Digest(DigestKind::Hash(_))));
}

#[test]
fn digest_differs_for_distinct_content() {
    let mut nonces = NonceSource::new();
    let fixtures: Vec<&[u8]> = vec![b"", b"a", b"b", b"ab", b"[crate_roots]\na = \"./a\"\n"];
    let digests: Vec<Digest> = fixtures
        .iter()
        .map(|bytes| digest_of_read(&FileReadOutcome::Content(bytes.to_vec()), &mut nonces))
        .collect();
    for i in 0..digests.len() {
        for j in 0..digests.len() {
            if i != j {
                assert_ne!(digests[i], digests[j]);
            }
        }
    }
}

#[test]
fn io_error_digests_pairwise_distinct() {
    let mut nonces = NonceSource::new();
    let mut digests: Vec<Digest> = Vec::new();
    for _ in 0..5 {
        digests.push(digest_of_read(&FileReadOutcome::OtherError, &mut nonces));
    }
    digests.push(digest_of_read(&FileReadOutcome::NotFound, &mut nonces));
    digests.push(digest_of_read(&FileReadOutcome::Content(b"content".to_vec()), &mut nonces));
    digests.push(Digest::ok(0));
    for i in 0..digests.len() {
        for j in 0..digests.len() {
            if i != j {
                assert_ne!(digests[i], digests[j]);
            }
        }
    }
}

#[test]
fn intern_is_idempotent() {
    let mut db = LsDigestsDatabase::new();
    let a1 = Digestible::try_new("/proj/cairo_project.toml").unwrap();
    let a2 = Digestible::try_new("/proj/cairo_project.toml").unwrap();
    let id1 = db.intern_digest(a1);
    let id2 = db.intern_digest(a2);
    assert_eq!(id1, id2);
    assert_eq!(db.interned_len(), 1);
}

#[test]
fn intern_distinguishes_identities() {
    let mut db = LsDigestsDatabase::new();
    let a = Digestible::try_new("/proj/cairo_project.toml").unwrap();
    let b = Digestible::try_new("/proj/Scarb.toml").unwrap();
    let id_a = db.intern_digest(a);
    let id_b = db.intern_digest(b);
    assert_ne!(id_a, id_b);
    assert_eq!(db.interned_len(), 2);
}

#[test]
fn lookup_returns_interned_identity() {
    let mut db = LsDigestsDatabase::new();
    let a = Digestible::try_new("/proj/Scarb.lock").unwrap();
    let id = db.intern_digest(a.clone());
    let back = db.lookup_intern_digest(id);
    assert_eq!(back, a);
}

#[test]
fn digest_query_memoizes_until_invalidated() {
    let mut db = LsDigestsDatabase::new();
    let id = db.intern_digest(Digestible::try_new("/proj/cairo_project.toml").unwrap());

    let d1 = db.digest(id, &FileReadOutcome::Content(b"first".to_vec()));
    // A memoized digest is returned even though the file now reads differently.
    let cached = db.digest(id, &FileReadOutcome::Content(b"second".to_vec()));
    assert_eq!(d1, cached);

    invalidate_digest(&mut db, id);
    let d2 = db.digest(id, &FileReadOutcome::Content(b"second".to_vec()));
    assert_ne!(d1, d2);

    invalidate_digest(&mut db, id);
    let d3 = db.digest(id, &FileReadOutcome::NotFound);
    assert_eq!(d3, Digest::file_not_found());
    assert_ne!(d3, d1);
}

#[test]
fn report_dependency_on_rejected_path_no_ops() {
    let mut db = LsDigestsDatabase::new();
    report_digest_dependency(&mut db, "/tmp/readme.md", &FileReadOutcome::NotFound);
    assert_eq!(db.interned_len(), 0);
    assert_eq!(db.dep_edges_len(), 0);
    assert!(!db.took_synthetic_read());
    assert!(!db.took_untracked_read());
}

#[test]
fn report_dependency_records_edge_and_synthetic_read() {
    let mut db = LsDigestsDatabase::new();
    report_digest_dependency(
        &mut db,
        "/proj/Scarb.toml",
        &FileReadOutcome::Content(b"[package]".to_vec()),
    );
    assert_eq!(db.interned_len(), 1);
    assert_eq!(db.dep_edges_len(), 1);
    assert!(db.took_synthetic_read());
    assert!(!db.took_untracked_read());
}

#[test]
fn begin_query_clears_marks_but_keeps_state() {
    let mut db = LsDigestsDatabase::new();
    report_digest_dependency(
        &mut db,
        "/proj/Scarb.toml",
        &FileReadOutcome::OtherError,
    );
    db.report_untracked_read();
    assert!(db.took_synthetic_read());
    assert!(db.took_untracked_read());

    db.begin_query();
    assert!(!db.took_synthetic_read());
    assert!(!db.took_untracked_read());
    assert_eq!(db.dep_edges_len(), 0);
    assert_eq!(db.interned_len(), 1);
}

#[test]
fn digest_hash_agrees_with_xxh3_of_content() {
    let bytes = b"[crate_roots]\na = \"./a\"\n";
    let mut nonces = NonceSource::new();
    let d = digest_of_read(&FileReadOutcome::Content(bytes.to_vec()), &mut nonces);
    assert_eq!(d, Digest::ok(xxhash_rust::xxh3::xxh3_64(bytes)));
}
