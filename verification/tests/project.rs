//! Tests for manifest-driven crate resolution.

use project_digests::cairo_project::{
    project_crates, AllCratesConfig, CrateSettings, ExperimentalFeaturesConfig,
    ProjectConfigContent, ProjectConfigOutcome,
};
use project_digests::database::{invalidate_digest, LsDigestsDatabase, LsDigestsGroup};
use project_digests::digest::{Digest, DigestKind, FileReadOutcome, NonceSource};
use project_digests::paths::Digestible;

fn settings(edition: &str) -> CrateSettings {
    CrateSettings {
        name: None,
        edition: edition.to_string(),
        version: None,
        cfg_set: None,
        dependencies: Vec::new(),
        experimental_features: ExperimentalFeaturesConfig {
            negative_impls: false,
            associated_item_constraints: false,
            coupons: false,
            user_defined_inline_macros: false,
            repr_ptrs: false,
        },
    }
}

fn manifest(roots: &[(&str, &str)], overrides: Vec<(&str, CrateSettings)>) -> ProjectConfigContent {
    ProjectConfigContent {
        crate_roots: roots.iter().map(|(n, r)| (n.to_string(), r.to_string())).collect(),
        crates_config: AllCratesConfig {
            global: CrateSettings::new_default(),
            override_map: overrides.into_iter().map(|(n, s)| (n.to_string(), s)).collect(),
        },
    }
}

#[test]
fn resolve_two_crates_with_default_settings() {
    let mut db = LsDigestsDatabase::new();
    let content = manifest(&[("a", "./a"), ("b", "./b")], Vec::new());
    let crates = project_crates(
        &mut db,
        "/proj/cairo_project.toml",
        &FileReadOutcome::Content(b"[crate_roots]".to_vec()),
        &ProjectConfigOutcome::Parsed(content),
    );
    assert_eq!(crates.len(), 2);
    assert_eq!(crates[0].name, "a");
    assert_eq!(crates[0].root, "/proj/./a");
    assert_eq!(crates[0].custom_main_file_stem, None);
    assert_eq!(crates[0].settings, CrateSettings::new_default());
    assert_eq!(crates[1].name, "b");
    assert_eq!(crates[1].root, "/proj/./b");
    assert_eq!(crates[1].settings, CrateSettings::new_default());

    assert!(db.took_synthetic_read());
    assert!(!db.took_untracked_read());
    assert_eq!(db.dep_edges_len(), 1);
    assert_eq!(db.interned_len(), 1);
}

#[test]
fn resolve_keeps_absolute_roots_and_joins_relative_ones() {
    let mut db = LsDigestsDatabase::new();
    let content = manifest(&[("abs", "/opt/libs/abs"), ("rel", "src")], Vec::new());
    let crates = project_crates(
        &mut db,
        "/work/space/cairo_project.toml",
        &FileReadOutcome::Content(b"m".to_vec()),
        &ProjectConfigOutcome::Parsed(content),
    );
    assert_eq!(crates.len(), 2);
    assert_eq!(crates[0].root, "/opt/libs/abs");
    assert_eq!(crates[1].root, "/work/space/src");
}

#[test]
fn resolve_with_bare_manifest_path_keeps_roots_relative() {
    let mut db = LsDigestsDatabase::new();
    let content = manifest(&[("a", "./a")], Vec::new());
    let crates = project_crates(
        &mut db,
        "cairo_project.toml",
        &FileReadOutcome::Content(b"m".to_vec()),
        &ProjectConfigOutcome::Parsed(content),
    );
    assert_eq!(crates.len(), 1);
    assert_eq!(crates[0].root, "./a");
}

#[test]
fn resolve_applies_settings_overrides() {
    let mut db = LsDigestsDatabase::new();
    let content = manifest(
        &[("a", "./a"), ("b", "./b")],
        vec![("a", settings("2024_07"))],
    );
    let crates = project_crates(
        &mut db,
        "/proj/cairo_project.toml",
        &FileReadOutcome::Content(b"m".to_vec()),
        &ProjectConfigOutcome::Parsed(content),
    );
    assert_eq!(crates[0].settings, settings("2024_07"));
    assert_eq!(crates[1].settings, CrateSettings::new_default());
}

#[test]
fn resolve_io_failure_returns_empty_and_marks_untracked() {
    let mut db = LsDigestsDatabase::new();
    let crates = project_crates(
        &mut db,
        "/proj/cairo_project.toml",
        &FileReadOutcome::OtherError,
        &ProjectConfigOutcome::IoError,
    );
    assert!(crates.is_empty());
    assert!(db.took_synthetic_read());
    assert!(db.took_untracked_read());
}

#[test]
fn resolve_invalid_manifest_no_untracked_read() {
    let mut db = LsDigestsDatabase::new();
    let bytes = b"not a manifest at all".to_vec();
    let crates = project_crates(
        &mut db,
        "/proj/cairo_project.toml",
        &FileReadOutcome::Content(bytes.clone()),
        &ProjectConfigOutcome::Invalid,
    );
    assert!(crates.is_empty());
    assert!(!db.took_untracked_read());

    // Re-evaluating with byte-identical, still invalid content leaves the
    // query free of untracked reads again.
    db.begin_query();
    let crates = project_crates(
        &mut db,
        "/proj/cairo_project.toml",
        &FileReadOutcome::Content(bytes),
        &ProjectConfigOutcome::Invalid,
    );
    assert!(crates.is_empty());
    assert!(!db.took_untracked_read());
}

#[test]
fn deleted_manifest_flips_digest_and_empties_result() {
    let mut db = LsDigestsDatabase::new();
    let path = "/proj/cairo_project.toml";
    let bytes = b"[crate_roots]\na = \"./a\"\n".to_vec();

    let crates = project_crates(
        &mut db,
        path,
        &FileReadOutcome::Content(bytes.clone()),
        &ProjectConfigOutcome::Parsed(manifest(&[("a", "./a")], Vec::new())),
    );
    assert_eq!(crates.len(), 1);

    let id = db.intern_digest(Digestible::try_new(path).unwrap());
    let before = db.digest(id, &FileReadOutcome::Content(bytes));
    assert!(matches!(before, Digest(DigestKind::Hash(_))));

    // A watcher reports the file gone: the digest must be recomputed and
    // flips to "not found", and resolution now yields no crates.
    db.begin_query();
    invalidate_digest(&mut db, id);
    let crates = project_crates(
        &mut db,
        path,
        &FileReadOutcome::NotFound,
        &ProjectConfigOutcome::IoError,
    );
    assert!(crates.is_empty());
    let after = db.digest(id, &FileReadOutcome::NotFound);
    assert_eq!(after, Digest::file_not_found());
    assert_ne!(before, after);
}

#[test]
fn settings_lookup_prefers_override_entry() {
    let config = AllCratesConfig {
        global: CrateSettings::new_default(),
        override_map: vec![
            ("a".to_string(), settings("2023_01")),
            ("b".to_string(), settings("2023_10")),
        ],
    };
    assert_eq!(*config.get(&"a".to_string()), settings("2023_01"));
    assert_eq!(*config.get(&"b".to_string()), settings("2023_10"));
    assert_eq!(*config.get(&"c".to_string()), CrateSettings::new_default());
}

#[test]
fn digest_of_manifest_content_is_stable_across_databases() {
    let mut n1 = NonceSource::new();
    let mut n2 = NonceSource::new();
    let bytes = b"[crate_roots]\na = \"./a\"\n";
    let d1 = project_digests::digest::digest_of_read(
        &FileReadOutcome::Content(bytes.to_vec()),
        &mut n1,
    );
    let d2 = project_digests::digest::digest_of_read(
        &FileReadOutcome::Content(bytes.to_vec()),
        &mut n2,
    );
    assert_eq!(d1, d2);
}

#[test]
fn resolve_passes_full_settings_through_verbatim() {
    let mut db = LsDigestsDatabase::new();
    let rich = CrateSettings {
        name: Some("a_core".to_string()),
        edition: "2024_07".to_string(),
        version: Some("1.2.3".to_string()),
        cfg_set: Some(vec![
            ("target".to_string(), Some("test".to_string())),
            ("gas".to_string(), None),
        ]),
        dependencies: vec![("core".to_string(), None), ("b".to_string(), Some("b 1.0.0".to_string()))],
        experimental_features: ExperimentalFeaturesConfig {
            negative_impls: true,
            associated_item_constraints: false,
            coupons: true,
            user_defined_inline_macros: false,
            repr_ptrs: false,
        },
    };
    let content = manifest(&[("a", "./a"), ("b", "./b")], vec![("a", rich.clone())]);
    let crates = project_crates(
        &mut db,
        "/proj/cairo_project.toml",
        &FileReadOutcome::Content(b"m".to_vec()),
        &ProjectConfigOutcome::Parsed(content),
    );
    assert_eq!(crates[0].settings, rich);
    assert_eq!(crates[1].settings, CrateSettings::new_default());
}

#[test]
fn resolve_manifest_path_with_trailing_separator() {
    let mut db = LsDigestsDatabase::new();
    let content = manifest(&[("a", "./a")], Vec::new());
    let crates = project_crates(
        &mut db,
        "/proj/cairo_project.toml/",
        &FileReadOutcome::Content(b"m".to_vec()),
        &ProjectConfigOutcome::Parsed(content),
    );
    assert_eq!(crates.len(), 1);
    assert_eq!(crates[0].root, "/proj/./a");
    assert_eq!(db.dep_edges_len(), 1);
}
