//! Crate resolution for `cairo_project.toml`-based projects.
//!
//! [`project_crates`] is the primary consumer of the digest subsystem: it
//! registers a digest dependency on the project's manifest file and maps the
//! manifest's declared crate roots into [`Crate`] descriptors.  Reading and
//! parsing the manifest is the caller's business (the manifest format is an
//! external format, consumed rather than defined here): the caller hands in
//! the read outcome for the digest and the parse outcome as plain data, and
//! every branch below is verified for every combination of the two.

use vstd::prelude::*;
use vstd::string::StrSliceExecFns;
use vstd::string::StringExecFns;

use crate::database::{db_wf, DigestId, LsDigestsGroup, report_digest_dependency};
use crate::digest::FileReadOutcome;
use crate::paths::{is_trackable_path, spec_file_name, spec_is_absolute, spec_trim_path};

verus! {

/// Experimental-feature switches of one crate.
#[derive(Debug, PartialEq, Eq, Clone, Copy, Structural)]
pub struct ExperimentalFeaturesConfig {
    pub negative_impls: bool,
    pub associated_item_constraints: bool,
    pub coupons: bool,
    pub user_defined_inline_macros: bool,
    pub repr_ptrs: bool,
}

/// The spec-level image of a [`CrateSettings`] value.
pub struct CrateSettingsView {
    pub name: Option<Seq<char>>,
    pub edition: Seq<char>,
    pub version: Option<Seq<char>>,
    pub cfg_set: Option<Seq<(Seq<char>, Option<Seq<char>>)>>,
    pub dependencies: Seq<(Seq<char>, Option<Seq<char>>)>,
    pub experimental_features: ExperimentalFeaturesConfig,
}

/// Per-crate settings resolved from manifest configuration.
///
/// Crate resolution copies the settings verbatim into the descriptors, so
/// every field is plain data: an edition name, an optional crate name and
/// version, the `cfg` options as key/optional-value pairs, the dependencies
/// as name/optional-discriminator pairs, and the experimental-feature
/// switches.
#[derive(Debug, PartialEq, Eq)]
pub struct CrateSettings {
    /// How the crate is referred to in code, when it differs from the key
    /// under which the crate root was declared.
    pub name: Option<String>,
    /// The crate's edition; empty when not configured.
    pub edition: String,
    /// The crate's version, if one is declared.
    pub version: Option<String>,
    /// The `#[cfg(...)]` options, if configured: each a key with an
    /// optional value, in the configuration's order.
    pub cfg_set: Option<Vec<(String, Option<String>)>>,
    /// The crate's dependencies: name and optional discriminator.
    pub dependencies: Vec<(String, Option<String>)>,
    /// The experimental features the crate may use.
    pub experimental_features: ExperimentalFeaturesConfig,
}

/// The view of an optional string: the character sequence, if present.
pub open spec fn view_opt_string(o: Option<String>) -> Option<Seq<char>> {
    match o {
        Some(s) => Some(s@),
        None => None,
    }
}

/// The view of a list of key/optional-value string pairs.
pub open spec fn view_entries(v: Seq<(String, Option<String>)>) -> Seq<
    (Seq<char>, Option<Seq<char>>),
> {
    v.map(|i: int, p: (String, Option<String>)| (p.0@, view_opt_string(p.1)))
}

impl View for CrateSettings {
    type V = CrateSettingsView;

    open spec fn view(&self) -> CrateSettingsView {
        CrateSettingsView {
            name: view_opt_string(self.name),
            edition: self.edition@,
            version: view_opt_string(self.version),
            cfg_set: match self.cfg_set {
                Some(v) => Some(view_entries(v@)),
                None => None,
            },
            dependencies: view_entries(self.dependencies@),
            experimental_features: self.experimental_features,
        }
    }
}

/// The default configuration: nothing set, no features enabled.
pub open spec fn spec_default_settings() -> CrateSettingsView {
    CrateSettingsView {
        name: None,
        edition: Seq::<char>::empty(),
        version: None,
        cfg_set: None,
        dependencies: Seq::<(Seq<char>, Option<Seq<char>>)>::empty(),
        experimental_features: ExperimentalFeaturesConfig {
            negative_impls: false,
            associated_item_constraints: false,
            coupons: false,
            user_defined_inline_macros: false,
            repr_ptrs: false,
        },
    }
}

impl CrateSettings {
    /// The default configuration: nothing set.
    pub fn new_default() -> (r: Self)
        ensures
            r@ == spec_default_settings(),
    {
        let r = CrateSettings {
            name: None,
            edition: String::new(),
            version: None,
            cfg_set: None,
            dependencies: Vec::new(),
            experimental_features: ExperimentalFeaturesConfig {
                negative_impls: false,
                associated_item_constraints: false,
                coupons: false,
                user_defined_inline_macros: false,
                repr_ptrs: false,
            },
        };
        proof {
            assert(view_entries(r.dependencies@) =~= spec_default_settings().dependencies);
        }
        r
    }
}

/// Clones an optional string, preserving its view.
fn clone_opt_string(o: &Option<String>) -> (r: Option<String>)
    ensures
        view_opt_string(r) == view_opt_string(*o),
{
    match o {
        Some(s) => Some(s.clone()),
        None => None,
    }
}

/// Clones a list of key/optional-value string pairs, preserving its view.
fn clone_entries(v: &Vec<(String, Option<String>)>) -> (r: Vec<(String, Option<String>)>)
    ensures
        view_entries(r@) == view_entries(v@),
{
    let mut out: Vec<(String, Option<String>)> = Vec::new();
    let n = v.len();
    let mut i: usize = 0;
    while i < n
        invariant
            i <= n,
            n == v@.len(),
            out@.len() == i as int,
            forall|k: int|
                0 <= k < i ==> out@[k].0@ == v@[k].0@ && view_opt_string(out@[k].1)
                    == view_opt_string(v@[k].1),
        decreases n - i,
    {
        let key = v[i].0.clone();
        let value = clone_opt_string(&v[i].1);
        out.push((key, value));
        i = i + 1;
    }
    proof {
        assert(view_entries(out@) =~= view_entries(v@));
    }
    out
}

impl Clone for CrateSettings {
    /// Clones preserve every settings field.
    fn clone(&self) -> (r: Self)
        ensures
            r@ == self@,
    {
        CrateSettings {
            name: clone_opt_string(&self.name),
            edition: self.edition.clone(),
            version: clone_opt_string(&self.version),
            cfg_set: match &self.cfg_set {
                Some(v) => Some(clone_entries(v)),
                None => None,
            },
            dependencies: clone_entries(&self.dependencies),
            experimental_features: self.experimental_features,
        }
    }
}

/// Additional configurations for all crates of one manifest: a global
/// default and per-crate overrides.
#[derive(Debug, PartialEq, Eq)]
pub struct AllCratesConfig {
    /// The configuration for non-overridden crates.
    pub global: CrateSettings,
    /// Configuration override per crate, keyed by the name under which the
    /// crate root was declared.
    pub override_map: Vec<(String, CrateSettings)>,
}

/// The settings `name` resolves to among `overrides`, falling back to
/// `global`: the first override entry with that key, if any.
pub open spec fn spec_settings_for(
    overrides: Seq<(Seq<char>, CrateSettingsView)>,
    global: CrateSettingsView,
    name: Seq<char>,
) -> CrateSettingsView
    decreases overrides.len(),
{
    if overrides.len() == 0 {
        global
    } else if overrides[0].0 == name {
        overrides[0].1
    } else {
        spec_settings_for(overrides.drop_first(), global, name)
    }
}

impl AllCratesConfig {
    /// The override entries as key/settings views, in declaration order.
    pub open spec fn overrides_view(&self) -> Seq<(Seq<char>, CrateSettingsView)> {
        self.override_map@.map(|i: int, p: (String, CrateSettings)| (p.0@, p.1@))
    }

    /// Returns the configuration for the given crate: its override entry if
    /// one exists, the global configuration otherwise.
    pub fn get(&self, crate_name: &String) -> (r: &CrateSettings)
        ensures
            r@ == spec_settings_for(self.overrides_view(), self.global@, crate_name@),
    {
        let n = self.override_map.len();
        let mut i: usize = 0;
        proof {
            assert(self.overrides_view().skip(0) =~= self.overrides_view());
        }
        while i < n
            invariant
                i <= n,
                n == self.override_map@.len(),
                spec_settings_for(self.overrides_view(), self.global@, crate_name@)
                    == spec_settings_for(
                    self.overrides_view().skip(i as int),
                    self.global@,
                    crate_name@,
                ),
            decreases n - i,
        {
            let ghost rest = self.overrides_view().skip(i as int);
            proof {
                assert(rest[0] == self.overrides_view()[i as int]);
            }
            if self.override_map[i].0 == *crate_name {
                return &self.override_map[i].1;
            }
            proof {
                assert(rest.drop_first() =~= self.overrides_view().skip(i as int + 1));
            }
            i = i + 1;
        }
        proof {
            assert(self.overrides_view().skip(n as int) =~= Seq::empty());
        }
        &self.global
    }
}

/// Contents of a Cairo project config file: the declared crate roots, in
/// declaration order, and the per-crate configuration table.  Name
/// collisions among the declared roots are the manifest format's business,
/// not resolved or rejected here.
#[derive(Debug, PartialEq, Eq)]
pub struct ProjectConfigContent {
    /// Declared crate name and root path, in declaration order.
    pub crate_roots: Vec<(String, String)>,
    /// Additional configurations for the crates.
    pub crates_config: AllCratesConfig,
}

/// The outcome of the caller's attempt to read and parse the project's
/// manifest file.
pub enum ProjectConfigOutcome {
    /// The manifest was read and parsed; these are its contents.
    Parsed(ProjectConfigContent),
    /// The manifest could not be opened or read: the failure's root cause
    /// was an I/O error, so re-reading might behave differently.
    IoError,
    /// The manifest was read but is invalid: a deterministic parse or schema
    /// failure that re-reading the unchanged bytes would reproduce.
    Invalid,
}

/// A crate of a resolved project: its declared name, the absolute path of
/// its root directory, an optional custom main-file name, and its settings.
/// Descriptors are recreated fresh on every resolution run.
#[derive(Debug, PartialEq, Eq)]
pub struct Crate {
    pub name: String,
    pub root: String,
    pub custom_main_file_stem: Option<String>,
    pub settings: CrateSettings,
}

/// The directory a path's file name lies in: the characters before the
/// file name (trailing separators and `.` components ignored), without the
/// separator — except for a file directly under the root, whose directory
/// is the root itself — and empty for a bare file name.
pub open spec fn spec_parent_dir(p: Seq<char>) -> Seq<char> {
    let t = spec_trim_path(p);
    let start = t.len() - spec_file_name(p).len();
    if start == 0 {
        Seq::<char>::empty()
    } else if start == 1 {
        t.subrange(0, 1)
    } else {
        t.subrange(0, start - 1)
    }
}

/// `rel` resolved against the directory `base`: the two joined with a
/// separator unless `base` is empty or already ends with one.
pub open spec fn spec_join(base: Seq<char>, rel: Seq<char>) -> Seq<char> {
    if base.len() == 0 {
        rel
    } else if base.last() == '/' {
        base + rel
    } else {
        base + "/"@ + rel
    }
}

/// A declared crate root made absolute: kept as declared when already
/// absolute, otherwise joined to the manifest's directory.
pub open spec fn spec_absolute_crate_root(base: Seq<char>, root: Seq<char>) -> Seq<char> {
    if spec_is_absolute(root) {
        root
    } else {
        spec_join(base, root)
    }
}

/// The directory a file path lies in, computed lexically.
fn parent_dir(path: &str) -> (r: String)
    ensures
        r@ == spec_parent_dir(path@),
{
    let (start, end) = crate::paths::file_name_bounds(path);
    proof {
        if 0 < start {
            let bound: int = if start == 1 { 1 } else { start - 1 };
            assert(spec_trim_path(path@).subrange(0, bound) =~= path@.subrange(0, bound));
        }
    }
    if start == 0 {
        String::new()
    } else if start == 1 {
        path.substring_char(0, 1).to_owned()
    } else {
        path.substring_char(0, start - 1).to_owned()
    }
}

/// A declared crate root made absolute against the manifest's directory.
fn absolute_crate_root(base: &str, root: &str) -> (r: String)
    ensures
        r@ == spec_absolute_crate_root(base@, root@),
{
    let rlen = root.unicode_len();
    if rlen > 0 && root.get_char(0) == '/' {
        return root.to_owned();
    }
    let blen = base.unicode_len();
    if blen == 0 {
        return root.to_owned();
    }
    let mut joined = base.to_owned();
    if base.get_char(blen - 1) != '/' {
        joined.append("/");
    }
    joined.append(root);
    joined
}

/// Whether descriptor `c` is the faithful resolution of declaration `i` of
/// `content`, relative to the manifest directory `base`: same name, root
/// made absolute, no custom main file, and the settings the configuration
/// table assigns to that name.
pub open spec fn crate_matches(
    c: Crate,
    content: ProjectConfigContent,
    base: Seq<char>,
    i: int,
) -> bool {
    &&& c.name@ == content.crate_roots@[i].0@
    &&& c.root@ == spec_absolute_crate_root(base, content.crate_roots@[i].1@)
    &&& c.custom_main_file_stem is None
    &&& c.settings@ == spec_settings_for(
        content.crates_config.overrides_view(),
        content.crates_config.global@,
        content.crate_roots@[i].0@,
    )
}

/// Gets the list of crates from a `cairo_project.toml`-based project.
///
/// The caller supplies the outcome of reading the manifest's bytes (for the
/// digest dependency) and the outcome of parsing it.  A digest dependency on
/// the manifest is registered, and the query is marked as a synthetic
/// low-durability read.  On a parsed manifest, one descriptor per declared
/// crate root is returned, in declaration order.  On any failure the crate
/// list is empty; only a failure whose root cause is an I/O error
/// additionally marks the query as containing an untracked read, since a
/// deterministic parse failure would be reproduced by re-reading the
/// unchanged file.
#[verifier::loop_isolation(false)]
pub fn project_crates<D: LsDigestsGroup>(
    db: &mut D,
    manifest_path: &str,
    manifest_read: &FileReadOutcome,
    parse: &ProjectConfigOutcome,
) -> (crates: Vec<Crate>)
    requires
        db_wf(old(db).identities(), old(db).memo(), old(db).next_nonce()),
        old(db).next_nonce() < usize::MAX,
    ensures
        db_wf(final(db).identities(), final(db).memo(), final(db).next_nonce()),
        final(db).synthetic_read(),
        is_trackable_path(manifest_path@) ==> exists|id: DigestId|
            {
                &&& final(db).deps() == old(db).deps().push(id)
                &&& id.0 < final(db).identities().len()
                &&& final(db).memo()[id.0 as int] is Some
                &&& spec_file_name(final(db).identities()[id.0 as int]) == spec_file_name(
                    manifest_path@,
                )
            },
        !is_trackable_path(manifest_path@) ==> final(db).deps() == old(db).deps(),
        old(db).next_nonce() <= final(db).next_nonce() <= old(db).next_nonce() + 1,
        parse matches ProjectConfigOutcome::Parsed(content) ==> {
            &&& crates@.len() == content.crate_roots@.len()
            &&& (forall|i: int|
                0 <= i < crates@.len() ==> crate_matches(
                    crates@[i],
                    *content,
                    spec_parent_dir(manifest_path@),
                    i,
                ))
            &&& final(db).untracked_read() == old(db).untracked_read()
        },
        parse matches ProjectConfigOutcome::IoError ==> {
            &&& crates@.len() == 0
            &&& final(db).untracked_read()
        },
        parse matches ProjectConfigOutcome::Invalid ==> {
            &&& crates@.len() == 0
            &&& final(db).untracked_read() == old(db).untracked_read()
        },
{
    report_digest_dependency(db, manifest_path, manifest_read);

    db.report_synthetic_read();
    let content = match parse {
        ProjectConfigOutcome::Parsed(content) => content,
        ProjectConfigOutcome::IoError => {
            db.report_untracked_read();
            return Vec::new();
        },
        ProjectConfigOutcome::Invalid => {
            return Vec::new();
        },
    };

    let base = parent_dir(manifest_path);
    let mut crates: Vec<Crate> = Vec::new();
    let n = content.crate_roots.len();
    let mut i: usize = 0;
    while i < n
        invariant
            i <= n,
            crates@.len() == i as int,
            forall|k: int|
                0 <= k < i ==> crate_matches(
                    crates@[k],
                    *content,
                    spec_parent_dir(manifest_path@),
                    k,
                ),
        decreases n - i,
    {
        let entry_name = &content.crate_roots[i].0;
        let entry_root = &content.crate_roots[i].1;
        let root = absolute_crate_root(base.as_str(), entry_root.as_str());
        let settings = content.crates_config.get(entry_name).clone();
        crates.push(
            Crate { name: entry_name.clone(), root, custom_main_file_stem: None, settings },
        );
        i = i + 1;
    }
    crates
}

} // verus!
