//! Trackable path identities.
//!
//! A [`Digestible`] wraps a path that refers to a file relevant for project
//! analysis.  Only paths whose file name is on a fixed allow-list (the Cairo
//! project manifest, the Scarb manifest and the Scarb lock file) can become
//! identities; construction canonicalizes the path to an absolute form on a
//! best-effort basis, falling back to the path as given.

use vstd::prelude::*;
use vstd::string::StrSliceExecFns;

verus! {

/// The last path component, read from the end: the characters after the
/// last separator (empty if the path is empty or ends with a separator).
pub open spec fn spec_last_component(p: Seq<char>) -> Seq<char>
    decreases p.len(),
{
    if p.len() == 0 {
        p
    } else if p.last() == '/' {
        Seq::<char>::empty()
    } else {
        spec_last_component(p.drop_last()).push(p.last())
    }
}

/// The path with trailing separators and trailing `.` components removed,
/// which a file name ignores.
pub open spec fn spec_trim_path(p: Seq<char>) -> Seq<char>
    decreases p.len(),
{
    if p.len() == 0 {
        p
    } else if p.last() == '/' {
        spec_trim_path(p.drop_last())
    } else if p.last() == '.' && (p.len() == 1 || p[p.len() - 2] == '/') {
        spec_trim_path(p.drop_last())
    } else {
        p
    }
}

/// The file name of a path: its last component, ignoring trailing
/// separators and trailing `.` components.  It is empty when the path has
/// no component left, and a final `..` component is returned as is; neither
/// is ever a trackable name, so both mean "nothing to track" here.
pub open spec fn spec_file_name(p: Seq<char>) -> Seq<char> {
    spec_last_component(spec_trim_path(p))
}

/// Whether `name` is one of the file names relevant for project analysis:
/// the Cairo project manifest, the Scarb manifest, or the Scarb lock file.
pub open spec fn is_trackable_name(name: Seq<char>) -> bool {
    ||| name == "cairo_project.toml"@
    ||| name == "Scarb.toml"@
    ||| name == "Scarb.lock"@
}

/// Whether a path's file name is on the allow-list of project-relevant
/// names, whatever directory it lies in.
pub open spec fn is_trackable_path(p: Seq<char>) -> bool {
    is_trackable_name(spec_file_name(p))
}

/// Whether a path is absolute: it begins with the separator.
pub open spec fn spec_is_absolute(p: Seq<char>) -> bool {
    p.len() > 0 && p[0] == '/'
}

/// The last component is the suffix that starts right after the last
/// separator: if no separator occurs at or after position `i` and position
/// `i` is the start of the path or preceded by a separator, the last
/// component is exactly the suffix from `i`.
proof fn lemma_last_component_is_suffix(p: Seq<char>, i: int)
    requires
        0 <= i <= p.len(),
        forall|k: int| i <= k < p.len() ==> p[k] != '/',
        i == 0 || p[i - 1] == '/',
    ensures
        spec_last_component(p) == p.subrange(i, p.len() as int),
    decreases p.len(),
{
    if p.len() == 0 {
        assert(spec_last_component(p) =~= p.subrange(i, p.len() as int));
    } else if p.last() == '/' {
        assert(i == p.len());
        assert(spec_last_component(p) =~= p.subrange(i, p.len() as int));
    } else {
        assert(i < p.len());
        let q = p.drop_last();
        assert(forall|k: int| i <= k < q.len() ==> q[k] != '/');
        lemma_last_component_is_suffix(q, i);
        assert(spec_last_component(p) =~= p.subrange(i, p.len() as int));
    }
}

/// The bounds of the file name of `path` within it: the name is
/// `path[start..end]`, where `end` cuts off the trailing separators and `.`
/// components and `start` sits right after the last separator before `end`.
pub(crate) fn file_name_bounds(path: &str) -> (r: (usize, usize))
    ensures
        r.0 <= r.1 && r.1 <= path@.len(),
        spec_trim_path(path@) == path@.subrange(0, r.1 as int),
        spec_file_name(path@) == path@.subrange(r.0 as int, r.1 as int),
        r.0 == 0 || path@[r.0 as int - 1] == '/',
{
    let len = path.unicode_len();
    let mut end = len;
    proof {
        assert(path@.subrange(0, path@.len() as int) =~= path@);
    }
    while end > 0 && (path.get_char(end - 1) == '/' || (path.get_char(end - 1) == '.' && (end
        == 1 || path.get_char(end - 2) == '/')))
        invariant
            end <= len,
            len == path@.len(),
            spec_trim_path(path@) == spec_trim_path(path@.subrange(0, end as int)),
        decreases end,
    {
        proof {
            let q = path@.subrange(0, end as int);
            assert(q.drop_last() =~= path@.subrange(0, end as int - 1));
        }
        end = end - 1;
    }
    proof {
        if end == 0 {
            assert(spec_trim_path(path@) =~= path@.subrange(0, 0));
        } else {
            let q = path@.subrange(0, end as int);
            assert(q.last() == path@[end as int - 1]);
            assert(spec_trim_path(q) == q);
        }
    }
    let mut start = end;
    while start > 0 && path.get_char(start - 1) != '/'
        invariant
            start <= end,
            end <= len,
            len == path@.len(),
            forall|k: int| start <= k < end ==> path@[k] != '/',
        decreases start,
    {
        start = start - 1;
    }
    proof {
        let q = path@.subrange(0, end as int);
        assert(forall|k: int| start <= k < q.len() ==> q[k] != '/');
        lemma_last_component_is_suffix(q, start as int);
        assert(q.subrange(start as int, end as int) =~= path@.subrange(
            start as int,
            end as int,
        ));
    }
    (start, end)
}

/// Whether the characters of `path` in `[start, end)` are exactly `lit`.
fn segment_is(path: &str, start: usize, end: usize, lit: &str) -> (r: bool)
    requires
        start <= end,
        end <= path@.len(),
    ensures
        r == (path@.subrange(start as int, end as int) == lit@),
{
    let ghost segment = path@.subrange(start as int, end as int);
    let m = lit.unicode_len();
    if end - start != m {
        proof {
            assert(segment.len() != lit@.len());
        }
        return false;
    }
    let mut j: usize = 0;
    while j < m
        invariant
            j <= m,
            m == lit@.len(),
            start + m == end,
            end <= path@.len(),
            segment == path@.subrange(start as int, end as int),
            forall|k: int| 0 <= k < j ==> path@[start + k] == lit@[k],
        decreases m - j,
    {
        if path.get_char(start + j) != lit.get_char(j) {
            proof {
                assert(segment[j as int] != lit@[j as int]);
            }
            return false;
        }
        j = j + 1;
    }
    proof {
        assert(segment =~= lit@);
    }
    true
}

/// An opaque wrapper over a path that refers to a file that is relevant for
/// project analysis.
#[derive(Debug, Eq, Hash)]
pub struct Digestible {
    path: String,
}

impl View for Digestible {
    type V = Seq<char>;

    /// The identity's canonical (or fallback) path.
    closed spec fn view(&self) -> Seq<char> {
        self.path@
    }
}

/// Relies on std::path::absolute: a best-effort absolute form of the path,
/// resolved against the process's current directory (on which the result
/// depends).  Per its documentation the conversion is lexical: the current
/// directory is prepended to a relative path, `.` components are dropped,
/// and `..` components and trailing separators are kept — so the result is
/// absolute and, whenever the path has a file name at all, keeps it.  Fails
/// on an empty path, when the current directory is unavailable, or when the
/// result is not Unicode.
#[verifier::external_body]
fn absolutize(path: &str) -> (r: Option<String>)
    ensures
        r matches Some(s) ==> spec_is_absolute(s@) && (spec_file_name(path@).len() > 0
            ==> spec_file_name(s@) == spec_file_name(path@)),
{
    std::path::absolute(path).ok().and_then(|p| p.to_str().map(|s| s.to_owned()))
}

impl Digestible {
    /// Creates new digestible from a given path.
    ///
    /// Returns `Some` if the path points to a file that is relevant for
    /// project analysis; otherwise, returns `None`.  The identity wraps an
    /// absolute form of the path with the same file name; when
    /// absolutization fails, the path is kept as given rather than failing
    /// the call.
    pub fn try_new(path: &str) -> (r: Option<Self>)
        ensures
            r is Some <==> is_trackable_path(path@),
            r matches Some(d) ==> d@ == path@ || (spec_is_absolute(d@) && spec_file_name(d@)
                == spec_file_name(path@)),
    {
        let (start, end) = file_name_bounds(path);
        let trackable = segment_is(path, start, end, "cairo_project.toml") || segment_is(
            path,
            start,
            end,
            "Scarb.toml",
        ) || segment_is(path, start, end, "Scarb.lock");
        if trackable {
            proof {
                reveal_strlit("cairo_project.toml");
                reveal_strlit("Scarb.toml");
                reveal_strlit("Scarb.lock");
                assert(spec_file_name(path@).len() > 0);
            }
            let abs = match absolutize(path) {
                Some(p) => p,
                None => path.to_owned(),
            };
            Some(Digestible { path: abs })
        } else {
            None
        }
    }

    /// The path this identity wraps.
    pub fn path(&self) -> (r: &str)
        ensures
            r@ == self@,
    {
        self.path.as_str()
    }
}

impl Clone for Digestible {
    /// Clones preserve the identity's path.
    fn clone(&self) -> (r: Self)
        ensures
            r@ == self@,
    {
        Digestible { path: self.path.clone() }
    }
}

impl PartialEq for Digestible {
    /// Two identities are equal exactly when their paths are equal.
    fn eq(&self, other: &Self) -> (r: bool) {
        self.path == other.path
    }
}

impl vstd::std_specs::cmp::PartialEqSpecImpl for Digestible {
    open spec fn obeys_eq_spec() -> bool {
        true
    }

    open spec fn eq_spec(&self, other: &Self) -> bool {
        self@ == other@
    }
}

} // verus!
