//! Placing a canonical path below the served root and classifying what a
//! request resolves to.

use crate::config::Config;
use crate::util::path::{
    below,
    join_path,
    join_segments,
    joined,
    solid,
    split_segments,
    SafeRelativePath,
};
use crate::util::text::{chars_of, string_of};
use vstd::prelude::*;
use vstd::string::StringExecFns;

verus! {

/// Why the host could not canonicalize or read a path.
#[derive(Debug, Clone, Copy, PartialEq, Eq, Structural)]
pub enum IoFailure {
    NotFound,
    PermissionDenied,
    Other,
}

/// What kind of thing a canonical path names.
#[derive(Debug, Clone, Copy, PartialEq, Eq, Structural)]
pub enum FileKind {
    File,
    Directory,
    /// Neither a regular file nor a directory, such as a socket or a device.
    Other,
}

/// What the host found when it canonicalized a path and looked at it.
#[derive(Debug)]
pub enum Canonical {
    /// The canonical, absolute form of the path, and what it names.
    Found { path: String, kind: FileKind },
    Failed(IoFailure),
}

/// A [`Canonical`] as a mathematical value.
pub enum CanonicalView {
    Found { path: Seq<char>, kind: FileKind },
    Failed(IoFailure),
}

impl View for Canonical {
    type V = CanonicalView;

    open spec fn view(&self) -> CanonicalView {
        match *self {
            Canonical::Found { path, kind } => CanonicalView::Found { path: path@, kind },
            Canonical::Failed(failure) => CanonicalView::Failed(failure),
        }
    }
}

/// What a request resolves to.
#[derive(Debug)]
pub enum ResolvedTarget {
    /// A visible regular file below the root, by its canonical path.
    File(String),
    /// A visible directory below the root, by its canonical path.
    Directory(String),
    NotFound,
    Forbidden,
    /// An unexpected failure, with what was being done when it occurred.
    InternalError(String),
}

/// A [`ResolvedTarget`] as a mathematical value.
pub enum Resolution {
    File(Seq<char>),
    Directory(Seq<char>),
    NotFound,
    Forbidden,
    InternalError(Seq<char>),
}

impl View for ResolvedTarget {
    type V = Resolution;

    open spec fn view(&self) -> Resolution {
        match *self {
            ResolvedTarget::File(path) => Resolution::File(path@),
            ResolvedTarget::Directory(path) => Resolution::Directory(path@),
            ResolvedTarget::NotFound => Resolution::NotFound,
            ResolvedTarget::Forbidden => Resolution::Forbidden,
            ResolvedTarget::InternalError(cause) => Resolution::InternalError(cause@),
        }
    }
}

/// The components of a path: its non-empty segments.
pub open spec fn components(path: Seq<char>) -> Seq<Seq<char>> {
    solid(split_segments(path))
}

/// Whether `prefix` is what `whole` begins with.
pub open spec fn begins_with(whole: Seq<Seq<char>>, prefix: Seq<Seq<char>>) -> bool {
    prefix.len() <= whole.len() && whole.take(prefix.len() as int) == prefix
}

/// The components of `path` below `root`, if the components of `root` are
/// what the components of `path` begin with; `None` if `path` lies
/// elsewhere. Components are compared whole, so `/srv/media-old` is not
/// below `/srv/media`.
pub open spec fn relative_below(root: Seq<char>, path: Seq<char>) -> Option<Seq<Seq<char>>> {
    if begins_with(components(path), components(root)) {
        Some(components(path).skip(components(root).len() as int))
    } else {
        None
    }
}

/// What was being done when canonicalizing failed unexpectedly.
pub open spec fn canonicalize_cause() -> Seq<char> {
    "Canonicalize path"@
}

/// What was being done when a path turned out to name neither a file nor a
/// directory.
pub open spec fn classify_cause() -> Seq<char> {
    "Classify path"@
}

/// What a request for the safe path `requested` resolves to, given what the
/// host found for it below the root.
///
/// A path that an exclusion rule hides, by the requested path or by the
/// canonical path relative to the root, is not found, whatever the host
/// found; so is a path that lies outside the root, and a path that is
/// missing. None of these can be told from the others.
pub open spec fn resolution(config: Config, requested: Seq<Seq<char>>, found: CanonicalView) -> Resolution {
    if !config.visible(joined(requested)) {
        Resolution::NotFound
    } else {
        match found {
            CanonicalView::Failed(IoFailure::NotFound) => Resolution::NotFound,
            CanonicalView::Failed(IoFailure::PermissionDenied) => Resolution::Forbidden,
            CanonicalView::Failed(IoFailure::Other) => Resolution::InternalError(
                canonicalize_cause(),
            ),
            CanonicalView::Found { path, kind } => match relative_below(config.base_dir@, path) {
                None => Resolution::NotFound,
                Some(relative) => if !config.visible(joined(relative)) {
                    Resolution::NotFound
                } else {
                    match kind {
                        FileKind::File => Resolution::File(path),
                        FileKind::Directory => Resolution::Directory(path),
                        FileKind::Other => Resolution::InternalError(classify_cause()),
                    }
                },
            },
        }
    }
}

/// The path that a safe relative path names below the root.
pub open spec fn target_of(config: Config, relative: Seq<Seq<char>>) -> Seq<char> {
    below(config.base_dir@, joined(relative))
}

/// The path below the root that the host is to canonicalize for a safe
/// relative path.
pub fn target_path(config: &Config, relative: &SafeRelativePath) -> (target: String)
    ensures
        target@ == target_of(*config, relative@),
{
    let inner = relative.to_string();
    join_path(config.base_dir.as_str(), inner.as_str())
}

/// The components of a path: the pieces between its `/` characters that are
/// not empty.
pub fn path_components(path: &str) -> (parts: Vec<String>)
    ensures
        parts.deep_view() == components(path@),
{
    let chars = chars_of(path);
    let n = chars.len();
    let mut parts: Vec<String> = Vec::new();
    let mut start: usize = 0;
    let mut i: usize = 0;
    let ghost mut done: Seq<Seq<char>> = Seq::empty();
    assert(path@.subrange(0, 0) =~= Seq::<char>::empty());
    while i < n
        invariant
            chars@ == path@,
            n == chars.len(),
            start <= i <= n,
            split_segments(path@.take(i as int)) == done.push(
                path@.subrange(start as int, i as int),
            ),
            solid(done) == parts.deep_view(),
        decreases n - i,
    {
        let ghost segment = path@.subrange(start as int, i as int);
        assert(path@.take(i + 1).drop_last() == path@.take(i as int));
        assert(done.push(segment).drop_last() == done);
        if chars[i] == '/' {
            if start < i {
                parts.push(string_of(&chars, start, i));
            }
            proof {
                done = done.push(segment);
            }
            start = i + 1;
            assert(path@.subrange(start as int, start as int) == Seq::<char>::empty());
        } else {
            assert(path@.subrange(start as int, i + 1) == segment.push(path@[i as int]));
        }
        i += 1;
    }
    assert(path@.take(n as int) == path@);
    let ghost segment = path@.subrange(start as int, n as int);
    assert(done.push(segment).drop_last() == done);
    if start < n {
        parts.push(string_of(&chars, start, n));
    }
    parts
}

/// The components of `path` below `root`, or `None` if `path` does not lie
/// at or below `root`.
pub fn relative_to_root(root: &str, path: &str) -> (relative: Option<Vec<String>>)
    ensures
        match relative_below(root@, path@) {
            Some(parts) => relative matches Some(found) && found.deep_view() == parts,
            None => relative is None,
        },
{
    let base = path_components(root);
    let mut whole = path_components(path);
    let ghost all = whole.deep_view();
    if base.len() > whole.len() {
        return None;
    }
    let mut i: usize = 0;
    while i < base.len()
        invariant
            i <= base.len() <= whole.len(),
            all == whole.deep_view(),
            all == components(path@),
            base.deep_view() == components(root@),
            forall|k: int| 0 <= k < i ==> all[k] == base.deep_view()[k],
        decreases base.len() - i,
    {
        if base[i] != whole[i] {
            assert(all.take(base.len() as int)[i as int] != base.deep_view()[i as int]);
            return None;
        }
        i += 1;
    }
    assert(all.take(base.len() as int) =~= base.deep_view());
    let rest = whole.split_off(base.len());
    Some(rest)
}

/// Classifies what a request resolves to, from what the host found when it
/// canonicalized the requested path below the root.
pub fn resolve(config: &Config, requested: &SafeRelativePath, found: &Canonical) -> (target:
    ResolvedTarget)
    ensures
        target@ == resolution(*config, requested@, found@),
        (target is File || target is Directory) ==> (found@ matches CanonicalView::Found {
            path,
            ..
        } && relative_below(config.base_dir@, path) is Some),
{
    let asked = requested.to_string();
    if !config.is_legal_path(asked.as_str()) {
        return ResolvedTarget::NotFound;
    }
    match found {
        Canonical::Failed(IoFailure::NotFound) => ResolvedTarget::NotFound,
        Canonical::Failed(IoFailure::PermissionDenied) => ResolvedTarget::Forbidden,
        Canonical::Failed(IoFailure::Other) => ResolvedTarget::InternalError(
            String::from_str("Canonicalize path"),
        ),
        Canonical::Found { path, kind } => {
            match relative_to_root(config.base_dir.as_str(), path.as_str()) {
                None => ResolvedTarget::NotFound,
                Some(relative) => {
                    let actual = join_segments(&relative);
                    if !config.is_legal_path(actual.as_str()) {
                        ResolvedTarget::NotFound
                    } else {
                        match kind {
                            FileKind::File => ResolvedTarget::File(path.clone()),
                            FileKind::Directory => ResolvedTarget::Directory(path.clone()),
                            FileKind::Other => ResolvedTarget::InternalError(
                                String::from_str("Classify path"),
                            ),
                        }
                    }
                },
            }
        },
    }
}

} // verus!
