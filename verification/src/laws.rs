//! What holds of the handlers whatever the request is.

use crate::api::index::files::{error_info, last_segment, next_step, IndexError, Next, Request};
use crate::cdn::files::{admitted, raw_step, Raw};
use crate::config::Config;
use crate::error::Fault;
use crate::listing::{entry_of, kind_suffix, EntryKind};
use crate::resolve::{
    relative_below,
    resolution,
    CanonicalView,
    FileKind,
    IoFailure,
    Resolution,
};
use crate::util::encode::{
    lemma_decoding_restores,
    lemma_encoded_of_concat,
    lemma_slash_is_kept,
    percent_decoded,
    percent_encoded,
};
use crate::util::path::{
    below,
    fold_segments,
    joined,
    keeps,
    lemma_fold_keeps_the_solid,
    lemma_joined_behind_empty,
    lemma_joined_ends_plainly,
    lemma_solid_behind_empty,
    lemma_split_joined,
    lemma_split_one_more,
    lemma_split_plain,
    sanitized,
    solid,
    split_segments,
};
use vstd::prelude::*;

verus! {

/// A canonical path that does not lie at or below the root is never shown
/// as a file or a directory: it resolves to not found, the index answers
/// that the path is not found, and the raw route refuses it as not found.
pub proof fn lemma_outside_the_root_is_not_found(
    config: Config,
    request: Request,
    relative: Seq<Seq<char>>,
    path: Seq<char>,
    kind: FileKind,
)
    requires
        relative_below(config.base_dir@, path) is None,
    ensures
        resolution(config, relative, CanonicalView::Found { path, kind }) == Resolution::NotFound,
        next_step(config, request, relative, CanonicalView::Found { path, kind }) == Next::Reply(
            error_info(request, last_segment(relative), IndexError::NotFound),
        ),
        raw_step(config, request.path, relative, CanonicalView::Found { path, kind })
            == Raw::Refuse(Fault::FilesLimiterError),
{
}

/// Whatever resolves to a file or a directory lies at or below the root and
/// is visible, both as it was asked for and as it really lies.
pub proof fn lemma_shown_lies_below_the_root(
    config: Config,
    relative: Seq<Seq<char>>,
    found: CanonicalView,
)
    requires
        resolution(config, relative, found) is File || resolution(config, relative, found)
            is Directory,
    ensures
        found matches CanonicalView::Found { path, .. } && (relative_below(
            config.base_dir@,
            path,
        ) matches Some(inner) && config.visible(joined(inner))),
        config.visible(joined(relative)),
{
}

/// A path that an exclusion rule hides is reported as not found on both
/// routes, exactly as a path that does not exist and whatever the host
/// found: the limiter of the raw route refuses the request, and the index
/// gives the answer it gives for a missing path.
pub proof fn lemma_hidden_is_not_found(
    config: Config,
    request: Request,
    relative: Seq<Seq<char>>,
    found: CanonicalView,
)
    requires
        !config.visible(joined(relative)),
    ensures
        next_step(config, request, relative, found) == Next::Reply(
            error_info(request, last_segment(relative), IndexError::NotFound),
        ),
        next_step(config, request, relative, found) == next_step(
            config,
            request,
            relative,
            CanonicalView::Failed(IoFailure::NotFound),
        ),
        raw_step(config, request.path, relative, found) == Raw::Refuse(Fault::FilesLimiterError),
        sanitized(request.matched, false, config.strict_separators) == Some(relative) ==> admitted(
            config,
            request.matched,
        ) is None,
{
}

/// The percent-encoded link or path of a child, with the suffix of its
/// kind, is the percent-encoding of the plain path with that suffix.
proof fn lemma_suffix_is_encoded(plain: Seq<char>, kind: EntryKind)
    ensures
        percent_encoded(plain) + kind_suffix(kind) == percent_encoded(plain + kind_suffix(kind)),
{
    match kind {
        EntryKind::Directory => {
            lemma_encoded_of_concat(plain, seq!['/']);
            lemma_slash_is_kept();
        },
        EntryKind::File => {},
    }
}

/// The `path` of a listed child leads back to the child: percent-decoded
/// and sanitized again, it gives the segments of the listed directory
/// followed by the child's name. This holds of every child whose name the
/// sanitizer keeps, below every directory that was reached by a sanitized
/// path.
pub proof fn lemma_listed_path_leads_back(
    url_base: Seq<char>,
    relative: Seq<Seq<char>>,
    name: Seq<char>,
    kind: EntryKind,
    hidden_files: bool,
    strict: bool,
)
    requires
        forall|i: int|
            0 <= i < relative.len() ==> keeps(#[trigger] relative[i], hidden_files, strict),
        keeps(name, hidden_files, strict),
    ensures
        percent_decoded(
            entry_of(url_base, seq!['/'] + joined(relative), name, kind).path,
        ) matches Some(path) && sanitized(path, hidden_files, strict) == Some(relative.push(name)),
{
    let nothing = Seq::<char>::empty();
    let path_base = seq!['/'] + joined(relative);
    let plain = below(path_base, name);
    let inner = relative.push(name);
    let parts = seq![nothing] + inner;
    assert(parts.drop_last() =~= seq![nothing] + relative);
    assert(plain == joined(parts)) by {
        if relative.len() == 0 {
            assert(joined(parts.drop_last()) =~= nothing);
        } else {
            lemma_joined_ends_plainly(relative);
            lemma_joined_behind_empty(relative);
        }
    }
    let full = plain + kind_suffix(kind);
    lemma_suffix_is_encoded(plain, kind);
    lemma_decoding_restores(full);
    let all = match kind {
        EntryKind::Directory => parts.push(nothing),
        EntryKind::File => parts,
    };
    assert(full == joined(all) && solid(all) == solid(parts)) by {
        match kind {
            EntryKind::Directory => {
                assert(all.drop_last() =~= parts);
            },
            EntryKind::File => {},
        }
    }
    lemma_split_joined(all);
    lemma_fold_keeps_the_solid(all, hidden_files, strict);
    lemma_solid_behind_empty(inner);
}

/// What stands behind the mount point in the link of a child: the matched
/// path of the listed directory, and below it the child's name.
pub open spec fn behind_mount(mount: Seq<char>, matched: Seq<char>, name: Seq<char>) -> Seq<char> {
    if (mount + matched).len() == 0 || (mount + matched).last() == '/' {
        matched + name
    } else {
        matched + seq!['/'] + name
    }
}

/// The `url` of a listed child leads back to the child: percent-decoded, it
/// is the mount point followed by a path that sanitizes to the segments of
/// the listed directory followed by the child's name. This holds of every
/// child whose name the sanitizer keeps, for every request path that is a
/// mount point followed by a matched path that sanitizes.
pub proof fn lemma_listed_url_leads_back(
    mount: Seq<char>,
    matched: Seq<char>,
    relative: Seq<Seq<char>>,
    path_base: Seq<char>,
    name: Seq<char>,
    kind: EntryKind,
    hidden_files: bool,
    strict: bool,
)
    requires
        sanitized(matched, hidden_files, strict) == Some(relative),
        keeps(name, hidden_files, strict),
    ensures
        percent_decoded(entry_of(mount + matched, path_base, name, kind).url) == Some(
            mount + (behind_mount(mount, matched, name) + kind_suffix(kind)),
        ),
        sanitized(behind_mount(mount, matched, name) + kind_suffix(kind), hidden_files, strict)
            == Some(relative.push(name)),
{
    let nothing = Seq::<char>::empty();
    let base = mount + matched;
    let core = behind_mount(mount, matched, name);
    let rest = core + kind_suffix(kind);
    let plain = below(base, name);
    lemma_suffix_is_encoded(plain, kind);
    lemma_decoding_restores(plain + kind_suffix(kind));
    assert(fold_segments(split_segments(core), hidden_files, strict) == Some(relative.push(name)))
        by {
        if !(base.len() == 0 || base.last() == '/') {
            lemma_split_one_more(matched, name);
            assert(split_segments(matched).push(name).drop_last() =~= split_segments(matched));
        } else if matched.len() == 0 {
            assert(core =~= name);
            lemma_split_plain(name);
            let none = Seq::<Seq<char>>::empty();
            assert(seq![nothing].drop_last() =~= none);
            assert(seq![name].drop_last() =~= Seq::<Seq<char>>::empty());
        } else {
            let front = matched.drop_last();
            assert(core =~= front + seq!['/'] + name);
            lemma_split_one_more(front, name);
            let before = split_segments(front);
            assert(before.push(nothing).drop_last() =~= before);
            assert(before.push(name).drop_last() =~= before);
        }
    }
    match kind {
        EntryKind::Directory => {
            assert(rest.drop_last() =~= core);
            assert(split_segments(core).push(nothing).drop_last() =~= split_segments(core));
        },
        EntryKind::File => {},
    }
}

} // verus!
