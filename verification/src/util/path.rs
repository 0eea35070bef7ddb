//! Turning an untrusted request path into a sequence of safe path segments.

use crate::error::{Error, ErrorKind};
use crate::rules::{capture, first_capture, slice_text};
use crate::util::text::{chars_of, ends_with_char, holds_char, string_of};
use vstd::prelude::*;
use vstd::string::StringExecFns;

verus! {

/// The pattern that finds the extension of a file name: what follows the
/// last `.`, if anything does.
pub open spec fn extension_pattern() -> Seq<char> {
    ".*\\.(?P<ext>[^.]+)$"@
}

/// The extension of a path: what the group `ext` of [`extension_pattern`]
/// captures in it, if the pattern matches.
pub fn file_extension(path: &str) -> (ext: Option<&str>)
    ensures
        slice_text(ext) == first_capture(extension_pattern(), "ext"@, path@),
{
    capture(".*\\.(?P<ext>[^.]+)$", "ext", path)
}

/// What the sanitizer does with one segment of a request path.
#[derive(Debug, Clone, Copy, PartialEq, Eq, Structural)]
pub enum SegmentVerdict {
    /// `..`: drop the segment kept last, if there is one.
    Pop,
    /// The segment makes the whole path unacceptable.
    Reject,
    /// An empty segment, as a doubled `/` leaves: ignored.
    Skip,
    /// The segment is kept.
    Keep,
}

/// The segments of `path`: the pieces between its `/` characters, empty
/// pieces included, so that there is always one more segment than `/`.
pub open spec fn split_segments(path: Seq<char>) -> Seq<Seq<char>>
    decreases path.len(),
{
    if path.len() == 0 {
        seq![Seq::empty()]
    } else {
        let before = split_segments(path.drop_last());
        if path.last() == '/' {
            before.push(Seq::empty())
        } else {
            before.drop_last().push(before.last().push(path.last()))
        }
    }
}

/// Whether a segment ends with one of `:`, `>` and `<`.
pub open spec fn ends_unsafely(segment: Seq<char>) -> bool {
    segment.len() > 0 && (segment.last() == ':' || segment.last() == '>' || segment.last() == '<')
}

/// The verdict on one segment. `hidden_files` admits segments that start with
/// `.`; `strict` refuses a `\` inside a segment, as hosts need on which `\`
/// separates path components.
pub open spec fn judge(segment: Seq<char>, hidden_files: bool, strict: bool) -> SegmentVerdict {
    if segment =~= seq!['.', '.'] {
        SegmentVerdict::Pop
    } else if !hidden_files && segment.len() > 0 && segment[0] == '.' {
        SegmentVerdict::Reject
    } else if segment.len() > 0 && segment[0] == '*' {
        SegmentVerdict::Reject
    } else if ends_unsafely(segment) {
        SegmentVerdict::Reject
    } else if segment.len() == 0 {
        SegmentVerdict::Skip
    } else if strict && segment.contains('\\') {
        SegmentVerdict::Reject
    } else {
        SegmentVerdict::Keep
    }
}

/// The segments kept after `segment` has been judged, or `None` if it is
/// rejected.
pub open spec fn apply_segment(
    kept: Seq<Seq<char>>,
    segment: Seq<char>,
    hidden_files: bool,
    strict: bool,
) -> Option<Seq<Seq<char>>> {
    match judge(segment, hidden_files, strict) {
        SegmentVerdict::Pop => Some(
            if kept.len() > 0 {
                kept.drop_last()
            } else {
                kept
            },
        ),
        SegmentVerdict::Reject => None,
        SegmentVerdict::Skip => Some(kept),
        SegmentVerdict::Keep => Some(kept.push(segment)),
    }
}

/// The segments kept after all of `segments` have been judged in order, or
/// `None` if one of them is rejected.
pub open spec fn fold_segments(segments: Seq<Seq<char>>, hidden_files: bool, strict: bool) -> Option<
    Seq<Seq<char>>,
>
    decreases segments.len(),
{
    if segments.len() == 0 {
        Some(Seq::empty())
    } else {
        match fold_segments(segments.drop_last(), hidden_files, strict) {
            None => None,
            Some(kept) => apply_segment(kept, segments.last(), hidden_files, strict),
        }
    }
}

/// The safe relative path that `path` stands for, or `None` if it holds a
/// rejected segment.
pub open spec fn sanitized(path: Seq<char>, hidden_files: bool, strict: bool) -> Option<
    Seq<Seq<char>>,
> {
    fold_segments(split_segments(path), hidden_files, strict)
}

/// The segments that are not empty, in order.
pub open spec fn solid(segments: Seq<Seq<char>>) -> Seq<Seq<char>>
    decreases segments.len(),
{
    if segments.len() == 0 {
        Seq::empty()
    } else if segments.last().len() > 0 {
        solid(segments.drop_last()).push(segments.last())
    } else {
        solid(segments.drop_last())
    }
}

/// What every segment of a safe relative path satisfies, whatever the mode it
/// was sanitized in.
pub open spec fn plain_segment(segment: Seq<char>) -> bool {
    &&& segment.len() > 0
    &&& !segment.contains('/')
    &&& !(segment =~= seq!['.', '.'])
    &&& segment[0] != '*'
    &&& !ends_unsafely(segment)
}

/// The segments joined by `/`.
pub open spec fn joined(segments: Seq<Seq<char>>) -> Seq<char>
    decreases segments.len(),
{
    if segments.len() == 0 {
        Seq::empty()
    } else if segments.len() == 1 {
        segments[0]
    } else {
        joined(segments.drop_last()) + seq!['/'] + segments.last()
    }
}

/// `name` below `base`: a `/` is put between the two unless `base` is empty
/// or already ends with one.
pub open spec fn below(base: Seq<char>, name: Seq<char>) -> Seq<char> {
    if base.len() == 0 || base.last() == '/' {
        base + name
    } else {
        base + seq!['/'] + name
    }
}

/// A relative path made of safe segments: none is empty, holds a `/`, is
/// `..`, starts with `*` or ends with `:`, `<` or `>`.
#[derive(Debug)]
pub struct SafeRelativePath {
    segments: Vec<String>,
}

impl View for SafeRelativePath {
    type V = Seq<Seq<char>>;

    closed spec fn view(&self) -> Seq<Seq<char>> {
        self.segments.deep_view()
    }
}

/// Whether `result` reports `outcome`: the path on success, a segment error
/// on rejection.
pub open spec fn reports(result: Result<SafeRelativePath, Error>, outcome: Option<Seq<Seq<char>>>) -> bool {
    match outcome {
        Some(segments) => result matches Ok(p) && p@ == segments,
        None => result matches Err(e) && e.kind is UriSegmentError,
    }
}

impl SafeRelativePath {
    #[verifier::type_invariant]
    spec fn inv(self) -> bool {
        forall|i: int| 0 <= i < self.segments.len() ==> plain_segment(#[trigger] self.segments[i]@)
    }

    /// Every segment is a plain segment.
    pub open spec fn wf(self) -> bool {
        forall|i: int| 0 <= i < self@.len() ==> plain_segment(#[trigger] self@[i])
    }

    /// The segments, in order.
    pub fn segments(&self) -> (segments: &Vec<String>)
        ensures
            segments.deep_view() == self@,
            self.wf(),
    {
        proof {
            use_type_invariant(self);
        }
        &self.segments
    }

    /// Whether the path has no segment, and so names the root itself.
    pub fn is_empty(&self) -> (b: bool)
        ensures
            b == (self@.len() == 0),
    {
        self.segments.len() == 0
    }

    /// The last segment, or the empty string for the empty path.
    pub fn file_name(&self) -> (name: String)
        ensures
            name@ == if self@.len() == 0 {
                Seq::<char>::empty()
            } else {
                self@.last()
            },
    {
        let n = self.segments.len();
        if n == 0 {
            String::new()
        } else {
            self.segments[n - 1].clone()
        }
    }

    /// The segments joined by `/`.
    pub fn to_string(&self) -> (text: String)
        ensures
            text@ == joined(self@),
    {
        join_segments(&self.segments)
    }
}

/// The strings of `segments` joined by `/`.
pub fn join_segments(segments: &Vec<String>) -> (text: String)
    ensures
        text@ == joined(segments.deep_view()),
{
    let mut text = String::new();
    let mut i: usize = 0;
    while i < segments.len()
        invariant
            i <= segments.len(),
            text@ == joined(segments.deep_view().take(i as int)),
        decreases segments.len() - i,
    {
        proof {
            let all = segments.deep_view();
            assert(all.take(i + 1).drop_last() == all.take(i as int));
            reveal_strlit("/");
        }
        if i > 0 {
            text.append("/");
        }
        text.append(segments[i].as_str());
        i += 1;
    }
    proof {
        let all = segments.deep_view();
        assert(all.take(all.len() as int) == all);
    }
    text
}

/// The path of `name` below `base`.
pub fn join_path(base: &str, name: &str) -> (path: String)
    ensures
        path@ == below(base@, name@),
{
    let mut path = String::from_str(base);
    if !(base.unicode_len() == 0 || ends_with_char(base, '/')) {
        proof {
            reveal_strlit("/");
        }
        path.append("/");
    }
    path.append(name);
    path
}

/// Tells whether this host treats `\` as a path separator.
///
/// Trusted: `std::path::is_separator`, asked about `\`. The answer depends on
/// the host, so nothing is claimed of it.
#[verifier::external_body]
pub(crate) fn backslash_separates() -> bool {
    std::path::is_separator('\\')
}

fn judge_segment(chars: &Vec<char>, start: usize, end: usize, hidden_files: bool, strict: bool) -> (v:
    SegmentVerdict)
    requires
        start <= end <= chars.len(),
    ensures
        v == judge(chars@.subrange(start as int, end as int), hidden_files, strict),
{
    let len = end - start;
    if len == 2 && chars[start] == '.' && chars[start + 1] == '.' {
        return SegmentVerdict::Pop;
    }
    if len == 0 {
        return SegmentVerdict::Skip;
    }
    let first = chars[start];
    let last = chars[end - 1];
    if !hidden_files && first == '.' {
        return SegmentVerdict::Reject;
    }
    if first == '*' {
        return SegmentVerdict::Reject;
    }
    if last == ':' || last == '>' || last == '<' {
        return SegmentVerdict::Reject;
    }
    if strict && holds_char(chars, start, end, '\\') {
        return SegmentVerdict::Reject;
    }
    SegmentVerdict::Keep
}

/// Sanitizes a percent-decoded request path.
///
/// The path is split at `/` and its segments are judged in order: `..`
/// drops the segment kept last, or does nothing if none is kept; a segment
/// that starts with `.` (unless `hidden_files` is set) or with `*`, or ends
/// with `:`, `>` or `<`, or (if `strict` is set) holds a `\`, rejects the
/// whole path; an empty segment is skipped; any other segment is kept.
pub fn parse_path_on(path: &str, hidden_files: bool, strict: bool) -> (result: Result<
    SafeRelativePath,
    Error,
>)
    ensures
        reports(result, sanitized(path@, hidden_files, strict)),
        result matches Ok(p) ==> p.wf(),
{
    let chars = chars_of(path);
    let n = chars.len();
    let mut buf: Vec<String> = Vec::new();
    let mut rejected = false;
    let mut start: usize = 0;
    let mut i: usize = 0;
    let ghost mut done: Seq<Seq<char>> = Seq::empty();
    assert(path@.subrange(0, 0) =~= Seq::<char>::empty());
    while i < n
        invariant
            chars@ == path@,
            n == chars.len(),
            start <= i <= n,
            split_segments(path@.take(i as int)) == done.push(
                path@.subrange(start as int, i as int),
            ),
            fold_segments(done, hidden_files, strict) == if rejected {
                None
            } else {
                Some(buf.deep_view())
            },
            forall|k: int| start <= k < i ==> path@[k] != '/',
            forall|k: int| 0 <= k < buf.len() ==> plain_segment(#[trigger] buf[k]@),
        decreases n - i,
    {
        let ghost segment = path@.subrange(start as int, i as int);
        assert(path@.take(i + 1).drop_last() == path@.take(i as int));
        if chars[i] == '/' {
            if !rejected {
                rejected = !keep_segment(&mut buf, &chars, start, i, hidden_files, strict);
            }
            proof {
                assert(done.push(segment).drop_last() == done);
                done = done.push(segment);
            }
            start = i + 1;
            assert(path@.subrange(start as int, start as int) == Seq::<char>::empty());
        } else {
            assert(path@.subrange(start as int, i + 1) == segment.push(path@[i as int]));
        }
        i += 1;
    }
    assert(path@.take(n as int) == path@);
    if !rejected {
        rejected = !keep_segment(&mut buf, &chars, start, n, hidden_files, strict);
    }
    proof {
        let segment = path@.subrange(start as int, n as int);
        assert(done.push(segment).drop_last() == done);
    }
    if rejected {
        Err(Error::from_kind(ErrorKind::UriSegmentError))
    } else {
        Ok(SafeRelativePath { segments: buf })
    }
}

/// Judges the segment `chars[start..end]` and applies the verdict to `kept`.
/// Returns `false` if the segment is rejected, and then leaves `kept` alone.
fn keep_segment(
    kept: &mut Vec<String>,
    chars: &Vec<char>,
    start: usize,
    end: usize,
    hidden_files: bool,
    strict: bool,
) -> (accepted: bool)
    requires
        start <= end <= chars.len(),
        forall|k: int| start <= k < end ==> chars@[k] != '/',
        forall|k: int| 0 <= k < old(kept).len() ==> plain_segment(#[trigger] old(kept)[k]@),
    ensures
        match apply_segment(
            old(kept).deep_view(),
            chars@.subrange(start as int, end as int),
            hidden_files,
            strict,
        ) {
            Some(segments) => accepted && final(kept).deep_view() == segments,
            None => !accepted && *final(kept) == *old(kept),
        },
        forall|k: int| 0 <= k < final(kept).len() ==> plain_segment(#[trigger] final(kept)[k]@),
{
    match judge_segment(chars, start, end, hidden_files, strict) {
        SegmentVerdict::Pop => {
            if kept.len() > 0 {
                kept.pop();
            }
            true
        },
        SegmentVerdict::Reject => false,
        SegmentVerdict::Skip => true,
        SegmentVerdict::Keep => {
            let text = string_of(chars, start, end);
            kept.push(text);
            true
        },
    }
}

/// A segment that cannot be kept rejects the path wherever it stands: if any
/// segment of `path` is judged `Reject`, the path has no sanitized form,
/// whatever the segments around it are.
pub proof fn lemma_rejected_segment_rejects_path(
    segments: Seq<Seq<char>>,
    hidden_files: bool,
    strict: bool,
    i: int,
)
    requires
        0 <= i < segments.len(),
        judge(segments[i], hidden_files, strict) == SegmentVerdict::Reject,
    ensures
        fold_segments(segments, hidden_files, strict) is None,
    decreases segments.len(),
{
    if i < segments.len() - 1 {
        lemma_rejected_segment_rejects_path(segments.drop_last(), hidden_files, strict, i);
    }
}

/// A path is rejected if one of its segments starts with `*`, ends with `:`,
/// `<` or `>`, or (unless hidden files are admitted) starts with `.`,
/// whatever the other segments are. The segment `..` is no such segment: it
/// is the request to go one segment up.
pub proof fn lemma_unsafe_segment_rejects(
    path: Seq<char>,
    hidden_files: bool,
    strict: bool,
    i: int,
)
    requires
        0 <= i < split_segments(path).len(),
        !(split_segments(path)[i] =~= seq!['.', '.']),
        split_segments(path)[i].len() > 0,
        (!hidden_files && split_segments(path)[i][0] == '.') || split_segments(path)[i][0] == '*'
            || ends_unsafely(split_segments(path)[i]),
    ensures
        sanitized(path, hidden_files, strict) is None,
{
    lemma_rejected_segment_rejects_path(split_segments(path), hidden_files, strict, i);
}

/// No segment of a path holds a character that the path does not hold.
pub proof fn lemma_segments_hold_path_chars(path: Seq<char>, c: char)
    requires
        !path.contains(c),
    ensures
        forall|i: int|
            0 <= i < split_segments(path).len() ==> !(#[trigger] split_segments(path)[i]).contains(
                c,
            ),
    decreases path.len(),
{
    if path.len() > 0 {
        let front = path.drop_last();
        lemma_segments_hold_path_chars(front, c);
        // the last character of `path` ends a segment of `front` or is added
        // to its last one, and is not `c`
        let before = split_segments(front);
        assert(forall|i: int| 0 <= i < before.len() ==> !(#[trigger] before[i]).contains(c));
        assert(path.last() != c);
    }
}

/// Strictness decides nothing for segments without a `\`.
pub proof fn lemma_strictness_needs_backslash(segments: Seq<Seq<char>>, hidden_files: bool)
    requires
        forall|i: int| 0 <= i < segments.len() ==> !(#[trigger] segments[i]).contains('\\'),
    ensures
        fold_segments(segments, hidden_files, true) == fold_segments(segments, hidden_files, false),
    decreases segments.len(),
{
    if segments.len() > 0 {
        lemma_strictness_needs_backslash(segments.drop_last(), hidden_files);
    }
}

/// A path without a `\` is sanitized alike on every host.
pub proof fn lemma_sanitized_alike_without_backslash(path: Seq<char>, hidden_files: bool)
    requires
        !path.contains('\\'),
    ensures
        sanitized(path, hidden_files, true) == sanitized(path, hidden_files, false),
{
    lemma_segments_hold_path_chars(path, '\\');
    lemma_strictness_needs_backslash(split_segments(path), hidden_files);
}

/// Whether a segment is kept as it is: it is judged `Keep` and holds no `/`.
pub open spec fn keeps(segment: Seq<char>, hidden_files: bool, strict: bool) -> bool {
    judge(segment, hidden_files, strict) == SegmentVerdict::Keep && !segment.contains('/')
}

/// A text without `/` is one segment.
pub proof fn lemma_split_plain(text: Seq<char>)
    requires
        !text.contains('/'),
    ensures
        split_segments(text) == seq![text],
    decreases text.len(),
{
    if text.len() == 0 {
        assert(text =~= Seq::<char>::empty());
    } else {
        let front = text.drop_last();
        lemma_split_plain(front);
        assert(front.push(text.last()) =~= text);
    }
}

/// A `/` and a text without `/` behind a path add the text as one more
/// segment.
pub proof fn lemma_split_one_more(path: Seq<char>, text: Seq<char>)
    requires
        !text.contains('/'),
    ensures
        split_segments(path + seq!['/'] + text) == split_segments(path).push(text),
    decreases text.len(),
{
    let whole = path + seq!['/'] + text;
    if text.len() == 0 {
        assert(whole.drop_last() =~= path);
        assert(text =~= Seq::<char>::empty());
    } else {
        let front = text.drop_last();
        lemma_split_one_more(path, front);
        assert(whole.drop_last() =~= path + seq!['/'] + front);
        assert(front.push(text.last()) =~= text);
    }
}

/// Splitting what was joined gives the segments back, if there is at least
/// one and none holds a `/`.
pub proof fn lemma_split_joined(segments: Seq<Seq<char>>)
    requires
        segments.len() > 0,
        forall|i: int| 0 <= i < segments.len() ==> !(#[trigger] segments[i]).contains('/'),
    ensures
        split_segments(joined(segments)) == segments,
    decreases segments.len(),
{
    if segments.len() == 1 {
        lemma_split_plain(segments[0]);
    } else {
        let front = segments.drop_last();
        lemma_split_joined(front);
        lemma_split_one_more(joined(front), segments.last());
    }
}

/// Empty segments leave no trace: if every segment is kept or empty, what
/// is kept in the end are the segments that are not empty.
pub proof fn lemma_fold_keeps_the_solid(segments: Seq<Seq<char>>, hidden_files: bool, strict: bool)
    requires
        forall|i: int|
            0 <= i < segments.len() ==> (#[trigger] segments[i]).len() == 0 || judge(
                segments[i],
                hidden_files,
                strict,
            ) == SegmentVerdict::Keep,
    ensures
        fold_segments(segments, hidden_files, strict) == Some(solid(segments)),
    decreases segments.len(),
{
    if segments.len() > 0 {
        let front = segments.drop_last();
        lemma_fold_keeps_the_solid(front, hidden_files, strict);
    }
}

/// An empty segment in front of segments that are not empty is all that
/// `solid` drops.
pub proof fn lemma_solid_behind_empty(segments: Seq<Seq<char>>)
    requires
        forall|i: int| 0 <= i < segments.len() ==> (#[trigger] segments[i]).len() > 0,
    ensures
        solid(seq![Seq::<char>::empty()] + segments) == segments,
    decreases segments.len(),
{
    let whole = seq![Seq::<char>::empty()] + segments;
    if segments.len() == 0 {
        assert(solid(whole.drop_last()) =~= Seq::<Seq<char>>::empty());
    } else {
        let front = segments.drop_last();
        lemma_solid_behind_empty(front);
        assert(whole.drop_last() =~= seq![Seq::<char>::empty()] + front);
    }
}

/// Joining behind an empty segment puts a `/` in front.
pub proof fn lemma_joined_behind_empty(segments: Seq<Seq<char>>)
    requires
        segments.len() > 0,
    ensures
        joined(seq![Seq::<char>::empty()] + segments) == seq!['/'] + joined(segments),
    decreases segments.len(),
{
    let whole = seq![Seq::<char>::empty()] + segments;
    if segments.len() == 1 {
        assert(joined(whole.drop_last()) =~= Seq::<char>::empty());
    } else {
        let front = segments.drop_last();
        lemma_joined_behind_empty(front);
        assert(whole.drop_last() =~= seq![Seq::<char>::empty()] + front);
    }
}

/// What is joined from segments that are not empty and hold no `/` is not
/// empty and does not end with `/`.
pub proof fn lemma_joined_ends_plainly(segments: Seq<Seq<char>>)
    requires
        segments.len() > 0,
        segments.last().len() > 0,
        !segments.last().contains('/'),
    ensures
        joined(segments).len() > 0,
        joined(segments).last() != '/',
{
}

/// Going down into a segment and up again leads nowhere: a kept segment
/// followed by `..` at the end of a path leaves what the path stood for
/// without them.
pub proof fn lemma_parent_cancels(
    path: Seq<char>,
    segment: Seq<char>,
    hidden_files: bool,
    strict: bool,
)
    requires
        keeps(segment, hidden_files, strict),
    ensures
        sanitized(path + seq!['/'] + segment + seq!['/'] + seq!['.', '.'], hidden_files, strict)
            == sanitized(path, hidden_files, strict),
{
    let up = seq!['.', '.'];
    let down = path + seq!['/'] + segment;
    let before = split_segments(path);
    lemma_split_one_more(path, segment);
    lemma_split_one_more(down, up);
    let one = before.push(segment);
    let two = one.push(up);
    assert(two.drop_last() =~= one && two.last() == up);
    assert(one.drop_last() =~= before && one.last() == segment);
    match fold_segments(before, hidden_files, strict) {
        Some(kept) => {
            assert(fold_segments(one, hidden_files, strict) == Some(kept.push(segment)));
        },
        None => {},
    }
}

/// Sanitizes a percent-decoded request path as this host requires: like
/// [`parse_path_on`], refusing `\` inside a segment exactly on hosts where
/// `\` separates path components.
pub fn parse_path(path: &str, hidden_files: bool) -> (result: Result<SafeRelativePath, Error>)
    ensures
        exists|strict: bool| reports(result, sanitized(path@, hidden_files, strict)),
        !path@.contains('\\') ==> reports(result, sanitized(path@, hidden_files, false)),
        result matches Ok(p) ==> p.wf(),
{
    let strict = backslash_separates();
    let result = parse_path_on(path, hidden_files, strict);
    proof {
        if !path@.contains('\\') {
            lemma_sanitized_alike_without_backslash(path@, hidden_files);
        }
    }
    result
}

} // verus!
