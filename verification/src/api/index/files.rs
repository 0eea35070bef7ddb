//! The file index: answers what a requested path is. The handler decides;
//! its caller performs the file system work between the steps.

use crate::config::Config;
use crate::error::{Error, ErrorKind, Fault};
use crate::listing::{listed, render, DirectoryEntry, Entry, Listed, Listing, Scan, Scanned};
use crate::resolve::{
    canonicalize_cause,
    resolution,
    resolve,
    target_of,
    target_path,
    Canonical,
    CanonicalView,
    IoFailure,
    Resolution,
    ResolvedTarget,
};
use crate::util::encode::{percent_encode_path, percent_encoded};
use crate::util::path::{joined, parse_path_on, sanitized, SafeRelativePath};
use crate::util::text::{concat_str, ends_with_char};
use crate::util::web::{json_ok, JsonReply};
use vstd::prelude::*;
use vstd::string::StringExecFns;

verus! {

/// The method of a request, as far as the index tells methods apart.
#[derive(Debug, Clone, Copy, PartialEq, Eq, Structural)]
pub enum Method {
    Get,
    Head,
    Other,
}

/// A request to the index.
#[derive(Debug)]
pub struct IndexRequest {
    pub method: Method,
    /// The full path of the request.
    pub path: String,
    /// The percent-decoded part of the path behind the mount point.
    pub matched: String,
}

/// An [`IndexRequest`] as a mathematical value.
pub struct Request {
    pub method: Method,
    pub path: Seq<char>,
    pub matched: Seq<char>,
}

impl View for IndexRequest {
    type V = Request;

    open spec fn view(&self) -> Request {
        Request { method: self.method, path: self.path@, matched: self.matched@ }
    }
}

/// Why the index has nothing to show for a path.
#[derive(Debug, Clone, Copy, PartialEq, Eq, Structural)]
pub enum IndexError {
    NotFound,
    Forbidden,
}

/// What the index says a path is.
#[derive(Debug)]
pub enum EntryDetail {
    Directory { children: Vec<DirectoryEntry> },
    Error { error: IndexError },
    File { url: String },
}

/// An [`EntryDetail`] as a mathematical value.
pub enum Detail {
    Directory { children: Seq<Entry> },
    Error { error: IndexError },
    File { url: Seq<char> },
}

impl View for EntryDetail {
    type V = Detail;

    open spec fn view(&self) -> Detail {
        match *self {
            EntryDetail::Directory { children } => Detail::Directory {
                children: children.deep_view(),
            },
            EntryDetail::Error { error } => Detail::Error { error },
            EntryDetail::File { url } => Detail::File { url: url@ },
        }
    }
}

/// The answer of the index for one path.
#[derive(Debug)]
pub struct EntryInfo {
    pub detail: EntryDetail,
    /// The last segment of the sanitized path; empty for the root.
    pub name: String,
    /// The matched path, percent-encoded.
    pub path: String,
    /// The matched path as it was requested.
    pub path_pretty: String,
}

/// An [`EntryInfo`] as a mathematical value.
pub struct Info {
    pub detail: Detail,
    pub name: Seq<char>,
    pub path: Seq<char>,
    pub path_pretty: Seq<char>,
}

impl View for EntryInfo {
    type V = Info;

    open spec fn view(&self) -> Info {
        Info {
            detail: self.detail@,
            name: self.name@,
            path: self.path@,
            path_pretty: self.path_pretty@,
        }
    }
}

/// What the index sends back.
#[derive(Debug)]
pub enum IndexReply {
    /// An answer in the success envelope.
    Json(JsonReply<EntryInfo, ()>),
    /// A redirect (status 302) to `location`.
    Redirect { location: String },
    /// An error, reported as its kind prescribes.
    Failure(Error),
}

/// An [`IndexReply`] as a mathematical value.
pub enum Reply {
    Json { status: u16, body: Result<Info, ()> },
    Redirect { location: Seq<char> },
    Failure(Fault),
}

impl View for IndexReply {
    type V = Reply;

    open spec fn view(&self) -> Reply {
        match *self {
            IndexReply::Json(reply) => Reply::Json {
                status: reply.status,
                body: match reply.body {
                    Ok(info) => Ok(info@),
                    Err(e) => Err(e),
                },
            },
            IndexReply::Redirect { location } => Reply::Redirect { location: location@ },
            IndexReply::Failure(e) => Reply::Failure(e.kind@),
        }
    }
}

/// How the handler takes a request up.
#[derive(Debug)]
pub enum FirstStep {
    /// The request is answered.
    Reply(IndexReply),
    /// The host is to canonicalize `target` and say what it names; the
    /// handler resumes with the answer.
    Canonicalize { relative: SafeRelativePath, target: String },
}

/// A [`FirstStep`] as a mathematical value.
pub enum First {
    Reply(Reply),
    Canonicalize { relative: Seq<Seq<char>>, target: Seq<char> },
}

impl View for FirstStep {
    type V = First;

    open spec fn view(&self) -> First {
        match *self {
            FirstStep::Reply(reply) => First::Reply(reply@),
            FirstStep::Canonicalize { relative, target } => First::Canonicalize {
                relative: relative@,
                target: target@,
            },
        }
    }
}

/// How the handler goes on once the target is canonicalized.
#[derive(Debug)]
pub enum NextStep {
    /// The request is answered.
    Reply(IndexReply),
    /// The host is to enumerate `directory`; the handler renders what it
    /// finds.
    ReadDir { directory: String },
}

/// A [`NextStep`] as a mathematical value.
pub enum Next {
    Reply(Reply),
    ReadDir { directory: Seq<char> },
}

impl View for NextStep {
    type V = Next;

    open spec fn view(&self) -> Next {
        match *self {
            NextStep::Reply(reply) => Next::Reply(reply@),
            NextStep::ReadDir { directory } => Next::ReadDir { directory: directory@ },
        }
    }
}

/// The mount point of the raw file route, which serves the files themselves.
pub open spec fn cdn_files_url() -> Seq<char> {
    "/cdn/files"@
}

/// The last segment of a relative path; empty for the empty path.
pub open spec fn last_segment(relative: Seq<Seq<char>>) -> Seq<char> {
    if relative.len() == 0 {
        Seq::empty()
    } else {
        relative.last()
    }
}

/// The answer about the requested path with the given detail.
pub open spec fn info_of(request: Request, name: Seq<char>, detail: Detail) -> Info {
    Info { detail, name, path: percent_encoded(request.matched), path_pretty: request.matched }
}

/// The answer, with status 200, that the requested path is not shown.
pub open spec fn error_info(request: Request, name: Seq<char>, error: IndexError) -> Reply {
    Reply::Json { status: 200, body: Ok(info_of(request, name, Detail::Error { error })) }
}

/// The fault of an unexpected failure: what was being done, and the path of
/// the request.
pub open spec fn unknown_fault(cause: Seq<char>, path: Seq<char>) -> Fault {
    Fault::FilesIndexUnknownError(cause + ": "@ + path)
}

/// The reply to a request whose file system work failed: a missing path and
/// a denied one are answers with status 200, anything else is an internal
/// error.
pub open spec fn io_error_reply(failure: IoFailure, request: Request, name: Seq<char>) -> Reply {
    match failure {
        IoFailure::NotFound => error_info(request, name, IndexError::NotFound),
        IoFailure::PermissionDenied => error_info(request, name, IndexError::Forbidden),
        IoFailure::Other => Reply::Failure(unknown_fault(canonicalize_cause(), request.path)),
    }
}

/// The first step for a request: a method other than `GET` and `HEAD` is
/// refused, a path with an unacceptable segment is a bad request, and any
/// other request has the sanitized path canonicalized below the root.
pub open spec fn first_step(config: Config, request: Request) -> First {
    if request.method is Other {
        First::Reply(Reply::Failure(Fault::InvalidMethodError))
    } else {
        match sanitized(request.matched, false, config.strict_separators) {
            None => First::Reply(Reply::Failure(Fault::UriSegmentError)),
            Some(relative) => First::Canonicalize { relative, target: target_of(config, relative) },
        }
    }
}

/// The step that follows canonicalizing: a file is described with the link
/// that serves it; a directory is enumerated if the request path ends with
/// `/`, and else redirected to the path with `/` added; what is missing,
/// hidden or outside the root is not found; what may not be read is
/// forbidden; anything else is an internal error.
pub open spec fn next_step(
    config: Config,
    request: Request,
    relative: Seq<Seq<char>>,
    found: CanonicalView,
) -> Next {
    let name = last_segment(relative);
    match resolution(config, relative, found) {
        Resolution::File(_) => Next::Reply(
            Reply::Json {
                status: 200,
                body: Ok(
                    info_of(
                        request,
                        name,
                        Detail::File { url: cdn_files_url() + percent_encoded(request.matched) },
                    ),
                ),
            },
        ),
        Resolution::Directory(directory) => if request.path.len() > 0 && request.path.last()
            == '/' {
            Next::ReadDir { directory }
        } else {
            Next::Reply(Reply::Redirect { location: request.path + seq!['/'] })
        },
        Resolution::NotFound => Next::Reply(error_info(request, name, IndexError::NotFound)),
        Resolution::Forbidden => Next::Reply(error_info(request, name, IndexError::Forbidden)),
        Resolution::InternalError(cause) => Next::Reply(
            Reply::Failure(unknown_fault(cause, request.path)),
        ),
    }
}

/// What was being done when an entry of a directory could not be read.
pub open spec fn entry_cause() -> Seq<char> {
    "Unwrapping DirEntry"@
}

/// The answer for a directory from what the host enumerated in it: the
/// visible children, linked below the request path and placed below the
/// requested path; not found if the directory lies outside the root.
pub open spec fn directory_reply(
    config: Config,
    request: Request,
    relative: Seq<Seq<char>>,
    directory: Seq<char>,
    scanned: Seq<Scanned>,
) -> Reply {
    let name = last_segment(relative);
    match listed(config, directory, request.path, seq!['/'] + joined(relative), scanned) {
        Listed::Children(children) => Reply::Json {
            status: 200,
            body: Ok(info_of(request, name, Detail::Directory { children })),
        },
        Listed::Outside => error_info(request, name, IndexError::NotFound),
        Listed::Broken => Reply::Failure(unknown_fault(entry_cause(), request.path)),
    }
}

/// The error of an unexpected failure while `cause` was being done for the
/// request.
pub fn unknown_err(request: &IndexRequest, cause: &str) -> (kind: ErrorKind)
    ensures
        kind@ == unknown_fault(cause@, request.path@),
{
    let mut text = String::from_str(cause);
    text.append(": ");
    text.append(request.path.as_str());
    ErrorKind::FilesIndexUnknownError(text)
}

/// The answer, with status 200, about the requested path.
pub fn entry_reply(request: &IndexRequest, name: String, detail: EntryDetail) -> (reply: IndexReply)
    ensures
        reply@ == (Reply::Json { status: 200, body: Ok(info_of(request@, name@, detail@)) }),
{
    IndexReply::Json(
        json_ok(
            EntryInfo {
                detail,
                name,
                path: percent_encode_path(request.matched.as_str()),
                path_pretty: request.matched.clone(),
            },
        ),
    )
}

/// The reply to a request whose file system work failed.
pub fn response_from_io_error(failure: IoFailure, request: &IndexRequest, name: String) -> (reply:
    IndexReply)
    ensures
        reply@ == io_error_reply(failure, request@, name@),
{
    match failure {
        IoFailure::NotFound => entry_reply(
            request,
            name,
            EntryDetail::Error { error: IndexError::NotFound },
        ),
        IoFailure::PermissionDenied => entry_reply(
            request,
            name,
            EntryDetail::Error { error: IndexError::Forbidden },
        ),
        IoFailure::Other => IndexReply::Failure(
            Error::from_kind(unknown_err(request, "Canonicalize path")),
        ),
    }
}

/// Renders a directory for the index from what the host found when it
/// enumerated it.
pub fn render_directory(
    config: &Config,
    request: &IndexRequest,
    relative: &SafeRelativePath,
    directory: &str,
    scan: &Scan,
) -> (reply: IndexReply)
    ensures
        reply@ == match *scan {
            Scan::Failed(failure) => io_error_reply(failure, request@, last_segment(relative@)),
            Scan::Entries(scanned) => directory_reply(
                *config,
                request@,
                relative@,
                directory@,
                scanned.deep_view(),
            ),
        },
{
    let name = relative.file_name();
    match scan {
        Scan::Failed(failure) => response_from_io_error(*failure, request, name),
        Scan::Entries(scanned) => {
            let inner = relative.to_string();
            let path_base = concat_str("/", inner.as_str());
            proof {
                reveal_strlit("/");
                assert("/"@ == seq!['/']);
            }
            match render(config, directory, request.path.as_str(), path_base.as_str(), scanned) {
                Listing::Children(children) => entry_reply(
                    request,
                    name,
                    EntryDetail::Directory { children },
                ),
                Listing::Outside => entry_reply(
                    request,
                    name,
                    EntryDetail::Error { error: IndexError::NotFound },
                ),
                Listing::Broken => IndexReply::Failure(
                    Error::from_kind(unknown_err(request, "Unwrapping DirEntry")),
                ),
            }
        },
    }
}

/// The handler of the file index.
#[derive(Debug, Clone)]
pub struct FilesIndexService {
    pub config: Config,
}

/// The handler of the file index for a configuration.
pub fn files(config: &Config) -> (service: FilesIndexService)
    ensures
        service.config.same_as(*config),
{
    FilesIndexService { config: config.clone() }
}

impl FilesIndexService {
    /// Takes a request up: checks its method and sanitizes its path.
    pub fn call(&self, request: &IndexRequest) -> (step: FirstStep)
        ensures
            step@ == first_step(self.config, request@),
    {
        match request.method {
            Method::Other => {
                return FirstStep::Reply(
                    IndexReply::Failure(Error::from_kind(ErrorKind::InvalidMethodError)),
                );
            },
            _ => {},
        }
        match parse_path_on(request.matched.as_str(), false, self.config.strict_separators) {
            Err(e) => FirstStep::Reply(IndexReply::Failure(e)),
            Ok(relative) => {
                let target = target_path(&self.config, &relative);
                FirstStep::Canonicalize { relative, target }
            },
        }
    }

    /// Resumes a request with what the host found when it canonicalized the
    /// target.
    pub fn resume(&self, request: &IndexRequest, relative: &SafeRelativePath, found: &Canonical) -> (step:
        NextStep)
        ensures
            step@ == next_step(self.config, request@, relative@, found@),
    {
        let name = relative.file_name();
        match resolve(&self.config, relative, found) {
            ResolvedTarget::File(_) => {
                let encoded = percent_encode_path(request.matched.as_str());
                let url = concat_str("/cdn/files", encoded.as_str());
                NextStep::Reply(entry_reply(request, name, EntryDetail::File { url }))
            },
            ResolvedTarget::Directory(directory) => {
                if ends_with_char(request.path.as_str(), '/') {
                    NextStep::ReadDir { directory }
                } else {
                    proof {
                        reveal_strlit("/");
                        assert("/"@ == seq!['/']);
                    }
                    NextStep::Reply(
                        IndexReply::Redirect { location: concat_str(request.path.as_str(), "/") },
                    )
                }
            },
            ResolvedTarget::NotFound => NextStep::Reply(
                entry_reply(request, name, EntryDetail::Error { error: IndexError::NotFound }),
            ),
            ResolvedTarget::Forbidden => NextStep::Reply(
                entry_reply(request, name, EntryDetail::Error { error: IndexError::Forbidden }),
            ),
            ResolvedTarget::InternalError(cause) => NextStep::Reply(
                IndexReply::Failure(Error::from_kind(unknown_err(request, cause.as_str()))),
            ),
        }
    }
}

} // verus!
