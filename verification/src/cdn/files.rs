//! The limiter in front of the raw file route: nothing is served or listed
//! unless its path is safe and no exclusion rule hides it.

use crate::config::Config;
use crate::error::{Error, ErrorKind, Fault};
use crate::listing::{html_page, listed, render, render_html, Listed, Listing, Scan, Scanned};
use crate::resolve::{
    canonicalize_cause,
    resolution,
    resolve,
    Canonical,
    CanonicalView,
    IoFailure,
    Resolution,
    ResolvedTarget,
};
use crate::util::path::{joined, parse_path_on, sanitized, SafeRelativePath};
use crate::util::text::{concat_str, ends_with_char};
use vstd::prelude::*;
use vstd::string::StringExecFns;

verus! {

/// What the raw route does next for a request that passed the limiter.
#[derive(Debug)]
pub enum RawStep {
    /// The bytes of the file `file` are served.
    Serve { file: String },
    /// A redirect (status 302) to `location`.
    Redirect { location: String },
    /// The host is to enumerate `directory` for its listing page.
    ReadDir { directory: String },
    /// The request is refused with this error.
    Refuse(Error),
}

/// A [`RawStep`] as a mathematical value.
pub enum Raw {
    Serve { file: Seq<char> },
    Redirect { location: Seq<char> },
    ReadDir { directory: Seq<char> },
    Refuse(Fault),
}

impl View for RawStep {
    type V = Raw;

    open spec fn view(&self) -> Raw {
        match *self {
            RawStep::Serve { file } => Raw::Serve { file: file@ },
            RawStep::Redirect { location } => Raw::Redirect { location: location@ },
            RawStep::ReadDir { directory } => Raw::ReadDir { directory: directory@ },
            RawStep::Refuse(e) => Raw::Refuse(e.kind@),
        }
    }
}

/// The safe relative path of a request that passes the limiter: the matched
/// path must sanitize, and no exclusion rule may match the result. `None`
/// if the limiter refuses the request.
pub open spec fn admitted(config: Config, matched: Seq<char>) -> Option<Seq<Seq<char>>> {
    match sanitized(matched, false, config.strict_separators) {
        Some(relative) => if config.visible(joined(relative)) {
            Some(relative)
        } else {
            None
        },
        None => None,
    }
}

/// The fault of an unexpected failure on the raw route.
pub open spec fn raw_fault(cause: Seq<char>, path: Seq<char>) -> Fault {
    Fault::Msg(cause + ": "@ + path)
}

/// The step after canonicalizing on the raw route: a file is served; a
/// directory is enumerated if the request path ends with `/`, and else
/// redirected to the path with `/` added; what is missing, hidden, outside
/// the root or not readable is refused as not found, alike; anything else
/// is an internal error.
pub open spec fn raw_step(
    config: Config,
    request_path: Seq<char>,
    relative: Seq<Seq<char>>,
    found: CanonicalView,
) -> Raw {
    match resolution(config, relative, found) {
        Resolution::File(file) => Raw::Serve { file },
        Resolution::Directory(directory) => if request_path.len() > 0 && request_path.last()
            == '/' {
            Raw::ReadDir { directory }
        } else {
            Raw::Redirect { location: request_path + seq!['/'] }
        },
        Resolution::NotFound => Raw::Refuse(Fault::FilesLimiterError),
        Resolution::Forbidden => Raw::Refuse(Fault::FilesLimiterError),
        Resolution::InternalError(cause) => Raw::Refuse(raw_fault(cause, request_path)),
    }
}

/// The fault for a directory that the host could not enumerate: not found
/// if it is missing or may not be read, alike; else an internal error.
pub open spec fn scan_fault(failure: IoFailure, request_path: Seq<char>) -> Fault {
    match failure {
        IoFailure::NotFound => Fault::FilesLimiterError,
        IoFailure::PermissionDenied => Fault::FilesLimiterError,
        IoFailure::Other => raw_fault(canonicalize_cause(), request_path),
    }
}

/// The listing page of a directory, or the fault that takes its place: the
/// page lists the visible children; a directory outside the root is not
/// found; an entry that the host could not read is an internal error.
pub open spec fn page_of(
    config: Config,
    request_path: Seq<char>,
    relative: Seq<Seq<char>>,
    directory: Seq<char>,
    scanned: Seq<Scanned>,
) -> Result<Seq<char>, Fault> {
    match listed(config, directory, request_path, seq!['/'] + joined(relative), scanned) {
        Listed::Children(children) => Ok(html_page(request_path, children)),
        Listed::Outside => Err(Fault::FilesLimiterError),
        Listed::Broken => Err(raw_fault("Unwrapping DirEntry"@, request_path)),
    }
}

/// The factory of the limiter.
#[derive(Debug, Clone)]
pub struct FilesLimiter {
    pub config: Config,
}

/// The limiter in front of the raw file route.
#[derive(Debug, Clone)]
pub struct FilesLimiterMiddleware {
    pub config: Config,
}

/// The factory of the limiter for a configuration.
pub fn service(config: &Config) -> (limiter: FilesLimiter)
    ensures
        limiter.config.same_as(*config),
{
    FilesLimiter { config: config.clone() }
}

/// The error of an unexpected failure on the raw route.
fn raw_error(cause: &str, request_path: &str) -> (e: Error)
    ensures
        e.kind@ == raw_fault(cause@, request_path@),
{
    let mut text = String::from_str(cause);
    text.append(": ");
    text.append(request_path);
    Error::from_kind(ErrorKind::Msg(text))
}

impl FilesLimiter {
    /// A limiter with this factory's configuration.
    pub fn new_transform(&self) -> (limiter: FilesLimiterMiddleware)
        ensures
            limiter.config.same_as(self.config),
    {
        FilesLimiterMiddleware { config: self.config.clone() }
    }
}

impl FilesLimiterMiddleware {
    /// Decides whether a request passes the limiter, by the percent-decoded
    /// part of its path behind the mount point. A request passes with its
    /// sanitized path; any other is refused as not found, whether its path
    /// is unacceptable or hidden.
    pub fn call(&self, matched: &str) -> (passed: Result<SafeRelativePath, Error>)
        ensures
            match admitted(self.config, matched@) {
                Some(relative) => passed matches Ok(path) && path@ == relative,
                None => passed matches Err(e) && e.kind@ == Fault::FilesLimiterError,
            },
    {
        match parse_path_on(matched, false, self.config.strict_separators) {
            Err(_) => Err(Error::from_kind(ErrorKind::FilesLimiterError)),
            Ok(relative) => {
                let text = relative.to_string();
                if self.config.is_legal_path(text.as_str()) {
                    Ok(relative)
                } else {
                    Err(Error::from_kind(ErrorKind::FilesLimiterError))
                }
            },
        }
    }

    /// Decides what follows for a request that passed the limiter, from what
    /// the host found when it canonicalized its target.
    pub fn browse(&self, request_path: &str, relative: &SafeRelativePath, found: &Canonical) -> (step:
        RawStep)
        ensures
            step@ == raw_step(self.config, request_path@, relative@, found@),
    {
        match resolve(&self.config, relative, found) {
            ResolvedTarget::File(file) => RawStep::Serve { file },
            ResolvedTarget::Directory(directory) => {
                if ends_with_char(request_path, '/') {
                    RawStep::ReadDir { directory }
                } else {
                    proof {
                        reveal_strlit("/");
                        assert("/"@ == seq!['/']);
                    }
                    RawStep::Redirect { location: concat_str(request_path, "/") }
                }
            },
            ResolvedTarget::NotFound => RawStep::Refuse(
                Error::from_kind(ErrorKind::FilesLimiterError),
            ),
            ResolvedTarget::Forbidden => RawStep::Refuse(
                Error::from_kind(ErrorKind::FilesLimiterError),
            ),
            ResolvedTarget::InternalError(cause) => RawStep::Refuse(
                raw_error(cause.as_str(), request_path),
            ),
        }
    }

    /// Renders the listing page of a directory from what the host found
    /// when it enumerated it.
    pub fn directory_page(
        &self,
        request_path: &str,
        relative: &SafeRelativePath,
        directory: &str,
        scan: &Scan,
    ) -> (page: Result<String, Error>)
        ensures
            match (match *scan {
                Scan::Failed(failure) => Err(scan_fault(failure, request_path@)),
                Scan::Entries(scanned) => page_of(
                    self.config,
                    request_path@,
                    relative@,
                    directory@,
                    scanned.deep_view(),
                ),
            }) {
                Ok(text) => page matches Ok(html) && html@ == text,
                Err(fault) => page matches Err(e) && e.kind@ == fault,
            },
    {
        let scanned = match scan {
            Scan::Failed(IoFailure::Other) => {
                return Err(raw_error("Canonicalize path", request_path));
            },
            Scan::Failed(_) => {
                return Err(Error::from_kind(ErrorKind::FilesLimiterError));
            },
            Scan::Entries(scanned) => scanned,
        };
        let inner = relative.to_string();
        let path_base = concat_str("/", inner.as_str());
        proof {
            reveal_strlit("/");
            assert("/"@ == seq!['/']);
        }
        match render(&self.config, directory, request_path, path_base.as_str(), scanned) {
            Listing::Children(children) => Ok(render_html(request_path, &children)),
            Listing::Outside => Err(Error::from_kind(ErrorKind::FilesLimiterError)),
            Listing::Broken => Err(raw_error("Unwrapping DirEntry", request_path)),
        }
    }
}

} // verus!
