//! The errors of the request handlers, and how each is reported to a client.

use crate::util::web::{json_err, JsonReply};
use vstd::prelude::*;
use vstd::string::StringExecFns;

verus! {

/// What went wrong.
#[derive(Debug, Clone)]
pub enum ErrorKind {
    /// A free-form message.
    Msg(String),
    /// The configuration could not be loaded.
    ConfigLoadError(String),
    /// An unexpected failure while looking a path up for the index.
    FilesIndexUnknownError(String),
    /// The raw file route refused the request.
    FilesLimiterError,
    /// The request used a method other than `GET` or `HEAD`.
    InvalidMethodError,
    /// The request path holds a segment that is not accepted.
    UriSegmentError,
}

/// An [`ErrorKind`] as a mathematical value.
pub enum Fault {
    Msg(Seq<char>),
    ConfigLoadError(Seq<char>),
    FilesIndexUnknownError(Seq<char>),
    FilesLimiterError,
    InvalidMethodError,
    UriSegmentError,
}

impl View for ErrorKind {
    type V = Fault;

    open spec fn view(&self) -> Fault {
        match *self {
            ErrorKind::Msg(msg) => Fault::Msg(msg@),
            ErrorKind::ConfigLoadError(msg) => Fault::ConfigLoadError(msg@),
            ErrorKind::FilesIndexUnknownError(msg) => Fault::FilesIndexUnknownError(msg@),
            ErrorKind::FilesLimiterError => Fault::FilesLimiterError,
            ErrorKind::InvalidMethodError => Fault::InvalidMethodError,
            ErrorKind::UriSegmentError => Fault::UriSegmentError,
        }
    }
}

/// An error together with the causes that led to it, outermost first.
#[derive(Debug, Clone)]
pub struct Error {
    pub kind: ErrorKind,
    pub causes: Vec<String>,
}

/// The body that tells a client which class of error occurred.
#[derive(Debug, Clone, Copy, PartialEq, Eq, Structural)]
pub enum JsonError {
    InternalServerError,
    InvalidMethodError,
}

/// What is sent back for an error: a status with a JSON body, or a bare status.
#[derive(Debug)]
pub enum ErrorReply {
    Json(JsonReply<(), JsonError>),
    Empty { status: u16 },
}

/// The text that describes an error kind.
pub open spec fn kind_text(kind: ErrorKind) -> Seq<char> {
    match kind {
        ErrorKind::Msg(msg) => msg@,
        ErrorKind::ConfigLoadError(msg) => "Error loading config: "@ + msg@,
        ErrorKind::FilesIndexUnknownError(msg) => "Error during index lookup: "@ + msg@,
        ErrorKind::FilesLimiterError => "FilesLimiterError"@,
        ErrorKind::InvalidMethodError => "InvalidMethodError"@,
        ErrorKind::UriSegmentError => "UriSegmentError"@,
    }
}

/// The HTTP status that reports an error kind.
pub open spec fn kind_status(kind: ErrorKind) -> u16 {
    match kind {
        ErrorKind::FilesLimiterError => 404,
        ErrorKind::InvalidMethodError => 405,
        ErrorKind::UriSegmentError => 400,
        _ => 500,
    }
}

/// The JSON body that reports an error kind, if it has one.
pub open spec fn kind_body(kind: ErrorKind) -> Option<JsonError> {
    match kind {
        ErrorKind::FilesLimiterError => None,
        ErrorKind::InvalidMethodError => Some(JsonError::InvalidMethodError),
        ErrorKind::UriSegmentError => None,
        _ => Some(JsonError::InternalServerError),
    }
}

/// The lines `Caused by: <cause>`, one per cause, each ended by a newline.
pub open spec fn causes_text(causes: Seq<Seq<char>>) -> Seq<char>
    decreases causes.len(),
{
    if causes.len() == 0 {
        Seq::empty()
    } else {
        causes_text(causes.drop_last()) + "Caused by: "@ + causes.last() + "\n"@
    }
}

/// The full report of an error: its own line, then one line per cause.
pub open spec fn chain_text(kind: ErrorKind, causes: Seq<Seq<char>>) -> Seq<char> {
    "Error: "@ + kind_text(kind) + "\n"@ + causes_text(causes)
}

impl ErrorKind {
    /// The text that describes this kind.
    pub fn message(&self) -> (text: String)
        ensures
            text@ == kind_text(*self),
    {
        match self {
            ErrorKind::Msg(msg) => msg.clone(),
            ErrorKind::ConfigLoadError(msg) => {
                let mut text = String::from_str("Error loading config: ");
                text.append(msg.as_str());
                text
            },
            ErrorKind::FilesIndexUnknownError(msg) => {
                let mut text = String::from_str("Error during index lookup: ");
                text.append(msg.as_str());
                text
            },
            ErrorKind::FilesLimiterError => String::from_str("FilesLimiterError"),
            ErrorKind::InvalidMethodError => String::from_str("InvalidMethodError"),
            ErrorKind::UriSegmentError => String::from_str("UriSegmentError"),
        }
    }
}

impl Error {
    /// An error of the given kind with no known cause.
    pub fn from_kind(kind: ErrorKind) -> (e: Error)
        ensures
            e.kind == kind,
            e.causes@.len() == 0,
    {
        Error { kind, causes: Vec::new() }
    }

    /// The HTTP status that reports this error.
    pub fn status_code(&self) -> (status: u16)
        ensures
            status == kind_status(self.kind),
    {
        match self.kind {
            ErrorKind::FilesLimiterError => 404,
            ErrorKind::InvalidMethodError => 405,
            ErrorKind::UriSegmentError => 400,
            _ => 500,
        }
    }

    /// The JSON body that reports this error, or `None` where only the status
    /// is sent.
    pub fn handle(&self) -> (body: Option<JsonError>)
        ensures
            body == kind_body(self.kind),
    {
        match self.kind {
            ErrorKind::FilesLimiterError => None,
            ErrorKind::InvalidMethodError => Some(JsonError::InvalidMethodError),
            ErrorKind::UriSegmentError => None,
            _ => Some(JsonError::InternalServerError),
        }
    }

    /// The reply that reports this error to a client.
    pub fn error_response(&self) -> (reply: ErrorReply)
        ensures
            match kind_body(self.kind) {
                Some(json) => reply matches ErrorReply::Json(r) && r.status == kind_status(
                    self.kind,
                ) && r.body == Err::<(), JsonError>(json),
                None => reply matches ErrorReply::Empty { status } && status == kind_status(
                    self.kind,
                ),
            },
    {
        match self.handle() {
            Some(json) => ErrorReply::Json(json_err(self.status_code(), json)),
            None => ErrorReply::Empty { status: self.status_code() },
        }
    }

    /// The report of this error for the server's log: the error's own line,
    /// then one line for each cause.
    pub fn log(&self) -> (report: String)
        ensures
            report@ == chain_text(self.kind, self.causes.deep_view()),
    {
        let mut report = String::from_str("Error: ");
        let text = self.kind.message();
        report.append(text.as_str());
        report.append("\n");
        let ghost head = report@;
        let mut i: usize = 0;
        while i < self.causes.len()
            invariant
                i <= self.causes.len(),
                report@ == head + causes_text(self.causes.deep_view().take(i as int)),
            decreases self.causes.len() - i,
        {
            proof {
                let all = self.causes.deep_view();
                assert(all.take(i + 1).drop_last() == all.take(i as int));
            }
            report.append("Caused by: ");
            report.append(self.causes[i].as_str());
            report.append("\n");
            i += 1;
        }
        proof {
            let all = self.causes.deep_view();
            assert(all.take(all.len() as int) == all);
        }
        report
    }
}

} // verus!
