use media_server_1::error::{Error, ErrorKind, ErrorReply, JsonError};
use media_server_1::util::web::{json_err, json_ok, json_ok_status};
use media_server_1::util::{w_err, w_ok};

#[test]
fn result_wrappers() {
    assert_eq!(w_ok(5), Ok(5));
    assert_eq!(w_err("e"), Err("e"));
}

#[test]
fn json_replies() {
    let ok = json_ok("data");
    assert_eq!((ok.status, ok.body), (200, Ok("data")));
    let ok = json_ok_status(404, "data");
    assert_eq!((ok.status, ok.body), (404, Ok("data")));
    let err = json_err(405, JsonError::InvalidMethodError);
    assert_eq!((err.status, err.body), (405, Err(JsonError::InvalidMethodError)));
}

#[test]
fn status_of_each_kind() {
    assert_eq!(Error::from_kind(ErrorKind::FilesLimiterError).status_code(), 404);
    assert_eq!(Error::from_kind(ErrorKind::InvalidMethodError).status_code(), 405);
    assert_eq!(Error::from_kind(ErrorKind::UriSegmentError).status_code(), 400);
    assert_eq!(Error::from_kind(ErrorKind::Msg("m".into())).status_code(), 500);
    assert_eq!(Error::from_kind(ErrorKind::ConfigLoadError("m".into())).status_code(), 500);
    assert_eq!(Error::from_kind(ErrorKind::FilesIndexUnknownError("m".into())).status_code(), 500);
}

#[test]
fn body_of_each_kind() {
    assert_eq!(Error::from_kind(ErrorKind::FilesLimiterError).handle(), None);
    assert_eq!(Error::from_kind(ErrorKind::UriSegmentError).handle(), None);
    assert_eq!(
        Error::from_kind(ErrorKind::InvalidMethodError).handle(),
        Some(JsonError::InvalidMethodError)
    );
    assert_eq!(
        Error::from_kind(ErrorKind::Msg("m".into())).handle(),
        Some(JsonError::InternalServerError)
    );
    assert_eq!(
        Error::from_kind(ErrorKind::ConfigLoadError("m".into())).handle(),
        Some(JsonError::InternalServerError)
    );
}

#[test]
fn error_replies() {
    match Error::from_kind(ErrorKind::InvalidMethodError).error_response() {
        ErrorReply::Json(reply) => {
            assert_eq!(reply.status, 405);
            assert_eq!(reply.body, Err(JsonError::InvalidMethodError));
        }
        other => panic!("unexpected {other:?}"),
    }
    match Error::from_kind(ErrorKind::FilesLimiterError).error_response() {
        ErrorReply::Empty { status } => assert_eq!(status, 404),
        other => panic!("unexpected {other:?}"),
    }
    match Error::from_kind(ErrorKind::UriSegmentError).error_response() {
        ErrorReply::Empty { status } => assert_eq!(status, 400),
        other => panic!("unexpected {other:?}"),
    }
    match Error::from_kind(ErrorKind::FilesIndexUnknownError("x".into())).error_response() {
        ErrorReply::Json(reply) => {
            assert_eq!(reply.status, 500);
            assert_eq!(reply.body, Err(JsonError::InternalServerError));
        }
        other => panic!("unexpected {other:?}"),
    }
}

#[test]
fn messages_and_reports() {
    assert_eq!(ErrorKind::ConfigLoadError("bad".into()).message(), "Error loading config: bad");
    assert_eq!(
        ErrorKind::FilesIndexUnknownError("bad".into()).message(),
        "Error during index lookup: bad"
    );
    assert_eq!(ErrorKind::FilesLimiterError.message(), "FilesLimiterError");
    assert_eq!(ErrorKind::InvalidMethodError.message(), "InvalidMethodError");
    assert_eq!(ErrorKind::UriSegmentError.message(), "UriSegmentError");
    assert_eq!(ErrorKind::Msg("plain".into()).message(), "plain");

    let mut e = Error::from_kind(ErrorKind::ConfigLoadError("Error parsing regex".into()));
    assert_eq!(e.log(), "Error: Error loading config: Error parsing regex\n");
    e.causes.push("regex parse error".to_string());
    e.causes.push("deeper".to_string());
    assert_eq!(
        e.log(),
        "Error: Error loading config: Error parsing regex\nCaused by: regex parse error\nCaused by: deeper\n"
    );
}
