use media_server_1::cdn::files::{service, FilesLimiterMiddleware, RawStep};
use media_server_1::config::{Config, ConfigGeneral};
use media_server_1::error::ErrorKind;
use media_server_1::listing::{EntryKind, Scan, ScannedEntry};
use media_server_1::resolve::{Canonical, FileKind, IoFailure};

fn limiter(patterns: &[&str]) -> FilesLimiterMiddleware {
    let config = Config::new(ConfigGeneral {
        base_dir: "/srv/media".to_string(),
        exclude_patterns: patterns.iter().map(|p| p.to_string()).collect(),
        bindings: vec![],
        welcome_title: String::new(),
        welcome_content: String::new(),
    })
    .expect("rules compile");
    service(&config).new_transform()
}

fn found(path: &str, kind: FileKind) -> Canonical {
    Canonical::Found { path: path.to_string(), kind }
}

fn not_found(step: RawStep) {
    match step {
        RawStep::Refuse(e) => {
            assert!(matches!(e.kind, ErrorKind::FilesLimiterError));
            assert_eq!(e.status_code(), 404);
            assert_eq!(e.handle(), None);
        }
        other => panic!("unexpected {other:?}"),
    }
}

#[test]
fn visible_paths_pass() {
    let limiter = limiter(&["^logs", "\\.jar$"]);
    assert_eq!(limiter.call("/movies/a.mp4").unwrap().to_string(), "movies/a.mp4");
    assert_eq!(limiter.call("movies/../shows").unwrap().to_string(), "shows");
    assert!(limiter.call("").unwrap().is_empty());
}

#[test]
fn hidden_and_malformed_paths_are_not_found_alike() {
    let limiter = limiter(&["^logs", "\\.jar$"]);
    for matched in ["/logs/x", "logs", "/lib/b.jar", "/.git/config", "/a/*", "/a:", "x/../logs"] {
        let e = limiter.call(matched).expect_err(matched);
        assert!(matches!(e.kind, ErrorKind::FilesLimiterError), "{matched}");
        assert_eq!(e.status_code(), 404);
        assert_eq!(e.handle(), None);
    }
}

#[test]
fn strict_separators_refuse_backslashes() {
    let mut limiter = limiter(&[]);
    assert!(limiter.call("a\\b").is_ok());
    limiter.config.strict_separators = true;
    assert!(limiter.call("a\\b").is_err());
    assert!(limiter.call("a/b").is_ok());
}

#[test]
fn files_are_served_and_directories_browsed() {
    let limiter = limiter(&[]);
    let relative = limiter.call("/movies/a.mp4").unwrap();
    match limiter.browse("/cdn/files/movies/a.mp4", &relative, &found("/srv/media/movies/a.mp4", FileKind::File)) {
        RawStep::Serve { file } => assert_eq!(file, "/srv/media/movies/a.mp4"),
        other => panic!("unexpected {other:?}"),
    }
    let relative = limiter.call("/movies").unwrap();
    match limiter.browse("/cdn/files/movies", &relative, &found("/srv/media/movies", FileKind::Directory)) {
        RawStep::Redirect { location } => assert_eq!(location, "/cdn/files/movies/"),
        other => panic!("unexpected {other:?}"),
    }
    match limiter.browse("/cdn/files/movies/", &relative, &found("/srv/media/movies", FileKind::Directory)) {
        RawStep::ReadDir { directory } => assert_eq!(directory, "/srv/media/movies"),
        other => panic!("unexpected {other:?}"),
    }
}

#[test]
fn what_cannot_be_shown_is_not_found() {
    let limiter = limiter(&["^logs"]);
    let relative = limiter.call("/link").unwrap();
    not_found(limiter.browse("/cdn/files/link", &relative, &Canonical::Failed(IoFailure::NotFound)));
    not_found(limiter.browse("/cdn/files/link", &relative, &Canonical::Failed(IoFailure::PermissionDenied)));
    not_found(limiter.browse("/cdn/files/link", &relative, &found("/etc/passwd", FileKind::File)));
    not_found(limiter.browse("/cdn/files/link", &relative, &found("/srv/media/logs/x", FileKind::File)));
    match limiter.browse("/cdn/files/link", &relative, &Canonical::Failed(IoFailure::Other)) {
        RawStep::Refuse(e) => {
            assert_eq!(e.status_code(), 500);
            assert_eq!(e.kind.message(), "Canonicalize path: /cdn/files/link");
        }
        other => panic!("unexpected {other:?}"),
    }
}

#[test]
fn the_listing_page_shows_the_visible_children() {
    let limiter = limiter(&["\\.jar$"]);
    let relative = limiter.call("/movies/").unwrap();
    let scanned = Scan::Entries(vec![
        ScannedEntry::Child { name: "a.mp4".to_string(), kind: Some(EntryKind::File) },
        ScannedEntry::Child { name: "b.jar".to_string(), kind: Some(EntryKind::File) },
    ]);
    let page = limiter
        .directory_page("/cdn/files/movies/", &relative, "/srv/media/movies", &scanned)
        .unwrap();
    assert_eq!(
        page,
        "<html><head><title>Index of /cdn/files/movies/</title></head><body><h1>Index of /cdn/files/movies/</h1><ul><li><a href=\"/cdn/files/movies/a.mp4\">a.mp4</a></li></ul></body>\n</html>"
    );
    let e = limiter.directory_page("/cdn/files/movies/", &relative, "/etc", &scanned).unwrap_err();
    assert_eq!(e.status_code(), 404);
    let e = limiter
        .directory_page(
            "/cdn/files/movies/",
            &relative,
            "/srv/media/movies",
            &Scan::Entries(vec![ScannedEntry::Unreadable]),
        )
        .unwrap_err();
    assert_eq!(e.status_code(), 500);
    assert_eq!(e.kind.message(), "Unwrapping DirEntry: /cdn/files/movies/");
    for failure in [IoFailure::NotFound, IoFailure::PermissionDenied] {
        let e = limiter
            .directory_page("/cdn/files/movies/", &relative, "/srv/media/movies", &Scan::Failed(failure))
            .unwrap_err();
        assert!(matches!(e.kind, ErrorKind::FilesLimiterError));
        assert_eq!(e.status_code(), 404);
    }
    let e = limiter
        .directory_page("/cdn/files/movies/", &relative, "/srv/media/movies", &Scan::Failed(IoFailure::Other))
        .unwrap_err();
    assert_eq!(e.status_code(), 500);
    assert_eq!(e.kind.message(), "Canonicalize path: /cdn/files/movies/");
}
