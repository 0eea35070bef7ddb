use media_server_1::config::{Config, ConfigGeneral};
use media_server_1::resolve::{
    path_components, relative_to_root, resolve, target_path, Canonical, FileKind, IoFailure,
    ResolvedTarget,
};
use media_server_1::util::path::parse_path;

fn config(root: &str, patterns: &[&str]) -> Config {
    Config::new(ConfigGeneral {
        base_dir: root.to_string(),
        exclude_patterns: patterns.iter().map(|p| p.to_string()).collect(),
        bindings: vec![],
        welcome_title: String::new(),
        welcome_content: String::new(),
    })
    .expect("rules compile")
}

fn found(path: &str, kind: FileKind) -> Canonical {
    Canonical::Found { path: path.to_string(), kind }
}

fn owned(parts: &[&str]) -> Vec<String> {
    parts.iter().map(|part| part.to_string()).collect()
}

#[test]
fn components_are_the_non_empty_segments() {
    assert_eq!(path_components("/srv/media"), owned(&["srv", "media"]));
    assert_eq!(path_components("//srv///media/"), owned(&["srv", "media"]));
    assert_eq!(path_components("/"), owned(&[]));
    assert_eq!(path_components(""), owned(&[]));
    assert_eq!(path_components("a"), owned(&["a"]));
}

#[test]
fn containment_is_by_whole_components() {
    assert_eq!(relative_to_root("/srv/media", "/srv/media/movies/a"), Some(owned(&["movies", "a"])));
    assert_eq!(relative_to_root("/srv/media", "/srv/media"), Some(owned(&[])));
    assert_eq!(relative_to_root("/srv/media/", "/srv/media/x"), Some(owned(&["x"])));
    assert_eq!(relative_to_root("/", "/etc/passwd"), Some(owned(&["etc", "passwd"])));
    assert_eq!(relative_to_root("/srv/media", "/srv/media-old/x"), None);
    assert_eq!(relative_to_root("/srv/media", "/srv/med"), None);
    assert_eq!(relative_to_root("/srv/media", "/srv"), None);
    assert_eq!(relative_to_root("/srv/media", "/etc/passwd"), None);
}

#[test]
fn target_is_below_the_root() {
    let config = config("/srv/media", &[]);
    assert_eq!(target_path(&config, &parse_path("movies/a.mp4", false).unwrap()), "/srv/media/movies/a.mp4");
    assert_eq!(target_path(&config, &parse_path("", false).unwrap()), "/srv/media/");
}

#[test]
fn files_and_directories_below_the_root_resolve() {
    let config = config("/srv/media", &["^logs"]);
    let asked = parse_path("movies/a.mp4", false).unwrap();
    match resolve(&config, &asked, &found("/srv/media/movies/a.mp4", FileKind::File)) {
        ResolvedTarget::File(path) => assert_eq!(path, "/srv/media/movies/a.mp4"),
        other => panic!("unexpected {other:?}"),
    }
    let asked = parse_path("movies", false).unwrap();
    match resolve(&config, &asked, &found("/srv/media/movies", FileKind::Directory)) {
        ResolvedTarget::Directory(path) => assert_eq!(path, "/srv/media/movies"),
        other => panic!("unexpected {other:?}"),
    }
}

#[test]
fn a_path_that_escapes_the_root_is_not_found() {
    let config = config("/srv/media", &[]);
    let asked = parse_path("link", false).unwrap();
    for kind in [FileKind::File, FileKind::Directory, FileKind::Other] {
        assert!(matches!(
            resolve(&config, &asked, &found("/etc/passwd", kind)),
            ResolvedTarget::NotFound
        ));
        assert!(matches!(
            resolve(&config, &asked, &found("/srv/media-old/a", kind)),
            ResolvedTarget::NotFound
        ));
        assert!(matches!(resolve(&config, &asked, &found("/srv", kind)), ResolvedTarget::NotFound));
    }
}

#[test]
fn a_hidden_path_is_not_found() {
    let config = config("/srv/media", &["^logs"]);
    let asked = parse_path("logs/x", false).unwrap();
    assert!(matches!(
        resolve(&config, &asked, &found("/srv/media/logs/x", FileKind::File)),
        ResolvedTarget::NotFound
    ));
    // hidden by where the path really lies
    let asked = parse_path("shortcut", false).unwrap();
    assert!(matches!(
        resolve(&config, &asked, &found("/srv/media/logs/x", FileKind::File)),
        ResolvedTarget::NotFound
    ));
    // hidden by how the path was asked for
    let asked = parse_path("logs/link", false).unwrap();
    assert!(matches!(
        resolve(&config, &asked, &found("/srv/media/public/x", FileKind::File)),
        ResolvedTarget::NotFound
    ));
    // rules are relative to the root
    let asked = parse_path("archive/logs-2019/file", false).unwrap();
    assert!(matches!(
        resolve(&config, &asked, &found("/srv/media/archive/logs-2019/file", FileKind::File)),
        ResolvedTarget::File(_)
    ));
}

#[test]
fn a_hidden_path_is_not_found_whatever_the_host_says() {
    let config = config("/srv/media", &["^logs"]);
    let asked = parse_path("logs/x", false).unwrap();
    for found in [
        Canonical::Failed(IoFailure::NotFound),
        Canonical::Failed(IoFailure::PermissionDenied),
        Canonical::Failed(IoFailure::Other),
        found("/srv/media/logs/x", FileKind::Other),
        found("/srv/media/logs/x", FileKind::Directory),
    ] {
        assert!(matches!(resolve(&config, &asked, &found), ResolvedTarget::NotFound));
    }
}

#[test]
fn host_failures_are_classified() {
    let config = config("/srv/media", &[]);
    let asked = parse_path("a", false).unwrap();
    assert!(matches!(
        resolve(&config, &asked, &Canonical::Failed(IoFailure::NotFound)),
        ResolvedTarget::NotFound
    ));
    assert!(matches!(
        resolve(&config, &asked, &Canonical::Failed(IoFailure::PermissionDenied)),
        ResolvedTarget::Forbidden
    ));
    match resolve(&config, &asked, &Canonical::Failed(IoFailure::Other)) {
        ResolvedTarget::InternalError(cause) => assert_eq!(cause, "Canonicalize path"),
        other => panic!("unexpected {other:?}"),
    }
    match resolve(&config, &asked, &found("/srv/media/a", FileKind::Other)) {
        ResolvedTarget::InternalError(cause) => assert_eq!(cause, "Classify path"),
        other => panic!("unexpected {other:?}"),
    }
}
