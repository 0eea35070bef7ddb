use media_server_1::config::{Config, ConfigGeneral};
use media_server_1::listing::{
    make_entry, render, render_html, DirectoryEntry, EntryKind, Listing, ScannedEntry,
};
use media_server_1::util::path::parse_path;
use percent_encoding::percent_decode_str;

fn config(root: &str, patterns: &[&str]) -> Config {
    Config::new(ConfigGeneral {
        base_dir: root.to_string(),
        exclude_patterns: patterns.iter().map(|p| p.to_string()).collect(),
        bindings: vec![],
        welcome_title: String::new(),
        welcome_content: String::new(),
    })
    .expect("rules compile")
}

fn file(name: &str) -> ScannedEntry {
    ScannedEntry::Child { name: name.to_string(), kind: Some(EntryKind::File) }
}

fn dir(name: &str) -> ScannedEntry {
    ScannedEntry::Child { name: name.to_string(), kind: Some(EntryKind::Directory) }
}

fn children(listing: Listing) -> Vec<DirectoryEntry> {
    match listing {
        Listing::Children(children) => children,
        other => panic!("unexpected {other:?}"),
    }
}

fn owned(parts: &[&str]) -> Vec<String> {
    parts.iter().map(|part| part.to_string()).collect()
}

#[test]
fn excluded_children_are_not_listed() {
    let config = config("/srv/media", &["\\.jar$"]);
    let scanned = vec![file("a.mp4"), file("b.jar")];
    let listed = children(render(&config, "/srv/media/movies", "/cdn/files/movies/", "/movies", &scanned));
    assert_eq!(listed.len(), 1);
    assert_eq!(listed[0].name, "a.mp4");
    assert_eq!(listed[0].kind, EntryKind::File);
    assert_eq!(listed[0].url, "/cdn/files/movies/a.mp4");
    assert_eq!(listed[0].path, "/movies/a.mp4");
    let page = render_html("/cdn/files/movies/", &listed);
    assert_eq!(
        page,
        "<html><head><title>Index of /cdn/files/movies/</title></head><body><h1>Index of /cdn/files/movies/</h1><ul><li><a href=\"/cdn/files/movies/a.mp4\">a.mp4</a></li></ul></body>\n</html>"
    );
    assert_eq!(page.matches("<li>").count(), 1);
    assert!(!page.contains("b.jar"));
}

#[test]
fn children_keep_the_order_of_enumeration() {
    let config = config("/srv/media", &[]);
    let scanned = vec![file("z"), dir("m"), file("a")];
    let listed = children(render(&config, "/srv/media", "/x/", "/", &scanned));
    let names: Vec<&str> = listed.iter().map(|entry| entry.name.as_str()).collect();
    assert_eq!(names, ["z", "m", "a"]);
}

#[test]
fn directories_end_with_a_slash() {
    let config = config("/srv/media", &[]);
    let listed = children(render(&config, "/srv/media", "/api/v1/index/files/", "/", &vec![dir("sci fi")]));
    assert_eq!(listed[0].kind, EntryKind::Directory);
    assert_eq!(listed[0].url, "/api/v1/index/files/sci%20fi/");
    assert_eq!(listed[0].path, "/sci%20fi/");
    let page = render_html("/", &listed);
    assert!(page.contains("<li><a href=\"/api/v1/index/files/sci%20fi/\">sci fi/</a></li>"));
}

#[test]
fn unreadable_metadata_is_skipped_and_unreadable_entries_break() {
    let config = config("/srv/media", &[]);
    let scanned = vec![
        file("a"),
        ScannedEntry::Child { name: "gone".to_string(), kind: None },
        file("b"),
    ];
    let listed = children(render(&config, "/srv/media", "/x/", "/", &scanned));
    assert_eq!(listed.len(), 2);
    let scanned = vec![file("a"), ScannedEntry::Unreadable, file("b")];
    assert!(matches!(render(&config, "/srv/media", "/x/", "/", &scanned), Listing::Broken));
}

#[test]
fn a_directory_outside_the_root_lists_nothing() {
    let config = config("/srv/media", &[]);
    assert!(matches!(render(&config, "/etc", "/x/", "/", &vec![file("passwd")]), Listing::Outside));
    assert!(matches!(
        render(&config, "/srv/media-old", "/x/", "/", &vec![ScannedEntry::Unreadable]),
        Listing::Outside
    ));
}

#[test]
fn rules_apply_to_the_path_from_the_root() {
    let config = config("/srv/media", &["^logs"]);
    let at_root = children(render(&config, "/srv/media", "/x/", "/", &vec![dir("logs"), dir("archive")]));
    assert_eq!(at_root.len(), 1);
    assert_eq!(at_root[0].name, "archive");
    let deeper = children(render(&config, "/srv/media/archive", "/x/archive/", "/archive", &vec![dir("logs")]));
    assert_eq!(deeper.len(), 1);
    assert_eq!(deeper[0].name, "logs");
    let inside = children(render(&config, "/srv/media/logs", "/x/logs/", "/logs", &vec![file("x")]));
    assert!(inside.is_empty());
}

#[test]
fn entry_links() {
    let entry = make_entry("/cdn/files/a", "/a", "b c", EntryKind::File);
    assert_eq!(entry.url, "/cdn/files/a/b%20c");
    assert_eq!(entry.path, "/a/b%20c");
    let entry = make_entry("", "/", "\u{fc}", EntryKind::Directory);
    assert_eq!(entry.url, "%C3%BC/");
    assert_eq!(entry.path, "/%C3%BC/");
}

#[test]
fn names_and_title_are_escaped_in_the_page() {
    let entries = vec![
        make_entry("/f/", "/", "a<b>&\"c'.txt", EntryKind::File),
        make_entry("/f/", "/", "d", EntryKind::Directory),
    ];
    let page = render_html("/f/<x>&", &entries);
    assert_eq!(
        page,
        "<html><head><title>Index of /f/&lt;x&gt;&amp;</title></head><body><h1>Index of /f/&lt;x&gt;&amp;</h1><ul><li><a href=\"/f/a%3Cb%3E%26%22c%27.txt\">a&lt;b&gt;&amp;&quot;c&#x27;.txt</a></li><li><a href=\"/f/d/\">d/</a></li></ul></body>\n</html>"
    );
    assert_eq!(
        render_html("/", &vec![]),
        "<html><head><title>Index of /</title></head><body><h1>Index of /</h1><ul></ul></body>\n</html>"
    );
}

#[test]
fn links_lead_back_to_the_children() {
    let config = config("/srv/media", &[]);
    let mount = "/api/v1/index/files";
    let scanned = vec![file("a b.mp4"), dir("\u{65e5}\u{672c}"), file("100%+x_y-z.mkv"), file("q?#")];
    let listed = children(render(
        &config,
        "/srv/media/movies/sci fi",
        "/api/v1/index/files/movies/sci fi/",
        "/movies/sci fi",
        &scanned,
    ));
    assert_eq!(listed.len(), 4);
    for entry in &listed {
        let expected = owned(&["movies", "sci fi", entry.name.as_str()]);
        let path = percent_decode_str(&entry.path).decode_utf8().unwrap();
        assert_eq!(parse_path(&path, false).unwrap().segments(), &expected);
        let url = percent_decode_str(&entry.url).decode_utf8().unwrap();
        let behind = url.strip_prefix(mount).expect("below the mount point");
        assert_eq!(parse_path(behind, false).unwrap().segments(), &expected);
    }
}
