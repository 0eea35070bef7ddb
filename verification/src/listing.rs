//! Listing the visible children of a directory, as records for the index
//! and as a page for browsing.

use crate::config::Config;
use crate::resolve::{relative_below, relative_to_root, IoFailure};
use crate::util::encode::{percent_encode_path, percent_encoded};
use crate::util::path::{below, join_path, join_segments, joined};
use crate::util::text::{chars_of, push_char};
use vstd::prelude::*;
use vstd::string::StringExecFns;

verus! {

/// Whether a listed entry is a directory or a file.
#[derive(Debug, Clone, Copy, PartialEq, Eq, Structural)]
pub enum EntryKind {
    Directory,
    File,
}

/// One entry as the host enumerated it.
#[derive(Debug)]
pub enum ScannedEntry {
    /// The host failed to read the entry itself.
    Unreadable,
    /// A child by its name, with its kind unless its metadata could not be
    /// read.
    Child { name: String, kind: Option<EntryKind> },
}

/// A [`ScannedEntry`] as a mathematical value.
pub enum Scanned {
    Unreadable,
    Child { name: Seq<char>, kind: Option<EntryKind> },
}

impl DeepView for ScannedEntry {
    type V = Scanned;

    open spec fn deep_view(&self) -> Scanned {
        match *self {
            ScannedEntry::Unreadable => Scanned::Unreadable,
            ScannedEntry::Child { name, kind } => Scanned::Child { name: name@, kind },
        }
    }
}

/// What the host found when it enumerated a directory.
#[derive(Debug)]
pub enum Scan {
    /// The entries, in the order of enumeration.
    Entries(Vec<ScannedEntry>),
    /// The directory could not be enumerated.
    Failed(IoFailure),
}

/// One visible child of a listed directory.
#[derive(Debug)]
pub struct DirectoryEntry {
    pub name: String,
    pub kind: EntryKind,
    /// The percent-encoded link to the child.
    pub url: String,
    /// The percent-encoded path of the child below the root, with a leading
    /// `/`.
    pub path: String,
}

/// A [`DirectoryEntry`] as a mathematical value.
pub struct Entry {
    pub name: Seq<char>,
    pub kind: EntryKind,
    pub url: Seq<char>,
    pub path: Seq<char>,
}

impl DeepView for DirectoryEntry {
    type V = Entry;

    open spec fn deep_view(&self) -> Entry {
        Entry { name: self.name@, kind: self.kind, url: self.url@, path: self.path@ }
    }
}

/// The outcome of listing a directory.
#[derive(Debug)]
pub enum Listing {
    /// The visible children, in the order of enumeration.
    Children(Vec<DirectoryEntry>),
    /// The directory does not lie at or below the root: nothing is listed.
    Outside,
    /// The host failed to read one of the entries.
    Broken,
}

/// A [`Listing`] as a mathematical value.
pub enum Listed {
    Children(Seq<Entry>),
    Outside,
    Broken,
}

impl View for Listing {
    type V = Listed;

    open spec fn view(&self) -> Listed {
        match *self {
            Listing::Children(children) => Listed::Children(children.deep_view()),
            Listing::Outside => Listed::Outside,
            Listing::Broken => Listed::Broken,
        }
    }
}

/// What is put behind the link and the path of an entry of this kind: `/`
/// for a directory, nothing for a file.
pub open spec fn kind_suffix(kind: EntryKind) -> Seq<char> {
    match kind {
        EntryKind::Directory => seq!['/'],
        EntryKind::File => Seq::empty(),
    }
}

/// The record of the child `name`: its link is the percent-encoded path of
/// the name below `url_base`, its path that below `path_base`, both ended
/// by `/` for a directory.
pub open spec fn entry_of(
    url_base: Seq<char>,
    path_base: Seq<char>,
    name: Seq<char>,
    kind: EntryKind,
) -> Entry {
    Entry {
        name,
        kind,
        url: percent_encoded(below(url_base, name)) + kind_suffix(kind),
        path: percent_encoded(below(path_base, name)) + kind_suffix(kind),
    }
}

/// The records of the visible children among `scanned`, in order. A child is
/// listed if its kind is known and no exclusion rule matches its path
/// relative to the root, which is its name below `directory`.
pub open spec fn visible_children(
    config: Config,
    directory: Seq<Seq<char>>,
    url_base: Seq<char>,
    path_base: Seq<char>,
    scanned: Seq<Scanned>,
) -> Seq<Entry>
    decreases scanned.len(),
{
    if scanned.len() == 0 {
        Seq::empty()
    } else {
        let before = visible_children(config, directory, url_base, path_base, scanned.drop_last());
        match scanned.last() {
            Scanned::Child { name, kind: Some(kind) } => if config.visible(
                joined(directory.push(name)),
            ) {
                before.push(entry_of(url_base, path_base, name, kind))
            } else {
                before
            },
            _ => before,
        }
    }
}

/// Whether the host failed to read one of the entries.
pub open spec fn any_unreadable(scanned: Seq<Scanned>) -> bool {
    exists|i: int| 0 <= i < scanned.len() && #[trigger] scanned[i] is Unreadable
}

/// The listing of the directory `directory`, a canonical absolute path,
/// from the entries that the host enumerated in it.
pub open spec fn listed(
    config: Config,
    directory: Seq<char>,
    url_base: Seq<char>,
    path_base: Seq<char>,
    scanned: Seq<Scanned>,
) -> Listed {
    match relative_below(config.base_dir@, directory) {
        None => Listed::Outside,
        Some(relative) => if any_unreadable(scanned) {
            Listed::Broken
        } else {
            Listed::Children(visible_children(config, relative, url_base, path_base, scanned))
        },
    }
}

/// Lists the visible children of a directory.
///
/// `directory` is the canonical absolute path of the directory, `scanned`
/// what the host enumerated in it, in its order. Hidden children and
/// children whose metadata could not be read are left out without notice;
/// an entry that could not be read at all breaks the listing; a directory
/// outside the root lists nothing.
pub fn render(
    config: &Config,
    directory: &str,
    url_base: &str,
    path_base: &str,
    scanned: &Vec<ScannedEntry>,
) -> (listing: Listing)
    ensures
        listing@ == listed(*config, directory@, url_base@, path_base@, scanned.deep_view()),
{
    let relative = match relative_to_root(config.base_dir.as_str(), directory) {
        None => {
            return Listing::Outside;
        },
        Some(relative) => relative,
    };
    let prefix = join_segments(&relative);
    let ghost above = relative.deep_view();
    let ghost all = scanned.deep_view();
    let mut children: Vec<DirectoryEntry> = Vec::new();
    let mut i: usize = 0;
    while i < scanned.len()
        invariant
            i <= scanned.len(),
            all == scanned.deep_view(),
            above == relative.deep_view(),
            relative_below(config.base_dir@, directory@) == Some(above),
            prefix@ == joined(above),
            forall|k: int| 0 <= k < i ==> !(#[trigger] all[k] is Unreadable),
            children.deep_view() == visible_children(
                *config,
                above,
                url_base@,
                path_base@,
                all.take(i as int),
            ),
        decreases scanned.len() - i,
    {
        proof {
            assert(all.take(i + 1).drop_last() == all.take(i as int));
            assert(all.take(i + 1).last() == all[i as int]);
        }
        match &scanned[i] {
            ScannedEntry::Unreadable => {
                return Listing::Broken;
            },
            ScannedEntry::Child { name, kind: Some(kind) } => {
                let from_root = if relative.len() == 0 {
                    name.clone()
                } else {
                    let mut text = prefix.clone();
                    text.append("/");
                    text.append(name.as_str());
                    text
                };
                proof {
                    reveal_strlit("/");
                    assert("/"@ == seq!['/']);
                    assert(above.push(name@).drop_last() == above);
                }
                if config.is_legal_path(from_root.as_str()) {
                    let ghost before = children.deep_view();
                    let entry = make_entry(url_base, path_base, name.as_str(), *kind);
                    children.push(entry);
                    assert(children.deep_view() =~= before.push(
                        entry_of(url_base@, path_base@, name@, *kind),
                    ));
                }
            },
            ScannedEntry::Child { name, kind: None } => {},
        }
        i += 1;
    }
    assert(all.take(scanned.len() as int) == all);
    Listing::Children(children)
}

/// The record of one child.
pub fn make_entry(url_base: &str, path_base: &str, name: &str, kind: EntryKind) -> (entry:
    DirectoryEntry)
    ensures
        entry.deep_view() == entry_of(url_base@, path_base@, name@, kind),
{
    let link = join_path(url_base, name);
    let place = join_path(path_base, name);
    let mut url = percent_encode_path(link.as_str());
    let mut path = percent_encode_path(place.as_str());
    match kind {
        EntryKind::Directory => {
            proof {
                reveal_strlit("/");
                assert("/"@ == seq!['/']);
            }
            url.append("/");
            path.append("/");
        },
        EntryKind::File => {},
    }
    DirectoryEntry { name: String::from_str(name), kind, url, path }
}

/// What a character becomes in HTML text: the entity for `&`, `<`, `>`, `"`
/// and `'`, the character itself otherwise.
pub open spec fn html_escaped_char(c: char) -> Seq<char> {
    if c == '&' {
        "&amp;"@
    } else if c == '<' {
        "&lt;"@
    } else if c == '>' {
        "&gt;"@
    } else if c == '"' {
        "&quot;"@
    } else if c == '\'' {
        "&#x27;"@
    } else {
        seq![c]
    }
}

/// A text with each character escaped for HTML.
pub open spec fn html_escaped(text: Seq<char>) -> Seq<char>
    decreases text.len(),
{
    if text.len() == 0 {
        Seq::empty()
    } else {
        html_escaped(text.drop_last()) + html_escaped_char(text.last())
    }
}

/// The list item of one entry: a link to it, labelled with its escaped name,
/// which a `/` follows for a directory.
pub open spec fn html_item(entry: Entry) -> Seq<char> {
    "<li><a href=\""@ + entry.url + "\">"@ + html_escaped(entry.name) + kind_suffix(entry.kind)
        + "</a></li>"@
}

/// The list items of the entries, in order.
pub open spec fn html_items(entries: Seq<Entry>) -> Seq<char>
    decreases entries.len(),
{
    if entries.len() == 0 {
        Seq::empty()
    } else {
        html_items(entries.drop_last()) + html_item(entries.last())
    }
}

/// The page that lists the entries under the title `Index of` and the
/// escaped request path.
pub open spec fn html_page(request_path: Seq<char>, entries: Seq<Entry>) -> Seq<char> {
    "<html><head><title>Index of "@ + html_escaped(request_path) + "</title></head><body><h1>Index of "@
        + html_escaped(request_path) + "</h1><ul>"@ + html_items(entries) + "</ul></body>\n</html>"@
}

/// Appends `text`, escaped for HTML, to `page`.
pub fn push_escaped(page: &mut String, text: &str)
    ensures
        final(page)@ == old(page)@ + html_escaped(text@),
{
    let chars = chars_of(text);
    let ghost start = page@;
    let mut i: usize = 0;
    while i < chars.len()
        invariant
            i <= chars.len(),
            chars@ == text@,
            page@ == start + html_escaped(text@.take(i as int)),
        decreases chars.len() - i,
    {
        let c = chars[i];
        proof {
            assert(text@.take(i + 1).drop_last() == text@.take(i as int));
        }
        if c == '&' {
            page.append("&amp;");
        } else if c == '<' {
            page.append("&lt;");
        } else if c == '>' {
            page.append("&gt;");
        } else if c == '"' {
            page.append("&quot;");
        } else if c == '\'' {
            page.append("&#x27;");
        } else {
            push_char(page, c);
        }
        i += 1;
    }
    assert(text@.take(chars.len() as int) == text@);
}

/// Renders the page that lists `entries` for the decoded request path
/// `request_path`: one list item per entry, in order, each a link to the
/// entry's `url` labelled with its escaped name.
pub fn render_html(request_path: &str, entries: &Vec<DirectoryEntry>) -> (page: String)
    ensures
        page@ == html_page(request_path@, entries.deep_view()),
{
    let mut page = String::from_str("<html><head><title>Index of ");
    push_escaped(&mut page, request_path);
    page.append("</title></head><body><h1>Index of ");
    push_escaped(&mut page, request_path);
    page.append("</h1><ul>");
    let ghost head = page@;
    let ghost all = entries.deep_view();
    let mut i: usize = 0;
    while i < entries.len()
        invariant
            i <= entries.len(),
            all == entries.deep_view(),
            page@ == head + html_items(all.take(i as int)),
        decreases entries.len() - i,
    {
        let entry = &entries[i];
        proof {
            assert(all.take(i + 1).drop_last() == all.take(i as int));
        }
        page.append("<li><a href=\"");
        page.append(entry.url.as_str());
        page.append("\">");
        push_escaped(&mut page, entry.name.as_str());
        match entry.kind {
            EntryKind::Directory => {
                proof {
                    reveal_strlit("/");
                }
                page.append("/");
            },
            EntryKind::File => {},
        }
        page.append("</a></li>");
        i += 1;
    }
    assert(all.take(entries.len() as int) == all);
    page.append("</ul></body>\n</html>");
    page
}

} // verus!
