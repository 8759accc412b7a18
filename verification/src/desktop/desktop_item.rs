//! One item of the desktop: a file, a directory, a link or the entry of an
//! application, and the choice of the application that opens it.
use vstd::prelude::*;
use crate::helpers::search::{first_index, kept, lemma_first_index, lemma_kept_step};
use crate::helpers::text::{has_text, same_text, split, str_split, texts};

verus! {

/// The section of a desktop file that describes the entry.
pub const DESKTOP_ENTRY: &'static str = "Desktop Entry";

/// The type of a directory.
pub const INODE_DIR: &'static str = "inode/directory";

/// What `freedesktop_entry_parser::Entry::get` finds in what
/// `freedesktop_entry_parser::Entry::parse` reads from the text of a
/// desktop file: the values of an attribute of a section; none where the
/// text is no desktop file or has no such section.
pub uninterp spec fn entry_values(
    content: Seq<char>,
    section: Seq<char>,
    attr: Seq<char>,
) -> Option<Seq<Seq<char>>>;

/// `freedesktop_entry_parser::Entry::parse`, then
/// `freedesktop_entry_parser::Entry::get` on the entry that it gives: the
/// values depend on the text, the section and the attribute alone.
#[verifier::external_body]
fn parse_values(content: &str, section: &str, attr: &str) -> (r: Option<Vec<String>>)
    ensures
        match r {
            Some(values) => entry_values(content@, section@, attr@) == Some(texts(values@)),
            None => entry_values(content@, section@, attr@) is None,
        },
{
    match freedesktop_entry_parser::Entry::parse(content) {
        Ok(entry) => entry.get(section, attr).map(|values| values.to_vec()),
        Err(_) => None,
    }
}

/// What `mime_guess::from_path` guesses first for a path, by its
/// extension, as `mime::Mime` writes it; the type of arbitrary bytes where
/// it has no guess.
pub uninterp spec fn guessed_mime(path: Seq<char>) -> Seq<char>;

/// `mime_guess::from_path`, then `MimeGuess::first_or_octet_stream`: the
/// guess depends on the path alone, and no disk is read for it.
#[verifier::external_body]
fn guess_mime(path: &str) -> (r: String)
    ensures
        r@ == guessed_mime(path@),
{
    mime_guess::from_path(path).first_or_octet_stream().to_string()
}

/// What `std::path::Path::file_name` gives for a path: its last
/// component, where it has one that names something.
pub uninterp spec fn file_name_of(path: Seq<char>) -> Option<Seq<char>>;

/// `std::path::Path::file_name`: the last component of the path, which
/// depends on the path alone.
#[verifier::external_body]
fn file_name(path: &str) -> (r: Option<String>)
    ensures
        match r {
            Some(name) => file_name_of(path@) == Some(name@),
            None => file_name_of(path@) is None,
        },
{
    std::path::Path::new(path).file_name().map(|name| name.to_string_lossy().into_owned())
}

/// What `std::path::Path::extension` gives for a path: what follows the
/// last dot of its last component, where there is one.
pub uninterp spec fn extension_of(path: Seq<char>) -> Option<Seq<char>>;

/// `std::path::Path::extension`: the extension of the path, which depends
/// on the path alone.
#[verifier::external_body]
fn extension(path: &str) -> (r: Option<String>)
    ensures
        match r {
            Some(ext) => extension_of(path@) == Some(ext@),
            None => extension_of(path@) is None,
        },
{
    std::path::Path::new(path).extension().map(|ext| ext.to_string_lossy().into_owned())
}

/// The first of the values, where there is one.
pub open spec fn first_of(values: Option<Seq<Seq<char>>>) -> Option<Seq<char>> {
    match values {
        Some(v) => if v.len() > 0 {
            Some(v[0])
        } else {
            None
        },
        None => None,
    }
}

/// The value of an attribute of the entry that a desktop file describes.
pub open spec fn attr_of(content: Seq<char>, attr: Seq<char>) -> Option<Seq<char>> {
    first_of(entry_values(content, DESKTOP_ENTRY@, attr))
}

/// The value of an attribute of the entry that a desktop file describes.
pub fn entry_attr(content: &str, attr: &str) -> (r: Option<String>)
    ensures
        match r {
            Some(value) => attr_of(content@, attr@) == Some(value@),
            None => attr_of(content@, attr@) is None,
        },
{
    match parse_values(content, DESKTOP_ENTRY, attr) {
        Some(values) => {
            if values.len() > 0 {
                assert(texts(values@)[0] == values@[0]@);
                Some(values[0].clone())
            } else {
                None
            }
        },
        None => None,
    }
}

/// The entry of an application.
#[derive(Debug, Default, PartialEq, Eq, PartialOrd, Ord)]
pub struct DesktopEntry {
    pub name: Option<String>,
    pub command: Option<String>,
    pub icon: Option<String>,
    /// The types that the application opens, with semicolons between them.
    pub mime_type: Option<String>,
}

/// What an entry is.
pub struct EntryView {
    pub name: Option<Seq<char>>,
    pub command: Option<Seq<char>>,
    pub icon: Option<Seq<char>>,
    pub mime_type: Option<Seq<char>>,
}

/// The view of a string that may be absent.
pub open spec fn opt_text(o: Option<String>) -> Option<Seq<char>> {
    match o {
        Some(s) => Some(s@),
        None => None,
    }
}

impl View for DesktopEntry {
    type V = EntryView;

    open spec fn view(&self) -> EntryView {
        EntryView {
            name: opt_text(self.name),
            command: opt_text(self.command),
            icon: opt_text(self.icon),
            mime_type: opt_text(self.mime_type),
        }
    }
}

/// The entry that a desktop file describes.
pub open spec fn entry_of(content: Seq<char>) -> EntryView {
    EntryView {
        name: attr_of(content, "Name"@),
        command: attr_of(content, "Exec"@),
        icon: attr_of(content, "Icon"@),
        mime_type: attr_of(content, "MimeType"@),
    }
}

/// The entry opens files of the type `mime_type`: the type is one of
/// those that the entry lists.
pub open spec fn opens(entry: EntryView, mime_type: Seq<char>) -> bool {
    match entry.mime_type {
        Some(types) => split(types, seq![';']).contains(mime_type),
        None => false,
    }
}

impl DesktopEntry {
    /// The entry that a desktop file describes.
    pub fn new(content: &str) -> (entry: DesktopEntry)
        ensures
            entry@ == entry_of(content@),
    {
        DesktopEntry {
            name: entry_attr(content, "Name"),
            command: entry_attr(content, "Exec"),
            icon: entry_attr(content, "Icon"),
            mime_type: entry_attr(content, "MimeType"),
        }
    }

    /// Whether the entry opens files of the type `mime_type`.
    pub fn handles(&self, mime_type: &str) -> (r: bool)
        ensures
            r == opens(self@, mime_type@),
    {
        proof {
            reveal_strlit(";");
            assert(";"@ =~= seq![';']);
        }
        match &self.mime_type {
            Some(types) => has_text(&str_split(types.as_str(), ";"), mime_type),
            None => false,
        }
    }

    /// A copy of this entry.
    pub fn duplicate(&self) -> (r: DesktopEntry)
        ensures
            r@ == self@,
    {
        DesktopEntry {
            name: self.name.clone(),
            command: self.command.clone(),
            icon: self.icon.clone(),
            mime_type: self.mime_type.clone(),
        }
    }
}

/// What an item of the desktop is.
#[derive(Debug, PartialEq, Eq, PartialOrd, Ord)]
pub enum DesktopItemType {
    /// The entry of an application.
    APP(DesktopEntry),
    DIR,
    FILE,
    LINK,
}

impl Default for DesktopItemType {
    fn default() -> (kind: DesktopItemType)
        ensures
            kind == DesktopItemType::FILE,
    {
        DesktopItemType::FILE
    }
}

/// What the file system says of a path.
#[derive(Debug, Clone, Copy, PartialEq, Eq, Structural)]
pub enum FileKind {
    File,
    Directory,
    Link,
}

/// What is known of the file behind an item.
#[derive(Debug, PartialEq, Eq)]
pub struct FileFacts {
    pub kind: FileKind,
    /// When the file was last changed, in seconds since the epoch.
    pub modified: Option<u64>,
    /// When the file was made, in seconds since the epoch.
    pub created: Option<u64>,
    /// The text of the file, where it is a desktop file that could be
    /// read.
    pub content: Option<String>,
}

/// Why an item could not be made or opened.
#[derive(Debug, PartialEq, Eq)]
pub enum DesktopItemError {
    /// No file is at this path.
    NoFilename(String),
    /// The desktop file names a type that is not known.
    UnknownType(String),
    /// No application opens the item.
    NoDefaultExec,
    /// No application stands at the place that was chosen.
    BadHandleExec,
}

/// The type that a desktop file names: an application, a link or a
/// directory.
pub open spec fn named_type(name: Seq<char>) -> Option<FileKind> {
    if name == "Link"@ {
        Some(FileKind::Link)
    } else if name == "Directory"@ {
        Some(FileKind::Directory)
    } else {
        None
    }
}

/// An item of the desktop.
#[derive(Debug, Default, PartialEq, Eq, PartialOrd, Ord)]
pub struct DesktopItem {
    pub path: String,
    pub name: Option<String>,
    pub icon_path: Option<String>,
    pub comment: Option<String>,
    pub entry_type: DesktopItemType,
    pub modified: Option<u64>,
    pub created: Option<u64>,
}

/// The kind of item for a kind of file.
pub open spec fn type_of_kind(kind: FileKind) -> DesktopItemType {
    match kind {
        FileKind::File => DesktopItemType::FILE,
        FileKind::Directory => DesktopItemType::DIR,
        FileKind::Link => DesktopItemType::LINK,
    }
}

/// The item is described by a desktop file: it is a file whose name ends
/// in `.desktop` and whose text could be read.
pub open spec fn is_desktop_file(path: Seq<char>, facts: FileFacts) -> bool {
    facts.kind == FileKind::File && extension_of(path) == Some("desktop"@) && facts.content
        is Some
}

/// The type of the file that an item looks at to find its application:
/// that of directories for a directory, else the one guessed from the path
/// of the item, or of what the item links to.
pub open spec fn mime_of(item: DesktopItem, link_target: Option<Seq<char>>) -> Option<Seq<char>> {
    match item.entry_type {
        DesktopItemType::LINK => match link_target {
            Some(target) => Some(guessed_mime(target)),
            None => None,
        },
        DesktopItemType::DIR => Some(INODE_DIR@),
        _ => Some(guessed_mime(item.path@)),
    }
}

/// The views of a list of entries.
pub open spec fn entry_views(entries: Seq<DesktopEntry>) -> Seq<EntryView> {
    Seq::new(entries.len(), |i: int| entries[i]@)
}

/// The entries that open files of the type `mime_type`.
pub open spec fn opening(mime_type: Seq<char>) -> spec_fn(EntryView) -> bool {
    |entry: EntryView| opens(entry, mime_type)
}

/// The first of the entries that opens files of the type.
pub open spec fn first_opening(entries: Seq<EntryView>, mime_type: Seq<char>) -> Option<
    EntryView,
> {
    let i = first_index(entries, opening(mime_type));
    if i < entries.len() {
        Some(entries[i])
    } else {
        None
    }
}

/// The first of the entries that opens files of the type.
fn find_opening(entries: &Vec<DesktopEntry>, mime_type: &str) -> (r: Option<DesktopEntry>)
    ensures
        match r {
            Some(entry) => first_opening(entry_views(entries@), mime_type@) == Some(entry@),
            None => first_opening(entry_views(entries@), mime_type@) is None,
        },
{
    let mut i: usize = 0;
    while i < entries.len()
        invariant
            i <= entries.len(),
            forall|k: int|
                0 <= k < i ==> !opening(mime_type@)(#[trigger] entry_views(entries@)[k]),
        decreases entries.len() - i,
    {
        if entries[i].handles(mime_type) {
            proof {
                lemma_first_index(entry_views(entries@), opening(mime_type@), i as int);
            }
            return Some(entries[i].duplicate());
        }
        i = i + 1;
    }
    proof {
        lemma_first_index(entry_views(entries@), opening(mime_type@), i as int);
    }
    None
}

impl DesktopItem {
    /// The item at a path; `facts` is what the file system says of the
    /// path, none where nothing is there.
    pub fn new(path: &str, icon_path: Option<String>, facts: Option<FileFacts>) -> (r: Result<
        DesktopItem,
        DesktopItemError,
    >)
        ensures
            match facts {
                None => r matches Err(DesktopItemError::NoFilename(p)) && p@ == path@,
                Some(f) => if is_desktop_file(path@, f) {
                    let content = f.content->0@;
                    let kind = match attr_of(content, "Type"@) {
                        Some(name) => name,
                        None => Seq::<char>::empty(),
                    };
                    match r {
                        Ok(item) => item.path@ == path@ && item.icon_path == icon_path
                            && item.modified == f.modified && item.created == f.created
                            && opt_text(item.name) == attr_of(content, "Name"@) && opt_text(
                            item.comment,
                        ) == attr_of(content, "Comment"@) && (if kind == "Application"@ {
                            item.entry_type matches DesktopItemType::APP(entry) && entry@
                                == entry_of(content)
                        } else {
                            named_type(kind) is Some && item.entry_type == type_of_kind(
                                named_type(kind)->0,
                            )
                        }),
                        Err(e) => kind != "Application"@ && named_type(kind) is None && (
                        e matches DesktopItemError::UnknownType(name) && name@ == kind),
                    }
                } else {
                    r matches Ok(item) && item.path@ == path@ && item.icon_path == icon_path
                        && item.modified == f.modified && item.created == f.created && opt_text(
                        item.name,
                    ) == file_name_of(path@) && item.comment is None && item.entry_type
                        == type_of_kind(f.kind)
                },
            },
    {
        let facts = match facts {
            Some(f) => f,
            None => {
                return Err(DesktopItemError::NoFilename(path.to_owned()));
            },
        };
        let mut item = DesktopItem {
            path: path.to_owned(),
            name: file_name(path),
            icon_path,
            comment: None,
            entry_type: match facts.kind {
                FileKind::File => DesktopItemType::FILE,
                FileKind::Directory => DesktopItemType::DIR,
                FileKind::Link => DesktopItemType::LINK,
            },
            modified: facts.modified,
            created: facts.created,
        };
        let desktop = match (facts.kind, extension(path)) {
            (FileKind::File, Some(ext)) => same_text(ext.as_str(), "desktop"),
            _ => false,
        };
        if !desktop {
            return Ok(item);
        }
        match &facts.content {
            Some(content) => {
                let kind = match entry_attr(content.as_str(), "Type") {
                    Some(name) => name,
                    None => String::new(),
                };
                let entry_type = if same_text(kind.as_str(), "Application") {
                    DesktopItemType::APP(DesktopEntry::new(content.as_str()))
                } else if same_text(kind.as_str(), "Link") {
                    DesktopItemType::LINK
                } else if same_text(kind.as_str(), "Directory") {
                    DesktopItemType::DIR
                } else {
                    return Err(DesktopItemError::UnknownType(kind));
                };
                item.name = entry_attr(content.as_str(), "Name");
                item.comment = entry_attr(content.as_str(), "Comment");
                item.entry_type = entry_type;
                Ok(item)
            },
            None => Ok(item),
        }
    }

    /// The type of the file that the item looks at to find its
    /// application; `link_target` is what the item links to, where it is a
    /// link that could be followed.
    pub fn mime_type(&self, link_target: Option<&str>) -> (r: Option<String>)
        ensures
            match r {
                Some(mime) => mime_of(*self, crate::helpers::text::opt_view(link_target)) == Some(
                    mime@,
                ),
                None => mime_of(*self, crate::helpers::text::opt_view(link_target)) is None,
            },
    {
        match &self.entry_type {
            DesktopItemType::LINK => match link_target {
                Some(target) => Some(guess_mime(target)),
                None => None,
            },
            DesktopItemType::DIR => Some(INODE_DIR.to_owned()),
            _ => Some(guess_mime(self.path.as_str())),
        }
    }

    /// The application that opens the item: the item itself where it is
    /// one, else the first of the default applications for the type of the
    /// item that opens that type, else the first such among the
    /// applications that are known to open it. The entries come in the
    /// order in which they were found.
    pub fn default_app(
        &self,
        mime_type: Option<&str>,
        defaults: &Vec<DesktopEntry>,
        cached: &Vec<DesktopEntry>,
    ) -> (r: Option<DesktopEntry>)
        ensures
            ({
                let chosen = match self.entry_type {
                    DesktopItemType::APP(entry) => Some(entry@),
                    _ => match mime_type {
                        Some(mime) => match first_opening(entry_views(defaults@), mime@) {
                            Some(entry) => Some(entry),
                            None => first_opening(entry_views(cached@), mime@),
                        },
                        None => None,
                    },
                };
                match r {
                    Some(entry) => chosen == Some(entry@),
                    None => chosen is None,
                }
            }),
    {
        match &self.entry_type {
            DesktopItemType::APP(entry) => Some(entry.duplicate()),
            _ => match mime_type {
                Some(mime) => match find_opening(defaults, mime) {
                    Some(entry) => Some(entry),
                    None => find_opening(cached, mime),
                },
                None => None,
            },
        }
    }

    /// The applications that are offered for the item: the item itself
    /// where it is one, else those of the applications that open the type
    /// of the item; none where the type is not known.
    pub fn prefered_apps(&self, mime_type: Option<&str>, apps: &Vec<DesktopEntry>) -> (r: Vec<
        DesktopEntry,
    >)
        ensures
            entry_views(r@) == match self.entry_type {
                DesktopItemType::APP(entry) => seq![entry@],
                _ => match mime_type {
                    Some(mime) => kept(entry_views(apps@), opening(mime@)),
                    None => Seq::<EntryView>::empty(),
                },
            },
    {
        let mut r: Vec<DesktopEntry> = Vec::new();
        match &self.entry_type {
            DesktopItemType::APP(entry) => {
                r.push(entry.duplicate());
                assert(entry_views(r@) =~= seq![entry@]);
            },
            _ => match mime_type {
                Some(mime) => {
                    let ghost all = entry_views(apps@);
                    let mut i: usize = 0;
                    assert(all.take(0) =~= Seq::<EntryView>::empty());
                    assert(entry_views(r@) =~= Seq::<EntryView>::empty());
                    while i < apps.len()
                        invariant
                            i <= apps.len(),
                            all == entry_views(apps@),
                            entry_views(r@) == kept(all.take(i as int), opening(mime@)),
                        decreases apps.len() - i,
                    {
                        proof {
                            lemma_kept_step(all, opening(mime@), i as int);
                        }
                        if apps[i].handles(mime) {
                            let ghost before = entry_views(r@);
                            r.push(apps[i].duplicate());
                            assert(entry_views(r@) =~= before.push(apps@[i as int]@));
                        }
                        i = i + 1;
                    }
                    assert(all.take(apps.len() as int) =~= all);
                },
                None => {
                    assert(entry_views(r@) =~= Seq::<EntryView>::empty());
                },
            },
        }
        r
    }

    /// The applications to try, in turn, to open the item: the item itself
    /// where it is an application, else the default application, then the
    /// applications offered. Where there is none to try, the item cannot be
    /// opened.
    pub fn exec_default_app(
        &self,
        default: Option<DesktopEntry>,
        prefered: Vec<DesktopEntry>,
    ) -> (r: Result<Vec<DesktopEntry>, DesktopItemError>)
        ensures
            ({
                let tries = match self.entry_type {
                    DesktopItemType::APP(entry) => seq![entry@],
                    _ => match default {
                        Some(entry) => seq![entry@] + entry_views(prefered@),
                        None => entry_views(prefered@),
                    },
                };
                match r {
                    Ok(list) => tries.len() > 0 && entry_views(list@) == tries,
                    Err(e) => tries.len() == 0 && e == DesktopItemError::NoDefaultExec,
                }
            }),
    {
        let mut list: Vec<DesktopEntry> = Vec::new();
        match &self.entry_type {
            DesktopItemType::APP(entry) => {
                list.push(entry.duplicate());
                assert(entry_views(list@) =~= seq![entry@]);
                Ok(list)
            },
            _ => {
                let mut prefered = prefered;
                let ghost offered = entry_views(prefered@);
                match default {
                    Some(entry) => {
                        prefered.insert(0, entry);
                        assert(entry_views(prefered@) =~= seq![entry@] + offered);
                    },
                    None => {},
                }
                if prefered.len() == 0 {
                    Err(DesktopItemError::NoDefaultExec)
                } else {
                    Ok(prefered)
                }
            },
        }
    }

    /// The application chosen among those offered, by its place; none for
    /// an item that is an application itself, which is not opened by
    /// another.
    pub fn exec_prefered_app(&self, prefer_app_idx: usize, prefered: &Vec<DesktopEntry>) -> (r:
        Result<Option<DesktopEntry>, DesktopItemError>)
        ensures
            match self.entry_type {
                DesktopItemType::APP(_) => r == Ok::<Option<DesktopEntry>, DesktopItemError>(None),
                _ => if prefer_app_idx < prefered@.len() {
                    r matches Ok(Some(entry)) && entry@ == prefered@[prefer_app_idx as int]@
                } else {
                    r == Err::<Option<DesktopEntry>, DesktopItemError>(
                        DesktopItemError::BadHandleExec,
                    )
                },
            },
    {
        match &self.entry_type {
            DesktopItemType::APP(_) => Ok(None),
            _ => {
                if prefer_app_idx < prefered.len() {
                    Ok(Some(prefered[prefer_app_idx].duplicate()))
                } else {
                    Err(DesktopItemError::BadHandleExec)
                }
            },
        }
    }
}

/// Where the desktop files of applications lie, under each directory of
/// data.
#[derive(Debug, Clone, Copy, PartialEq, Eq, Structural)]
pub struct ApplicationResource;

impl ApplicationResource {
    /// The path below a directory of data.
    pub fn relative_path() -> (path: &'static str)
        ensures
            path@ == "applications"@,
    {
        "applications"
    }
}

/// The file in which the user and the system name the applications for
/// each type.
#[derive(Debug, Clone, Copy, PartialEq, Eq, Structural)]
pub struct MimeAppsConfig;

impl MimeAppsConfig {
    /// The name of the file.
    pub fn config_file() -> (name: &'static str)
        ensures
            name@ == "mimeapps.list"@,
    {
        "mimeapps.list"
    }
}

/// The file in which the applications that open each type are
/// collected.
#[derive(Debug, Clone, Copy, PartialEq, Eq, Structural)]
pub struct MimeCacheConfig;

impl MimeCacheConfig {
    /// The name of the file.
    pub fn config_file() -> (name: &'static str)
        ensures
            name@ == "mimeinfo.cache"@,
    {
        "mimeinfo.cache"
    }
}

} // verus!
