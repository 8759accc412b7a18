use libkoompi::desktop::desktop_item::{entry_attr, FileFacts, FileKind, DESKTOP_ENTRY, INODE_DIR};
use libkoompi::desktop::{
    ApplicationResource, DesktopEntry, DesktopItem, DesktopItemError, DesktopItemType,
    MimeAppsConfig, MimeCacheConfig,
};

const FIREFOX: &str = "[Desktop Entry]\nType=Application\nName=Firefox\nComment=Browse the Web\n\
Exec=firefox %u\nIcon=firefox\nMimeType=text/html;application/pdf;\n\n[Desktop Action new-window]\nName=New Window\n";

fn facts(kind: FileKind, content: Option<&str>) -> Option<FileFacts> {
    Some(FileFacts { kind, modified: Some(10), created: Some(5), content: content.map(|s| s.to_string()) })
}

fn entry(name: &str, mime_type: Option<&str>) -> DesktopEntry {
    DesktopEntry {
        name: Some(name.to_string()),
        command: Some(format!("{} %f", name)),
        icon: None,
        mime_type: mime_type.map(|s| s.to_string()),
    }
}

#[test]
fn attributes_of_a_desktop_file() {
    assert_eq!(entry_attr(FIREFOX, "Name").as_deref(), Some("Firefox"));
    assert_eq!(entry_attr(FIREFOX, "Exec").as_deref(), Some("firefox %u"));
    assert_eq!(entry_attr(FIREFOX, "Terminal"), None);
    assert_eq!(entry_attr("Name=x\n", "Name"), None);
    assert_eq!(entry_attr("[Other]\nName=x\n", "Name"), None);
    assert_eq!(DESKTOP_ENTRY, "Desktop Entry");
    let e = DesktopEntry::new(FIREFOX);
    assert_eq!(
        e,
        DesktopEntry {
            name: Some("Firefox".into()),
            command: Some("firefox %u".into()),
            icon: Some("firefox".into()),
            mime_type: Some("text/html;application/pdf;".into()),
        }
    );
    assert!(e.handles("text/html"));
    assert!(e.handles("application/pdf"));
    assert!(e.handles(""));
    assert!(!e.handles("text"));
    assert!(!e.handles("image/png"));
    assert!(!DesktopEntry::default().handles("text/html"));
    assert_eq!(e.duplicate(), e);
}

#[test]
fn items_of_the_desktop() {
    assert_eq!(
        DesktopItem::new("/nowhere/x", None, None),
        Err(DesktopItemError::NoFilename("/nowhere/x".into()))
    );
    let file = DesktopItem::new("/home/a/notes.txt", Some("icon.png".into()), facts(FileKind::File, None)).unwrap();
    assert_eq!(file.name.as_deref(), Some("notes.txt"));
    assert_eq!(file.icon_path.as_deref(), Some("icon.png"));
    assert_eq!(file.entry_type, DesktopItemType::FILE);
    assert_eq!((file.modified, file.created), (Some(10), Some(5)));
    assert_eq!(file.comment, None);
    let dir = DesktopItem::new("/home/a/Desktop/", None, facts(FileKind::Directory, None)).unwrap();
    assert_eq!(dir.name.as_deref(), Some("Desktop"));
    assert_eq!(dir.entry_type, DesktopItemType::DIR);
    let root = DesktopItem::new("/", None, facts(FileKind::Directory, None)).unwrap();
    assert_eq!(root.name, None);
    let app = DesktopItem::new("/usr/share/applications/firefox.desktop", None, facts(FileKind::File, Some(FIREFOX))).unwrap();
    assert_eq!(app.name.as_deref(), Some("Firefox"));
    assert_eq!(app.comment.as_deref(), Some("Browse the Web"));
    assert_eq!(app.entry_type, DesktopItemType::APP(DesktopEntry::new(FIREFOX)));
    // a desktop file that could not be read is a file like others
    let unread = DesktopItem::new("/a/b.desktop", None, facts(FileKind::File, None)).unwrap();
    assert_eq!(unread.name.as_deref(), Some("b.desktop"));
    assert_eq!(unread.entry_type, DesktopItemType::FILE);
    // and a directory of that name is a directory
    let named = DesktopItem::new("/a/b.desktop", None, facts(FileKind::Directory, Some(FIREFOX))).unwrap();
    assert_eq!(named.entry_type, DesktopItemType::DIR);
    let link = DesktopItem::new("/a/web.desktop", None, facts(FileKind::File, Some("[Desktop Entry]\nType=Link\nName=Web\n"))).unwrap();
    assert_eq!(link.entry_type, DesktopItemType::LINK);
    let folder = DesktopItem::new("/a/d.desktop", None, facts(FileKind::File, Some("[Desktop Entry]\nType=Directory\n"))).unwrap();
    assert_eq!((folder.entry_type, folder.name), (DesktopItemType::DIR, None));
    assert_eq!(
        DesktopItem::new("/a/x.desktop", None, facts(FileKind::File, Some("[Desktop Entry]\nType=Game\n"))),
        Err(DesktopItemError::UnknownType("Game".into()))
    );
    assert_eq!(
        DesktopItem::new("/a/x.desktop", None, facts(FileKind::File, Some("no entry"))),
        Err(DesktopItemError::UnknownType("".into()))
    );
}

fn item(path: &str, kind: FileKind) -> DesktopItem {
    DesktopItem::new(path, None, facts(kind, None)).unwrap()
}

#[test]
fn type_of_an_item() {
    assert_eq!(item("/a/notes.txt", FileKind::File).mime_type(None).as_deref(), Some("text/plain"));
    assert_eq!(item("/a/photo.PNG", FileKind::File).mime_type(None).as_deref(), Some("image/png"));
    assert_eq!(
        item("/a/unknown.zzzz", FileKind::File).mime_type(Some("/x.txt")).as_deref(),
        Some("application/octet-stream")
    );
    assert_eq!(item("/a/dir.txt", FileKind::Directory).mime_type(None).as_deref(), Some(INODE_DIR));
    assert_eq!(INODE_DIR, "inode/directory");
    assert_eq!(item("/a/link", FileKind::Link).mime_type(None), None);
    assert_eq!(
        item("/a/link", FileKind::Link).mime_type(Some("/b/page.html")).as_deref(),
        Some("text/html")
    );
}

#[test]
fn the_application_for_an_item() {
    let file = item("/a/page.html", FileKind::File);
    let defaults = vec![entry("viewer", Some("image/png")), entry("browser", Some("text/html;"))];
    let cached = vec![entry("editor", Some("text/plain;text/html")), entry("other", None)];
    assert_eq!(file.default_app(Some("text/html"), &defaults, &cached), Some(entry("browser", Some("text/html;"))));
    assert_eq!(
        file.default_app(Some("text/plain"), &defaults, &cached),
        Some(entry("editor", Some("text/plain;text/html")))
    );
    assert_eq!(file.default_app(Some("audio/ogg"), &defaults, &cached), None);
    assert_eq!(file.default_app(None, &defaults, &cached), None);
    let app = DesktopItem::new("/a/f.desktop", None, facts(FileKind::File, Some(FIREFOX))).unwrap();
    assert_eq!(app.default_app(None, &vec![], &vec![]), Some(DesktopEntry::new(FIREFOX)));
    let all: Vec<DesktopEntry> = defaults.into_iter().chain(cached).collect();
    assert_eq!(
        file.prefered_apps(Some("text/html"), &all),
        vec![entry("browser", Some("text/html;")), entry("editor", Some("text/plain;text/html"))]
    );
    assert_eq!(file.prefered_apps(None, &vec![entry("browser", Some("text/html"))]), vec![]);
    assert_eq!(app.prefered_apps(Some("x"), &vec![]), vec![DesktopEntry::new(FIREFOX)]);
}

#[test]
fn the_applications_to_try() {
    let file = item("/a/page.html", FileKind::File);
    let a = || entry("a", None);
    let b = || entry("b", None);
    assert_eq!(file.exec_default_app(Some(a()), vec![b(), a()]), Ok(vec![a(), b(), a()]));
    assert_eq!(file.exec_default_app(None, vec![b()]), Ok(vec![b()]));
    assert_eq!(file.exec_default_app(None, vec![]), Err(DesktopItemError::NoDefaultExec));
    let app = DesktopItem::new("/a/f.desktop", None, facts(FileKind::File, Some(FIREFOX))).unwrap();
    assert_eq!(app.exec_default_app(None, vec![]), Ok(vec![DesktopEntry::new(FIREFOX)]));
    assert_eq!(app.exec_default_app(Some(a()), vec![b()]), Ok(vec![DesktopEntry::new(FIREFOX)]));
    assert_eq!(file.exec_prefered_app(1, &vec![a(), b()]), Ok(Some(b())));
    assert_eq!(file.exec_prefered_app(2, &vec![a(), b()]), Err(DesktopItemError::BadHandleExec));
    assert_eq!(app.exec_prefered_app(5, &vec![]), Ok(None));
}

#[test]
fn places_of_the_files() {
    assert_eq!(ApplicationResource::relative_path(), "applications");
    assert_eq!(MimeAppsConfig::config_file(), "mimeapps.list");
    assert_eq!(MimeCacheConfig::config_file(), "mimeinfo.cache");
    assert_eq!(DesktopItemType::default(), DesktopItemType::FILE);
}
