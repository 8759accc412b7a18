//! The theme of the desktop and the place of its file.
use vstd::prelude::*;
use crate::helpers::text::{starts_with, str_concat, str_starts_with};

verus! {

/// A theme.
#[derive(Debug, PartialEq, Eq)]
pub struct Theme {
    pub info: Info,
    pub button: Button,
}

/// What a theme says of itself.
#[derive(Debug, PartialEq, Eq)]
pub struct Info {
    pub name: String,
    pub desc: String,
}

/// The look of buttons.
#[derive(Debug, PartialEq, Eq)]
pub struct Button {
    pub border: u8,
    pub backgroud: String,
    pub color: String,
}

impl Default for Info {
    fn default() -> (info: Info)
        ensures
            info.name@ == "KOOMPI"@,
            info.desc@ == "Theme for KOOMPI OS"@,
    {
        Info { name: "KOOMPI".to_owned(), desc: "Theme for KOOMPI OS".to_owned() }
    }
}

impl Default for Button {
    fn default() -> (button: Button)
        ensures
            button.border == 0,
            button.backgroud@.len() == 0,
            button.color@.len() == 0,
    {
        Button { border: 0, backgroud: String::new(), color: String::new() }
    }
}

impl Default for Theme {
    fn default() -> (theme: Theme)
        ensures
            theme.info.name@ == "KOOMPI"@,
            theme.info.desc@ == "Theme for KOOMPI OS"@,
            theme.button.border == 0,
            theme.button.backgroud@.len() == 0,
            theme.button.color@.len() == 0,
    {
        Theme { info: Info::default(), button: Button::default() }
    }
}

/// The directory of the themes of a user whose home is `home`.
pub open spec fn theme_dir(home: Seq<char>) -> Seq<char> {
    home + "/.config/koompi/theme"@
}

/// The path of the file `name` of the themes: the file under the
/// directory of the themes, or `name` alone where it is itself a path from
/// the root.
pub open spec fn theme_path(home: Seq<char>, name: Seq<char>) -> Seq<char> {
    if starts_with(name, seq!['/']) {
        name
    } else {
        theme_dir(home) + seq!['/'] + name
    }
}

/// The directory that is made for the themes.
pub fn create_dir(home: &str) -> (dir: String)
    ensures
        dir@ == theme_dir(home@),
{
    str_concat(home, "/.config/koompi/theme")
}

/// The path from which the theme `name` is read.
pub fn reader(home: &str, name: &str) -> (path: String)
    ensures
        path@ == theme_path(home@, name@),
{
    proof {
        reveal_strlit("/");
        assert("/"@ =~= seq!['/']);
    }
    if str_starts_with(name, "/") {
        name.to_owned()
    } else {
        let dir = create_dir(home);
        let slash = str_concat(dir.as_str(), "/");
        str_concat(slash.as_str(), name)
    }
}

/// The path to which the theme `name` is written.
pub fn writer(home: &str, name: &str) -> (path: String)
    ensures
        path@ == theme_path(home@, name@),
{
    reader(home, name)
}

} // verus!
