//! One user of the user database, and the commands that change it.
use vstd::prelude::*;
use super::account_type::AccountType;
use crate::helpers::cmd_output_helper::Command;
use crate::helpers::decimal::{parse_decimal, parsed};
use crate::helpers::file_helper::{paths_equal, same_path};
use crate::helpers::format_helper::{formatted_name, to_formatted_name};
use crate::helpers::text::{
    copy_list, extend_list, has_text, join, opt_view, owned_list, push_all, same_text, split,
    starts_with, str_concat, str_join, str_split, str_starts_with, texts, to_chars,
};

verus! {

/// What a user is.
pub struct UserView {
    pub uid: u16,
    pub gid: u16,
    pub acc_type: AccountType,
    pub fullname: Seq<char>,
    pub usrname: Seq<char>,
    pub login_shell: Seq<char>,
    pub home_dir: Seq<char>,
    pub groups: Seq<Seq<char>>,
}

/// A user account.
#[derive(Debug, PartialEq, Eq)]
pub struct User {
    uid: u16,
    gid: u16,
    acc_type: AccountType,
    fullname: String,
    usrname: String,
    login_shell: String,
    home_dir: String,
    groups: Vec<String>,
}

impl View for User {
    type V = UserView;

    closed spec fn view(&self) -> UserView {
        UserView {
            uid: self.uid,
            gid: self.gid,
            acc_type: self.acc_type,
            fullname: self.fullname@,
            usrname: self.usrname@,
            login_shell: self.login_shell@,
            home_dir: self.home_dir@,
            groups: texts(self.groups@),
        }
    }
}

/// The groups that the `groups` command names in what it printed; none
/// where it failed.
pub open spec fn groups_of(output: Option<Seq<char>>) -> Seq<Seq<char>> {
    match output {
        Some(text) => split(text, seq![' ']),
        None => Seq::<Seq<char>>::empty(),
    }
}

/// The user that the fields of one line of the user database stand for:
/// name, password, user number, group number, full name, home directory
/// and login shell. None where a field is missing or a number is no `u16`.
pub open spec fn user_of_fields(
    fields: Seq<Seq<char>>,
    admins: Seq<Seq<char>>,
    groups: Seq<Seq<char>>,
) -> Option<UserView> {
    if fields.len() >= 7 && parsed(fields[2], u16::MAX as int) is Some && parsed(
        fields[3],
        u16::MAX as int,
    ) is Some {
        Some(
            UserView {
                uid: parsed(fields[2], u16::MAX as int)->0 as u16,
                gid: parsed(fields[3], u16::MAX as int)->0 as u16,
                acc_type: if admins.contains(fields[0]) {
                    AccountType::Admin
                } else {
                    AccountType::User
                },
                fullname: fields[4],
                usrname: fields[0],
                login_shell: fields[6],
                home_dir: fields[5],
                groups: groups,
            },
        )
    } else {
        None
    }
}

/// The name shown for a user: the full name or, where there is none, the
/// login name, in its shown form.
pub open spec fn shown_name(user: UserView) -> Seq<char> {
    formatted_name(
        if user.fullname.len() == 0 {
            user.usrname
        } else {
            user.fullname
        },
    )
}

/// The arguments of `usermod` for a new user number: the option and the
/// number, where one is given that is a `u16`.
pub open spec fn uid_args(uid: Option<Seq<char>>) -> Seq<Seq<char>> {
    match uid {
        Some(u) => if parsed(u, u16::MAX as int) is Some {
            seq!["-u"@, u]
        } else {
            Seq::<Seq<char>>::empty()
        },
        None => Seq::<Seq<char>>::empty(),
    }
}

/// The arguments of `usermod` for a new group number.
pub open spec fn gid_args(gid: Option<Seq<char>>) -> Seq<Seq<char>> {
    match gid {
        Some(g) => seq!["-g"@, g],
        None => Seq::<Seq<char>>::empty(),
    }
}

/// The arguments of `usermod` for a full name: none where it is the name
/// shown already.
pub open spec fn fullname_args(user: UserView, fullname: Seq<char>) -> Seq<Seq<char>> {
    if fullname != shown_name(user) {
        seq!["-c"@, fullname]
    } else {
        Seq::<Seq<char>>::empty()
    }
}

/// The arguments of `usermod` for a new login name.
pub open spec fn login_args(login_name: Option<Seq<char>>) -> Seq<Seq<char>> {
    match login_name {
        Some(l) => seq!["-l"@, l],
        None => Seq::<Seq<char>>::empty(),
    }
}

/// The arguments of `usermod` for a login shell: none where it is the
/// path of the user's shell already.
pub open spec fn shell_args(user: UserView, login_shell: Option<Seq<char>>) -> Seq<Seq<char>> {
    match login_shell {
        Some(s) => if !same_path(s, user.login_shell) {
            seq!["-s"@, s]
        } else {
            Seq::<Seq<char>>::empty()
        },
        None => Seq::<Seq<char>>::empty(),
    }
}

/// The arguments of `usermod` for a new home directory, to which the old
/// one is moved.
pub open spec fn home_args(home_dir: Option<Seq<char>>) -> Seq<Seq<char>> {
    match home_dir {
        Some(h) => seq!["-m"@, "-d"@, h],
        None => Seq::<Seq<char>>::empty(),
    }
}

/// What is asked to change of a user: each value but the full name may be
/// left out.
pub struct InfoChange {
    pub uid: Option<Seq<char>>,
    pub gid: Option<Seq<char>>,
    pub fullname: Seq<char>,
    pub login_name: Option<Seq<char>>,
    pub login_shell: Option<Seq<char>>,
    pub home_dir: Option<Seq<char>>,
}

/// The change that the given values ask for.
pub open spec fn change_of(
    uid: Option<&str>,
    gid: Option<&str>,
    fullname: &str,
    login_name: Option<&str>,
    login_shell: Option<&str>,
    home_dir: Option<&str>,
) -> InfoChange {
    InfoChange {
        uid: opt_view(uid),
        gid: opt_view(gid),
        fullname: fullname@,
        login_name: opt_view(login_name),
        login_shell: opt_view(login_shell),
        home_dir: opt_view(home_dir),
    }
}

/// The arguments of `usermod` for all that is to change, in the order
/// number, group, full name, login name, shell, home.
pub open spec fn info_args(user: UserView, change: InfoChange) -> Seq<Seq<char>> {
    uid_args(change.uid) + gid_args(change.gid) + fullname_args(user, change.fullname)
        + login_args(change.login_name) + shell_args(user, change.login_shell) + home_args(
        change.home_dir,
    )
}

/// The user after the change: each value that is given and valid takes
/// the place of the old one.
pub open spec fn info_applied(user: UserView, change: InfoChange) -> UserView {
    UserView {
        uid: match change.uid {
            Some(u) => match parsed(u, u16::MAX as int) {
                Some(n) => n as u16,
                None => user.uid,
            },
            None => user.uid,
        },
        gid: match change.gid {
            Some(g) => match parsed(g, u16::MAX as int) {
                Some(n) => n as u16,
                None => user.gid,
            },
            None => user.gid,
        },
        acc_type: user.acc_type,
        fullname: if change.fullname != shown_name(user) {
            change.fullname
        } else {
            user.fullname
        },
        usrname: match change.login_name {
            Some(l) => l,
            None => user.usrname,
        },
        login_shell: match change.login_shell {
            Some(s) => if same_path(s, user.login_shell) {
                user.login_shell
            } else {
                s
            },
            None => user.login_shell,
        },
        home_dir: match change.home_dir {
            Some(h) => h,
            None => user.home_dir,
        },
        groups: user.groups,
    }
}

/// `cmds` are the commands that create a user without a group of its own:
/// the account, its groups, among them the administrators' where the
/// account is one of theirs, and its password.
pub open spec fn creates_user(
    cmds: Seq<Command>,
    fullname: Seq<char>,
    usrname: Seq<char>,
    account_type: AccountType,
    pwd: Seq<char>,
    verify_pwd: Seq<char>,
) -> bool {
    &&& cmds.len() == 3
    &&& cmds[0].runs("pkexec"@, seq!["useradd"@, "-c"@, fullname, "-m"@, "-N"@, usrname])
    &&& cmds[1].runs(
        "pkexec"@,
        seq![
            "usermod"@,
            "-a"@,
            "-G"@,
            if account_type == AccountType::Admin {
                "input,cups,wheel"@
            } else {
                "input,cups"@
            },
            usrname,
        ],
    )
    &&& cmds[2].runs_with_input(
        "pkexec"@,
        seq!["passwd"@, usrname],
        pwd + seq!['\n'] + verify_pwd,
    )
}

/// The path of the picture of a user: the directory of the pictures and
/// the login name under it, or the login name alone where it is itself a
/// path from the root.
pub open spec fn profile_path_of(usrname: Seq<char>) -> Seq<char> {
    if starts_with(usrname, seq!['/']) {
        usrname
    } else {
        "/var/lib/AccountsService/icons"@ + seq!['/'] + usrname
    }
}

impl User {
    /// The commands that create a user.
    pub fn new(
        fullname: &str,
        usrname: &str,
        account_type: AccountType,
        pwd: &str,
        verify_pwd: &str,
    ) -> (cmds: Vec<Command>)
        ensures
            creates_user(cmds@, fullname@, usrname@, account_type, pwd@, verify_pwd@),
    {
        let mut cmds: Vec<Command> = Vec::new();
        let add = owned_list(vec!["useradd", "-c", fullname, "-m", "-N", usrname]);
        assert(texts(add@) =~= seq!["useradd"@, "-c"@, fullname@, "-m"@, "-N"@, usrname@]);
        cmds.push(Command::new("pkexec", add));
        let groups: &str = match account_type {
            AccountType::Admin => "input,cups,wheel",
            AccountType::User => "input,cups",
        };
        let join_groups = owned_list(vec!["usermod", "-a", "-G", groups, usrname]);
        assert(texts(join_groups@) =~= seq!["usermod"@, "-a"@, "-G"@, groups@, usrname@]);
        cmds.push(Command::new("pkexec", join_groups));
        cmds.push(User::reset_password(usrname, pwd, verify_pwd));
        cmds
    }

    /// The command that lists the groups of a user.
    pub fn groups_command(usrname: &str) -> (cmd: Command)
        ensures
            cmd.runs("groups"@, seq![usrname@]),
    {
        let args = owned_list(vec![usrname]);
        assert(texts(args@) =~= seq![usrname@]);
        Command::new("groups", args)
    }

    /// The user that the fields of one line of the user database stand
    /// for; `ls_admin` names the administrators, and `groups_output` is
    /// what the `groups` command printed for the user, if it ran.
    pub fn from_vec(
        fields: &Vec<String>,
        ls_admin: &Vec<String>,
        groups_output: Option<&str>,
    ) -> (r: Option<User>)
        ensures
            match r {
                Some(user) => user_of_fields(
                    texts(fields@),
                    texts(ls_admin@),
                    groups_of(opt_view(groups_output)),
                ) == Some(user@),
                None => user_of_fields(
                    texts(fields@),
                    texts(ls_admin@),
                    groups_of(opt_view(groups_output)),
                ) is None,
            },
    {
        if fields.len() < 7 {
            return None;
        }
        let uid = parse_decimal(&to_chars(fields[2].as_str()), 65535);
        let gid = parse_decimal(&to_chars(fields[3].as_str()), 65535);
        match (uid, gid) {
            (Some(uid), Some(gid)) => {
                proof {
                    reveal_strlit(" ");
                    assert(" "@ =~= seq![' ']);
                }
                let groups: Vec<String> = match groups_output {
                    Some(text) => str_split(text, " "),
                    None => Vec::new(),
                };
                assert(texts(groups@) =~= groups_of(opt_view(groups_output)));
                let acc_type = if has_text(ls_admin, fields[0].as_str()) {
                    AccountType::Admin
                } else {
                    AccountType::User
                };
                Some(
                    User {
                        uid: uid as u16,
                        gid: gid as u16,
                        acc_type,
                        fullname: fields[4].clone(),
                        usrname: fields[0].clone(),
                        login_shell: fields[6].clone(),
                        home_dir: fields[5].clone(),
                        groups,
                    },
                )
            },
            _ => None,
        }
    }

    /// The command that puts the user among the administrators or takes it
    /// from among them.
    pub fn change_account_type_command(&self, account_type: AccountType) -> (cmd: Command)
        ensures
            cmd.runs(
                "pkexec"@,
                seq![
                    "gpasswd"@,
                    if account_type == AccountType::Admin {
                        "-a"@
                    } else {
                        "-d"@
                    },
                    self@.usrname,
                    "wheel"@,
                ],
            ),
    {
        let opt: &str = match account_type {
            AccountType::User => "-d",
            AccountType::Admin => "-a",
        };
        let args = owned_list(vec!["gpasswd", opt, self.usrname.as_str(), "wheel"]);
        assert(texts(args@) =~= seq!["gpasswd"@, opt@, self.usrname@, "wheel"@]);
        Command::new("pkexec", args)
    }

    /// Takes `account_type` for the kind of the account.
    pub fn change_account_type(&mut self, account_type: AccountType)
        ensures
            final(self)@ == (UserView { acc_type: account_type, ..old(self)@ }),
    {
        self.acc_type = account_type;
    }

    /// The arguments of `usermod` for a new user number.
    fn uid_arguments(uid: Option<&str>) -> (args: Vec<String>)
        ensures
            texts(args@) == uid_args(opt_view(uid)),
    {
        let mut args: Vec<String> = Vec::new();
        match uid {
            Some(u) => {
                if parse_decimal(&to_chars(u), 65535).is_some() {
                    push_all(&mut args, vec!["-u", u]);
                }
            },
            None => {},
        }
        assert(texts(args@) =~= uid_args(opt_view(uid)));
        args
    }

    /// The arguments of `usermod` for a new group number.
    fn gid_arguments(gid: Option<&str>) -> (args: Vec<String>)
        ensures
            texts(args@) == gid_args(opt_view(gid)),
    {
        let mut args: Vec<String> = Vec::new();
        match gid {
            Some(g) => {
                push_all(&mut args, vec!["-g", g]);
            },
            None => {},
        }
        assert(texts(args@) =~= gid_args(opt_view(gid)));
        args
    }

    /// The arguments of `usermod` for a full name.
    fn fullname_arguments(&self, fullname: &str) -> (args: Vec<String>)
        ensures
            texts(args@) == fullname_args(self@, fullname@),
    {
        let mut args: Vec<String> = Vec::new();
        let shown = self.fullname();
        if !same_text(fullname, shown.as_str()) {
            push_all(&mut args, vec!["-c", fullname]);
        }
        assert(texts(args@) =~= fullname_args(self@, fullname@));
        args
    }

    /// The arguments of `usermod` for a new login name.
    fn login_arguments(login_name: Option<&str>) -> (args: Vec<String>)
        ensures
            texts(args@) == login_args(opt_view(login_name)),
    {
        let mut args: Vec<String> = Vec::new();
        match login_name {
            Some(l) => {
                push_all(&mut args, vec!["-l", l]);
            },
            None => {},
        }
        assert(texts(args@) =~= login_args(opt_view(login_name)));
        args
    }

    /// The arguments of `usermod` for a login shell.
    fn shell_arguments(&self, login_shell: Option<&str>) -> (args: Vec<String>)
        ensures
            texts(args@) == shell_args(self@, opt_view(login_shell)),
    {
        let mut args: Vec<String> = Vec::new();
        match login_shell {
            Some(s) => {
                if !paths_equal(s, self.login_shell.as_str()) {
                    push_all(&mut args, vec!["-s", s]);
                }
            },
            None => {},
        }
        assert(texts(args@) =~= shell_args(self@, opt_view(login_shell)));
        args
    }

    /// The arguments of `usermod` for a new home directory.
    fn home_arguments(home_dir: Option<&str>) -> (args: Vec<String>)
        ensures
            texts(args@) == home_args(opt_view(home_dir)),
    {
        let mut args: Vec<String> = Vec::new();
        match home_dir {
            Some(h) => {
                push_all(&mut args, vec!["-m", "-d", h]);
            },
            None => {},
        }
        assert(texts(args@) =~= home_args(opt_view(home_dir)));
        args
    }

    /// The arguments of `usermod` for all that is to change.
    fn info_arguments(
        &self,
        uid: Option<&str>,
        gid: Option<&str>,
        fullname: &str,
        login_name: Option<&str>,
        login_shell: Option<&str>,
        home_dir: Option<&str>,
    ) -> (args: Vec<String>)
        ensures
            texts(args@) == info_args(
                self@,
                change_of(uid, gid, fullname, login_name, login_shell, home_dir),
            ),
    {
        let mut args = User::uid_arguments(uid);
        extend_list(&mut args, User::gid_arguments(gid));
        extend_list(&mut args, self.fullname_arguments(fullname));
        extend_list(&mut args, User::login_arguments(login_name));
        extend_list(&mut args, self.shell_arguments(login_shell));
        extend_list(&mut args, User::home_arguments(home_dir));
        args
    }

    /// Takes each value that is given and valid in the place of the old
    /// one.
    fn apply_info(
        &mut self,
        uid: Option<&str>,
        gid: Option<&str>,
        fullname: &str,
        login_name: Option<&str>,
        login_shell: Option<&str>,
        home_dir: Option<&str>,
    )
        ensures
            final(self)@ == info_applied(
                old(self)@,
                change_of(uid, gid, fullname, login_name, login_shell, home_dir),
            ),
    {
        let shown = self.fullname();
        match uid {
            Some(u) => {
                match parse_decimal(&to_chars(u), 65535) {
                    Some(n) => {
                        self.uid = n as u16;
                    },
                    None => {},
                }
            },
            None => {},
        }
        match gid {
            Some(g) => {
                match parse_decimal(&to_chars(g), 65535) {
                    Some(n) => {
                        self.gid = n as u16;
                    },
                    None => {},
                }
            },
            None => {},
        }
        if !same_text(fullname, shown.as_str()) {
            self.fullname = fullname.to_owned();
        }
        match login_name {
            Some(l) => {
                self.usrname = l.to_owned();
            },
            None => {},
        }
        match login_shell {
            Some(s) => {
                if !paths_equal(s, self.login_shell.as_str()) {
                    self.login_shell = s.to_owned();
                }
            },
            None => {},
        }
        match home_dir {
            Some(h) => {
                self.home_dir = h.to_owned();
            },
            None => {},
        }
    }

    /// Changes what is known of the user, but for the kind of the account
    /// and the password, and gives the command that makes the same change
    /// in the database; none where nothing is to change.
    pub fn change_info(
        &mut self,
        uid: Option<&str>,
        gid: Option<&str>,
        fullname: &str,
        login_name: Option<&str>,
        login_shell: Option<&str>,
        home_dir: Option<&str>,
    ) -> (cmd: Option<Command>)
        ensures
            final(self)@ == info_applied(
                old(self)@,
                change_of(uid, gid, fullname, login_name, login_shell, home_dir),
            ),
            match cmd {
                Some(c) => c.runs(
                    "pkexec"@,
                    seq!["usermod"@] + info_args(
                old(self)@,
                change_of(uid, gid, fullname, login_name, login_shell, home_dir),
            ) + seq![old(self)@.usrname],
                ),
                None => info_args(
                old(self)@,
                change_of(uid, gid, fullname, login_name, login_shell, home_dir),
            ).len() == 0,
            },
    {
        let args = self.info_arguments(uid, gid, fullname, login_name, login_shell, home_dir);
        let usrname = self.usrname.clone();
        self.apply_info(uid, gid, fullname, login_name, login_shell, home_dir);
        if args.len() == 0 {
            None
        } else {
            let mut all: Vec<String> = Vec::new();
            push_all(&mut all, vec!["usermod"]);
            assert(texts(all@) =~= seq!["usermod"@]);
            extend_list(&mut all, args);
            push_all(&mut all, vec![usrname.as_str()]);
            assert(texts(all@) =~= seq!["usermod"@] + texts(args@) + seq![usrname@]);
            Some(Command::new("pkexec", all))
        }
    }

    /// The command by which the user changes the password: it reads the
    /// current password, the new one and the new one again.
    pub fn change_password(&self, curr_pwd: &str, pwd: &str, verify_pwd: &str) -> (cmd: Command)
        ensures
            cmd.runs_with_input(
                "passwd"@,
                Seq::<Seq<char>>::empty(),
                curr_pwd@ + seq!['\n'] + pwd@ + seq!['\n'] + verify_pwd@,
            ),
    {
        proof {
            reveal_strlit("\n");
            assert("\n"@ =~= seq!['\n']);
        }
        let first = str_concat(curr_pwd, "\n");
        let second = str_concat(first.as_str(), pwd);
        let third = str_concat(second.as_str(), "\n");
        let input = str_concat(third.as_str(), verify_pwd);
        let args: Vec<String> = Vec::new();
        assert(texts(args@) =~= Seq::<Seq<char>>::empty());
        Command::with_input("passwd", args, input)
    }

    /// The command that makes `ls_grps` further groups of the user.
    pub fn change_groups_command(&self, ls_grps: &Vec<String>) -> (cmd: Command)
        ensures
            cmd.runs(
                "pkexec"@,
                seq!["usermod"@, "-a"@, "-G"@, join(texts(ls_grps@), seq![',']), self@.usrname],
            ),
    {
        proof {
            reveal_strlit(",");
            assert(","@ =~= seq![',']);
        }
        let joined = str_join(ls_grps, ",");
        let args = owned_list(vec!["usermod", "-a", "-G", joined.as_str(), self.usrname.as_str()]);
        assert(texts(args@) =~= seq!["usermod"@, "-a"@, "-G"@, joined@, self.usrname@]);
        Command::new("pkexec", args)
    }

    /// Takes `ls_grps` for the groups of the user.
    pub fn change_groups(&mut self, ls_grps: Vec<String>)
        ensures
            final(self)@ == (UserView { groups: texts(ls_grps@), ..old(self)@ }),
    {
        self.groups = ls_grps;
    }

    /// Whether the user may reset the passwords of others.
    pub fn is_admin(&self) -> (b: bool)
        ensures
            b == (self@.acc_type == AccountType::Admin),
    {
        match self.acc_type {
            AccountType::Admin => true,
            AccountType::User => false,
        }
    }

    /// The command by which an administrator sets the password of a user:
    /// it reads the new password twice.
    pub fn reset_password(usrname: &str, pwd: &str, verify_pwd: &str) -> (cmd: Command)
        ensures
            cmd.runs_with_input(
                "pkexec"@,
                seq!["passwd"@, usrname@],
                pwd@ + seq!['\n'] + verify_pwd@,
            ),
    {
        proof {
            reveal_strlit("\n");
            assert("\n"@ =~= seq!['\n']);
        }
        let first = str_concat(pwd, "\n");
        let input = str_concat(first.as_str(), verify_pwd);
        let args = owned_list(vec!["passwd", usrname]);
        assert(texts(args@) =~= seq!["passwd"@, usrname@]);
        Command::with_input("pkexec", args, input)
    }

    /// The command that deletes the account, and with it the home
    /// directory where that is asked for and the directory exists.
    pub fn delete(&self, delete_home_dir: bool, home_dir_exists: bool) -> (cmd: Command)
        ensures
            cmd.runs(
                "pkexec"@,
                if delete_home_dir && home_dir_exists {
                    seq!["userdel"@, "-r"@, self@.usrname]
                } else {
                    seq!["userdel"@, self@.usrname]
                },
            ),
    {
        if delete_home_dir && home_dir_exists {
            let args = owned_list(vec!["userdel", "-r", self.usrname.as_str()]);
            assert(texts(args@) =~= seq!["userdel"@, "-r"@, self.usrname@]);
            Command::new("pkexec", args)
        } else {
            let args = owned_list(vec!["userdel", self.usrname.as_str()]);
            assert(texts(args@) =~= seq!["userdel"@, self.usrname@]);
            Command::new("pkexec", args)
        }
    }

    /// The number of the user.
    pub fn uid(&self) -> (uid: u16)
        ensures
            uid == self@.uid,
    {
        self.uid
    }

    /// The number of the user's first group.
    pub fn gid(&self) -> (gid: u16)
        ensures
            gid == self@.gid,
    {
        self.gid
    }

    /// The login name.
    pub fn username(&self) -> (name: &String)
        ensures
            name@ == self@.usrname,
    {
        &self.usrname
    }

    /// The kind of the account.
    pub fn account_type(&self) -> (kind: AccountType)
        ensures
            kind == self@.acc_type,
    {
        self.acc_type
    }

    /// The name shown for the user.
    pub fn fullname(&self) -> (name: String)
        ensures
            name@ == shown_name(self@),
    {
        if self.fullname.as_str().unicode_len() == 0 {
            to_formatted_name(self.usrname.as_str())
        } else {
            to_formatted_name(self.fullname.as_str())
        }
    }

    /// The login shell.
    pub fn login_shell(&self) -> (path: &String)
        ensures
            path@ == self@.login_shell,
    {
        &self.login_shell
    }

    /// The home directory.
    pub fn home_dir(&self) -> (path: &String)
        ensures
            path@ == self@.home_dir,
    {
        &self.home_dir
    }

    /// The names of the groups of the user.
    pub fn groups(&self) -> (groups: &[String])
        ensures
            texts(groups@) == self@.groups,
    {
        self.groups.as_slice()
    }

    /// The path of the picture of the user.
    pub fn profile_path(&self) -> (path: String)
        ensures
            path@ == profile_path_of(self@.usrname),
    {
        proof {
            reveal_strlit("/");
            assert("/"@ =~= seq!['/']);
        }
        if str_starts_with(self.usrname.as_str(), "/") {
            self.usrname.clone()
        } else {
            let dir = str_concat("/var/lib/AccountsService/icons", "/");
            str_concat(dir.as_str(), self.usrname.as_str())
        }
    }

    /// A copy of this user.
    pub fn duplicate(&self) -> (r: User)
        ensures
            r@ == self@,
    {
        User {
            uid: self.uid,
            gid: self.gid,
            acc_type: self.acc_type,
            fullname: self.fullname.clone(),
            usrname: self.usrname.clone(),
            login_shell: self.login_shell.clone(),
            home_dir: self.home_dir.clone(),
            groups: copy_list(&self.groups),
        }
    }
}

} // verus!
