//! The accounts of the system: users and groups, as the databases list
//! them, and the commands that change them.
use vstd::prelude::*;
use crate::helpers::cmd_output_helper::Command;
use crate::helpers::decimal::{decimal, decimal_chars, parse_decimal, parsed};
use crate::helpers::file_helper::{has_path, path_is, paths_equal, same_path};
use crate::helpers::format_helper::{account_name, to_account_name};
use crate::helpers::search::{
    any, first_index, kept, lemma_first_index, lemma_kept_step, swapped,
};
use crate::helpers::text::{
    from_chars, join, lines, opt_view, same_text, split, str_lines, str_split, texts,
    to_chars,
};
use users::{
    change_of, creates_user, groups_of, info_applied, info_args, user_of_fields, InfoChange,
    UserView,
};
use groups::{group_of_fields, GroupView};

pub mod account_type;
pub mod groups;
pub mod users;

pub use account_type::AccountType;
pub use groups::Group;
pub use users::User;

verus! {

/// The numbers of the accounts that people use lie above this one.
pub const MIN_UID: u16 = 1000;

/// The numbers of the accounts that people use lie below this one.
pub const MAX_UID: u16 = 2000;

/// What the manager knows.
pub struct ManagerView {
    pub curr_uid: u16,
    pub all_users: Seq<UserView>,
    pub users: Seq<UserView>,
    pub all_groups: Seq<GroupView>,
    pub groups: Seq<GroupView>,
    pub login_shells: Seq<Seq<char>>,
}

/// The users and groups of the system.
#[derive(Debug)]
pub struct UsersGroupsManager {
    curr_uid: u16,
    ls_all_users: Vec<User>,
    ls_users: Vec<User>,
    ls_all_groups: Vec<Group>,
    ls_groups: Vec<Group>,
    login_shells: Vec<String>,
}

/// One line of the user database, with what the `groups` command printed
/// for the user of that line, if it ran.
#[derive(Debug, PartialEq, Eq)]
pub struct PasswdEntry {
    pub line: String,
    pub groups: Option<String>,
}

/// Why the databases could not be read.
#[derive(Debug, Clone, Copy, PartialEq, Eq, Structural)]
pub enum LoadError {
    /// The number of the running user is no `u16`.
    BadUid,
    /// The line of the administrators' group has fewer than four fields.
    BadAdminLine,
    /// The line of the user database with this index is no user.
    BadUserLine(usize),
    /// The line of the group database with this index is no group.
    BadGroupLine(usize),
}

/// The views of a list of users.
pub open spec fn user_views(users: Seq<User>) -> Seq<UserView> {
    Seq::new(users.len(), |i: int| users[i]@)
}

/// The views of a list of groups.
pub open spec fn group_views(groups: Seq<Group>) -> Seq<GroupView> {
    Seq::new(groups.len(), |i: int| groups[i]@)
}

/// The number is one of an account that people use.
pub open spec fn is_regular(id: u16) -> bool {
    MIN_UID < id < MAX_UID
}

/// The users whose number is one of an account that people use.
pub open spec fn regular_user() -> spec_fn(UserView) -> bool {
    |u: UserView| is_regular(u.uid)
}

/// The users with this number.
pub open spec fn user_with_uid(uid: u16) -> spec_fn(UserView) -> bool {
    |u: UserView| u.uid == uid
}

/// The users with this first group.
pub open spec fn user_with_gid(gid: u16) -> spec_fn(UserView) -> bool {
    |u: UserView| u.gid == gid
}

/// The users with this login name.
pub open spec fn user_named(name: Seq<char>) -> spec_fn(UserView) -> bool {
    |u: UserView| u.usrname == name
}

/// The users whose home directory is this path.
pub open spec fn user_at_home(home_dir: Seq<char>) -> spec_fn(UserView) -> bool {
    |u: UserView| same_path(u.home_dir, home_dir)
}

/// The groups with this name.
pub open spec fn group_named(name: Seq<char>) -> spec_fn(GroupView) -> bool {
    |g: GroupView| g.name == name
}

/// The groups that people use and that are the first group of none of
/// `users`.
pub open spec fn shared_group(users: Seq<UserView>) -> spec_fn(GroupView) -> bool {
    |g: GroupView| is_regular(g.gid) && !any(users, user_with_gid(g.gid))
}

/// The groups among `names`.
pub open spec fn group_among(names: Seq<Seq<char>>) -> spec_fn(GroupView) -> bool {
    |g: GroupView| names.contains(g.name)
}

/// The users among `names`.
pub open spec fn user_among(names: Seq<Seq<char>>) -> spec_fn(UserView) -> bool {
    |u: UserView| names.contains(u.usrname)
}

/// The users that are shown: those that people use, with the running user
/// in the first place, in exchange with the user that stood there.
pub open spec fn listed_users(all: Seq<UserView>, curr_uid: u16) -> Seq<UserView> {
    let regular = kept(all, regular_user());
    let idx = first_index(regular, user_with_uid(curr_uid));
    if 0 < idx < regular.len() {
        swapped(regular, 0, idx)
    } else {
        regular
    }
}

/// The groups that are shown.
pub open spec fn listed_groups(all: Seq<GroupView>, users: Seq<UserView>) -> Seq<GroupView> {
    kept(all, shared_group(users))
}

/// The administrators that the line of their group names: its fourth
/// field, cut at the commas.
pub open spec fn admins_of(admin_line: Seq<char>) -> Option<Seq<Seq<char>>> {
    let fields = split(admin_line, seq![':']);
    if fields.len() > 3 {
        Some(split(fields[3], seq![',']))
    } else {
        None
    }
}

/// The user that a line of the user database stands for.
pub open spec fn user_of_entry(entry: PasswdEntry, admins: Seq<Seq<char>>) -> Option<UserView> {
    user_of_fields(
        split(entry.line@, seq![':']),
        admins,
        groups_of(
            match entry.groups {
                Some(text) => Some(text@),
                None => None,
            },
        ),
    )
}

/// The group that a line of the group database stands for.
pub open spec fn group_of_line(line: Seq<char>) -> Option<GroupView> {
    group_of_fields(split(line, seq![':']))
}

impl View for UsersGroupsManager {
    type V = ManagerView;

    closed spec fn view(&self) -> ManagerView {
        ManagerView {
            curr_uid: self.curr_uid,
            all_users: user_views(self.ls_all_users@),
            users: user_views(self.ls_users@),
            all_groups: group_views(self.ls_all_groups@),
            groups: group_views(self.ls_groups@),
            login_shells: texts(self.login_shells@),
        }
    }
}

/// The index of the first user of the list with this login name.
fn find_user(users: &Vec<User>, name: &str) -> (r: Option<usize>)
    ensures
        match r {
            Some(i) => i < users.len() && i == first_index(user_views(users@), user_named(name@)),
            None => first_index(user_views(users@), user_named(name@)) == users.len(),
        },
{
    let mut i: usize = 0;
    while i < users.len()
        invariant
            i <= users.len(),
            forall|k: int| 0 <= k < i ==> !user_named(name@)(#[trigger] user_views(users@)[k]),
        decreases users.len() - i,
    {
        if same_text(users[i].username().as_str(), name) {
            proof {
                lemma_first_index(user_views(users@), user_named(name@), i as int);
            }
            return Some(i);
        }
        i = i + 1;
    }
    proof {
        lemma_first_index(user_views(users@), user_named(name@), i as int);
    }
    None
}

/// The index of the first group of the list with this name.
fn find_group(groups: &Vec<Group>, name: &str) -> (r: Option<usize>)
    ensures
        match r {
            Some(i) => i < groups.len() && i == first_index(
                group_views(groups@),
                group_named(name@),
            ),
            None => first_index(group_views(groups@), group_named(name@)) == groups.len(),
        },
{
    let mut i: usize = 0;
    while i < groups.len()
        invariant
            i <= groups.len(),
            forall|k: int| 0 <= k < i ==> !group_named(name@)(#[trigger] group_views(groups@)[k]),
        decreases groups.len() - i,
    {
        if same_text(groups[i].name().as_str(), name) {
            proof {
                lemma_first_index(group_views(groups@), group_named(name@), i as int);
            }
            return Some(i);
        }
        i = i + 1;
    }
    proof {
        lemma_first_index(group_views(groups@), group_named(name@), i as int);
    }
    None
}

/// Whether a user of the list has this number.
fn has_uid(users: &Vec<User>, uid: u16) -> (r: bool)
    ensures
        r == any(user_views(users@), user_with_uid(uid)),
{
    let mut i: usize = 0;
    while i < users.len()
        invariant
            i <= users.len(),
            forall|k: int| 0 <= k < i ==> !user_with_uid(uid)(#[trigger] user_views(users@)[k]),
        decreases users.len() - i,
    {
        if users[i].uid() == uid {
            proof {
                lemma_first_index(user_views(users@), user_with_uid(uid), i as int);
            }
            return true;
        }
        i = i + 1;
    }
    proof {
        lemma_first_index(user_views(users@), user_with_uid(uid), i as int);
    }
    false
}

/// Whether a user of the list has this first group.
fn has_gid(users: &Vec<User>, gid: u16) -> (r: bool)
    ensures
        r == any(user_views(users@), user_with_gid(gid)),
{
    let mut i: usize = 0;
    while i < users.len()
        invariant
            i <= users.len(),
            forall|k: int| 0 <= k < i ==> !user_with_gid(gid)(#[trigger] user_views(users@)[k]),
        decreases users.len() - i,
    {
        if users[i].gid() == gid {
            proof {
                lemma_first_index(user_views(users@), user_with_gid(gid), i as int);
            }
            return true;
        }
        i = i + 1;
    }
    proof {
        lemma_first_index(user_views(users@), user_with_gid(gid), i as int);
    }
    false
}

/// Whether a user of the list has this home directory.
fn has_home(users: &Vec<User>, home_dir: &str) -> (r: bool)
    ensures
        r == any(user_views(users@), user_at_home(home_dir@)),
{
    let mut i: usize = 0;
    while i < users.len()
        invariant
            i <= users.len(),
            forall|k: int|
                0 <= k < i ==> !user_at_home(home_dir@)(#[trigger] user_views(users@)[k]),
        decreases users.len() - i,
    {
        if paths_equal(users[i].home_dir().as_str(), home_dir) {
            proof {
                lemma_first_index(user_views(users@), user_at_home(home_dir@), i as int);
            }
            return true;
        }
        i = i + 1;
    }
    proof {
        lemma_first_index(user_views(users@), user_at_home(home_dir@), i as int);
    }
    false
}

/// The lines of the user database that stand for no user.
pub open spec fn bad_entry(admins: Seq<Seq<char>>) -> spec_fn(PasswdEntry) -> bool {
    |e: PasswdEntry| user_of_entry(e, admins) is None
}

/// The lines of the group database that stand for no group.
pub open spec fn bad_line() -> spec_fn(String) -> bool {
    |l: String| group_of_line(l@) is None
}

/// The users that the user database lists, or the first fault in it.
pub open spec fn users_loaded(entries: Seq<PasswdEntry>, admin_line: Seq<char>) -> Result<
    Seq<UserView>,
    LoadError,
> {
    match admins_of(admin_line) {
        None => Err(LoadError::BadAdminLine),
        Some(admins) => {
            let bad = first_index(entries, bad_entry(admins));
            if bad < entries.len() {
                Err(LoadError::BadUserLine(bad as usize))
            } else {
                Ok(Seq::new(entries.len(), |i: int| user_of_entry(entries[i], admins)->0))
            }
        },
    }
}

/// The groups that the group database lists, or the first fault in it.
pub open spec fn groups_loaded(group_lines: Seq<String>) -> Result<Seq<GroupView>, LoadError> {
    let bad = first_index(group_lines, bad_line());
    if bad < group_lines.len() {
        Err(LoadError::BadGroupLine(bad as usize))
    } else {
        Ok(Seq::new(group_lines.len(), |i: int| group_of_line(group_lines[i]@)->0))
    }
}

/// Copies of the users that people use.
fn regular_users(all: &Vec<User>) -> (r: Vec<User>)
    ensures
        user_views(r@) == kept(user_views(all@), regular_user()),
{
    let mut r: Vec<User> = Vec::new();
    let mut i: usize = 0;
    assert(user_views(all@).take(0) =~= Seq::<UserView>::empty());
    assert(user_views(r@) =~= Seq::<UserView>::empty());
    while i < all.len()
        invariant
            i <= all.len(),
            user_views(r@) == kept(user_views(all@).take(i as int), regular_user()),
        decreases all.len() - i,
    {
        proof {
            lemma_kept_step(user_views(all@), regular_user(), i as int);
        }
        if MIN_UID < all[i].uid() && all[i].uid() < MAX_UID {
            let ghost before = user_views(r@);
            r.push(all[i].duplicate());
            assert(user_views(r@) =~= before.push(all@[i as int]@));
        }
        i = i + 1;
    }
    assert(user_views(all@).take(all.len() as int) =~= user_views(all@));
    r
}

/// Copies of the groups that are shown beside `users`.
fn shared_groups(all: &Vec<Group>, users: &Vec<User>) -> (r: Vec<Group>)
    ensures
        group_views(r@) == kept(group_views(all@), shared_group(user_views(users@))),
{
    let ghost p = shared_group(user_views(users@));
    let mut r: Vec<Group> = Vec::new();
    let mut i: usize = 0;
    assert(group_views(all@).take(0) =~= Seq::<GroupView>::empty());
    assert(group_views(r@) =~= Seq::<GroupView>::empty());
    while i < all.len()
        invariant
            i <= all.len(),
            p == shared_group(user_views(users@)),
            group_views(r@) == kept(group_views(all@).take(i as int), p),
        decreases all.len() - i,
    {
        proof {
            lemma_kept_step(group_views(all@), p, i as int);
        }
        let gid = all[i].gid();
        if MIN_UID < gid && gid < MAX_UID && !has_gid(users, gid) {
            let ghost before = group_views(r@);
            r.push(all[i].duplicate());
            assert(group_views(r@) =~= before.push(all@[i as int]@));
        }
        i = i + 1;
    }
    assert(group_views(all@).take(all.len() as int) =~= group_views(all@));
    r
}

/// Puts the user with this number in the first place, in exchange with
/// the user that stands there.
fn to_front(users: &mut Vec<User>, uid: u16)
    ensures
        user_views(final(users)@) == ({
            let idx = first_index(user_views(old(users)@), user_with_uid(uid));
            if 0 < idx < old(users)@.len() {
                swapped(user_views(old(users)@), 0, idx)
            } else {
                user_views(old(users)@)
            }
        }),
{
    let mut i: usize = 0;
    while i < users.len()
        invariant
            i <= users.len(),
            *users == *old(users),
            forall|k: int| 0 <= k < i ==> !user_with_uid(uid)(#[trigger] user_views(users@)[k]),
        decreases users.len() - i,
    {
        if users[i].uid() == uid {
            proof {
                lemma_first_index(user_views(users@), user_with_uid(uid), i as int);
            }
            if i != 0 {
                let ghost before = user_views(users@);
                let found = users.remove(i);
                let first = users.remove(0);
                users.insert(0, found);
                users.insert(i, first);
                assert(user_views(users@) =~= swapped(before, 0, i as int));
            }
            return ;
        }
        i = i + 1;
    }
    proof {
        lemma_first_index(user_views(users@), user_with_uid(uid), i as int);
    }
}

impl UsersGroupsManager {
    /// A manager that knows nothing yet.
    pub fn empty() -> (manager: UsersGroupsManager)
        ensures
            manager@.curr_uid == 0,
            manager@.all_users.len() == 0,
            manager@.users.len() == 0,
            manager@.all_groups.len() == 0,
            manager@.groups.len() == 0,
            manager@.login_shells.len() == 0,
    {
        UsersGroupsManager {
            curr_uid: 0,
            ls_all_users: Vec::new(),
            ls_users: Vec::new(),
            ls_all_groups: Vec::new(),
            ls_groups: Vec::new(),
            login_shells: Vec::new(),
        }
    }

    /// Takes the number of the running user from what `id -u` printed.
    pub fn load_curr_user(&mut self, uid_output: &str) -> (r: Result<(), LoadError>)
        ensures
            match parsed(uid_output@, u16::MAX as int) {
                Some(n) => r is Ok && final(self)@ == (ManagerView {
                    curr_uid: n as u16,
                    ..old(self)@
                }),
                None => r == Err::<(), LoadError>(LoadError::BadUid) && final(self)@ == old(self)@,
            },
    {
        match parse_decimal(&to_chars(uid_output), 65535) {
            Some(n) => {
                self.curr_uid = n as u16;
                Ok(())
            },
            None => Err(LoadError::BadUid),
        }
    }

    /// Reads the users anew from the lines of the user database and the
    /// line of the administrators' group.
    pub fn load_users(&mut self, entries: &Vec<PasswdEntry>, admin_line: &str) -> (r: Result<
        (),
        LoadError,
    >)
        ensures
            match users_loaded(entries@, admin_line@) {
                Ok(all) => r is Ok && final(self)@ == (ManagerView {
                    all_users: all,
                    users: listed_users(all, old(self)@.curr_uid),
                    ..old(self)@
                }),
                Err(e) => r == Err::<(), LoadError>(e) && final(self)@ == old(self)@,
            },
    {
        proof {
            reveal_strlit(":");
            reveal_strlit(",");
            assert(":"@ =~= seq![':']);
            assert(","@ =~= seq![',']);
        }
        let fields = str_split(admin_line, ":");
        if fields.len() <= 3 {
            return Err(LoadError::BadAdminLine);
        }
        let ls_admin = str_split(fields[3].as_str(), ",");
        let ghost admins = texts(ls_admin@);
        assert(admins_of(admin_line@) == Some(admins));
        let mut all: Vec<User> = Vec::new();
        let mut i: usize = 0;
        while i < entries.len()
            invariant
                i <= entries.len(),
                ":"@ == seq![':'],
                admins == texts(ls_admin@),
                admins_of(admin_line@) == Some(admins),
                *self == *old(self),
                all@.len() == i,
                forall|k: int| 0 <= k < i ==> !bad_entry(admins)(#[trigger] entries@[k]),
                forall|k: int|
                    0 <= k < i ==> (#[trigger] all@[k])@ == user_of_entry(entries@[k], admins)->0,
            decreases entries.len() - i,
        {
            let line_fields = str_split(entries[i].line.as_str(), ":");
            let groups: Option<&str> = match &entries[i].groups {
                Some(text) => Some(text.as_str()),
                None => None,
            };
            assert(crate::helpers::text::opt_view(groups) == match entries@[i as int].groups {
                Some(text) => Some(text@),
                None => None,
            });
            match User::from_vec(&line_fields, &ls_admin, groups) {
                Some(user) => {
                    all.push(user);
                },
                None => {
                    proof {
                        assert(bad_entry(admins)(entries@[i as int]));
                        lemma_first_index(entries@, bad_entry(admins), i as int);
                    }
                    return Err(LoadError::BadUserLine(i));
                },
            }
            i = i + 1;
        }
        proof {
            lemma_first_index(entries@, bad_entry(admins), i as int);
            assert(user_views(all@) =~= users_loaded(entries@, admin_line@)->Ok_0);
        }
        let mut shown = regular_users(&all);
        to_front(&mut shown, self.curr_uid);
        self.ls_all_users = all;
        self.ls_users = shown;
        Ok(())
    }

    /// Reads the groups anew from the lines of the group database.
    pub fn load_groups(&mut self, group_lines: &Vec<String>) -> (r: Result<(), LoadError>)
        ensures
            match groups_loaded(group_lines@) {
                Ok(all) => r is Ok && final(self)@ == (ManagerView {
                    all_groups: all,
                    groups: listed_groups(all, old(self)@.users),
                    ..old(self)@
                }),
                Err(e) => r == Err::<(), LoadError>(e) && final(self)@ == old(self)@,
            },
    {
        proof {
            reveal_strlit(":");
            assert(":"@ =~= seq![':']);
        }
        let mut all: Vec<Group> = Vec::new();
        let mut i: usize = 0;
        while i < group_lines.len()
            invariant
                i <= group_lines.len(),
                ":"@ == seq![':'],
                all@.len() == i,
                *self == *old(self),
                forall|k: int| 0 <= k < i ==> !bad_line()(#[trigger] group_lines@[k]),
                forall|k: int|
                    0 <= k < i ==> (#[trigger] all@[k])@ == group_of_line(group_lines@[k]@)->0,
            decreases group_lines.len() - i,
        {
            let fields = str_split(group_lines[i].as_str(), ":");
            match Group::from_vec(&fields) {
                Some(group) => {
                    all.push(group);
                },
                None => {
                    proof {
                        assert(bad_line()(group_lines@[i as int]));
                        lemma_first_index(group_lines@, bad_line(), i as int);
                    }
                    return Err(LoadError::BadGroupLine(i));
                },
            }
            i = i + 1;
        }
        proof {
            lemma_first_index(group_lines@, bad_line(), i as int);
            assert(group_views(all@) =~= groups_loaded(group_lines@)->Ok_0);
        }
        let shown = shared_groups(&all, &self.ls_users);
        self.ls_all_groups = all;
        self.ls_groups = shown;
        Ok(())
    }

    /// Takes the login shells from what `chsh -l` printed: one on each
    /// line.
    pub fn load_login_shells(&mut self, stdout: &str)
        ensures
            final(self)@ == (ManagerView { login_shells: lines(stdout@), ..old(self)@ }),
    {
        self.login_shells = str_lines(stdout);
    }

    /// The manager of the users and groups that the databases list.
    pub fn new(
        uid_output: &str,
        entries: &Vec<PasswdEntry>,
        admin_line: &str,
        group_lines: &Vec<String>,
        shells_output: &str,
    ) -> (r: Result<UsersGroupsManager, LoadError>)
        ensures
            match r {
                Ok(manager) => parsed(uid_output@, u16::MAX as int) is Some && users_loaded(
                    entries@,
                    admin_line@,
                ) is Ok && groups_loaded(group_lines@) is Ok && manager@ == (ManagerView {
                    curr_uid: parsed(uid_output@, u16::MAX as int)->0 as u16,
                    all_users: users_loaded(entries@, admin_line@)->Ok_0,
                    users: listed_users(
                        users_loaded(entries@, admin_line@)->Ok_0,
                        parsed(uid_output@, u16::MAX as int)->0 as u16,
                    ),
                    all_groups: groups_loaded(group_lines@)->Ok_0,
                    groups: listed_groups(
                        groups_loaded(group_lines@)->Ok_0,
                        listed_users(
                            users_loaded(entries@, admin_line@)->Ok_0,
                            parsed(uid_output@, u16::MAX as int)->0 as u16,
                        ),
                    ),
                    login_shells: lines(shells_output@),
                }),
                Err(e) => if parsed(uid_output@, u16::MAX as int) is None {
                    e == LoadError::BadUid
                } else if users_loaded(entries@, admin_line@) is Err {
                    e == users_loaded(entries@, admin_line@)->Err_0
                } else {
                    groups_loaded(group_lines@) == Err::<Seq<GroupView>, LoadError>(e)
                },
            },
    {
        let mut manager = UsersGroupsManager::empty();
        match manager.load_curr_user(uid_output) {
            Ok(()) => {},
            Err(e) => {
                return Err(e);
            },
        }
        match manager.load_users(entries, admin_line) {
            Ok(()) => {},
            Err(e) => {
                return Err(e);
            },
        }
        match manager.load_groups(group_lines) {
            Ok(()) => {},
            Err(e) => {
                return Err(e);
            },
        }
        manager.load_login_shells(shells_output);
        assert(manager@.all_users.len() >= 0);
        Ok(manager)
    }
}

/// The views of a list of references to groups.
pub open spec fn group_ref_views(groups: Seq<&Group>) -> Seq<GroupView> {
    Seq::new(groups.len(), |i: int| groups[i]@)
}

/// The views of a list of references to users.
pub open spec fn user_ref_views(users: Seq<&User>) -> Seq<UserView> {
    Seq::new(users.len(), |i: int| users[i]@)
}

/// What is changed of `user` when the given values are asked for: a
/// number, a login name and a home directory only for a user other than
/// the running one, and only where no user has them yet; the number only
/// where it is one of an account that people use; the group where one of
/// that name is known; the shell where it is the path of a login shell.
pub open spec fn resolved_change(
    m: ManagerView,
    user: UserView,
    uid: Seq<char>,
    gname: Seq<char>,
    fullname: Seq<char>,
    login_name: Seq<char>,
    login_shell: Seq<char>,
    home_dir: Seq<char>,
) -> InfoChange {
    let other = m.curr_uid != user.uid;
    let login = account_name(login_name);
    let g = first_index(m.all_groups, group_named(gname));
    InfoChange {
        uid: match parsed(uid, u16::MAX as int) {
            Some(n) => if other && is_regular(n as u16) && !any(
                m.all_users,
                user_with_uid(n as u16),
            ) {
                Some(decimal(n as nat))
            } else {
                None
            },
            None => None,
        },
        gid: if g < m.all_groups.len() {
            Some(decimal(m.all_groups[g].gid as nat))
        } else {
            None
        },
        fullname: fullname,
        login_name: if other && !any(m.all_users, user_named(login)) {
            Some(login)
        } else {
            None
        },
        login_shell: if any(m.login_shells, path_is(login_shell)) {
            Some(login_shell)
        } else {
            None
        },
        home_dir: if other && !any(m.all_users, user_at_home(home_dir)) {
            Some(home_dir)
        } else {
            None
        },
    }
}

impl UsersGroupsManager {
    /// The commands that create a user; none where a user of that name
    /// exists. The databases are to be read anew once they have run.
    pub fn create_user(
        &self,
        fullname: &str,
        usrname: &str,
        account_type: AccountType,
        pwd: &str,
        verify_pwd: &str,
    ) -> (r: Option<Vec<Command>>)
        ensures
            match r {
                Some(cmds) => !any(self@.all_users, user_named(account_name(usrname@)))
                    && creates_user(
                    cmds@,
                    fullname@,
                    account_name(usrname@),
                    account_type,
                    pwd@,
                    verify_pwd@,
                ),
                None => any(self@.all_users, user_named(account_name(usrname@))),
            },
    {
        let name = to_account_name(usrname);
        match find_user(&self.ls_all_users, name.as_str()) {
            Some(_) => None,
            None => Some(User::new(fullname, name.as_str(), account_type, pwd, verify_pwd)),
        }
    }

    /// The command that changes the kind of the account of a user; none
    /// where no user of that name is shown.
    pub fn change_user_type_command(&self, usrname: &str, account_type: AccountType) -> (r: Option<
        Command,
    >)
        ensures
            match r {
                Some(cmd) => any(self@.users, user_named(usrname@)) && cmd.runs(
                    "pkexec"@,
                    seq![
                        "gpasswd"@,
                        if account_type == AccountType::Admin {
                            "-a"@
                        } else {
                            "-d"@
                        },
                        usrname@,
                        "wheel"@,
                    ],
                ),
                None => !any(self@.users, user_named(usrname@)),
            },
    {
        match find_user(&self.ls_users, usrname) {
            Some(i) => {
                assert(user_views(self.ls_users@)[i as int] == self.ls_users@[i as int]@);
                proof {
                    crate::helpers::search::lemma_first_index_is_first(
                        self@.users,
                        user_named(usrname@),
                    );
                }
                Some(self.ls_users[i].change_account_type_command(account_type))
            },
            None => None,
        }
    }

    /// Takes `account_type` for the kind of the account of the user of
    /// that name; says whether such a user is shown.
    pub fn change_user_type(&mut self, usrname: &str, account_type: AccountType) -> (changed: bool)
        ensures
            changed == any(old(self)@.users, user_named(usrname@)),
            final(self)@ == (ManagerView {
                users: if changed {
                    let i = first_index(old(self)@.users, user_named(usrname@));
                    old(self)@.users.update(
                        i,
                        UserView { acc_type: account_type, ..old(self)@.users[i] },
                    )
                } else {
                    old(self)@.users
                },
                ..old(self)@
            }),
    {
        match find_user(&self.ls_users, usrname) {
            Some(i) => {
                let ghost before = user_views(self.ls_users@);
                let mut user = self.ls_users.remove(i);
                assert(user@ == before[i as int]);
                user.change_account_type(account_type);
                self.ls_users.insert(i, user);
                assert(user_views(self.ls_users@) =~= before.update(
                    i as int,
                    UserView { acc_type: account_type, ..before[i as int] },
                ));
                true
            },
            None => false,
        }
    }

    /// Changes what is known of the user of that name and gives the
    /// command that makes the same change in the database; none where no
    /// such user is shown or nothing is to change.
    pub fn change_user_info(
        &mut self,
        usrname: &str,
        uid: &str,
        gname: &str,
        fullname: &str,
        login_name: &str,
        login_shell: &str,
        home_dir: &str,
    ) -> (r: Option<Command>)
        ensures
            ({
                let m = old(self)@;
                let i = first_index(m.users, user_named(account_name(usrname@)));
                if i < m.users.len() {
                    let change = resolved_change(
                        m,
                        m.users[i],
                        uid@,
                        gname@,
                        fullname@,
                        login_name@,
                        login_shell@,
                        home_dir@,
                    );
                    &&& final(self)@ == (ManagerView {
                        users: m.users.update(i, info_applied(m.users[i], change)),
                        ..m
                    })
                    &&& match r {
                        Some(cmd) => cmd.runs(
                            "pkexec"@,
                            seq!["usermod"@] + info_args(m.users[i], change) + seq![
                                m.users[i].usrname,
                            ],
                        ),
                        None => info_args(m.users[i], change).len() == 0,
                    }
                } else {
                    r is None && final(self)@ == m
                }
            }),
    {
        let name = to_account_name(usrname);
        let login = to_account_name(login_name);
        let i = match find_user(&self.ls_users, name.as_str()) {
            Some(i) => i,
            None => {
                return None;
            },
        };
        let ghost m = self@;
        let ghost before = user_views(self.ls_users@);
        let other = self.curr_uid != self.ls_users[i].uid();
        assert(before[i as int] == self.ls_users@[i as int]@);
        let new_uid: Option<String> = match parse_decimal(&to_chars(uid), 65535) {
            Some(n) => {
                let n16 = n as u16;
                if other && MIN_UID < n16 && n16 < MAX_UID && !has_uid(&self.ls_all_users, n16) {
                    Some(from_chars(&decimal_chars(n)))
                } else {
                    None
                }
            },
            None => None,
        };
        let new_gid: Option<String> = match find_group(&self.ls_all_groups, gname) {
            Some(g) => {
                assert(group_views(self.ls_all_groups@)[g as int]
                    == self.ls_all_groups@[g as int]@);
                Some(from_chars(&decimal_chars(self.ls_all_groups[g].gid() as u32)))
            },
            None => None,
        };
        let new_login: Option<&str> = if other && find_user(
            &self.ls_all_users,
            login.as_str(),
        ).is_none() {
            Some(login.as_str())
        } else {
            None
        };
        let new_shell: Option<&str> = if has_path(&self.login_shells, login_shell) {
            Some(login_shell)
        } else {
            None
        };
        let new_home: Option<&str> = if other && !has_home(&self.ls_all_users, home_dir) {
            Some(home_dir)
        } else {
            None
        };
        let uid_ref: Option<&str> = match &new_uid {
            Some(text) => Some(text.as_str()),
            None => None,
        };
        let gid_ref: Option<&str> = match &new_gid {
            Some(text) => Some(text.as_str()),
            None => None,
        };
        assert(change_of(uid_ref, gid_ref, fullname, new_login, new_shell, new_home)
            == resolved_change(
            m,
            before[i as int],
            uid@,
            gname@,
            fullname@,
            login_name@,
            login_shell@,
            home_dir@,
        ));
        let mut user = self.ls_users.remove(i);
        let cmd = user.change_info(uid_ref, gid_ref, fullname, new_login, new_shell, new_home);
        self.ls_users.insert(i, user);
        assert(user_views(self.ls_users@) =~= before.update(i as int, user@));
        cmd
    }

    /// The command by which the user of that name changes the password;
    /// none where no such user is shown.
    pub fn change_user_password(
        &self,
        usrname: &str,
        curr_pwd: &str,
        pwd: &str,
        verify_pwd: &str,
    ) -> (r: Option<Command>)
        ensures
            match r {
                Some(cmd) => any(self@.users, user_named(account_name(usrname@)))
                    && cmd.runs_with_input(
                    "passwd"@,
                    Seq::<Seq<char>>::empty(),
                    curr_pwd@ + seq!['\n'] + pwd@ + seq!['\n'] + verify_pwd@,
                ),
                None => !any(self@.users, user_named(account_name(usrname@))),
            },
    {
        let name = to_account_name(usrname);
        match find_user(&self.ls_users, name.as_str()) {
            Some(i) => Some(self.ls_users[i].change_password(curr_pwd, pwd, verify_pwd)),
            None => None,
        }
    }

    /// The command that sets the password of the user of that name; none
    /// where no such user is shown.
    pub fn reset_user_password(&self, usrname: &str, pwd: &str, verify_pwd: &str) -> (r: Option<
        Command,
    >)
        ensures
            match r {
                Some(cmd) => any(self@.users, user_named(account_name(usrname@)))
                    && cmd.runs_with_input(
                    "pkexec"@,
                    seq!["passwd"@, account_name(usrname@)],
                    pwd@ + seq!['\n'] + verify_pwd@,
                ),
                None => !any(self@.users, user_named(account_name(usrname@))),
            },
    {
        let name = to_account_name(usrname);
        match find_user(&self.ls_users, name.as_str()) {
            Some(_) => Some(User::reset_password(name.as_str(), pwd, verify_pwd)),
            None => None,
        }
    }

    /// The groups shown that the user of that name belongs to; none where
    /// no such user is shown.
    pub fn user_groups(&self, usrname: &str) -> (r: Option<Vec<&Group>>)
        ensures
            ({
                let i = first_index(self@.users, user_named(account_name(usrname@)));
                match r {
                    Some(list) => i < self@.users.len() && group_ref_views(list@) == kept(
                        self@.groups,
                        group_among(self@.users[i].groups),
                    ),
                    None => i == self@.users.len(),
                }
            }),
    {
        let name = to_account_name(usrname);
        let i = match find_user(&self.ls_users, name.as_str()) {
            Some(i) => i,
            None => {
                return None;
            },
        };
        let names = self.ls_users[i].groups();
        assert(user_views(self.ls_users@)[i as int] == self.ls_users@[i as int]@);
        let ghost p = group_among(texts(names@));
        let ghost all = group_views(self.ls_groups@);
        let mut list: Vec<&Group> = Vec::new();
        let mut k: usize = 0;
        assert(all.take(0) =~= Seq::<GroupView>::empty());
        assert(group_ref_views(list@) =~= Seq::<GroupView>::empty());
        while k < self.ls_groups.len()
            invariant
                k <= self.ls_groups.len(),
                all == group_views(self.ls_groups@),
                p == group_among(texts(names@)),
                group_ref_views(list@) == kept(all.take(k as int), p),
            decreases self.ls_groups.len() - k,
        {
            proof {
                lemma_kept_step(all, p, k as int);
            }
            if slice_has_text(names, self.ls_groups[k].name().as_str()) {
                let ghost before = group_ref_views(list@);
                list.push(&self.ls_groups[k]);
                assert(group_ref_views(list@) =~= before.push(self.ls_groups@[k as int]@));
            }
            k = k + 1;
        }
        assert(all.take(self.ls_groups.len() as int) =~= all);
        Some(list)
    }

    /// The command that deletes the user of that name, with the home
    /// directory where that is asked for and the directory exists; none
    /// where no such user is shown. The databases are to be read anew once
    /// it has run.
    pub fn delete_user(&self, usrname: &str, delete_home_dir: bool, home_dir_exists: bool) -> (r:
        Option<Command>)
        ensures
            match r {
                Some(cmd) => any(self@.users, user_named(account_name(usrname@))) && cmd.runs(
                    "pkexec"@,
                    if delete_home_dir && home_dir_exists {
                        seq!["userdel"@, "-r"@, account_name(usrname@)]
                    } else {
                        seq!["userdel"@, account_name(usrname@)]
                    },
                ),
                None => !any(self@.users, user_named(account_name(usrname@))),
            },
    {
        let name = to_account_name(usrname);
        match find_user(&self.ls_users, name.as_str()) {
            Some(i) => {
                assert(user_views(self.ls_users@)[i as int] == self.ls_users@[i as int]@);
                proof {
                    crate::helpers::search::lemma_first_index_is_first(
                        self@.users,
                        user_named(account_name(usrname@)),
                    );
                }
                Some(self.ls_users[i].delete(delete_home_dir, home_dir_exists))
            },
            None => None,
        }
    }

    /// The command that creates a group; none where a group of that name
    /// exists. The databases are to be read anew once it has run.
    pub fn create_group(&self, gname: &str) -> (r: Option<Command>)
        ensures
            match r {
                Some(cmd) => !any(self@.all_groups, group_named(account_name(gname@))) && cmd.runs(
                    "pkexec"@,
                    seq!["groupadd"@, account_name(gname@)],
                ),
                None => any(self@.all_groups, group_named(account_name(gname@))),
            },
    {
        let name = to_account_name(gname);
        match find_group(&self.ls_all_groups, name.as_str()) {
            Some(_) => None,
            None => Some(Group::new(name.as_str())),
        }
    }

    /// The command that renames the group of that name; none where no such
    /// group is shown, or a group of the new name exists.
    pub fn change_group_name_command(&self, gname: &str, new_name: &str) -> (r: Option<Command>)
        ensures
            ({
                let i = first_index(self@.groups, group_named(account_name(gname@)));
                let free = !any(self@.all_groups, group_named(account_name(new_name@)));
                match r {
                    Some(cmd) => i < self@.groups.len() && free && account_name(new_name@)
                        != account_name(gname@) && cmd.runs(
                        "pkexec"@,
                        seq!["groupmod"@, "-n"@, account_name(new_name@), account_name(gname@)],
                    ),
                    None => !(i < self@.groups.len() && free && account_name(new_name@)
                        != account_name(gname@)),
                }
            }),
    {
        let name = to_account_name(gname);
        let new = to_account_name(new_name);
        match find_group(&self.ls_groups, name.as_str()) {
            Some(i) => {
                assert(group_views(self.ls_groups@)[i as int] == self.ls_groups@[i as int]@);
                proof {
                    crate::helpers::search::lemma_first_index_is_first(
                        self@.groups,
                        group_named(account_name(gname@)),
                    );
                }
                if find_group(&self.ls_all_groups, new.as_str()).is_none() {
                    self.ls_groups[i].change_name_command(new.as_str())
                } else {
                    None
                }
            },
            None => None,
        }
    }

    /// Takes the new name for the name of the group; says whether a group
    /// was renamed.
    pub fn change_group_name(&mut self, gname: &str, new_name: &str) -> (changed: bool)
        ensures
            ({
                let m = old(self)@;
                let i = first_index(m.groups, group_named(account_name(gname@)));
                let free = !any(m.all_groups, group_named(account_name(new_name@)));
                &&& changed == (i < m.groups.len() && free && account_name(new_name@)
                    != account_name(gname@))
                &&& final(self)@ == (ManagerView {
                    groups: if changed {
                        m.groups.update(
                            i,
                            GroupView { name: account_name(new_name@), ..m.groups[i] },
                        )
                    } else {
                        m.groups
                    },
                    ..m
                })
            }),
    {
        let name = to_account_name(gname);
        let new = to_account_name(new_name);
        match find_group(&self.ls_groups, name.as_str()) {
            Some(i) => {
                let ghost before = group_views(self.ls_groups@);
                assert(before[i as int] == self.ls_groups@[i as int]@);
                proof {
                    crate::helpers::search::lemma_first_index_is_first(
                        before,
                        group_named(account_name(gname@)),
                    );
                }
                if find_group(&self.ls_all_groups, new.as_str()).is_none() {
                    let mut group = self.ls_groups.remove(i);
                    let changed = group.change_name(new.as_str());
                    self.ls_groups.insert(i, group);
                    assert(group_views(self.ls_groups@) =~= before.update(i as int, group@));
                    if !changed {
                        assert(group@ == before[i as int]);
                        assert(group_views(self.ls_groups@) =~= before);
                    } else {
                        assert(group@ == (GroupView {
                            name: account_name(new_name@),
                            ..before[i as int]
                        }));
                    }
                    changed
                } else {
                    false
                }
            },
            None => false,
        }
    }

    /// The command that makes `ls_members` the members of the group of
    /// that name; none where no such group is shown, or they are its
    /// members already.
    pub fn change_group_members_command(&self, gname: &str, ls_members: &Vec<String>) -> (r:
        Option<Command>)
        ensures
            ({
                let i = first_index(self@.groups, group_named(account_name(gname@)));
                match r {
                    Some(cmd) => i < self@.groups.len() && texts(ls_members@)
                        != self@.groups[i].members && cmd.runs(
                        "pkexec"@,
                        seq![
                            "gpasswd"@,
                            "-M"@,
                            join(texts(ls_members@), seq![',']),
                            account_name(gname@),
                        ],
                    ),
                    None => i == self@.groups.len() || texts(ls_members@)
                        == self@.groups[i].members,
                }
            }),
    {
        let name = to_account_name(gname);
        match find_group(&self.ls_groups, name.as_str()) {
            Some(i) => {
                assert(group_views(self.ls_groups@)[i as int] == self.ls_groups@[i as int]@);
                proof {
                    crate::helpers::search::lemma_first_index_is_first(
                        self@.groups,
                        group_named(account_name(gname@)),
                    );
                }
                self.ls_groups[i].change_membership_command(ls_members)
            },
            None => None,
        }
    }

    /// Takes `ls_members` for the members of the group of that name; says
    /// whether such a group is shown.
    pub fn change_group_members(&mut self, gname: &str, ls_members: Vec<String>) -> (changed: bool)
        ensures
            ({
                let m = old(self)@;
                let i = first_index(m.groups, group_named(account_name(gname@)));
                &&& changed == (i < m.groups.len())
                &&& final(self)@ == (ManagerView {
                    groups: if changed {
                        m.groups.update(
                            i,
                            GroupView { members: texts(ls_members@), ..m.groups[i] },
                        )
                    } else {
                        m.groups
                    },
                    ..m
                })
            }),
    {
        let name = to_account_name(gname);
        match find_group(&self.ls_groups, name.as_str()) {
            Some(i) => {
                let ghost before = group_views(self.ls_groups@);
                assert(before[i as int] == self.ls_groups@[i as int]@);
                let mut group = self.ls_groups.remove(i);
                group.change_membership(ls_members);
                self.ls_groups.insert(i, group);
                assert(group@ == (GroupView { members: texts(ls_members@), ..before[i as int] }));
                assert(group_views(self.ls_groups@) =~= before.update(i as int, group@));
                true
            },
            None => false,
        }
    }

    /// The users shown that are members of the group of that name; none
    /// where no such group is shown.
    pub fn group_members(&self, gname: &str) -> (r: Option<Vec<&User>>)
        ensures
            ({
                let i = first_index(self@.groups, group_named(account_name(gname@)));
                match r {
                    Some(list) => i < self@.groups.len() && user_ref_views(list@) == kept(
                        self@.users,
                        user_among(self@.groups[i].members),
                    ),
                    None => i == self@.groups.len(),
                }
            }),
    {
        let name = to_account_name(gname);
        let i = match find_group(&self.ls_groups, name.as_str()) {
            Some(i) => i,
            None => {
                return None;
            },
        };
        let names = self.ls_groups[i].members();
        assert(group_views(self.ls_groups@)[i as int] == self.ls_groups@[i as int]@);
        let ghost p = user_among(texts(names@));
        let ghost all = user_views(self.ls_users@);
        let mut list: Vec<&User> = Vec::new();
        let mut k: usize = 0;
        assert(all.take(0) =~= Seq::<UserView>::empty());
        assert(user_ref_views(list@) =~= Seq::<UserView>::empty());
        while k < self.ls_users.len()
            invariant
                k <= self.ls_users.len(),
                all == user_views(self.ls_users@),
                p == user_among(texts(names@)),
                user_ref_views(list@) == kept(all.take(k as int), p),
            decreases self.ls_users.len() - k,
        {
            proof {
                lemma_kept_step(all, p, k as int);
            }
            if slice_has_text(names, self.ls_users[k].username().as_str()) {
                let ghost before = user_ref_views(list@);
                list.push(&self.ls_users[k]);
                assert(user_ref_views(list@) =~= before.push(self.ls_users@[k as int]@));
            }
            k = k + 1;
        }
        assert(all.take(self.ls_users.len() as int) =~= all);
        Some(list)
    }

    /// The command that deletes the group of that name; none where no such
    /// group is shown. The databases are to be read anew once it has run.
    pub fn delete_group(&self, gname: &str) -> (r: Option<Command>)
        ensures
            match r {
                Some(cmd) => any(self@.groups, group_named(account_name(gname@))) && cmd.runs(
                    "pkexec"@,
                    seq!["groupdel"@, account_name(gname@)],
                ),
                None => !any(self@.groups, group_named(account_name(gname@))),
            },
    {
        let name = to_account_name(gname);
        match find_group(&self.ls_groups, name.as_str()) {
            Some(i) => {
                assert(group_views(self.ls_groups@)[i as int] == self.ls_groups@[i as int]@);
                proof {
                    crate::helpers::search::lemma_first_index_is_first(
                        self@.groups,
                        group_named(account_name(gname@)),
                    );
                }
                Some(self.ls_groups[i].delete())
            },
            None => None,
        }
    }

    /// The number of the running user.
    pub fn current_uid(&self) -> (uid: u16)
        ensures
            uid == self@.curr_uid,
    {
        self.curr_uid
    }

    /// Every user of the system, those of services too.
    pub fn all_users(&self) -> (users: &[User])
        ensures
            user_views(users@) == self@.all_users,
    {
        self.ls_all_users.as_slice()
    }

    /// The users shown.
    pub fn list_users(&self) -> (users: &[User])
        ensures
            user_views(users@) == self@.users,
    {
        self.ls_users.as_slice()
    }

    /// Every group of the system, those of services too.
    pub fn all_groups(&self) -> (groups: &[Group])
        ensures
            group_views(groups@) == self@.all_groups,
    {
        self.ls_all_groups.as_slice()
    }

    /// The groups shown.
    pub fn list_groups(&self) -> (groups: &[Group])
        ensures
            group_views(groups@) == self@.groups,
    {
        self.ls_groups.as_slice()
    }

    /// The user shown that has this login name.
    pub fn user_from_name(&self, usrname: &str) -> (r: Option<&User>)
        ensures
            ({
                let i = first_index(self@.users, user_named(usrname@));
                match r {
                    Some(user) => i < self@.users.len() && user@ == self@.users[i],
                    None => i == self@.users.len(),
                }
            }),
    {
        match find_user(&self.ls_users, usrname) {
            Some(i) => {
                assert(user_views(self.ls_users@)[i as int] == self.ls_users@[i as int]@);
                Some(&self.ls_users[i])
            },
            None => None,
        }
    }

    /// The group shown that has this name.
    pub fn group_from_name(&self, grpname: &str) -> (r: Option<&Group>)
        ensures
            ({
                let i = first_index(self@.groups, group_named(grpname@));
                match r {
                    Some(group) => i < self@.groups.len() && group@ == self@.groups[i],
                    None => i == self@.groups.len(),
                }
            }),
    {
        match find_group(&self.ls_groups, grpname) {
            Some(i) => {
                assert(group_views(self.ls_groups@)[i as int] == self.ls_groups@[i as int]@);
                Some(&self.ls_groups[i])
            },
            None => None,
        }
    }

    /// The login shells of the system.
    pub fn login_shells(&self) -> (shells: &[String])
        ensures
            texts(shells@) == self@.login_shells,
    {
        self.login_shells.as_slice()
    }
}

/// Whether a list of strings holds `s`.
fn slice_has_text(list: &[String], s: &str) -> (r: bool)
    ensures
        r == texts(list@).contains(s@),
{
    let mut i: usize = 0;
    while i < list.len()
        invariant
            i <= list.len(),
            forall|k: int| 0 <= k < i ==> list@[k]@ != s@,
        decreases list.len() - i,
    {
        if same_text(list[i].as_str(), s) {
            assert(texts(list@)[i as int] == s@);
            return true;
        }
        i = i + 1;
    }
    false
}

} // verus!
