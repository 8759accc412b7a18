use libkoompi::helpers::Command;
use libkoompi::system_settings::users_groups::{
    AccountType, Group, LoadError, PasswdEntry, User, UsersGroupsManager, MAX_UID, MIN_UID,
};

fn strings(list: &[&str]) -> Vec<String> {
    list.iter().map(|s| s.to_string()).collect()
}

fn pkexec(args: &[&str]) -> Command {
    Command::new("pkexec", strings(args))
}

fn group(line: &str) -> Group {
    Group::from_vec(&line.split(':').map(|s| s.to_string()).collect()).unwrap()
}

fn user(line: &str, admins: &[&str], groups: Option<&str>) -> User {
    User::from_vec(&line.split(':').map(|s| s.to_string()).collect(), &strings(admins), groups)
        .unwrap()
}

#[test]
fn group_of_a_line_of_the_database() {
    let g = group("audio:x:1005:alice,bob");
    assert_eq!(g.gid(), 1005);
    assert_eq!(g.name(), "audio");
    assert_eq!(g.members(), strings(&["alice", "bob"]).as_slice());
    assert_eq!(group("empty:x:7:").members(), strings(&[""]).as_slice());
    assert_eq!(Group::from_vec(&strings(&["a", "x", "7"])), None);
    assert_eq!(Group::from_vec(&strings(&["a", "x", "seven", ""])), None);
    assert_eq!(Group::from_vec(&strings(&["a", "x", "65536", ""])), None);
    assert_eq!(group("a:x:65535::more").gid(), 65535);
}

#[test]
fn adding_a_member_once() {
    let mut g = group("audio:x:1005:alice");
    assert_eq!(g.add_user_command("alice"), None);
    assert_eq!(g.add_user_command("bob"), Some(pkexec(&["gpasswd", "-a", "bob", "audio"])));
    assert!(g.add_user("bob"));
    assert!(!g.add_user("bob"));
    assert!(!g.add_user("alice"));
    assert_eq!(g.members(), strings(&["alice", "bob"]).as_slice());
}

#[test]
fn removing_the_first_occurrence_of_a_member() {
    let mut g = group("audio:x:1005:alice,bob,alice");
    assert_eq!(g.remove_user_command("carol"), None);
    assert_eq!(g.remove_user_command("bob"), Some(pkexec(&["gpasswd", "-d", "bob", "audio"])));
    assert!(!g.remove_user("carol"));
    assert!(g.remove_user("alice"));
    assert_eq!(g.members(), strings(&["bob", "alice"]).as_slice());
    assert!(g.remove_user("alice"));
    assert!(g.remove_user("bob"));
    assert!(!g.remove_user("bob"));
    assert_eq!(g.members().len(), 0);
}

#[test]
fn membership_and_name_of_a_group() {
    let mut g = group("audio:x:1005:alice");
    assert_eq!(g.change_membership_command(&strings(&["alice"])), None);
    assert_eq!(
        g.change_membership_command(&strings(&["bob", "carol"])),
        Some(pkexec(&["gpasswd", "-M", "bob,carol", "audio"]))
    );
    g.change_membership(strings(&["bob", "carol"]));
    assert_eq!(g.members(), strings(&["bob", "carol"]).as_slice());
    assert_eq!(
        g.append_users_command(&strings(&["alice", "bob", "alice"])),
        pkexec(&["gpasswd", "-M", "alice,bob,carol", "audio"])
    );
    g.append_users(strings(&["alice", "bob", "alice"]));
    assert_eq!(g.members(), strings(&["alice", "bob", "carol"]).as_slice());
    assert_eq!(g.change_name_command("audio"), None);
    assert_eq!(g.change_name_command("sound"), Some(pkexec(&["groupmod", "-n", "sound", "audio"])));
    assert!(!g.change_name("audio"));
    assert!(g.change_name("sound"));
    assert_eq!(g.name(), "sound");
    assert_eq!(g.delete(), pkexec(&["groupdel", "sound"]));
    assert_eq!(Group::new("games"), pkexec(&["groupadd", "games"]));
    assert_eq!(g.duplicate(), g);
}

#[test]
fn user_of_a_line_of_the_database() {
    let u = user("alice:x:1001:1001:alice_liddell:/home/alice:/bin/zsh", &["bob", "alice"], Some("alice wheel audio"));
    assert_eq!(u.uid(), 1001);
    assert_eq!(u.gid(), 1001);
    assert_eq!(u.username(), "alice");
    assert_eq!(u.account_type(), AccountType::Admin);
    assert!(u.is_admin());
    assert_eq!(u.fullname(), "Alice Liddell");
    assert_eq!(u.login_shell(), "/bin/zsh");
    assert_eq!(u.home_dir(), "/home/alice");
    assert_eq!(u.groups(), strings(&["alice", "wheel", "audio"]).as_slice());
    assert_eq!(u.profile_path(), "/var/lib/AccountsService/icons/alice");
    let plain = user("bob:x:1002:100::/home/bob:/bin/sh", &["alice"], None);
    assert_eq!(plain.account_type(), AccountType::User);
    assert!(!plain.is_admin());
    assert_eq!(plain.fullname(), "Bob");
    assert_eq!(plain.groups().len(), 0);
    let lines_short = strings(&["a", "x", "1", "1", "", "/"]);
    assert_eq!(User::from_vec(&lines_short, &vec![], None), None);
    let bad_uid = strings(&["a", "x", "-1", "1", "", "/", "/bin/sh"]);
    assert_eq!(User::from_vec(&bad_uid, &vec![], None), None);
    let bad_gid = strings(&["a", "x", "1", "70000", "", "/", "/bin/sh"]);
    assert_eq!(User::from_vec(&bad_gid, &vec![], None), None);
}

#[test]
fn commands_that_create_a_user() {
    let cmds = User::new("Carol Danvers", "carol", AccountType::Admin, "pw", "pw2");
    assert_eq!(
        cmds,
        vec![
            pkexec(&["useradd", "-c", "Carol Danvers", "-m", "-N", "carol"]),
            pkexec(&["usermod", "-a", "-G", "input,cups,wheel", "carol"]),
            Command::with_input("pkexec", strings(&["passwd", "carol"]), "pw\npw2".to_string()),
        ]
    );
    let cmds = User::new("", "dave", AccountType::User, "", "");
    assert_eq!(cmds[1], pkexec(&["usermod", "-a", "-G", "input,cups", "dave"]));
    assert_eq!(cmds[2].stdin.as_deref(), Some("\n"));
    assert_eq!(User::groups_command("dave"), Command::new("groups", strings(&["dave"])));
}

#[test]
fn commands_on_a_user() {
    let mut u = user("alice:x:1001:1001:Alice:/home/alice:/bin/zsh", &[], None);
    assert_eq!(
        u.change_account_type_command(AccountType::Admin),
        pkexec(&["gpasswd", "-a", "alice", "wheel"])
    );
    assert_eq!(
        u.change_account_type_command(AccountType::User),
        pkexec(&["gpasswd", "-d", "alice", "wheel"])
    );
    u.change_account_type(AccountType::Admin);
    assert!(u.is_admin());
    assert_eq!(
        u.change_password("old", "new", "new"),
        Command::with_input("passwd", vec![], "old\nnew\nnew".to_string())
    );
    assert_eq!(
        u.change_groups_command(&strings(&["audio", "video"])),
        pkexec(&["usermod", "-a", "-G", "audio,video", "alice"])
    );
    u.change_groups(strings(&["audio", "video"]));
    assert_eq!(u.groups(), strings(&["audio", "video"]).as_slice());
    assert_eq!(u.delete(true, true), pkexec(&["userdel", "-r", "alice"]));
    assert_eq!(u.delete(true, false), pkexec(&["userdel", "alice"]));
    assert_eq!(u.delete(false, true), pkexec(&["userdel", "alice"]));
    assert_eq!(u.duplicate(), u);
}

#[test]
fn change_info_lists_what_changes() {
    let mut u = user("alice:x:1001:1001:Alice:/home/alice:/bin/zsh", &[], None);
    // the name shown and the shell are the ones the user has
    assert_eq!(u.change_info(None, None, "Alice", None, Some("/bin/zsh"), None), None);
    assert_eq!(u.username(), "alice");
    let cmd = u.change_info(
        Some("1500"),
        Some("100"),
        "Alice L",
        Some("al"),
        Some("/bin/sh"),
        Some("/home/al"),
    );
    assert_eq!(
        cmd,
        Some(pkexec(&[
            "usermod", "-u", "1500", "-g", "100", "-c", "Alice L", "-l", "al", "-s", "/bin/sh", "-m",
            "-d", "/home/al", "alice",
        ]))
    );
    assert_eq!(u.uid(), 1500);
    assert_eq!(u.gid(), 100);
    assert_eq!(u.username(), "al");
    assert_eq!(u.login_shell(), "/bin/sh");
    assert_eq!(u.home_dir(), "/home/al");
    assert_eq!(u.fullname(), "Alice L");
    // the shell is compared as a path
    assert_eq!(u.change_info(None, None, "Alice L", None, Some("/bin//sh/"), None), None);
    assert_eq!(u.login_shell(), "/bin/sh");
    // a number that is none is left out, a group that is none is passed on
    let cmd = u.change_info(Some("x"), Some("staff"), "Alice L", None, None, None);
    assert_eq!(cmd, Some(pkexec(&["usermod", "-g", "staff", "al"])));
    assert_eq!(u.uid(), 1500);
    assert_eq!(u.gid(), 100);
}

fn entry(line: &str, groups: Option<&str>) -> PasswdEntry {
    PasswdEntry { line: line.to_string(), groups: groups.map(|s| s.to_string()) }
}

fn manager() -> UsersGroupsManager {
    let entries = vec![
        entry("root:x:0:0:root:/root:/bin/bash", Some("root")),
        entry("alice:x:1001:1001:Alice:/home/alice:/bin/zsh", Some("alice wheel audio")),
        entry("daemon:x:2:2::/:/usr/bin/nologin", None),
        entry("bob:x:1002:1002:Bob:/home/bob:/bin/bash", Some("bob audio games")),
        entry("edge:x:1000:1000::/home/edge:/bin/sh", None),
        entry("carol:x:1003:100:Carol:/home/carol:/bin/bash", Some("users")),
        entry("far:x:2000:2000::/home/far:/bin/sh", None),
    ];
    let groups = strings(&[
        "root:x:0:",
        "wheel:x:998:alice",
        "alice:x:1001:",
        "audio:x:1500:alice,bob",
        "games:x:1501:bob",
        "edge:x:1000:",
        "far:x:2000:",
    ]);
    UsersGroupsManager::new("1002", &entries, "wheel:x:998:alice", &groups, "/bin/sh\n/bin/bash\n/bin/zsh\n")
        .unwrap()
}

fn names(users: &[User]) -> Vec<&str> {
    users.iter().map(|u| u.username().as_str()).collect()
}

fn group_names(groups: &[Group]) -> Vec<&str> {
    groups.iter().map(|g| g.name().as_str()).collect()
}

#[test]
fn the_manager_lists_the_accounts_that_people_use() {
    let m = manager();
    assert_eq!((MIN_UID, MAX_UID), (1000, 2000));
    assert_eq!(m.current_uid(), 1002);
    assert_eq!(names(m.all_users()), vec!["root", "alice", "daemon", "bob", "edge", "carol", "far"]);
    // the running user comes first, in exchange with the user that stood there
    assert_eq!(names(m.list_users()), vec!["bob", "alice", "carol"]);
    assert_eq!(group_names(m.all_groups()).len(), 7);
    // groups that are the first group of a user shown are left out
    assert_eq!(group_names(m.list_groups()), vec!["audio", "games"]);
    assert_eq!(m.login_shells(), strings(&["/bin/sh", "/bin/bash", "/bin/zsh"]).as_slice());
    assert!(m.user_from_name("alice").unwrap().is_admin());
    assert!(!m.user_from_name("bob").unwrap().is_admin());
    assert!(m.user_from_name("root").is_none());
    assert_eq!(m.group_from_name("audio").unwrap().gid(), 1500);
    assert!(m.group_from_name("wheel").is_none());
}

#[test]
fn the_manager_reports_faults_of_the_databases() {
    let entries = vec![entry("alice:x:1001:1001:Alice:/home/alice:/bin/zsh", None)];
    let new = |uid: &str, entries: &Vec<PasswdEntry>, admin: &str, groups: &[&str]| {
        UsersGroupsManager::new(uid, entries, admin, &strings(groups), "").map(|_| ())
    };
    assert_eq!(new("x", &entries, "wheel:x:998:", &[]), Err(LoadError::BadUid));
    assert_eq!(new("70000", &entries, "wheel:x:998:", &[]), Err(LoadError::BadUid));
    assert_eq!(new("1", &entries, "wheel:x:998", &[]), Err(LoadError::BadAdminLine));
    assert_eq!(new("1", &entries, "", &[]), Err(LoadError::BadAdminLine));
    let broken = vec![entries[0].line.clone(), "bob:x:y:1:::".to_string(), "c".to_string()];
    let broken: Vec<PasswdEntry> =
        broken.into_iter().map(|line| PasswdEntry { line, groups: None }).collect();
    assert_eq!(new("1", &broken, "wheel:x:998:", &[]), Err(LoadError::BadUserLine(1)));
    assert_eq!(
        new("1", &entries, "wheel:x:998:", &["a:x:1:", "b:x:1", "c"]),
        Err(LoadError::BadGroupLine(1))
    );
    assert_eq!(new("1", &vec![], "wheel:x:998:", &[]), Ok(()));
}

#[test]
fn the_manager_builds_the_commands_for_users() {
    let mut m = manager();
    assert_eq!(m.create_user("Bob", "Bob", AccountType::User, "a", "a"), None);
    assert_eq!(m.create_user("Root", "root", AccountType::User, "a", "a"), None);
    let cmds = m.create_user("New One", "New One", AccountType::User, "a", "b").unwrap();
    assert_eq!(cmds[0], pkexec(&["useradd", "-c", "New One", "-m", "-N", "new_one"]));
    assert_eq!(cmds.len(), 3);
    assert_eq!(m.change_user_type_command("root", AccountType::Admin), None);
    assert_eq!(
        m.change_user_type_command("bob", AccountType::Admin),
        Some(pkexec(&["gpasswd", "-a", "bob", "wheel"]))
    );
    assert!(!m.change_user_type("nobody", AccountType::Admin));
    assert!(m.change_user_type("bob", AccountType::Admin));
    assert!(m.user_from_name("bob").unwrap().is_admin());
    assert_eq!(
        m.change_user_password("Alice", "o", "n", "n"),
        Some(Command::with_input("passwd", vec![], "o\nn\nn".to_string()))
    );
    assert_eq!(m.change_user_password("root", "o", "n", "n"), None);
    assert_eq!(
        m.reset_user_password("ALICE", "n", "n"),
        Some(Command::with_input("pkexec", strings(&["passwd", "alice"]), "n\nn".to_string()))
    );
    assert_eq!(m.reset_user_password("zed", "n", "n"), None);
    assert_eq!(m.delete_user("Alice", true, true), Some(pkexec(&["userdel", "-r", "alice"])));
    assert_eq!(m.delete_user("Alice", false, true), Some(pkexec(&["userdel", "alice"])));
    assert_eq!(m.delete_user("daemon", true, true), None);
}

#[test]
fn the_manager_changes_what_it_may_of_a_user() {
    let mut m = manager();
    // of the running user only the group, the name shown and the shell change
    let cmd = m.change_user_info("bob", "1700", "audio", "Robert", "rob", "/bin/zsh", "/home/rob");
    assert_eq!(cmd, Some(pkexec(&["usermod", "-g", "1500", "-c", "Robert", "-s", "/bin/zsh", "bob"])));
    let bob = m.user_from_name("bob").unwrap();
    assert_eq!((bob.uid(), bob.gid()), (1002, 1500));
    assert_eq!(bob.home_dir(), "/home/bob");
    // of another user everything that is free
    let cmd = m.change_user_info("Alice", "+1700", "nogroup", "Alice", "Ali Ce", "/bin/fish", "/home/ali");
    assert_eq!(
        cmd,
        Some(pkexec(&["usermod", "-u", "1700", "-l", "ali_ce", "-m", "-d", "/home/ali", "alice"]))
    );
    assert!(m.user_from_name("alice").is_none());
    let ali = m.user_from_name("ali_ce").unwrap();
    assert_eq!(ali.uid(), 1700);
    assert_eq!(ali.login_shell(), "/bin/zsh");
    // a number in use, out of range or none, a name in use, a home in use
    let cmd = m.change_user_info("carol", "1001", "x", "Carol", "root", "/bin/false", "/root");
    assert_eq!(cmd, None);
    let cmd = m.change_user_info("carol", "1000", "x", "Carol", "carol", "/bin/false", "/home/carol");
    assert_eq!(cmd, None);
    let cmd = m.change_user_info("carol", "12x", "x", "Carol", "carol", "/bin/false", "/home/carol");
    assert_eq!(cmd, None);
    assert_eq!(m.change_user_info("nobody", "1", "x", "N", "n", "/bin/sh", "/"), None);
    // shells and homes are compared as paths
    let cmd = m.change_user_info("carol", "x", "x", "Carol", "carol", "/bin//zsh", "/home//bob/");
    assert_eq!(cmd, Some(pkexec(&["usermod", "-s", "/bin//zsh", "carol"])));
    assert_eq!(m.user_from_name("carol").unwrap().login_shell(), "/bin//zsh");
}

#[test]
fn the_manager_lists_groups_of_users_and_members_of_groups() {
    let m = manager();
    assert_eq!(
        m.user_groups("Bob").unwrap().iter().map(|g| g.name().as_str()).collect::<Vec<_>>(),
        vec!["audio", "games"]
    );
    assert_eq!(
        m.user_groups("alice").unwrap().iter().map(|g| g.name().as_str()).collect::<Vec<_>>(),
        vec!["audio"]
    );
    assert_eq!(m.user_groups("carol").unwrap().len(), 0);
    assert!(m.user_groups("root").is_none());
    assert_eq!(
        m.group_members("Audio").unwrap().iter().map(|u| u.username().as_str()).collect::<Vec<_>>(),
        vec!["bob", "alice"]
    );
    assert_eq!(m.group_members("games").unwrap().len(), 1);
    assert!(m.group_members("wheel").is_none());
}

#[test]
fn the_manager_builds_the_commands_for_groups() {
    let mut m = manager();
    assert_eq!(m.create_group("Wheel"), None);
    assert_eq!(m.create_group("Board Games"), Some(pkexec(&["groupadd", "board_games"])));
    assert_eq!(m.change_group_name_command("audio", "games"), None);
    assert_eq!(m.change_group_name_command("audio", "wheel"), None);
    assert_eq!(m.change_group_name_command("wheel", "w"), None);
    assert_eq!(
        m.change_group_name_command("Audio", "Sound FX"),
        Some(pkexec(&["groupmod", "-n", "sound_fx", "audio"]))
    );
    assert!(!m.change_group_name("audio", "games"));
    assert!(!m.change_group_name("nothing", "x"));
    assert!(m.change_group_name("Audio", "Sound FX"));
    assert_eq!(group_names(m.list_groups()), vec!["sound_fx", "games"]);
    assert_eq!(m.change_group_members_command("games", &strings(&["bob"])), None);
    assert_eq!(
        m.change_group_members_command("games", &strings(&["bob", "carol"])),
        Some(pkexec(&["gpasswd", "-M", "bob,carol", "games"]))
    );
    assert_eq!(m.change_group_members_command("wheel", &strings(&["bob"])), None);
    assert!(!m.change_group_members("wheel", strings(&["bob"])));
    assert!(m.change_group_members("Games", strings(&["bob", "carol"])));
    assert_eq!(m.group_from_name("games").unwrap().members(), strings(&["bob", "carol"]).as_slice());
    assert_eq!(m.delete_group("games"), Some(pkexec(&["groupdel", "games"])));
    assert_eq!(m.delete_group("wheel"), None);
}

#[test]
fn account_types() {
    assert_eq!(AccountType::all(), vec![AccountType::User, AccountType::Admin]);
    assert_eq!(AccountType::default(), AccountType::User);
    assert_eq!(AccountType::Admin.name(), "Admin");
    assert_eq!(AccountType::User.name(), "User");
}
