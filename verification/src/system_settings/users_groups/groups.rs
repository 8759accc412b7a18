//! One group of the group database, and the commands that change it.
use vstd::prelude::*;
use crate::helpers::cmd_output_helper::Command;
use crate::helpers::decimal::{parse_decimal, parsed};
use crate::helpers::sorting::{by_text, dedup_texts, deduped, sort_texts};
use crate::helpers::text::{
    copy_list, extend_list, has_text, join, owned_list, same_list, same_text, split, str_join,
    str_split, texts, to_char_vectors, to_chars, to_strings,
};

verus! {

/// What a group is: its number, its name and the names of its members.
pub struct GroupView {
    pub gid: u16,
    pub name: Seq<char>,
    pub members: Seq<Seq<char>>,
}

/// A group account.
#[derive(Debug, PartialEq, Eq)]
pub struct Group {
    gid: u16,
    gname: String,
    members: Vec<String>,
}

impl View for Group {
    type V = GroupView;

    closed spec fn view(&self) -> GroupView {
        GroupView { gid: self.gid, name: self.gname@, members: texts(self.members@) }
    }
}

/// The group that the fields of one line of the group database stand for:
/// name, password, number and members, the members with commas between
/// them. None where a field is missing or the number is no `u16`.
pub open spec fn group_of_fields(fields: Seq<Seq<char>>) -> Option<GroupView> {
    if fields.len() >= 4 && parsed(fields[2], u16::MAX as int) is Some {
        Some(
            GroupView {
                gid: parsed(fields[2], u16::MAX as int)->0 as u16,
                name: fields[0],
                members: split(fields[3], seq![',']),
            },
        )
    } else {
        None
    }
}

/// `list` without its first occurrence of `name`.
pub open spec fn without_first(list: Seq<Seq<char>>, name: Seq<char>) -> Seq<Seq<char>>
    decreases list.len(),
{
    if list.len() == 0 {
        list
    } else if list[0] == name {
        list.drop_first()
    } else {
        seq![list[0]] + without_first(list.drop_first(), name)
    }
}

/// The members of a group to which `more` are added: all of them in
/// order, each once.
pub open spec fn appended(members: Seq<Seq<char>>, more: Seq<Seq<char>>) -> Seq<Seq<char>> {
    deduped((members + more).sort_by(by_text()))
}

impl Group {
    /// The members of the group with `ls_members` added.
    fn members_with(&self, ls_members: &Vec<String>) -> (all: Vec<String>)
        ensures
            texts(all@) == appended(self@.members, texts(ls_members@)),
    {
        let mut all = copy_list(&self.members);
        extend_list(&mut all, copy_list(ls_members));
        let sorted = sort_texts(&to_char_vectors(&all));
        let unique = dedup_texts(&sorted);
        to_strings(&unique)
    }

    /// The command that adds `ls_members` to the members of the group.
    pub fn append_users_command(&self, ls_members: &Vec<String>) -> (cmd: Command)
        ensures
            cmd.runs(
                "pkexec"@,
                seq![
                    "gpasswd"@,
                    "-M"@,
                    join(appended(self@.members, texts(ls_members@)), seq![',']),
                    self@.name,
                ],
            ),
    {
        proof {
            reveal_strlit(",");
            assert(","@ =~= seq![',']);
        }
        let all = self.members_with(ls_members);
        let formatted = str_join(&all, ",");
        let args = owned_list(vec!["gpasswd", "-M", formatted.as_str(), self.gname.as_str()]);
        assert(texts(args@) =~= seq!["gpasswd"@, "-M"@, formatted@, self.gname@]);
        Command::new("pkexec", args)
    }

    /// Takes `ls_members` among the members of the group: the members are
    /// then all of them in order, each once.
    pub fn append_users(&mut self, ls_members: Vec<String>)
        ensures
            final(self)@.members == appended(old(self)@.members, texts(ls_members@)),
            final(self)@.gid == old(self)@.gid,
            final(self)@.name == old(self)@.name,
    {
        let all = self.members_with(&ls_members);
        self.members = all;
    }

    /// The command that creates a group of this name.
    pub fn new(gname: &str) -> (cmd: Command)
        ensures
            cmd.runs("pkexec"@, seq!["groupadd"@, gname@]),
    {
        let args = owned_list(vec!["groupadd", gname]);
        assert(texts(args@) =~= seq!["groupadd"@, gname@]);
        Command::new("pkexec", args)
    }

    /// The group that the fields of one line of the group database stand
    /// for.
    pub fn from_vec(fields: &Vec<String>) -> (r: Option<Group>)
        ensures
            match r {
                Some(group) => group_of_fields(texts(fields@)) == Some(group@),
                None => group_of_fields(texts(fields@)) is None,
            },
    {
        if fields.len() < 4 {
            return None;
        }
        proof {
            reveal_strlit(",");
            assert(","@ =~= seq![',']);
        }
        let number = parse_decimal(&to_chars(fields[2].as_str()), 65535);
        match number {
            Some(n) => Some(
                Group {
                    gid: n as u16,
                    gname: fields[0].clone(),
                    members: str_split(fields[3].as_str(), ","),
                },
            ),
            None => None,
        }
    }

    /// The command that makes `ls_members` the members of the group; none
    /// where they are the members already.
    pub fn change_membership_command(&self, ls_members: &Vec<String>) -> (cmd: Option<Command>)
        ensures
            match cmd {
                Some(c) => texts(ls_members@) != self@.members && c.runs(
                    "pkexec"@,
                    seq!["gpasswd"@, "-M"@, join(texts(ls_members@), seq![',']), self@.name],
                ),
                None => texts(ls_members@) == self@.members,
            },
    {
        if same_list(ls_members, &self.members) {
            None
        } else {
            proof {
                reveal_strlit(",");
                assert(","@ =~= seq![',']);
            }
            let formatted = str_join(ls_members, ",");
            let args = owned_list(vec!["gpasswd", "-M", formatted.as_str(), self.gname.as_str()]);
            assert(texts(args@) =~= seq!["gpasswd"@, "-M"@, formatted@, self.gname@]);
            Some(Command::new("pkexec", args))
        }
    }

    /// Takes `ls_members` for the members of the group.
    pub fn change_membership(&mut self, ls_members: Vec<String>)
        ensures
            final(self)@.members == texts(ls_members@),
            final(self)@.gid == old(self)@.gid,
            final(self)@.name == old(self)@.name,
    {
        self.members = ls_members;
    }

    /// The command that adds the user to the group; none where the user is
    /// a member already.
    pub fn add_user_command(&self, usrname: &str) -> (cmd: Option<Command>)
        ensures
            match cmd {
                Some(c) => !self@.members.contains(usrname@) && c.runs(
                    "pkexec"@,
                    seq!["gpasswd"@, "-a"@, usrname@, self@.name],
                ),
                None => self@.members.contains(usrname@),
            },
    {
        if has_text(&self.members, usrname) {
            None
        } else {
            let args = owned_list(vec!["gpasswd", "-a", usrname, self.gname.as_str()]);
            assert(texts(args@) =~= seq!["gpasswd"@, "-a"@, usrname@, self.gname@]);
            Some(Command::new("pkexec", args))
        }
    }

    /// Takes the user among the members, behind the others; says whether
    /// the user was new to the group.
    pub fn add_user(&mut self, usrname: &str) -> (added: bool)
        ensures
            added == !old(self)@.members.contains(usrname@),
            final(self)@.members == if added {
                old(self)@.members.push(usrname@)
            } else {
                old(self)@.members
            },
            final(self)@.gid == old(self)@.gid,
            final(self)@.name == old(self)@.name,
    {
        if has_text(&self.members, usrname) {
            false
        } else {
            let ghost before = texts(self.members@);
            self.members.push(usrname.to_owned());
            assert(texts(self.members@) =~= before.push(usrname@));
            true
        }
    }

    /// The command that removes the user from the group; none where the
    /// user is no member.
    pub fn remove_user_command(&self, usrname: &str) -> (cmd: Option<Command>)
        ensures
            match cmd {
                Some(c) => self@.members.contains(usrname@) && c.runs(
                    "pkexec"@,
                    seq!["gpasswd"@, "-d"@, usrname@, self@.name],
                ),
                None => !self@.members.contains(usrname@),
            },
    {
        if has_text(&self.members, usrname) {
            let args = owned_list(vec!["gpasswd", "-d", usrname, self.gname.as_str()]);
            assert(texts(args@) =~= seq!["gpasswd"@, "-d"@, usrname@, self.gname@]);
            Some(Command::new("pkexec", args))
        } else {
            None
        }
    }

    /// Drops the user from the members, where the name stands first among
    /// them; says whether the user was a member.
    pub fn remove_user(&mut self, usrname: &str) -> (removed: bool)
        ensures
            removed == old(self)@.members.contains(usrname@),
            final(self)@.members == without_first(old(self)@.members, usrname@),
            final(self)@.gid == old(self)@.gid,
            final(self)@.name == old(self)@.name,
    {
        let mut i: usize = 0;
        while i < self.members.len()
            invariant
                i <= self.members.len(),
                *self == *old(self),
                forall|k: int| 0 <= k < i ==> self.members@[k]@ != usrname@,
            decreases self.members.len() - i,
        {
            if same_text(self.members[i].as_str(), usrname) {
                let ghost before = texts(self.members@);
                assert(before[i as int] == usrname@);
                self.members.remove(i);
                assert(texts(self.members@) =~= before.remove(i as int));
                proof {
                    lemma_without_first(before, usrname@, i as int);
                }
                return true;
            }
            i = i + 1;
        }
        proof {
            lemma_without_absent(texts(self.members@), usrname@);
        }
        false
    }

    /// The command that renames the group; none where it has that name
    /// already.
    pub fn change_name_command(&self, new_gname: &str) -> (cmd: Option<Command>)
        ensures
            match cmd {
                Some(c) => new_gname@ != self@.name && c.runs(
                    "pkexec"@,
                    seq!["groupmod"@, "-n"@, new_gname@, self@.name],
                ),
                None => new_gname@ == self@.name,
            },
    {
        if same_text(new_gname, self.gname.as_str()) {
            None
        } else {
            let args = owned_list(vec!["groupmod", "-n", new_gname, self.gname.as_str()]);
            assert(texts(args@) =~= seq!["groupmod"@, "-n"@, new_gname@, self.gname@]);
            Some(Command::new("pkexec", args))
        }
    }

    /// Takes `new_gname` for the name of the group; says whether that is a
    /// change.
    pub fn change_name(&mut self, new_gname: &str) -> (changed: bool)
        ensures
            changed == (new_gname@ != old(self)@.name),
            final(self)@.name == new_gname@,
            final(self)@.gid == old(self)@.gid,
            final(self)@.members == old(self)@.members,
    {
        if same_text(new_gname, self.gname.as_str()) {
            false
        } else {
            self.gname = new_gname.to_owned();
            true
        }
    }

    /// The command that deletes the group.
    pub fn delete(&self) -> (cmd: Command)
        ensures
            cmd.runs("pkexec"@, seq!["groupdel"@, self@.name]),
    {
        let args = owned_list(vec!["groupdel", self.gname.as_str()]);
        assert(texts(args@) =~= seq!["groupdel"@, self.gname@]);
        Command::new("pkexec", args)
    }

    /// The number of the group.
    pub fn gid(&self) -> (gid: u16)
        ensures
            gid == self@.gid,
    {
        self.gid
    }

    /// The name of the group.
    pub fn name(&self) -> (name: &String)
        ensures
            name@ == self@.name,
    {
        &self.gname
    }

    /// The names of the members of the group.
    pub fn members(&self) -> (members: &[String])
        ensures
            texts(members@) == self@.members,
    {
        self.members.as_slice()
    }

    /// A copy of this group.
    pub fn duplicate(&self) -> (r: Group)
        ensures
            r@ == self@,
    {
        Group { gid: self.gid, gname: self.gname.clone(), members: copy_list(&self.members) }
    }
}

/// Dropping the first occurrence, where it stands at index `i`, removes
/// the element at that index.
proof fn lemma_without_first(list: Seq<Seq<char>>, name: Seq<char>, i: int)
    requires
        0 <= i < list.len(),
        list[i] == name,
        forall|k: int| 0 <= k < i ==> list[k] != name,
    ensures
        without_first(list, name) == list.remove(i),
    decreases list.len(),
{
    if i == 0 {
        assert(list.remove(0) =~= list.drop_first());
    } else {
        lemma_without_first(list.drop_first(), name, i - 1);
        assert(list.remove(i) =~= seq![list[0]] + list.drop_first().remove(i - 1));
    }
}

/// Dropping a name that does not occur changes nothing.
proof fn lemma_without_absent(list: Seq<Seq<char>>, name: Seq<char>)
    requires
        forall|k: int| 0 <= k < list.len() ==> list[k] != name,
    ensures
        without_first(list, name) == list,
        !list.contains(name),
    decreases list.len(),
{
    if list.len() > 0 {
        lemma_without_absent(list.drop_first(), name);
        assert(list =~= seq![list[0]] + list.drop_first());
    }
}

} // verus!
