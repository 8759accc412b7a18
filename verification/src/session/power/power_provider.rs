//! The services that can end or suspend the session, and what each is
//! asked for each action.
use vstd::prelude::*;
use super::power::Action;
use crate::helpers::dbus_helper::{allows, dbus_call_init_system, Arg, Bus, MethodCall};
use crate::helpers::text::same_text;

verus! {

/// What a provider is asked.
#[derive(Debug, PartialEq, Eq)]
pub enum Ask {
    /// Nothing: the provider does not know the action.
    Nothing,
    /// A method whose answer is a word.
    Word(MethodCall),
    /// A method whose answer is yes or no.
    Flag(MethodCall),
    /// The number of the session, which the environment or the login
    /// manager holds.
    SessionId,
}

/// What a provider answers.
#[derive(Debug, PartialEq, Eq)]
pub enum Reply {
    Word(String),
    Flag(bool),
}

/// What an answer says: a word of the init system allows or refuses, a
/// flag says so itself, and a session can be ended where its number is not
/// zero. A provider that was asked nothing says no.
pub open spec fn answered(ask: Ask, reply: Reply) -> bool {
    match (ask, reply) {
        (Ask::Word(_), Reply::Word(word)) => allows(word@),
        (Ask::Flag(_), Reply::Flag(flag)) => flag,
        (Ask::SessionId, Reply::Word(id)) => id@ != "0"@,
        _ => false,
    }
}

/// What an answer says.
pub fn answer(ask: &Ask, reply: &Reply) -> (r: bool)
    ensures
        r == answered(*ask, *reply),
{
    match (ask, reply) {
        (Ask::Word(_), Reply::Word(word)) => dbus_call_init_system(word.as_str()),
        (Ask::Flag(_), Reply::Flag(flag)) => *flag,
        (Ask::SessionId, Reply::Word(id)) => !same_text(id.as_str(), "0"),
        _ => false,
    }
}

/// A service that can end or suspend the session.
pub trait PowerProvider {
    /// What to ask to learn whether the action can be done.
    fn can_action(&self, action: Action) -> Ask;

    /// What to ask to have the action done; `session_id` is the number of
    /// the session, empty where it is not known.
    fn do_action(&self, action: Action, session_id: &str) -> Ask;
}

/// The method of the power service that says whether an action is
/// allowed.
pub open spec fn upower_query(action: Action) -> Option<Seq<char>> {
    match action {
        Action::PowerHibernate => Some("HibernateAllowed"@),
        Action::PowerSuspend => Some("SuspendAllowed"@),
        _ => None,
    }
}

/// The method of the login manager by which the power service has an
/// action done.
pub open spec fn upower_method(action: Action) -> Option<Seq<char>> {
    match action {
        Action::PowerSuspend => Some("Suspend"@),
        Action::PowerHibernate => Some("Hibernate"@),
        _ => None,
    }
}

/// The method of the login manager that says whether an action can be
/// done.
pub open spec fn init_query(action: Action) -> Option<Seq<char>> {
    match action {
        Action::PowerReboot => Some("CanReboot"@),
        Action::PowerShutdown => Some("CanPowerOff"@),
        Action::PowerSuspend => Some("CanSuspend"@),
        Action::PowerHibernate => Some("CanHibernate"@),
        _ => None,
    }
}

/// The method of the login manager that does an action.
pub open spec fn init_method(action: Action) -> Option<Seq<char>> {
    match action {
        Action::PowerReboot => Some("Reboot"@),
        Action::PowerShutdown => Some("PowerOff"@),
        Action::PowerSuspend => Some("Suspend"@),
        Action::PowerHibernate => Some("Hibernate"@),
        _ => None,
    }
}

/// The method of the session manager of the desktop that says whether an
/// action can be done.
pub open spec fn desktop_query(action: Action) -> Option<Seq<char>> {
    match action {
        Action::PowerLogout => Some("canLogout"@),
        Action::PowerReboot => Some("canReboot"@),
        Action::PowerShutdown => Some("canPowerOff"@),
        _ => None,
    }
}

/// The method of the session manager of the desktop that does an action.
pub open spec fn desktop_method(action: Action) -> Option<Seq<char>> {
    match action {
        Action::PowerLogout => Some("logout"@),
        Action::PowerReboot => Some("reboot"@),
        Action::PowerShutdown => Some("poweroff"@),
        _ => None,
    }
}

/// `ask` is a call of `method` of the login manager, whose answer is a
/// word.
pub open spec fn asks_login_manager(ask: Ask, method: Seq<char>) -> bool {
    ask matches Ask::Word(call) && call.calls(
        Bus::System,
        "org.freedesktop.login1"@,
        "/org/freedesktop/login1"@,
        "org.freedesktop.login1.Manager"@,
        method,
    ) && call.timeout_ms == 5000
}

/// What the power service is asked to learn whether an action can be
/// done.
pub open spec fn upower_can(action: Action, ask: Ask) -> bool {
    match upower_query(action) {
        Some(method) => ask matches Ask::Word(call) && call.calls(
            Bus::System,
            "org.freedesktop.UPower"@,
            "/org/freedesktop/UPower"@,
            "org.freedesktop.UPower"@,
            method,
        ) && call.args@.len() == 0 && call.timeout_ms == 5000,
        None => ask == Ask::Nothing,
    }
}

/// What is asked to have the power service do an action.
pub open spec fn upower_does(action: Action, ask: Ask) -> bool {
    match upower_method(action) {
        Some(method) => asks_login_manager(ask, method) && ask->Word_0.args@ == seq![
            Arg::Bool(true),
        ],
        None => ask == Ask::Nothing,
    }
}

/// What the login manager is asked to learn whether an action can be
/// done.
pub open spec fn init_can(action: Action, ask: Ask) -> bool {
    match init_query(action) {
        Some(method) => asks_login_manager(ask, method) && ask->Word_0.args@.len() == 0,
        None => ask == Ask::Nothing,
    }
}

/// What the login manager is asked to do an action.
pub open spec fn init_does(action: Action, ask: Ask) -> bool {
    match init_method(action) {
        Some(method) => asks_login_manager(ask, method) && ask->Word_0.args@ == seq![
            Arg::Bool(true),
        ],
        None => ask == Ask::Nothing,
    }
}

/// What is asked to learn whether the session can do an action: its
/// number, for logging out.
pub open spec fn session_can(action: Action, ask: Ask) -> bool {
    ask == if action == Action::PowerLogout {
        Ask::SessionId
    } else {
        Ask::Nothing
    }
}

/// What the login manager is asked to end the session with this number;
/// nothing where the number is not known.
pub open spec fn session_does(action: Action, session_id: Seq<char>, ask: Ask) -> bool {
    if action == Action::PowerLogout && session_id.len() > 0 {
        asks_login_manager(ask, "TerminateSession"@) && ask->Word_0.args@.len() == 1 && (
        ask->Word_0.args@[0] matches Arg::Text(id) && id@ == session_id)
    } else {
        ask == Ask::Nothing
    }
}

/// A call of a method of the login manager.
fn login_manager(method: &str) -> (call: MethodCall)
    ensures
        call.calls(
            Bus::System,
            "org.freedesktop.login1"@,
            "/org/freedesktop/login1"@,
            "org.freedesktop.login1.Manager"@,
            method@,
        ),
        call.timeout_ms == 5000,
        call.args@.len() == 0,
{
    MethodCall::new(
        Bus::System,
        "org.freedesktop.login1",
        "/org/freedesktop/login1",
        "org.freedesktop.login1.Manager",
        method,
        5000,
    )
}

/// The power service.
#[derive(Debug, Clone, Copy, PartialEq, Eq, Structural)]
pub struct UPowerProvider;

impl PowerProvider for UPowerProvider {
    fn can_action(&self, action: Action) -> (ask: Ask)
        ensures
            upower_can(action, ask),
    {
        let method: &str = match action {
            Action::PowerHibernate => "HibernateAllowed",
            Action::PowerSuspend => "SuspendAllowed",
            _ => {
                return Ask::Nothing;
            },
        };
        Ask::Word(
            MethodCall::new(
                Bus::System,
                "org.freedesktop.UPower",
                "/org/freedesktop/UPower",
                "org.freedesktop.UPower",
                method,
                5000,
            ),
        )
    }

    fn do_action(&self, action: Action, session_id: &str) -> (ask: Ask)
        ensures
            upower_does(action, ask),
    {
        let method: &str = match action {
            Action::PowerSuspend => "Suspend",
            Action::PowerHibernate => "Hibernate",
            _ => {
                return Ask::Nothing;
            },
        };
        let call = login_manager(method).with_arg(Arg::Bool(true));
        assert(call.args@ =~= seq![Arg::Bool(true)]);
        Ask::Word(call)
    }
}

/// The login manager of the init system.
#[derive(Debug, Clone, Copy, PartialEq, Eq, Structural)]
pub struct InitSystemProvider;

impl PowerProvider for InitSystemProvider {
    fn can_action(&self, action: Action) -> (ask: Ask)
        ensures
            init_can(action, ask),
    {
        let method: &str = match action {
            Action::PowerReboot => "CanReboot",
            Action::PowerShutdown => "CanPowerOff",
            Action::PowerSuspend => "CanSuspend",
            Action::PowerHibernate => "CanHibernate",
            _ => {
                return Ask::Nothing;
            },
        };
        Ask::Word(login_manager(method))
    }

    fn do_action(&self, action: Action, session_id: &str) -> (ask: Ask)
        ensures
            init_does(action, ask),
    {
        let method: &str = match action {
            Action::PowerReboot => "Reboot",
            Action::PowerShutdown => "PowerOff",
            Action::PowerSuspend => "Suspend",
            Action::PowerHibernate => "Hibernate",
            _ => {
                return Ask::Nothing;
            },
        };
        let call = login_manager(method).with_arg(Arg::Bool(true));
        assert(call.args@ =~= seq![Arg::Bool(true)]);
        Ask::Word(call)
    }
}

/// `ask` is a call of `method` of the session manager of the desktop,
/// whose answer is yes or no.
pub open spec fn asks_desktop(ask: Ask, method: Seq<char>) -> bool {
    ask matches Ask::Flag(call) && call.calls(
        Bus::Session,
        "org.kde.ksmserver"@,
        "/KSMServer"@,
        "org.kde.KSMServerInterface"@,
        method,
    ) && call.args@.len() == 0 && call.timeout_ms == 5000
}

/// The session manager of the desktop.
#[derive(Debug, Clone, Copy, PartialEq, Eq, Structural)]
pub struct Provider;

impl Provider {
    /// A call of a method of the session manager of the desktop.
    fn call(method: &str) -> (ask: Ask)
        ensures
            asks_desktop(ask, method@),
    {
        Ask::Flag(
            MethodCall::new(
                Bus::Session,
                "org.kde.ksmserver",
                "/KSMServer",
                "org.kde.KSMServerInterface",
                method,
                5000,
            ),
        )
    }
}

impl PowerProvider for Provider {
    fn can_action(&self, action: Action) -> (ask: Ask)
        ensures
            match desktop_query(action) {
                Some(method) => asks_desktop(ask, method),
                None => ask == Ask::Nothing,
            },
    {
        match action {
            Action::PowerLogout => Provider::call("canLogout"),
            Action::PowerReboot => Provider::call("canReboot"),
            Action::PowerShutdown => Provider::call("canPowerOff"),
            _ => Ask::Nothing,
        }
    }

    fn do_action(&self, action: Action, session_id: &str) -> (ask: Ask)
        ensures
            match desktop_method(action) {
                Some(method) => asks_desktop(ask, method),
                None => ask == Ask::Nothing,
            },
    {
        match action {
            Action::PowerLogout => Provider::call("logout"),
            Action::PowerReboot => Provider::call("reboot"),
            Action::PowerShutdown => Provider::call("poweroff"),
            _ => Ask::Nothing,
        }
    }
}

/// The session itself, which can only be logged out of.
#[derive(Debug, Clone, Copy, PartialEq, Eq, Structural)]
pub struct SessionProvider;

impl SessionProvider {
    /// The call that reads the number of the session from the login
    /// manager, for where the environment does not hold it.
    pub fn session_id_query() -> (call: MethodCall)
        ensures
            call.calls(
                Bus::Session,
                "org.freedesktop.login1"@,
                "/org/freedesktop/login1"@,
                "org.freedesktop.login1.Session"@,
                "Id"@,
            ),
            call.args@.len() == 0,
            call.timeout_ms == 5000,
    {
        MethodCall::new(
            Bus::Session,
            "org.freedesktop.login1",
            "/org/freedesktop/login1",
            "org.freedesktop.login1.Session",
            "Id",
            5000,
        )
    }
}

impl PowerProvider for SessionProvider {
    fn can_action(&self, action: Action) -> (ask: Ask)
        ensures
            session_can(action, ask),
    {
        match action {
            Action::PowerLogout => Ask::SessionId,
            _ => Ask::Nothing,
        }
    }

    fn do_action(&self, action: Action, session_id: &str) -> (ask: Ask)
        ensures
            session_does(action, session_id@, ask),
    {
        match action {
            Action::PowerLogout => {
                if session_id.unicode_len() > 0 {
                    Ask::Word(
                        login_manager("TerminateSession").with_arg(
                            Arg::Text(session_id.to_owned()),
                        ),
                    )
                } else {
                    Ask::Nothing
                }
            },
            _ => Ask::Nothing,
        }
    }
}

} // verus!
