//! The power manager: it asks each of its providers in turn, and the last
//! of them decides.
use vstd::prelude::*;
use super::power_provider::{
    init_can, init_does, session_can, session_does, upower_can, upower_does, Ask,
    InitSystemProvider, PowerProvider, SessionProvider, UPowerProvider,
};

verus! {

/// What can be done to the session or the machine.
#[derive(Debug, Clone, Copy, PartialEq, Eq, Structural)]
pub enum Action {
    PowerLogout,
    PowerHibernate,
    PowerReboot,
    PowerShutdown,
    PowerSuspend,
}

/// One of the providers of the power manager.
#[derive(Debug, Clone, Copy, PartialEq, Eq, Structural)]
pub enum AnyProvider {
    InitSystem(InitSystemProvider),
    UPower(UPowerProvider),
    Session(SessionProvider),
}

/// The providers of the power manager, in the order in which they are
/// asked.
pub open spec fn providers() -> Seq<AnyProvider> {
    seq![
        AnyProvider::InitSystem(InitSystemProvider),
        AnyProvider::UPower(UPowerProvider),
        AnyProvider::Session(SessionProvider),
    ]
}

/// What one provider answered when it was asked whether an action can be
/// done and then, where that did not fail, to do it.
#[derive(Debug, PartialEq, Eq)]
pub struct Outcome<E> {
    pub can: Result<bool, E>,
    /// None where the provider was not asked to do the action.
    pub done: Option<Result<bool, E>>,
}

/// What the manager reports where its providers were asked whether an
/// action can be done: the answer of the last of them, and no where there
/// is none.
pub open spec fn last_answer<E>(answers: Seq<Result<bool, E>>) -> Result<bool, E> {
    if answers.len() == 0 {
        Ok(false)
    } else {
        answers.last()
    }
}

/// What one provider achieved: the action is done where the provider said
/// that it can be and that it was; a failure of either question is the
/// failure of the provider.
pub open spec fn achieved<E>(outcome: Outcome<E>) -> Result<bool, E> {
    match outcome.can {
        Ok(can) => match outcome.done {
            Some(Ok(done)) => Ok(can && done),
            Some(Err(e)) => Err(e),
            None => Ok(false),
        },
        Err(e) => Err(e),
    }
}

/// What the manager reports where its providers were asked to do an
/// action: what the last of them achieved, and no where there is none.
pub open spec fn last_outcome<E>(outcomes: Seq<Outcome<E>>) -> Result<bool, E> {
    if outcomes.len() == 0 {
        Ok(false)
    } else {
        achieved(outcomes.last())
    }
}

/// The power manager.
#[derive(Debug)]
pub struct PowerManager {
    providers: Vec<AnyProvider>,
}

impl View for PowerManager {
    type V = Seq<AnyProvider>;

    closed spec fn view(&self) -> Seq<AnyProvider> {
        self.providers@
    }
}

/// What a provider is asked to learn whether an action can be done.
pub open spec fn query_of(provider: AnyProvider, action: Action, ask: Ask) -> bool {
    match provider {
        AnyProvider::InitSystem(_) => init_can(action, ask),
        AnyProvider::UPower(_) => upower_can(action, ask),
        AnyProvider::Session(_) => session_can(action, ask),
    }
}

/// What a provider is asked to have an action done.
pub open spec fn order_of(
    provider: AnyProvider,
    action: Action,
    session_id: Seq<char>,
    ask: Ask,
) -> bool {
    match provider {
        AnyProvider::InitSystem(_) => init_does(action, ask),
        AnyProvider::UPower(_) => upower_does(action, ask),
        AnyProvider::Session(_) => session_does(action, session_id, ask),
    }
}

/// `asks` holds what each provider is asked, in turn, to learn whether the
/// action can be done.
pub open spec fn queries(list: Seq<AnyProvider>, action: Action, asks: Seq<Ask>) -> bool {
    &&& asks.len() == list.len()
    &&& forall|i: int| 0 <= i < list.len() ==> query_of(list[i], action, #[trigger] asks[i])
}

/// `asks` holds what each provider is asked, in turn, to have the action
/// done.
pub open spec fn orders(
    list: Seq<AnyProvider>,
    action: Action,
    session_id: Seq<char>,
    asks: Seq<Ask>,
) -> bool {
    &&& asks.len() == list.len()
    &&& forall|i: int|
        0 <= i < list.len() ==> order_of(list[i], action, session_id, #[trigger] asks[i])
}

impl Default for PowerManager {
    fn default() -> (manager: PowerManager)
        ensures
            manager@.len() == 0,
    {
        PowerManager { providers: Vec::new() }
    }
}

impl PowerManager {
    /// The manager with its providers: the login manager, the power
    /// service and the session.
    pub fn new() -> (manager: PowerManager)
        ensures
            manager@ == providers(),
    {
        let mut list: Vec<AnyProvider> = Vec::new();
        list.push(AnyProvider::InitSystem(InitSystemProvider));
        list.push(AnyProvider::UPower(UPowerProvider));
        list.push(AnyProvider::Session(SessionProvider));
        assert(list@ =~= providers());
        PowerManager { providers: list }
    }

    /// What each provider is asked, in turn, to learn whether the action
    /// can be done.
    pub fn can_action(&self, action: Action) -> (asks: Vec<Ask>)
        ensures
            queries(self@, action, asks@),
    {
        let mut asks: Vec<Ask> = Vec::new();
        let mut i: usize = 0;
        while i < self.providers.len()
            invariant
                i <= self.providers.len(),
                asks@.len() == i,
                forall|k: int|
                    0 <= k < i ==> query_of(self.providers@[k], action, #[trigger] asks@[k]),
            decreases self.providers.len() - i,
        {
            let ask = match &self.providers[i] {
                AnyProvider::InitSystem(p) => p.can_action(action),
                AnyProvider::UPower(p) => p.can_action(action),
                AnyProvider::Session(p) => p.can_action(action),
            };
            asks.push(ask);
            i = i + 1;
        }
        asks
    }

    /// What each provider is asked, in turn, to have the action done.
    pub fn do_action(&self, action: Action, session_id: &str) -> (asks: Vec<Ask>)
        ensures
            orders(self@, action, session_id@, asks@),
    {
        let mut asks: Vec<Ask> = Vec::new();
        let mut i: usize = 0;
        while i < self.providers.len()
            invariant
                i <= self.providers.len(),
                asks@.len() == i,
                forall|k: int|
                    0 <= k < i ==> order_of(
                        self.providers@[k],
                        action,
                        session_id@,
                        #[trigger] asks@[k],
                    ),
            decreases self.providers.len() - i,
        {
            let ask = match &self.providers[i] {
                AnyProvider::InitSystem(p) => p.do_action(action, session_id),
                AnyProvider::UPower(p) => p.do_action(action, session_id),
                AnyProvider::Session(p) => p.do_action(action, session_id),
            };
            asks.push(ask);
            i = i + 1;
        }
        asks
    }

    /// Whether the action can be done, from the answers of the providers
    /// in turn.
    pub fn can_result<E>(answers: Vec<Result<bool, E>>) -> (r: Result<bool, E>)
        ensures
            r == last_answer(answers@),
    {
        let mut answers = answers;
        match answers.pop() {
            Some(last) => last,
            None => Ok(false),
        }
    }

    /// Whether the action was done, from what the providers answered in
    /// turn.
    pub fn do_result<E>(outcomes: Vec<Outcome<E>>) -> (r: Result<bool, E>)
        ensures
            r == last_outcome(outcomes@),
    {
        let mut outcomes = outcomes;
        match outcomes.pop() {
            Some(outcome) => match outcome.can {
                Ok(can) => match outcome.done {
                    Some(Ok(done)) => Ok(can && done),
                    Some(Err(e)) => Err(e),
                    None => Ok(false),
                },
                Err(e) => Err(e),
            },
            None => Ok(false),
        }
    }

    /// What the providers are asked to learn whether the user can log out.
    pub fn can_logout(&self) -> (asks: Vec<Ask>)
        ensures
            queries(self@, Action::PowerLogout, asks@),
    {
        self.can_action(Action::PowerLogout)
    }

    /// What the providers are asked to learn whether the machine can
    /// hibernate.
    pub fn can_hibernate(&self) -> (asks: Vec<Ask>)
        ensures
            queries(self@, Action::PowerHibernate, asks@),
    {
        self.can_action(Action::PowerHibernate)
    }

    /// What the providers are asked to learn whether the machine can
    /// reboot.
    pub fn can_reboot(&self) -> (asks: Vec<Ask>)
        ensures
            queries(self@, Action::PowerReboot, asks@),
    {
        self.can_action(Action::PowerReboot)
    }

    /// What the providers are asked to learn whether the machine can be
    /// switched off.
    pub fn can_shutdown(&self) -> (asks: Vec<Ask>)
        ensures
            queries(self@, Action::PowerShutdown, asks@),
    {
        self.can_action(Action::PowerShutdown)
    }

    /// What the providers are asked to learn whether the machine can be
    /// suspended.
    pub fn can_suspend(&self) -> (asks: Vec<Ask>)
        ensures
            queries(self@, Action::PowerSuspend, asks@),
    {
        self.can_action(Action::PowerSuspend)
    }

    /// What the providers are asked to have the user logged out.
    pub fn logout(&self, session_id: &str) -> (asks: Vec<Ask>)
        ensures
            orders(self@, Action::PowerLogout, session_id@, asks@),
    {
        self.do_action(Action::PowerLogout, session_id)
    }

    /// What the providers are asked to have the machine hibernate.
    pub fn hibernate(&self, session_id: &str) -> (asks: Vec<Ask>)
        ensures
            orders(self@, Action::PowerHibernate, session_id@, asks@),
    {
        self.do_action(Action::PowerHibernate, session_id)
    }

    /// What the providers are asked to have the machine reboot.
    pub fn reboot(&self, session_id: &str) -> (asks: Vec<Ask>)
        ensures
            orders(self@, Action::PowerReboot, session_id@, asks@),
    {
        self.do_action(Action::PowerReboot, session_id)
    }

    /// What the providers are asked to have the machine switched off.
    pub fn shutdown(&self, session_id: &str) -> (asks: Vec<Ask>)
        ensures
            orders(self@, Action::PowerShutdown, session_id@, asks@),
    {
        self.do_action(Action::PowerShutdown, session_id)
    }

    /// What the providers are asked to have the machine suspended.
    pub fn suspend(&self, session_id: &str) -> (asks: Vec<Ask>)
        ensures
            orders(self@, Action::PowerSuspend, session_id@, asks@),
    {
        self.do_action(Action::PowerSuspend, session_id)
    }
}

} // verus!
