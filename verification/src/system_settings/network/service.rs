//! Starting and stopping the service of the network manager: what to do
//! for each state that the init system reports of it.
use vstd::prelude::*;
use super::types::{service_state_of, ServiceState};
use crate::helpers::dbus_helper::{Arg, Bus, MethodCall};
use crate::helpers::text::same_text;

verus! {

pub const SD_SERVICE_MANAGER: &'static str = "org.freedesktop.systemd1";

pub const SD_SERVICE_PATH: &'static str = "/org/freedesktop/systemd1";

pub const SD_MANAGER_INTERFACE: &'static str = "org.freedesktop.systemd1.Manager";

pub const SD_UNIT_INTERFACE: &'static str = "org.freedesktop.systemd1.Unit";

/// The path of the unit of the network manager.
pub const UNIT_PATH: &'static str = "/org/freedesktop/systemd1/unit/NetworkManager_2eservice";

/// The next move on the way to a state of the service.
#[derive(Debug, PartialEq, Eq)]
pub enum ServiceStep {
    /// The service is in the wanted state.
    Done(ServiceState),
    /// The service is on its way: wait until it is in this state.
    Wait(ServiceState),
    /// Make this call, then wait until the service is in this state.
    Call(MethodCall, ServiceState),
    /// The service has failed.
    Fail,
}

/// How to wait for a state.
#[derive(Debug, Clone, Copy, PartialEq, Eq, Structural)]
pub enum WaitPlan {
    /// Do not wait: ask for the state once more and report it.
    AskOnce,
    /// Watch the signals of the unit until the service is in the state or
    /// this many seconds have passed.
    Watch(ServiceState, u64),
}

/// The call of a method of the manager of the init system on the unit of
/// the network manager.
pub open spec fn unit_call(call: MethodCall, method: Seq<char>) -> bool {
    &&& call.calls(
        Bus::System,
        "org.freedesktop.systemd1"@,
        "/org/freedesktop/systemd1"@,
        "org.freedesktop.systemd1.Manager"@,
        method,
    )
    &&& call.timeout_ms == 2000
    &&& call.args@.len() >= 1
    &&& call.args@[0] matches Arg::Text(unit) && unit@ == "NetworkManager.service"@
}

/// The move that starts the service from a state.
pub open spec fn start_step(state: ServiceState, step: ServiceStep) -> bool {
    match state {
        ServiceState::Active => step == ServiceStep::Done(ServiceState::Active),
        ServiceState::Activating => step == ServiceStep::Wait(ServiceState::Active),
        ServiceState::Failed => step == ServiceStep::Fail,
        _ => step matches ServiceStep::Call(call, target) && target == ServiceState::Active
            && unit_call(call, "StartUnit"@) && call.args@.len() == 2 && (
        call.args@[1] matches Arg::Text(mode) && mode@ == "fail"@),
    }
}

/// The move that stops the service from a state.
pub open spec fn stop_step(state: ServiceState, step: ServiceStep) -> bool {
    match state {
        ServiceState::Inactive => step == ServiceStep::Done(ServiceState::Inactive),
        ServiceState::Deactivating => step == ServiceStep::Wait(ServiceState::Inactive),
        ServiceState::Failed => step == ServiceStep::Fail,
        _ => step matches ServiceStep::Call(call, target) && target == ServiceState::Inactive
            && unit_call(call, "StopUnit"@) && call.args@.len() == 2 && (
        call.args@[1] matches Arg::Text(mode) && mode@ == "fail"@),
    }
}

/// A signal is one of changed properties of the unit of the network
/// manager.
pub open spec fn unit_signal(interface: Seq<char>, member: Seq<char>, path: Seq<char>) -> bool {
    interface == "org.freedesktop.DBus.Properties"@ && member == "PropertiesChanged"@ && path
        == UNIT_PATH@
}

/// What a changed property says of the wait for `target`: nothing where it
/// is no state of a unit, whether the state is the target where it is one,
/// and a failure where the state is no state that the init system knows.
pub open spec fn property_seen(
    target: ServiceState,
    interface: Seq<char>,
    key: Seq<char>,
    value: Seq<char>,
) -> Option<Result<bool, ()>> {
    if interface == SD_UNIT_INTERFACE@ && key == "ActiveState"@ {
        match service_state_of(value) {
            Some(state) => Some(Ok(state == target)),
            None => Some(Err(())),
        }
    } else {
        None
    }
}

/// A call of a method of the manager of the init system on the unit of
/// the network manager.
fn manager_call(method: &str) -> (call: MethodCall)
    ensures
        unit_call(call, method@),
        call.args@.len() == 1,
{
    MethodCall::new(
        Bus::System,
        SD_SERVICE_MANAGER,
        SD_SERVICE_PATH,
        SD_MANAGER_INTERFACE,
        method,
        2000,
    ).with_arg(Arg::Text("NetworkManager.service".to_owned()))
}

/// The call that asks for the unit of the network manager, whose state is
/// then read.
pub fn get_service_state() -> (call: MethodCall)
    ensures
        unit_call(call, "GetUnit"@),
        call.args@.len() == 1,
{
    manager_call("GetUnit")
}

/// The move that starts the service, which is in state `state`.
pub fn start_service(state: ServiceState) -> (step: ServiceStep)
    ensures
        start_step(state, step),
{
    match state {
        ServiceState::Active => ServiceStep::Done(state),
        ServiceState::Activating => ServiceStep::Wait(ServiceState::Active),
        ServiceState::Failed => ServiceStep::Fail,
        _ => ServiceStep::Call(
            manager_call("StartUnit").with_arg(Arg::Text("fail".to_owned())),
            ServiceState::Active,
        ),
    }
}

/// The move that stops the service, which is in state `state`.
pub fn stop_service(state: ServiceState) -> (step: ServiceStep)
    ensures
        stop_step(state, step),
{
    match state {
        ServiceState::Inactive => ServiceStep::Done(state),
        ServiceState::Deactivating => ServiceStep::Wait(ServiceState::Inactive),
        ServiceState::Failed => ServiceStep::Fail,
        _ => ServiceStep::Call(
            manager_call("StopUnit").with_arg(Arg::Text("fail".to_owned())),
            ServiceState::Inactive,
        ),
    }
}

/// How to wait for the service to be in the state `target_state`, for
/// `timeout` seconds at most.
pub fn handler(timeout: u64, target_state: ServiceState) -> (plan: WaitPlan)
    ensures
        plan == if timeout == 0 {
            WaitPlan::AskOnce
        } else {
            WaitPlan::Watch(target_state, timeout)
        },
{
    if timeout == 0 {
        WaitPlan::AskOnce
    } else {
        WaitPlan::Watch(target_state, timeout)
    }
}

/// Whether a signal is one of changed properties of the unit of the
/// network manager.
pub fn is_unit_signal(interface: &str, member: &str, path: &str) -> (r: bool)
    ensures
        r == unit_signal(interface@, member@, path@),
{
    same_text(interface, "org.freedesktop.DBus.Properties") && same_text(
        member,
        "PropertiesChanged",
    ) && same_text(path, UNIT_PATH)
}

/// What a changed property says of the wait for `target`.
pub fn on_property(target: ServiceState, interface: &str, key: &str, value: &str) -> (r: Option<
    Result<bool, ()>,
>)
    ensures
        r == property_seen(target, interface@, key@, value@),
{
    if same_text(interface, SD_UNIT_INTERFACE) && same_text(key, "ActiveState") {
        match ServiceState::parse(value) {
            Some(state) => Some(Ok(state == target)),
            None => Some(Err(())),
        }
    } else {
        None
    }
}

} // verus!
