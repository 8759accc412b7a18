//! The signals of the network manager itself.
use vstd::prelude::*;

verus! {

/// The signal that the permissions of the caller may have changed.
#[derive(Debug, Clone, Copy, PartialEq, Eq, Structural)]
pub struct OrgFreedesktopNetworkManagerCheckPermissions {}

impl OrgFreedesktopNetworkManagerCheckPermissions {
    /// The name of the signal.
    pub fn name() -> (name: &'static str)
        ensures
            name@ == "CheckPermissions"@,
    {
        "CheckPermissions"
    }

    /// The interface that sends the signal.
    pub fn interface() -> (interface: &'static str)
        ensures
            interface@ == "org.freedesktop.NetworkManager"@,
    {
        "org.freedesktop.NetworkManager"
    }
}

/// The signal that the state of the network manager has changed.
#[derive(Debug, Clone, Copy, PartialEq, Eq, Structural)]
pub struct OrgFreedesktopNetworkManagerStateChanged {
    pub state: u32,
}

impl OrgFreedesktopNetworkManagerStateChanged {
    /// The name of the signal.
    pub fn name() -> (name: &'static str)
        ensures
            name@ == "StateChanged"@,
    {
        "StateChanged"
    }

    /// The interface that sends the signal.
    pub fn interface() -> (interface: &'static str)
        ensures
            interface@ == "org.freedesktop.NetworkManager"@,
    {
        "org.freedesktop.NetworkManager"
    }
}

} // verus!
