//! The signals of one stored connection.
use vstd::prelude::*;

verus! {

/// The signal that the connection was changed.
#[derive(Debug, Clone, Copy, PartialEq, Eq, Structural)]
pub struct OrgFreedesktopNetworkManagerSettingsConnectionUpdated {}

impl OrgFreedesktopNetworkManagerSettingsConnectionUpdated {
    /// The name of the signal.
    pub fn name() -> (name: &'static str)
        ensures
            name@ == "Updated"@,
    {
        "Updated"
    }

    /// The interface that sends the signal.
    pub fn interface() -> (interface: &'static str)
        ensures
            interface@ == "org.freedesktop.NetworkManager.Settings.Connection"@,
    {
        "org.freedesktop.NetworkManager.Settings.Connection"
    }
}

/// The signal that the connection was deleted.
#[derive(Debug, Clone, Copy, PartialEq, Eq, Structural)]
pub struct OrgFreedesktopNetworkManagerSettingsConnectionRemoved {}

impl OrgFreedesktopNetworkManagerSettingsConnectionRemoved {
    /// The name of the signal.
    pub fn name() -> (name: &'static str)
        ensures
            name@ == "Removed"@,
    {
        "Removed"
    }

    /// The interface that sends the signal.
    pub fn interface() -> (interface: &'static str)
        ensures
            interface@ == "org.freedesktop.NetworkManager.Settings.Connection"@,
    {
        "org.freedesktop.NetworkManager.Settings.Connection"
    }
}

} // verus!
