//! The states that the network manager and the init system report.
use vstd::prelude::*;
use crate::helpers::text::same_text;

verus! {

/// Where a connection stands.
#[derive(Debug, Clone, Copy, PartialEq, Eq, Structural)]
pub enum ConnectionState {
    Unknown,
    Activating,
    Activated,
    Deactivating,
    Deactivated,
}

/// The number under which the network manager reports a state of a
/// connection.
pub open spec fn connection_code(state: ConnectionState) -> u32 {
    match state {
        ConnectionState::Unknown => 0,
        ConnectionState::Activating => 1,
        ConnectionState::Activated => 2,
        ConnectionState::Deactivating => 3,
        ConnectionState::Deactivated => 4,
    }
}

impl ConnectionState {
    /// The number of the state.
    pub fn code(&self) -> (code: u32)
        ensures
            code == connection_code(*self),
    {
        match self {
            ConnectionState::Unknown => 0,
            ConnectionState::Activating => 1,
            ConnectionState::Activated => 2,
            ConnectionState::Deactivating => 3,
            ConnectionState::Deactivated => 4,
        }
    }

    /// The state with this number.
    pub fn from_code(code: u32) -> (state: Option<ConnectionState>)
        ensures
            match state {
                Some(s) => connection_code(s) == code,
                None => code > 4,
            },
    {
        match code {
            0 => Some(ConnectionState::Unknown),
            1 => Some(ConnectionState::Activating),
            2 => Some(ConnectionState::Activated),
            3 => Some(ConnectionState::Deactivating),
            4 => Some(ConnectionState::Deactivated),
            _ => None,
        }
    }
}

/// The kinds of network devices.
#[derive(Clone, Copy, Debug, PartialEq, Eq, Structural)]
pub enum DeviceType {
    Unknown,
    Ethernet,
    WiFi,
    Unused1,
    Unused2,
    Bt,
    OlpcMesh,
    Wimax,
    Modem,
    Infiniband,
    Bond,
    Vlan,
    Adsl,
    Bridge,
    Generic,
    Team,
    Tun,
    IpTunnel,
    Macvlan,
    Vxlan,
    Veth,
    Macsec,
    Dummy,
}

/// Where a network device stands.
#[derive(Clone, Copy, Debug, PartialEq, Eq, Structural)]
pub enum DeviceState {
    Unknown,
    Unmanaged,
    Unavailable,
    Disconnected,
    Prepare,
    Config,
    NeedAuth,
    IpConfig,
    IpCheck,
    Secondaries,
    Activated,
    Deactivating,
    Failed,
}

/// Where the network manager stands.
#[derive(Clone, Copy, Debug, PartialEq, Eq, Structural)]
pub enum NetworkManagerState {
    Unknown,
    Asleep,
    Disconnected,
    Disconnecting,
    Connecting,
    ConnectedLocal,
    ConnectedSite,
    ConnectedGlobal,
}

/// How far the network reaches.
#[derive(Clone, Copy, Debug, PartialEq, Eq, Structural)]
pub enum Connectivity {
    Unknown,
    /// No network is reached.
    Nothing,
    Portal,
    Limited,
    Full,
}

/// Where a service of the init system stands.
#[derive(Clone, Copy, Debug, PartialEq, Eq, Structural)]
pub enum ServiceState {
    Active,
    Reloading,
    Inactive,
    Failed,
    Activating,
    Deactivating,
}

/// The state that a word of the init system names.
pub open spec fn service_state_of(word: Seq<char>) -> Option<ServiceState> {
    if word == "active"@ {
        Some(ServiceState::Active)
    } else if word == "reloading"@ {
        Some(ServiceState::Reloading)
    } else if word == "inactive"@ {
        Some(ServiceState::Inactive)
    } else if word == "failed"@ {
        Some(ServiceState::Failed)
    } else if word == "activating"@ {
        Some(ServiceState::Activating)
    } else if word == "deactivating"@ {
        Some(ServiceState::Deactivating)
    } else {
        None
    }
}

impl ServiceState {
    /// The state that a word of the init system names.
    pub fn parse(word: &str) -> (state: Option<ServiceState>)
        ensures
            state == service_state_of(word@),
    {
        if same_text(word, "active") {
            Some(ServiceState::Active)
        } else if same_text(word, "reloading") {
            Some(ServiceState::Reloading)
        } else if same_text(word, "inactive") {
            Some(ServiceState::Inactive)
        } else if same_text(word, "failed") {
            Some(ServiceState::Failed)
        } else if same_text(word, "activating") {
            Some(ServiceState::Activating)
        } else if same_text(word, "deactivating") {
            Some(ServiceState::Deactivating)
        } else {
            None
        }
    }
}

/// Where an active connection stands.
#[derive(Debug, Clone, Copy, PartialEq, Eq, Structural)]
pub enum ActiveConnectionState {
    Unknown,
    Activating,
    Activated,
    Deactivating,
    Deactivated,
}

/// The number under which the network manager reports a state of an
/// active connection.
pub open spec fn active_connection_code(state: ActiveConnectionState) -> u32 {
    match state {
        ActiveConnectionState::Unknown => 0,
        ActiveConnectionState::Activating => 1,
        ActiveConnectionState::Activated => 2,
        ActiveConnectionState::Deactivating => 3,
        ActiveConnectionState::Deactivated => 4,
    }
}

impl ActiveConnectionState {
    /// The number of the state.
    pub fn code(&self) -> (code: u32)
        ensures
            code == active_connection_code(*self),
    {
        match self {
            ActiveConnectionState::Unknown => 0,
            ActiveConnectionState::Activating => 1,
            ActiveConnectionState::Activated => 2,
            ActiveConnectionState::Deactivating => 3,
            ActiveConnectionState::Deactivated => 4,
        }
    }
}

} // verus!
