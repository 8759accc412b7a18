//! The network: the states that the network manager reports, wireless
//! networks, and the service of the network manager itself.
pub mod accesspoint;
pub mod auto_gen;
pub mod network_manager;
pub mod service;
pub mod types;
pub mod wifi;

pub use accesspoint::AccessPoint;
pub use auto_gen::{
    OrgFreedesktopNetworkManagerCheckPermissions, OrgFreedesktopNetworkManagerDevicePpp,
    OrgFreedesktopNetworkManagerSettingsConnectionRemoved,
    OrgFreedesktopNetworkManagerSettingsConnectionUpdated,
    OrgFreedesktopNetworkManagerStateChanged,
};
pub use wifi::Wifi;
