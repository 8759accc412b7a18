//! The signals of the network manager.
pub mod nm;
pub mod nm_device_ppp;
pub mod nm_settings_conn;

pub use nm::{
    OrgFreedesktopNetworkManagerCheckPermissions, OrgFreedesktopNetworkManagerStateChanged,
};
pub use nm_device_ppp::OrgFreedesktopNetworkManagerDevicePpp;
pub use nm_settings_conn::{
    OrgFreedesktopNetworkManagerSettingsConnectionRemoved,
    OrgFreedesktopNetworkManagerSettingsConnectionUpdated,
};
