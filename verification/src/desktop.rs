//! The items of the desktop and the applications that open them.
pub mod desktop_item;

pub use desktop_item::{
    ApplicationResource, DesktopEntry, DesktopItem, DesktopItemError, DesktopItemType,
    MimeAppsConfig, MimeCacheConfig,
};
