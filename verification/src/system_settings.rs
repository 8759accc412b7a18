//! The settings surfaces, one module each.
pub mod datetime;
pub mod devices;
pub mod locale;
pub mod locale_bk;
pub mod network;
pub mod sounds;
pub mod theme;
pub mod users_groups;
