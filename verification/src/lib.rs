//! Settings surfaces of a desktop host: audio device control, accounts,
//! locale, date and time, seen as plain values and the decisions made on them.
pub mod desktop;
pub mod helpers;
pub mod session;
pub mod system_settings;
