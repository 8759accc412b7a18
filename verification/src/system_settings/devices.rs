//! The devices of the machine.
pub mod brightness;
