//! The session of the user.
pub mod power;
