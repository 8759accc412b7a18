//! Logging out, suspending and switching off.
pub mod power;
pub mod power_provider;

pub use power::{Action, PowerManager};
pub use power_provider::{
    Ask, InitSystemProvider, PowerProvider, Provider, Reply, SessionProvider, UPowerProvider,
};
