//! Wireless networks through `nmcli`: the commands, and the reading of
//! what they print.
use vstd::prelude::*;
use crate::helpers::cmd_output_helper::Command;
use crate::helpers::text::{contains, owned_list, replace, str_contains, str_replace, texts};

verus! {

/// Joining and leaving a wireless network.
pub trait Connectivity {
    /// The command that joins the network; `enabled` says whether the
    /// wireless interface is switched on, or why that could not be
    /// learned.
    fn connect(&mut self, ssid: &str, password: &str, enabled: Result<bool, WifiError>) -> Result<
        Command,
        WifiConnectionError,
    >;

    /// The command that leaves the network.
    fn disconnect(&mut self, ssid: &str) -> Command;
}

/// The wireless interface of the machine.
pub trait WifiInterface {
    /// Whether the interface is switched on, from what `nmcli radio wifi`
    /// printed.
    fn is_wifi_enabled(stdout: &str) -> bool;

    /// The command that switches the interface on.
    fn turn_on() -> Command;

    /// The command that switches the interface off.
    fn turn_off() -> Command;
}

/// Why a network was not joined or left.
#[derive(Debug, PartialEq, Eq)]
pub enum WifiConnectionError {
    /// The network could not be joined.
    FailedToConnect(String),
    /// The network could not be left.
    FailedToDisconnect(String),
    /// The wireless interface is at fault.
    Other { kind: WifiError },
}

/// What is wrong with the wireless interface.
#[derive(Debug, PartialEq, Eq)]
pub enum WifiError {
    /// The interface is switched off.
    WifiDisabled,
    /// A command could not be run.
    IoError(String),
}

/// What is printed with its spaces and line feeds taken out.
pub open spec fn squeezed(stdout: Seq<char>) -> Seq<char> {
    replace(replace(stdout, seq![' '], Seq::<char>::empty()), seq!['\n'], Seq::<char>::empty())
}

/// What `nmcli radio wifi` printed says that the interface is switched
/// on.
pub open spec fn says_enabled(stdout: Seq<char>) -> bool {
    contains(squeezed(stdout), "enabled"@)
}

/// What `nmcli` printed says that the network was joined.
pub open spec fn says_activated(stdout: Seq<char>) -> bool {
    contains(stdout, "successfully activated"@)
}

/// What `nmcli` printed says that the network was left.
pub open spec fn says_deactivated(stdout: Seq<char>) -> bool {
    contains(stdout, "successfully deactivated"@)
}

/// The wireless interface.
#[derive(Debug, Default, Clone, Copy, PartialEq, Eq, Structural)]
pub struct Wifi;

impl Wifi {
    /// The command that says whether the interface is switched on.
    pub fn radio_command() -> (cmd: Command)
        ensures
            cmd.runs("nmcli"@, seq!["radio"@, "wifi"@]),
    {
        let args = owned_list(vec!["radio", "wifi"]);
        assert(texts(args@) =~= seq!["radio"@, "wifi"@]);
        Command::new("nmcli", args)
    }

    /// Whether the network was joined, from what the command printed.
    pub fn connected(stdout: &str) -> (r: bool)
        ensures
            r == says_activated(stdout@),
    {
        str_contains(stdout, "successfully activated")
    }

    /// Whether the network was left, from what the command printed.
    pub fn disconnected(stdout: &str) -> (r: bool)
        ensures
            r == says_deactivated(stdout@),
    {
        str_contains(stdout, "successfully deactivated")
    }
}

impl WifiInterface for Wifi {
    fn is_wifi_enabled(stdout: &str) -> (r: bool)
        ensures
            r == says_enabled(stdout@),
    {
        proof {
            reveal_strlit(" ");
            reveal_strlit("\n");
            reveal_strlit("");
            assert(" "@ =~= seq![' ']);
            assert("\n"@ =~= seq!['\n']);
            assert(""@ =~= Seq::<char>::empty());
        }
        let without_spaces = str_replace(stdout, " ", "");
        let squeezed = str_replace(without_spaces.as_str(), "\n", "");
        str_contains(squeezed.as_str(), "enabled")
    }

    fn turn_on() -> (cmd: Command)
        ensures
            cmd.runs("nmcli"@, seq!["radio"@, "wifi"@, "on"@]),
    {
        let args = owned_list(vec!["radio", "wifi", "on"]);
        assert(texts(args@) =~= seq!["radio"@, "wifi"@, "on"@]);
        Command::new("nmcli", args)
    }

    fn turn_off() -> (cmd: Command)
        ensures
            cmd.runs("nmcli"@, seq!["radio"@, "wifi"@, "off"@]),
    {
        let args = owned_list(vec!["radio", "wifi", "off"]);
        assert(texts(args@) =~= seq!["radio"@, "wifi"@, "off"@]);
        Command::new("nmcli", args)
    }
}

impl Connectivity for Wifi {
    fn connect(&mut self, ssid: &str, password: &str, enabled: Result<bool, WifiError>) -> (r:
        Result<Command, WifiConnectionError>)
        ensures
            match enabled {
                Ok(true) => r is Ok && r->Ok_0.runs(
                    "nmcli"@,
                    seq!["d"@, "wifi"@, "connect"@, ssid@, "password"@, password@],
                ),
                Ok(false) => r == Err::<Command, WifiConnectionError>(
                    WifiConnectionError::Other { kind: WifiError::WifiDisabled },
                ),
                Err(e) => r == Err::<Command, WifiConnectionError>(
                    WifiConnectionError::Other { kind: e },
                ),
            },
    {
        match enabled {
            Ok(true) => {
                let args = owned_list(vec!["d", "wifi", "connect", ssid, "password", password]);
                assert(texts(args@) =~= seq![
                    "d"@,
                    "wifi"@,
                    "connect"@,
                    ssid@,
                    "password"@,
                    password@,
                ]);
                Ok(Command::new("nmcli", args))
            },
            Ok(false) => Err(WifiConnectionError::Other { kind: WifiError::WifiDisabled }),
            Err(e) => Err(WifiConnectionError::Other { kind: e }),
        }
    }

    fn disconnect(&mut self, ssid: &str) -> (cmd: Command)
        ensures
            cmd.runs("nmcli"@, seq!["connection"@, "down"@, ssid@]),
    {
        let args = owned_list(vec!["connection", "down", ssid]);
        assert(texts(args@) =~= seq!["connection"@, "down"@, ssid@]);
        Command::new("nmcli", args)
    }
}

} // verus!
