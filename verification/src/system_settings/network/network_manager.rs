//! The wireless networks in reach, as `nmcli` lists them.
use vstd::prelude::*;
use crate::helpers::cmd_output_helper::Command;
use crate::helpers::dbus_helper::{Arg, Bus, MethodCall};
use crate::helpers::sorting::{by_text, sort_texts};
use crate::helpers::text::{lines, lines_chars, owned_list, texts, to_chars, to_strings};

verus! {

/// One wireless network.
#[derive(Default, Debug, PartialEq, Eq)]
pub struct NetworkManager<'l> {
    pub ssid: &'l str,
    pub channel: &'l str,
    pub freq: &'l str,
    pub rate: &'l str,
    pub signal: u8,
    pub security: &'l str,
}

/// The call that switches networking on or off.
pub fn enable(is_enable: bool) -> (call: MethodCall)
    ensures
        call.calls(
            Bus::System,
            "org.freedesktop.NetworkManager"@,
            "/org/freedesktop/NetworkManager"@,
            "org.freedesktop.NetworkManager"@,
            "Enable"@,
        ),
        call.args@ == seq![Arg::Bool(is_enable)],
        call.timeout_ms == 1000,
{
    let call = MethodCall::new(
        Bus::System,
        "org.freedesktop.NetworkManager",
        "/org/freedesktop/NetworkManager",
        "org.freedesktop.NetworkManager",
        "Enable",
        1000,
    ).with_arg(Arg::Bool(is_enable));
    assert(call.args@ =~= seq![Arg::Bool(is_enable)]);
    call
}

impl<'l> NetworkManager<'l> {
    /// A network of which nothing is known.
    pub fn new() -> (network: NetworkManager<'l>)
        ensures
            network.ssid@.len() == 0,
            network.channel@.len() == 0,
            network.freq@.len() == 0,
            network.rate@.len() == 0,
            network.signal == 0,
            network.security@.len() == 0,
    {
        proof {
            reveal_strlit("");
        }
        NetworkManager { ssid: "", channel: "", freq: "", rate: "", signal: 0, security: "" }
    }

    /// The command that lists the names of the networks in reach.
    pub fn access_points_command() -> (cmd: Command)
        ensures
            cmd.runs("nmcli"@, seq!["-f"@, "SSID"@, "device"@, "wifi"@, "list"@]),
    {
        let args = owned_list(vec!["-f", "SSID", "device", "wifi", "list"]);
        assert(texts(args@) =~= seq!["-f"@, "SSID"@, "device"@, "wifi"@, "list"@]);
        Command::new("nmcli", args)
    }

    /// The names of the networks in reach, in order: every line of what
    /// the command printed, its heading too.
    pub fn get_access_points(&mut self, stdout: &str) -> (names: Vec<String>)
        ensures
            texts(names@) == lines(stdout@).sort_by(by_text()),
            *final(self) == *old(self),
    {
        let all = lines_chars(&to_chars(stdout));
        to_strings(&sort_texts(&all))
    }
}

} // verus!
