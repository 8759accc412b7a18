//! Snapshots of what the server holds: devices, the streams of
//! applications, and sound cards. A snapshot does not follow the server: to
//! see a change, ask again.
use vstd::prelude::*;
use crate::helpers::text::same_text;
use super::super::volume::ChannelVolumes;
pub use super::super::pulseaudio::ServerInfo;

verus! {

/// Whether a device plays or records.
#[derive(Clone, Copy, Debug, PartialEq, Eq, Structural)]
pub enum DeviceKind {
    /// A playback device.
    Sink,
    /// A capture device.
    Source,
}

/// A playback or capture device.
#[derive(Debug, PartialEq, Eq)]
pub struct DeviceInfo {
    pub index: u32,
    pub kind: DeviceKind,
    pub name: String,
    pub description: String,
    pub volume: ChannelVolumes,
    pub mute: bool,
}

impl DeviceInfo {
    /// A copy of this snapshot.
    pub fn duplicate(&self) -> (r: DeviceInfo)
        ensures
            r.index == self.index,
            r.kind == self.kind,
            r.name@ == self.name@,
            r.description@ == self.description@,
            r.volume@ == self.volume@,
            r.mute == self.mute,
    {
        DeviceInfo {
            index: self.index,
            kind: self.kind,
            name: self.name.clone(),
            description: self.description.clone(),
            volume: self.volume.duplicate(),
            mute: self.mute,
        }
    }
}

/// The stream of one application, attached to a device.
#[derive(Debug, PartialEq, Eq)]
pub struct ApplicationInfo {
    pub index: u32,
    pub volume: ChannelVolumes,
    pub mute: bool,
    pub owning_device_index: Option<u32>,
}

/// A jack or route of a card.
#[derive(Debug, PartialEq, Eq)]
pub struct PortInfo {
    pub name: String,
    pub description: String,
}

/// A configuration of a card, which decides the ports that are in use.
#[derive(Debug, PartialEq, Eq)]
pub struct ProfileInfo {
    pub name: String,
    pub description: String,
}

/// A sound card with its ports and profiles.
#[derive(Debug, PartialEq, Eq)]
pub struct SoundCardInfo {
    pub index: u32,
    pub name: String,
    pub driver: String,
    pub ports: Vec<PortInfo>,
    pub profiles: Vec<ProfileInfo>,
    /// The name of the profile in use.
    pub active_profile: Option<String>,
}

/// The names of the ports of a card.
pub open spec fn port_names(ports: Seq<PortInfo>) -> Seq<Seq<char>> {
    Seq::new(ports.len(), |i: int| ports[i].name@)
}

/// The names of the profiles of a card.
pub open spec fn profile_names(profiles: Seq<ProfileInfo>) -> Seq<Seq<char>> {
    Seq::new(profiles.len(), |i: int| profiles[i].name@)
}

impl SoundCardInfo {
    /// Whether the card has a profile of this name.
    pub fn has_profile(&self, name: &str) -> (b: bool)
        ensures
            b == profile_names(self.profiles@).contains(name@),
    {
        let mut i: usize = 0;
        while i < self.profiles.len()
            invariant
                i <= self.profiles.len(),
                forall|k: int| 0 <= k < i ==> self.profiles@[k].name@ != name@,
            decreases self.profiles.len() - i,
        {
            if same_text(self.profiles[i].name.as_str(), name) {
                assert(profile_names(self.profiles@)[i as int] == name@);
                return true;
            }
            i = i + 1;
        }
        false
    }

    /// Whether the card has a port of this name.
    pub fn has_port(&self, name: &str) -> (b: bool)
        ensures
            b == port_names(self.ports@).contains(name@),
    {
        let mut i: usize = 0;
        while i < self.ports.len()
            invariant
                i <= self.ports.len(),
                forall|k: int| 0 <= k < i ==> self.ports@[k].name@ != name@,
            decreases self.ports.len() - i,
        {
            if same_text(self.ports[i].name.as_str(), name) {
                assert(port_names(self.ports@)[i as int] == name@);
                return true;
            }
            i = i + 1;
        }
        false
    }
}

} // verus!
