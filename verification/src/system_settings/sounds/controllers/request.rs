//! What a controller asks of the server.
use vstd::prelude::*;
use super::super::volume::ChannelVolumes;

verus! {

/// One request to the server. Where a device, a stream or a card can be
/// named either way, there is one request by index and one by name.
#[derive(Debug, PartialEq, Eq)]
pub enum Request {
    GetServerInfo,
    GetSinkInfoList,
    GetSinkInfoByIndex(u32),
    GetSinkInfoByName(String),
    GetSourceInfoList,
    GetSourceInfoByIndex(u32),
    GetSourceInfoByName(String),
    GetSinkInputInfoList,
    GetSinkInputInfo(u32),
    GetSourceOutputInfoList,
    GetSourceOutputInfo(u32),
    GetCardInfoList,
    GetCardInfoByIndex(u32),
    GetCardInfoByName(String),
    SetDefaultSink(String),
    SetDefaultSource(String),
    SetSinkVolumeByIndex(u32, ChannelVolumes),
    SetSinkVolumeByName(String, ChannelVolumes),
    SetSourceVolumeByIndex(u32, ChannelVolumes),
    SetSourceVolumeByName(String, ChannelVolumes),
    SetSinkInputVolume(u32, ChannelVolumes),
    SetSourceOutputVolume(u32, ChannelVolumes),
    SetSinkInputMute(u32, bool),
    SetSourceOutputMute(u32, bool),
    SetSinkMuteByIndex(u32, bool),
    SetSourceMuteByIndex(u32, bool),
    SetSinkMuteByName(String, bool),
    SetSourceMuteByName(String, bool),
    /// Stream, then device.
    MoveSinkInputByIndex(u32, u32),
    MoveSinkInputByName(u32, String),
    MoveSourceOutputByIndex(u32, u32),
    MoveSourceOutputByName(u32, String),
    /// Card, then profile.
    SetCardProfileByIndex(u32, String),
    SetCardProfileByName(String, String),
    /// Device, then port.
    SetSinkPortByIndex(u32, String),
    SetSinkPortByName(String, String),
    SetSourcePortByIndex(u32, String),
    SetSourcePortByName(String, String),
    /// The facilities whose changes the server is to report, as a mask.
    Subscribe(u32),
}

} // verus!
