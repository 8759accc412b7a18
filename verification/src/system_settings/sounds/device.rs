//! A device as it is shown: with the one level and the one percentage
//! that stand for all its channels.
use vstd::prelude::*;
use super::controllers::request::Request;
use super::controllers::types::{DeviceInfo, DeviceKind};
use super::volume::{average, percent_of_native, ChannelVolumes, Volume, VOLUME_MAX};

verus! {

/// A playback or capture device with its volume and what is derived from
/// it for display.
#[derive(Debug, PartialEq, Eq)]
pub struct Device {
    pub index: u32,
    pub type_t: DeviceKind,
    pub name: String,
    pub description: String,
    pub volume: ChannelVolumes,
    /// The mean level of the channels.
    pub volume_avg: Volume,
    /// The mean level in percent of the reference level.
    pub volume_percent: u32,
    pub mute: bool,
}

impl Device {
    /// What is shown of the volume is derived from the levels of the
    /// channels.
    pub open spec fn wf(&self) -> bool {
        &&& self.volume_avg.0 as int == average(self.volume@)
        &&& self.volume_percent as int == percent_of_native(average(self.volume@))
    }

    /// A playback device without channels, name or description.
    pub fn new() -> (device: Device)
        ensures
            device.wf(),
            device.index == 0,
            device.type_t == DeviceKind::Sink,
            device.name@.len() == 0,
            device.description@.len() == 0,
            device.volume@.len() == 0,
            !device.mute,
    {
        let volume = ChannelVolumes::empty();
        let avg = volume.avg();
        let percent = volume.percent();
        Device {
            index: 0,
            type_t: DeviceKind::Sink,
            name: String::new(),
            description: String::new(),
            volume,
            volume_avg: avg,
            volume_percent: percent,
            mute: false,
        }
    }

    /// The device for what the server reports of it.
    pub fn from_info(info: DeviceInfo) -> (device: Device)
        ensures
            device.wf(),
            device.index == info.index,
            device.type_t == info.kind,
            device.name == info.name,
            device.description == info.description,
            device.volume == info.volume,
            device.mute == info.mute,
    {
        let avg = info.volume.avg();
        let percent = info.volume.percent();
        Device {
            index: info.index,
            type_t: info.kind,
            name: info.name,
            description: info.description,
            volume: info.volume,
            volume_avg: avg,
            volume_percent: percent,
            mute: info.mute,
        }
    }

    /// Takes the levels of the channels, and derives from them what is
    /// shown.
    pub fn set_volume(&mut self, volume: ChannelVolumes)
        ensures
            final(self).wf(),
            final(self).volume == volume,
            final(self).index == old(self).index,
            final(self).type_t == old(self).type_t,
            final(self).name == old(self).name,
            final(self).description == old(self).description,
            final(self).mute == old(self).mute,
    {
        self.volume_avg = volume.avg();
        self.volume_percent = volume.percent();
        self.volume = volume;
    }

    /// Puts every channel of the device at `new_volume` and gives the
    /// request that does the same on the server. For a level above the
    /// protocol's maximum nothing is done to the device and nothing is
    /// sent: the level is brought down to the maximum in the caller's hand.
    pub fn set_level(&mut self, new_volume: &mut Volume) -> (request: Option<Request>)
        ensures
            final(self).index == old(self).index,
            final(self).type_t == old(self).type_t,
            final(self).name == old(self).name,
            final(self).description == old(self).description,
            final(self).mute == old(self).mute,
            if old(new_volume).0 > VOLUME_MAX {
                &&& request is None
                &&& *final(self) == *old(self)
                &&& *final(new_volume) == Volume(VOLUME_MAX)
            } else {
                &&& *final(new_volume) == *old(new_volume)
                &&& final(self).wf()
                &&& final(self).volume@ == Seq::new(
                    old(self).volume@.len(),
                    |c: int| *old(new_volume),
                )
                &&& match old(self).type_t {
                    DeviceKind::Sink => request matches Some(Request::SetSinkVolumeByIndex(i, v))
                        && i == old(self).index && v@ == final(self).volume@,
                    DeviceKind::Source => request matches Some(
                        Request::SetSourceVolumeByIndex(i, v),
                    ) && i == old(self).index && v@ == final(self).volume@,
                }
            },
    {
        if new_volume.0 > VOLUME_MAX {
            *new_volume = Volume(VOLUME_MAX);
            return None;
        }
        match ChannelVolumes::uniform(self.volume.len(), *new_volume) {
            Some(volume) => {
                let copy = volume.duplicate();
                self.set_volume(volume);
                match self.type_t {
                    DeviceKind::Sink => Some(Request::SetSinkVolumeByIndex(self.index, copy)),
                    DeviceKind::Source => Some(Request::SetSourceVolumeByIndex(self.index, copy)),
                }
            },
            None => None,
        }
    }

    /// The request that mutes or unmutes the device on the server.
    pub fn set_mute(&self, mute: bool) -> (request: Request)
        ensures
            request == match self.type_t {
                DeviceKind::Sink => Request::SetSinkMuteByIndex(self.index, mute),
                DeviceKind::Source => Request::SetSourceMuteByIndex(self.index, mute),
            },
    {
        match self.type_t {
            DeviceKind::Sink => Request::SetSinkMuteByIndex(self.index, mute),
            DeviceKind::Source => Request::SetSourceMuteByIndex(self.index, mute),
        }
    }
}

} // verus!
