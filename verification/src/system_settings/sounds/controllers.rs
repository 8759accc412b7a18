//! The controllers: one for playback devices and the streams that play on
//! them, one for capture devices and the streams that record from them.
//! Every call is made in three moves. The controller builds the call, which
//! holds the request; the request is submitted and the call's callback is
//! fed while the connection waits for the operation; the call is finished
//! with the result of that wait and gives the typed answer.
use vstd::prelude::*;
use super::sound_api::Handler;
use super::errors::ControlError;
use super::operation::OperationError;
use super::subscribe::{dispatch, event_for, Event};
use calls::flag_answer;
use super::pulseaudio::State;
use super::volume::{
    lowered, native_of_percent, percent_to_native, raised, ChannelVolumes, Volume,
};
use calls::{FlagCall, ItemCall, ListCall};
use request::Request;
use types::{ApplicationInfo, DeviceInfo, ServerInfo, SoundCardInfo};

pub mod calls;
pub mod request;
pub mod types;

verus! {

/// Devices: listing, lookup, the default device and the volume.
pub trait DeviceControl<T> {
    /// Looks up the device that the server uses where none is named.
    fn get_default_device(&mut self, server: &ServerInfo) -> Result<ItemCall<T>, ControlError>;

    /// Makes the named device the one used where none is named.
    fn set_default_device(&mut self, name: &str) -> FlagCall;

    /// Lists the devices.
    fn list_devices(&mut self) -> ListCall<T>;

    /// Looks up one device by its index.
    fn get_device_by_index(&mut self, index: u32) -> ItemCall<T>;

    /// Looks up one device by its name.
    fn get_device_by_name(&mut self, name: &str) -> ItemCall<T>;

    /// Sets the volume of the device with this index.
    fn set_device_volume_by_index(&mut self, index: u32, volume: &ChannelVolumes) -> FlagCall;

    /// Sets the volume of the device with this name.
    fn set_device_volume_by_name(&mut self, name: &str, volume: &ChannelVolumes) -> FlagCall;

    /// Raises the volume of a device that was just read.
    fn increase_device_volume_by_percent(&mut self, device: &T, delta: u32) -> FlagCall;

    /// Lowers the volume of a device that was just read.
    fn decrease_device_volume_by_percent(&mut self, device: &T, delta: u32) -> FlagCall;

    /// Raises the volume of a device that was just read by a step in the
    /// server's encoding.
    fn increase_device_volume(&mut self, device: &T, step: Volume) -> FlagCall;

    /// Lowers the volume of a device that was just read by a step in the
    /// server's encoding.
    fn decrease_device_volume(&mut self, device: &T, step: Volume) -> FlagCall;
}

/// The controller of the playback devices.
#[derive(Debug)]
pub struct SinkController {
    pub handler: Handler,
}

impl SinkController {
    /// A controller with a connection of its own, whose handshake is still
    /// to be made.
    pub fn create() -> (controller: SinkController)
        ensures
            controller.handler.spec_client_name() == "SinkController"@,
            controller.handler.spec_state() == State::Connecting,
    {
        SinkController { handler: Handler::new("SinkController") }
    }

    /// Asks the server about itself.
    pub fn get_server_info(&mut self) -> (call: ItemCall<ServerInfo>)
        ensures
            *final(self) == *old(self),
            call.spec_request() == Request::GetServerInfo,
            call.item() is None,
            !call.failed(),
    {
        ItemCall::new(Request::GetServerInfo)
    }
}

impl DeviceControl<DeviceInfo> for SinkController {
    fn get_default_device(&mut self, server: &ServerInfo) -> (r: Result<
        ItemCall<DeviceInfo>,
        ControlError,
    >)
        ensures
            *final(self) == *old(self),
            match r {
                Ok(call) => server.default_sink_name is Some && call.item() is None
                    && !call.failed() && (call.spec_request() matches Request::GetSinkInfoByName(
                    n,
                ) && n@ == server.default_sink_name->0@),
                Err(e) => server.default_sink_name is None && e == ControlError::NoInfo,
            },
    {
        match &server.default_sink_name {
            Some(name) => Ok(self.get_device_by_name(name.as_str())),
            None => Err(ControlError::NoInfo),
        }
    }

    fn set_default_device(&mut self, name: &str) -> (call: FlagCall)
        ensures
            *final(self) == *old(self),
            call.flag() is None,
            call.spec_request() matches Request::SetDefaultSink(n) && n@ == name@,
    {
        FlagCall::new(Request::SetDefaultSink(name.to_owned()))
    }

    fn list_devices(&mut self) -> (call: ListCall<DeviceInfo>)
        ensures
            *final(self) == *old(self),
            call.spec_request() == Request::GetSinkInfoList,
            call.items() == Seq::<DeviceInfo>::empty(),
            !call.ended(),
            !call.failed(),
    {
        ListCall::new(Request::GetSinkInfoList)
    }

    fn get_device_by_index(&mut self, index: u32) -> (call: ItemCall<DeviceInfo>)
        ensures
            *final(self) == *old(self),
            call.spec_request() == Request::GetSinkInfoByIndex(index),
            call.item() is None,
            !call.failed(),
    {
        ItemCall::new(Request::GetSinkInfoByIndex(index))
    }

    fn get_device_by_name(&mut self, name: &str) -> (call: ItemCall<DeviceInfo>)
        ensures
            *final(self) == *old(self),
            call.spec_request() matches Request::GetSinkInfoByName(n) && n@ == name@,
            call.item() is None,
            !call.failed(),
    {
        ItemCall::new(Request::GetSinkInfoByName(name.to_owned()))
    }

    fn set_device_volume_by_index(&mut self, index: u32, volume: &ChannelVolumes) -> (call:
        FlagCall)
        ensures
            *final(self) == *old(self),
            call.flag() is None,
            call.spec_request() matches Request::SetSinkVolumeByIndex(i, v) && i == index && v@
                == volume@,
    {
        FlagCall::new(Request::SetSinkVolumeByIndex(index, volume.duplicate()))
    }

    fn set_device_volume_by_name(&mut self, name: &str, volume: &ChannelVolumes) -> (call:
        FlagCall)
        ensures
            *final(self) == *old(self),
            call.flag() is None,
            call.spec_request() matches Request::SetSinkVolumeByName(n, v) && n@ == name@ && v@
                == volume@,
    {
        FlagCall::new(Request::SetSinkVolumeByName(name.to_owned(), volume.duplicate()))
    }

    fn increase_device_volume_by_percent(&mut self, device: &DeviceInfo, delta: u32) -> (call:
        FlagCall)
        ensures
            *final(self) == *old(self),
            call.flag() is None,
            call.spec_request() matches Request::SetSinkVolumeByIndex(i, v) && i == device.index
                && stepped_up(device.volume@, v@, delta),
    {
        self.increase_device_volume(device, percent_to_native(delta))
    }

    fn increase_device_volume(&mut self, device: &DeviceInfo, step: Volume) -> (call: FlagCall)
        ensures
            *final(self) == *old(self),
            call.flag() is None,
            call.spec_request() matches Request::SetSinkVolumeByIndex(i, v) && i == device.index
                && raised_by(device.volume@, v@, step.0 as int),
    {
        FlagCall::new(Request::SetSinkVolumeByIndex(device.index, device.volume.increase(step)))
    }

    fn decrease_device_volume_by_percent(&mut self, device: &DeviceInfo, delta: u32) -> (call:
        FlagCall)
        ensures
            *final(self) == *old(self),
            call.flag() is None,
            call.spec_request() matches Request::SetSinkVolumeByIndex(i, v) && i == device.index
                && stepped_down(device.volume@, v@, delta),
    {
        self.decrease_device_volume(device, percent_to_native(delta))
    }

    fn decrease_device_volume(&mut self, device: &DeviceInfo, step: Volume) -> (call: FlagCall)
        ensures
            *final(self) == *old(self),
            call.flag() is None,
            call.spec_request() matches Request::SetSinkVolumeByIndex(i, v) && i == device.index
                && lowered_by(device.volume@, v@, step.0 as int),
    {
        FlagCall::new(Request::SetSinkVolumeByIndex(device.index, device.volume.decrease(step)))
    }
}

/// `after` is `before` with every channel raised by `step`, none above
/// the protocol's maximum.
pub open spec fn raised_by(before: Seq<Volume>, after: Seq<Volume>, step: int) -> bool {
    &&& after.len() == before.len()
    &&& forall|c: int|
        0 <= c < before.len() ==> (#[trigger] after[c]).0 as int == raised(
            before[c].0 as int,
            step,
        )
}

/// `after` is `before` with every channel lowered by `step`, none below
/// silence.
pub open spec fn lowered_by(before: Seq<Volume>, after: Seq<Volume>, step: int) -> bool {
    &&& after.len() == before.len()
    &&& forall|c: int|
        0 <= c < before.len() ==> (#[trigger] after[c]).0 as int == lowered(
            before[c].0 as int,
            step,
        )
}

/// `after` is `before` with every channel raised by `delta` percent of the
/// reference level, none above the protocol's maximum.
pub open spec fn stepped_up(before: Seq<Volume>, after: Seq<Volume>, delta: u32) -> bool {
    raised_by(before, after, native_of_percent(delta as int))
}

/// `after` is `before` with every channel lowered by `delta` percent of
/// the reference level, none below silence.
pub open spec fn stepped_down(before: Seq<Volume>, after: Seq<Volume>, delta: u32) -> bool {
    lowered_by(before, after, native_of_percent(delta as int))
}

/// The streams of applications: listing, lookup, volume, mute and the
/// device that a stream is attached to.
pub trait AppControl<T> {
    /// Lists the streams.
    fn list_applications(&mut self) -> ListCall<T>;

    /// Looks up one stream by its index.
    fn get_app_by_index(&mut self, index: u32) -> ItemCall<T>;

    /// Raises the volume of a stream that was just read.
    fn increase_app_volume_by_percent(&mut self, app: &T, delta: u32) -> FlagCall;

    /// Lowers the volume of a stream that was just read.
    fn decrease_app_volume_by_percent(&mut self, app: &T, delta: u32) -> FlagCall;

    /// Raises the volume of a stream that was just read by a step in the
    /// server's encoding.
    fn increase_app_volume(&mut self, app: &T, step: Volume) -> FlagCall;

    /// Lowers the volume of a stream that was just read by a step in the
    /// server's encoding.
    fn decrease_app_volume(&mut self, app: &T, step: Volume) -> FlagCall;

    /// Attaches a stream to the device with this index.
    fn move_app_by_index(&mut self, stream_index: u32, device_index: u32) -> FlagCall;

    /// Attaches a stream to the device with this name.
    fn move_app_by_name(&mut self, stream_index: u32, device_name: &str) -> FlagCall;

    /// Mutes or unmutes the stream with this index.
    fn set_app_mute(&mut self, index: u32, mute: bool) -> FlagCall;

    /// Mutes or unmutes the device with this name, and with it every stream
    /// on it.
    fn set_app_mute_by_name(&mut self, name: &str, mute: bool) -> FlagCall;
}

/// Change notifications from the server.
pub trait AppEvent {
    /// Asks the server to report the changes of the facilities in
    /// `interest_mask`.
    fn subscribe(&mut self, interest_mask: u32) -> FlagCall;

    /// Finishes the call that `subscribe` built: from a success on, the
    /// events of those facilities are handed on.
    fn subscribed(&mut self, call: FlagCall, waited: Result<(), OperationError>) -> Result<
        (),
        ControlError,
    >;

    /// The event to hand on for a code and an index that the server
    /// reports.
    fn on_event(&self, code: u32, index: u32) -> Option<Event>;
}

/// Sound cards: listing, lookup and the profile in use.
pub trait SoundCard<T> {
    /// Looks up one card by its index.
    fn get_sound_card_by_index(&mut self, index: u32) -> ItemCall<T>;

    /// Looks up one card by its name.
    fn get_sound_card_by_name(&mut self, name: &str) -> ItemCall<T>;

    /// Lists the cards.
    fn get_card_info_list(&mut self) -> ListCall<T>;

    /// Switches the card with this index to the named profile.
    fn set_card_profile_by_index(&mut self, index: u32, profile: &str) -> FlagCall;

    /// Switches the card with this name to the named profile.
    fn set_card_profile_by_name(&mut self, name: &str, profile: &str) -> FlagCall;
}

/// The port that a device uses.
pub trait SoundPort {
    /// Switches the playback device with this name to the named port.
    fn set_sink_port_by_name(&mut self, name: &str, port_name: &str) -> FlagCall;

    /// Switches the playback device with this index to the named port.
    fn set_sink_port_by_index(&mut self, index: u32, port_name: &str) -> FlagCall;

    /// Switches the capture device with this name to the named port.
    fn set_source_port_by_name(&mut self, name: &str, port_name: &str) -> FlagCall;

    /// Switches the capture device with this index to the named port.
    fn set_source_port_by_index(&mut self, index: u32, port_name: &str) -> FlagCall;
}

impl AppControl<ApplicationInfo> for SinkController {
    fn list_applications(&mut self) -> (call: ListCall<ApplicationInfo>)
        ensures
            *final(self) == *old(self),
            call.spec_request() == Request::GetSinkInputInfoList,
            call.items() == Seq::<ApplicationInfo>::empty(),
            !call.ended(),
            !call.failed(),
    {
        ListCall::new(Request::GetSinkInputInfoList)
    }

    fn get_app_by_index(&mut self, index: u32) -> (call: ItemCall<ApplicationInfo>)
        ensures
            *final(self) == *old(self),
            call.spec_request() == Request::GetSinkInputInfo(index),
            call.item() is None,
            !call.failed(),
    {
        ItemCall::new(Request::GetSinkInputInfo(index))
    }

    fn increase_app_volume_by_percent(&mut self, app: &ApplicationInfo, delta: u32) -> (call:
        FlagCall)
        ensures
            *final(self) == *old(self),
            call.flag() is None,
            call.spec_request() matches Request::SetSinkInputVolume(i, v) && i == app.index
                && stepped_up(app.volume@, v@, delta),
    {
        self.increase_app_volume(app, percent_to_native(delta))
    }

    fn increase_app_volume(&mut self, app: &ApplicationInfo, step: Volume) -> (call: FlagCall)
        ensures
            *final(self) == *old(self),
            call.flag() is None,
            call.spec_request() matches Request::SetSinkInputVolume(i, v) && i == app.index
                && raised_by(app.volume@, v@, step.0 as int),
    {
        FlagCall::new(Request::SetSinkInputVolume(app.index, app.volume.increase(step)))
    }

    fn decrease_app_volume_by_percent(&mut self, app: &ApplicationInfo, delta: u32) -> (call:
        FlagCall)
        ensures
            *final(self) == *old(self),
            call.flag() is None,
            call.spec_request() matches Request::SetSinkInputVolume(i, v) && i == app.index
                && stepped_down(app.volume@, v@, delta),
    {
        self.decrease_app_volume(app, percent_to_native(delta))
    }

    fn decrease_app_volume(&mut self, app: &ApplicationInfo, step: Volume) -> (call: FlagCall)
        ensures
            *final(self) == *old(self),
            call.flag() is None,
            call.spec_request() matches Request::SetSinkInputVolume(i, v) && i == app.index
                && lowered_by(app.volume@, v@, step.0 as int),
    {
        FlagCall::new(Request::SetSinkInputVolume(app.index, app.volume.decrease(step)))
    }

    fn move_app_by_index(&mut self, stream_index: u32, device_index: u32) -> (call: FlagCall)
        ensures
            *final(self) == *old(self),
            call.flag() is None,
            call.spec_request() == Request::MoveSinkInputByIndex(stream_index, device_index),
    {
        FlagCall::new(Request::MoveSinkInputByIndex(stream_index, device_index))
    }

    fn move_app_by_name(&mut self, stream_index: u32, device_name: &str) -> (call: FlagCall)
        ensures
            *final(self) == *old(self),
            call.flag() is None,
            call.spec_request() matches Request::MoveSinkInputByName(i, n) && i == stream_index
                && n@ == device_name@,
    {
        FlagCall::new(Request::MoveSinkInputByName(stream_index, device_name.to_owned()))
    }

    fn set_app_mute(&mut self, index: u32, mute: bool) -> (call: FlagCall)
        ensures
            *final(self) == *old(self),
            call.flag() is None,
            call.spec_request() == Request::SetSinkInputMute(index, mute),
    {
        FlagCall::new(Request::SetSinkInputMute(index, mute))
    }

    fn set_app_mute_by_name(&mut self, name: &str, mute: bool) -> (call: FlagCall)
        ensures
            *final(self) == *old(self),
            call.flag() is None,
            call.spec_request() matches Request::SetSinkMuteByName(n, m) && n@ == name@ && m
                == mute,
    {
        FlagCall::new(Request::SetSinkMuteByName(name.to_owned(), mute))
    }
}

impl SoundCard<SoundCardInfo> for SinkController {
    fn get_sound_card_by_index(&mut self, index: u32) -> (call: ItemCall<SoundCardInfo>)
        ensures
            *final(self) == *old(self),
            call.spec_request() == Request::GetCardInfoByIndex(index),
            call.item() is None,
            !call.failed(),
    {
        ItemCall::new(Request::GetCardInfoByIndex(index))
    }

    fn get_sound_card_by_name(&mut self, name: &str) -> (call: ItemCall<SoundCardInfo>)
        ensures
            *final(self) == *old(self),
            call.spec_request() matches Request::GetCardInfoByName(n) && n@ == name@,
            call.item() is None,
            !call.failed(),
    {
        ItemCall::new(Request::GetCardInfoByName(name.to_owned()))
    }

    fn get_card_info_list(&mut self) -> (call: ListCall<SoundCardInfo>)
        ensures
            *final(self) == *old(self),
            call.spec_request() == Request::GetCardInfoList,
            call.items() == Seq::<SoundCardInfo>::empty(),
            !call.ended(),
            !call.failed(),
    {
        ListCall::new(Request::GetCardInfoList)
    }

    fn set_card_profile_by_index(&mut self, index: u32, profile: &str) -> (call: FlagCall)
        ensures
            *final(self) == *old(self),
            call.flag() is None,
            call.spec_request() matches Request::SetCardProfileByIndex(i, p) && i == index && p@
                == profile@,
    {
        FlagCall::new(Request::SetCardProfileByIndex(index, profile.to_owned()))
    }

    fn set_card_profile_by_name(&mut self, name: &str, profile: &str) -> (call: FlagCall)
        ensures
            *final(self) == *old(self),
            call.flag() is None,
            call.spec_request() matches Request::SetCardProfileByName(n, p) && n@ == name@ && p@
                == profile@,
    {
        FlagCall::new(Request::SetCardProfileByName(name.to_owned(), profile.to_owned()))
    }
}

impl SoundPort for SinkController {
    fn set_sink_port_by_name(&mut self, name: &str, port_name: &str) -> (call: FlagCall)
        ensures
            *final(self) == *old(self),
            call.flag() is None,
            call.spec_request() matches Request::SetSinkPortByName(n, p) && n@ == name@ && p@
                == port_name@,
    {
        FlagCall::new(Request::SetSinkPortByName(name.to_owned(), port_name.to_owned()))
    }

    fn set_sink_port_by_index(&mut self, index: u32, port_name: &str) -> (call: FlagCall)
        ensures
            *final(self) == *old(self),
            call.flag() is None,
            call.spec_request() matches Request::SetSinkPortByIndex(i, p) && i == index && p@
                == port_name@,
    {
        FlagCall::new(Request::SetSinkPortByIndex(index, port_name.to_owned()))
    }

    fn set_source_port_by_name(&mut self, name: &str, port_name: &str) -> (call: FlagCall)
        ensures
            *final(self) == *old(self),
            call.flag() is None,
            call.spec_request() matches Request::SetSourcePortByName(n, p) && n@ == name@ && p@
                == port_name@,
    {
        FlagCall::new(Request::SetSourcePortByName(name.to_owned(), port_name.to_owned()))
    }

    fn set_source_port_by_index(&mut self, index: u32, port_name: &str) -> (call: FlagCall)
        ensures
            *final(self) == *old(self),
            call.flag() is None,
            call.spec_request() matches Request::SetSourcePortByIndex(i, p) && i == index && p@
                == port_name@,
    {
        FlagCall::new(Request::SetSourcePortByIndex(index, port_name.to_owned()))
    }
}

/// The controller of the capture devices.
#[derive(Debug)]
pub struct SourceController {
    pub handler: Handler,
    /// The interest mask of the subscription that is active, if one is.
    pub subscription: Option<u32>,
}

impl SourceController {
    /// The interest mask of the subscription that is active, if one is.
    pub open spec fn spec_subscription(&self) -> Option<u32> {
        self.subscription
    }

    /// A controller with a connection of its own, whose handshake is still
    /// to be made, and without a subscription.
    pub fn create() -> (controller: SourceController)
        ensures
            controller.handler.spec_client_name() == "SourceController"@,
            controller.handler.spec_state() == State::Connecting,
            controller.spec_subscription() is None,
    {
        SourceController { handler: Handler::new("SourceController"), subscription: None }
    }

    /// Asks the server about itself.
    pub fn get_server_info(&mut self) -> (call: ItemCall<ServerInfo>)
        ensures
            *final(self) == *old(self),
            call.spec_request() == Request::GetServerInfo,
            call.item() is None,
            !call.failed(),
    {
        ItemCall::new(Request::GetServerInfo)
    }

    /// The interest mask of the subscription that is active, if one is.
    pub fn subscription(&self) -> (mask: Option<u32>)
        ensures
            mask == self.spec_subscription(),
    {
        self.subscription
    }

    /// Ends the subscription: no event is handed on any more.
    pub fn unsubscribe(&mut self)
        ensures
            final(self).spec_subscription() is None,
            final(self).handler == old(self).handler,
    {
        self.subscription = None;
    }
}

impl DeviceControl<DeviceInfo> for SourceController {
    fn get_default_device(&mut self, server: &ServerInfo) -> (r: Result<
        ItemCall<DeviceInfo>,
        ControlError,
    >)
        ensures
            *final(self) == *old(self),
            match r {
                Ok(call) => server.default_source_name is Some && call.item() is None
                    && !call.failed() && (call.spec_request() matches Request::GetSourceInfoByName(
                    n,
                ) && n@ == server.default_source_name->0@),
                Err(e) => server.default_source_name is None && e == ControlError::NoInfo,
            },
    {
        match &server.default_source_name {
            Some(name) => Ok(self.get_device_by_name(name.as_str())),
            None => Err(ControlError::NoInfo),
        }
    }

    fn set_default_device(&mut self, name: &str) -> (call: FlagCall)
        ensures
            *final(self) == *old(self),
            call.flag() is None,
            call.spec_request() matches Request::SetDefaultSource(n) && n@ == name@,
    {
        FlagCall::new(Request::SetDefaultSource(name.to_owned()))
    }

    fn list_devices(&mut self) -> (call: ListCall<DeviceInfo>)
        ensures
            *final(self) == *old(self),
            call.spec_request() == Request::GetSourceInfoList,
            call.items() == Seq::<DeviceInfo>::empty(),
            !call.ended(),
            !call.failed(),
    {
        ListCall::new(Request::GetSourceInfoList)
    }

    fn get_device_by_index(&mut self, index: u32) -> (call: ItemCall<DeviceInfo>)
        ensures
            *final(self) == *old(self),
            call.spec_request() == Request::GetSourceInfoByIndex(index),
            call.item() is None,
            !call.failed(),
    {
        ItemCall::new(Request::GetSourceInfoByIndex(index))
    }

    fn get_device_by_name(&mut self, name: &str) -> (call: ItemCall<DeviceInfo>)
        ensures
            *final(self) == *old(self),
            call.spec_request() matches Request::GetSourceInfoByName(n) && n@ == name@,
            call.item() is None,
            !call.failed(),
    {
        ItemCall::new(Request::GetSourceInfoByName(name.to_owned()))
    }

    fn set_device_volume_by_index(&mut self, index: u32, volume: &ChannelVolumes) -> (call:
        FlagCall)
        ensures
            *final(self) == *old(self),
            call.flag() is None,
            call.spec_request() matches Request::SetSourceVolumeByIndex(i, v) && i == index && v@
                == volume@,
    {
        FlagCall::new(Request::SetSourceVolumeByIndex(index, volume.duplicate()))
    }

    fn set_device_volume_by_name(&mut self, name: &str, volume: &ChannelVolumes) -> (call:
        FlagCall)
        ensures
            *final(self) == *old(self),
            call.flag() is None,
            call.spec_request() matches Request::SetSourceVolumeByName(n, v) && n@ == name@ && v@
                == volume@,
    {
        FlagCall::new(Request::SetSourceVolumeByName(name.to_owned(), volume.duplicate()))
    }

    fn increase_device_volume_by_percent(&mut self, device: &DeviceInfo, delta: u32) -> (call:
        FlagCall)
        ensures
            *final(self) == *old(self),
            call.flag() is None,
            call.spec_request() matches Request::SetSourceVolumeByIndex(i, v) && i == device.index
                && stepped_up(device.volume@, v@, delta),
    {
        self.increase_device_volume(device, percent_to_native(delta))
    }

    fn increase_device_volume(&mut self, device: &DeviceInfo, step: Volume) -> (call: FlagCall)
        ensures
            *final(self) == *old(self),
            call.flag() is None,
            call.spec_request() matches Request::SetSourceVolumeByIndex(i, v) && i == device.index
                && raised_by(device.volume@, v@, step.0 as int),
    {
        FlagCall::new(Request::SetSourceVolumeByIndex(device.index, device.volume.increase(step)))
    }

    fn decrease_device_volume_by_percent(&mut self, device: &DeviceInfo, delta: u32) -> (call:
        FlagCall)
        ensures
            *final(self) == *old(self),
            call.flag() is None,
            call.spec_request() matches Request::SetSourceVolumeByIndex(i, v) && i == device.index
                && stepped_down(device.volume@, v@, delta),
    {
        self.decrease_device_volume(device, percent_to_native(delta))
    }

    fn decrease_device_volume(&mut self, device: &DeviceInfo, step: Volume) -> (call: FlagCall)
        ensures
            *final(self) == *old(self),
            call.flag() is None,
            call.spec_request() matches Request::SetSourceVolumeByIndex(i, v) && i == device.index
                && lowered_by(device.volume@, v@, step.0 as int),
    {
        FlagCall::new(Request::SetSourceVolumeByIndex(device.index, device.volume.decrease(step)))
    }
}

impl AppControl<ApplicationInfo> for SourceController {
    fn list_applications(&mut self) -> (call: ListCall<ApplicationInfo>)
        ensures
            *final(self) == *old(self),
            call.spec_request() == Request::GetSourceOutputInfoList,
            call.items() == Seq::<ApplicationInfo>::empty(),
            !call.ended(),
            !call.failed(),
    {
        ListCall::new(Request::GetSourceOutputInfoList)
    }

    fn get_app_by_index(&mut self, index: u32) -> (call: ItemCall<ApplicationInfo>)
        ensures
            *final(self) == *old(self),
            call.spec_request() == Request::GetSourceOutputInfo(index),
            call.item() is None,
            !call.failed(),
    {
        ItemCall::new(Request::GetSourceOutputInfo(index))
    }

    fn increase_app_volume_by_percent(&mut self, app: &ApplicationInfo, delta: u32) -> (call:
        FlagCall)
        ensures
            *final(self) == *old(self),
            call.flag() is None,
            call.spec_request() matches Request::SetSourceOutputVolume(i, v) && i == app.index
                && stepped_up(app.volume@, v@, delta),
    {
        self.increase_app_volume(app, percent_to_native(delta))
    }

    fn increase_app_volume(&mut self, app: &ApplicationInfo, step: Volume) -> (call: FlagCall)
        ensures
            *final(self) == *old(self),
            call.flag() is None,
            call.spec_request() matches Request::SetSourceOutputVolume(i, v) && i == app.index
                && raised_by(app.volume@, v@, step.0 as int),
    {
        FlagCall::new(Request::SetSourceOutputVolume(app.index, app.volume.increase(step)))
    }

    fn decrease_app_volume_by_percent(&mut self, app: &ApplicationInfo, delta: u32) -> (call:
        FlagCall)
        ensures
            *final(self) == *old(self),
            call.flag() is None,
            call.spec_request() matches Request::SetSourceOutputVolume(i, v) && i == app.index
                && stepped_down(app.volume@, v@, delta),
    {
        self.decrease_app_volume(app, percent_to_native(delta))
    }

    fn decrease_app_volume(&mut self, app: &ApplicationInfo, step: Volume) -> (call: FlagCall)
        ensures
            *final(self) == *old(self),
            call.flag() is None,
            call.spec_request() matches Request::SetSourceOutputVolume(i, v) && i == app.index
                && lowered_by(app.volume@, v@, step.0 as int),
    {
        FlagCall::new(Request::SetSourceOutputVolume(app.index, app.volume.decrease(step)))
    }

    fn move_app_by_index(&mut self, stream_index: u32, device_index: u32) -> (call: FlagCall)
        ensures
            *final(self) == *old(self),
            call.flag() is None,
            call.spec_request() == Request::MoveSourceOutputByIndex(stream_index, device_index),
    {
        FlagCall::new(Request::MoveSourceOutputByIndex(stream_index, device_index))
    }

    fn move_app_by_name(&mut self, stream_index: u32, device_name: &str) -> (call: FlagCall)
        ensures
            *final(self) == *old(self),
            call.flag() is None,
            call.spec_request() matches Request::MoveSourceOutputByName(i, n) && i == stream_index
                && n@ == device_name@,
    {
        FlagCall::new(Request::MoveSourceOutputByName(stream_index, device_name.to_owned()))
    }

    fn set_app_mute(&mut self, index: u32, mute: bool) -> (call: FlagCall)
        ensures
            *final(self) == *old(self),
            call.flag() is None,
            call.spec_request() == Request::SetSourceOutputMute(index, mute),
    {
        FlagCall::new(Request::SetSourceOutputMute(index, mute))
    }

    fn set_app_mute_by_name(&mut self, name: &str, mute: bool) -> (call: FlagCall)
        ensures
            *final(self) == *old(self),
            call.flag() is None,
            call.spec_request() matches Request::SetSourceMuteByName(n, m) && n@ == name@ && m
                == mute,
    {
        FlagCall::new(Request::SetSourceMuteByName(name.to_owned(), mute))
    }
}

impl AppEvent for SourceController {
    fn subscribe(&mut self, interest_mask: u32) -> (call: FlagCall)
        ensures
            *final(self) == *old(self),
            call.flag() is None,
            call.spec_request() == Request::Subscribe(interest_mask),
    {
        FlagCall::new(Request::Subscribe(interest_mask))
    }

    fn subscribed(&mut self, call: FlagCall, waited: Result<(), OperationError>) -> (r: Result<
        (),
        ControlError,
    >)
        ensures
            final(self).handler == old(self).handler,
            match call.spec_request() {
                Request::Subscribe(mask) => match flag_answer(call.flag(), waited) {
                    Ok(_) => r is Ok && final(self).spec_subscription() == Some(mask),
                    Err(e) => r == Err::<(), ControlError>(e) && final(self).spec_subscription()
                        == old(self).spec_subscription(),
                },
                _ => r == Err::<(), ControlError>(ControlError::SetFailed)
                    && final(self).spec_subscription() == old(self).spec_subscription(),
            },
    {
        let mask: Option<u32> = match call.request() {
            Request::Subscribe(mask) => Some(*mask),
            _ => None,
        };
        let answer = call.finish(waited);
        match (mask, answer) {
            (Some(mask), Ok(_)) => {
                self.subscription = Some(mask);
                Ok(())
            },
            (Some(_), Err(e)) => Err(e),
            (None, _) => Err(ControlError::SetFailed),
        }
    }

    fn on_event(&self, code: u32, index: u32) -> (event: Option<Event>)
        ensures
            event == match self.spec_subscription() {
                Some(mask) => event_for(mask, code, index),
                None => None,
            },
    {
        match self.subscription {
            Some(mask) => dispatch(mask, code, index),
            None => None,
        }
    }
}

} // verus!
