use libkoompi::system_settings::sounds::controllers::calls::{
    absent, FlagCall, ItemCall, ListCall, ListResult,
};
use libkoompi::system_settings::sounds::controllers::request::Request;
use libkoompi::system_settings::sounds::controllers::types::{
    ApplicationInfo, DeviceInfo, DeviceKind, PortInfo, ProfileInfo, ServerInfo, SoundCardInfo,
};
use libkoompi::system_settings::sounds::controllers::{
    AppControl, AppEvent, DeviceControl, SinkController, SoundCard, SoundPort, SourceController,
};
use libkoompi::system_settings::sounds::errors::ControlError;
use libkoompi::system_settings::sounds::operation::{
    IterateResult, OperationError, OperationState, Round,
};
use libkoompi::system_settings::sounds::pulseaudio::State;
use libkoompi::system_settings::sounds::subscribe::{Event, Facility, Operation, MASK_WATCHED};
use libkoompi::system_settings::sounds::volume::{
    native_to_percent, percent_to_native, ChannelVolumes, Volume,
};

/// A server as a test sees it: what it holds, and how it answers.
struct Server {
    sinks: Vec<DeviceInfo>,
    inputs: Vec<ApplicationInfo>,
    cards: Vec<SoundCardInfo>,
}

fn volume(levels: &[u32]) -> ChannelVolumes {
    ChannelVolumes::new(levels.iter().map(|v| Volume(*v)).collect()).unwrap()
}

fn sink(index: u32, name: &str, levels: &[u32]) -> DeviceInfo {
    DeviceInfo {
        index,
        kind: DeviceKind::Sink,
        name: name.to_string(),
        description: format!("{} (built-in)", name),
        volume: volume(levels),
        mute: false,
    }
}

fn card() -> SoundCardInfo {
    SoundCardInfo {
        index: 0,
        name: "alsa_card.pci".to_string(),
        driver: "module-alsa-card.c".to_string(),
        ports: vec![PortInfo {
            name: "analog-output".to_string(),
            description: "Line Out".to_string(),
        }],
        profiles: vec![
            ProfileInfo { name: "output:analog-stereo".to_string(), description: "Stereo".to_string() },
            ProfileInfo { name: "off".to_string(), description: "Off".to_string() },
        ],
        active_profile: Some("output:analog-stereo".to_string()),
    }
}

fn server() -> Server {
    Server {
        sinks: vec![sink(0, "Speakers", &[30000, 30000]), sink(1, "Headphones", &[10000, 12000])],
        inputs: vec![
            ApplicationInfo { index: 3, volume: volume(&[65536]), mute: false, owning_device_index: Some(0) },
            ApplicationInfo { index: 7, volume: volume(&[100, 200]), mute: true, owning_device_index: None },
        ],
        cards: vec![card()],
    }
}

fn copy_app(app: &ApplicationInfo) -> ApplicationInfo {
    ApplicationInfo {
        index: app.index,
        volume: app.volume.duplicate(),
        mute: app.mute,
        owning_device_index: app.owning_device_index,
    }
}

fn copy_card(card: &SoundCardInfo) -> SoundCardInfo {
    SoundCardInfo {
        index: card.index,
        name: card.name.clone(),
        driver: card.driver.clone(),
        ports: card.ports.iter().map(|p| PortInfo { name: p.name.clone(), description: p.description.clone() }).collect(),
        profiles: card.profiles.iter().map(|p| ProfileInfo { name: p.name.clone(), description: p.description.clone() }).collect(),
        active_profile: card.active_profile.clone(),
    }
}

impl Server {
    fn devices(&self, request: &Request) -> Vec<ListResult<DeviceInfo>> {
        let found: Vec<&DeviceInfo> = match request {
            Request::GetSinkInfoList => self.sinks.iter().collect(),
            Request::GetSinkInfoByIndex(i) => self.sinks.iter().filter(|d| d.index == *i).collect(),
            Request::GetSinkInfoByName(n) => self.sinks.iter().filter(|d| d.name == *n).collect(),
            _ => return vec![ListResult::Error],
        };
        let mut events: Vec<ListResult<DeviceInfo>> =
            found.into_iter().map(|d| ListResult::Item(d.duplicate())).collect();
        events.push(ListResult::End);
        events
    }

    fn apps(&self, request: &Request) -> Vec<ListResult<ApplicationInfo>> {
        let found: Vec<&ApplicationInfo> = match request {
            Request::GetSinkInputInfoList => self.inputs.iter().collect(),
            Request::GetSinkInputInfo(i) => self.inputs.iter().filter(|a| a.index == *i).collect(),
            _ => return vec![ListResult::Error],
        };
        let mut events: Vec<ListResult<ApplicationInfo>> =
            found.into_iter().map(|a| ListResult::Item(copy_app(a))).collect();
        events.push(ListResult::End);
        events
    }

    fn card_infos(&self, request: &Request) -> Vec<ListResult<SoundCardInfo>> {
        let found: Vec<&SoundCardInfo> = match request {
            Request::GetCardInfoList => self.cards.iter().collect(),
            Request::GetCardInfoByIndex(i) => self.cards.iter().filter(|c| c.index == *i).collect(),
            Request::GetCardInfoByName(n) => self.cards.iter().filter(|c| c.name == *n).collect(),
            _ => return vec![ListResult::Error],
        };
        let mut events: Vec<ListResult<SoundCardInfo>> =
            found.into_iter().map(|c| ListResult::Item(copy_card(c))).collect();
        events.push(ListResult::End);
        events
    }

    fn change(&mut self, request: &Request) -> bool {
        match request {
            Request::SetSinkVolumeByIndex(i, v) => {
                match self.sinks.iter_mut().find(|d| d.index == *i) {
                    Some(d) if d.volume.len() == v.len() => {
                        d.volume = v.duplicate();
                        true
                    }
                    _ => false,
                }
            }
            Request::SetSinkInputMute(i, mute) => {
                match self.inputs.iter_mut().find(|a| a.index == *i) {
                    Some(a) => {
                        a.mute = *mute;
                        true
                    }
                    None => false,
                }
            }
            Request::SetCardProfileByIndex(i, profile) => {
                match self.cards.iter_mut().find(|c| c.index == *i) {
                    Some(c) if c.has_profile(profile) => {
                        c.active_profile = Some(profile.clone());
                        true
                    }
                    _ => false,
                }
            }
            Request::SetSinkPortByIndex(_, port) => self.cards.iter().any(|c| c.has_port(port)),
            _ => false,
        }
    }
}

fn list_devices(server: &Server, mut call: ListCall<DeviceInfo>) -> Result<Vec<DeviceInfo>, ControlError> {
    for event in server.devices(call.request()) {
        call.on_result(event);
    }
    call.finish(Ok(()))
}

fn get_device(server: &Server, mut call: ItemCall<DeviceInfo>) -> Result<DeviceInfo, ControlError> {
    for event in server.devices(call.request()) {
        call.on_result(event);
    }
    call.finish(Ok(()))
}

fn get_app(server: &Server, mut call: ItemCall<ApplicationInfo>) -> Result<ApplicationInfo, ControlError> {
    for event in server.apps(call.request()) {
        call.on_result(event);
    }
    call.finish(Ok(()))
}

fn get_card(server: &Server, mut call: ItemCall<SoundCardInfo>) -> Result<SoundCardInfo, ControlError> {
    for event in server.card_infos(call.request()) {
        call.on_result(event);
    }
    call.finish(Ok(()))
}

fn set(server: &mut Server, mut call: FlagCall) -> Result<bool, ControlError> {
    let success = server.change(call.request());
    call.on_success(success);
    call.finish(Ok(()))
}

#[test]
fn list_then_select() {
    let server = server();
    let mut ctl = SinkController::create();
    let devices = list_devices(&server, ctl.list_devices()).unwrap();
    assert_eq!(devices.len(), 2);
    assert_eq!((devices[0].index, devices[0].name.as_str()), (0, "Speakers"));
    assert_eq!((devices[1].index, devices[1].name.as_str()), (1, "Headphones"));
    let headphones = get_device(&server, ctl.get_device_by_name("Headphones")).unwrap();
    assert_eq!(headphones, sink(1, "Headphones", &[10000, 12000]));
}

#[test]
fn set_volume_then_get_shows_the_volume() {
    let mut server = server();
    let mut ctl = SinkController::create();
    let half = ChannelVolumes::uniform(2, percent_to_native(50)).unwrap();
    assert_eq!(set(&mut server, ctl.set_device_volume_by_index(1, &half)), Ok(true));
    let device = get_device(&server, ctl.get_device_by_index(1)).unwrap();
    assert!(device.volume.same(&half));
    assert_eq!(device.volume.percent(), 50);
    assert_eq!(native_to_percent(device.volume.avg()), 50);
}

#[test]
fn set_volume_with_the_wrong_channels_fails() {
    let mut server = server();
    let mut ctl = SinkController::create();
    let mono = ChannelVolumes::uniform(1, percent_to_native(50)).unwrap();
    assert_eq!(
        set(&mut server, ctl.set_device_volume_by_index(1, &mono)),
        Err(ControlError::SetFailed)
    );
    let device = get_device(&server, ctl.get_device_by_index(1)).unwrap();
    assert!(device.volume.same(&volume(&[10000, 12000])));
}

#[test]
fn lookup_of_a_missing_device_is_not_found() {
    let server = server();
    let mut ctl = SinkController::create();
    assert_eq!(get_device(&server, ctl.get_device_by_index(9)), Err(ControlError::NotFound));
    assert_eq!(get_device(&server, ctl.get_device_by_name("None")), Err(ControlError::NotFound));
    assert_eq!(get_app(&server, ctl.get_app_by_index(4)), Err(ControlError::NotFound));
    assert_eq!(get_card(&server, ctl.get_sound_card_by_index(5)), Err(ControlError::NotFound));
}

#[test]
fn mute_toggling() {
    let mut server = server();
    let mut ctl = SinkController::create();
    assert_eq!(set(&mut server, ctl.set_app_mute(3, true)), Ok(true));
    assert!(get_app(&server, ctl.get_app_by_index(3)).unwrap().mute);
    assert_eq!(set(&mut server, ctl.set_app_mute(3, false)), Ok(true));
    assert!(!get_app(&server, ctl.get_app_by_index(3)).unwrap().mute);
}

#[test]
fn profile_switch_on_absent_profile() {
    let mut server = server();
    let mut ctl = SinkController::create();
    assert_eq!(
        set(&mut server, ctl.set_card_profile_by_index(0, "nonexistent-profile")),
        Err(ControlError::SetFailed)
    );
    let card = get_card(&server, ctl.get_sound_card_by_index(0)).unwrap();
    assert_eq!(card.active_profile.as_deref(), Some("output:analog-stereo"));
    assert_eq!(set(&mut server, ctl.set_card_profile_by_index(0, "off")), Ok(true));
    let card = get_card(&server, ctl.get_sound_card_by_index(0)).unwrap();
    assert_eq!(card.active_profile.as_deref(), Some("off"));
}

#[test]
fn port_that_the_device_lacks_is_refused() {
    let mut server = server();
    let mut ctl = SinkController::create();
    assert_eq!(
        set(&mut server, ctl.set_sink_port_by_index(0, "hdmi-output")),
        Err(ControlError::SetFailed)
    );
    assert_eq!(set(&mut server, ctl.set_sink_port_by_index(0, "analog-output")), Ok(true));
}

#[test]
fn increase_and_decrease_build_on_the_device_read() {
    let mut server = server();
    let mut ctl = SinkController::create();
    let device = get_device(&server, ctl.get_device_by_index(0)).unwrap();
    let call = ctl.increase_device_volume_by_percent(&device, 10);
    assert_eq!(*call.request(), Request::SetSinkVolumeByIndex(0, volume(&[36554, 36554])));
    assert_eq!(set(&mut server, call), Ok(true));
    let device = get_device(&server, ctl.get_device_by_index(0)).unwrap();
    let call = ctl.decrease_device_volume_by_percent(&device, 100);
    assert_eq!(*call.request(), Request::SetSinkVolumeByIndex(0, volume(&[0, 0])));
    let app = get_app(&server, ctl.get_app_by_index(7)).unwrap();
    assert_eq!(
        *ctl.increase_app_volume_by_percent(&app, 1).request(),
        Request::SetSinkInputVolume(7, volume(&[756, 856]))
    );
    assert_eq!(
        *ctl.decrease_app_volume_by_percent(&app, 1).request(),
        Request::SetSinkInputVolume(7, volume(&[0, 0]))
    );
}

#[test]
fn list_ends_at_the_end_marker() {
    let mut call: ListCall<u32> = ListCall::new(Request::GetSinkInfoList);
    call.on_result(ListResult::Item(1));
    call.on_result(ListResult::Item(2));
    call.on_result(ListResult::End);
    call.on_result(ListResult::Item(3));
    assert_eq!(call.finish(Ok(())), Ok(vec![1, 2]));
    let empty: ListCall<u32> = ListCall::new(Request::GetSinkInfoList);
    assert_eq!(empty.finish(Ok(())), Ok(vec![]));
}

#[test]
fn a_failed_listing_gives_no_info() {
    let mut call: ListCall<u32> = ListCall::new(Request::GetSourceInfoList);
    call.on_result(ListResult::Item(1));
    call.on_result(ListResult::Error);
    call.on_result(ListResult::Item(2));
    assert_eq!(call.finish(Ok(())), Err(ControlError::NoInfo));
    let mut lost: ListCall<u32> = ListCall::new(Request::GetSourceInfoList);
    lost.on_result(ListResult::Item(1));
    assert_eq!(lost.finish(Err(OperationError::Cancelled)), Err(ControlError::NoInfo));
}

#[test]
fn a_lookup_keeps_the_last_item() {
    let mut call: ItemCall<u32> = ItemCall::new(Request::GetSinkInfoByIndex(0));
    call.on_result(ListResult::Item(1));
    call.on_result(ListResult::Item(2));
    call.on_result(ListResult::End);
    assert_eq!(call.finish(Ok(())), Ok(2));
    let mut failed: ItemCall<u32> = ItemCall::new(Request::GetSinkInfoByIndex(0));
    failed.on_result(ListResult::Item(1));
    failed.on_result(ListResult::Error);
    assert_eq!(failed.finish(Ok(())), Err(ControlError::NoInfo));
    let mut lost: ItemCall<u32> = ItemCall::new(Request::GetSinkInfoByIndex(0));
    lost.on_result(ListResult::Item(1));
    assert_eq!(lost.finish(Err(OperationError::Cancelled)), Err(ControlError::NoInfo));
}

#[test]
fn a_change_succeeds_only_on_a_reported_success() {
    let mut ok = FlagCall::new(Request::SetSinkInputMute(1, true));
    ok.on_success(true);
    assert_eq!(ok.finish(Ok(())), Ok(true));
    let mut refused = FlagCall::new(Request::SetSinkInputMute(1, true));
    refused.on_success(false);
    assert_eq!(refused.finish(Ok(())), Err(ControlError::SetFailed));
    let silent = FlagCall::new(Request::SetSinkInputMute(1, true));
    assert_eq!(silent.finish(Ok(())), Err(ControlError::SetFailed));
    let mut lost = FlagCall::new(Request::SetSinkInputMute(1, true));
    lost.on_success(true);
    assert_eq!(lost.finish(Err(OperationError::Cancelled)), Err(ControlError::SetFailed));
    let mut twice = FlagCall::new(Request::SetSinkInputMute(1, true));
    twice.on_success(false);
    twice.on_success(true);
    assert_eq!(twice.finish(Ok(())), Ok(true));
}

#[test]
fn sink_requests() {
    let mut ctl = SinkController::create();
    assert_eq!(ctl.handler.client_name(), "SinkController");
    assert_eq!(ctl.handler.state(), State::Connecting);
    assert_eq!(*ctl.get_server_info().request(), Request::GetServerInfo);
    assert_eq!(*ctl.list_devices().request(), Request::GetSinkInfoList);
    assert_eq!(*ctl.get_device_by_index(4).request(), Request::GetSinkInfoByIndex(4));
    assert_eq!(*ctl.get_device_by_name("a").request(), Request::GetSinkInfoByName("a".into()));
    assert_eq!(*ctl.set_default_device("a").request(), Request::SetDefaultSink("a".into()));
    assert_eq!(
        *ctl.set_device_volume_by_name("a", &volume(&[5])).request(),
        Request::SetSinkVolumeByName("a".into(), volume(&[5]))
    );
    assert_eq!(*ctl.list_applications().request(), Request::GetSinkInputInfoList);
    assert_eq!(*ctl.get_app_by_index(2).request(), Request::GetSinkInputInfo(2));
    assert_eq!(*ctl.move_app_by_index(2, 1).request(), Request::MoveSinkInputByIndex(2, 1));
    assert_eq!(
        *ctl.move_app_by_name(2, "d").request(),
        Request::MoveSinkInputByName(2, "d".into())
    );
    assert_eq!(
        *ctl.set_app_mute_by_name("d", true).request(),
        Request::SetSinkMuteByName("d".into(), true)
    );
    assert_eq!(*ctl.get_card_info_list().request(), Request::GetCardInfoList);
    assert_eq!(
        *ctl.get_sound_card_by_name("c").request(),
        Request::GetCardInfoByName("c".into())
    );
    assert_eq!(
        *ctl.set_card_profile_by_name("c", "p").request(),
        Request::SetCardProfileByName("c".into(), "p".into())
    );
    assert_eq!(
        *ctl.set_sink_port_by_name("d", "p").request(),
        Request::SetSinkPortByName("d".into(), "p".into())
    );
    assert_eq!(
        *ctl.set_source_port_by_name("d", "p").request(),
        Request::SetSourcePortByName("d".into(), "p".into())
    );
    assert_eq!(
        *ctl.set_source_port_by_index(1, "p").request(),
        Request::SetSourcePortByIndex(1, "p".into())
    );
}

#[test]
fn source_requests() {
    let mut ctl = SourceController::create();
    assert_eq!(ctl.handler.client_name(), "SourceController");
    assert_eq!(*ctl.get_server_info().request(), Request::GetServerInfo);
    assert_eq!(*ctl.list_devices().request(), Request::GetSourceInfoList);
    assert_eq!(*ctl.get_device_by_index(4).request(), Request::GetSourceInfoByIndex(4));
    assert_eq!(*ctl.get_device_by_name("a").request(), Request::GetSourceInfoByName("a".into()));
    assert_eq!(*ctl.set_default_device("a").request(), Request::SetDefaultSource("a".into()));
    assert_eq!(
        *ctl.set_device_volume_by_index(3, &volume(&[5])).request(),
        Request::SetSourceVolumeByIndex(3, volume(&[5]))
    );
    assert_eq!(*ctl.list_applications().request(), Request::GetSourceOutputInfoList);
    assert_eq!(*ctl.get_app_by_index(2).request(), Request::GetSourceOutputInfo(2));
    assert_eq!(*ctl.set_app_mute(2, true).request(), Request::SetSourceOutputMute(2, true));
    assert_eq!(*ctl.move_app_by_index(2, 1).request(), Request::MoveSourceOutputByIndex(2, 1));
    assert_eq!(
        *ctl.set_app_mute_by_name("d", false).request(),
        Request::SetSourceMuteByName("d".into(), false)
    );
}

#[test]
fn default_device_is_looked_up_by_the_name_the_server_gives() {
    let mut info = ServerInfo::new();
    let mut sink_ctl = SinkController::create();
    let mut source_ctl = SourceController::create();
    assert_eq!(
        sink_ctl.get_default_device(&info).map(|_| ()),
        Err(ControlError::NoInfo)
    );
    info.default_sink_name = Some("Speakers".to_string());
    let call = sink_ctl.get_default_device(&info).unwrap();
    assert_eq!(*call.request(), Request::GetSinkInfoByName("Speakers".into()));
    assert_eq!(get_device(&server(), call).unwrap().index, 0);
    assert_eq!(
        source_ctl.get_default_device(&info).map(|_| ()),
        Err(ControlError::NoInfo)
    );
    info.default_source_name = Some("Mic".to_string());
    assert_eq!(
        *source_ctl.get_default_device(&info).unwrap().request(),
        Request::GetSourceInfoByName("Mic".into())
    );
}

#[test]
fn events_are_handed_on_once_subscribed() {
    let mut ctl = SourceController::create();
    assert_eq!(ctl.on_event(0x11, 5), None);
    let mut call = ctl.subscribe(MASK_WATCHED);
    assert_eq!(*call.request(), Request::Subscribe(0x2AB));
    call.on_success(false);
    assert_eq!(ctl.subscribed(call, Ok(())), Err(ControlError::SetFailed));
    assert_eq!(ctl.subscription(), None);
    let mut call = ctl.subscribe(MASK_WATCHED);
    call.on_success(true);
    assert_eq!(ctl.subscribed(call, Ok(())), Ok(()));
    assert_eq!(ctl.subscription(), Some(MASK_WATCHED));
    assert_eq!(
        ctl.on_event(0x11, 5),
        Some(Event { facility: Facility::Source, operation: Operation::Changed, index: 5 })
    );
    assert_eq!(
        ctl.on_event(0x29, 0),
        Some(Event { facility: Facility::Card, operation: Operation::Removed, index: 0 })
    );
    assert_eq!(
        ctl.on_event(0x07, 1),
        Some(Event { facility: Facility::Server, operation: Operation::New, index: 1 })
    );
    // playback streams are not watched, and some codes name nothing
    assert_eq!(ctl.on_event(0x02, 1), None);
    assert_eq!(ctl.on_event(0x08, 1), None);
    assert_eq!(ctl.on_event(0x31, 1), None);
    // a call that is no subscription changes nothing
    let mut other = ctl.set_app_mute(1, true);
    other.on_success(true);
    assert_eq!(ctl.subscribed(other, Ok(())), Err(ControlError::SetFailed));
    assert_eq!(ctl.subscription(), Some(MASK_WATCHED));
    // a second subscription takes the place of the first
    let mut call = ctl.subscribe(0x1);
    call.on_success(true);
    assert_eq!(ctl.subscribed(call, Ok(())), Ok(()));
    assert_eq!(ctl.on_event(0x11, 5), None);
    assert_eq!(
        ctl.on_event(0x20, 2),
        Some(Event { facility: Facility::Sink, operation: Operation::Removed, index: 2 })
    );
    ctl.unsubscribe();
    assert_eq!(ctl.on_event(0x20, 2), None);
}

#[test]
fn error_messages() {
    assert_eq!(ControlError::NotFound.message(), "no such item");
    assert_eq!(ControlError::NoInfo.message(), "no information from the server");
    assert_eq!(ControlError::SetFailed.message(), "the server refused the change");
}

fn round(iterated: IterateResult, state: OperationState) -> Round {
    Round { iterated, state }
}

#[test]
fn a_call_does_not_return_while_the_operation_is_running() {
    let running = vec![
        round(IterateResult::Success(1), OperationState::Running),
        round(IterateResult::Success(0), OperationState::Running),
    ];
    let lookup: ItemCall<u32> = ItemCall::new(Request::GetSinkInfoByIndex(0));
    let reports = vec![ListResult::Item(1), ListResult::End];
    assert_eq!(lookup.complete(reports, OperationState::Running, &running), None);
    let listing: ListCall<u32> = ListCall::new(Request::GetSinkInfoList);
    assert_eq!(listing.complete(vec![ListResult::End], OperationState::Running, &vec![]), None);
    let change = FlagCall::new(Request::SetSinkInputMute(0, true));
    assert_eq!(change.complete(Some(true), OperationState::Running, &running), None);
}

#[test]
fn a_whole_call_gives_its_answer_when_the_operation_is_done() {
    let done = vec![
        round(IterateResult::Success(1), OperationState::Running),
        round(IterateResult::Success(2), OperationState::Done),
    ];
    let lost = vec![
        round(IterateResult::Success(1), OperationState::Running),
        round(IterateResult::Quit(0), OperationState::Done),
    ];
    let lookup = || -> ItemCall<u32> { ItemCall::new(Request::GetSinkInfoByIndex(0)) };
    let found = vec![ListResult::Item(1), ListResult::Item(2), ListResult::End];
    assert_eq!(lookup().complete(found, OperationState::Running, &done), Some(Ok(2)));
    assert_eq!(
        lookup().complete(vec![ListResult::End], OperationState::Running, &done),
        Some(Err(ControlError::NotFound))
    );
    assert_eq!(
        lookup().complete(vec![], OperationState::Done, &vec![]),
        Some(Err(ControlError::NotFound))
    );
    assert_eq!(
        lookup().complete(vec![ListResult::Item(1), ListResult::Error], OperationState::Running, &done),
        Some(Err(ControlError::NoInfo))
    );
    assert_eq!(
        lookup().complete(vec![ListResult::Item(1)], OperationState::Running, &lost),
        Some(Err(ControlError::NoInfo))
    );
    assert_eq!(
        lookup().complete(vec![ListResult::Item(1)], OperationState::Cancelled, &done),
        Some(Err(ControlError::NoInfo))
    );
    let listing = || -> ListCall<u32> { ListCall::new(Request::GetSinkInfoList) };
    let listed = vec![ListResult::Item(7), ListResult::Item(8), ListResult::End, ListResult::Item(9)];
    assert_eq!(listing().complete(listed, OperationState::Running, &done), Some(Ok(vec![7, 8])));
    assert_eq!(
        listing().complete(vec![ListResult::Item(7)], OperationState::Running, &lost),
        Some(Err(ControlError::NoInfo))
    );
    let change = || FlagCall::new(Request::SetSinkInputMute(0, true));
    assert_eq!(change().complete(Some(true), OperationState::Running, &done), Some(Ok(true)));
    assert_eq!(
        change().complete(Some(false), OperationState::Running, &done),
        Some(Err(ControlError::SetFailed))
    );
    assert_eq!(
        change().complete(None, OperationState::Running, &done),
        Some(Err(ControlError::SetFailed))
    );
    assert_eq!(
        change().complete(Some(true), OperationState::Running, &lost),
        Some(Err(ControlError::SetFailed))
    );
}

#[test]
fn reports_are_taken_in_in_turn() {
    let mut listing: ListCall<u32> = ListCall::new(Request::GetCardInfoList);
    listing.feed(vec![ListResult::Item(1)]);
    listing.feed(vec![ListResult::Item(2), ListResult::End, ListResult::Item(3)]);
    assert_eq!(listing.finish(Ok(())), Ok(vec![1, 2]));
    let mut lookup: ItemCall<u32> = ItemCall::new(Request::GetCardInfoByIndex(0));
    lookup.feed(vec![ListResult::End, ListResult::Item(4)]);
    assert_eq!(lookup.finish(Ok(())), Ok(4));
}

#[test]
fn server_info_that_does_not_arrive_is_no_info() {
    let done = vec![round(IterateResult::Success(1), OperationState::Done)];
    let lost = vec![round(IterateResult::Failed(-1), OperationState::Running)];
    let mut sink_ctl = SinkController::create();
    let mut source_ctl = SourceController::create();
    // the operation is done and the callback never ran
    assert_eq!(sink_ctl.get_server_info().finish(Ok(())), Err(ControlError::NoInfo));
    assert_eq!(source_ctl.get_server_info().finish(Ok(())), Err(ControlError::NoInfo));
    assert_eq!(
        sink_ctl.get_server_info().complete(vec![], OperationState::Running, &done),
        Some(Err(ControlError::NoInfo))
    );
    assert_eq!(
        source_ctl.get_server_info().complete(vec![ListResult::End], OperationState::Done, &vec![]),
        Some(Err(ControlError::NoInfo))
    );
    // the connection is lost during the wait
    let mut info = ServerInfo::new();
    info.default_sink_name = Some("Speakers".to_string());
    assert_eq!(
        sink_ctl.get_server_info().complete(
            vec![ListResult::Item(info)],
            OperationState::Running,
            &lost
        ),
        Some(Err(ControlError::NoInfo))
    );
    assert_eq!(
        source_ctl.get_server_info().finish(Err(OperationError::Cancelled)),
        Err(ControlError::NoInfo)
    );
    // the answer arrives
    let mut info = ServerInfo::new();
    info.default_source_name = Some("Mic".to_string());
    let mut call = source_ctl.get_server_info();
    call.on_result(ListResult::Item(info));
    let answer = call.finish(Ok(())).unwrap();
    assert_eq!(answer.default_source_name.as_deref(), Some("Mic"));
    assert_eq!(answer.default_sink_name, None);
}

#[test]
fn the_error_for_nothing_follows_the_request() {
    assert_eq!(absent(&Request::GetServerInfo), ControlError::NoInfo);
    assert_eq!(absent(&Request::GetSinkInfoList), ControlError::NoInfo);
    assert_eq!(absent(&Request::Subscribe(1)), ControlError::NoInfo);
    assert_eq!(absent(&Request::GetSinkInfoByIndex(0)), ControlError::NotFound);
    assert_eq!(absent(&Request::GetSinkInfoByName("a".into())), ControlError::NotFound);
    assert_eq!(absent(&Request::GetSourceInfoByIndex(0)), ControlError::NotFound);
    assert_eq!(absent(&Request::GetSourceInfoByName("a".into())), ControlError::NotFound);
    assert_eq!(absent(&Request::GetSinkInputInfo(0)), ControlError::NotFound);
    assert_eq!(absent(&Request::GetSourceOutputInfo(0)), ControlError::NotFound);
    assert_eq!(absent(&Request::GetCardInfoByIndex(0)), ControlError::NotFound);
    assert_eq!(absent(&Request::GetCardInfoByName("a".into())), ControlError::NotFound);
}

#[test]
fn steps_in_the_encoding_of_the_server() {
    let server = server();
    let mut sink_ctl = SinkController::create();
    let mut source_ctl = SourceController::create();
    let device = get_device(&server, sink_ctl.get_device_by_index(1)).unwrap();
    // less than one percent
    assert_eq!(
        *sink_ctl.increase_device_volume(&device, Volume(327)).request(),
        Request::SetSinkVolumeByIndex(1, volume(&[10327, 12327]))
    );
    assert_eq!(
        *sink_ctl.decrease_device_volume(&device, Volume(11000)).request(),
        Request::SetSinkVolumeByIndex(1, volume(&[0, 1000]))
    );
    assert_eq!(
        *source_ctl.increase_device_volume(&device, Volume(u32::MAX)).request(),
        Request::SetSourceVolumeByIndex(1, volume(&[0x7FFF_FFFF, 0x7FFF_FFFF]))
    );
    assert_eq!(
        *source_ctl.decrease_device_volume(&device, Volume(1)).request(),
        Request::SetSourceVolumeByIndex(1, volume(&[9999, 11999]))
    );
    let app = get_app(&server, sink_ctl.get_app_by_index(7)).unwrap();
    assert_eq!(
        *sink_ctl.increase_app_volume(&app, Volume(5)).request(),
        Request::SetSinkInputVolume(7, volume(&[105, 205]))
    );
    assert_eq!(
        *sink_ctl.decrease_app_volume(&app, Volume(150)).request(),
        Request::SetSinkInputVolume(7, volume(&[0, 50]))
    );
    assert_eq!(
        *source_ctl.increase_app_volume(&app, Volume(0)).request(),
        Request::SetSourceOutputVolume(7, volume(&[100, 200]))
    );
    assert_eq!(
        *source_ctl.decrease_app_volume(&app, Volume(100)).request(),
        Request::SetSourceOutputVolume(7, volume(&[0, 100]))
    );
    assert_eq!(
        *source_ctl.increase_device_volume_by_percent(&device, 1).request(),
        *source_ctl.increase_device_volume(&device, Volume(656)).request()
    );
}
