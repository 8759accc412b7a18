use libkoompi::helpers::{Arg, Bus};
use libkoompi::system_settings::devices::brightness::{BDevice, Brightness};
use libkoompi::system_settings::sounds::controllers::request::Request;
use libkoompi::system_settings::sounds::controllers::types::{DeviceInfo, DeviceKind};
use libkoompi::system_settings::sounds::device::Device;
use libkoompi::system_settings::sounds::volume::{ChannelVolumes, Volume, VOLUME_MAX};
use libkoompi::system_settings::theme::{create_dir, reader, writer, Button, Info, Theme};

#[test]
fn level_for_a_percentage_is_rounded_up_to_hundreds() {
    let d = BDevice::new(15000, 0);
    assert_eq!(d.percent_to_value(0), 0);
    assert_eq!(d.percent_to_value(50), 7500);
    assert_eq!(d.percent_to_value(100), 15000);
    assert_eq!(d.percent_to_value(33), 5000);
    assert_eq!(d.percent_to_value(1), 200);
    assert_eq!(BDevice::new(255, 0).percent_to_value(33), 100);
    assert_eq!(BDevice::new(255, 0).percent_to_value(1), 100);
    assert_eq!(BDevice::new(255, 0).percent_to_value(100), 300);
    assert_eq!(BDevice::new(u32::MAX, 0).percent_to_value(200), u32::MAX);
    assert_eq!(BDevice::new(u32::MAX, 0).percent_to_value(u32::MAX), u32::MAX);
    assert_eq!(BDevice::new(0, 0).percent_to_value(100), 0);
}

#[test]
fn percentage_of_a_level() {
    let d = BDevice::new(15000, 7500);
    assert_eq!(d.get_current_level(), 50);
    assert_eq!(d.val_to_percent(7501, true), 50);
    assert_eq!(d.val_to_percent(7501, false), 50);
    assert_eq!(d.val_to_percent(15000, true), 100);
    // within a hundredth under a whole percent
    assert_eq!(d.val_to_percent(14999, true), 100);
    assert_eq!(d.val_to_percent(14999, false), 99);
    assert_eq!(d.val_to_percent(14998, true), 99);
    // the lowest level is shown as one percent
    assert_eq!(d.val_to_percent(0, true), 1);
    assert_eq!(d.val_to_percent(0, false), 1);
    assert_eq!(BDevice::new(0, 0).val_to_percent(5, true), u32::MAX);
    assert_eq!(BDevice::new(1, 0).val_to_percent(u32::MAX, true), u32::MAX);
    assert_eq!(BDevice::new(1, 0).val_to_percent(u32::MAX, false), u32::MAX);
    assert_eq!(d.get_max_bright(), 15000);
    assert_eq!(d.info(), vec![15000, 50]);
}

#[test]
fn brightness_follows_what_was_set() {
    let mut b = Brightness::new(15000, 1500);
    assert_eq!(b.get_percent(), 10);
    assert_eq!(b.get_max_percent(), 15000);
    assert_eq!(b.information(), vec![15000, 10]);
    assert_eq!(b.set_percent(40), 6000);
    assert_eq!(b.get_percent(), 40);
    assert_eq!(b.device.current_brightness, 6000);
    let mut d = BDevice::new(10, 1);
    d.update(7);
    assert_eq!(d, BDevice { id: "intel_backlight", class: "backlight", max_brightness: 10, current_brightness: 7 });
}

#[test]
fn brightness_through_the_login_manager() {
    let call = Brightness::new(100, 1).login1_set_brightness(15000);
    assert_eq!(call.bus, Bus::System);
    assert_eq!(call.service, "org.freedesktop.login1");
    assert_eq!(call.path, "/org/freedesktop/login1/session/auto");
    assert_eq!(call.interface, "org.freedesktop.login1.Session");
    assert_eq!(call.method, "SetBrightness");
    assert_eq!(call.timeout_ms, 100);
    assert_eq!(
        call.args,
        vec![Arg::Text("backlight".into()), Arg::Text("intel_backlight".into()), Arg::U32(15000)]
    );
}

fn volume(levels: &[u32]) -> ChannelVolumes {
    ChannelVolumes::new(levels.iter().map(|v| Volume(*v)).collect()).unwrap()
}

#[test]
fn a_device_shows_the_mean_of_its_channels() {
    let blank = Device::new();
    assert_eq!(blank.volume.len(), 0);
    assert_eq!((blank.volume_avg, blank.volume_percent), (Volume(0), 0));
    assert_eq!(blank.type_t, DeviceKind::Sink);
    let info = DeviceInfo {
        index: 4,
        kind: DeviceKind::Source,
        name: "mic".into(),
        description: "Microphone".into(),
        volume: volume(&[65536, 32768]),
        mute: true,
    };
    let mut device = Device::from_info(info);
    assert_eq!(device.index, 4);
    assert_eq!(device.name, "mic");
    assert!(device.mute);
    assert_eq!(device.volume_avg, Volume(49152));
    assert_eq!(device.volume_percent, 75);
    device.set_volume(volume(&[1, 2, 4]));
    assert_eq!(device.volume_avg, Volume(2));
    assert_eq!(device.volume_percent, 1);
    assert_eq!(device.set_mute(false), Request::SetSourceMuteByIndex(4, false));
}

#[test]
fn a_level_for_all_channels() {
    let info = DeviceInfo {
        index: 2,
        kind: DeviceKind::Sink,
        name: "out".into(),
        description: "Output".into(),
        volume: volume(&[10, 20]),
        mute: false,
    };
    let mut device = Device::from_info(info);
    let mut level = Volume(VOLUME_MAX + 1);
    assert_eq!(device.set_level(&mut level), None);
    assert_eq!(level, Volume(VOLUME_MAX));
    assert!(device.volume.same(&volume(&[10, 20])));
    let mut level = Volume(32768);
    assert_eq!(
        device.set_level(&mut level),
        Some(Request::SetSinkVolumeByIndex(2, volume(&[32768, 32768])))
    );
    assert_eq!(level, Volume(32768));
    assert!(device.volume.same(&volume(&[32768, 32768])));
    assert_eq!(device.volume_percent, 50);
    assert_eq!(device.set_mute(true), Request::SetSinkMuteByIndex(2, true));
}

#[test]
fn themes() {
    let theme = Theme::default();
    assert_eq!(theme.info, Info { name: "KOOMPI".into(), desc: "Theme for KOOMPI OS".into() });
    assert_eq!(theme.button, Button { border: 0, backgroud: String::new(), color: String::new() });
    assert_eq!(create_dir("/home/a"), "/home/a/.config/koompi/theme");
    assert_eq!(reader("/home/a", "theme.conf"), "/home/a/.config/koompi/theme/theme.conf");
    assert_eq!(writer("/home/a", "dark/theme.conf"), "/home/a/.config/koompi/theme/dark/theme.conf");
    assert_eq!(reader("/home/a", "/etc/theme.conf"), "/etc/theme.conf");
}
