use libkoompi::helpers::{Arg, Bus, Command};
use libkoompi::system_settings::network::accesspoint::{is_wireless, DEVICE_TYPE_WIFI};
use libkoompi::system_settings::network::network_manager::{enable, NetworkManager};
use libkoompi::system_settings::network::service::{
    get_service_state, handler, is_unit_signal, on_property, start_service, stop_service,
    ServiceStep, WaitPlan,
};
use libkoompi::system_settings::network::types::{
    ActiveConnectionState, ConnectionState, Connectivity as Reach, ServiceState,
};
use libkoompi::system_settings::network::wifi::{
    Connectivity, WifiConnectionError, WifiError, WifiInterface,
};
use libkoompi::system_settings::network::{
    AccessPoint, OrgFreedesktopNetworkManagerCheckPermissions,
    OrgFreedesktopNetworkManagerSettingsConnectionRemoved,
    OrgFreedesktopNetworkManagerSettingsConnectionUpdated,
    OrgFreedesktopNetworkManagerStateChanged, Wifi,
};

fn nmcli(args: &[&str]) -> Command {
    Command::new("nmcli", args.iter().map(|s| s.to_string()).collect())
}

#[test]
fn wifi_switch() {
    assert!(Wifi::is_wifi_enabled("enabled\n"));
    assert!(Wifi::is_wifi_enabled("en abl\ned"));
    assert!(!Wifi::is_wifi_enabled("disabled\n"));
    assert!(!Wifi::is_wifi_enabled(""));
    assert_eq!(Wifi::radio_command(), nmcli(&["radio", "wifi"]));
    assert_eq!(Wifi::turn_on(), nmcli(&["radio", "wifi", "on"]));
    assert_eq!(Wifi::turn_off(), nmcli(&["radio", "wifi", "off"]));
}

#[test]
fn wifi_connect_needs_the_interface_switched_on() {
    let mut wifi = Wifi::default();
    assert_eq!(
        wifi.connect("Koompi OS", "Hi@Koompi1", Ok(true)),
        Ok(nmcli(&["d", "wifi", "connect", "Koompi OS", "password", "Hi@Koompi1"]))
    );
    assert_eq!(
        wifi.connect("Koompi OS", "Hi@Koompi1", Ok(false)),
        Err(WifiConnectionError::Other { kind: WifiError::WifiDisabled })
    );
    assert_eq!(
        wifi.connect("Koompi OS", "Hi@Koompi1", Err(WifiError::IoError("no nmcli".into()))),
        Err(WifiConnectionError::Other { kind: WifiError::IoError("no nmcli".into()) })
    );
    assert_eq!(wifi.disconnect("Koompi OS"), nmcli(&["connection", "down", "Koompi OS"]));
    assert!(Wifi::connected("Device 'wlan0' successfully activated with 'x'."));
    assert!(!Wifi::connected("Error: No network with SSID 'x' found."));
    assert!(Wifi::disconnected("Connection 'x' successfully deactivated"));
    assert!(!Wifi::disconnected("successfully activated"));
}

#[test]
fn networks_in_reach_are_sorted() {
    let mut nm = NetworkManager::new();
    assert_eq!((nm.ssid, nm.signal), ("", 0));
    assert_eq!(
        NetworkManager::access_points_command(),
        nmcli(&["-f", "SSID", "device", "wifi", "list"])
    );
    assert_eq!(
        nm.get_access_points("SSID\nKoompi\n--\nAlpha\nKoompi\n"),
        vec!["--", "Alpha", "Koompi", "Koompi", "SSID"]
    );
    assert_eq!(nm.get_access_points(""), Vec::<String>::new());
    let call = enable(true);
    assert_eq!((call.bus, call.method.as_str(), call.timeout_ms), (Bus::System, "Enable", 1000));
    assert_eq!(call.args, vec![Arg::Bool(true)]);
    assert_eq!(call.service, "org.freedesktop.NetworkManager");
}

#[test]
fn access_points() {
    let point = AccessPoint::new("Koompi".into(), "00:11".into(), 80);
    assert_eq!(
        point,
        AccessPoint { ssid: "Koompi".into(), hwaddress: "00:11".into(), strenght: 80, ..AccessPoint::default() }
    );
    assert!(is_wireless(2));
    assert!(!is_wireless(1));
    assert_eq!(DEVICE_TYPE_WIFI, 2);
}

#[test]
fn states_and_their_numbers() {
    assert_eq!(ConnectionState::Unknown.code(), 0);
    assert_eq!(ConnectionState::Deactivated.code(), 4);
    assert_eq!(ConnectionState::from_code(2), Some(ConnectionState::Activated));
    assert_eq!(ConnectionState::from_code(5), None);
    for code in 0..5 {
        assert_eq!(ConnectionState::from_code(code).unwrap().code(), code);
    }
    assert_eq!(ActiveConnectionState::Activating.code(), 1);
    assert_eq!(ActiveConnectionState::Deactivating.code(), 3);
    assert_ne!(Reach::Nothing, Reach::Full);
    assert_eq!(ServiceState::parse("active"), Some(ServiceState::Active));
    assert_eq!(ServiceState::parse("reloading"), Some(ServiceState::Reloading));
    assert_eq!(ServiceState::parse("inactive"), Some(ServiceState::Inactive));
    assert_eq!(ServiceState::parse("failed"), Some(ServiceState::Failed));
    assert_eq!(ServiceState::parse("activating"), Some(ServiceState::Activating));
    assert_eq!(ServiceState::parse("deactivating"), Some(ServiceState::Deactivating));
    assert_eq!(ServiceState::parse("Active"), None);
    assert_eq!(ServiceState::parse(""), None);
}

fn unit_call(method: &str, args: &[&str]) -> libkoompi::helpers::MethodCall {
    let mut call = libkoompi::helpers::MethodCall::new(
        Bus::System,
        "org.freedesktop.systemd1",
        "/org/freedesktop/systemd1",
        "org.freedesktop.systemd1.Manager",
        method,
        2000,
    );
    for a in args {
        call = call.with_arg(Arg::Text(a.to_string()));
    }
    call
}

#[test]
fn starting_and_stopping_the_service() {
    assert_eq!(get_service_state(), unit_call("GetUnit", &["NetworkManager.service"]));
    assert_eq!(start_service(ServiceState::Active), ServiceStep::Done(ServiceState::Active));
    assert_eq!(start_service(ServiceState::Activating), ServiceStep::Wait(ServiceState::Active));
    assert_eq!(start_service(ServiceState::Failed), ServiceStep::Fail);
    let start = ServiceStep::Call(
        unit_call("StartUnit", &["NetworkManager.service", "fail"]),
        ServiceState::Active,
    );
    assert_eq!(start_service(ServiceState::Inactive), start);
    assert_eq!(start_service(ServiceState::Deactivating), start);
    assert_eq!(start_service(ServiceState::Reloading), start);
    assert_eq!(stop_service(ServiceState::Inactive), ServiceStep::Done(ServiceState::Inactive));
    assert_eq!(stop_service(ServiceState::Deactivating), ServiceStep::Wait(ServiceState::Inactive));
    assert_eq!(stop_service(ServiceState::Failed), ServiceStep::Fail);
    let stop = ServiceStep::Call(
        unit_call("StopUnit", &["NetworkManager.service", "fail"]),
        ServiceState::Inactive,
    );
    assert_eq!(stop_service(ServiceState::Active), stop);
    assert_eq!(stop_service(ServiceState::Activating), stop);
    assert_eq!(handler(0, ServiceState::Active), WaitPlan::AskOnce);
    assert_eq!(handler(15, ServiceState::Inactive), WaitPlan::Watch(ServiceState::Inactive, 15));
}

#[test]
fn signals_of_the_unit() {
    let path = "/org/freedesktop/systemd1/unit/NetworkManager_2eservice";
    assert!(is_unit_signal("org.freedesktop.DBus.Properties", "PropertiesChanged", path));
    assert!(!is_unit_signal("org.freedesktop.DBus.Properties", "PropertiesChanged", "/other"));
    assert!(!is_unit_signal("org.freedesktop.DBus.Properties", "Changed", path));
    assert!(!is_unit_signal("org.freedesktop.systemd1.Unit", "PropertiesChanged", path));
    let unit = "org.freedesktop.systemd1.Unit";
    assert_eq!(on_property(ServiceState::Active, unit, "ActiveState", "active"), Some(Ok(true)));
    assert_eq!(on_property(ServiceState::Active, unit, "ActiveState", "activating"), Some(Ok(false)));
    assert_eq!(on_property(ServiceState::Active, unit, "ActiveState", "ready"), Some(Err(())));
    assert_eq!(on_property(ServiceState::Active, unit, "SubState", "active"), None);
    assert_eq!(on_property(ServiceState::Active, "other", "ActiveState", "active"), None);
}

#[test]
fn names_of_signals() {
    assert_eq!(OrgFreedesktopNetworkManagerCheckPermissions::name(), "CheckPermissions");
    assert_eq!(
        OrgFreedesktopNetworkManagerCheckPermissions::interface(),
        "org.freedesktop.NetworkManager"
    );
    assert_eq!(OrgFreedesktopNetworkManagerStateChanged::name(), "StateChanged");
    assert_eq!(
        OrgFreedesktopNetworkManagerStateChanged::interface(),
        "org.freedesktop.NetworkManager"
    );
    assert_eq!(OrgFreedesktopNetworkManagerStateChanged { state: 70 }.state, 70);
    assert_eq!(OrgFreedesktopNetworkManagerSettingsConnectionUpdated::name(), "Updated");
    assert_eq!(OrgFreedesktopNetworkManagerSettingsConnectionRemoved::name(), "Removed");
    assert_eq!(
        OrgFreedesktopNetworkManagerSettingsConnectionRemoved::interface(),
        "org.freedesktop.NetworkManager.Settings.Connection"
    );
    assert_eq!(
        OrgFreedesktopNetworkManagerSettingsConnectionUpdated::interface(),
        "org.freedesktop.NetworkManager.Settings.Connection"
    );
}
