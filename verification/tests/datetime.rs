use libkoompi::helpers::Command;
use libkoompi::system_settings::datetime::{DateTimeManager, ZoneGroup};

const SHOW: &str = "Timezone=Asia/Bangkok\nLocalRTC=no\nCanNTP=yes\nNTP=yes\n\
NTPSynchronized=yes\nTimeUSec=Wed 2026-10-28 22:11:00 +07\nRTCTimeUSec=Wed 2026-10-28 15:11:00 UTC\n";

const ZONES: &str = "Africa/Abidjan\nAsia/Bangkok\n  Europe/Paris  \nAsia/Tokyo\nUTC\n";

fn args(list: &[&str]) -> Vec<String> {
    list.iter().map(|s| s.to_string()).collect()
}

fn group(continent: &str, cities: &[&str]) -> ZoneGroup {
    ZoneGroup { continent: continent.to_string(), cities: args(cities) }
}

#[test]
fn test_dt_manager() {
    let mut dt_mn = DateTimeManager::new(SHOW, ZONES);
    let without_ntp = SHOW.replace("NTP=yes", "NTP=no");
    let res = dt_mn.set_ntp(false, &without_ntp);
    if res {
        assert_eq!(*dt_mn.ntp(), false)
    }

    let moved = without_ntp.replace("Timezone=Asia/Bangkok", "Timezone=Phnom_Penh");
    let res = dt_mn.set_timezone("Asia/Phnom_Penh", &moved);
    if res {
        println!("{}", *dt_mn.timezone());
    }
    println!("{:#?}", dt_mn.list_timezones());
    assert_eq!(*dt_mn.timezone(), "Phnom_Penh");
}

#[test]
fn new_reads_the_settings() {
    let dt = DateTimeManager::new(SHOW, ZONES);
    assert_eq!(dt.timezone(), "Asia/Bangkok");
    assert_eq!(*dt.ntp(), true);
    assert_eq!(dt.time_usec(), "Wed 2026-10-28 22:11:00 +07");
}

#[test]
fn new_groups_the_sorted_time_zones() {
    let dt = DateTimeManager::new(SHOW, ZONES);
    assert_eq!(
        *dt.list_timezones(),
        vec![
            group("Africa", &["Abidjan"]),
            group("Asia", &["Bangkok", "Phnom_Penh", "Tokyo"]),
            group("Europe", &["Paris"]),
            group("UTC", &["UTC"]),
        ]
    );
    let none = DateTimeManager::new("", "");
    assert_eq!(*none.list_timezones(), vec![group("Asia", &["Phnom_Penh"])]);
    assert_eq!(none.timezone(), "");
    assert_eq!(*none.ntp(), true);
}

#[test]
fn load_info_takes_each_named_setting() {
    let mut dt = DateTimeManager::default();
    dt.load_info("NTP=no\nTimezone= Europe/Paris \nUnknown=1\nLocalRTC=yes\n");
    assert_eq!(*dt.ntp(), false);
    assert_eq!(dt.timezone(), "Europe/Paris");
    assert_eq!(dt.set_local_rtc_command(true).unwrap().args, args(&["set-local-rtc", "true"]));
    // the synchronisation flag does not pass for the switch
    dt.load_info("NTPSynchronized=yes\n");
    assert_eq!(*dt.ntp(), false);
    dt.load_info("NTP= yes \n");
    assert_eq!(*dt.ntp(), true);
    // a last line without a line feed counts, a carriage return before one is dropped
    dt.load_info("NTP=no\r\nTimeUSec=now");
    assert_eq!(*dt.ntp(), false);
    assert_eq!(dt.time_usec(), "now");
}

#[test]
fn settings_by_hand_are_refused_while_the_clock_follows_the_network() {
    let mut dt = DateTimeManager::new(SHOW, ZONES);
    assert_eq!(dt.set_datetime_command("2026-01-01 00:00:00"), None);
    assert_eq!(dt.set_timezone_command("Europe/Paris"), None);
    assert_eq!(dt.set_local_rtc_command(true), None);
    assert!(!dt.set_datetime("2026-01-01 00:00:00", "TimeUSec=x\n"));
    assert!(!dt.set_timezone("Europe/Paris", "Timezone=Europe/Paris\n"));
    assert!(!dt.set_local_rtc(true));
    assert_eq!(dt.timezone(), "Asia/Bangkok");
    assert_eq!(dt.time_usec(), "Wed 2026-10-28 22:11:00 +07");
}

#[test]
fn commands_are_built_with_their_arguments() {
    let mut dt = DateTimeManager::default();
    assert_eq!(DateTimeManager::show_command(), Command::new("timedatectl", args(&["show"])));
    assert_eq!(
        DateTimeManager::list_timezones_command(),
        Command::new("timedatectl", args(&["list-timezones"]))
    );
    assert_eq!(dt.set_ntp_command(true), Command::new("timedatectl", args(&["set-ntp", "true"])));
    assert_eq!(
        dt.set_ntp_command(false),
        Command::new("timedatectl", args(&["set-ntp", "false"]))
    );
    assert!(dt.set_ntp(false, ""));
    assert_eq!(
        dt.set_datetime_command("2026-01-01 00:00:00"),
        Some(Command::new("timedatectl", args(&["set-time", "2026-01-01 00:00:00"])))
    );
    assert_eq!(
        dt.set_timezone_command("Europe/Paris"),
        Some(Command::new(
            "pkexec",
            args(&["ln", "-sf", "/usr/share/zoneinfo/Europe/Paris", "/etc/localtime"])
        ))
    );
    assert_eq!(
        dt.set_local_rtc_command(false),
        Some(Command::new("timedatectl", args(&["set-local-rtc", "0"])))
    );
    assert!(dt.set_datetime("2026-01-01 00:00:00", ""));
    assert_eq!(dt.time_usec(), "2026-01-01 00:00:00");
    assert!(dt.set_timezone("Europe/Paris", ""));
    assert_eq!(dt.timezone(), "Europe/Paris");
    assert!(dt.set_local_rtc(true));
}
