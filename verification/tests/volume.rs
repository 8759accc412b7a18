use libkoompi::system_settings::sounds::volume::{
    decrease, increase, native_to_percent, percent_to_native, ChannelVolumes, Volume,
    CHANNELS_MAX, VOLUME_MAX, VOLUME_MUTED, VOLUME_NORM,
};

fn levels(values: &[u32]) -> ChannelVolumes {
    ChannelVolumes::new(values.iter().map(|v| Volume(*v)).collect()).unwrap()
}

fn raw(volumes: &ChannelVolumes) -> Vec<u32> {
    (0..volumes.len()).map(|c| volumes.get(c).unwrap().0).collect()
}

#[test]
fn percent_to_native_exact_values() {
    assert_eq!(percent_to_native(0), Volume(0));
    assert_eq!(percent_to_native(100), Volume(65536));
    assert_eq!(percent_to_native(50), Volume(32768));
    assert_eq!(percent_to_native(25), Volume(16384));
    // 655.36 is rounded up
    assert_eq!(percent_to_native(1), Volume(656));
    assert_eq!(percent_to_native(33), Volume(21627));
    assert_eq!(percent_to_native(150), Volume(98304));
}

#[test]
fn percent_to_native_stops_at_the_maximum() {
    assert_eq!(percent_to_native(u32::MAX), Volume(VOLUME_MAX));
    assert_eq!(percent_to_native(3_276_800), Volume(VOLUME_MAX));
    assert_eq!(percent_to_native(3_276_799), Volume(2_147_482_993));
}

#[test]
fn native_to_percent_exact_values() {
    assert_eq!(native_to_percent(Volume(0)), 0);
    assert_eq!(native_to_percent(Volume(VOLUME_NORM)), 100);
    assert_eq!(native_to_percent(Volume(32768)), 50);
    assert_eq!(native_to_percent(Volume(1)), 1);
    assert_eq!(native_to_percent(Volume(656)), 2);
    assert_eq!(native_to_percent(Volume(655)), 1);
    assert_eq!(native_to_percent(Volume(VOLUME_MAX)), 3_276_800);
}

#[test]
fn percent_round_trip_stays_within_one() {
    for p in 0..=100u32 {
        let back = native_to_percent(percent_to_native(p));
        assert!(back == p || back == p + 1, "{} came back as {}", p, back);
        if (p * 65536) % 100 == 0 {
            assert_eq!(back, p);
        }
    }
}

#[test]
fn channel_volumes_new_checks_the_protocol_limits() {
    assert!(ChannelVolumes::new(vec![]).is_some());
    assert!(ChannelVolumes::new(vec![Volume(VOLUME_MAX); CHANNELS_MAX]).is_some());
    assert!(ChannelVolumes::new(vec![Volume(0); CHANNELS_MAX + 1]).is_none());
    assert!(ChannelVolumes::new(vec![Volume(VOLUME_MAX + 1)]).is_none());
    assert!(ChannelVolumes::uniform(2, Volume(VOLUME_NORM)).is_some());
    assert!(ChannelVolumes::uniform(33, Volume(VOLUME_NORM)).is_none());
    assert!(ChannelVolumes::uniform(2, Volume(u32::MAX)).is_none());
    assert_eq!(raw(&ChannelVolumes::uniform(3, Volume(7)).unwrap()), vec![7, 7, 7]);
}

#[test]
fn average_and_percent_of_channels() {
    assert_eq!(levels(&[]).avg(), Volume(VOLUME_MUTED));
    assert_eq!(levels(&[10, 20]).avg(), Volume(15));
    assert_eq!(levels(&[10, 21]).avg(), Volume(15));
    assert_eq!(levels(&[VOLUME_MAX, VOLUME_MAX]).avg(), Volume(VOLUME_MAX));
    assert_eq!(levels(&[32768, 32768]).percent(), 50);
    assert_eq!(levels(&[65536, 0]).percent(), 50);
}

#[test]
fn increase_raises_every_channel() {
    let v = levels(&[1000, 2000]);
    assert_eq!(raw(&v.increase(Volume(500))), vec![1500, 2500]);
    assert_eq!(raw(&increase(&v, 10)), vec![1000 + 6554, 2000 + 6554]);
    assert_eq!(raw(&v.increase(Volume(0))), vec![1000, 2000]);
}

#[test]
fn increase_by_a_huge_step_stops_at_the_maximum() {
    let v = levels(&[1000, VOLUME_MAX - 1, VOLUME_MAX]);
    assert_eq!(raw(&v.increase(Volume(u32::MAX))), vec![VOLUME_MAX; 3]);
    assert_eq!(raw(&increase(&v, u32::MAX)), vec![VOLUME_MAX; 3]);
    assert_eq!(raw(&v.increase(Volume(1))), vec![1001, VOLUME_MAX, VOLUME_MAX]);
}

#[test]
fn decrease_by_a_huge_step_stops_at_silence() {
    let v = levels(&[0, 1000, VOLUME_MAX]);
    assert_eq!(raw(&v.decrease(Volume(u32::MAX))), vec![0, 0, 0]);
    assert_eq!(raw(&decrease(&v, u32::MAX)), vec![0, 0, 0]);
    assert_eq!(raw(&v.decrease(Volume(1000))), vec![0, 0, VOLUME_MAX - 1000]);
    assert_eq!(raw(&decrease(&v, 1)), vec![0, 344, VOLUME_MAX - 656]);
}

#[test]
fn duplicate_and_same() {
    let v = levels(&[1, 2, 3]);
    assert!(v.same(&v.duplicate()));
    assert!(!v.same(&levels(&[1, 2])));
    assert!(!v.same(&levels(&[1, 2, 4])));
    assert_eq!(v.get(3), None);
    assert_eq!(v.get(2), Some(Volume(3)));
}
