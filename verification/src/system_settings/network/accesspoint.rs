//! One wireless access point, as the network manager describes it.
use vstd::prelude::*;

verus! {

/// An access point.
#[derive(Default, Debug, PartialEq, Eq)]
pub struct AccessPoint {
    pub ssid: String,
    pub strenght: u8,
    pub last_seen: i32,
    pub hwaddress: String,
    pub flags: u32,
    pub frequency: u32,
    pub max_bitrate: u32,
    pub mode: u32,
    pub rns_flags: u32,
    pub wpa_flags: u32,
}

/// The number under which the network manager reports a wireless device.
pub const DEVICE_TYPE_WIFI: u32 = 2;

/// Whether a device of this kind has access points.
pub fn is_wireless(dev_type: u32) -> (r: bool)
    ensures
        r == (dev_type == DEVICE_TYPE_WIFI),
{
    dev_type == DEVICE_TYPE_WIFI
}

impl AccessPoint {
    /// The access point with this name, address and strength of signal,
    /// and nothing else known.
    pub fn new(ssid: String, hwaddress: String, strenght: u8) -> (point: AccessPoint)
        ensures
            point.ssid == ssid,
            point.hwaddress == hwaddress,
            point.strenght == strenght,
            point.last_seen == 0,
            point.flags == 0,
            point.frequency == 0,
            point.max_bitrate == 0,
            point.mode == 0,
            point.rns_flags == 0,
            point.wpa_flags == 0,
    {
        AccessPoint {
            ssid,
            strenght,
            last_seen: 0,
            hwaddress,
            flags: 0,
            frequency: 0,
            max_bitrate: 0,
            mode: 0,
            rns_flags: 0,
            wpa_flags: 0,
        }
    }
}

} // verus!
