//! The brightness of the display, in percent of the highest level of its
//! backlight.
use vstd::prelude::*;
use crate::helpers::dbus_helper::{Arg, Bus, MethodCall};

verus! {

/// The level of the backlight for `percent` of the highest level `max`:
/// that share of `max`, rounded up to a whole number of hundreds, and no
/// higher than a level can be.
pub open spec fn value_of_percent(max: u32, percent: u32) -> int {
    let hundreds = (percent * max + 9999) / 10000;
    if hundreds * 100 > u32::MAX {
        u32::MAX as int
    } else {
        hundreds * 100
    }
}

/// The percentage of the highest level `max` that the level `val` stands
/// for, in whole percent. Where `rnd` says so the share is first rounded
/// up to the hundredth of a percent, so that a share within a hundredth
/// under a whole percent counts as that percent; the fraction is then
/// dropped. The lowest level is shown as one percent; where the highest
/// level is zero, every other level is shown as the highest percentage
/// there is.
pub open spec fn percent_of_value(max: u32, val: u32, rnd: bool) -> int {
    if val == 0 {
        1
    } else if max == 0 {
        u32::MAX as int
    } else {
        let p = if rnd {
            ((val * 10000 + max - 1) / (max as int)) / 100
        } else {
            (val * 100) / (max as int)
        };
        if p > u32::MAX {
            u32::MAX as int
        } else {
            p
        }
    }
}

/// The backlight.
#[derive(Debug, PartialEq, Eq)]
pub struct BDevice {
    pub id: &'static str,
    pub class: &'static str,
    pub max_brightness: u32,
    pub current_brightness: u32,
}

impl BDevice {
    /// The backlight with the levels read from the device.
    pub fn new(max_brightness: u32, current_brightness: u32) -> (device: BDevice)
        ensures
            device.max_brightness == max_brightness,
            device.current_brightness == current_brightness,
            device.id@ == "intel_backlight"@,
            device.class@ == "backlight"@,
    {
        BDevice { id: "intel_backlight", class: "backlight", max_brightness, current_brightness }
    }

    /// The level for `val` percent.
    pub fn percent_to_value(&self, val: u32) -> (level: u32)
        ensures
            level == value_of_percent(self.max_brightness, val),
    {
        assert(val as u64 * self.max_brightness as u64 <= 0xFFFF_FFFF * 0xFFFF_FFFF)
            by (nonlinear_arith)
            requires
                val <= 0xFFFF_FFFF,
                self.max_brightness <= 0xFFFF_FFFF,
        ;
        let hundreds: u64 = (val as u64 * self.max_brightness as u64 + 9999) / 10000;
        let v: u64 = hundreds * 100;
        if v > u32::MAX as u64 {
            u32::MAX
        } else {
            v as u32
        }
    }

    /// The percentage that the level `val` stands for.
    pub fn val_to_percent(&self, val: u32, rnd: bool) -> (percent: u32)
        ensures
            percent == percent_of_value(self.max_brightness, val, rnd),
    {
        if val == 0 {
            1
        } else if self.max_brightness == 0 {
            u32::MAX
        } else {
            let max: u64 = self.max_brightness as u64;
            let p: u64 = if rnd {
                ((val as u64 * 10000 + max - 1) / max) / 100
            } else {
                (val as u64 * 100) / max
            };
            if p > u32::MAX as u64 {
                u32::MAX
            } else {
                p as u32
            }
        }
    }

    /// The highest level.
    pub fn get_max_bright(&self) -> (max: u32)
        ensures
            max == self.max_brightness,
    {
        self.max_brightness
    }

    /// The brightness in percent.
    pub fn get_current_level(&self) -> (percent: u32)
        ensures
            percent == percent_of_value(self.max_brightness, self.current_brightness, true),
    {
        self.val_to_percent(self.current_brightness, true)
    }

    /// The highest level, then the brightness in percent.
    pub fn info(&self) -> (r: Vec<u32>)
        ensures
            r@ == seq![
                self.max_brightness,
                percent_of_value(self.max_brightness, self.current_brightness, true) as u32,
            ],
    {
        let mut r: Vec<u32> = Vec::new();
        r.push(self.max_brightness);
        r.push(self.get_current_level());
        assert(r@ =~= seq![
            self.max_brightness,
            percent_of_value(self.max_brightness, self.current_brightness, true) as u32,
        ]);
        r
    }

    /// Takes note of the level that was written to the device.
    pub fn update(&mut self, current: u32)
        ensures
            final(self).current_brightness == current,
            final(self).max_brightness == old(self).max_brightness,
            final(self).id == old(self).id,
            final(self).class == old(self).class,
    {
        self.current_brightness = current;
    }

    /// The call that asks the login manager to set the level.
    pub fn set_dbus_bright(&self, level: u32) -> (call: MethodCall)
        ensures
            call.calls(
                Bus::System,
                "org.freedesktop.login1"@,
                "/org/freedesktop/login1/session/auto"@,
                "org.freedesktop.login1.Session"@,
                "SetBrightness"@,
            ),
            call.timeout_ms == 100,
            call.args@.len() == 3,
            call.args@[0] matches Arg::Text(s) && s@ == "backlight"@,
            call.args@[1] matches Arg::Text(s) && s@ == "intel_backlight"@,
            call.args@[2] == Arg::U32(level),
    {
        MethodCall::new(
            Bus::System,
            "org.freedesktop.login1",
            "/org/freedesktop/login1/session/auto",
            "org.freedesktop.login1.Session",
            "SetBrightness",
            100,
        ).with_arg(Arg::Text("backlight".to_owned())).with_arg(
            Arg::Text("intel_backlight".to_owned()),
        ).with_arg(Arg::U32(level))
    }
}

/// The brightness of the display.
#[derive(Debug, PartialEq, Eq)]
pub struct Brightness {
    pub device: BDevice,
}

impl Brightness {
    /// The brightness of the backlight with the levels read from the
    /// device.
    pub fn new(max_brightness: u32, current_brightness: u32) -> (brightness: Brightness)
        ensures
            brightness.device.max_brightness == max_brightness,
            brightness.device.current_brightness == current_brightness,
    {
        Brightness { device: BDevice::new(max_brightness, current_brightness) }
    }

    /// Takes note that the brightness was set to `percent`, and gives the
    /// level that stands for it.
    pub fn set_percent(&mut self, percent: u32) -> (level: u32)
        ensures
            level == value_of_percent(old(self).device.max_brightness, percent),
            final(self).device.current_brightness == level,
            final(self).device.max_brightness == old(self).device.max_brightness,
    {
        let level = self.device.percent_to_value(percent);
        self.device.update(level);
        level
    }

    /// The brightness in percent.
    pub fn get_percent(&self) -> (percent: u32)
        ensures
            percent == percent_of_value(
                self.device.max_brightness,
                self.device.current_brightness,
                true,
            ),
    {
        self.device.get_current_level()
    }

    /// The highest level of the backlight.
    pub fn get_max_percent(&self) -> (max: u32)
        ensures
            max == self.device.max_brightness,
    {
        self.device.get_max_bright()
    }

    /// The call that asks the login manager to set the level.
    pub fn login1_set_brightness(&self, level: u32) -> (call: MethodCall)
        ensures
            call.calls(
                Bus::System,
                "org.freedesktop.login1"@,
                "/org/freedesktop/login1/session/auto"@,
                "org.freedesktop.login1.Session"@,
                "SetBrightness"@,
            ),
            call.timeout_ms == 100,
            call.args@.len() == 3,
            call.args@[0] matches Arg::Text(s) && s@ == "backlight"@,
            call.args@[1] matches Arg::Text(s) && s@ == "intel_backlight"@,
            call.args@[2] == Arg::U32(level),
    {
        self.device.set_dbus_bright(level)
    }

    /// The highest level, then the brightness in percent.
    pub fn information(&self) -> (r: Vec<u32>)
        ensures
            r@ == seq![
                self.device.max_brightness,
                percent_of_value(
                    self.device.max_brightness,
                    self.device.current_brightness,
                    true,
                ) as u32,
            ],
    {
        self.device.info()
    }
}

} // verus!
