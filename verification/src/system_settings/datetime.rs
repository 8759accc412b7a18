//! Date and time: the clock settings that `timedatectl` shows, the time
//! zones that it lists, and the commands that change the settings.
use vstd::prelude::*;
use crate::helpers::cmd_output_helper::Command;
use crate::helpers::sorting::{by_text, sort_texts};
use crate::helpers::text::{
    from_chars, has_prefix, lines, lines_chars, owned_list, same_chars, same_text, slice_chars,
    split, split_chars, starts_with, str_concat, texts, to_chars, trim, trim_chars, views,
};

verus! {

/// The time zones of one part of the world.
#[derive(Debug, PartialEq, Eq)]
pub struct ZoneGroup {
    pub continent: String,
    pub cities: Vec<String>,
}

/// What a group of time zones is.
pub struct ZoneGroupView {
    pub continent: Seq<char>,
    pub cities: Seq<Seq<char>>,
}

impl View for ZoneGroup {
    type V = ZoneGroupView;

    open spec fn view(&self) -> ZoneGroupView {
        ZoneGroupView { continent: self.continent@, cities: texts(self.cities@) }
    }
}

/// The views of a list of groups of time zones.
pub open spec fn zone_views(groups: Seq<ZoneGroup>) -> Seq<ZoneGroupView> {
    Seq::new(groups.len(), |i: int| groups[i]@)
}

/// What the manager knows of the clock.
pub struct DateTimeView {
    pub timezone: Seq<char>,
    pub local_rtc: bool,
    pub can_ntp: bool,
    pub ntp: bool,
    pub ntp_sync: bool,
    pub time_usec: Seq<char>,
    pub rtc_time_usec: Seq<char>,
    pub list_timezones: Seq<ZoneGroupView>,
}

/// The clock settings and the time zones to choose from.
#[derive(Debug)]
pub struct DateTimeManager {
    timezone: String,
    local_rtc: bool,
    can_ntp: bool,
    ntp: bool,
    ntp_sync: bool,
    time_usec: String,
    rtc_time_usec: String,
    list_timezones: Vec<ZoneGroup>,
}

impl View for DateTimeManager {
    type V = DateTimeView;

    closed spec fn view(&self) -> DateTimeView {
        DateTimeView {
            timezone: self.timezone@,
            local_rtc: self.local_rtc,
            can_ntp: self.can_ntp,
            ntp: self.ntp,
            ntp_sync: self.ntp_sync,
            time_usec: self.time_usec@,
            rtc_time_usec: self.rtc_time_usec@,
            list_timezones: zone_views(self.list_timezones@),
        }
    }
}

/// The settings before anything is known: the clock follows the network.
pub open spec fn default_view() -> DateTimeView {
    DateTimeView {
        timezone: Seq::<char>::empty(),
        local_rtc: false,
        can_ntp: true,
        ntp: true,
        ntp_sync: true,
        time_usec: Seq::<char>::empty(),
        rtc_time_usec: Seq::<char>::empty(),
        list_timezones: Seq::<ZoneGroupView>::empty(),
    }
}

/// What follows the first `n` characters of a line, without the white
/// space around it.
pub open spec fn value_after(line: Seq<char>, n: int) -> Seq<char> {
    trim(line.subrange(n, line.len() as int))
}

/// The yes or no that stands behind the first equals sign of a line, where
/// the line holds one.
pub open spec fn flag_of(line: Seq<char>) -> Option<bool> {
    let parts = split(line, seq!['=']);
    if parts.len() > 1 {
        Some(trim(parts[1]) == "yes"@)
    } else {
        None
    }
}

/// `flag`, or `old` where there is none.
pub open spec fn flag_or(flag: Option<bool>, old: bool) -> bool {
    match flag {
        Some(b) => b,
        None => old,
    }
}

/// The settings after one line of what `timedatectl show` prints: a line
/// that names a setting gives its value, any other line changes nothing.
pub open spec fn line_applied(v: DateTimeView, line: Seq<char>) -> DateTimeView {
    if starts_with(line, "Timezone="@) {
        DateTimeView { timezone: value_after(line, 9), ..v }
    } else if starts_with(line, "LocalRTC="@) {
        DateTimeView { local_rtc: flag_or(flag_of(line), v.local_rtc), ..v }
    } else if starts_with(line, "CanNTP="@) {
        DateTimeView { can_ntp: flag_or(flag_of(line), v.can_ntp), ..v }
    } else if starts_with(line, "NTP="@) {
        DateTimeView { ntp: flag_or(flag_of(line), v.ntp), ..v }
    } else if starts_with(line, "NTPSynchronized="@) {
        DateTimeView { ntp_sync: flag_or(flag_of(line), v.ntp_sync), ..v }
    } else if starts_with(line, "TimeUSec="@) {
        DateTimeView { time_usec: value_after(line, 9), ..v }
    } else if starts_with(line, "RTCTimeUSec="@) {
        DateTimeView { rtc_time_usec: value_after(line, 12), ..v }
    } else {
        v
    }
}

/// The settings after the given lines, one after the other.
pub open spec fn lines_applied(v: DateTimeView, lines: Seq<Seq<char>>) -> DateTimeView
    decreases lines.len(),
{
    if lines.len() == 0 {
        v
    } else {
        line_applied(lines_applied(v, lines.drop_last()), lines.last())
    }
}

/// The settings after what `timedatectl show` printed.
pub open spec fn info_loaded(v: DateTimeView, show_output: Seq<char>) -> DateTimeView {
    lines_applied(v, lines(show_output))
}

/// The pieces of a time zone between its slashes; a slash at the end
/// closes the last piece.
pub open spec fn zone_parts(zone: Seq<char>) -> Seq<Seq<char>> {
    let parts = split(zone, seq!['/']);
    if parts.len() > 0 && parts.last().len() == 0 {
        parts.drop_last()
    } else {
        parts
    }
}

/// The part of the world of a time zone: its first piece.
pub open spec fn continent_of(zone: Seq<char>) -> Seq<char> {
    if zone_parts(zone).len() > 0 {
        zone_parts(zone)[0]
    } else {
        Seq::<char>::empty()
    }
}

/// The city of a time zone: its last piece.
pub open spec fn city_of(zone: Seq<char>) -> Seq<char> {
    if zone_parts(zone).len() > 0 {
        zone_parts(zone).last()
    } else {
        Seq::<char>::empty()
    }
}

/// The cities of the time zones, grouped by the part of the world: zones
/// that follow each other and share it form one group.
pub open spec fn grouped(zones: Seq<Seq<char>>) -> Seq<ZoneGroupView>
    decreases zones.len(),
{
    if zones.len() == 0 {
        Seq::<ZoneGroupView>::empty()
    } else {
        let before = grouped(zones.drop_last());
        let continent = continent_of(zones.last());
        let city = city_of(zones.last());
        if before.len() > 0 && before.last().continent == continent {
            before.drop_last().push(
                ZoneGroupView { continent: continent, cities: before.last().cities.push(city) },
            )
        } else {
            before.push(ZoneGroupView { continent: continent, cities: seq![city] })
        }
    }
}

/// The lines, each without the white space around it.
pub open spec fn trimmed_lines(output: Seq<char>) -> Seq<Seq<char>> {
    Seq::new(lines(output).len(), |i: int| trim(lines(output)[i]))
}

/// The time zones to choose from: those that `timedatectl list-timezones`
/// printed and Phnom Penh, in order, grouped by the part of the world.
pub open spec fn zones_listed(list_output: Seq<char>) -> Seq<ZoneGroupView> {
    grouped(trimmed_lines(list_output).push("Asia/Phnom_Penh"@).sort_by(by_text()))
}

/// What follows the first `n` characters of a line, without the white
/// space around it.
fn value_from(line: &Vec<char>, n: usize) -> (r: String)
    requires
        n <= line.len(),
    ensures
        r@ == value_after(line@, n as int),
{
    from_chars(&trim_chars(&slice_chars(line, n, line.len())))
}

/// The yes or no behind the first equals sign of a line.
fn flag_from(line: &Vec<char>) -> (r: Option<bool>)
    ensures
        r == flag_of(line@),
{
    let mut sep: Vec<char> = Vec::new();
    sep.push('=');
    assert(sep@ =~= seq!['=']);
    let parts = split_chars(line, &sep);
    if parts.len() > 1 {
        assert(views(parts@)[1] == parts@[1]@);
        Some(same_chars(&trim_chars(&parts[1]), &to_chars("yes")))
    } else {
        None
    }
}

/// The pieces of a time zone between its slashes.
fn zone_pieces(zone: &Vec<char>) -> (r: Vec<Vec<char>>)
    ensures
        views(r@) == zone_parts(zone@),
{
    let mut sep: Vec<char> = Vec::new();
    sep.push('/');
    assert(sep@ =~= seq!['/']);
    let mut parts = split_chars(zone, &sep);
    let n = parts.len();
    if n > 0 && parts[n - 1].len() == 0 {
        let ghost before = views(parts@);
        assert(before.last() == parts@[n - 1]@);
        parts.pop();
        assert(views(parts@) =~= before.drop_last());
    } else if n > 0 {
        assert(views(parts@).last() == parts@[n - 1]@);
    }
    parts
}

/// The part of the world and the city of a time zone.
fn zone_names(zone: &Vec<char>) -> (r: (String, String))
    ensures
        r.0@ == continent_of(zone@),
        r.1@ == city_of(zone@),
{
    let pieces = zone_pieces(zone);
    if pieces.len() > 0 {
        assert(views(pieces@)[0] == pieces@[0]@);
        assert(views(pieces@).last() == pieces@[pieces.len() - 1]@);
        (from_chars(&pieces[0]), from_chars(&pieces[pieces.len() - 1]))
    } else {
        (String::new(), String::new())
    }
}

/// Groups the cities of the time zones by the part of the world.
fn group_zones(zones: &Vec<Vec<char>>) -> (r: Vec<ZoneGroup>)
    ensures
        zone_views(r@) == grouped(views(zones@)),
{
    let mut r: Vec<ZoneGroup> = Vec::new();
    let mut i: usize = 0;
    assert(views(zones@).take(0) =~= Seq::<Seq<char>>::empty());
    assert(zone_views(r@) =~= Seq::<ZoneGroupView>::empty());
    while i < zones.len()
        invariant
            i <= zones.len(),
            zone_views(r@) == grouped(views(zones@).take(i as int)),
        decreases zones.len() - i,
    {
        let ghost head = views(zones@).take(i + 1);
        assert(head.drop_last() =~= views(zones@).take(i as int));
        assert(head.last() == zones@[i as int]@);
        let ghost before = zone_views(r@);
        let (continent, city) = zone_names(&zones[i]);
        let n = r.len();
        if n > 0 {
            assert(before.last() == r@[n - 1]@);
        }
        if n > 0 && same_text(r[n - 1].continent.as_str(), continent.as_str()) {
            let mut last = r.pop().unwrap();
            let ghost cities = texts(last.cities@);
            last.cities.push(city);
            assert(texts(last.cities@) =~= cities.push(city@));
            r.push(last);
            assert(zone_views(r@) =~= before.drop_last().push(
                ZoneGroupView { continent: continent@, cities: before.last().cities.push(city@) },
            ));
        } else {
            let mut cities: Vec<String> = Vec::new();
            cities.push(city);
            assert(texts(cities@) =~= seq![city@]);
            r.push(ZoneGroup { continent, cities });
            assert(zone_views(r@) =~= before.push(
                ZoneGroupView { continent: continent@, cities: seq![city@] },
            ));
        }
        i = i + 1;
    }
    assert(views(zones@).take(zones.len() as int) =~= views(zones@));
    r
}

impl Default for DateTimeManager {
    fn default() -> (manager: DateTimeManager)
        ensures
            manager@ == default_view(),
    {
        let manager = DateTimeManager {
            timezone: String::new(),
            local_rtc: false,
            can_ntp: true,
            ntp: true,
            ntp_sync: true,
            time_usec: String::new(),
            rtc_time_usec: String::new(),
            list_timezones: Vec::new(),
        };
        assert(zone_views(manager.list_timezones@) =~= Seq::<ZoneGroupView>::empty());
        manager
    }
}

impl DateTimeManager {
    /// The command that shows the clock settings.
    pub fn show_command() -> (cmd: Command)
        ensures
            cmd.runs("timedatectl"@, seq!["show"@]),
    {
        let args = owned_list(vec!["show"]);
        assert(texts(args@) =~= seq!["show"@]);
        Command::new("timedatectl", args)
    }

    /// The command that lists the time zones.
    pub fn list_timezones_command() -> (cmd: Command)
        ensures
            cmd.runs("timedatectl"@, seq!["list-timezones"@]),
    {
        let args = owned_list(vec!["list-timezones"]);
        assert(texts(args@) =~= seq!["list-timezones"@]);
        Command::new("timedatectl", args)
    }

    /// The manager for what `timedatectl show` and `timedatectl
    /// list-timezones` printed.
    pub fn new(show_output: &str, list_output: &str) -> (manager: DateTimeManager)
        ensures
            manager@ == (DateTimeView {
                list_timezones: zones_listed(list_output@),
                ..info_loaded(default_view(), show_output@)
            }),
    {
        let mut manager = DateTimeManager::default();
        manager.load_info(show_output);
        let raw = lines_chars(&to_chars(list_output));
        let mut zones: Vec<Vec<char>> = Vec::new();
        let mut i: usize = 0;
        while i < raw.len()
            invariant
                i <= raw.len(),
                views(raw@) == lines(list_output@),
                zones@.len() == i,
                forall|k: int| 0 <= k < i ==> (#[trigger] zones@[k])@ == trim(raw@[k]@),
            decreases raw.len() - i,
        {
            zones.push(trim_chars(&raw[i]));
            i = i + 1;
        }
        zones.push(to_chars("Asia/Phnom_Penh"));
        assert(views(zones@) =~= trimmed_lines(list_output@).push("Asia/Phnom_Penh"@)) by {
            assert forall|k: int| 0 <= k < raw@.len() implies views(zones@)[k] == trim(
                lines(list_output@)[k],
            ) by {
                assert(views(raw@)[k] == raw@[k]@);
            }
        }
        let sorted = sort_texts(&zones);
        manager.list_timezones = group_zones(&sorted);
        manager
    }

    /// The command that sets the date and time by hand; none while the
    /// clock follows the network.
    pub fn set_datetime_command(&self, datetime: &str) -> (cmd: Option<Command>)
        ensures
            match cmd {
                Some(c) => !self@.ntp && c.runs("timedatectl"@, seq!["set-time"@, datetime@]),
                None => self@.ntp,
            },
    {
        if !self.ntp {
            let args = owned_list(vec!["set-time", datetime]);
            assert(texts(args@) =~= seq!["set-time"@, datetime@]);
            Some(Command::new("timedatectl", args))
        } else {
            None
        }
    }

    /// Takes the date and time that was set, then what `timedatectl show`
    /// printed after that; changes nothing, and says so, while the clock
    /// follows the network.
    pub fn set_datetime(&mut self, datetime: &str, show_output: &str) -> (set: bool)
        ensures
            set == !old(self)@.ntp,
            final(self)@ == if set {
                info_loaded(DateTimeView { time_usec: datetime@, ..old(self)@ }, show_output@)
            } else {
                old(self)@
            },
    {
        if !self.ntp {
            self.time_usec = datetime.to_owned();
            self.load_info(show_output);
            true
        } else {
            false
        }
    }

    /// The command that sets the time zone by hand; none while the clock
    /// follows the network.
    pub fn set_timezone_command(&self, tz: &str) -> (cmd: Option<Command>)
        ensures
            match cmd {
                Some(c) => !self@.ntp && c.runs(
                    "pkexec"@,
                    seq!["ln"@, "-sf"@, "/usr/share/zoneinfo/"@ + tz@, "/etc/localtime"@],
                ),
                None => self@.ntp,
            },
    {
        if !self.ntp {
            let path = str_concat("/usr/share/zoneinfo/", tz);
            let args = owned_list(vec!["ln", "-sf", path.as_str(), "/etc/localtime"]);
            assert(texts(args@) =~= seq!["ln"@, "-sf"@, path@, "/etc/localtime"@]);
            Some(Command::new("pkexec", args))
        } else {
            None
        }
    }

    /// Takes the time zone that was set, then what `timedatectl show`
    /// printed after that; changes nothing, and says so, while the clock
    /// follows the network.
    pub fn set_timezone(&mut self, tz: &str, show_output: &str) -> (set: bool)
        ensures
            set == !old(self)@.ntp,
            final(self)@ == if set {
                info_loaded(DateTimeView { timezone: tz@, ..old(self)@ }, show_output@)
            } else {
                old(self)@
            },
    {
        if !self.ntp {
            self.timezone = tz.to_owned();
            self.load_info(show_output);
            true
        } else {
            false
        }
    }

    /// The command that makes the clock follow the network, or stop
    /// following it.
    pub fn set_ntp_command(&self, ntp: bool) -> (cmd: Command)
        ensures
            cmd.runs(
                "timedatectl"@,
                seq![
                    "set-ntp"@,
                    if ntp {
                        "true"@
                    } else {
                        "false"@
                    },
                ],
            ),
    {
        let word: &str = if ntp {
            "true"
        } else {
            "false"
        };
        let args = owned_list(vec!["set-ntp", word]);
        assert(texts(args@) =~= seq!["set-ntp"@, word@]);
        Command::new("timedatectl", args)
    }

    /// Takes note of whether the clock follows the network, then of what
    /// `timedatectl show` printed after the change.
    pub fn set_ntp(&mut self, ntp: bool, show_output: &str) -> (set: bool)
        ensures
            set,
            final(self)@ == info_loaded(DateTimeView { ntp: ntp, ..old(self)@ }, show_output@),
    {
        self.ntp = ntp;
        self.load_info(show_output);
        true
    }

    /// The command that makes the hardware clock keep local time, or
    /// universal time; none while the clock follows the network.
    pub fn set_local_rtc_command(&self, local_rtc: bool) -> (cmd: Option<Command>)
        ensures
            match cmd {
                Some(c) => !self@.ntp && c.runs(
                    "timedatectl"@,
                    seq![
                        "set-local-rtc"@,
                        if local_rtc {
                            "true"@
                        } else {
                            "0"@
                        },
                    ],
                ),
                None => self@.ntp,
            },
    {
        if !self.ntp {
            let word: &str = if local_rtc {
                "true"
            } else {
                "0"
            };
            let args = owned_list(vec!["set-local-rtc", word]);
            assert(texts(args@) =~= seq!["set-local-rtc"@, word@]);
            Some(Command::new("timedatectl", args))
        } else {
            None
        }
    }

    /// Takes note of what the hardware clock keeps; changes nothing, and
    /// says so, while the clock follows the network.
    pub fn set_local_rtc(&mut self, local_rtc: bool) -> (set: bool)
        ensures
            set == !old(self)@.ntp,
            final(self)@ == if set {
                DateTimeView { local_rtc: local_rtc, ..old(self)@ }
            } else {
                old(self)@
            },
    {
        if !self.ntp {
            self.local_rtc = local_rtc;
            true
        } else {
            false
        }
    }

    /// Takes one line of what `timedatectl show` printed.
    fn apply_line(&mut self, line: &Vec<char>)
        ensures
            final(self)@ == line_applied(old(self)@, line@),
    {
        proof {
            reveal_strlit("Timezone=");
            reveal_strlit("LocalRTC=");
            reveal_strlit("CanNTP=");
            reveal_strlit("NTP=");
            reveal_strlit("NTPSynchronized=");
            reveal_strlit("TimeUSec=");
            reveal_strlit("RTCTimeUSec=");
        }
        if has_prefix(line, &to_chars("Timezone=")) {
            self.timezone = value_from(line, 9);
        } else if has_prefix(line, &to_chars("LocalRTC=")) {
            match flag_from(line) {
                Some(b) => {
                    self.local_rtc = b;
                },
                None => {},
            }
        } else if has_prefix(line, &to_chars("CanNTP=")) {
            match flag_from(line) {
                Some(b) => {
                    self.can_ntp = b;
                },
                None => {},
            }
        } else if has_prefix(line, &to_chars("NTP=")) {
            match flag_from(line) {
                Some(b) => {
                    self.ntp = b;
                },
                None => {},
            }
        } else if has_prefix(line, &to_chars("NTPSynchronized=")) {
            match flag_from(line) {
                Some(b) => {
                    self.ntp_sync = b;
                },
                None => {},
            }
        } else if has_prefix(line, &to_chars("TimeUSec=")) {
            self.time_usec = value_from(line, 9);
        } else if has_prefix(line, &to_chars("RTCTimeUSec=")) {
            self.rtc_time_usec = value_from(line, 12);
        }
    }

    /// Takes what `timedatectl show` printed.
    pub fn load_info(&mut self, show_output: &str)
        ensures
            final(self)@ == info_loaded(old(self)@, show_output@),
    {
        let all = lines_chars(&to_chars(show_output));
        let mut i: usize = 0;
        assert(views(all@).take(0) =~= Seq::<Seq<char>>::empty());
        while i < all.len()
            invariant
                i <= all.len(),
                self@ == lines_applied(old(self)@, views(all@).take(i as int)),
            decreases all.len() - i,
        {
            assert(views(all@).take(i + 1).drop_last() =~= views(all@).take(i as int));
            assert(views(all@).take(i + 1).last() == all@[i as int]@);
            self.apply_line(&all[i]);
            i = i + 1;
        }
        assert(views(all@).take(all.len() as int) =~= views(all@));
    }

    /// The time zone.
    pub fn timezone(&self) -> (timezone: &String)
        ensures
            timezone@ == self@.timezone,
    {
        &self.timezone
    }

    /// Whether the clock follows the network.
    pub fn ntp(&self) -> (ntp: &bool)
        ensures
            *ntp == self@.ntp,
    {
        &self.ntp
    }

    /// The time, as `timedatectl` shows it.
    pub fn time_usec(&self) -> (time: &String)
        ensures
            time@ == self@.time_usec,
    {
        &self.time_usec
    }

    /// The time zones to choose from, grouped by the part of the world.
    pub fn list_timezones(&self) -> (groups: &Vec<ZoneGroup>)
        ensures
            zone_views(groups@) == self@.list_timezones,
    {
        &self.list_timezones
    }
}

} // verus!
