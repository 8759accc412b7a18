//! The locale and the keyboard through `localectl`: what it reports, and
//! the commands that change it.
use vstd::prelude::*;
use crate::helpers::cmd_output_helper::{get_val_from_keyval, val_from_keyval, Command};
use crate::helpers::text::{
    join, lines, opt_view, owned_list, replace, starts_with, str_concat, str_join, str_lines,
    str_replace, str_starts_with, str_trim, texts, trim,
};

verus! {

/// The settings of a locale that `localectl` sets.
#[allow(non_camel_case_types)]
#[derive(Debug, Clone, Copy, PartialEq, Eq, Structural)]
pub enum LC_Keywords {
    LANG,
    LC_NUMERIC,
    LC_TIME,
    LC_MONETARY,
    LC_ADDRESS,
    LC_TELEPHONE,
}

/// The name of a setting.
pub open spec fn keyword_name(keyword: LC_Keywords) -> Seq<char> {
    match keyword {
        LC_Keywords::LANG => "LANG"@,
        LC_Keywords::LC_NUMERIC => "LC_NUMERIC"@,
        LC_Keywords::LC_TIME => "LC_TIME"@,
        LC_Keywords::LC_MONETARY => "LC_MONETARY"@,
        LC_Keywords::LC_ADDRESS => "LC_ADDRESS"@,
        LC_Keywords::LC_TELEPHONE => "LC_TELEPHONE"@,
    }
}

impl LC_Keywords {
    /// The name of the setting.
    pub fn name(&self) -> (name: &'static str)
        ensures
            name@ == keyword_name(*self),
    {
        match self {
            LC_Keywords::LANG => "LANG",
            LC_Keywords::LC_NUMERIC => "LC_NUMERIC",
            LC_Keywords::LC_TIME => "LC_TIME",
            LC_Keywords::LC_MONETARY => "LC_MONETARY",
            LC_Keywords::LC_ADDRESS => "LC_ADDRESS",
            LC_Keywords::LC_TELEPHONE => "LC_TELEPHONE",
        }
    }
}

/// The conventions for numbers.
#[derive(Debug, PartialEq, Eq)]
pub struct LCNumeric {
    pub lc: String,
    pub dec_point: String,
    pub thousands_sep: String,
    pub grp: u8,
}

/// The conventions for dates and times.
#[derive(Debug, PartialEq, Eq)]
pub struct LCTime {
    pub lc: String,
    pub ab_day: String,
    pub day: String,
    pub ab_mon: String,
    pub mon: String,
    pub am_pm: String,
    pub d_t_fmt: String,
    pub d_fmt: String,
    pub t_fmt: String,
    pub t_fmt_ampm: String,
    pub era_year: String,
    pub era_d_fmt: String,
    pub era_t_fmt: String,
    pub era_d_t_fmt: String,
    pub time_era_num_entries: u8,
    pub week_ndays: u8,
    pub week_1stday: u32,
    pub week_1stweek: u8,
    pub first_weekday: u8,
    pub first_workday: u8,
    pub cal_direction: u8,
    pub timezone: String,
    pub date_fmt: String,
    pub alt_mon: String,
    pub ab_alt_mon: String,
}

/// The conventions for money.
#[derive(Debug, PartialEq, Eq)]
pub struct LCMonetary {
    pub lc: String,
    pub int_curr_symbol: String,
    pub curr_symbol: String,
    pub mon_dec_point: String,
    pub mon_thousands_sep: String,
    pub pos_sign: String,
    pub neg_sign: String,
    pub int_frac_digits: u8,
    pub frac_digits: u8,
}

/// The conventions for addresses.
#[derive(Debug, PartialEq, Eq)]
pub struct LCAddress {
    pub lc: String,
    pub postal_fmt: String,
    pub country_name: String,
    pub country_post: String,
    pub country_ab2: String,
    pub country_ab3: String,
    pub country_car: String,
    pub country_num: u16,
    pub country_isbn: String,
    pub lang_name: String,
    pub lang_ab: String,
    pub lang_term: String,
    pub lang_lib: String,
}

/// The conventions for telephone numbers.
#[derive(Debug, PartialEq, Eq)]
pub struct LCTelephone {
    pub lc: String,
    pub tel_int_fmt: String,
    pub tel_dom_fmt: String,
    pub int_select: String,
    pub int_prefix: String,
}

/// The details of one kind of conventions.
#[derive(Debug, PartialEq, Eq)]
pub enum LCDetails {
    Numeric(LCNumeric),
    Time(LCTime),
    Monetary(LCMonetary),
    Address(LCAddress),
    Telephone(LCTelephone),
}

/// The details of the kinds of conventions, each where it is known.
pub struct DetailsView {
    pub numeric: Option<LCNumeric>,
    pub time: Option<LCTime>,
    pub monetary: Option<LCMonetary>,
    pub address: Option<LCAddress>,
    pub telephone: Option<LCTelephone>,
}

/// The details with those of one kind taken in.
pub open spec fn stored(d: DetailsView, details: LCDetails) -> DetailsView {
    match details {
        LCDetails::Numeric(n) => DetailsView { numeric: Some(n), ..d },
        LCDetails::Time(t) => DetailsView { time: Some(t), ..d },
        LCDetails::Monetary(m) => DetailsView { monetary: Some(m), ..d },
        LCDetails::Address(a) => DetailsView { address: Some(a), ..d },
        LCDetails::Telephone(t) => DetailsView { telephone: Some(t), ..d },
    }
}

/// The setting whose details these are.
pub open spec fn keyword_of(details: LCDetails) -> LC_Keywords {
    match details {
        LCDetails::Numeric(_) => LC_Keywords::LC_NUMERIC,
        LCDetails::Time(_) => LC_Keywords::LC_TIME,
        LCDetails::Monetary(_) => LC_Keywords::LC_MONETARY,
        LCDetails::Address(_) => LC_Keywords::LC_ADDRESS,
        LCDetails::Telephone(_) => LC_Keywords::LC_TELEPHONE,
    }
}

/// The locale of the system.
#[derive(Debug, PartialEq, Eq)]
pub struct SystemLocale {
    lang: String,
    lc_numeric: Option<LCNumeric>,
    lc_time: Option<LCTime>,
    lc_monetary: Option<LCMonetary>,
    lc_addr: Option<LCAddress>,
    lc_tel: Option<LCTelephone>,
    ls_locale: Vec<String>,
}

impl SystemLocale {
    /// The language.
    pub closed spec fn spec_lang(&self) -> Seq<char> {
        self.lang@
    }

    /// The locales to choose from.
    pub closed spec fn spec_locales(&self) -> Seq<Seq<char>> {
        texts(self.ls_locale@)
    }

    /// The details of the kinds of conventions, each where it is known.
    pub closed spec fn spec_details(&self) -> DetailsView {
        DetailsView {
            numeric: self.lc_numeric,
            time: self.lc_time,
            monetary: self.lc_monetary,
            address: self.lc_addr,
            telephone: self.lc_tel,
        }
    }

    /// The language.
    pub fn lang(&self) -> (lang: &String)
        ensures
            lang@ == self.spec_lang(),
    {
        &self.lang
    }

    /// The conventions for numbers, where they are known.
    pub fn lc_numeric(&self) -> (details: &Option<LCNumeric>)
        ensures
            *details == self.spec_details().numeric,
    {
        &self.lc_numeric
    }

    /// The conventions for time, where they are known.
    pub fn lc_time(&self) -> (details: &Option<LCTime>)
        ensures
            *details == self.spec_details().time,
    {
        &self.lc_time
    }

    /// The conventions for money, where they are known.
    pub fn lc_monetary(&self) -> (details: &Option<LCMonetary>)
        ensures
            *details == self.spec_details().monetary,
    {
        &self.lc_monetary
    }

    /// The conventions for addresses, where they are known.
    pub fn lc_addr(&self) -> (details: &Option<LCAddress>)
        ensures
            *details == self.spec_details().address,
    {
        &self.lc_addr
    }

    /// The conventions for telephone numbers, where they are known.
    pub fn lc_tel(&self) -> (details: &Option<LCTelephone>)
        ensures
            *details == self.spec_details().telephone,
    {
        &self.lc_tel
    }

    /// The locales to choose from.
    pub fn ls_locale(&self) -> (locales: &Vec<String>)
        ensures
            texts(locales@) == self.spec_locales(),
    {
        &self.ls_locale
    }
}

/// What is known of the keyboard and the language.
pub struct LocaleView {
    pub lang: Seq<char>,
    pub locales: Seq<Seq<char>>,
    pub vc_keymap: Seq<char>,
    pub vc_toggle_keymap: Option<Seq<char>>,
    pub x11_layout: Seq<char>,
    pub x11_model: Option<Seq<char>>,
    pub x11_variant: Option<Seq<char>>,
    pub x11_options: Option<Seq<char>>,
    pub details: DetailsView,
}

/// The locale and the keyboard of the system.
#[derive(Debug, PartialEq, Eq)]
pub struct LocaleManager {
    system_locale: SystemLocale,
    vc_keymap: String,
    vc_toggle_keymap: Option<String>,
    x11_layout: String,
    x11_model: Option<String>,
    x11_variant: Option<String>,
    x11_options: Option<String>,
}

/// The view of a string that may be absent.
pub open spec fn opt_text(o: Option<String>) -> Option<Seq<char>> {
    match o {
        Some(s) => Some(s@),
        None => None,
    }
}

impl View for LocaleManager {
    type V = LocaleView;

    closed spec fn view(&self) -> LocaleView {
        LocaleView {
            lang: self.system_locale.spec_lang(),
            locales: self.system_locale.spec_locales(),
            vc_keymap: self.vc_keymap@,
            vc_toggle_keymap: opt_text(self.vc_toggle_keymap),
            x11_layout: self.x11_layout@,
            x11_model: opt_text(self.x11_model),
            x11_variant: opt_text(self.x11_variant),
            x11_options: opt_text(self.x11_options),
            details: self.system_locale.spec_details(),
        }
    }
}

/// Nothing known.
pub open spec fn empty_view() -> LocaleView {
    LocaleView {
        lang: Seq::<char>::empty(),
        locales: Seq::<Seq<char>>::empty(),
        vc_keymap: Seq::<char>::empty(),
        vc_toggle_keymap: None,
        x11_layout: Seq::<char>::empty(),
        x11_model: None,
        x11_variant: None,
        x11_options: None,
        details: DetailsView {
            numeric: None,
            time: None,
            monetary: None,
            address: None,
            telephone: None,
        },
    }
}

/// What is known after one line of what `localectl status` printed; the
/// language is taken from it only where `full` says that the status lists
/// the locale.
pub open spec fn status_applied(v: LocaleView, line: Seq<char>, full: bool) -> LocaleView {
    let keyboard = val_from_keyval(line, seq![':']);
    if full && starts_with(line, "System Locale:"@) {
        LocaleView { lang: val_from_keyval(line, seq!['=']), ..v }
    } else if full && (starts_with(line, "LC_NUMERIC"@) || starts_with(line, "LC_TIME"@)
        || starts_with(line, "LC_MONETARY"@) || starts_with(line, "LC_ADDRESS"@) || starts_with(
        line,
        "LC_TELEPHONE"@,
    )) {
        v
    } else if starts_with(line, "VC Keymap:"@) {
        LocaleView { vc_keymap: keyboard, ..v }
    } else if starts_with(line, "VC Toggle Keymap:"@) {
        LocaleView { vc_toggle_keymap: Some(keyboard), ..v }
    } else if starts_with(line, "X11 Layout:"@) {
        LocaleView { x11_layout: keyboard, ..v }
    } else if starts_with(line, "X11 Model:"@) {
        LocaleView { x11_model: Some(keyboard), ..v }
    } else if starts_with(line, "X11 Variant:"@) {
        LocaleView { x11_variant: Some(keyboard), ..v }
    } else if starts_with(line, "X11 Options:"@) {
        LocaleView { x11_options: Some(keyboard), ..v }
    } else {
        v
    }
}

/// What is known after the given lines of the status, each without the
/// white space around it.
pub open spec fn statuses_applied(v: LocaleView, lines: Seq<Seq<char>>, full: bool) -> LocaleView
    decreases lines.len(),
{
    if lines.len() == 0 {
        v
    } else {
        status_applied(statuses_applied(v, lines.drop_last(), full), trim(lines.last()), full)
    }
}

/// What is known after one line of what `locale` printed.
pub open spec fn lang_applied(v: LocaleView, line: Seq<char>) -> LocaleView {
    if starts_with(line, "LANG"@) {
        LocaleView { lang: val_from_keyval(line, seq!['=']), ..v }
    } else {
        v
    }
}

/// What is known after the given lines of what `locale` printed.
pub open spec fn langs_applied(v: LocaleView, lines: Seq<Seq<char>>) -> LocaleView
    decreases lines.len(),
{
    if lines.len() == 0 {
        v
    } else {
        lang_applied(langs_applied(v, lines.drop_last()), lines.last())
    }
}

/// The status lists the locale: it has more than four lines.
pub open spec fn is_full(status: Option<Seq<char>>) -> bool {
    match status {
        Some(text) => lines(text).len() > 4,
        None => false,
    }
}

/// What is known from what `localectl status`, `locale` and `localectl
/// list-locales` printed, each where it ran. The language comes from the
/// status where the status lists it, else from `locale`.
pub open spec fn loaded(
    status: Option<Seq<char>>,
    locale: Option<Seq<char>>,
    locales: Option<Seq<char>>,
) -> LocaleView {
    let from_status = match status {
        Some(text) => statuses_applied(empty_view(), lines(text), is_full(status)),
        None => empty_view(),
    };
    let with_lang = if is_full(status) {
        from_status
    } else {
        match locale {
            Some(text) => langs_applied(from_status, lines(text)),
            None => from_status,
        }
    };
    match locales {
        Some(text) => LocaleView { locales: lines(text), ..with_lang },
        None => with_lang,
    }
}

/// The setting, other than the language, that a line names, with the
/// locale that the line gives for it.
pub open spec fn setting_of(line: Seq<char>) -> Option<(LC_Keywords, Seq<char>)> {
    let value = val_from_keyval(line, seq!['=']);
    if starts_with(line, "LC_NUMERIC"@) {
        Some((LC_Keywords::LC_NUMERIC, value))
    } else if starts_with(line, "LC_TIME"@) {
        Some((LC_Keywords::LC_TIME, value))
    } else if starts_with(line, "LC_MONETARY"@) {
        Some((LC_Keywords::LC_MONETARY, value))
    } else if starts_with(line, "LC_ADDRESS"@) {
        Some((LC_Keywords::LC_ADDRESS, value))
    } else if starts_with(line, "LC_TELEPHONE"@) {
        Some((LC_Keywords::LC_TELEPHONE, value))
    } else {
        None
    }
}

/// The settings that the lines name, in their order; each line is taken
/// without the white space around it where `trimmed` says so.
pub open spec fn settings_in(lines: Seq<Seq<char>>, trimmed: bool) -> Seq<
    (LC_Keywords, Seq<char>),
>
    decreases lines.len(),
{
    if lines.len() == 0 {
        Seq::<(LC_Keywords, Seq<char>)>::empty()
    } else {
        let line = if trimmed {
            trim(lines.last())
        } else {
            lines.last()
        };
        match setting_of(line) {
            Some(setting) => settings_in(lines.drop_last(), trimmed).push(setting),
            None => settings_in(lines.drop_last(), trimmed),
        }
    }
}

/// The settings, other than the language, whose details are to be read:
/// those that the status names where it lists the locale, else those that
/// `locale` names.
pub open spec fn settings_listed(status: Option<Seq<char>>, locale: Option<Seq<char>>) -> Seq<
    (LC_Keywords, Seq<char>),
> {
    if is_full(status) {
        settings_in(lines(status->0), true)
    } else {
        match locale {
            Some(text) => settings_in(lines(text), false),
            None => Seq::<(LC_Keywords, Seq<char>)>::empty(),
        }
    }
}

/// The views of a list of settings.
pub open spec fn setting_views(list: Seq<(LC_Keywords, String)>) -> Seq<(LC_Keywords, Seq<char>)> {
    Seq::new(list.len(), |i: int| (list[i].0, list[i].1@))
}

/// The lines that are kept of the details of the conventions for time.
pub open spec fn time_lines(all: Seq<Seq<char>>) -> Seq<Seq<char>>
    decreases all.len(),
{
    if all.len() == 0 {
        all
    } else if starts_with(all.last(), "era="@) || starts_with(all.last(), "alt_digits="@)
        || starts_with(all.last(), "time_era_entries="@) {
        time_lines(all.drop_last())
    } else {
        time_lines(all.drop_last()).push(all.last())
    }
}

/// The lines that are kept of the details of the conventions for money.
pub open spec fn monetary_lines(all: Seq<Seq<char>>) -> Seq<Seq<char>>
    decreases all.len(),
{
    if all.len() == 0 {
        all
    } else if starts_with(all.last(), "mon_grouping="@) || starts_with(
        all.last(),
        "conversion_rate="@,
    ) {
        monetary_lines(all.drop_last())
    } else {
        monetary_lines(all.drop_last()).push(all.last())
    }
}

/// The details of the conventions for time, made fit to be read as a
/// table of keys and values: an underscore for every hyphen, and without
/// the lines of eras and of the digits of other scripts.
pub open spec fn time_details(stdout: Seq<char>) -> Seq<char> {
    join(time_lines(lines(replace(stdout, seq!['-'], seq!['_']))), seq!['\n'])
}

/// The details of the conventions for money, made fit to be read as a
/// table of keys and values: an underscore for every hyphen, and without
/// the lines of the grouping and of the rate of conversion.
pub open spec fn monetary_details(stdout: Seq<char>) -> Seq<char> {
    join(monetary_lines(lines(replace(stdout, seq!['-'], seq!['_']))), seq!['\n'])
}

/// The details of the conventions for time, made fit to be read as a
/// table of keys and values.
pub fn format_time_details(stdout: &str) -> (r: String)
    ensures
        r@ == time_details(stdout@),
{
    proof {
        reveal_strlit("-");
        reveal_strlit("_");
        reveal_strlit("\n");
        assert("-"@ =~= seq!['-']);
        assert("_"@ =~= seq!['_']);
        assert("\n"@ =~= seq!['\n']);
    }
    let all = str_lines(str_replace(stdout, "-", "_").as_str());
    let mut out: Vec<String> = Vec::new();
    let mut i: usize = 0;
    assert(texts(all@).take(0) =~= Seq::<Seq<char>>::empty());
    assert(texts(out@) =~= Seq::<Seq<char>>::empty());
    while i < all.len()
        invariant
            i <= all.len(),
            texts(out@) == time_lines(texts(all@).take(i as int)),
        decreases all.len() - i,
    {
        let ghost head = texts(all@).take(i + 1);
        assert(head.drop_last() =~= texts(all@).take(i as int));
        assert(head.last() == all@[i as int]@);
        let line = all[i].as_str();
        if !(str_starts_with(line, "era=") || str_starts_with(line, "alt_digits=")
            || str_starts_with(line, "time_era_entries=")) {
            let ghost before = texts(out@);
            out.push(all[i].clone());
            assert(texts(out@) =~= before.push(line@));
        }
        i = i + 1;
    }
    assert(texts(all@).take(all.len() as int) =~= texts(all@));
    str_join(&out, "\n")
}

/// The details of the conventions for money, made fit to be read as a
/// table of keys and values.
pub fn format_monetary_details(stdout: &str) -> (r: String)
    ensures
        r@ == monetary_details(stdout@),
{
    proof {
        reveal_strlit("-");
        reveal_strlit("_");
        reveal_strlit("\n");
        assert("-"@ =~= seq!['-']);
        assert("_"@ =~= seq!['_']);
        assert("\n"@ =~= seq!['\n']);
    }
    let all = str_lines(str_replace(stdout, "-", "_").as_str());
    let mut out: Vec<String> = Vec::new();
    let mut i: usize = 0;
    assert(texts(all@).take(0) =~= Seq::<Seq<char>>::empty());
    assert(texts(out@) =~= Seq::<Seq<char>>::empty());
    while i < all.len()
        invariant
            i <= all.len(),
            texts(out@) == monetary_lines(texts(all@).take(i as int)),
        decreases all.len() - i,
    {
        let ghost head = texts(all@).take(i + 1);
        assert(head.drop_last() =~= texts(all@).take(i as int));
        assert(head.last() == all@[i as int]@);
        let line = all[i].as_str();
        if !(str_starts_with(line, "mon_grouping=") || str_starts_with(line, "conversion_rate=")) {
            let ghost before = texts(out@);
            out.push(all[i].clone());
            assert(texts(out@) =~= before.push(line@));
        }
        i = i + 1;
    }
    assert(texts(all@).take(all.len() as int) =~= texts(all@));
    str_join(&out, "\n")
}

/// The setting, other than the language, that a line names.
fn setting_from(line: &str) -> (r: Option<(LC_Keywords, String)>)
    ensures
        match r {
            Some(setting) => setting_of(line@) == Some((setting.0, setting.1@)),
            None => setting_of(line@) is None,
        },
{
    let keyword = if str_starts_with(line, "LC_NUMERIC") {
        LC_Keywords::LC_NUMERIC
    } else if str_starts_with(line, "LC_TIME") {
        LC_Keywords::LC_TIME
    } else if str_starts_with(line, "LC_MONETARY") {
        LC_Keywords::LC_MONETARY
    } else if str_starts_with(line, "LC_ADDRESS") {
        LC_Keywords::LC_ADDRESS
    } else if str_starts_with(line, "LC_TELEPHONE") {
        LC_Keywords::LC_TELEPHONE
    } else {
        return None;
    };
    Some((keyword, get_val_from_keyval(line, None)))
}

/// The settings that the lines of a text name.
fn settings_from(text: &str, trimmed: bool) -> (r: Vec<(LC_Keywords, String)>)
    ensures
        setting_views(r@) == settings_in(lines(text@), trimmed),
{
    let all = str_lines(text);
    let mut r: Vec<(LC_Keywords, String)> = Vec::new();
    let mut i: usize = 0;
    assert(texts(all@).take(0) =~= Seq::<Seq<char>>::empty());
    assert(setting_views(r@) =~= Seq::<(LC_Keywords, Seq<char>)>::empty());
    while i < all.len()
        invariant
            i <= all.len(),
            setting_views(r@) == settings_in(texts(all@).take(i as int), trimmed),
        decreases all.len() - i,
    {
        assert(texts(all@).take(i + 1).drop_last() =~= texts(all@).take(i as int));
        assert(texts(all@).take(i + 1).last() == all@[i as int]@);
        let found = if trimmed {
            setting_from(str_trim(all[i].as_str()).as_str())
        } else {
            setting_from(all[i].as_str())
        };
        match found {
            Some(setting) => {
                let ghost before = setting_views(r@);
                r.push(setting);
                assert(setting_views(r@) =~= before.push((setting.0, setting.1@)));
            },
            None => {},
        }
        i = i + 1;
    }
    assert(texts(all@).take(all.len() as int) =~= texts(all@));
    r
}

/// A command of `localectl`.
fn localectl(args: Vec<&str>) -> (cmd: Command)
    ensures
        cmd.runs("localectl"@, crate::helpers::text::strs(args@)),
{
    Command::new("localectl", owned_list(args))
}

/// The text, or the empty text where there is none.
pub open spec fn or_empty(o: Option<Seq<char>>) -> Seq<char> {
    match o {
        Some(s) => s,
        None => Seq::<char>::empty(),
    }
}

/// The text, or the empty text where there is none.
fn text_or_empty<'a>(o: Option<&'a str>) -> (r: &'a str)
    ensures
        r@ == or_empty(opt_view(o)),
{
    proof {
        reveal_strlit("");
        assert(""@ =~= Seq::<char>::empty());
    }
    match o {
        Some(s) => s,
        None => "",
    }
}

/// An owned copy of the text, where there is one.
fn owned(o: Option<&str>) -> (r: Option<String>)
    ensures
        opt_text(r) == opt_view(o),
{
    match o {
        Some(s) => Some(s.to_owned()),
        None => None,
    }
}

impl LocaleManager {
    /// A manager that knows nothing.
    fn empty() -> (manager: LocaleManager)
        ensures
            manager@ == empty_view(),
    {
        let manager = LocaleManager {
            system_locale: SystemLocale {
                lang: String::new(),
                lc_numeric: None,
                lc_time: None,
                lc_monetary: None,
                lc_addr: None,
                lc_tel: None,
                ls_locale: Vec::new(),
            },
            vc_keymap: String::new(),
            vc_toggle_keymap: None,
            x11_layout: String::new(),
            x11_model: None,
            x11_variant: None,
            x11_options: None,
        };
        assert(texts(manager.system_locale.ls_locale@) =~= Seq::<Seq<char>>::empty());
        manager
    }

    /// The locale of the system.
    pub closed spec fn spec_system_locale(&self) -> SystemLocale {
        self.system_locale
    }

    /// Takes one line of the status.
    fn apply_status(&mut self, line: &str, full: bool)
        ensures
            final(self)@ == status_applied(old(self)@, line@, full),
    {
        proof {
            reveal_strlit(":");
            assert(":"@ =~= seq![':']);
        }
        if full && str_starts_with(line, "System Locale:") {
            self.system_locale.lang = get_val_from_keyval(line, None);
        } else if full && (str_starts_with(line, "LC_NUMERIC") || str_starts_with(line, "LC_TIME")
            || str_starts_with(line, "LC_MONETARY") || str_starts_with(line, "LC_ADDRESS")
            || str_starts_with(line, "LC_TELEPHONE")) {
        } else if str_starts_with(line, "VC Keymap:") {
            self.vc_keymap = get_val_from_keyval(line, Some(":"));
        } else if str_starts_with(line, "VC Toggle Keymap:") {
            self.vc_toggle_keymap = Some(get_val_from_keyval(line, Some(":")));
        } else if str_starts_with(line, "X11 Layout:") {
            self.x11_layout = get_val_from_keyval(line, Some(":"));
        } else if str_starts_with(line, "X11 Model:") {
            self.x11_model = Some(get_val_from_keyval(line, Some(":")));
        } else if str_starts_with(line, "X11 Variant:") {
            self.x11_variant = Some(get_val_from_keyval(line, Some(":")));
        } else if str_starts_with(line, "X11 Options:") {
            self.x11_options = Some(get_val_from_keyval(line, Some(":")));
        }
    }

    /// The manager for what `localectl status`, `locale` and `localectl
    /// list-locales` printed, each where it ran. The details of the
    /// conventions are taken in afterwards.
    pub fn new(status: Option<&str>, locale: Option<&str>, locales: Option<&str>) -> (manager:
        LocaleManager)
        ensures
            manager@ == loaded(opt_view(status), opt_view(locale), opt_view(locales)),
    {
        proof {
            reveal_strlit(":");
            assert(":"@ =~= seq![':']);
        }
        let mut manager = LocaleManager::empty();
        let mut full = false;
        match status {
            Some(text) => {
                let all = str_lines(text);
                full = all.len() > 4;
                let mut i: usize = 0;
                assert(texts(all@).take(0) =~= Seq::<Seq<char>>::empty());
                while i < all.len()
                    invariant
                        i <= all.len(),
                        ":"@ == seq![':'],
                        manager@ == statuses_applied(
                            empty_view(),
                            texts(all@).take(i as int),
                            full,
                        ),
                    decreases all.len() - i,
                {
                    assert(texts(all@).take(i + 1).drop_last() =~= texts(all@).take(i as int));
                    assert(texts(all@).take(i + 1).last() == all@[i as int]@);
                    let line = str_trim(all[i].as_str());
                    manager.apply_status(line.as_str(), full);
                    i = i + 1;
                }
                assert(texts(all@).take(all.len() as int) =~= texts(all@));
            },
            None => {},
        }
        if !full {
            match locale {
                Some(text) => {
                    let all = str_lines(text);
                    let ghost start = manager@;
                    let mut i: usize = 0;
                    assert(texts(all@).take(0) =~= Seq::<Seq<char>>::empty());
                    while i < all.len()
                        invariant
                            i <= all.len(),
                            manager@ == langs_applied(start, texts(all@).take(i as int)),
                        decreases all.len() - i,
                    {
                        assert(texts(all@).take(i + 1).drop_last() =~= texts(all@).take(i as int));
                        assert(texts(all@).take(i + 1).last() == all@[i as int]@);
                        if str_starts_with(all[i].as_str(), "LANG") {
                            manager.system_locale.lang = get_val_from_keyval(
                                all[i].as_str(),
                                None,
                            );
                        }
                        i = i + 1;
                    }
                    assert(texts(all@).take(all.len() as int) =~= texts(all@));
                },
                None => {},
            }
        }
        match locales {
            Some(text) => {
                manager.system_locale.ls_locale = str_lines(text);
            },
            None => {},
        }
        manager
    }

    /// The settings, other than the language, whose details are to be
    /// read for a new manager, with their locales, in the order in which
    /// they are named.
    pub fn listed_settings(status: Option<&str>, locale: Option<&str>) -> (r: Vec<
        (LC_Keywords, String),
    >)
        ensures
            setting_views(r@) == settings_listed(opt_view(status), opt_view(locale)),
    {
        let full = match status {
            Some(text) => str_lines(text).len() > 4,
            None => false,
        };
        if full {
            match status {
                Some(text) => settings_from(text, true),
                None => Vec::new(),
            }
        } else {
            match locale {
                Some(text) => settings_from(text, false),
                None => {
                    let r: Vec<(LC_Keywords, String)> = Vec::new();
                    assert(setting_views(r@) =~= Seq::<(LC_Keywords, Seq<char>)>::empty());
                    r
                },
            }
        }
    }

    /// The command that prints the details of a setting.
    pub fn details_command(keyword: LC_Keywords) -> (cmd: Command)
        ensures
            cmd.runs("locale"@, seq!["-k"@, keyword_name(keyword)]),
    {
        let args = owned_list(vec!["-k", keyword.name()]);
        assert(texts(args@) =~= seq!["-k"@, keyword_name(keyword)]);
        Command::new("locale", args)
    }

    /// The command that prints the status.
    pub fn status_command() -> (cmd: Command)
        ensures
            cmd.runs("localectl"@, seq!["status"@]),
    {
        let cmd = localectl(vec!["status"]);
        assert(cmd.runs("localectl"@, seq!["status"@])) by {
            assert(texts(cmd.args@) =~= seq!["status"@]);
        }
        cmd
    }

    /// The command that sets one setting of the locale.
    pub fn set_locale_command(keyword: LC_Keywords, locale: &str) -> (cmd: Command)
        ensures
            cmd.runs(
                "localectl"@,
                seq!["set-locale"@, keyword_name(keyword) + seq!['='] + locale@],
            ),
    {
        proof {
            reveal_strlit("=");
            assert("="@ =~= seq!['=']);
        }
        let key = str_concat(keyword.name(), "=");
        let setting = str_concat(key.as_str(), locale);
        let cmd = localectl(vec!["set-locale", setting.as_str()]);
        assert(texts(cmd.args@) =~= seq!["set-locale"@, setting@]);
        cmd
    }

    /// Takes note of the setting that was set: the language itself, or
    /// for another setting the details that were read for it, where they
    /// could be read and are those of that setting.
    pub fn set_locale(
        &mut self,
        keyword: LC_Keywords,
        locale: &str,
        details: Option<LCDetails>,
    ) -> (set: bool)
        ensures
            set,
            final(self)@ == if keyword == LC_Keywords::LANG {
                LocaleView { lang: locale@, ..old(self)@ }
            } else {
                match details {
                    Some(d) => if keyword_of(d) == keyword {
                        LocaleView { details: stored(old(self)@.details, d), ..old(self)@ }
                    } else {
                        old(self)@
                    },
                    None => old(self)@,
                }
            },
    {
        match keyword {
            LC_Keywords::LANG => {
                self.system_locale.lang = locale.to_owned();
            },
            _ => match details {
                Some(d) => {
                    let fits = match (&d, keyword) {
                        (LCDetails::Numeric(_), LC_Keywords::LC_NUMERIC) => true,
                        (LCDetails::Time(_), LC_Keywords::LC_TIME) => true,
                        (LCDetails::Monetary(_), LC_Keywords::LC_MONETARY) => true,
                        (LCDetails::Address(_), LC_Keywords::LC_ADDRESS) => true,
                        (LCDetails::Telephone(_), LC_Keywords::LC_TELEPHONE) => true,
                        _ => false,
                    };
                    if fits {
                        self.set_details(d);
                    }
                },
                None => {},
            },
        }
        true
    }

    /// Takes in the details of one kind of conventions.
    pub fn set_details(&mut self, details: LCDetails)
        ensures
            final(self)@ == (LocaleView {
                details: stored(old(self)@.details, details),
                ..old(self)@
            }),
    {
        match details {
            LCDetails::Numeric(n) => {
                self.system_locale.lc_numeric = Some(n);
            },
            LCDetails::Time(t) => {
                self.system_locale.lc_time = Some(t);
            },
            LCDetails::Monetary(m) => {
                self.system_locale.lc_monetary = Some(m);
            },
            LCDetails::Address(a) => {
                self.system_locale.lc_addr = Some(a);
            },
            LCDetails::Telephone(t) => {
                self.system_locale.lc_tel = Some(t);
            },
        }
    }

    /// The locales to choose from.
    pub fn list_locales(&self) -> (locales: &Vec<String>)
        ensures
            texts(locales@) == self@.locales,
    {
        self.system_locale.ls_locale()
    }

    /// The command that lists the keymaps of the console.
    pub fn list_keymaps_command() -> (cmd: Command)
        ensures
            cmd.runs("localectl"@, seq!["list-keymaps"@]),
    {
        let cmd = localectl(vec!["list-keymaps"]);
        assert(texts(cmd.args@) =~= seq!["list-keymaps"@]);
        cmd
    }

    /// The keymaps of the console, from what the command printed.
    pub fn list_keymaps(&self, stdout: &str) -> (r: Vec<String>)
        ensures
            texts(r@) == lines(stdout@),
    {
        str_lines(stdout)
    }

    /// The command that sets the keymap of the console, and the one to
    /// toggle to.
    pub fn set_keymap_command(keymap: &str, toggle_map: Option<&str>) -> (cmd: Command)
        ensures
            cmd.runs("localectl"@, seq!["set-keymap"@, keymap@, or_empty(opt_view(toggle_map))]),
    {
        let cmd = localectl(vec!["set-keymap", keymap, text_or_empty(toggle_map)]);
        assert(texts(cmd.args@) =~= seq!["set-keymap"@, keymap@, or_empty(opt_view(toggle_map))]);
        cmd
    }

    /// Takes note of the keymap that was set.
    pub fn set_keymap(&mut self, keymap: &str, toggle_map: Option<&str>) -> (set: bool)
        ensures
            set,
            final(self)@ == (LocaleView {
                vc_keymap: keymap@,
                vc_toggle_keymap: opt_view(toggle_map),
                ..old(self)@
            }),
    {
        self.vc_keymap = keymap.to_owned();
        self.vc_toggle_keymap = owned(toggle_map);
        true
    }

    /// The command that lists the models of keyboards.
    pub fn list_keymap_models_command() -> (cmd: Command)
        ensures
            cmd.runs("localectl"@, seq!["list-x11-keymap-models"@]),
    {
        let cmd = localectl(vec!["list-x11-keymap-models"]);
        assert(texts(cmd.args@) =~= seq!["list-x11-keymap-models"@]);
        cmd
    }

    /// The models of keyboards, from what the command printed.
    pub fn list_keymap_models(&self, stdout: &str) -> (r: Vec<String>)
        ensures
            texts(r@) == lines(stdout@),
    {
        str_lines(stdout)
    }

    /// The command that lists the layouts of keyboards.
    pub fn list_keymap_layouts_command() -> (cmd: Command)
        ensures
            cmd.runs("localectl"@, seq!["list-x11-keymap-layouts"@]),
    {
        let cmd = localectl(vec!["list-x11-keymap-layouts"]);
        assert(texts(cmd.args@) =~= seq!["list-x11-keymap-layouts"@]);
        cmd
    }

    /// The layouts of keyboards, from what the command printed.
    pub fn list_keymap_layouts(&self, stdout: &str) -> (r: Vec<String>)
        ensures
            texts(r@) == lines(stdout@),
    {
        str_lines(stdout)
    }

    /// The command that lists the variants of a layout.
    pub fn list_keymap_variants_command(layout: &str) -> (cmd: Command)
        ensures
            cmd.runs("localectl"@, seq!["list-x11-keymap-variants"@, layout@]),
    {
        let cmd = localectl(vec!["list-x11-keymap-variants", layout]);
        assert(texts(cmd.args@) =~= seq!["list-x11-keymap-variants"@, layout@]);
        cmd
    }

    /// The variants of a layout, from what the command printed.
    pub fn list_keymap_variants(&self, stdout: &str) -> (r: Vec<String>)
        ensures
            texts(r@) == lines(stdout@),
    {
        str_lines(stdout)
    }

    /// The command that lists the options of keyboards.
    pub fn list_keymap_options_command() -> (cmd: Command)
        ensures
            cmd.runs("localectl"@, seq!["list-x11-keymap-options"@]),
    {
        let cmd = localectl(vec!["list-x11-keymap-options"]);
        assert(texts(cmd.args@) =~= seq!["list-x11-keymap-options"@]);
        cmd
    }

    /// The options of keyboards, from what the command printed.
    pub fn list_keymap_options(&self, stdout: &str) -> (r: Vec<String>)
        ensures
            texts(r@) == lines(stdout@),
    {
        str_lines(stdout)
    }

    /// The command that sets the keyboard of the graphical session.
    pub fn set_x11_keymap_command(
        layout: &str,
        model: Option<&str>,
        variant: Option<&str>,
        opts: Option<&str>,
    ) -> (cmd: Command)
        ensures
            cmd.runs(
                "localectl"@,
                seq![
                    "set-x11-keymap"@,
                    layout@,
                    or_empty(opt_view(model)),
                    or_empty(opt_view(variant)),
                    or_empty(opt_view(opts)),
                ],
            ),
    {
        let cmd = localectl(
            vec![
                "set-x11-keymap",
                layout,
                text_or_empty(model),
                text_or_empty(variant),
                text_or_empty(opts),
            ],
        );
        assert(texts(cmd.args@) =~= seq![
            "set-x11-keymap"@,
            layout@,
            or_empty(opt_view(model)),
            or_empty(opt_view(variant)),
            or_empty(opt_view(opts)),
        ]);
        cmd
    }

    /// Takes note of the keyboard of the graphical session that was set.
    pub fn set_x11_keymap(
        &mut self,
        layout: &str,
        model: Option<&str>,
        variant: Option<&str>,
        opts: Option<&str>,
    ) -> (set: bool)
        ensures
            set,
            final(self)@ == (LocaleView {
                x11_layout: layout@,
                x11_model: opt_view(model),
                x11_variant: opt_view(variant),
                x11_options: opt_view(opts),
                ..old(self)@
            }),
    {
        self.x11_layout = layout.to_owned();
        self.x11_model = owned(model);
        self.x11_variant = owned(variant);
        self.x11_options = owned(opts);
        true
    }

    /// The locale of the system.
    pub fn system_locale(&self) -> (locale: &SystemLocale)
        ensures
            *locale == self.spec_system_locale(),
            locale.spec_lang() == self@.lang,
            locale.spec_locales() == self@.locales,
            locale.spec_details() == self@.details,
    {
        &self.system_locale
    }

    /// The keymap of the console.
    pub fn vc_keymap(&self) -> (keymap: &String)
        ensures
            keymap@ == self@.vc_keymap,
    {
        &self.vc_keymap
    }

    /// The keymap of the console to toggle to.
    pub fn vc_toggle_keymap(&self) -> (keymap: &Option<String>)
        ensures
            opt_text(*keymap) == self@.vc_toggle_keymap,
    {
        &self.vc_toggle_keymap
    }

    /// The layout of the keyboard of the graphical session.
    pub fn x11_layout(&self) -> (layout: &String)
        ensures
            layout@ == self@.x11_layout,
    {
        &self.x11_layout
    }

    /// The model of the keyboard.
    pub fn x11_model(&self) -> (model: &Option<String>)
        ensures
            opt_text(*model) == self@.x11_model,
    {
        &self.x11_model
    }

    /// The variant of the layout.
    pub fn x11_variant(&self) -> (variant: &Option<String>)
        ensures
            opt_text(*variant) == self@.x11_variant,
    {
        &self.x11_variant
    }

    /// The options of the keyboard.
    pub fn x11_options(&self) -> (options: &Option<String>)
        ensures
            opt_text(*options) == self@.x11_options,
    {
        &self.x11_options
    }
}

} // verus!
