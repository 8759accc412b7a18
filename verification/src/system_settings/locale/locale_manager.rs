//! The locale, with settings that are chosen one by one and written
//! together.
use vstd::prelude::*;
use super::locale_category::{LCMeasure, LCMonetary, LCNumeric, LCTime};
use super::{before_bracket, pair_views};
use crate::helpers::cmd_output_helper::{get_val_from_keyval, val_from_keyval};
use crate::helpers::search::{first_index, lemma_first_index};
use crate::helpers::text::{
    append_chars, contains, from_chars, join, lines, same_text, slice_chars, split, starts_with,
    str_concat, str_contains, str_join, str_lines, str_split, str_starts_with, str_to_uppercase,
    str_trim, texts, to_chars, trim, uppercase,
};

verus! {

/// The settings that can be chosen.
#[allow(non_camel_case_types)]
#[derive(Debug, Clone, Copy, PartialEq, Eq, Structural)]
pub enum LC_Keywords {
    LANG,
    LANGUAGE,
    LC_NUMERIC,
    LC_TIME,
    LC_MONETARY,
    LC_MEASUREMENT,
}

/// The name of a setting, as the environment holds it.
pub open spec fn keyword_name(keyword: LC_Keywords) -> Seq<char> {
    match keyword {
        LC_Keywords::LANG => "LANG"@,
        LC_Keywords::LANGUAGE => "LANGUAGE"@,
        LC_Keywords::LC_NUMERIC => "LC_NUMERIC"@,
        LC_Keywords::LC_TIME => "LC_TIME"@,
        LC_Keywords::LC_MONETARY => "LC_MONETARY"@,
        LC_Keywords::LC_MEASUREMENT => "LC_MEASUREMENT"@,
    }
}

impl LC_Keywords {
    /// The name of the setting.
    pub fn name(&self) -> (name: &'static str)
        ensures
            name@ == keyword_name(*self),
    {
        match self {
            LC_Keywords::LANG => "LANG",
            LC_Keywords::LANGUAGE => "LANGUAGE",
            LC_Keywords::LC_NUMERIC => "LC_NUMERIC",
            LC_Keywords::LC_TIME => "LC_TIME",
            LC_Keywords::LC_MONETARY => "LC_MONETARY",
            LC_Keywords::LC_MEASUREMENT => "LC_MEASUREMENT",
        }
    }
}

/// The locales that stand for the systems of measures, with the names of
/// those systems.
pub fn ls_measure_units() -> (units: Vec<(String, String)>)
    ensures
        pair_views(units@) == seq![
            ("km_KH.UTF-8"@, "Metric"@),
            ("en_US.UTF-8"@, "Imperial US"@),
            ("en_GB.UTF-8"@, "Imperial UK"@),
        ],
{
    let mut units: Vec<(String, String)> = Vec::new();
    units.push(("km_KH.UTF-8".to_owned(), "Metric".to_owned()));
    units.push(("en_US.UTF-8".to_owned(), "Imperial US".to_owned()));
    units.push(("en_GB.UTF-8".to_owned(), "Imperial UK".to_owned()));
    assert(pair_views(units@) =~= seq![
        ("km_KH.UTF-8"@, "Metric"@),
        ("en_US.UTF-8"@, "Imperial US"@),
        ("en_GB.UTF-8"@, "Imperial UK"@),
    ]);
    units
}

/// The settings of the file `locale.conf`.
#[derive(Debug, PartialEq, Eq)]
pub struct LocaleConf {
    pub lang: String,
    pub language: String,
    pub lc_numeric: String,
    pub lc_time: String,
    pub lc_monetary: String,
    pub lc_measure: String,
}

/// What the settings of the file are.
pub struct ConfView {
    pub lang: Seq<char>,
    pub language: Seq<char>,
    pub lc_numeric: Seq<char>,
    pub lc_time: Seq<char>,
    pub lc_monetary: Seq<char>,
    pub lc_measure: Seq<char>,
}

impl View for LocaleConf {
    type V = ConfView;

    open spec fn view(&self) -> ConfView {
        ConfView {
            lang: self.lang@,
            language: self.language@,
            lc_numeric: self.lc_numeric@,
            lc_time: self.lc_time@,
            lc_monetary: self.lc_monetary@,
            lc_measure: self.lc_measure@,
        }
    }
}

/// Settings that are all empty.
pub open spec fn empty_conf() -> ConfView {
    ConfView {
        lang: Seq::<char>::empty(),
        language: Seq::<char>::empty(),
        lc_numeric: Seq::<char>::empty(),
        lc_time: Seq::<char>::empty(),
        lc_monetary: Seq::<char>::empty(),
        lc_measure: Seq::<char>::empty(),
    }
}

impl Default for LocaleConf {
    fn default() -> (conf: LocaleConf)
        ensures
            conf@ == empty_conf(),
    {
        LocaleConf {
            lang: String::new(),
            language: String::new(),
            lc_numeric: String::new(),
            lc_time: String::new(),
            lc_monetary: String::new(),
            lc_measure: String::new(),
        }
    }
}

/// The details of the conventions, kind by kind.
pub struct DetailsView {
    pub numeric: LCNumeric,
    pub time: LCTime,
    pub monetary: LCMonetary,
    pub measure: LCMeasure,
}

/// No details are known: every text is empty and every number is zero.
pub open spec fn no_details(d: DetailsView) -> bool {
    &&& d.numeric.is_default()
    &&& d.time.is_default()
    &&& d.monetary.is_default()
    &&& d.measure.is_default()
}

/// What the manager knows of the locale, but for the details of the
/// conventions: the settings in force, the locales to choose from, and the
/// settings chosen since the last writing.
pub struct LocaleView {
    pub conf: ConfView,
    pub list_locales: Seq<Seq<char>>,
    pub list_langs: Seq<(Seq<char>, Seq<char>)>,
    pub tmp_locale: ConfView,
}

/// The locale of the system.
#[derive(Debug)]
pub struct LocaleManager {
    lang: String,
    language: String,
    lc_numeric: (String, LCNumeric),
    lc_time: (String, LCTime),
    lc_monetary: (String, LCMonetary),
    lc_measure: (String, LCMeasure),
    list_locales: Vec<String>,
    list_langs: Vec<(String, String)>,
    tmp_locale: LocaleConf,
}

impl View for LocaleManager {
    type V = LocaleView;

    closed spec fn view(&self) -> LocaleView {
        LocaleView {
            conf: ConfView {
                lang: self.lang@,
                language: self.language@,
                lc_numeric: self.lc_numeric.0@,
                lc_time: self.lc_time.0@,
                lc_monetary: self.lc_monetary.0@,
                lc_measure: self.lc_measure.0@,
            },
            list_locales: texts(self.list_locales@),
            list_langs: pair_views(self.list_langs@),
            tmp_locale: self.tmp_locale@,
        }
    }
}

/// The settings after one line of what `locale` prints.
pub open spec fn name_applied(c: ConfView, line: Seq<char>) -> ConfView {
    let value = val_from_keyval(line, seq!['=']);
    if starts_with(line, "LANG"@) {
        ConfView { lang: value, ..c }
    } else if starts_with(line, "LC_NUMERIC"@) {
        ConfView { lc_numeric: value, ..c }
    } else if starts_with(line, "LC_TIME"@) {
        ConfView { lc_time: value, ..c }
    } else if starts_with(line, "LC_MONETARY"@) {
        ConfView { lc_monetary: value, ..c }
    } else if starts_with(line, "LC_MEASUREMENT"@) {
        ConfView { lc_measure: value, ..c }
    } else {
        c
    }
}

/// The settings after the given lines, one after the other.
pub open spec fn names_applied(c: ConfView, lines: Seq<Seq<char>>) -> ConfView
    decreases lines.len(),
{
    if lines.len() == 0 {
        c
    } else {
        name_applied(names_applied(c, lines.drop_last()), lines.last())
    }
}

/// What `char::is_numeric` says of a character: whether it is a digit or
/// another numeral of some script.
pub uninterp spec fn numeric_char(c: char) -> bool;

/// `char::is_numeric`: whether the character is a numeral, which depends
/// on the character alone.
#[verifier::external_body]
fn is_numeric(c: char) -> (r: bool)
    ensures
        r == numeric_char(c),
{
    c.is_numeric()
}

/// The characters that are numerals.
pub open spec fn numerals() -> spec_fn(char) -> bool {
    |c: char| numeric_char(c)
}

/// The name of a character set as it is written in full: in upper case,
/// with a hyphen before its first numeral, or at its end where it has none.
pub open spec fn charset_formatted(charset: Seq<char>) -> Seq<char> {
    let upper = uppercase(charset);
    let i = first_index(upper, numerals());
    upper.subrange(0, i) + seq!['-'] + upper.subrange(i, upper.len() as int)
}

/// A locale of the archive as it is written in full: the character set
/// that follows the first dot is formatted, and what follows a second dot
/// is dropped.
pub open spec fn locale_formatted(line: Seq<char>) -> Seq<char> {
    let parts = split(line, seq!['.']);
    if parts.len() > 1 {
        parts[0] + seq!['.'] + charset_formatted(parts[1])
    } else if parts.len() == 1 {
        parts[0]
    } else {
        Seq::<char>::empty()
    }
}

/// The locales to choose from: those lines of the archive that hold
/// `.utf8`, written in full.
pub open spec fn locales_listed(all: Seq<Seq<char>>) -> Seq<Seq<char>>
    decreases all.len(),
{
    if all.len() == 0 {
        all
    } else if contains(all.last(), ".utf8"@) {
        locales_listed(all.drop_last()).push(locale_formatted(all.last()))
    } else {
        locales_listed(all.drop_last())
    }
}

/// The lines, each without the white space around it.
pub open spec fn trimmed(all: Seq<Seq<char>>) -> Seq<Seq<char>> {
    Seq::new(all.len(), |i: int| trim(all[i]))
}

/// The name shown for a locale: the language and the country that
/// `locale lang_name country_name` printed, with the locale in brackets
/// behind them, or the locale alone where it printed nothing.
pub open spec fn lang_region(locale: Seq<char>, stdout: Seq<char>) -> Seq<char> {
    if trim(stdout).len() > 0 {
        trim(join(trimmed(lines(stdout)), " — "@)) + " ("@ + locale + ")"@
    } else {
        locale
    }
}

/// The locales with the names shown for them; a locale for which the
/// command failed is left out.
pub open spec fn langs_listed(locales: Seq<Seq<char>>, outputs: Seq<Option<String>>) -> Seq<
    (Seq<char>, Seq<char>),
>
    decreases locales.len(),
{
    if locales.len() == 0 {
        Seq::<(Seq<char>, Seq<char>)>::empty()
    } else {
        let rest = langs_listed(locales.drop_last(), outputs);
        let i = locales.len() - 1;
        if i < outputs.len() && outputs[i] is Some {
            rest.push((locales.last(), lang_region(locales.last(), outputs[i]->0@)))
        } else {
            rest
        }
    }
}

/// The entries for the locale `key`.
pub open spec fn locale_is(key: Seq<char>) -> spec_fn((Seq<char>, Seq<char>)) -> bool {
    |entry: (Seq<char>, Seq<char>)| entry.0 == key
}

/// The entry of the list for a locale, or the locale for both parts where
/// the list has none for it.
pub open spec fn entry_for(list: Seq<(Seq<char>, Seq<char>)>, locale: Seq<char>) -> (
    Seq<char>,
    Seq<char>,
) {
    let i = first_index(list, locale_is(locale));
    if i < list.len() {
        list[i]
    } else {
        (locale, locale)
    }
}

/// The entry shown for one preferred language.
pub open spec fn prefered_entry(v: LocaleView, language: Seq<char>) -> (Seq<char>, Seq<char>) {
    let i = first_index(v.list_langs, locale_is(language + ".UTF-8"@));
    if i < v.list_langs.len() {
        (v.list_langs[i].0, before_bracket(v.list_langs[i].1))
    } else {
        entry_for(v.list_langs, v.conf.lang)
    }
}

/// The preferred languages with the names shown for them: the language of
/// the system alone where none is preferred.
pub open spec fn prefered_langs(v: LocaleView) -> Seq<(Seq<char>, Seq<char>)> {
    if v.conf.language.len() == 0 {
        seq![(v.conf.lang, before_bracket(entry_for(v.list_langs, v.conf.lang).1))]
    } else {
        let wanted = split(v.conf.language, seq![':']);
        Seq::new(wanted.len(), |i: int| prefered_entry(v, wanted[i]))
    }
}

/// The text of the file that sets the locale.
pub open spec fn locale_string(conf: ConfView) -> Seq<char> {
    "LANG="@ + conf.lang + "\nLANGUAGE="@ + conf.language + "\nLC_NUMERIC="@ + conf.lc_numeric
        + "\nLC_TIME="@ + conf.lc_time + "\nLC_MONETARY="@ + conf.lc_monetary
        + "\nLC_MEASUREMENT="@ + conf.lc_measure + "\n"@
}

/// The settings with one of them chosen anew.
pub open spec fn chosen(conf: ConfView, key: LC_Keywords, locale: Seq<char>) -> ConfView {
    match key {
        LC_Keywords::LANG => ConfView { lang: locale, ..conf },
        LC_Keywords::LANGUAGE => ConfView { language: locale, ..conf },
        LC_Keywords::LC_NUMERIC => ConfView { lc_numeric: locale, ..conf },
        LC_Keywords::LC_TIME => ConfView { lc_time: locale, ..conf },
        LC_Keywords::LC_MONETARY => ConfView { lc_monetary: locale, ..conf },
        LC_Keywords::LC_MEASUREMENT => ConfView { lc_measure: locale, ..conf },
    }
}

/// The index of the first entry for the locale `key`.
fn find_locale(list: &Vec<(String, String)>, key: &str) -> (r: usize)
    ensures
        r <= list.len(),
        r == first_index(pair_views(list@), locale_is(key@)),
{
    let mut i: usize = 0;
    while i < list.len()
        invariant
            i <= list.len(),
            forall|k: int| 0 <= k < i ==> !locale_is(key@)(#[trigger] pair_views(list@)[k]),
        decreases list.len() - i,
    {
        if same_text(list[i].0.as_str(), key) {
            proof {
                lemma_first_index(pair_views(list@), locale_is(key@), i as int);
            }
            return i;
        }
        i = i + 1;
    }
    proof {
        lemma_first_index(pair_views(list@), locale_is(key@), i as int);
    }
    i
}

/// What stands before the first opening bracket of a name.
fn cut_at_bracket(name: &str) -> (r: String)
    ensures
        r@ == before_bracket(name@),
{
    proof {
        reveal_strlit("(");
        assert("("@ =~= seq!['(']);
        crate::helpers::text::lemma_split_nonempty(name@, seq!['(']);
    }
    let parts = str_split(name, "(");
    parts[0].clone()
}

/// The name of a character set as it is written in full.
fn format_charset(charset: &str) -> (r: Vec<char>)
    ensures
        r@ == charset_formatted(charset@),
{
    let upper = to_chars(str_to_uppercase(charset).as_str());
    let mut i: usize = 0;
    while i < upper.len() && !is_numeric(upper[i])
        invariant
            i <= upper.len(),
            forall|k: int| 0 <= k < i ==> !numerals()(#[trigger] upper@[k]),
        decreases upper.len() - i,
    {
        i = i + 1;
    }
    proof {
        lemma_first_index(upper@, numerals(), i as int);
    }
    let mut r = slice_chars(&upper, 0, i);
    r.push('-');
    let rest = slice_chars(&upper, i, upper.len());
    append_chars(&mut r, &rest);
    assert(r@ =~= charset_formatted(charset@));
    r
}

/// A locale of the archive as it is written in full.
fn format_locale(line: &str) -> (r: String)
    ensures
        r@ == locale_formatted(line@),
{
    proof {
        reveal_strlit(".");
        assert("."@ =~= seq!['.']);
    }
    let parts = str_split(line, ".");
    if parts.len() > 1 {
        let mut r = to_chars(parts[0].as_str());
        r.push('.');
        let charset = format_charset(parts[1].as_str());
        append_chars(&mut r, &charset);
        assert(r@ =~= locale_formatted(line@));
        from_chars(&r)
    } else if parts.len() == 1 {
        parts[0].clone()
    } else {
        String::new()
    }
}

impl LocaleManager {
    /// The details of the conventions that the manager holds.
    pub closed spec fn spec_details(&self) -> DetailsView {
        DetailsView {
            numeric: self.lc_numeric.1,
            time: self.lc_time.1,
            monetary: self.lc_monetary.1,
            measure: self.lc_measure.1,
        }
    }

    /// The conventions for numbers.
    pub open spec fn spec_numeric_details(&self) -> LCNumeric {
        self.spec_details().numeric
    }

    /// The conventions for time.
    pub open spec fn spec_time_details(&self) -> LCTime {
        self.spec_details().time
    }

    /// The conventions for money.
    pub open spec fn spec_monetary_details(&self) -> LCMonetary {
        self.spec_details().monetary
    }

    /// The system of measures.
    pub open spec fn spec_measurement_details(&self) -> LCMeasure {
        self.spec_details().measure
    }

    /// Takes one line of what `locale` printed.
    fn apply_name(&mut self, line: &str)
        ensures
            final(self)@ == (LocaleView {
                conf: name_applied(old(self)@.conf, line@),
                ..old(self)@
            }),
            final(self).spec_details() == old(self).spec_details(),
    {
        let value = get_val_from_keyval(line, None);
        if str_starts_with(line, "LANG") {
            self.lang = value;
        } else if str_starts_with(line, "LC_NUMERIC") {
            self.lc_numeric.0 = value;
        } else if str_starts_with(line, "LC_TIME") {
            self.lc_time.0 = value;
        } else if str_starts_with(line, "LC_MONETARY") {
            self.lc_monetary.0 = value;
        } else if str_starts_with(line, "LC_MEASUREMENT") {
            self.lc_measure.0 = value;
        }
    }

    /// The manager for what `locale` printed, the preferred languages of
    /// the environment, and what `localedef --list-archive` printed. No
    /// setting is chosen yet; the details of the conventions and the names
    /// of the locales are taken in afterwards.
    pub fn new(locale_output: &str, language: &str, locales_output: &str) -> (manager:
        LocaleManager)
        ensures
            manager@ == (LocaleView {
                conf: ConfView {
                    language: language@,
                    ..names_applied(empty_conf(), lines(locale_output@))
                },
                list_locales: locales_listed(lines(locales_output@)),
                list_langs: Seq::<(Seq<char>, Seq<char>)>::empty(),
                tmp_locale: empty_conf(),
            }),
            no_details(manager.spec_details()),
    {
        let mut manager = LocaleManager {
            lang: String::new(),
            language: String::new(),
            lc_numeric: (String::new(), LCNumeric::default()),
            lc_time: (String::new(), LCTime::default()),
            lc_monetary: (String::new(), LCMonetary::default()),
            lc_measure: (String::new(), LCMeasure::default()),
            list_locales: Vec::new(),
            list_langs: Vec::new(),
            tmp_locale: LocaleConf::default(),
        };
        assert(texts(manager.list_locales@) =~= Seq::<Seq<char>>::empty());
        assert(pair_views(manager.list_langs@) =~= Seq::<(Seq<char>, Seq<char>)>::empty());
        let ghost start = manager@;
        let all = str_lines(locale_output);
        let mut i: usize = 0;
        assert(texts(all@).take(0) =~= Seq::<Seq<char>>::empty());
        while i < all.len()
            invariant
                i <= all.len(),
                manager@ == (LocaleView {
                    conf: names_applied(empty_conf(), texts(all@).take(i as int)),
                    ..start
                }),
                no_details(manager.spec_details()),
            decreases all.len() - i,
        {
            assert(texts(all@).take(i + 1).drop_last() =~= texts(all@).take(i as int));
            assert(texts(all@).take(i + 1).last() == all@[i as int]@);
            manager.apply_name(all[i].as_str());
            i = i + 1;
        }
        assert(texts(all@).take(all.len() as int) =~= texts(all@));
        manager.language = language.to_owned();
        let archive = str_lines(locales_output);
        let mut locales: Vec<String> = Vec::new();
        let mut k: usize = 0;
        assert(texts(archive@).take(0) =~= Seq::<Seq<char>>::empty());
        assert(texts(locales@) =~= Seq::<Seq<char>>::empty());
        while k < archive.len()
            invariant
                k <= archive.len(),
                texts(locales@) == locales_listed(texts(archive@).take(k as int)),
            decreases archive.len() - k,
        {
            assert(texts(archive@).take(k + 1).drop_last() =~= texts(archive@).take(k as int));
            assert(texts(archive@).take(k + 1).last() == archive@[k as int]@);
            if str_contains(archive[k].as_str(), ".utf8") {
                let ghost before = texts(locales@);
                locales.push(format_locale(archive[k].as_str()));
                assert(texts(locales@) =~= before.push(locale_formatted(archive@[k as int]@)));
            }
            k = k + 1;
        }
        assert(texts(archive@).take(archive.len() as int) =~= texts(archive@));
        manager.list_locales = locales;
        manager
    }

    /// The name shown for a locale.
    fn name_of(locale: &str, stdout: &str) -> (r: String)
        ensures
            r@ == lang_region(locale@, stdout@),
    {
        if str_trim(stdout).as_str().unicode_len() > 0 {
            let all = str_lines(stdout);
            let mut parts: Vec<String> = Vec::new();
            let mut i: usize = 0;
            while i < all.len()
                invariant
                    i <= all.len(),
                    parts@.len() == i,
                    forall|k: int| 0 <= k < i ==> (#[trigger] parts@[k])@ == trim(all@[k]@),
                decreases all.len() - i,
            {
                parts.push(str_trim(all[i].as_str()));
                i = i + 1;
            }
            assert(texts(parts@) =~= trimmed(texts(all@)));
            let joined = str_trim(str_join(&parts, " — ").as_str());
            let opened = str_concat(joined.as_str(), " (");
            let named = str_concat(opened.as_str(), locale);
            str_concat(named.as_str(), ")")
        } else {
            locale.to_owned()
        }
    }

    /// Takes in the names of the locales: `outputs` holds, for each locale
    /// in turn, what `locale lang_name country_name` printed for it, or
    /// none where it failed.
    pub fn fetch_list_region_lang(&mut self, outputs: &Vec<Option<String>>)
        ensures
            final(self)@ == (LocaleView {
                list_langs: langs_listed(old(self)@.list_locales, outputs@),
                ..old(self)@
            }),
            final(self).spec_details() == old(self).spec_details(),
    {
        let mut langs: Vec<(String, String)> = Vec::new();
        let mut i: usize = 0;
        let ghost locales = texts(self.list_locales@);
        assert(locales.take(0) =~= Seq::<Seq<char>>::empty());
        assert(pair_views(langs@) =~= Seq::<(Seq<char>, Seq<char>)>::empty());
        while i < self.list_locales.len()
            invariant
                i <= self.list_locales.len(),
                *self == *old(self),
                locales == texts(self.list_locales@),
                pair_views(langs@) == langs_listed(locales.take(i as int), outputs@),
            decreases self.list_locales.len() - i,
        {
            let ghost head = locales.take(i + 1);
            assert(head.drop_last() =~= locales.take(i as int));
            assert(head.last() == self.list_locales@[i as int]@);
            if i < outputs.len() {
                match &outputs[i] {
                    Some(stdout) => {
                        let locale = self.list_locales[i].as_str();
                        let shown = LocaleManager::name_of(locale, stdout.as_str());
                        let ghost before = pair_views(langs@);
                        langs.push((self.list_locales[i].clone(), shown));
                        assert(pair_views(langs@) =~= before.push(
                            (locale@, lang_region(locale@, stdout@)),
                        ));
                    },
                    None => {},
                }
            }
            i = i + 1;
        }
        assert(locales.take(self.list_locales.len() as int) =~= locales);
        self.list_langs = langs;
    }

    /// The entry of the list of names for a locale.
    fn entry<'a>(&'a self, locale: &'a String) -> (r: (&'a String, &'a String))
        ensures
            (r.0@, r.1@) == entry_for(self@.list_langs, locale@),
    {
        let i = find_locale(&self.list_langs, locale.as_str());
        if i < self.list_langs.len() {
            assert(pair_views(self.list_langs@)[i as int] == (
                self.list_langs@[i as int].0@,
                self.list_langs@[i as int].1@,
            ));
            (&self.list_langs[i].0, &self.list_langs[i].1)
        } else {
            (locale, locale)
        }
    }

    /// The language with the name shown for it.
    pub fn language(&self) -> (r: (&str, &str))
        ensures
            (r.0@, r.1@) == entry_for(self@.list_langs, self@.conf.lang),
    {
        let (key, name) = self.entry(&self.lang);
        (key.as_str(), name.as_str())
    }

    /// The preferred languages with the names shown for them.
    pub fn list_prefered_langs(&self) -> (r: Vec<(String, String)>)
        ensures
            pair_views(r@) == prefered_langs(self@),
    {
        proof {
            reveal_strlit(":");
            assert(":"@ =~= seq![':']);
        }
        let mut r: Vec<(String, String)> = Vec::new();
        if self.language.as_str().unicode_len() == 0 {
            r.push((self.lang.clone(), cut_at_bracket(self.language().1)));
            assert(pair_views(r@) =~= prefered_langs(self@));
            return r;
        }
        let wanted = str_split(self.language.as_str(), ":");
        let mut i: usize = 0;
        while i < wanted.len()
            invariant
                i <= wanted.len(),
                r@.len() == i,
                forall|k: int|
                    0 <= k < i ==> (#[trigger] pair_views(r@)[k]) == prefered_entry(
                        self@,
                        wanted@[k]@,
                    ),
            decreases wanted.len() - i,
        {
            let locale = str_concat(wanted[i].as_str(), ".UTF-8");
            let found = find_locale(&self.list_langs, locale.as_str());
            let ghost before = pair_views(r@);
            if found < self.list_langs.len() {
                r.push(
                    (
                        self.list_langs[found].0.clone(),
                        cut_at_bracket(self.list_langs[found].1.as_str()),
                    ),
                );
            } else {
                let (key, name) = self.language();
                r.push((key.to_owned(), name.to_owned()));
            }
            assert(pair_views(r@) =~= before.push(prefered_entry(self@, wanted@[i as int]@)));
            i = i + 1;
        }
        assert(pair_views(r@) =~= prefered_langs(self@));
        r
    }

    /// The locales with the names shown for them.
    pub fn list_langs_regions(&self) -> (r: &Vec<(String, String)>)
        ensures
            pair_views(r@) == self@.list_langs,
    {
        &self.list_langs
    }

    /// The locales to choose from.
    pub fn list_locales(&self) -> (r: &Vec<String>)
        ensures
            texts(r@) == self@.list_locales,
    {
        &self.list_locales
    }

    /// The locale of the conventions for numbers with the name shown for
    /// it.
    pub fn numeric(&self) -> (r: (&String, &String))
        ensures
            (r.0@, r.1@) == entry_for(self@.list_langs, self@.conf.lc_numeric),
    {
        self.entry(&self.lc_numeric.0)
    }

    /// The conventions for numbers.
    pub fn numeric_details(&self) -> (details: &LCNumeric)
        ensures
            *details == self.spec_numeric_details(),
    {
        &self.lc_numeric.1
    }

    /// The locale of the conventions for time with the name shown for it.
    pub fn time(&self) -> (r: (&String, &String))
        ensures
            (r.0@, r.1@) == entry_for(self@.list_langs, self@.conf.lc_time),
    {
        self.entry(&self.lc_time.0)
    }

    /// The conventions for time.
    pub fn time_details(&self) -> (details: &LCTime)
        ensures
            *details == self.spec_time_details(),
    {
        &self.lc_time.1
    }

    /// The locale of the conventions for money with the name shown for it.
    pub fn monetary(&self) -> (r: (&String, &String))
        ensures
            (r.0@, r.1@) == entry_for(self@.list_langs, self@.conf.lc_monetary),
    {
        self.entry(&self.lc_monetary.0)
    }

    /// The conventions for money.
    pub fn monetary_details(&self) -> (details: &LCMonetary)
        ensures
            *details == self.spec_monetary_details(),
    {
        &self.lc_monetary.1
    }

    /// The locale of the measures with the name shown for it.
    pub fn measurement(&self) -> (r: (&String, &String))
        ensures
            (r.0@, r.1@) == entry_for(self@.list_langs, self@.conf.lc_measure),
    {
        self.entry(&self.lc_measure.0)
    }

    /// The system of measures.
    pub fn measurement_details(&self) -> (details: &LCMeasure)
        ensures
            *details == self.spec_measurement_details(),
    {
        &self.lc_measure.1
    }

    /// Puts the settings chosen in force and gives the text of the file
    /// that sets them.
    pub fn write_conf(&mut self) -> (data: String)
        ensures
            final(self)@ == (LocaleView { conf: old(self)@.tmp_locale, ..old(self)@ }),
            final(self).spec_details() == old(self).spec_details(),
            data@ == locale_string(old(self)@.tmp_locale),
    {
        self.tmp_to_val();
        self.to_locale_string()
    }

    /// Chooses the locale of one setting. The choice is in force once it
    /// is written.
    pub fn set_locale(&mut self, key: LC_Keywords, locale: &str)
        ensures
            final(self)@ == (LocaleView {
                tmp_locale: chosen(old(self)@.tmp_locale, key, locale@),
                ..old(self)@
            }),
            final(self).spec_details() == old(self).spec_details(),
    {
        match key {
            LC_Keywords::LANG => {
                self.tmp_locale.lang = locale.to_owned();
            },
            LC_Keywords::LANGUAGE => {
                self.tmp_locale.language = locale.to_owned();
            },
            LC_Keywords::LC_NUMERIC => {
                self.tmp_locale.lc_numeric = locale.to_owned();
            },
            LC_Keywords::LC_TIME => {
                self.tmp_locale.lc_time = locale.to_owned();
            },
            LC_Keywords::LC_MONETARY => {
                self.tmp_locale.lc_monetary = locale.to_owned();
            },
            LC_Keywords::LC_MEASUREMENT => {
                self.tmp_locale.lc_measure = locale.to_owned();
            },
        }
    }

    /// Takes in the conventions for numbers.
    pub fn set_lc_numeric(&mut self, details: LCNumeric)
        ensures
            final(self)@ == old(self)@,
            final(self).spec_details() == (DetailsView {
                numeric: details,
                ..old(self).spec_details()
            }),
    {
        self.lc_numeric.1 = details;
    }

    /// Takes in the conventions for time.
    pub fn set_lc_time(&mut self, details: LCTime)
        ensures
            final(self)@ == old(self)@,
            final(self).spec_details() == (DetailsView {
                time: details,
                ..old(self).spec_details()
            }),
    {
        self.lc_time.1 = details;
    }

    /// Takes in the conventions for money.
    pub fn set_lc_monetary(&mut self, details: LCMonetary)
        ensures
            final(self)@ == old(self)@,
            final(self).spec_details() == (DetailsView {
                monetary: details,
                ..old(self).spec_details()
            }),
    {
        self.lc_monetary.1 = details;
    }

    /// Takes in the system of measures.
    pub fn set_lc_measure(&mut self, details: LCMeasure)
        ensures
            final(self)@ == old(self)@,
            final(self).spec_details() == (DetailsView {
                measure: details,
                ..old(self).spec_details()
            }),
    {
        self.lc_measure.1 = details;
    }

    /// The text of the file that sets the locale in force.
    pub fn to_locale_string(&self) -> (r: String)
        ensures
            r@ == locale_string(self@.conf),
    {
        let mut r = String::from_str("LANG=");
        r.append(self.lang.as_str());
        r.append("\nLANGUAGE=");
        r.append(self.language.as_str());
        r.append("\nLC_NUMERIC=");
        r.append(self.lc_numeric.0.as_str());
        r.append("\nLC_TIME=");
        r.append(self.lc_time.0.as_str());
        r.append("\nLC_MONETARY=");
        r.append(self.lc_monetary.0.as_str());
        r.append("\nLC_MEASUREMENT=");
        r.append(self.lc_measure.0.as_str());
        r.append("\n");
        r
    }

    /// Puts the settings chosen in force.
    pub fn tmp_to_val(&mut self)
        ensures
            final(self)@ == (LocaleView { conf: old(self)@.tmp_locale, ..old(self)@ }),
            final(self).spec_details() == old(self).spec_details(),
    {
        self.lang = self.tmp_locale.lang.clone();
        self.language = self.tmp_locale.language.clone();
        self.lc_numeric.0 = self.tmp_locale.lc_numeric.clone();
        self.lc_time.0 = self.tmp_locale.lc_time.clone();
        self.lc_monetary.0 = self.tmp_locale.lc_monetary.clone();
        self.lc_measure.0 = self.tmp_locale.lc_measure.clone();
    }
}

} // verus!
