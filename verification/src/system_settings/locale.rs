//! Locale: the language and the conventions for numbers, time, money,
//! messages, addresses and measures, as the `locale` command reports them,
//! and the text of the file that sets them.
use vstd::prelude::*;
use crate::helpers::cmd_output_helper::{get_val_from_keyval, val_from_keyval, Command};
use crate::helpers::search::{first_index, lemma_first_index};
use crate::helpers::text::{
    join, lines, lowercase, owned_list, replace, same_text, split, starts_with, str_concat,
    str_join, str_lines, str_replace, str_split, str_starts_with, str_to_lowercase, str_trim,
    texts, trim,
};

pub mod locale_category;
pub mod locale_manager;

pub use locale_category::{
    format_number_details, format_time_details, LCMeasure, LCMonetary, LCNumeric, LCTime,
};

verus! {

/// The settings of a locale.
#[allow(non_camel_case_types)]
#[derive(Debug, Clone, Copy, PartialEq, Eq, Structural)]
pub enum LC_Keywords {
    LANG,
    LC_NUMERIC,
    LC_TIME,
    LC_MONETARY,
    LC_MESSAGES,
    LC_ADDRESS,
    LC_MEASUREMENT,
}

/// The name of a setting, as the `locale` command writes it.
pub open spec fn keyword_name(keyword: LC_Keywords) -> Seq<char> {
    match keyword {
        LC_Keywords::LANG => "LANG"@,
        LC_Keywords::LC_NUMERIC => "LC_NUMERIC"@,
        LC_Keywords::LC_TIME => "LC_TIME"@,
        LC_Keywords::LC_MONETARY => "LC_MONETARY"@,
        LC_Keywords::LC_MESSAGES => "LC_MESSAGES"@,
        LC_Keywords::LC_ADDRESS => "LC_ADDRESS"@,
        LC_Keywords::LC_MEASUREMENT => "LC_MEASUREMENT"@,
    }
}

impl LC_Keywords {
    /// The name of the setting.
    pub fn name(&self) -> (name: &'static str)
        ensures
            name@ == keyword_name(*self),
    {
        match self {
            LC_Keywords::LANG => "LANG",
            LC_Keywords::LC_NUMERIC => "LC_NUMERIC",
            LC_Keywords::LC_TIME => "LC_TIME",
            LC_Keywords::LC_MONETARY => "LC_MONETARY",
            LC_Keywords::LC_MESSAGES => "LC_MESSAGES",
            LC_Keywords::LC_ADDRESS => "LC_ADDRESS",
            LC_Keywords::LC_MEASUREMENT => "LC_MEASUREMENT",
        }
    }

    /// The command that prints the details of the setting.
    pub fn details_command(&self) -> (cmd: Command)
        ensures
            cmd.runs("locale"@, seq!["-k"@, keyword_name(*self)]),
    {
        let args = owned_list(vec!["-k", self.name()]);
        assert(texts(args@) =~= seq!["-k"@, keyword_name(*self)]);
        Command::new("locale", args)
    }
}

/// Where the settings are written.
#[derive(Debug, Clone, Copy, PartialEq, Eq, Structural)]
pub enum ExportTarget {
    /// The file of the user.
    Local,
    /// The file of the user and the file of the system.
    Global,
}

/// The settings of the file `locale.conf`.
#[derive(Debug, PartialEq, Eq)]
pub struct LocaleConf {
    pub lang: String,
    pub language: String,
    pub lc_numeric: String,
    pub lc_time: String,
    pub lc_monetary: String,
    pub lc_address: String,
    pub lc_measurement: String,
}

/// The words for yes and no.
#[derive(Debug, PartialEq, Eq)]
pub struct LCMessages {
    pub yesexpr: String,
    pub noexpr: String,
    pub yesstr: String,
    pub nostr: String,
}

/// The country and the language.
#[derive(Debug, PartialEq, Eq)]
pub struct LCAddress {
    pub country_name: String,
    pub country_post: String,
    pub country_ab2: String,
    pub country_ab3: String,
    pub lang_name: String,
    pub lang_ab: String,
}

impl LCMessages {
    /// Every text is empty and every number is zero.
    pub open spec fn is_default(&self) -> bool {
        &&& self.yesexpr@.len() == 0
        &&& self.noexpr@.len() == 0
        &&& self.yesstr@.len() == 0
        &&& self.nostr@.len() == 0
    }
}

impl Default for LCMessages {
    /// Every text empty, every number zero.
    fn default() -> (r: LCMessages)
        ensures
            r.is_default(),
    {
        LCMessages {
            yesexpr: String::new(),
            noexpr: String::new(),
            yesstr: String::new(),
            nostr: String::new(),
        }
    }
}

impl LCAddress {
    /// Every text is empty and every number is zero.
    pub open spec fn is_default(&self) -> bool {
        &&& self.country_name@.len() == 0
        &&& self.country_post@.len() == 0
        &&& self.country_ab2@.len() == 0
        &&& self.country_ab3@.len() == 0
        &&& self.lang_name@.len() == 0
        &&& self.lang_ab@.len() == 0
    }
}

impl Default for LCAddress {
    /// Every text empty, every number zero.
    fn default() -> (r: LCAddress)
        ensures
            r.is_default(),
    {
        LCAddress {
            country_name: String::new(),
            country_post: String::new(),
            country_ab2: String::new(),
            country_ab3: String::new(),
            lang_name: String::new(),
            lang_ab: String::new(),
        }
    }
}

/// The details of the conventions, kind by kind.
pub struct DetailsView {
    pub numeric: LCNumeric,
    pub time: LCTime,
    pub monetary: LCMonetary,
    pub messages: LCMessages,
    pub address: LCAddress,
    pub measure: LCMeasure,
}

/// No details are known: every text is empty and every number is zero.
pub open spec fn no_details(d: DetailsView) -> bool {
    &&& d.numeric.is_default()
    &&& d.time.is_default()
    &&& d.monetary.is_default()
    &&& d.messages.is_default()
    &&& d.address.is_default()
    &&& d.measure.is_default()
}

/// What the manager knows of the locale, but for the details of the
/// conventions.
pub struct LocaleView {
    pub lang: Seq<char>,
    pub language: Seq<char>,
    pub lc_numeric: Seq<char>,
    pub lc_time: Seq<char>,
    pub lc_monetary: Seq<char>,
    pub lc_messages: Seq<char>,
    pub lc_addr: Seq<char>,
    pub lc_measure: Seq<char>,
    pub list_locales: Seq<Seq<char>>,
    pub list_langs: Seq<(Seq<char>, Seq<char>)>,
}

/// The locale of the system.
#[derive(Debug)]
pub struct LocaleManager {
    lang: String,
    language: String,
    lc_numeric: (String, LCNumeric),
    lc_time: (String, LCTime),
    lc_monetary: (String, LCMonetary),
    lc_messages: (String, LCMessages),
    lc_addr: (String, LCAddress),
    lc_measure: (String, LCMeasure),
    list_locales: Vec<String>,
    list_langs: Vec<(String, String)>,
}

/// The views of a list of pairs of strings.
pub open spec fn pair_views(pairs: Seq<(String, String)>) -> Seq<(Seq<char>, Seq<char>)> {
    Seq::new(pairs.len(), |i: int| (pairs[i].0@, pairs[i].1@))
}

impl View for LocaleManager {
    type V = LocaleView;

    closed spec fn view(&self) -> LocaleView {
        LocaleView {
            lang: self.lang@,
            language: self.language@,
            lc_numeric: self.lc_numeric.0@,
            lc_time: self.lc_time.0@,
            lc_monetary: self.lc_monetary.0@,
            lc_messages: self.lc_messages.0@,
            lc_addr: self.lc_addr.0@,
            lc_measure: self.lc_measure.0@,
            list_locales: texts(self.list_locales@),
            list_langs: pair_views(self.list_langs@),
        }
    }
}

/// The names after one line of what `locale` prints: a line that begins
/// with the name of a setting gives the value of that setting.
pub open spec fn name_applied(v: LocaleView, line: Seq<char>) -> LocaleView {
    let value = val_from_keyval(line, seq!['=']);
    if starts_with(line, "LANG"@) {
        LocaleView { lang: value, ..v }
    } else if starts_with(line, "LC_NUMERIC"@) {
        LocaleView { lc_numeric: value, ..v }
    } else if starts_with(line, "LC_TIME"@) {
        LocaleView { lc_time: value, ..v }
    } else if starts_with(line, "LC_MONETARY"@) {
        LocaleView { lc_monetary: value, ..v }
    } else if starts_with(line, "LC_MESSAGES"@) {
        LocaleView { lc_messages: value, ..v }
    } else if starts_with(line, "LC_ADDRESS"@) {
        LocaleView { lc_addr: value, ..v }
    } else if starts_with(line, "LC_MEASUREMENT"@) {
        LocaleView { lc_measure: value, ..v }
    } else {
        v
    }
}

/// The names after the given lines, one after the other.
pub open spec fn names_applied(v: LocaleView, lines: Seq<Seq<char>>) -> LocaleView
    decreases lines.len(),
{
    if lines.len() == 0 {
        v
    } else {
        name_applied(names_applied(v, lines.drop_last()), lines.last())
    }
}

/// A manager that knows nothing.
pub open spec fn empty_view() -> LocaleView {
    LocaleView {
        lang: Seq::<char>::empty(),
        language: Seq::<char>::empty(),
        lc_numeric: Seq::<char>::empty(),
        lc_time: Seq::<char>::empty(),
        lc_monetary: Seq::<char>::empty(),
        lc_messages: Seq::<char>::empty(),
        lc_addr: Seq::<char>::empty(),
        lc_measure: Seq::<char>::empty(),
        list_locales: Seq::<Seq<char>>::empty(),
        list_langs: Seq::<(Seq<char>, Seq<char>)>::empty(),
    }
}

/// The lines, each without the white space around it.
pub open spec fn trimmed(all: Seq<Seq<char>>) -> Seq<Seq<char>> {
    Seq::new(all.len(), |i: int| trim(all[i]))
}

/// The name shown for a locale: the language and the country that
/// `locale lang_name country_name` printed, with the locale in brackets
/// behind them, or the locale alone where it printed nothing.
pub open spec fn lang_region(locale: Seq<char>, stdout: Seq<char>) -> Seq<char> {
    if trim(stdout).len() > 0 {
        trim(join(trimmed(lines(stdout)), " - "@)) + " ("@ + locale + ")"@
    } else {
        locale
    }
}

/// The locales with the names shown for them; a locale for which the
/// command failed is left out.
pub open spec fn langs_listed(locales: Seq<Seq<char>>, outputs: Seq<Option<String>>) -> Seq<
    (Seq<char>, Seq<char>),
>
    decreases locales.len(),
{
    if locales.len() == 0 {
        Seq::<(Seq<char>, Seq<char>)>::empty()
    } else {
        let rest = langs_listed(locales.drop_last(), outputs);
        let i = locales.len() - 1;
        if i < outputs.len() && outputs[i] is Some {
            rest.push((locales.last(), lang_region(locales.last(), outputs[i]->0@)))
        } else {
            rest
        }
    }
}

/// A locale without its hyphens, in lower case.
pub open spec fn folded(locale: Seq<char>) -> Seq<char> {
    lowercase(replace(locale, seq!['-'], Seq::<char>::empty()))
}

/// The entries whose locale, without hyphens and in lower case, is `key`.
pub open spec fn folded_is(key: Seq<char>) -> spec_fn((Seq<char>, Seq<char>)) -> bool {
    |entry: (Seq<char>, Seq<char>)| folded(entry.0) == key
}

/// The entries whose locale, in lower case, is `key`.
pub open spec fn lowered_is(key: Seq<char>) -> spec_fn((Seq<char>, Seq<char>)) -> bool {
    |entry: (Seq<char>, Seq<char>)| lowercase(entry.0) == key
}

/// The name shown for the language.
pub open spec fn language_shown(v: LocaleView) -> Seq<char> {
    let i = first_index(v.list_langs, folded_is(folded(v.lang)));
    if i < v.list_langs.len() {
        v.list_langs[i].1
    } else {
        v.lang
    }
}

/// The name shown for the locale of one kind of conventions.
pub open spec fn convention_shown(v: LocaleView, locale: Seq<char>) -> Seq<char> {
    let i = first_index(v.list_langs, lowered_is(folded(locale)));
    if i < v.list_langs.len() {
        v.list_langs[i].1
    } else {
        locale
    }
}

/// What stands before the first opening bracket of a name.
pub open spec fn before_bracket(name: Seq<char>) -> Seq<char> {
    split(name, seq!['('])[0]
}

/// The entry shown for one preferred language.
pub open spec fn prefered_entry(v: LocaleView, language: Seq<char>) -> (Seq<char>, Seq<char>) {
    let i = first_index(v.list_langs, folded_is(lowercase(language + ".utf8"@)));
    if i < v.list_langs.len() {
        (v.list_langs[i].0, before_bracket(v.list_langs[i].1))
    } else {
        (v.lang, language_shown(v))
    }
}

/// The preferred languages with the names shown for them: the language of
/// the system alone where none is preferred.
pub open spec fn prefered_langs(v: LocaleView) -> Seq<(Seq<char>, Seq<char>)> {
    if v.language.len() == 0 {
        seq![(v.lang, before_bracket(language_shown(v)))]
    } else {
        let wanted = split(v.language, seq![':']);
        Seq::new(wanted.len(), |i: int| prefered_entry(v, wanted[i]))
    }
}

/// The text of the file that sets the locale.
pub open spec fn locale_string(conf: LocaleConf) -> Seq<char> {
    "LANG="@ + conf.lang@ + "\nLANGUAGE="@ + conf.language@ + "\nLC_NUMERIC="@ + conf.lc_numeric@
        + "\nLC_TIME="@ + conf.lc_time@ + "\nLC_MONETARY="@ + conf.lc_monetary@ + "\nLC_ADDRESS="@
        + conf.lc_address@ + "\nLC_MEASUREMENT="@ + conf.lc_measurement@ + "\n"@
}

/// The files that are written for a target, in order.
pub open spec fn targets_of(target: ExportTarget) -> Seq<ExportTarget> {
    match target {
        ExportTarget::Local => seq![ExportTarget::Local],
        ExportTarget::Global => seq![ExportTarget::Local, ExportTarget::Global],
    }
}

/// The index of the first entry whose locale, without hyphens and in
/// lower case, is `key`.
fn find_folded(list: &Vec<(String, String)>, key: &str) -> (r: usize)
    ensures
        r <= list.len(),
        r == first_index(pair_views(list@), folded_is(key@)),
{
    proof {
        reveal_strlit("-");
        reveal_strlit("");
        assert("-"@ =~= seq!['-']);
        assert(""@ =~= Seq::<char>::empty());
    }
    let mut i: usize = 0;
    while i < list.len()
        invariant
            i <= list.len(),
            "-"@ == seq!['-'],
            ""@ == Seq::<char>::empty(),
            forall|k: int| 0 <= k < i ==> !folded_is(key@)(#[trigger] pair_views(list@)[k]),
        decreases list.len() - i,
    {
        let plain = str_replace(list[i].0.as_str(), "-", "");
        if same_text(str_to_lowercase(plain.as_str()).as_str(), key) {
            proof {
                lemma_first_index(pair_views(list@), folded_is(key@), i as int);
            }
            return i;
        }
        i = i + 1;
    }
    proof {
        lemma_first_index(pair_views(list@), folded_is(key@), i as int);
    }
    i
}

/// The index of the first entry whose locale, in lower case, is `key`.
fn find_lowered(list: &Vec<(String, String)>, key: &str) -> (r: usize)
    ensures
        r <= list.len(),
        r == first_index(pair_views(list@), lowered_is(key@)),
{
    let mut i: usize = 0;
    while i < list.len()
        invariant
            i <= list.len(),
            forall|k: int| 0 <= k < i ==> !lowered_is(key@)(#[trigger] pair_views(list@)[k]),
        decreases list.len() - i,
    {
        if same_text(str_to_lowercase(list[i].0.as_str()).as_str(), key) {
            proof {
                lemma_first_index(pair_views(list@), lowered_is(key@), i as int);
            }
            return i;
        }
        i = i + 1;
    }
    proof {
        lemma_first_index(pair_views(list@), lowered_is(key@), i as int);
    }
    i
}

/// A locale without its hyphens, in lower case.
fn fold_locale(locale: &str) -> (r: String)
    ensures
        r@ == folded(locale@),
{
    proof {
        reveal_strlit("-");
        reveal_strlit("");
        assert("-"@ =~= seq!['-']);
        assert(""@ =~= Seq::<char>::empty());
    }
    str_to_lowercase(str_replace(locale, "-", "").as_str())
}

/// What stands before the first opening bracket of a name.
fn cut_at_bracket(name: &str) -> (r: String)
    ensures
        r@ == before_bracket(name@),
{
    proof {
        reveal_strlit("(");
        assert("("@ =~= seq!['(']);
    }
    let parts = str_split(name, "(");
    if parts.len() > 0 {
        parts[0].clone()
    } else {
        proof {
            crate::helpers::text::lemma_split_nonempty(name@, seq!['(']);
        }
        String::new()
    }
}

impl LocaleManager {
    /// A manager that knows nothing.
    pub fn empty() -> (manager: LocaleManager)
        ensures
            manager@ == empty_view(),
            no_details(manager.spec_details()),
    {
        let manager = LocaleManager {
            lang: String::new(),
            language: String::new(),
            lc_numeric: (String::new(), LCNumeric::default()),
            lc_time: (String::new(), LCTime::default()),
            lc_monetary: (String::new(), LCMonetary::default()),
            lc_messages: (String::new(), LCMessages::default()),
            lc_addr: (String::new(), LCAddress::default()),
            lc_measure: (String::new(), LCMeasure::default()),
            list_locales: Vec::new(),
            list_langs: Vec::new(),
        };
        assert(texts(manager.list_locales@) =~= Seq::<Seq<char>>::empty());
        assert(pair_views(manager.list_langs@) =~= Seq::<(Seq<char>, Seq<char>)>::empty());
        manager
    }

    /// Takes one line of what `locale` printed.
    fn apply_name(&mut self, line: &str)
        ensures
            final(self)@ == name_applied(old(self)@, line@),
            final(self).spec_details() == old(self).spec_details(),
    {
        let value = get_val_from_keyval(line, None);
        if str_starts_with(line, "LANG") {
            self.lang = value;
        } else if str_starts_with(line, "LC_NUMERIC") {
            self.lc_numeric.0 = value;
        } else if str_starts_with(line, "LC_TIME") {
            self.lc_time.0 = value;
        } else if str_starts_with(line, "LC_MONETARY") {
            self.lc_monetary.0 = value;
        } else if str_starts_with(line, "LC_MESSAGES") {
            self.lc_messages.0 = value;
        } else if str_starts_with(line, "LC_ADDRESS") {
            self.lc_addr.0 = value;
        } else if str_starts_with(line, "LC_MEASUREMENT") {
            self.lc_measure.0 = value;
        }
    }

    /// The manager for what `locale` printed, the preferred languages of
    /// the environment, and what `localedef --list-archive` printed. The
    /// details of the conventions and the names of the locales are taken
    /// in afterwards.
    pub fn new(locale_output: &str, language: &str, locales_output: &str) -> (manager:
        LocaleManager)
        ensures
            manager@ == (LocaleView {
                language: language@,
                list_locales: lines(locales_output@),
                ..names_applied(empty_view(), lines(locale_output@))
            }),
            no_details(manager.spec_details()),
    {
        let mut manager = LocaleManager::empty();
        let all = str_lines(locale_output);
        let mut i: usize = 0;
        assert(texts(all@).take(0) =~= Seq::<Seq<char>>::empty());
        while i < all.len()
            invariant
                i <= all.len(),
                manager@ == names_applied(empty_view(), texts(all@).take(i as int)),
                no_details(manager.spec_details()),
            decreases all.len() - i,
        {
            assert(texts(all@).take(i + 1).drop_last() =~= texts(all@).take(i as int));
            assert(texts(all@).take(i + 1).last() == all@[i as int]@);
            manager.apply_name(all[i].as_str());
            i = i + 1;
        }
        assert(texts(all@).take(all.len() as int) =~= texts(all@));
        manager.language = language.to_owned();
        manager.list_locales = str_lines(locales_output);
        manager
    }

    /// The command that prints the language and the country of the locale
    /// that the environment names for addresses.
    pub fn lang_region_command() -> (cmd: Command)
        ensures
            cmd.runs("locale"@, seq!["lang_name"@, "country_name"@]),
    {
        let args = owned_list(vec!["lang_name", "country_name"]);
        assert(texts(args@) =~= seq!["lang_name"@, "country_name"@]);
        Command::new("locale", args)
    }

    /// Takes in the names of the locales: `outputs` holds, for each locale
    /// in turn, what the command printed for it, or none where it failed.
    pub fn fetch_list_region_lang(&mut self, outputs: &Vec<Option<String>>)
        ensures
            final(self)@ == (LocaleView {
                list_langs: langs_listed(old(self)@.list_locales, outputs@),
                ..old(self)@
            }),
            final(self).spec_details() == old(self).spec_details(),
    {
        proof {
            reveal_strlit(" - ");
            reveal_strlit(" (");
            reveal_strlit(")");
        }
        let mut langs: Vec<(String, String)> = Vec::new();
        let mut i: usize = 0;
        let ghost locales = texts(self.list_locales@);
        assert(locales.take(0) =~= Seq::<Seq<char>>::empty());
        assert(pair_views(langs@) =~= Seq::<(Seq<char>, Seq<char>)>::empty());
        while i < self.list_locales.len()
            invariant
                i <= self.list_locales.len(),
                *self == *old(self),
                locales == texts(self.list_locales@),
                pair_views(langs@) == langs_listed(locales.take(i as int), outputs@),
            decreases self.list_locales.len() - i,
        {
            let ghost head = locales.take(i + 1);
            assert(head.drop_last() =~= locales.take(i as int));
            assert(head.last() == self.list_locales@[i as int]@);
            if i < outputs.len() {
                match &outputs[i] {
                    Some(stdout) => {
                        let locale = self.list_locales[i].as_str();
                        let shown = LocaleManager::name_of(locale, stdout.as_str());
                        let ghost before = pair_views(langs@);
                        langs.push((self.list_locales[i].clone(), shown));
                        assert(pair_views(langs@) =~= before.push(
                            (locale@, lang_region(locale@, stdout@)),
                        ));
                    },
                    None => {},
                }
            }
            i = i + 1;
        }
        assert(locales.take(self.list_locales.len() as int) =~= locales);
        self.list_langs = langs;
    }

    /// The name shown for a locale.
    fn name_of(locale: &str, stdout: &str) -> (r: String)
        ensures
            r@ == lang_region(locale@, stdout@),
    {
        if str_trim(stdout).as_str().unicode_len() > 0 {
            let all = str_lines(stdout);
            let mut parts: Vec<String> = Vec::new();
            let mut i: usize = 0;
            while i < all.len()
                invariant
                    i <= all.len(),
                    parts@.len() == i,
                    forall|k: int| 0 <= k < i ==> (#[trigger] parts@[k])@ == trim(all@[k]@),
                decreases all.len() - i,
            {
                parts.push(str_trim(all[i].as_str()));
                i = i + 1;
            }
            assert(texts(parts@) =~= trimmed(texts(all@)));
            let joined = str_trim(str_join(&parts, " - ").as_str());
            let opened = str_concat(joined.as_str(), " (");
            let named = str_concat(opened.as_str(), locale);
            str_concat(named.as_str(), ")")
        } else {
            locale.to_owned()
        }
    }

    /// The name shown for the language.
    pub fn language(&self) -> (name: &str)
        ensures
            name@ == language_shown(self@),
    {
        let key = fold_locale(self.lang.as_str());
        let i = find_folded(&self.list_langs, key.as_str());
        if i < self.list_langs.len() {
            self.list_langs[i].1.as_str()
        } else {
            self.lang.as_str()
        }
    }

    /// The preferred languages with the names shown for them.
    pub fn list_prefered_langs(&self) -> (r: Vec<(String, String)>)
        ensures
            pair_views(r@) == prefered_langs(self@),
    {
        proof {
            reveal_strlit(":");
            assert(":"@ =~= seq![':']);
        }
        let mut r: Vec<(String, String)> = Vec::new();
        if self.language.as_str().unicode_len() == 0 {
            r.push((self.lang.clone(), cut_at_bracket(self.language())));
            assert(pair_views(r@) =~= prefered_langs(self@));
            return r;
        }
        let wanted = str_split(self.language.as_str(), ":");
        let mut i: usize = 0;
        while i < wanted.len()
            invariant
                i <= wanted.len(),
                r@.len() == i,
                forall|k: int|
                    0 <= k < i ==> (#[trigger] pair_views(r@)[k]) == prefered_entry(
                        self@,
                        wanted@[k]@,
                    ),
            decreases wanted.len() - i,
        {
            let locale = str_concat(wanted[i].as_str(), ".utf8");
            let key = str_to_lowercase(locale.as_str());
            let found = find_folded(&self.list_langs, key.as_str());
            let ghost before = pair_views(r@);
            if found < self.list_langs.len() {
                r.push(
                    (
                        self.list_langs[found].0.clone(),
                        cut_at_bracket(self.list_langs[found].1.as_str()),
                    ),
                );
            } else {
                r.push((self.lang.clone(), self.language().to_owned()));
            }
            assert(pair_views(r@) =~= before.push(prefered_entry(self@, wanted@[i as int]@)));
            i = i + 1;
        }
        assert(pair_views(r@) =~= prefered_langs(self@));
        r
    }

    /// The locales with the names shown for them.
    pub fn list_langs_regions(&self) -> (r: &Vec<(String, String)>)
        ensures
            pair_views(r@) == self@.list_langs,
    {
        &self.list_langs
    }

    /// The locales, as `localedef` names them.
    pub fn list_locales(&self) -> (r: &Vec<String>)
        ensures
            texts(r@) == self@.list_locales,
    {
        &self.list_locales
    }

    /// The name shown for the locale of the conventions for numbers.
    pub fn numeric(&self) -> (name: &str)
        ensures
            name@ == convention_shown(self@, self@.lc_numeric),
    {
        let key = fold_locale(self.lc_numeric.0.as_str());
        let i = find_lowered(&self.list_langs, key.as_str());
        if i < self.list_langs.len() {
            self.list_langs[i].1.as_str()
        } else {
            self.lc_numeric.0.as_str()
        }
    }

    /// The conventions for numbers.
    pub fn numeric_details(&self) -> (details: &LCNumeric)
        ensures
            *details == self.spec_numeric_details(),
    {
        &self.lc_numeric.1
    }

    /// The name shown for the locale of the conventions for time.
    pub fn time(&self) -> (name: &str)
        ensures
            name@ == convention_shown(self@, self@.lc_time),
    {
        let key = fold_locale(self.lc_time.0.as_str());
        let i = find_lowered(&self.list_langs, key.as_str());
        if i < self.list_langs.len() {
            self.list_langs[i].1.as_str()
        } else {
            self.lc_time.0.as_str()
        }
    }

    /// The conventions for time.
    pub fn time_details(&self) -> (details: &LCTime)
        ensures
            *details == self.spec_time_details(),
    {
        &self.lc_time.1
    }

    /// The name shown for the locale of the conventions for money.
    pub fn monetary(&self) -> (name: &str)
        ensures
            name@ == convention_shown(self@, self@.lc_monetary),
    {
        let key = fold_locale(self.lc_monetary.0.as_str());
        let i = find_lowered(&self.list_langs, key.as_str());
        if i < self.list_langs.len() {
            self.list_langs[i].1.as_str()
        } else {
            self.lc_monetary.0.as_str()
        }
    }

    /// The conventions for money.
    pub fn monetary_details(&self) -> (details: &LCMonetary)
        ensures
            *details == self.spec_monetary_details(),
    {
        &self.lc_monetary.1
    }

    /// The name shown for the locale of the messages.
    pub fn messages(&self) -> (name: &str)
        ensures
            name@ == convention_shown(self@, self@.lc_messages),
    {
        let key = fold_locale(self.lc_messages.0.as_str());
        let i = find_lowered(&self.list_langs, key.as_str());
        if i < self.list_langs.len() {
            self.list_langs[i].1.as_str()
        } else {
            self.lc_messages.0.as_str()
        }
    }

    /// The words for yes and no.
    pub fn messages_details(&self) -> (details: &LCMessages)
        ensures
            *details == self.spec_messages_details(),
    {
        &self.lc_messages.1
    }

    /// The name shown for the locale of the addresses.
    pub fn address(&self) -> (name: &str)
        ensures
            name@ == convention_shown(self@, self@.lc_addr),
    {
        let key = fold_locale(self.lc_addr.0.as_str());
        let i = find_lowered(&self.list_langs, key.as_str());
        if i < self.list_langs.len() {
            self.list_langs[i].1.as_str()
        } else {
            self.lc_addr.0.as_str()
        }
    }

    /// The country and the language.
    pub fn address_details(&self) -> (details: &LCAddress)
        ensures
            *details == self.spec_address_details(),
    {
        &self.lc_addr.1
    }

    /// The name shown for the locale of the measures.
    pub fn measurement(&self) -> (name: &str)
        ensures
            name@ == convention_shown(self@, self@.lc_measure),
    {
        let key = fold_locale(self.lc_measure.0.as_str());
        let i = find_lowered(&self.list_langs, key.as_str());
        if i < self.list_langs.len() {
            self.list_langs[i].1.as_str()
        } else {
            self.lc_measure.0.as_str()
        }
    }

    /// The system of measures.
    pub fn measurement_details(&self) -> (details: &LCMeasure)
        ensures
            *details == self.spec_measurement_details(),
    {
        &self.lc_measure.1
    }

    /// The details of the conventions that the manager holds.
    pub closed spec fn spec_details(&self) -> DetailsView {
        DetailsView {
            numeric: self.lc_numeric.1,
            time: self.lc_time.1,
            monetary: self.lc_monetary.1,
            messages: self.lc_messages.1,
            address: self.lc_addr.1,
            measure: self.lc_measure.1,
        }
    }

    /// The conventions for numbers.
    pub open spec fn spec_numeric_details(&self) -> LCNumeric {
        self.spec_details().numeric
    }

    /// The conventions for time.
    pub open spec fn spec_time_details(&self) -> LCTime {
        self.spec_details().time
    }

    /// The conventions for money.
    pub open spec fn spec_monetary_details(&self) -> LCMonetary {
        self.spec_details().monetary
    }

    /// The words for yes and no.
    pub open spec fn spec_messages_details(&self) -> LCMessages {
        self.spec_details().messages
    }

    /// The country and the language.
    pub open spec fn spec_address_details(&self) -> LCAddress {
        self.spec_details().address
    }

    /// The system of measures.
    pub open spec fn spec_measurement_details(&self) -> LCMeasure {
        self.spec_details().measure
    }

    /// Takes in the conventions for numbers.
    pub fn set_lc_numeric(&mut self, details: LCNumeric)
        ensures
            final(self)@ == old(self)@,
            final(self).spec_details() == (DetailsView {
                numeric: details,
                ..old(self).spec_details()
            }),
    {
        self.lc_numeric.1 = details;
    }

    /// Takes in the conventions for time.
    pub fn set_lc_time(&mut self, details: LCTime)
        ensures
            final(self)@ == old(self)@,
            final(self).spec_details() == (DetailsView {
                time: details,
                ..old(self).spec_details()
            }),
    {
        self.lc_time.1 = details;
    }

    /// Takes in the conventions for money.
    pub fn set_lc_monetary(&mut self, details: LCMonetary)
        ensures
            final(self)@ == old(self)@,
            final(self).spec_details() == (DetailsView {
                monetary: details,
                ..old(self).spec_details()
            }),
    {
        self.lc_monetary.1 = details;
    }

    /// Takes in the words for yes and no.
    pub fn set_lc_messages(&mut self, details: LCMessages)
        ensures
            final(self)@ == old(self)@,
            final(self).spec_details() == (DetailsView {
                messages: details,
                ..old(self).spec_details()
            }),
    {
        self.lc_messages.1 = details;
    }

    /// Takes in the country and the language.
    pub fn set_lc_addr(&mut self, details: LCAddress)
        ensures
            final(self)@ == old(self)@,
            final(self).spec_details() == (DetailsView {
                address: details,
                ..old(self).spec_details()
            }),
    {
        self.lc_addr.1 = details;
    }

    /// Takes in the system of measures.
    pub fn set_lc_measure(&mut self, details: LCMeasure)
        ensures
            final(self)@ == old(self)@,
            final(self).spec_details() == (DetailsView {
                measure: details,
                ..old(self).spec_details()
            }),
    {
        self.lc_measure.1 = details;
    }

    /// What is written to set the locale, and to which files in turn: the
    /// file of the user, then, for the whole system, the file of the
    /// system.
    pub fn set_locale(&self, lc_conf: LocaleConf, target: ExportTarget) -> (r: (
        String,
        Vec<ExportTarget>,
    ))
        ensures
            r.0@ == locale_string(lc_conf),
            r.1@ == targets_of(target),
    {
        let data = LocaleManager::to_locale_string(lc_conf);
        let mut targets: Vec<ExportTarget> = Vec::new();
        targets.push(ExportTarget::Local);
        match target {
            ExportTarget::Local => {},
            ExportTarget::Global => {
                targets.push(ExportTarget::Global);
            },
        }
        assert(targets@ =~= targets_of(target));
        (data, targets)
    }

    /// The text of the file that sets the locale.
    pub fn to_locale_string(locale_conf: LocaleConf) -> (r: String)
        ensures
            r@ == locale_string(locale_conf),
    {
        let mut r = String::from_str("LANG=");
        r.append(locale_conf.lang.as_str());
        r.append("\nLANGUAGE=");
        r.append(locale_conf.language.as_str());
        r.append("\nLC_NUMERIC=");
        r.append(locale_conf.lc_numeric.as_str());
        r.append("\nLC_TIME=");
        r.append(locale_conf.lc_time.as_str());
        r.append("\nLC_MONETARY=");
        r.append(locale_conf.lc_monetary.as_str());
        r.append("\nLC_ADDRESS=");
        r.append(locale_conf.lc_address.as_str());
        r.append("\nLC_MEASUREMENT=");
        r.append(locale_conf.lc_measurement.as_str());
        r.append("\n");
        r
    }
}

} // verus!
