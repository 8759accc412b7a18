use libkoompi::helpers::Command;
use libkoompi::system_settings::locale_bk::{
    format_monetary_details, format_time_details, LCDetails, LCNumeric, LCTelephone, LC_Keywords,
    LocaleManager,
};

const SHORT_STATUS: &str = "   System Locale: LANG=en_US.UTF-8\n       VC Keymap: us\n      X11 Layout: us,kh\n     X11 Variant: ,\n";

const FULL_STATUS: &str = "   System Locale: LANG=km_KH.UTF-8\n                  LC_NUMERIC=km_KH.UTF-8\n                  LC_TIME=en_US.UTF-8\n       VC Keymap: de\nVC Toggle Keymap: us\n      X11 Layout: de\n       X11 Model: pc105\n     X11 Options: terminate:ctrl_alt_bksp\n";

fn localectl(args: &[&str]) -> Command {
    Command::new("localectl", args.iter().map(|s| s.to_string()).collect())
}

#[test]
fn a_short_status_gives_the_keyboard_and_locale_gives_the_language() {
    let m = LocaleManager::new(Some(SHORT_STATUS), Some("LANG=fr_FR.UTF-8\nLC_TIME=\"x\"\n"), Some("C.UTF-8\nfr_FR.UTF-8\n"));
    assert_eq!(m.vc_keymap(), "us");
    assert_eq!(m.vc_toggle_keymap(), &None);
    assert_eq!(m.x11_layout(), "us,kh");
    assert_eq!(m.x11_variant().as_deref(), Some(","));
    assert_eq!(m.x11_model(), &None);
    assert_eq!(m.x11_options(), &None);
    assert_eq!(m.system_locale().lang(), "fr_FR.UTF-8");
    assert_eq!(m.list_locales(), &vec!["C.UTF-8", "fr_FR.UTF-8"]);
    assert_eq!(m.system_locale().ls_locale(), &vec!["C.UTF-8", "fr_FR.UTF-8"]);
    assert_eq!(m.system_locale().lc_numeric(), &None);
}

#[test]
fn a_full_status_gives_the_language_too() {
    let m = LocaleManager::new(Some(FULL_STATUS), Some("LANG=fr_FR.UTF-8\n"), None);
    assert_eq!(m.system_locale().lang(), "km_KH.UTF-8");
    assert_eq!(m.vc_keymap(), "de");
    assert_eq!(m.vc_toggle_keymap().as_deref(), Some("us"));
    assert_eq!(m.x11_model().as_deref(), Some("pc105"));
    // the value of a line ends at its second separator
    assert_eq!(m.x11_options().as_deref(), Some("terminate"));
    assert_eq!(m.list_locales().len(), 0);
}

#[test]
fn nothing_that_ran_leaves_nothing_known() {
    let m = LocaleManager::new(None, None, None);
    assert_eq!(m.system_locale().lang(), "");
    assert_eq!(m.vc_keymap(), "");
    assert_eq!(m.x11_layout(), "");
    let only_locale = LocaleManager::new(None, Some("LANG=C\n"), None);
    assert_eq!(only_locale.system_locale().lang(), "C");
}

#[test]
fn settings_that_were_set_are_taken_note_of() {
    let mut m = LocaleManager::new(Some(SHORT_STATUS), None, None);
    assert!(m.set_locale(LC_Keywords::LANG, "km_KH.UTF-8", None));
    assert!(m.set_keymap("us", None));
    assert!(m.set_x11_keymap("us", None, None, None));
    assert_eq!(m.vc_keymap(), "us");
    assert_eq!(m.x11_layout(), "us");
    assert_eq!(m.system_locale().lang(), "km_KH.UTF-8");
    assert_eq!(m.x11_variant(), &None);
    assert!(m.set_keymap("de", Some("us")));
    assert_eq!(m.vc_toggle_keymap().as_deref(), Some("us"));
    assert!(m.set_x11_keymap("kh", Some("pc104"), Some("basic"), Some("grp:toggle")));
    assert_eq!(m.x11_model().as_deref(), Some("pc104"));
    assert_eq!(m.x11_variant().as_deref(), Some("basic"));
    assert_eq!(m.x11_options().as_deref(), Some("grp:toggle"));
    let numeric = LCNumeric { lc: "km_KH.UTF-8".into(), dec_point: ".".into(), thousands_sep: ",".into(), grp: 3 };
    m.set_details(LCDetails::Numeric(LCNumeric { lc: "km_KH.UTF-8".into(), dec_point: ".".into(), thousands_sep: ",".into(), grp: 3 }));
    assert_eq!(m.system_locale().lc_numeric(), &Some(numeric));
    assert_eq!(m.system_locale().lc_tel(), &None);
    m.set_details(LCDetails::Telephone(LCTelephone {
        lc: "x".into(),
        tel_int_fmt: "+%c".into(),
        tel_dom_fmt: String::new(),
        int_select: "00".into(),
        int_prefix: "855".into(),
    }));
    assert_eq!(m.system_locale().lc_tel().as_ref().unwrap().int_prefix, "855");
    assert_eq!(m.system_locale().lc_time(), &None);
    assert_eq!(m.system_locale().lc_monetary(), &None);
    assert_eq!(m.system_locale().lc_addr(), &None);
}

#[test]
fn commands_of_localectl() {
    assert_eq!(LocaleManager::status_command(), localectl(&["status"]));
    assert_eq!(
        LocaleManager::set_locale_command(LC_Keywords::LANG, "km_KH.UTF-8"),
        localectl(&["set-locale", "LANG=km_KH.UTF-8"])
    );
    assert_eq!(
        LocaleManager::set_locale_command(LC_Keywords::LC_TELEPHONE, ""),
        localectl(&["set-locale", "LC_TELEPHONE="])
    );
    assert_eq!(LocaleManager::list_keymaps_command(), localectl(&["list-keymaps"]));
    assert_eq!(LocaleManager::set_keymap_command("us", None), localectl(&["set-keymap", "us", ""]));
    assert_eq!(
        LocaleManager::set_keymap_command("us", Some("de")),
        localectl(&["set-keymap", "us", "de"])
    );
    assert_eq!(
        LocaleManager::list_keymap_models_command(),
        localectl(&["list-x11-keymap-models"])
    );
    assert_eq!(
        LocaleManager::list_keymap_layouts_command(),
        localectl(&["list-x11-keymap-layouts"])
    );
    assert_eq!(
        LocaleManager::list_keymap_variants_command("us"),
        localectl(&["list-x11-keymap-variants", "us"])
    );
    assert_eq!(
        LocaleManager::list_keymap_options_command(),
        localectl(&["list-x11-keymap-options"])
    );
    assert_eq!(
        LocaleManager::set_x11_keymap_command("us", None, Some("intl"), None),
        localectl(&["set-x11-keymap", "us", "", "intl", ""])
    );
    assert_eq!(LC_Keywords::LC_ADDRESS.name(), "LC_ADDRESS");
}

#[test]
fn lists_are_the_lines_that_were_printed() {
    let m = LocaleManager::new(None, None, None);
    assert_eq!(m.list_keymaps("us\nde\n"), vec!["us", "de"]);
    assert_eq!(m.list_keymap_models("pc104\npc105"), vec!["pc104", "pc105"]);
    assert_eq!(m.list_keymap_layouts(""), Vec::<String>::new());
    assert_eq!(m.list_keymap_variants("intl\n\nalt-intl\n"), vec!["intl", "", "alt-intl"]);
    assert_eq!(m.list_keymap_options("grp:toggle\n"), vec!["grp:toggle"]);
}

#[test]
fn details_lose_the_lines_that_cannot_be_read() {
    assert_eq!(
        format_time_details("abday=\"Sun\"\nera=\nalt_digits=\ntime-era-entries=\nweek-ndays=7\n"),
        "abday=\"Sun\"\nweek_ndays=7"
    );
    assert_eq!(
        format_monetary_details("int_curr_symbol=\"KHR \"\nmon_grouping=3;3\nconversion-rate=1;1\nfrac-digits=2\n"),
        "int_curr_symbol=\"KHR \"\nfrac_digits=2"
    );
}

fn numeric(lc: &str) -> LCNumeric {
    LCNumeric { lc: lc.into(), dec_point: ".".into(), thousands_sep: ",".into(), grp: 3 }
}

#[test]
fn a_setting_other_than_the_language_takes_in_its_details() {
    let mut m = LocaleManager::new(Some(SHORT_STATUS), Some("LANG=C\n"), None);
    assert!(m.set_locale(LC_Keywords::LC_NUMERIC, "km_KH.UTF-8", Some(LCDetails::Numeric(numeric("km_KH.UTF-8")))));
    assert_eq!(m.system_locale().lc_numeric(), &Some(numeric("km_KH.UTF-8")));
    assert_eq!(m.system_locale().lang(), "C");
    // details that could not be read leave the old ones
    assert!(m.set_locale(LC_Keywords::LC_NUMERIC, "en_US.UTF-8", None));
    assert_eq!(m.system_locale().lc_numeric(), &Some(numeric("km_KH.UTF-8")));
    // details of another setting are not taken in
    assert!(m.set_locale(LC_Keywords::LC_TIME, "en_US.UTF-8", Some(LCDetails::Numeric(numeric("x")))));
    assert_eq!(m.system_locale().lc_numeric(), &Some(numeric("km_KH.UTF-8")));
    assert_eq!(m.system_locale().lc_time(), &None);
    // for the language the details are left alone
    assert!(m.set_locale(LC_Keywords::LANG, "fr_FR.UTF-8", Some(LCDetails::Numeric(numeric("y")))));
    assert_eq!(m.system_locale().lang(), "fr_FR.UTF-8");
    assert_eq!(m.system_locale().lc_numeric(), &Some(numeric("km_KH.UTF-8")));
    assert_eq!(m.vc_keymap(), "us");
}

#[test]
fn settings_whose_details_are_read() {
    let pair = |k: LC_Keywords, v: &str| (k, v.to_string());
    assert_eq!(
        LocaleManager::listed_settings(Some(FULL_STATUS), Some("LC_ADDRESS=x\n")),
        vec![pair(LC_Keywords::LC_NUMERIC, "km_KH.UTF-8"), pair(LC_Keywords::LC_TIME, "en_US.UTF-8")]
    );
    assert_eq!(
        LocaleManager::listed_settings(
            Some(SHORT_STATUS),
            Some("LANG=C\nLC_TELEPHONE=\"km_KH.UTF-8\"\n LC_TIME=x\nLC_MONETARY=\nLC_ALL=\n")
        ),
        vec![pair(LC_Keywords::LC_TELEPHONE, "km_KH.UTF-8"), pair(LC_Keywords::LC_MONETARY, "")]
    );
    assert_eq!(LocaleManager::listed_settings(Some(SHORT_STATUS), None), vec![]);
    assert_eq!(LocaleManager::listed_settings(None, None), vec![]);
    assert_eq!(
        LocaleManager::details_command(LC_Keywords::LC_ADDRESS),
        Command::new("locale", vec!["-k".to_string(), "LC_ADDRESS".to_string()])
    );
}
