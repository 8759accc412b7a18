use libkoompi::system_settings::locale::{LCMeasure, LCNumeric, LCTime};
use libkoompi::system_settings::locale::locale_manager::{
    ls_measure_units, LC_Keywords, LocaleManager,
};

const LOCALE: &str = "LANG=km_KH.UTF-8\nLC_NUMERIC=\"km_KH.UTF-8\"\nLC_TIME=\"en_US.UTF-8\"\n\
LC_MONETARY=\"km_KH.UTF-8\"\nLC_MEASUREMENT=\"en_GB.UTF-8\"\n";

const ARCHIVE: &str = "C.utf8\nen_US.utf8\nkm_KH\nkm_KH.utf8\nen_GB.iso88591\n";

fn manager(language: &str) -> LocaleManager {
    let mut locale_mn = LocaleManager::new(LOCALE, language, ARCHIVE);
    locale_mn.fetch_list_region_lang(&vec![
        None,
        Some(String::from("American English\nUnited States\n")),
        Some(String::from("Khmer\nCambodia\n")),
    ]);
    locale_mn
}

fn pair(a: &str, b: &str) -> (String, String) {
    (a.to_string(), b.to_string())
}

#[test]
fn locale_manager_test_locale_manager() {
    let mut locale_mn = manager("");
    // the conventions for numbers chosen on this machine
    locale_mn.set_locale(LC_Keywords::LC_NUMERIC, "ខ្មែរ_កម្ពុជា");
    locale_mn.set_locale(LC_Keywords::LC_TIME, "km_KH.UTF-8");
    println!("{:#?}", locale_mn.time_details());
    let data = locale_mn.write_conf();
    println!("Success set locale");
    println!("{}", data);

    locale_mn
        .list_prefered_langs()
        .iter()
        .for_each(|(key, lang_reg)| println!("{} => {}", key, lang_reg));
    assert_eq!(locale_mn.numeric().1, "ខ្មែរ_កម្ពុជា");
}

#[test]
fn archive_locales_are_written_in_full() {
    let m = manager("");
    assert_eq!(m.list_locales(), &vec!["C.UTF-8", "en_US.UTF-8", "km_KH.UTF-8"]);
    let odd = LocaleManager::new("", "", "a.utf8.b\nb.utf\nx.y.utf8\n.utf8\nq.utf8x9\n");
    assert_eq!(odd.list_locales(), &vec!["a.UTF-8", "x.Y-", ".UTF-8", "q.UTF-8X9"]);
}

#[test]
fn names_of_locales_use_a_dash() {
    let m = manager("");
    assert_eq!(
        m.list_langs_regions(),
        &vec![
            pair("en_US.UTF-8", "American English — United States (en_US.UTF-8)"),
            pair("km_KH.UTF-8", "Khmer — Cambodia (km_KH.UTF-8)"),
        ]
    );
    assert_eq!(m.language(), ("km_KH.UTF-8", "Khmer — Cambodia (km_KH.UTF-8)"));
    assert_eq!(m.time().1, "American English — United States (en_US.UTF-8)");
    assert_eq!(m.numeric().0, "km_KH.UTF-8");
    assert_eq!(m.monetary().1, "Khmer — Cambodia (km_KH.UTF-8)");
    // no name is known for this one
    assert_eq!(m.measurement(), (&"en_GB.UTF-8".to_string(), &"en_GB.UTF-8".to_string()));
}

#[test]
fn preferred_languages_are_looked_up_by_their_full_name() {
    assert_eq!(manager("").list_prefered_langs(), vec![pair("km_KH.UTF-8", "Khmer — Cambodia ")]);
    assert_eq!(
        manager("en_US:fr_FR").list_prefered_langs(),
        vec![
            pair("en_US.UTF-8", "American English — United States "),
            pair("km_KH.UTF-8", "Khmer — Cambodia (km_KH.UTF-8)"),
        ]
    );
}

#[test]
fn choices_are_in_force_once_written() {
    let mut m = manager("en_US");
    m.set_locale(LC_Keywords::LANG, "en_US.UTF-8");
    m.set_locale(LC_Keywords::LANGUAGE, "en_US:km_KH");
    m.set_locale(LC_Keywords::LC_MONETARY, "en_US.UTF-8");
    m.set_locale(LC_Keywords::LC_MEASUREMENT, "km_KH.UTF-8");
    assert_eq!(m.language().0, "km_KH.UTF-8");
    assert_eq!(
        m.to_locale_string(),
        "LANG=km_KH.UTF-8\nLANGUAGE=en_US\nLC_NUMERIC=km_KH.UTF-8\nLC_TIME=en_US.UTF-8\n\
LC_MONETARY=km_KH.UTF-8\nLC_MEASUREMENT=en_GB.UTF-8\n"
    );
    assert_eq!(
        m.write_conf(),
        "LANG=en_US.UTF-8\nLANGUAGE=en_US:km_KH\nLC_NUMERIC=\nLC_TIME=\n\
LC_MONETARY=en_US.UTF-8\nLC_MEASUREMENT=km_KH.UTF-8\n"
    );
    assert_eq!(m.language().0, "en_US.UTF-8");
    assert_eq!(m.numeric().0, "");
    assert_eq!(m.measurement().1, "Khmer — Cambodia (km_KH.UTF-8)");
}

#[test]
fn measure_units() {
    assert_eq!(
        ls_measure_units(),
        vec![
            pair("km_KH.UTF-8", "Metric"),
            pair("en_US.UTF-8", "Imperial US"),
            pair("en_GB.UTF-8", "Imperial UK"),
        ]
    );
    assert_eq!(LC_Keywords::LANGUAGE.name(), "LANGUAGE");
}

#[test]
fn choosing_and_writing_leave_the_details_alone() {
    let mut m = manager("");
    assert_eq!(m.numeric_details(), &LCNumeric::default());
    assert_eq!(m.time_details(), &LCTime::default());
    m.set_lc_numeric(LCNumeric { decimal_point: ",".into(), thousands_sep: ".".into(), grouping: 3 });
    m.set_lc_measure(LCMeasure { measurement: 2 });
    m.set_locale(LC_Keywords::LC_NUMERIC, "en_US.UTF-8");
    m.write_conf();
    assert_eq!(m.numeric_details().decimal_point, ",");
    assert_eq!(m.numeric_details().grouping, 3);
    assert_eq!(m.measurement_details().measurement, 2);
    assert_eq!(m.monetary_details().frac_digits, 0);
}
