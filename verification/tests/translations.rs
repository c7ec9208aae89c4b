use rsi_maintenance::bundle::{ArgValue, MessageArgs};
use rsi_maintenance::i18n::{
    choose_source, detect_lang, lang_source, locale_file_candidates, normalize_locale, parse_lang,
    BundleError, I18n, LangSource, TranslationError,
};
use rsi_maintenance::pages::config_editor_page::ConfigEditorPage;
use rsi_maintenance::pages::maintenance::Maintenance;
use rsi_maintenance::pages::runner::RunnerPage;
use rsi_maintenance::pages::welcome::Welcome;

pub const FTL: &str = "\
Back = Back
Exit = Exit
Picker-SelectGameDir = Select the game directory
RSI-Launcher-Maintenance = RSI Launcher Maintenance
Welcome = Welcome
Maintenance = Maintenance
Run-Launcher = Run Launcher
Config-Editor = Config Editor
Add-Entry = Add entry
Welcome-Greeting = Greetings, Space Penguin!
Welcome-HelpIntro = For help with the game, refer to the LUG org's
Welcome-Wiki = wiki
Install-Launcher = Install Launcher
Greet = Hello, { $name }!
Count = { $n } files
label-only =
    .tooltip = Tip
";

fn english() -> I18n {
    let lang = parse_lang("en_US.UTF-8").expect("en-US parses");
    assert_eq!(lang.tag(), "en-US");
    match I18n::new(lang, FTL.to_string()) {
        Ok(i) => i,
        Err(_) => panic!("bundle"),
    }
}

#[test]
fn locale_normalization() {
    assert_eq!(normalize_locale("de_DE.UTF-8@euro"), "de-DE");
    assert_eq!(normalize_locale("en_US"), "en-US");
    assert_eq!(normalize_locale("fr@x.y"), "fr");
    assert_eq!(normalize_locale("pt_BR.ISO-8859-1"), "pt-BR");
    assert_eq!(normalize_locale(""), "");
}

#[test]
fn parsing_languages() {
    let de = parse_lang("de_DE.UTF-8").expect("de-DE parses");
    assert_eq!(de.tag(), "de-DE");
    let odd = parse_lang("EN_us").expect("case is normalised");
    assert_eq!(odd.tag(), "en-US");
    assert!(parse_lang("C").is_none());
    assert!(parse_lang("").is_none());
}

#[test]
fn language_sources() {
    assert!(matches!(lang_source(Some("de_DE.UTF-8"), Some("fr-FR")), LangSource::LangVariable));
    assert!(matches!(lang_source(Some("C"), Some("fr-FR")), LangSource::SystemLocale));
    assert!(matches!(lang_source(None, Some("fr_FR")), LangSource::SystemLocale));
    assert!(matches!(lang_source(Some("C"), None), LangSource::Fallback));
    assert!(matches!(lang_source(None, None), LangSource::Fallback));
}

#[test]
fn detected_language() {
    let l = detect_lang(Some("C"), Some("fr_FR.UTF-8"));
    assert_eq!(l.tag(), "fr-FR");
    let l = detect_lang(Some("de_AT.UTF-8"), Some("fr_FR.UTF-8"));
    assert_eq!(l.tag(), "de-AT");
    let l = detect_lang(None, None);
    assert_eq!(l.tag(), "en-US");
}

#[test]
fn message_file_candidates() {
    assert_eq!(
        locale_file_candidates("en-US"),
        vec![
            "assets/i18n/en-US.ftl",
            "assets/i18n/en_US.ftl",
            "assets/i18n/en-us.ftl",
            "assets/i18n/en_us.ftl",
            "assets/i18n/EN-US.ftl",
            "assets/i18n/EN_US.ftl",
        ]
    );
}

#[test]
fn lookups() {
    let i = english();
    assert_eq!(i.t("Back"), "Back");
    assert!(matches!(i.lookup("Welcome"), Ok(t) if t == "Welcome"));
    match i.lookup("Nope") {
        Err(e) => assert_eq!(e.describe(), "Missing key: Nope"),
        Ok(_) => panic!("missing key"),
    }
    match i.lookup("label-only") {
        Err(e) => {
            assert!(matches!(e, TranslationError::NoValue));
            assert_eq!(e.describe(), "Message has no value");
        }
        Ok(_) => panic!("no value"),
    }
}

#[test]
fn lookups_with_arguments() {
    let i = english();
    let mut args = MessageArgs::new();
    args.set("name", ArgValue::Text("Pilot".to_string()));
    assert!(matches!(i.t_args("Greet", &args), Ok(t) if t == "Hello, Pilot!"));
    assert!(matches!(i.t_args("Gone", &args), Err(TranslationError::MissingKey(k)) if k == "Gone"));
}

#[test]
fn invalid_ftl_is_refused() {
    let lang = parse_lang("en").expect("en parses");
    assert!(matches!(I18n::new(lang, "= broken".to_string()), Err(BundleError::InvalidFtl)));
}

#[test]
fn duplicate_messages_are_refused() {
    let lang = parse_lang("en").expect("en parses");
    assert!(matches!(
        I18n::new(lang, "a = 1\na = 2\n".to_string()),
        Err(BundleError::ResourceRejected)
    ));
}

#[test]
fn page_labels() {
    let i = english();
    let w = match Welcome::new(&i) {
        Ok(w) => w,
        Err(_) => panic!("welcome labels"),
    };
    assert_eq!(w.greeting, "Greetings, Space Penguin!");
    assert_eq!(w.wiki, "wiki");
    assert_eq!(w.exit_label, "Exit");
    let c = match ConfigEditorPage::new(&i) {
        Ok(c) => c,
        Err(_) => panic!("editor labels"),
    };
    assert_eq!(c.title, "Config Editor");
    assert_eq!(c.add_entry, "Add entry");
    assert_eq!(c.back, "Back");
}

#[test]
fn page_labels_report_first_missing_key() {
    let i = english();
    match Maintenance::new(&i) {
        Err(e) => assert_eq!(e.describe(), "Missing key: RSI-Maintenance"),
        Ok(_) => panic!("labels are missing"),
    }
    match RunnerPage::new(&i) {
        Err(e) => assert_eq!(e.describe(), "Missing key: Run-Launcher-Description"),
        Ok(_) => panic!("labels are missing"),
    }
}

#[test]
fn arguments_fill_placeables() {
    let i = english();
    let mut args = MessageArgs::new();
    args.set("n", ArgValue::Integer(3));
    assert!(matches!(i.t_args("Count", &args), Ok(t) if t == "3 files"));
    args.set("n", ArgValue::Integer(12));
    assert!(matches!(i.t_args("Count", &args), Ok(t) if t == "12 files"));
    args.set("name", ArgValue::Text("Penguin".to_string()));
    assert!(matches!(i.t_args("Greet", &args), Ok(t) if t == "Hello, Penguin!"));
    assert!(matches!(i.t_args("label-only", &args), Err(TranslationError::NoValue)));
    assert!(matches!(i.t_args("Back", &MessageArgs::new()), Ok(t) if t == "Back"));
}

#[test]
fn translations_hold_the_given_source() {
    let lang = parse_lang("de_DE").expect("de-DE parses");
    let i = match I18n::new(lang, "Back = Zurück\nExit = Beenden\n".to_string()) {
        Ok(i) => i,
        Err(_) => panic!("bundle"),
    };
    assert_eq!(i.t("Back"), "Zurück");
    assert_eq!(i.t("Exit"), "Beenden");
    assert!(matches!(i.lookup("Welcome"), Err(TranslationError::MissingKey(k)) if k == "Welcome"));
}

#[test]
fn message_and_term_ids_must_differ() {
    let lang = parse_lang("en").expect("en parses");
    assert!(matches!(
        I18n::new(lang, "-brand = Penguin\nhello = Hi { -brand }\n".to_string()),
        Ok(_)
    ));
    let lang = parse_lang("en").expect("en parses");
    assert!(matches!(
        I18n::new(lang, "-a = 1\n-a = 2\n".to_string()),
        Err(BundleError::ResourceRejected)
    ));
}

#[test]
fn first_read_message_file_wins() {
    let embedded = "Back = Back".to_string();
    assert_eq!(
        choose_source(vec![None, Some("a = 1".to_string()), Some("b = 2".to_string())], embedded.clone()),
        "a = 1"
    );
    assert_eq!(choose_source(vec![None, None], embedded.clone()), "Back = Back");
    assert_eq!(choose_source(vec![], embedded), "Back = Back");
}
