//! The maintenance screen.
use vstd::prelude::*;
use crate::i18n::{I18n, TranslationError};
use crate::pages::{first_missing, lookup_all, lookup_failure};

verus! {

/// The maintenance screen's labels.
pub struct Maintenance {
    pub rsi_maintenance: String,
    pub open_config_file: String,
    pub open_game_directory: String,
    pub winecfg: String,
    pub control: String,
    pub regedit: String,
}

/// The message keys of the labels, in field order.
pub open spec fn maintenance_keys() -> Seq<Seq<char>> {
    seq![
        "RSI-Maintenance"@,
        "Open-config-file"@,
        "Open-game-directory"@,
        "Winecfg"@,
        "Control"@,
        "Regedit"@,
    ]
}

impl Maintenance {
    /// The labels in the language of `i18n`, or the error of the first
    /// label without a text.
    pub fn new(i18n: &I18n) -> (r: Result<Maintenance, TranslationError>)
        ensures
            r is Ok <==> first_missing(*i18n, maintenance_keys()) is None,
            r matches Ok(w) ==> w.rsi_maintenance@ == i18n.text("RSI-Maintenance"@),
            r matches Ok(w) ==> w.open_config_file@ == i18n.text("Open-config-file"@),
            r matches Ok(w) ==> w.open_game_directory@ == i18n.text("Open-game-directory"@),
            r matches Ok(w) ==> w.winecfg@ == i18n.text("Winecfg"@),
            r matches Ok(w) ==> w.control@ == i18n.text("Control"@),
            r matches Ok(w) ==> w.regedit@ == i18n.text("Regedit"@),
            r matches Err(e) ==> first_missing(*i18n, maintenance_keys()) matches Some(k) && e.message()
                == lookup_failure(*i18n, k),
    {
        let keys: [&str; 6] = [
            "RSI-Maintenance",
            "Open-config-file",
            "Open-game-directory",
            "Winecfg",
            "Control",
            "Regedit",
        ];
        assert(crate::pages::key_texts(keys@) =~= maintenance_keys());
        let mut v = match lookup_all(i18n, &keys) {
            Ok(v) => v,
            Err(e) => {
                return Err(e);
            },
        };
        let regedit = v.pop().unwrap();
        let control = v.pop().unwrap();
        let winecfg = v.pop().unwrap();
        let open_game_directory = v.pop().unwrap();
        let open_config_file = v.pop().unwrap();
        let rsi_maintenance = v.pop().unwrap();
        Ok(Maintenance { rsi_maintenance, open_config_file, open_game_directory, winecfg, control, regedit })
    }
}

/// What the maintenance screen's controls send.
pub enum Message {
    Exit,
    Back,
    Winecfg,
    Control,
    Regedit,
    OpenCfg,
    OpenGameDir,
}

} // verus!
