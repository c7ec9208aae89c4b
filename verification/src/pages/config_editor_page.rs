//! The configuration editor screen.
use vstd::prelude::*;
use crate::i18n::{I18n, TranslationError};
use crate::pages::{first_missing, lookup_all, lookup_failure};

verus! {

/// The configuration editor's labels.
pub struct ConfigEditorPage {
    pub title: String,
    pub add_entry: String,
    pub back: String,
}

/// The message keys of the labels, in field order.
pub open spec fn config_editor_page_keys() -> Seq<Seq<char>> {
    seq![
        "Config-Editor"@,
        "Add-Entry"@,
        "Back"@,
    ]
}

impl ConfigEditorPage {
    /// The labels in the language of `i18n`, or the error of the first
    /// label without a text.
    pub fn new(i18n: &I18n) -> (r: Result<ConfigEditorPage, TranslationError>)
        ensures
            r is Ok <==> first_missing(*i18n, config_editor_page_keys()) is None,
            r matches Ok(w) ==> w.title@ == i18n.text("Config-Editor"@),
            r matches Ok(w) ==> w.add_entry@ == i18n.text("Add-Entry"@),
            r matches Ok(w) ==> w.back@ == i18n.text("Back"@),
            r matches Err(e) ==> first_missing(*i18n, config_editor_page_keys()) matches Some(k) && e.message()
                == lookup_failure(*i18n, k),
    {
        let keys: [&str; 3] = [
            "Config-Editor",
            "Add-Entry",
            "Back",
        ];
        assert(crate::pages::key_texts(keys@) =~= config_editor_page_keys());
        let mut v = match lookup_all(i18n, &keys) {
            Ok(v) => v,
            Err(e) => {
                return Err(e);
            },
        };
        let back = v.pop().unwrap();
        let add_entry = v.pop().unwrap();
        let title = v.pop().unwrap();
        Ok(ConfigEditorPage { title, add_entry, back })
    }
}

} // verus!
