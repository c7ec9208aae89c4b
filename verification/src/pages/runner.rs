//! The screen that installs and runs the launcher.
use vstd::prelude::*;
use crate::i18n::{I18n, TranslationError};
use crate::pages::{first_missing, lookup_all, lookup_failure};

verus! {

/// The runner screen's labels.
pub struct RunnerPage {
    pub title: String,
    pub description: String,
    pub install_label: String,
    pub run_label: String,
    pub cancel_label: String,
    pub done_label: String,
}

/// The message keys of the labels, in field order.
pub open spec fn runner_page_keys() -> Seq<Seq<char>> {
    seq![
        "Run-Launcher"@,
        "Run-Launcher-Description"@,
        "Install-Launcher"@,
        "Run-Launcher"@,
        "Cancel"@,
        "Done"@,
    ]
}

impl RunnerPage {
    /// The labels in the language of `i18n`, or the error of the first
    /// label without a text.
    pub fn new(i18n: &I18n) -> (r: Result<RunnerPage, TranslationError>)
        ensures
            r is Ok <==> first_missing(*i18n, runner_page_keys()) is None,
            r matches Ok(w) ==> w.title@ == i18n.text("Run-Launcher"@),
            r matches Ok(w) ==> w.description@ == i18n.text("Run-Launcher-Description"@),
            r matches Ok(w) ==> w.install_label@ == i18n.text("Install-Launcher"@),
            r matches Ok(w) ==> w.run_label@ == i18n.text("Run-Launcher"@),
            r matches Ok(w) ==> w.cancel_label@ == i18n.text("Cancel"@),
            r matches Ok(w) ==> w.done_label@ == i18n.text("Done"@),
            r matches Err(e) ==> first_missing(*i18n, runner_page_keys()) matches Some(k) && e.message()
                == lookup_failure(*i18n, k),
    {
        let keys: [&str; 6] = [
            "Run-Launcher",
            "Run-Launcher-Description",
            "Install-Launcher",
            "Run-Launcher",
            "Cancel",
            "Done",
        ];
        assert(crate::pages::key_texts(keys@) =~= runner_page_keys());
        let mut v = match lookup_all(i18n, &keys) {
            Ok(v) => v,
            Err(e) => {
                return Err(e);
            },
        };
        let done_label = v.pop().unwrap();
        let cancel_label = v.pop().unwrap();
        let run_label = v.pop().unwrap();
        let install_label = v.pop().unwrap();
        let description = v.pop().unwrap();
        let title = v.pop().unwrap();
        Ok(RunnerPage { title, description, install_label, run_label, cancel_label, done_label })
    }
}

/// What the runner screen's controls send.
pub enum Message {
    Cancel,
    Done,
    InstallLauncher,
    RunLauncher,
    Progress(crate::download::Progress),
    Error(String),
    DownloadUpdate(crate::download::DownloadUpdate),
}

} // verus!
