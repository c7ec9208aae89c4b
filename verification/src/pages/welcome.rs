//! The welcome screen.
use vstd::prelude::*;
use crate::i18n::{I18n, TranslationError};
use crate::pages::{first_missing, lookup_all, lookup_failure};

verus! {

/// The welcome screen's labels.
pub struct Welcome {
    pub greeting: String,
    pub help_intro: String,
    pub wiki: String,
    pub maintenance_label: String,
    pub install_launcher_label: String,
    pub run_launcher_label: String,
    pub exit_label: String,
}

/// The message keys of the labels, in field order.
pub open spec fn welcome_keys() -> Seq<Seq<char>> {
    seq![
        "Welcome-Greeting"@,
        "Welcome-HelpIntro"@,
        "Welcome-Wiki"@,
        "Maintenance"@,
        "Install-Launcher"@,
        "Run-Launcher"@,
        "Exit"@,
    ]
}

impl Welcome {
    /// The labels in the language of `i18n`, or the error of the first
    /// label without a text.
    pub fn new(i18n: &I18n) -> (r: Result<Welcome, TranslationError>)
        ensures
            r is Ok <==> first_missing(*i18n, welcome_keys()) is None,
            r matches Ok(w) ==> w.greeting@ == i18n.text("Welcome-Greeting"@),
            r matches Ok(w) ==> w.help_intro@ == i18n.text("Welcome-HelpIntro"@),
            r matches Ok(w) ==> w.wiki@ == i18n.text("Welcome-Wiki"@),
            r matches Ok(w) ==> w.maintenance_label@ == i18n.text("Maintenance"@),
            r matches Ok(w) ==> w.install_launcher_label@ == i18n.text("Install-Launcher"@),
            r matches Ok(w) ==> w.run_launcher_label@ == i18n.text("Run-Launcher"@),
            r matches Ok(w) ==> w.exit_label@ == i18n.text("Exit"@),
            r matches Err(e) ==> first_missing(*i18n, welcome_keys()) matches Some(k) && e.message()
                == lookup_failure(*i18n, k),
    {
        let keys: [&str; 7] = [
            "Welcome-Greeting",
            "Welcome-HelpIntro",
            "Welcome-Wiki",
            "Maintenance",
            "Install-Launcher",
            "Run-Launcher",
            "Exit",
        ];
        assert(crate::pages::key_texts(keys@) =~= welcome_keys());
        let mut v = match lookup_all(i18n, &keys) {
            Ok(v) => v,
            Err(e) => {
                return Err(e);
            },
        };
        let exit_label = v.pop().unwrap();
        let run_launcher_label = v.pop().unwrap();
        let install_launcher_label = v.pop().unwrap();
        let maintenance_label = v.pop().unwrap();
        let wiki = v.pop().unwrap();
        let help_intro = v.pop().unwrap();
        let greeting = v.pop().unwrap();
        Ok(
            Welcome {
                greeting,
                help_intro,
                wiki,
                maintenance_label,
                install_launcher_label,
                run_launcher_label,
                exit_label,
            },
        )
    }
}

/// What the welcome screen's controls send.
pub enum Message {
    Exit,
    Maintenance,
    InstallLauncher,
    RunLauncher,
    OpenWiki,
}

/// The buttons of the welcome screen, by what they send, in order: the
/// maintenance screen, installing the launcher, running it (only where it
/// is installed), and exit.
pub open spec fn button_row(launcher_installed: bool) -> Seq<Message> {
    if launcher_installed {
        seq![Message::Maintenance, Message::InstallLauncher, Message::RunLauncher, Message::Exit]
    } else {
        seq![Message::Maintenance, Message::InstallLauncher, Message::Exit]
    }
}

/// The buttons of the welcome screen, by what they send (see `button_row`).
pub fn buttons(launcher_installed: bool) -> (r: Vec<Message>)
    ensures
        r@ == button_row(launcher_installed),
{
    let mut r: Vec<Message> = Vec::new();
    r.push(Message::Maintenance);
    r.push(Message::InstallLauncher);
    if launcher_installed {
        r.push(Message::RunLauncher);
    }
    r.push(Message::Exit);
    r
}

} // verus!
