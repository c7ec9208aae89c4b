//! The application's state machine: the screen shown, the settings, the
//! runner and editor states, and how each message changes them. The host
//! performs the commands that a step returns and feeds their results back
//! as messages.
use vstd::prelude::*;
use crate::config::{AppConfig, ConfigFile};
use crate::config_editor;
use crate::download::{DownloadJob, DownloadState, DownloadUpdate, DownloadWidget, Progress};
use crate::i18n::{I18n, TranslationError};
use crate::pages::{maintenance, runner, welcome};
use crate::paths::{INSTALLER_FILE_HEAD, EXE_SUFFIX, installer_path, installer_url, join_path, prefix_path_from_config};
use crate::runner::{RunnerState, RunnerStatus};
use crate::text::{concat, owned};

verus! {

/// The screen on display.
#[derive(PartialEq, Eq, Structural)]
pub enum Screen {
    Welcome,
    Maintenance,
    Runner,
    ConfigEditor,
}

/// What reaches the application: user actions and the results of the
/// commands it asked for.
pub enum Message {
    Welcome(welcome::Message),
    Maintenance(maintenance::Message),
    Runner(runner::Message),
    ConfigEditor(config_editor::Message),
    /// The settings were read at start-up.
    ConfigLoaded(AppConfig),
    /// The launcher's latest version, or why it could not be had.
    VersionFetched(Result<String, String>),
    /// The install or launch finished.
    RunnerFinished(Result<(), String>),
    /// The user chose a game path (empty where the dialog was dismissed).
    GamePathResolved(String),
    /// Whether the launcher executable exists in the prefix asked about.
    LauncherChecked(bool),
    /// The configuration file for the editor was read.
    EditorConfigLoaded(ConfigFile),
}

/// What the host does for the application.
pub enum Command {
    /// Close the window.
    CloseWindow,
    /// Ask the user for the game path, titling the dialog so; answer with
    /// `GamePathResolved`.
    PickGamePath { title: String },
    /// Store the game path in the configuration file and apply the
    /// configuration to the process environment.
    PersistGamePath { game_path: String },
    /// Check whether the launcher is installed in the prefix; answer with
    /// `LauncherChecked`.
    CheckLauncher { prefix: String },
    /// Fetch the launcher's latest version; answer with `VersionFetched`.
    FetchLatestVersion,
    /// Run the download; answer with `Runner(DownloadUpdate(..))`.
    StartDownload(DownloadJob),
    /// Run the installed launcher; answer with `RunnerFinished`.
    RunInstalledLauncher { prefix: String },
    /// Mark the live release and run the downloaded installer; answer with
    /// `RunnerFinished`.
    InstallDownloaded { prefix: String },
    /// Read the configuration file; answer with `EditorConfigLoaded`.
    LoadEditorConfig,
    /// Write the configuration file.
    SaveConfig(ConfigFile),
    /// Start a Wine tool through `umu-run`.
    SpawnTool { tool: String },
    /// Open a path or address with the desktop's handler.
    Open { target: String },
}

/// The address of the community wiki.
pub const WIKI_URL: &'static str = "https://starcitizen-lug.github.io";

/// The message keys that the application looks up at start and relies on
/// while it runs: the labels of the "back" and "exit" buttons and the title
/// of the game directory picker.
pub open spec fn app_keys() -> Seq<Seq<char>> {
    seq!["Back"@, "Exit"@, "Picker-SelectGameDir"@]
}

/// The application's state.
pub struct AppState {
    pub screen: Screen,
    pub config: AppConfig,
    pub i18n: I18n,
    pub label_back: String,
    pub label_exit: String,
    pub runner_state: RunnerState,
    pub config_editor_state: Option<config_editor::State>,
}

/// The Wine prefix that game path `game_path` names when `WINEPREFIX` is
/// `wineprefix`.
pub open spec fn prefix_of(game_path: Seq<char>, wineprefix: Seq<char>) -> Seq<char> {
    if game_path.len() == 0 {
        wineprefix
    } else {
        game_path
    }
}

/// Whether `c` asks to check for the launcher in `prefix`.
pub open spec fn checks(c: Command, prefix: Seq<char>) -> bool {
    c matches Command::CheckLauncher { prefix: p } && p@ == prefix
}

/// Whether `c` asks for the game path under the picker's title.
pub open spec fn picks(c: Command, i18n: I18n) -> bool {
    c matches Command::PickGamePath { title } && title@ == i18n.text("Picker-SelectGameDir"@)
}

/// Whether `c` asks to save the configuration that `state` saves.
pub open spec fn saves(c: Command, state: config_editor::State) -> bool {
    c matches Command::SaveConfig(cfg) && cfg.settings.game_path@ == state.original_config.settings.game_path@
        && cfg.environment@ == config_editor::saved_environment(config_editor::rows(state.entries@))
}

/// Whether `r` has no active download and the given installed flag, as a
/// runner state that `RunnerState::new` makes.
pub open spec fn fresh_runner(r: RunnerState, installed: bool) -> bool {
    r.installed == installed && r.download is None
}

/// The outcome of one step: from state `s` the message `m`, with
/// `WINEPREFIX` at `wp`, leads to state `t` and the commands `cmds`.
pub open spec fn step(s: AppState, m: Message, wp: Seq<char>, t: AppState, cmds: Seq<Command>) -> bool {
    let gp = s.config.game_path@;
    let prefix = prefix_of(gp, wp);
    &&& t.i18n == s.i18n
    &&& t.label_back == s.label_back
    &&& t.label_exit == s.label_exit
    &&& match m {
        Message::ConfigLoaded(c) => t.config == c && t.screen == s.screen && t.runner_state == s.runner_state
            && t.config_editor_state == s.config_editor_state && cmds.len() == 0,
        Message::GamePathResolved(p) => {
            let gp2 = if p@.len() > 0 { p@ } else { gp };
            let prefix2 = prefix_of(gp2, wp);
            &&& t.config.game_path@ == gp2
            &&& t.screen == s.screen
            &&& t.config_editor_state == s.config_editor_state
            &&& t.runner_state.status is FetchingVersion && fresh_runner(t.runner_state, false)
            &&& if p@.len() > 0 {
                cmds.len() == 3 && (cmds[0] matches Command::PersistGamePath { game_path } && game_path@ == p@)
                    && checks(cmds[1], prefix2) && cmds[2] is FetchLatestVersion
            } else {
                cmds.len() == 2 && checks(cmds[0], prefix2) && cmds[1] is FetchLatestVersion
            }
        },
        Message::VersionFetched(Ok(v)) => {
            let url = crate::paths::INSTALLER_URL_HEAD@ + v@ + EXE_SUFFIX@;
            let save = join_path(prefix, INSTALLER_FILE_HEAD@ + v@ + EXE_SUFFIX@);
            &&& t.config == s.config && t.screen == s.screen && t.config_editor_state == s.config_editor_state
            &&& t.runner_state.installed == s.runner_state.installed
            &&& t.runner_state.status == (RunnerStatus::Downloading { progress: Progress::nothing() })
            &&& t.runner_state.download matches Some(dl) && (dl.source() matches Some(u) && u@ == url)
                && (dl.target() matches Some(f) && f@ == save) && dl.current() == (DownloadState::Downloading {
                progress: Progress::nothing(),
            })
            &&& cmds.len() == 1
            &&& cmds[0] matches Command::StartDownload(job) && job.url@ == url
                && (job.save_path matches Some(f) && f@ == save)
        },
        Message::VersionFetched(Err(e)) => t.config == s.config && t.screen == s.screen && t.config_editor_state
            == s.config_editor_state && t.runner_state.installed == s.runner_state.installed
            && t.runner_state.download == s.runner_state.download && (t.runner_state.status matches RunnerStatus::Failed(
            f,
        ) && f@ == "Version fetch failed: "@ + e@) && cmds.len() == 0,
        Message::RunnerFinished(r) => t.config == s.config && t.screen == s.screen && t.config_editor_state
            == s.config_editor_state && cmds.len() == 0 && match r {
            Ok(()) => t.runner_state.status is Complete && fresh_runner(t.runner_state, true),
            Err(e) => t.runner_state.status == RunnerStatus::Failed(e) && fresh_runner(t.runner_state, false),
        },
        Message::LauncherChecked(b) => t.config == s.config && t.screen == s.screen && t.config_editor_state
            == s.config_editor_state && t.runner_state.status == s.runner_state.status
            && t.runner_state.download == s.runner_state.download && t.runner_state.installed == b
            && cmds.len() == 0,
        Message::EditorConfigLoaded(c) => t.config == s.config && t.screen == s.screen && t.runner_state
            == s.runner_state && cmds.len() == 0 && (t.config_editor_state matches Some(ed) && config_editor::rows(
            ed.entries@,
        ) == c.environment@ && ed.original_config == c),
        Message::Welcome(w) => t.config == s.config && t.config_editor_state == s.config_editor_state && match w {
            welcome::Message::Maintenance => t.screen == Screen::Maintenance && t.runner_state == s.runner_state
                && cmds.len() == 0,
            welcome::Message::InstallLauncher => t.screen == Screen::Runner && if gp.len() == 0 {
                t.runner_state == s.runner_state && cmds.len() == 1 && picks(cmds[0], s.i18n)
            } else {
                t.runner_state.status is FetchingVersion && fresh_runner(t.runner_state, false) && cmds.len()
                    == 2 && checks(cmds[0], prefix) && cmds[1] is FetchLatestVersion
            },
            welcome::Message::RunLauncher => t.screen == Screen::Runner && t.runner_state.status is Launching
                && fresh_runner(t.runner_state, false) && cmds.len() == 2 && checks(cmds[0], prefix) && (
            cmds[1] matches Command::RunInstalledLauncher { prefix: p } && p@ == prefix),
            welcome::Message::Exit => t.screen == s.screen && t.runner_state == s.runner_state && cmds.len()
                == 1 && cmds[0] is CloseWindow,
            welcome::Message::OpenWiki => t.screen == s.screen && t.runner_state == s.runner_state && cmds.len()
                == 1 && (cmds[0] matches Command::Open { target } && target@ == WIKI_URL@),
        },
        Message::Maintenance(mm) => t.config == s.config && t.runner_state == s.runner_state && match mm {
            maintenance::Message::Exit => t.screen == s.screen && t.config_editor_state == s.config_editor_state
                && cmds.len() == 1 && cmds[0] is CloseWindow,
            maintenance::Message::Back => t.screen == Screen::Welcome && t.config_editor_state
                == s.config_editor_state && cmds.len() == 0,
            maintenance::Message::Winecfg => t.screen == s.screen && t.config_editor_state == s.config_editor_state
                && cmds.len() == 1 && (cmds[0] matches Command::SpawnTool { tool } && tool@ == "winecfg"@),
            maintenance::Message::Control => t.screen == s.screen && t.config_editor_state == s.config_editor_state
                && cmds.len() == 1 && (cmds[0] matches Command::SpawnTool { tool } && tool@ == "control"@),
            maintenance::Message::Regedit => t.screen == s.screen && t.config_editor_state == s.config_editor_state
                && cmds.len() == 1 && (cmds[0] matches Command::SpawnTool { tool } && tool@ == "regedit"@),
            maintenance::Message::OpenCfg => t.screen == Screen::ConfigEditor && t.config_editor_state is None
                && cmds.len() == 1 && cmds[0] is LoadEditorConfig,
            maintenance::Message::OpenGameDir => t.screen == s.screen && t.config_editor_state
                == s.config_editor_state && cmds.len() == 1 && (cmds[0] matches Command::Open { target }
                && target@ == gp),
        },
        Message::ConfigEditor(em) => t.config == s.config && t.runner_state == s.runner_state && match em {
            config_editor::Message::Back => t.screen == Screen::Maintenance && t.config_editor_state is None
                && cmds.len() == 0,
            config_editor::Message::AddEntry => t.screen == s.screen && match s.config_editor_state {
                None => t.config_editor_state is None && cmds.len() == 0,
                Some(ed) => t.config_editor_state matches Some(ed2) && ed2.original_config == ed.original_config
                    && config_editor::rows(ed2.entries@) == config_editor::rows(ed.entries@).push(
                    (Seq::<char>::empty(), Seq::<char>::empty()),
                ) && cmds.len() == 1 && saves(cmds[0], ed2),
            },
            config_editor::Message::RemoveEntry(i) => t.screen == s.screen && match s.config_editor_state {
                None => t.config_editor_state is None && cmds.len() == 0,
                Some(ed) => t.config_editor_state matches Some(ed2) && ed2.original_config == ed.original_config
                    && config_editor::rows(ed2.entries@) == config_editor::rows(ed.entries@).remove(i as int)
                    && cmds.len() == 1 && saves(cmds[0], ed2),
            },
            config_editor::Message::EditKey(i, k) => t.screen == s.screen && match s.config_editor_state {
                None => t.config_editor_state is None && cmds.len() == 0,
                Some(ed) => t.config_editor_state matches Some(ed2) && ed2.original_config == ed.original_config
                    && config_editor::rows(ed2.entries@) == (if i < ed.entries@.len() {
                    config_editor::rows(ed.entries@).update(i as int, (k@, ed.entries@[i as int].value@))
                } else {
                    config_editor::rows(ed.entries@)
                }) && cmds.len() == 1 && saves(cmds[0], ed2),
            },
            config_editor::Message::EditValue(i, v) => t.screen == s.screen && match s.config_editor_state {
                None => t.config_editor_state is None && cmds.len() == 0,
                Some(ed) => t.config_editor_state matches Some(ed2) && ed2.original_config == ed.original_config
                    && config_editor::rows(ed2.entries@) == (if i < ed.entries@.len() {
                    config_editor::rows(ed.entries@).update(i as int, (ed.entries@[i as int].key@, v@))
                } else {
                    config_editor::rows(ed.entries@)
                }) && cmds.len() == 1 && saves(cmds[0], ed2),
            },
        },
        Message::Runner(rm) => t.config == s.config && t.config_editor_state == s.config_editor_state && match rm {
            runner::Message::InstallLauncher => t.screen == s.screen && if gp.len() == 0 {
                t.runner_state == s.runner_state && cmds.len() == 1 && picks(cmds[0], s.i18n)
            } else {
                t.runner_state.status is FetchingVersion && fresh_runner(t.runner_state, false) && cmds.len()
                    == 1 && cmds[0] is FetchLatestVersion
            },
            runner::Message::RunLauncher => t.screen == s.screen && t.runner_state.status is Launching
                && fresh_runner(t.runner_state, s.runner_state.installed) && cmds.len() == 1 && (
            cmds[0] matches Command::RunInstalledLauncher { prefix: p } && p@ == prefix),
            runner::Message::Cancel | runner::Message::Done => t.screen == Screen::Welcome
                && t.runner_state.status is Idle && fresh_runner(t.runner_state, false) && cmds.len() == 0,
            runner::Message::Progress(_) | runner::Message::Error(_) => t.screen == s.screen && t.runner_state
                == s.runner_state && cmds.len() == 0,
            runner::Message::DownloadUpdate(u) => t.screen == s.screen && t.runner_state.installed
                == s.runner_state.installed && match s.runner_state.download {
                None => t.runner_state == s.runner_state && cmds.len() == 0,
                Some(dl) => match u {
                    DownloadUpdate::Progress(p) => t.runner_state.status == (RunnerStatus::Downloading {
                        progress: p,
                    }) && (t.runner_state.download matches Some(dl2) && dl2.source() == dl.source()
                        && dl2.target() == dl.target() && dl2.current() == (match dl.current() {
                        DownloadState::Downloading { .. } => DownloadState::Downloading { progress: p },
                        other => other,
                    })) && cmds.len() == 0,
                    DownloadUpdate::Finished(Ok(())) => t.runner_state.status is Installing
                        && t.runner_state.download is None && cmds.len() == 1 && (
                    cmds[0] matches Command::InstallDownloaded { prefix: p } && p@ == prefix),
                    DownloadUpdate::Finished(Err(e)) => t.runner_state.status == RunnerStatus::Failed(e)
                        && t.runner_state.download is None && cmds.len() == 0,
                },
            },
        },
    }
}

impl AppState {
    /// Whether every message the application relies on while it runs has a
    /// text.
    pub open spec fn wf(&self) -> bool {
        forall|i: int| 0 <= i < app_keys().len() ==> self.i18n.has_text(#[trigger] app_keys()[i])
    }

    /// The application at start: the welcome screen, empty settings, an
    /// idle runner and no editor, with translations `i18n`. Fails with the
    /// error of the first message the application needs that has no text.
    pub fn new(i18n: I18n) -> (r: Result<AppState, TranslationError>)
        ensures
            r is Ok <==> crate::pages::first_missing(i18n, app_keys()) is None,
            r matches Ok(a) ==> a.wf() && a.screen == Screen::Welcome && a.config.game_path@.len() == 0
                && a.runner_state.status is Idle && fresh_runner(a.runner_state, false)
                && a.config_editor_state is None && a.i18n == i18n && a.label_back@ == i18n.text("Back"@)
                && a.label_exit@ == i18n.text("Exit"@),
            r matches Err(e) ==> crate::pages::first_missing(i18n, app_keys()) matches Some(k) && e.message()
                == crate::pages::lookup_failure(i18n, k),
    {
        let keys: [&str; 3] = ["Back", "Exit", "Picker-SelectGameDir"];
        assert(crate::pages::key_texts(keys@) =~= app_keys());
        match crate::pages::lookup_all(&i18n, &keys) {
            Ok(_) => {},
            Err(e) => {
                return Err(e);
            },
        }
        proof {
            assert forall|i: int| 0 <= i < app_keys().len() implies i18n.has_text(#[trigger] app_keys()[i]) by {
                lemma_all_have_text(i18n, app_keys(), i);
            }
        }
        let label_back = i18n.t("Back");
        let label_exit = i18n.t("Exit");
        Ok(
            AppState {
                screen: Screen::Welcome,
                config: AppConfig { game_path: String::new() },
                i18n,
                label_back,
                label_exit,
                runner_state: RunnerState { status: RunnerStatus::Idle, installed: false, download: None },
                config_editor_state: None,
            },
        )
    }

    /// The text of message `key`.
    pub fn t(&self, key: &str) -> (s: String)
        requires
            self.i18n.has_text(key@),
        ensures
            s@ == self.i18n.text(key@),
    {
        self.i18n.t(key)
    }

    /// The label of the "back" buttons.
    pub fn label_back(&self) -> (s: &str)
        ensures
            s@ == self.label_back@,
    {
        self.label_back.as_str()
    }

    /// The label of the "exit" buttons.
    pub fn label_exit(&self) -> (s: &str)
        ensures
            s@ == self.label_exit@,
    {
        self.label_exit.as_str()
    }

    /// The window title: the screen's name, a dash, and the application's
    /// name. Fails with the error of the first of the two messages, the
    /// application's name and then the screen's, that has no text.
    pub fn title(&self) -> (r: Result<String, TranslationError>)
        ensures
            r is Ok <==> crate::pages::first_missing(self.i18n, title_keys(self.screen)) is None,
            r matches Ok(s) ==> s@ == self.i18n.text(screen_key(self.screen)) + " - "@ + self.i18n.text(
                "RSI-Launcher-Maintenance"@,
            ),
            r matches Err(e) ==> crate::pages::first_missing(self.i18n, title_keys(self.screen)) matches Some(k)
                && e.message() == crate::pages::lookup_failure(self.i18n, k),
    {
        let screen: &str = match self.screen {
            Screen::Welcome => "Welcome",
            Screen::Maintenance => "Maintenance",
            Screen::Runner => "Run-Launcher",
            Screen::ConfigEditor => "Config-Editor",
        };
        let keys: [&str; 2] = ["RSI-Launcher-Maintenance", screen];
        assert(crate::pages::key_texts(keys@) =~= title_keys(self.screen));
        let texts = match crate::pages::lookup_all(&self.i18n, &keys) {
            Ok(v) => v,
            Err(e) => {
                return Err(e);
            },
        };
        let head = concat(texts[1].as_str(), " - ");
        Ok(concat(head.as_str(), texts[0].as_str()))
    }

    /// The Wine prefix that the settings name, given `WINEPREFIX`.
    pub fn prefix(&self, wineprefix: &str) -> (p: String)
        ensures
            p@ == prefix_of(self.config.game_path@, wineprefix@),
    {
        prefix_path_from_config(self.config.game_path.as_str(), wineprefix)
    }

    /// Whether the step for `message` can be taken: removing an editor row
    /// needs the row to exist.
    pub open spec fn accepts(&self, message: Message) -> bool {
        message matches Message::ConfigEditor(config_editor::Message::RemoveEntry(i)) ==> (
        self.config_editor_state matches Some(ed) ==> i < ed.entries@.len())
    }

    /// Takes one step: applies `message` with `WINEPREFIX` at `wineprefix`
    /// (empty where unset) and returns the commands for the host, in the
    /// order to carry them out.
    pub fn update(&mut self, message: Message, wineprefix: &str) -> (cmds: Vec<Command>)
        requires
            old(self).wf(),
            old(self).accepts(message),
        ensures
            final(self).wf(),
            step(*old(self), message, wineprefix@, *final(self), cmds@),
    {
        let ghost m = message;
        let mut cmds: Vec<Command> = Vec::new();
        match message {
            Message::ConfigLoaded(config) => {
                self.config = config;
            },
            Message::GamePathResolved(game_path) => {
                if !game_path.as_str().is_empty() {
                    cmds.push(Command::PersistGamePath { game_path: game_path.clone() });
                    self.config.game_path = game_path;
                }
                let prefix = self.prefix(wineprefix);
                self.runner_state = RunnerState::new(RunnerStatus::FetchingVersion, false);
                cmds.push(Command::CheckLauncher { prefix });
                cmds.push(Command::FetchLatestVersion);
            },
            Message::VersionFetched(Ok(version)) => {
                let prefix = self.prefix(wineprefix);
                let save_path = installer_path(prefix.as_str(), version.as_str());
                let url = installer_url(version.as_str());
                let mut dl = DownloadWidget::new().url(url).save_to(save_path);
                let job = dl.start();
                self.runner_state.download = Some(dl);
                self.runner_state.status = RunnerStatus::Downloading { progress: Progress { done: 0, total: 1 } };
                match job {
                    Some(j) => cmds.push(Command::StartDownload(j)),
                    None => {},
                }
            },
            Message::VersionFetched(Err(err)) => {
                self.runner_state.status = RunnerStatus::Failed(concat("Version fetch failed: ", err.as_str()));
            },
            Message::RunnerFinished(result) => {
                self.runner_state = match result {
                    Ok(()) => RunnerState::new(RunnerStatus::Complete, true),
                    Err(err) => RunnerState::new(RunnerStatus::Failed(err), false),
                };
            },
            Message::LauncherChecked(installed) => {
                self.runner_state.installed = installed;
            },
            Message::EditorConfigLoaded(config) => {
                self.config_editor_state = Some(config_editor::State::new(config));
            },
            Message::Welcome(w) => {
                cmds = self.on_welcome(w, wineprefix);
            },
            Message::Maintenance(mm) => {
                cmds = self.on_maintenance(mm);
            },
            Message::ConfigEditor(em) => {
                cmds = self.on_editor(em);
            },
            Message::Runner(rm) => {
                cmds = self.on_runner(rm, wineprefix);
            },
        }
        proof {
            assert(step(*old(self), m, wineprefix@, *self, cmds@));
        }
        cmds
    }

    fn on_welcome(&mut self, message: welcome::Message, wineprefix: &str) -> (cmds: Vec<Command>)
        requires
            old(self).wf(),
        ensures
            final(self).wf(),
            step(*old(self), Message::Welcome(message), wineprefix@, *final(self), cmds@),
    {
        let mut cmds: Vec<Command> = Vec::new();
        match message {
            welcome::Message::Maintenance => {
                self.screen = Screen::Maintenance;
            },
            welcome::Message::InstallLauncher => {
                if self.config.game_path.as_str().is_empty() {
                    proof {
                        assert(self.i18n.has_text(app_keys()[2]));
                    }
                    let title = self.t("Picker-SelectGameDir");
                    self.screen = Screen::Runner;
                    cmds.push(Command::PickGamePath { title });
                } else {
                    let prefix = self.prefix(wineprefix);
                    self.screen = Screen::Runner;
                    self.runner_state = RunnerState::new(RunnerStatus::FetchingVersion, false);
                    cmds.push(Command::CheckLauncher { prefix });
                    cmds.push(Command::FetchLatestVersion);
                }
            },
            welcome::Message::RunLauncher => {
                let prefix = self.prefix(wineprefix);
                self.screen = Screen::Runner;
                self.runner_state = RunnerState::new(RunnerStatus::Launching, false);
                cmds.push(Command::CheckLauncher { prefix: prefix.clone() });
                cmds.push(Command::RunInstalledLauncher { prefix });
            },
            welcome::Message::Exit => {
                cmds.push(Command::CloseWindow);
            },
            welcome::Message::OpenWiki => {
                cmds.push(Command::Open { target: owned(WIKI_URL) });
            },
        }
        cmds
    }

    fn on_maintenance(&mut self, message: maintenance::Message) -> (cmds: Vec<Command>)
        requires
            old(self).wf(),
        ensures
            final(self).wf(),
            forall|wp: Seq<char>| #[trigger] step(*old(self), Message::Maintenance(message), wp, *final(self), cmds@),
    {
        let mut cmds: Vec<Command> = Vec::new();
        match message {
            maintenance::Message::Exit => {
                cmds.push(Command::CloseWindow);
            },
            maintenance::Message::Back => {
                self.screen = Screen::Welcome;
            },
            maintenance::Message::Winecfg => {
                cmds.push(Command::SpawnTool { tool: owned("winecfg") });
            },
            maintenance::Message::Control => {
                cmds.push(Command::SpawnTool { tool: owned("control") });
            },
            maintenance::Message::Regedit => {
                cmds.push(Command::SpawnTool { tool: owned("regedit") });
            },
            maintenance::Message::OpenCfg => {
                self.config_editor_state = None;
                self.screen = Screen::ConfigEditor;
                cmds.push(Command::LoadEditorConfig);
            },
            maintenance::Message::OpenGameDir => {
                cmds.push(Command::Open { target: self.config.game_path.clone() });
            },
        }
        cmds
    }

    fn on_editor(&mut self, message: config_editor::Message) -> (cmds: Vec<Command>)
        requires
            old(self).wf(),
            old(self).accepts(Message::ConfigEditor(message)),
        ensures
            final(self).wf(),
            forall|wp: Seq<char>| #[trigger] step(*old(self), Message::ConfigEditor(message), wp, *final(self), cmds@),
    {
        let mut cmds: Vec<Command> = Vec::new();
        match message {
            config_editor::Message::Back => {
                self.config_editor_state = None;
                self.screen = Screen::Maintenance;
            },
            config_editor::Message::AddEntry => {
                let mut st = None;
                std::mem::swap(&mut st, &mut self.config_editor_state);
                if let Some(mut state) = st {
                    state.add_entry();
                    cmds.push(Command::SaveConfig(state.save()));
                    self.config_editor_state = Some(state);
                }
            },
            config_editor::Message::RemoveEntry(index) => {
                let mut st = None;
                std::mem::swap(&mut st, &mut self.config_editor_state);
                if let Some(mut state) = st {
                    state.remove_entry(index);
                    cmds.push(Command::SaveConfig(state.save()));
                    self.config_editor_state = Some(state);
                }
            },
            config_editor::Message::EditKey(index, key) => {
                let mut st = None;
                std::mem::swap(&mut st, &mut self.config_editor_state);
                if let Some(mut state) = st {
                    state.edit_key(index, key);
                    cmds.push(Command::SaveConfig(state.save()));
                    self.config_editor_state = Some(state);
                }
            },
            config_editor::Message::EditValue(index, value) => {
                let mut st = None;
                std::mem::swap(&mut st, &mut self.config_editor_state);
                if let Some(mut state) = st {
                    state.edit_value(index, value);
                    cmds.push(Command::SaveConfig(state.save()));
                    self.config_editor_state = Some(state);
                }
            },
        }
        cmds
    }

    fn on_runner(&mut self, message: runner::Message, wineprefix: &str) -> (cmds: Vec<Command>)
        requires
            old(self).wf(),
        ensures
            final(self).wf(),
            step(*old(self), Message::Runner(message), wineprefix@, *final(self), cmds@),
    {
        let mut cmds: Vec<Command> = Vec::new();
        match message {
            runner::Message::InstallLauncher => {
                if self.config.game_path.as_str().is_empty() {
                    proof {
                        assert(self.i18n.has_text(app_keys()[2]));
                    }
                    let title = self.t("Picker-SelectGameDir");
                    cmds.push(Command::PickGamePath { title });
                } else {
                    self.runner_state = RunnerState::new(RunnerStatus::FetchingVersion, false);
                    cmds.push(Command::FetchLatestVersion);
                }
            },
            runner::Message::RunLauncher => {
                self.runner_state = RunnerState::new(RunnerStatus::Launching, self.runner_state.installed);
                let prefix = self.prefix(wineprefix);
                cmds.push(Command::RunInstalledLauncher { prefix });
            },
            runner::Message::Cancel | runner::Message::Done => {
                self.screen = Screen::Welcome;
                self.runner_state = RunnerState { status: RunnerStatus::Idle, installed: false, download: None };
            },
            runner::Message::Progress(_) | runner::Message::Error(_) => {},
            runner::Message::DownloadUpdate(update) => {
                let mut current = None;
                std::mem::swap(&mut current, &mut self.runner_state.download);
                match current {
                    None => {},
                    Some(mut dl) => {
                        match update {
                            DownloadUpdate::Progress(p) => {
                                dl.update(DownloadUpdate::Progress(p));
                                self.runner_state.download = Some(dl);
                                self.runner_state.status = RunnerStatus::Downloading { progress: p };
                            },
                            DownloadUpdate::Finished(Ok(())) => {
                                dl.update(DownloadUpdate::Finished(Ok(())));
                                self.runner_state.status = RunnerStatus::Installing;
                                let prefix = self.prefix(wineprefix);
                                cmds.push(Command::InstallDownloaded { prefix });
                            },
                            DownloadUpdate::Finished(Err(err)) => {
                                self.runner_state.status = RunnerStatus::Failed(err);
                            },
                        }
                    },
                }
            },
        }
        cmds
    }
}

/// The messages that the window title is made of: the application's name,
/// then the screen's.
pub open spec fn title_keys(screen: Screen) -> Seq<Seq<char>> {
    seq!["RSI-Launcher-Maintenance"@, screen_key(screen)]
}

/// The message key of a screen's name.
pub open spec fn screen_key(screen: Screen) -> Seq<char> {
    match screen {
        Screen::Welcome => "Welcome"@,
        Screen::Maintenance => "Maintenance"@,
        Screen::Runner => "Run-Launcher"@,
        Screen::ConfigEditor => "Config-Editor"@,
    }
}

proof fn lemma_all_have_text(i18n: I18n, keys: Seq<Seq<char>>, i: int)
    requires
        crate::pages::first_missing(i18n, keys) is None,
        0 <= i < keys.len(),
    ensures
        i18n.has_text(keys[i]),
    decreases i,
{
    if i > 0 {
        lemma_all_have_text(i18n, keys.drop_first(), i - 1);
    }
}

} // verus!
