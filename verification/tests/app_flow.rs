use rsi_maintenance::app_state::{AppState, Command, Message, Screen};
use rsi_maintenance::config::{AppConfig, ConfigFile, EnvMap};
use rsi_maintenance::config_editor::Message as EditorMessage;
use rsi_maintenance::download::{DownloadState, DownloadUpdate, Progress};
use rsi_maintenance::i18n::{parse_lang, I18n};
use rsi_maintenance::pages::maintenance::Message as MaintenanceMessage;
use rsi_maintenance::pages::runner::Message as RunnerMessage;
use rsi_maintenance::pages::welcome::{buttons, Message as WelcomeMessage};
use rsi_maintenance::runner::RunnerStatus;

const FTL: &str = "\
Back = Back
Exit = Exit
Picker-SelectGameDir = Select the game directory
RSI-Launcher-Maintenance = RSI Launcher Maintenance
Welcome = Welcome
Maintenance = Maintenance
Run-Launcher = Run Launcher
Config-Editor = Config Editor
";

fn i18n(ftl: &str) -> I18n {
    let lang = parse_lang("en_US").expect("en-US");
    match I18n::new(lang, ftl.to_string()) {
        Ok(i) => i,
        Err(_) => panic!("bundle"),
    }
}

fn app() -> AppState {
    match AppState::new(i18n(FTL)) {
        Ok(a) => a,
        Err(_) => panic!("app"),
    }
}

fn with_game(path: &str) -> AppState {
    let mut a = app();
    let cmds = a.update(Message::ConfigLoaded(AppConfig { game_path: path.to_string() }), "");
    assert!(cmds.is_empty());
    a
}

#[test]
fn starts_on_welcome_with_labels() {
    let a = app();
    assert!(a.screen == Screen::Welcome);
    assert_eq!(a.label_back(), "Back");
    assert_eq!(a.label_exit(), "Exit");
    assert!(matches!(a.title(), Ok(t) if t == "Welcome - RSI Launcher Maintenance"));
    assert_eq!(a.t("Picker-SelectGameDir"), "Select the game directory");
    assert!(matches!(a.runner_state.status, RunnerStatus::Idle));
}

#[test]
fn missing_translation_refuses_start() {
    match AppState::new(i18n("Back = Back\n")) {
        Err(e) => assert_eq!(e.describe(), "Missing key: Exit"),
        Ok(_) => panic!("should fail"),
    }
}

#[test]
fn starts_without_title_messages() {
    let a = match AppState::new(i18n("Back = Back\nExit = Exit\nPicker-SelectGameDir = Pick\n")) {
        Ok(a) => a,
        Err(_) => panic!("the start needs only three messages"),
    };
    match a.title() {
        Err(e) => assert_eq!(e.describe(), "Missing key: RSI-Launcher-Maintenance"),
        Ok(_) => panic!("no title"),
    }
    let b = match AppState::new(i18n("Back = Back\nExit = Exit\nPicker-SelectGameDir = Pick\nRSI-Launcher-Maintenance = RLM\n")) {
        Ok(b) => b,
        Err(_) => panic!("app"),
    };
    match b.title() {
        Err(e) => assert_eq!(e.describe(), "Missing key: Welcome"),
        Ok(_) => panic!("no screen name"),
    }
}

#[test]
fn navigation_between_screens() {
    let mut a = app();
    assert!(a.update(Message::Welcome(WelcomeMessage::Maintenance), "").is_empty());
    assert!(a.screen == Screen::Maintenance);
    assert!(matches!(a.title(), Ok(t) if t == "Maintenance - RSI Launcher Maintenance"));
    assert!(a.update(Message::Maintenance(MaintenanceMessage::Back), "").is_empty());
    assert!(a.screen == Screen::Welcome);
}

#[test]
fn exit_closes_window() {
    let mut a = app();
    let c = a.update(Message::Welcome(WelcomeMessage::Exit), "");
    assert!(matches!(c.as_slice(), [Command::CloseWindow]));
    let c = a.update(Message::Maintenance(MaintenanceMessage::Exit), "");
    assert!(matches!(c.as_slice(), [Command::CloseWindow]));
}

#[test]
fn maintenance_tools_and_links() {
    let mut a = with_game("/games/sc");
    let c = a.update(Message::Maintenance(MaintenanceMessage::Winecfg), "");
    assert!(matches!(c.as_slice(), [Command::SpawnTool { tool }] if tool == "winecfg"));
    let c = a.update(Message::Maintenance(MaintenanceMessage::Control), "");
    assert!(matches!(c.as_slice(), [Command::SpawnTool { tool }] if tool == "control"));
    let c = a.update(Message::Maintenance(MaintenanceMessage::Regedit), "");
    assert!(matches!(c.as_slice(), [Command::SpawnTool { tool }] if tool == "regedit"));
    let c = a.update(Message::Maintenance(MaintenanceMessage::OpenGameDir), "");
    assert!(matches!(c.as_slice(), [Command::Open { target }] if target == "/games/sc"));
    let c = a.update(Message::Welcome(WelcomeMessage::OpenWiki), "");
    assert!(matches!(c.as_slice(), [Command::Open { target }] if target == "https://starcitizen-lug.github.io"));
}

#[test]
fn install_without_game_path_asks_for_it() {
    let mut a = app();
    let c = a.update(Message::Welcome(WelcomeMessage::InstallLauncher), "");
    assert!(a.screen == Screen::Runner);
    assert!(matches!(c.as_slice(), [Command::PickGamePath { title }] if title == "Select the game directory"));
    let c = a.update(Message::GamePathResolved("/picked".to_string()), "/env");
    assert_eq!(a.config.game_path, "/picked");
    assert!(matches!(a.runner_state.status, RunnerStatus::FetchingVersion));
    assert!(matches!(c.as_slice(), [
        Command::PersistGamePath { game_path },
        Command::CheckLauncher { prefix },
        Command::FetchLatestVersion,
    ] if game_path == "/picked" && prefix == "/picked"));
}

#[test]
fn dismissed_picker_falls_back_to_wineprefix() {
    let mut a = app();
    let c = a.update(Message::GamePathResolved(String::new()), "/env");
    assert_eq!(a.config.game_path, "");
    assert!(matches!(c.as_slice(), [Command::CheckLauncher { prefix }, Command::FetchLatestVersion] if prefix == "/env"));
}

#[test]
fn install_flow_through_download() {
    let mut a = with_game("/p");
    let c = a.update(Message::Welcome(WelcomeMessage::InstallLauncher), "");
    assert!(matches!(c.as_slice(), [Command::CheckLauncher { prefix }, Command::FetchLatestVersion] if prefix == "/p"));
    assert!(a.update(Message::LauncherChecked(false), "").is_empty());
    assert!(!a.runner_state.installed);
    let c = a.update(Message::VersionFetched(Ok("2.3.1".to_string())), "");
    match c.as_slice() {
        [Command::StartDownload(job)] => {
            assert_eq!(
                job.url,
                "https://install.robertsspaceindustries.com/rel/2/RSI%20Launcher-Setup-2.3.1.exe"
            );
            assert_eq!(job.save_path, Some("/p/RSI-Launcher-setup-2.3.1.exe".to_string()));
        }
        _ => panic!("expected a download"),
    }
    assert_eq!(a.runner_state.status_label(), "Downloading launcher installer...");
    let p = Progress { done: 50, total: 100 };
    assert!(a.update(Message::Runner(RunnerMessage::DownloadUpdate(DownloadUpdate::Progress(p))), "").is_empty());
    assert!(matches!(a.runner_state.status, RunnerStatus::Downloading { progress } if progress.done == 50));
    let dl = a.runner_state.download_progress().expect("download");
    assert!(matches!(dl.state(), DownloadState::Downloading { progress } if progress.done == 50));
    let c = a.update(Message::Runner(RunnerMessage::DownloadUpdate(DownloadUpdate::Finished(Ok(())))), "");
    assert!(matches!(c.as_slice(), [Command::InstallDownloaded { prefix }] if prefix == "/p"));
    assert!(matches!(a.runner_state.status, RunnerStatus::Installing));
    assert!(a.runner_state.download.is_none());
    assert!(a.update(Message::RunnerFinished(Ok(())), "").is_empty());
    assert!(matches!(a.runner_state.status, RunnerStatus::Complete));
    assert!(a.runner_state.installed);
    assert!(a.runner_state.can_finish());
    assert!(a.update(Message::Runner(RunnerMessage::Done), "").is_empty());
    assert!(a.screen == Screen::Welcome);
    assert!(matches!(a.runner_state.status, RunnerStatus::Idle));
    assert_eq!(a.label_back(), "Back");
    assert_eq!(a.label_exit(), "Exit");
}

#[test]
fn failed_download_and_fetch() {
    let mut a = with_game("/p");
    a.update(Message::VersionFetched(Ok("1".to_string())), "");
    let c = a.update(
        Message::Runner(RunnerMessage::DownloadUpdate(DownloadUpdate::Finished(Err("I/O error: x".into())))),
        "",
    );
    assert!(c.is_empty());
    assert_eq!(a.runner_state.error_message(), Some("I/O error: x".to_string()));
    a.update(Message::VersionFetched(Err("offline".to_string())), "");
    assert_eq!(a.runner_state.status_label(), "Failed: Version fetch failed: offline");
}

#[test]
fn download_updates_without_download_are_ignored() {
    let mut a = with_game("/p");
    let c = a.update(Message::Runner(RunnerMessage::DownloadUpdate(DownloadUpdate::Finished(Ok(())))), "");
    assert!(c.is_empty());
    assert!(matches!(a.runner_state.status, RunnerStatus::Idle));
    assert!(a.update(Message::Runner(RunnerMessage::Progress(Progress { done: 1, total: 2 })), "").is_empty());
    assert!(a.update(Message::Runner(RunnerMessage::Error("e".into())), "").is_empty());
}

#[test]
fn running_the_launcher() {
    let mut a = with_game("");
    let c = a.update(Message::Welcome(WelcomeMessage::RunLauncher), "/env");
    assert!(a.screen == Screen::Runner);
    assert!(matches!(a.runner_state.status, RunnerStatus::Launching));
    assert!(matches!(c.as_slice(), [Command::CheckLauncher { prefix }, Command::RunInstalledLauncher { prefix: p2 }] if prefix == "/env" && p2 == "/env"));
    a.update(Message::LauncherChecked(true), "/env");
    assert!(a.runner_state.installed);
    let c = a.update(Message::Runner(RunnerMessage::RunLauncher), "/env");
    assert!(a.runner_state.installed);
    assert!(matches!(c.as_slice(), [Command::RunInstalledLauncher { prefix }] if prefix == "/env"));
    a.update(Message::RunnerFinished(Err("exit 1".to_string())), "/env");
    assert_eq!(a.runner_state.error_message(), Some("exit 1".to_string()));
    assert!(!a.runner_state.installed);
    a.update(Message::Runner(RunnerMessage::Cancel), "/env");
    assert!(a.screen == Screen::Welcome);
}

#[test]
fn runner_install_button() {
    let mut a = app();
    let c = a.update(Message::Runner(RunnerMessage::InstallLauncher), "");
    assert!(matches!(c.as_slice(), [Command::PickGamePath { .. }]));
    let mut b = with_game("/g");
    let c = b.update(Message::Runner(RunnerMessage::InstallLauncher), "");
    assert!(matches!(c.as_slice(), [Command::FetchLatestVersion]));
    assert!(matches!(b.runner_state.status, RunnerStatus::FetchingVersion));
}

fn editor_config() -> ConfigFile {
    ConfigFile {
        settings: AppConfig { game_path: "/g".to_string() },
        environment: EnvMap::from_pairs(vec![("A".to_string(), "1".to_string())]),
    }
}

#[test]
fn editing_the_environment_saves_each_change() {
    let mut a = with_game("/g");
    let c = a.update(Message::Maintenance(MaintenanceMessage::OpenCfg), "");
    assert!(matches!(c.as_slice(), [Command::LoadEditorConfig]));
    assert!(a.screen == Screen::ConfigEditor);
    assert!(a.config_editor_state.is_none());
    assert!(a.update(Message::EditorConfigLoaded(editor_config()), "").is_empty());
    let c = a.update(Message::ConfigEditor(EditorMessage::AddEntry), "");
    assert!(matches!(c.as_slice(), [Command::SaveConfig(cfg)] if cfg.environment.len() == 1));
    let c = a.update(Message::ConfigEditor(EditorMessage::EditKey(1, " B ".to_string())), "");
    assert!(matches!(c.as_slice(), [Command::SaveConfig(cfg)] if cfg.environment.entries()[1].0 == "B"));
    let c = a.update(Message::ConfigEditor(EditorMessage::EditValue(1, "2".to_string())), "");
    match c.as_slice() {
        [Command::SaveConfig(cfg)] => {
            assert_eq!(cfg.settings.game_path, "/g");
            assert_eq!(
                cfg.environment.entries().clone(),
                vec![("A".to_string(), "1".to_string()), ("B".to_string(), "2".to_string())]
            );
        }
        _ => panic!("expected a save"),
    }
    let c = a.update(Message::ConfigEditor(EditorMessage::RemoveEntry(0)), "");
    assert!(matches!(c.as_slice(), [Command::SaveConfig(cfg)] if cfg.environment.len() == 1));
    assert!(a.update(Message::ConfigEditor(EditorMessage::Back), "").is_empty());
    assert!(a.screen == Screen::Maintenance);
    assert!(a.config_editor_state.is_none());
}

#[test]
fn editor_messages_without_editor_do_nothing() {
    let mut a = app();
    assert!(a.update(Message::ConfigEditor(EditorMessage::AddEntry), "").is_empty());
    assert!(a.update(Message::ConfigEditor(EditorMessage::RemoveEntry(3)), "").is_empty());
    assert!(a.config_editor_state.is_none());
}

#[test]
fn welcome_buttons_depend_on_the_launcher() {
    let installed = buttons(true);
    assert_eq!(installed.len(), 4);
    assert!(matches!(installed[0], WelcomeMessage::Maintenance));
    assert!(matches!(installed[1], WelcomeMessage::InstallLauncher));
    assert!(matches!(installed[2], WelcomeMessage::RunLauncher));
    assert!(matches!(installed[3], WelcomeMessage::Exit));
    let missing = buttons(false);
    assert_eq!(missing.len(), 3);
    assert!(matches!(missing[2], WelcomeMessage::Exit));
}
