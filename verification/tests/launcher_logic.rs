use rsi_maintenance::download::Progress;
use rsi_maintenance::launcher::{
    download_progress_reports, extract_version_from_latest_yml, install_result, install_step,
    installer_command, installer_download_status, is_installer_file_name, is_success_status,
    launch_result, launcher_command, live_marker_files, run_installed_launcher,
    should_run_headless, tool_command, version_from_metadata, FetchError, InstallAction,
    InstallEvent, InstallStage, ProcessOutcome,
};

fn version(raw: &str) -> Option<String> {
    extract_version_from_latest_yml(raw)
}

#[test]
fn version_from_plain_metadata() {
    let raw = "version: 2.3.1\nfiles:\n  - url: RSI Launcher-Setup-2.3.1.exe\n";
    assert_eq!(version(raw), Some("2.3.1".to_string()));
}

#[test]
fn version_quotes_and_white_space_removed() {
    assert_eq!(version("  version:   \"2.0.0\"  \r\n"), Some("2.0.0".to_string()));
    assert_eq!(version("version:\"\"1.0\"\""), Some("1.0".to_string()));
}

#[test]
fn version_found_on_later_line_and_first_wins() {
    let raw = "path: x\nsha512: abc\nversion: 1.9\nversion: 2.0\n";
    assert_eq!(version(raw), Some("1.9".to_string()));
}

#[test]
fn version_missing_or_misplaced() {
    assert_eq!(version(""), None);
    assert_eq!(version("path: x\n"), None);
    assert_eq!(version("the version: 1\n"), None);
    assert_eq!(version("Version: 1\n"), None);
}

#[test]
fn version_key_without_value_gives_empty_version() {
    assert_eq!(version("version:\n"), Some(String::new()));
}

#[test]
fn version_never_quoted_at_the_ends() {
    for raw in ["version: \"\"\"", "version: \"a\"b\"", "version:'x'"] {
        if let Some(v) = version(raw) {
            assert!(!v.starts_with('"') && !v.ends_with('"'));
        }
    }
}

#[test]
fn metadata_without_version_is_an_error_naming_it() {
    match version_from_metadata("nothing".to_string()) {
        Err(e) => assert_eq!(
            e.describe(),
            "Unable to parse launcher version from latest metadata: nothing"
        ),
        Ok(_) => panic!("expected an error"),
    }
    assert!(matches!(version_from_metadata("version: 3".to_string()), Ok(v) if v == "3"));
}

#[test]
fn fetch_error_messages() {
    assert_eq!(
        FetchError::Query("dns".into()).describe(),
        "Failed to query latest launcher version: dns"
    );
    assert_eq!(
        FetchError::Status("404 Not Found".into()).describe(),
        "Failed to fetch launcher version metadata: 404 Not Found"
    );
    assert_eq!(
        FetchError::Read("eof".into()).describe(),
        "Failed to read launcher version metadata: eof"
    );
}

#[test]
fn success_status_range() {
    assert!(is_success_status(200));
    assert!(is_success_status(299));
    assert!(!is_success_status(199));
    assert!(!is_success_status(300));
    assert!(!is_success_status(404));
}

#[test]
fn installer_is_run_silently_under_proton() {
    let c = installer_command("/p/setup.exe");
    assert_eq!(c.program, "umu-run");
    assert_eq!(c.args, vec!["/p/setup.exe".to_string(), "/S".to_string()]);
    assert_eq!(
        c.env,
        vec![
            ("PROTONPATH".to_string(), "GE-Proton".to_string()),
            ("WINE_NO_PRIV_ELEVATION".to_string(), "1".to_string()),
            (
                "WINEDLLOVERRIDES".to_string(),
                "dxwebsetup.exe,dotNetFx45_Full_setup.exe=d".to_string()
            ),
        ]
    );
}

#[test]
fn launcher_and_tools_run_through_umu() {
    let c = launcher_command("/p/RSI Launcher.exe");
    assert_eq!(c.program, "umu-run");
    assert_eq!(c.args, vec!["/p/RSI Launcher.exe".to_string()]);
    assert!(c.env.is_empty());
    let t = tool_command("regedit");
    assert_eq!(t.args, vec!["regedit".to_string()]);
}

#[test]
fn install_outcomes() {
    assert_eq!(
        install_result(ProcessOutcome::NotStarted("not found".into())),
        Err("Failed to launch installer: not found".to_string())
    );
    assert_eq!(
        install_result(ProcessOutcome::Exited { success: false, stderr: "boom".into() }),
        Err("Launcher installation failed: boom".to_string())
    );
    assert_eq!(
        install_result(ProcessOutcome::Exited { success: true, stderr: "noise".into() }),
        Ok(())
    );
}

#[test]
fn launch_outcomes() {
    assert_eq!(
        launch_result(ProcessOutcome::NotStarted("denied".into())),
        Err("Failed to start RSI Launcher: denied".to_string())
    );
    assert_eq!(
        launch_result(ProcessOutcome::Exited { success: false, stderr: String::new() }),
        Err("RSI Launcher exited with an error status.".to_string())
    );
    assert_eq!(
        launch_result(ProcessOutcome::Exited { success: true, stderr: String::new() }),
        Ok(())
    );
}

#[test]
fn running_needs_an_installed_launcher() {
    assert_eq!(
        run_installed_launcher("/p", false),
        Err("Launcher is not installed yet. Install it first.".to_string())
    );
    assert_eq!(
        run_installed_launcher("/p", true),
        Ok("/p/drive_c/Program Files/Roberts Space Industries/RSI Launcher/RSI Launcher.exe"
            .to_string())
    );
}

#[test]
fn live_marker_files_only_without_archive() {
    assert!(live_marker_files("/g/LIVE", true).is_empty());
    assert_eq!(
        live_marker_files("/g/LIVE", false),
        vec!["/g/LIVE/Data.p4k.part".to_string(), "/g/LIVE/Data.p4k".to_string()]
    );
}

fn pairs(v: Vec<Progress>) -> Vec<(u64, u64)> {
    v.iter().map(|p| (p.done, p.total)).collect()
}

#[test]
fn progress_reported_per_chunk() {
    assert_eq!(
        pairs(download_progress_reports(20000, 20000)),
        vec![(8192, 20000), (16384, 20000), (20000, 20000)]
    );
    assert_eq!(pairs(download_progress_reports(8192, 8192)), vec![(8192, 8192)]);
    assert_eq!(pairs(download_progress_reports(0, 10)), vec![]);
}

#[test]
fn progress_not_reported_without_total_and_capped_at_total() {
    assert!(download_progress_reports(9000, 0).is_empty());
    assert_eq!(
        pairs(download_progress_reports(9000, 100)),
        vec![(100, 100), (100, 100)]
    );
}

#[test]
fn installer_download_status_names_url() {
    assert_eq!(installer_download_status(200, "u"), Ok(()));
    assert_eq!(
        installer_download_status(500, "https://x/y.exe"),
        Err("Failed to download launcher installer from https://x/y.exe".to_string())
    );
}

#[test]
fn headless_needs_flag_and_launcher() {
    let args = vec!["rsi".to_string(), "--run".to_string()];
    assert!(should_run_headless(&args, true));
    assert!(!should_run_headless(&args, false));
    let plain = vec!["rsi".to_string(), "--running".to_string()];
    assert!(!should_run_headless(&plain, true));
    assert!(!should_run_headless(&[], true));
}

#[test]
fn install_flow_skips_when_installed() {
    let (stage, action) =
        install_step(InstallStage::Checking, InstallEvent::Checked { launcher_exists: true });
    assert!(stage == InstallStage::Done);
    assert!(matches!(action, InstallAction::Finish(Ok(()))));
}

#[test]
fn install_flow_runs_all_steps() {
    let (s, a) = install_step(InstallStage::Checking, InstallEvent::Checked { launcher_exists: false });
    assert!(s == InstallStage::Fetching && matches!(a, InstallAction::FetchVersion));
    let (s, a) = install_step(s, InstallEvent::VersionFetched(Ok("2.1".into())));
    assert!(s == InstallStage::Downloading && matches!(a, InstallAction::Download { ref version } if version == "2.1"));
    let (s, a) = install_step(s, InstallEvent::Downloaded(Ok("/p/i.exe".into())));
    assert!(s == InstallStage::Installing && matches!(a, InstallAction::RunInstaller { ref installer_path } if installer_path == "/p/i.exe"));
    let (s, a) = install_step(s, InstallEvent::Installed(Ok(())));
    assert!(s == InstallStage::Marking && matches!(a, InstallAction::MarkLive));
    let (s, a) = install_step(s, InstallEvent::Marked(Ok(())));
    assert!(s == InstallStage::Done && matches!(a, InstallAction::Finish(Ok(()))));
}

#[test]
fn install_flow_stops_at_first_failure() {
    let (s, a) = install_step(InstallStage::Downloading, InstallEvent::Downloaded(Err("net".into())));
    assert!(s == InstallStage::Done);
    assert!(matches!(a, InstallAction::Finish(Err(ref e)) if e == "net"));
}

#[test]
fn installer_file_names() {
    assert!(is_installer_file_name("RSI-Launcher-setup-2.3.1.exe"));
    assert!(!is_installer_file_name("RSI-Launcher-setup-2.3.1.zip"));
    assert!(!is_installer_file_name("setup.exe"));
    assert!(!is_installer_file_name("RSI-Launcher-setup-"));
}
