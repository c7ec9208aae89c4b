use rsi_maintenance::download::{
    Error, DownloadState, DownloadUpdate, DownloadWidget, Progress, Transfer,
};
use rsi_maintenance::progress::ProgressMode;
use rsi_maintenance::runner::{RunnerState, RunnerStatus};

fn frac(p: Progress) -> (u64, u64) {
    (p.done, p.total)
}

#[test]
fn new_widget_is_idle() {
    let w = DownloadWidget::new();
    assert!(matches!(w.state(), DownloadState::Idle));
    assert!(!w.is_downloading());
    assert!(!w.is_done());
    assert_eq!(frac(w.progress()), (0, 1));
    assert!(matches!(DownloadWidget::default().state(), DownloadState::Idle));
}

#[test]
fn start_without_url_fails() {
    let mut w = DownloadWidget::new();
    assert!(w.start().is_none());
    assert!(matches!(w.state(), DownloadState::Errored(e) if e == "No URL configured"));
    assert!(w.is_done());
}

#[test]
fn start_returns_job_and_runs() {
    let mut w = DownloadWidget::new().url("https://x/f".to_string()).save_to("/tmp/f".to_string());
    let job = w.start().expect("a job");
    assert_eq!(job.url, "https://x/f");
    assert_eq!(job.save_path, Some("/tmp/f".to_string()));
    assert!(w.is_downloading());
    assert_eq!(frac(w.progress()), (0, 1));
    assert!(w.start().is_none());
    assert!(w.is_downloading());
}

#[test]
fn updates_advance_running_download() {
    let mut w = DownloadWidget::new().url("u".to_string());
    assert!(w.start().is_some());
    assert!(w.start().is_none());
    w.update(DownloadUpdate::Progress(Progress { done: 5, total: 10 }));
    assert_eq!(frac(w.progress()), (5, 10));
    w.update(DownloadUpdate::Finished(Ok(())));
    assert!(matches!(w.state(), DownloadState::Finished));
    assert!(w.is_done());
    assert_eq!(frac(w.progress()), (1, 1));
    w.update(DownloadUpdate::Progress(Progress { done: 1, total: 10 }));
    assert!(matches!(w.state(), DownloadState::Finished));
    let job = w.start().expect("restart after finishing");
    assert_eq!(job.url, "u");
    assert_eq!(job.save_path, None);
}

#[test]
fn failed_download_reports_error() {
    let mut w = DownloadWidget::new().url("u".to_string());
    w.start();
    w.update(DownloadUpdate::Finished(Err("I/O error: disk full".to_string())));
    assert!(matches!(w.state(), DownloadState::Errored(e) if e == "I/O error: disk full"));
    assert_eq!(frac(w.progress()), (0, 1));
}

#[test]
fn idle_widget_ignores_updates() {
    let mut w = DownloadWidget::new();
    w.update(DownloadUpdate::Finished(Ok(())));
    assert!(matches!(w.state(), DownloadState::Idle));
}

#[test]
fn download_error_messages() {
    assert_eq!(Error::RequestFailed("timeout".into()).describe(), "Request failed: timeout");
    assert_eq!(Error::IoError("denied".into()).describe(), "I/O error: denied");
    assert_eq!(
        Error::NoContentLength.describe(),
        "Server did not report content length"
    );
}

#[test]
fn transfer_counts_chunks() {
    assert!(matches!(Transfer::begin(None), Err(Error::NoContentLength)));
    let mut t = match Transfer::begin(Some(100)) {
        Ok(t) => t,
        Err(_) => panic!("a transfer"),
    };
    assert_eq!(frac(t.start_progress()), (0, 100));
    assert_eq!(frac(t.record_chunk(30)), (30, 100));
    assert_eq!(frac(t.record_chunk(70)), (100, 100));
    assert_eq!(t.downloaded, 100);
    assert_eq!(frac(t.record_chunk(25)), (100, 100));
    assert_eq!(t.downloaded, 125);
}

#[test]
fn progress_mode_values() {
    assert!(ProgressMode::Hidden.value().is_none());
    assert_eq!(frac(ProgressMode::Pulse.value().unwrap()), (1, 2));
    assert_eq!(frac(ProgressMode::Determinate(Progress { done: 3, total: 4 }).value().unwrap()), (3, 4));
}

#[test]
fn status_labels() {
    let label = |st: RunnerStatus| RunnerState::new(st, false).status_label();
    assert_eq!(label(RunnerStatus::Idle), "");
    assert_eq!(label(RunnerStatus::FetchingVersion), "Fetching launcher version...");
    assert_eq!(
        label(RunnerStatus::Downloading { progress: Progress { done: 1, total: 2 } }),
        "Downloading launcher installer..."
    );
    assert_eq!(label(RunnerStatus::Installing), "Installing launcher...");
    assert_eq!(label(RunnerStatus::Launching), "Launching the RSI Launcher...");
    assert_eq!(label(RunnerStatus::Complete), "Launcher is ready.");
    assert_eq!(label(RunnerStatus::Failed("no disk".into())), "Failed: no disk");
}

#[test]
fn progress_modes_of_statuses() {
    let mode = |st: RunnerStatus| RunnerState::new(st, true).progress_mode();
    assert!(matches!(mode(RunnerStatus::FetchingVersion), ProgressMode::Pulse));
    assert!(matches!(
        mode(RunnerStatus::Downloading { progress: Progress { done: 0, total: 1 } }),
        ProgressMode::Pulse
    ));
    assert!(matches!(mode(RunnerStatus::Installing), ProgressMode::Pulse));
    assert!(matches!(mode(RunnerStatus::Launching), ProgressMode::Pulse));
    assert!(matches!(mode(RunnerStatus::Idle), ProgressMode::Hidden));
    assert!(matches!(mode(RunnerStatus::Complete), ProgressMode::Hidden));
    assert!(matches!(mode(RunnerStatus::Failed(String::new())), ProgressMode::Hidden));
}

#[test]
fn failure_message_and_finish() {
    let failed = RunnerState::new(RunnerStatus::Failed("x".into()), false);
    assert_eq!(failed.error_message(), Some("x".to_string()));
    assert!(failed.can_finish());
    let done = RunnerState::new(RunnerStatus::Complete, true);
    assert_eq!(done.error_message(), None);
    assert!(done.can_finish());
    let busy = RunnerState::new(RunnerStatus::Installing, false);
    assert!(!busy.can_finish());
    assert!(busy.download_progress().is_none());
    let idle = RunnerState::default();
    assert!(matches!(idle.status, RunnerStatus::Idle));
    assert!(!idle.installed);
    assert!(matches!(RunnerStatus::default(), RunnerStatus::Idle));
}
