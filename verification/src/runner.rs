//! Where the install-and-run flow of the launcher stands, and what the
//! runner screen shows of it.
use vstd::prelude::*;
use crate::download::{DownloadWidget, Progress};
use crate::progress::ProgressMode;
use crate::text::{concat, owned};

verus! {

/// The stage of the install-and-run flow.
pub enum RunnerStatus {
    Idle,
    FetchingVersion,
    Downloading { progress: Progress },
    Installing,
    Launching,
    Complete,
    Failed(String),
}

impl Default for RunnerStatus {
    fn default() -> (s: RunnerStatus)
        ensures
            s is Idle,
    {
        RunnerStatus::Idle
    }
}

/// The line of text that describes `status`.
pub open spec fn status_text(status: RunnerStatus) -> Seq<char> {
    match status {
        RunnerStatus::Idle => Seq::empty(),
        RunnerStatus::FetchingVersion => "Fetching launcher version..."@,
        RunnerStatus::Downloading { .. } => "Downloading launcher installer..."@,
        RunnerStatus::Installing => "Installing launcher..."@,
        RunnerStatus::Launching => "Launching the RSI Launcher..."@,
        RunnerStatus::Complete => "Launcher is ready."@,
        RunnerStatus::Failed(err) => "Failed: "@ + err@,
    }
}

/// The state of the runner screen.
pub struct RunnerState {
    pub status: RunnerStatus,
    pub installed: bool,
    /// The active download, if any.
    pub download: Option<DownloadWidget>,
}

impl Default for RunnerState {
    fn default() -> (s: RunnerState)
        ensures
            s.status is Idle,
            !s.installed,
            s.download is None,
    {
        RunnerState { status: RunnerStatus::Idle, installed: false, download: None }
    }
}

impl RunnerState {
    /// A state at `status` with no active download.
    pub fn new(status: RunnerStatus, installed: bool) -> (s: RunnerState)
        ensures
            s.status == status,
            s.installed == installed,
            s.download is None,
    {
        RunnerState { status, installed, download: None }
    }

    /// The line of text that describes the status.
    pub fn status_label(&self) -> (l: String)
        ensures
            l@ == status_text(self.status),
    {
        match &self.status {
            RunnerStatus::Idle => String::new(),
            RunnerStatus::FetchingVersion => owned("Fetching launcher version..."),
            RunnerStatus::Downloading { .. } => owned("Downloading launcher installer..."),
            RunnerStatus::Installing => owned("Installing launcher..."),
            RunnerStatus::Launching => owned("Launching the RSI Launcher..."),
            RunnerStatus::Complete => owned("Launcher is ready."),
            RunnerStatus::Failed(err) => concat("Failed: ", err.as_str()),
        }
    }

    /// How the progress bar shows the status: pulsing while work is under
    /// way, absent when idle or finished.
    pub fn progress_mode(&self) -> (m: ProgressMode)
        ensures
            m == (match self.status {
                RunnerStatus::Downloading { .. } | RunnerStatus::FetchingVersion
                | RunnerStatus::Installing | RunnerStatus::Launching => ProgressMode::Pulse,
                RunnerStatus::Idle | RunnerStatus::Complete | RunnerStatus::Failed(_) => ProgressMode::Hidden,
            }),
    {
        match &self.status {
            RunnerStatus::Downloading { .. } => ProgressMode::Pulse,
            RunnerStatus::FetchingVersion | RunnerStatus::Installing | RunnerStatus::Launching => ProgressMode::Pulse,
            RunnerStatus::Idle | RunnerStatus::Complete | RunnerStatus::Failed(_) => ProgressMode::Hidden,
        }
    }

    /// The active download, if any.
    pub fn download_progress(&self) -> (d: Option<&DownloadWidget>)
        ensures
            d == (match self.download {
                Some(w) => Some(&w),
                None => None,
            }),
    {
        self.download.as_ref()
    }

    /// The failure message, where the flow failed.
    pub fn error_message(&self) -> (e: Option<String>)
        ensures
            self.status matches RunnerStatus::Failed(err) ==> e == Some(err),
            !(self.status is Failed) ==> e is None,
    {
        match &self.status {
            RunnerStatus::Failed(err) => Some(err.clone()),
            _ => None,
        }
    }

    /// Whether the flow has ended, so that the screen offers to finish.
    pub fn can_finish(&self) -> (b: bool)
        ensures
            b == (self.status is Complete || self.status is Failed),
    {
        match &self.status {
            RunnerStatus::Complete | RunnerStatus::Failed(_) => true,
            _ => false,
        }
    }
}

} // verus!
