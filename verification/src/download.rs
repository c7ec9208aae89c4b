//! A download with its own state machine: it is configured with an address
//! and an optional file, started, fed progress and completion updates, and
//! reports where it stands.
use vstd::prelude::*;
use crate::text::{concat, owned};

verus! {

/// How far a transfer has come: `done` of `total` bytes. The fraction
/// `done / total` is what a progress bar shows; the reports of a transfer
/// keep `done` at most `total`, so the fraction stays between 0 and 1.
#[derive(Clone, Copy)]
pub struct Progress {
    pub done: u64,
    pub total: u64,
}

impl Progress {
    /// No progress yet.
    pub open spec fn nothing() -> Progress {
        Progress { done: 0, total: 1 }
    }

    /// All of it.
    pub open spec fn complete() -> Progress {
        Progress { done: 1, total: 1 }
    }
}

/// Why a download failed, with the outside error's own description.
pub enum Error {
    RequestFailed(String),
    IoError(String),
    NoContentLength,
}

impl Error {
    /// The message shown for this error.
    pub open spec fn message(self) -> Seq<char> {
        match self {
            Error::RequestFailed(e) => "Request failed: "@ + e@,
            Error::IoError(e) => "I/O error: "@ + e@,
            Error::NoContentLength => "Server did not report content length"@,
        }
    }

    /// The message shown for this error.
    pub fn describe(&self) -> (m: String)
        ensures
            m@ == self.message(),
    {
        match self {
            Error::RequestFailed(e) => concat("Request failed: ", e.as_str()),
            Error::IoError(e) => concat("I/O error: ", e.as_str()),
            Error::NoContentLength => owned("Server did not report content length"),
        }
    }
}

/// The byte count of a running transfer.
pub struct Transfer {
    pub total: u64,
    pub downloaded: u64,
}

impl Transfer {
    /// A transfer of a response with the given content length; without one
    /// the download fails with `NoContentLength`.
    pub fn begin(content_length: Option<u64>) -> (r: Result<Transfer, Error>)
        ensures
            content_length is None ==> r matches Err(Error::NoContentLength),
            content_length matches Some(t) ==> r matches Ok(x) && x.total == t && x.downloaded == 0,
    {
        match content_length {
            Some(total) => Ok(Transfer { total, downloaded: 0 }),
            None => Err(Error::NoContentLength),
        }
    }

    /// The progress reported before any byte arrives.
    pub fn start_progress(&self) -> (p: Progress)
        ensures
            p.done == 0,
            p.total == self.total,
    {
        Progress { done: 0, total: self.total }
    }

    /// Counts a chunk of `len` bytes and returns the progress to report:
    /// the bytes counted so far, capped at the announced total where the
    /// server sends more than it announced.
    pub fn record_chunk(&mut self, len: u64) -> (p: Progress)
        requires
            old(self).downloaded + len <= u64::MAX,
        ensures
            final(self).downloaded == old(self).downloaded + len,
            final(self).total == old(self).total,
            p.done == if final(self).downloaded <= final(self).total {
                final(self).downloaded
            } else {
                final(self).total
            },
            p.total == final(self).total,
            p.done <= p.total,
    {
        self.downloaded = self.downloaded + len;
        let done = if self.downloaded <= self.total {
            self.downloaded
        } else {
            self.total
        };
        Progress { done, total: self.total }
    }
}

/// Where a download stands.
pub enum DownloadState {
    /// No download has been started yet.
    Idle,
    /// The download is running and has come this far.
    Downloading { progress: Progress },
    /// The download completed.
    Finished,
    /// The download failed with this message.
    Errored(String),
}

/// The state after `update` arrives in `state`: a running download takes
/// the reported progress, or ends finished or with the error; in any other
/// state the update changes nothing.
pub open spec fn after_update(state: DownloadState, update: DownloadUpdate) -> DownloadState {
    match (state, update) {
        (DownloadState::Downloading { .. }, DownloadUpdate::Progress(p)) => DownloadState::Downloading { progress: p },
        (DownloadState::Downloading { .. }, DownloadUpdate::Finished(Ok(()))) => DownloadState::Finished,
        (DownloadState::Downloading { .. }, DownloadUpdate::Finished(Err(e))) => DownloadState::Errored(e),
        (s, _) => s,
    }
}

/// The progress fraction of `state`: what has arrived while running, all of
/// it once finished, none otherwise.
pub open spec fn progress_of(state: DownloadState) -> Progress {
    match state {
        DownloadState::Downloading { progress } => progress,
        DownloadState::Finished => Progress::complete(),
        _ => Progress::nothing(),
    }
}

/// Whether `state` is an ended download, successful or not.
pub open spec fn ended(state: DownloadState) -> bool {
    state is Finished || state is Errored
}

/// What a running download reports.
pub enum DownloadUpdate {
    /// Progress so far.
    Progress(Progress),
    /// The download ended, with the error message where it failed.
    Finished(Result<(), String>),
}

/// A download to run: from `url`, saved to `save_path` where one is set.
pub struct DownloadJob {
    pub url: String,
    pub save_path: Option<String>,
}

/// A reusable download component that keeps its own state.
pub struct DownloadWidget {
    state: DownloadState,
    url: Option<String>,
    save_path: Option<String>,
}

impl DownloadWidget {
    /// Where the download stands.
    pub closed spec fn current(&self) -> DownloadState {
        self.state
    }

    /// The configured address.
    pub closed spec fn source(&self) -> Option<String> {
        self.url
    }

    /// The configured file.
    pub closed spec fn target(&self) -> Option<String> {
        self.save_path
    }

    /// A download that has not started, with no address and no file.
    pub fn new() -> (w: DownloadWidget)
        ensures
            w.current() is Idle,
            w.source() is None,
            w.target() is None,
    {
        DownloadWidget { state: DownloadState::Idle, url: None, save_path: None }
    }

    /// The same download, fetching from `url`.
    pub fn url(self, url: String) -> (w: DownloadWidget)
        ensures
            w.current() == self.current(),
            w.source() == Some(url),
            w.target() == self.target(),
    {
        DownloadWidget { url: Some(url), ..self }
    }

    /// The same download, saving to `path`.
    pub fn save_to(self, path: String) -> (w: DownloadWidget)
        ensures
            w.current() == self.current(),
            w.source() == self.source(),
            w.target() == Some(path),
    {
        DownloadWidget { save_path: Some(path), ..self }
    }

    /// Starts (or restarts) the download and returns the job to run.
    /// Without an address it fails with "No URL configured"; while it runs
    /// already, nothing happens.
    pub fn start(&mut self) -> (job: Option<DownloadJob>)
        ensures
            final(self).source() == old(self).source(),
            final(self).target() == old(self).target(),
            old(self).source() is None ==> job is None && (final(self).current() matches DownloadState::Errored(e)
                && e@ == "No URL configured"@),
            old(self).source() is Some && old(self).current() is Downloading ==> job is None
                && final(self).current() == old(self).current(),
            old(self).source() is Some && !(old(self).current() is Downloading) ==> (job matches Some(j)
                && Some(j.url) == old(self).source() && j.save_path == old(self).target() && final(self).current() == (
            DownloadState::Downloading { progress: Progress::nothing() })),
    {
        let url = match &self.url {
            Some(u) => u.clone(),
            None => {
                self.state = DownloadState::Errored(owned("No URL configured"));
                return None;
            },
        };
        match &self.state {
            DownloadState::Downloading { .. } => {
                return None;
            },
            _ => {},
        }
        let save_path = match &self.save_path {
            Some(p) => Some(p.clone()),
            None => None,
        };
        self.state = DownloadState::Downloading { progress: Progress { done: 0, total: 1 } };
        Some(DownloadJob { url, save_path })
    }

    /// Advances the state machine with an update from the running job.
    /// Updates that arrive while no download runs change nothing.
    pub fn update(&mut self, update: DownloadUpdate)
        ensures
            final(self).source() == old(self).source(),
            final(self).target() == old(self).target(),
            final(self).current() == after_update(old(self).current(), update),
    {
        let running = match &self.state {
            DownloadState::Downloading { .. } => true,
            _ => false,
        };
        if running {
            match update {
                DownloadUpdate::Progress(p) => {
                    self.state = DownloadState::Downloading { progress: p };
                },
                DownloadUpdate::Finished(Ok(())) => {
                    self.state = DownloadState::Finished;
                },
                DownloadUpdate::Finished(Err(e)) => {
                    self.state = DownloadState::Errored(e);
                },
            }
        }
    }

    /// The current download state.
    pub fn state(&self) -> (s: &DownloadState)
        ensures
            *s == self.current(),
    {
        &self.state
    }

    /// The progress as a fraction: what has arrived while running, all of it
    /// once finished, none otherwise.
    pub fn progress(&self) -> (p: Progress)
        ensures
            p == progress_of(self.current()),
    {
        match &self.state {
            DownloadState::Downloading { progress } => *progress,
            DownloadState::Finished => Progress { done: 1, total: 1 },
            _ => Progress { done: 0, total: 1 },
        }
    }

    /// Whether the download is running.
    pub fn is_downloading(&self) -> (b: bool)
        ensures
            b == self.current() is Downloading,
    {
        match &self.state {
            DownloadState::Downloading { .. } => true,
            _ => false,
        }
    }

    /// Whether the download has ended, with success or with an error.
    pub fn is_done(&self) -> (b: bool)
        ensures
            b == ended(self.current()),
    {
        match &self.state {
            DownloadState::Finished | DownloadState::Errored(_) => true,
            _ => false,
        }
    }
}

impl Default for DownloadWidget {
    fn default() -> (w: DownloadWidget)
        ensures
            w.current() is Idle,
            w.source() is None,
            w.target() is None,
    {
        DownloadWidget::new()
    }
}

} // verus!
