//! The launcher's release metadata and the outcomes of the steps that
//! fetch, install and start it.
use vstd::prelude::*;
use crate::download::Progress;
use crate::paths::{EXE_SUFFIX, join, join_path, launcher_exe_path};
use crate::text::{
    concat, owned,
    chars_of, has_prefix, lines_of, split_lines, starts_with_at, string_from_range, sub_chars, trim,
    trim_bounds, trim_char, trim_char_bounds,
};

verus! {

/// The key that introduces the version in the release metadata.
pub open spec fn version_key() -> Seq<char> {
    seq!['v', 'e', 'r', 's', 'i', 'o', 'n', ':']
}

/// The version that one metadata line announces: the line, trimmed, must
/// start with `version:`; the rest, trimmed and stripped of double quotes
/// at both ends, is the version.
pub open spec fn line_version(line: Seq<char>) -> Option<Seq<char>> {
    let t = trim(line);
    if has_prefix(t, version_key()) {
        Some(trim_char(trim(t.skip(version_key().len() as int)), '"'))
    } else {
        None
    }
}

/// The version announced by the first line of `lines` that announces one.
pub open spec fn first_version(lines: Seq<Seq<char>>) -> Option<Seq<char>>
    decreases lines.len(),
{
    if lines.len() == 0 {
        None
    } else {
        match line_version(lines[0]) {
            Some(v) => Some(v),
            None => first_version(lines.drop_first()),
        }
    }
}

/// The version that a `latest.yml` text announces.
pub open spec fn metadata_version(raw: Seq<char>) -> Option<Seq<char>> {
    first_version(split_lines(raw))
}

proof fn lemma_first_version_step(lines: Seq<Seq<char>>, i: int)
    requires
        0 <= i < lines.len(),
        line_version(lines[i]) is None,
    ensures
        first_version(lines.skip(i)) == first_version(lines.skip(i + 1)),
{
    assert(lines.skip(i).drop_first() =~= lines.skip(i + 1));
}

/// The launcher version that the `latest.yml` release metadata `raw`
/// announces, or `None` where no line announces one.
pub fn extract_version_from_latest_yml(raw: &str) -> (res: Option<String>)
    ensures
        res is Some <==> metadata_version(raw@) is Some,
        res matches Some(v) ==> v@ == metadata_version(raw@)->0,
{
    let chars = chars_of(raw);
    let lines = lines_of(&chars);
    let ghost ls = lines@.map_values(|l: Vec<char>| l@);
    let key: [char; 8] = ['v', 'e', 'r', 's', 'i', 'o', 'n', ':'];
    assert(key@ =~= version_key());
    let mut i: usize = 0;
    assert(ls.skip(0) =~= ls);
    while i < lines.len()
        invariant
            i <= lines@.len(),
            ls == lines@.map_values(|l: Vec<char>| l@),
            ls == split_lines(raw@),
            key@ == version_key(),
            first_version(ls.skip(i as int)) == metadata_version(raw@),
        decreases lines@.len() - i,
    {
        let line = &lines[i];
        let (a, b) = trim_bounds(line.as_slice());
        let ghost t = trim(line@);
        assert(ls[i as int] == line@);
        assert(line@.subrange(a as int, b as int) == t);
        let tail = sub_chars(line.as_slice(), a, b);
        assert(tail@.skip(0) =~= tail@);
        if starts_with_at(tail.as_slice(), 0, &key) {
            proof {
                assert(tail@.skip(0) =~= tail@);
            }
            let rest = sub_chars(tail.as_slice(), 8, tail.len());
            let (c, d) = trim_bounds(rest.as_slice());
            let (e, f) = trim_char_bounds(rest.as_slice(), c, d, '"');
            let version = string_from_range(rest.as_slice(), e, f);
            proof {
                assert(rest@ =~= t.skip(8));
                assert(ls.skip(i as int)[0] == ls[i as int]);
            }
            return Some(version);
        }
        proof {
            lemma_first_version_step(ls, i as int);
        }
        i = i + 1;
    }
    assert(ls.skip(i as int) =~= Seq::<Seq<char>>::empty());
    None
}

/// Whether an HTTP status code reports success (`StatusCode::is_success`:
/// the 2xx range).
pub fn is_success_status(code: u16) -> (b: bool)
    ensures
        b == (200 <= code && code < 300),
{
    200 <= code && code < 300
}

/// Why the launcher's latest version could not be had.
pub enum FetchError {
    /// The request failed, with the transport's description.
    Query(String),
    /// The server answered with a failure status, shown so.
    Status(String),
    /// The body could not be read, with the reason.
    Read(String),
    /// The metadata announced no version; the metadata itself.
    Unparsable(String),
}

impl FetchError {
    /// The message shown for this error.
    pub open spec fn message(self) -> Seq<char> {
        match self {
            FetchError::Query(e) => "Failed to query latest launcher version: "@ + e@,
            FetchError::Status(s) => "Failed to fetch launcher version metadata: "@ + s@,
            FetchError::Read(e) => "Failed to read launcher version metadata: "@ + e@,
            FetchError::Unparsable(raw) => "Unable to parse launcher version from latest metadata: "@ + raw@,
        }
    }

    /// The message shown for this error.
    pub fn describe(&self) -> (m: String)
        ensures
            m@ == self.message(),
    {
        match self {
            FetchError::Query(e) => concat("Failed to query latest launcher version: ", e.as_str()),
            FetchError::Status(s) => concat("Failed to fetch launcher version metadata: ", s.as_str()),
            FetchError::Read(e) => concat("Failed to read launcher version metadata: ", e.as_str()),
            FetchError::Unparsable(raw) => concat(
                "Unable to parse launcher version from latest metadata: ",
                raw.as_str(),
            ),
        }
    }
}

/// The latest version that the fetched metadata `raw` announces, or the
/// error naming the metadata where it announces none.
pub fn version_from_metadata(raw: String) -> (r: Result<String, FetchError>)
    ensures
        metadata_version(raw@) matches Some(v) ==> (r matches Ok(s) && s@ == v),
        metadata_version(raw@) is None ==> (r matches Err(FetchError::Unparsable(m)) && m@ == raw@),
{
    match extract_version_from_latest_yml(raw.as_str()) {
        Some(v) => Ok(v),
        None => Err(FetchError::Unparsable(raw)),
    }
}

/// A program run with arguments and extra environment variables.
pub struct ProcessSpec {
    pub program: String,
    pub args: Vec<String>,
    pub env: Vec<(String, String)>,
}

/// The program that runs Windows programs in the prefix.
pub const RUNNER_PROGRAM: &'static str = "umu-run";

/// How the installer at `installer_path` is run: silently, under GE-Proton,
/// without privilege elevation, and with the web setup and .NET installers
/// disabled.
pub fn installer_command(installer_path: &str) -> (c: ProcessSpec)
    ensures
        c.program@ == RUNNER_PROGRAM@,
        c.args@.map_values(|a: String| a@) == seq![installer_path@, "/S"@],
        c.env@.map_values(|p: (String, String)| (p.0@, p.1@)) == seq![
            ("PROTONPATH"@, "GE-Proton"@),
            ("WINE_NO_PRIV_ELEVATION"@, "1"@),
            ("WINEDLLOVERRIDES"@, "dxwebsetup.exe,dotNetFx45_Full_setup.exe=d"@),
        ],
{
    let mut args: Vec<String> = Vec::new();
    args.push(owned(installer_path));
    args.push(owned("/S"));
    let mut env: Vec<(String, String)> = Vec::new();
    env.push((owned("PROTONPATH"), owned("GE-Proton")));
    env.push((owned("WINE_NO_PRIV_ELEVATION"), owned("1")));
    env.push((owned("WINEDLLOVERRIDES"), owned("dxwebsetup.exe,dotNetFx45_Full_setup.exe=d")));
    let c = ProcessSpec { program: owned(RUNNER_PROGRAM), args, env };
    assert(c.args@.map_values(|a: String| a@) =~= seq![installer_path@, "/S"@]);
    assert(c.env@.map_values(|p: (String, String)| (p.0@, p.1@)) =~= seq![
        ("PROTONPATH"@, "GE-Proton"@),
        ("WINE_NO_PRIV_ELEVATION"@, "1"@),
        ("WINEDLLOVERRIDES"@, "dxwebsetup.exe,dotNetFx45_Full_setup.exe=d"@),
    ]);
    c
}

/// How the launcher at `launcher_path` is run.
pub fn launcher_command(launcher_path: &str) -> (c: ProcessSpec)
    ensures
        c.program@ == RUNNER_PROGRAM@,
        c.args@.map_values(|a: String| a@) == seq![launcher_path@],
        c.env@.len() == 0,
{
    let mut args: Vec<String> = Vec::new();
    args.push(owned(launcher_path));
    let c = ProcessSpec { program: owned(RUNNER_PROGRAM), args, env: Vec::new() };
    assert(c.args@.map_values(|a: String| a@) =~= seq![launcher_path@]);
    c
}

/// How a Wine tool (`winecfg`, `control`, `regedit`) is started.
pub fn tool_command(tool: &str) -> (c: ProcessSpec)
    ensures
        c.program@ == RUNNER_PROGRAM@,
        c.args@.map_values(|a: String| a@) == seq![tool@],
        c.env@.len() == 0,
{
    launcher_command(tool)
}

/// How a finished process went: it could not be started (with the
/// reason), or it ran and exited successfully or not (with what it wrote
/// to its error stream).
pub enum ProcessOutcome {
    NotStarted(String),
    Exited { success: bool, stderr: String },
}

/// The result of running the installer.
pub fn install_result(outcome: ProcessOutcome) -> (r: Result<(), String>)
    ensures
        outcome matches ProcessOutcome::NotStarted(e) ==> (r matches Err(m) && m@ == "Failed to launch installer: "@ + e@),
        outcome matches ProcessOutcome::Exited { success, stderr } ==> if success {
            r is Ok
        } else {
            r matches Err(m) && m@ == "Launcher installation failed: "@ + stderr@
        },
{
    match outcome {
        ProcessOutcome::NotStarted(e) => Err(concat("Failed to launch installer: ", e.as_str())),
        ProcessOutcome::Exited { success, stderr } => {
            if success {
                Ok(())
            } else {
                Err(concat("Launcher installation failed: ", stderr.as_str()))
            }
        },
    }
}

/// The result of running the launcher.
pub fn launch_result(outcome: ProcessOutcome) -> (r: Result<(), String>)
    ensures
        outcome matches ProcessOutcome::NotStarted(e) ==> (r matches Err(m) && m@ == "Failed to start RSI Launcher: "@ + e@),
        outcome matches ProcessOutcome::Exited { success, .. } ==> if success {
            r is Ok
        } else {
            r matches Err(m) && m@ == "RSI Launcher exited with an error status."@
        },
{
    match outcome {
        ProcessOutcome::NotStarted(e) => Err(concat("Failed to start RSI Launcher: ", e.as_str())),
        ProcessOutcome::Exited { success, .. } => {
            if success {
                Ok(())
            } else {
                Err(owned("RSI Launcher exited with an error status."))
            }
        },
    }
}

/// What running the installed launcher from the prefix starts with: the
/// launcher to run, or the refusal where it is not installed.
pub fn run_installed_launcher(prefix_path: &str, launcher_exists: bool) -> (r: Result<String, String>)
    ensures
        launcher_exists ==> (r matches Ok(p) && p@ == join_path(prefix_path@, crate::paths::LAUNCHER_EXE_REL@)),
        !launcher_exists ==> (r matches Err(m) && m@ == "Launcher is not installed yet. Install it first."@),
{
    if !launcher_exists {
        return Err(owned("Launcher is not installed yet. Install it first."));
    }
    Ok(launcher_exe_path(prefix_path))
}

/// The files that mark the live release in the directory `live_dir`: the
/// partial archive, then the archive, each empty; none where the archive
/// exists already.
pub fn live_marker_files(live_dir: &str, archive_exists: bool) -> (r: Vec<String>)
    ensures
        archive_exists ==> r@.len() == 0,
        !archive_exists ==> r@.map_values(|p: String| p@) == seq![
            join_path(live_dir@, crate::paths::DATA_ARCHIVE_PART@),
            join_path(live_dir@, crate::paths::DATA_ARCHIVE@),
        ],
{
    let mut r: Vec<String> = Vec::new();
    if !archive_exists {
        r.push(join(live_dir, crate::paths::DATA_ARCHIVE_PART));
        r.push(join(live_dir, crate::paths::DATA_ARCHIVE));
        assert(r@.map_values(|p: String| p@) =~= seq![
            join_path(live_dir@, crate::paths::DATA_ARCHIVE_PART@),
            join_path(live_dir@, crate::paths::DATA_ARCHIVE@),
        ]);
    }
    r
}

/// The size of the pieces in which a downloaded installer is counted.
pub const CHUNK_SIZE: u64 = 8192;

/// `a` or `b`, whichever is smaller.
pub open spec fn min_u64(a: u64, b: u64) -> u64 {
    if a < b {
        a
    } else {
        b
    }
}

/// The progress reported after each piece of a `len`-byte body, with the
/// server's announced size `total` (no reports where it announced none):
/// the bytes counted so far, capped at the total.
pub open spec fn chunk_reports(len: nat, total: u64) -> Seq<Progress> {
    if total == 0 {
        Seq::empty()
    } else {
        Seq::new(
            ((len + CHUNK_SIZE - 1) / CHUNK_SIZE as int) as nat,
            |i: int| {
                let counted = if (i + 1) * CHUNK_SIZE <= len { (i + 1) * CHUNK_SIZE } else { len as int };
                Progress { done: min_u64(counted as u64, total), total }
            },
        )
    }
}

/// The progress reports while a body of `len` bytes is counted piece by
/// piece (see `chunk_reports`).
pub fn download_progress_reports(len: u64, total: u64) -> (r: Vec<Progress>)
    ensures
        r@ == chunk_reports(len as nat, total),
{
    let mut r: Vec<Progress> = Vec::new();
    if total == 0 {
        return r;
    }
    let mut downloaded: u64 = 0;
    let mut i: u64 = 0;
    let ghost n: int = (len as int + CHUNK_SIZE - 1) / CHUNK_SIZE as int;
    assert(n * CHUNK_SIZE >= len && (n - 1) * CHUNK_SIZE < len) by (nonlinear_arith)
        requires
            n == (len as int + CHUNK_SIZE - 1) / CHUNK_SIZE as int,
    ;
    while downloaded < len
        invariant
            downloaded <= len,
            total > 0,
            downloaded == (if i * CHUNK_SIZE <= len { i * CHUNK_SIZE } else { len as int }),
            i <= n,
            downloaded < len ==> i < n,
            n * CHUNK_SIZE >= len,
            (n - 1) * CHUNK_SIZE < len || n == 0,
            r@ == chunk_reports(len as nat, total).take(i as int),
        decreases len - downloaded,
    {
        let remaining = len - downloaded;
        let piece = if remaining < CHUNK_SIZE {
            remaining
        } else {
            CHUNK_SIZE
        };
        downloaded = downloaded + piece;
        let done = if downloaded < total {
            downloaded
        } else {
            total
        };
        proof {
            assert((i + 1) * CHUNK_SIZE == i * CHUNK_SIZE + CHUNK_SIZE) by (nonlinear_arith);
        }
        r.push(Progress { done, total });
        proof {
            let reports = chunk_reports(len as nat, total);
            assert(reports.take(i + 1) =~= reports.take(i as int).push(reports[i as int]));
        }
        i = i + 1;
    }
    proof {
        assert(i * CHUNK_SIZE >= len);
        assert(i == n) by (nonlinear_arith)
            requires
                i * CHUNK_SIZE >= len,
                (i - 1) * CHUNK_SIZE < len || i == 0,
                i <= n,
                (n - 1) * CHUNK_SIZE < len || n == 0,
                n * CHUNK_SIZE >= len,
        ;
        assert(chunk_reports(len as nat, total).take(i as int) =~= chunk_reports(len as nat, total));
    }
    r
}

/// Whether an HTTP download of the installer answered with success; the
/// refusal names the address.
pub fn installer_download_status(code: u16, url: &str) -> (r: Result<(), String>)
    ensures
        200 <= code < 300 ==> r is Ok,
        !(200 <= code < 300) ==> (r matches Err(m) && m@ == "Failed to download launcher installer from "@ + url@),
{
    if is_success_status(code) {
        Ok(())
    } else {
        Err(concat("Failed to download launcher installer from ", url))
    }
}

/// Whether the tool runs without its window, for the launcher alone: the
/// arguments hold `--run` and the launcher is installed.
pub fn should_run_headless(args: &[String], launcher_exists: bool) -> (b: bool)
    ensures
        b == (launcher_exists && exists|i: int| 0 <= i < args@.len() && args@[i]@ == "--run"@),
{
    let flag = owned("--run");
    let mut i: usize = 0;
    while i < args.len()
        invariant
            i <= args@.len(),
            flag@ == "--run"@,
            forall|j: int| 0 <= j < i ==> args@[j]@ != "--run"@,
        decreases args@.len() - i,
    {
        if args[i] == flag {
            return launcher_exists;
        }
        i = i + 1;
    }
    false
}

/// Where installing the launcher alone stands.
#[derive(PartialEq, Eq, Structural)]
pub enum InstallStage {
    /// Checking whether the launcher is installed already.
    Checking,
    /// Fetching the latest version.
    Fetching,
    /// Downloading the installer.
    Downloading,
    /// Running the installer.
    Installing,
    /// Marking the live release.
    Marking,
    /// Finished.
    Done,
}

/// The result of the step that the flow asked for.
pub enum InstallEvent {
    Checked { launcher_exists: bool },
    VersionFetched(Result<String, String>),
    /// The installer was saved at this path, or why not.
    Downloaded(Result<String, String>),
    Installed(Result<(), String>),
    Marked(Result<(), String>),
}

/// What the flow asks for next.
pub enum InstallAction {
    FetchVersion,
    Download { version: String },
    RunInstaller { installer_path: String },
    MarkLive,
    Finish(Result<(), String>),
}

/// Whether `event` answers the step that `stage` waits for.
pub open spec fn answers(stage: InstallStage, event: InstallEvent) -> bool {
    match stage {
        InstallStage::Checking => event is Checked,
        InstallStage::Fetching => event is VersionFetched,
        InstallStage::Downloading => event is Downloaded,
        InstallStage::Installing => event is Installed,
        InstallStage::Marking => event is Marked,
        InstallStage::Done => false,
    }
}

/// One step of installing the launcher alone: nothing to do where it is
/// installed; otherwise fetch the version, download, install, mark the
/// live release; the first failure ends the flow with its error.
pub fn install_step(stage: InstallStage, event: InstallEvent) -> (r: (InstallStage, InstallAction))
    requires
        answers(stage, event),
    ensures
        match event {
            InstallEvent::Checked { launcher_exists } => if launcher_exists {
                r.0 == InstallStage::Done && r.1 matches InstallAction::Finish(Ok(()))
            } else {
                r.0 == InstallStage::Fetching && r.1 is FetchVersion
            },
            InstallEvent::VersionFetched(Ok(v)) => r.0 == InstallStage::Downloading && (r.1 matches InstallAction::Download { version } && version == v),
            InstallEvent::Downloaded(Ok(p)) => r.0 == InstallStage::Installing && (r.1 matches InstallAction::RunInstaller { installer_path } && installer_path == p),
            InstallEvent::Installed(Ok(())) => r.0 == InstallStage::Marking && r.1 is MarkLive,
            InstallEvent::Marked(Ok(())) => r.0 == InstallStage::Done && r.1 matches InstallAction::Finish(Ok(())),
            InstallEvent::VersionFetched(Err(e)) | InstallEvent::Downloaded(Err(e)) | InstallEvent::Installed(Err(e))
            | InstallEvent::Marked(Err(e)) => r.0 == InstallStage::Done && (r.1 matches InstallAction::Finish(Err(x)) && x == e),
        },
{
    match event {
        InstallEvent::Checked { launcher_exists } => {
            if launcher_exists {
                (InstallStage::Done, InstallAction::Finish(Ok(())))
            } else {
                (InstallStage::Fetching, InstallAction::FetchVersion)
            }
        },
        InstallEvent::VersionFetched(Ok(version)) => (InstallStage::Downloading, InstallAction::Download { version }),
        InstallEvent::Downloaded(Ok(installer_path)) => (InstallStage::Installing, InstallAction::RunInstaller { installer_path }),
        InstallEvent::Installed(Ok(())) => (InstallStage::Marking, InstallAction::MarkLive),
        InstallEvent::Marked(Ok(())) => (InstallStage::Done, InstallAction::Finish(Ok(()))),
        InstallEvent::VersionFetched(Err(e)) | InstallEvent::Downloaded(Err(e)) | InstallEvent::Installed(Err(e))
        | InstallEvent::Marked(Err(e)) => (InstallStage::Done, InstallAction::Finish(Err(e))),
    }
}

/// Whether `name` is the file name of a saved launcher installer: it
/// starts like one and ends in `.exe`.
pub open spec fn installer_name(name: Seq<char>) -> bool {
    has_prefix(name, crate::paths::INSTALLER_FILE_HEAD@) && EXE_SUFFIX@.len() <= name.len()
        && name.skip(name.len() - EXE_SUFFIX@.len()) == EXE_SUFFIX@
}

/// Whether `name` is the file name of a saved launcher installer.
pub fn is_installer_file_name(name: &str) -> (b: bool)
    ensures
        b == installer_name(name@),
{
    let c = chars_of(name);
    let head = chars_of(crate::paths::INSTALLER_FILE_HEAD);
    let tail = chars_of(EXE_SUFFIX);
    assert(c@.skip(0) =~= c@);
    if !starts_with_at(&c, 0, &head) {
        return false;
    }
    if c.len() < tail.len() {
        return false;
    }
    let at = c.len() - tail.len();
    let r = starts_with_at(&c, at, &tail);
    assert(c@.skip(at as int).take(tail@.len() as int) =~= c@.skip(at as int));
    r
}

} // verus!
