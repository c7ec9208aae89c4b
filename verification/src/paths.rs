//! Where the launcher, the game and the installer live inside a Wine prefix.
//! Paths are held as text and joined by the rule that `Path::join` follows
//! on Unix.
use vstd::prelude::*;
use crate::text::{chars_of, concat, owned};

verus! {

/// Location of the launcher executable, relative to the Wine prefix.
pub const LAUNCHER_EXE_REL: &'static str =
    "drive_c/Program Files/Roberts Space Industries/RSI Launcher/RSI Launcher.exe";

/// Location of the game directory, relative to the Wine prefix.
pub const GAME_DIR_REL: &'static str = "drive_c/Program Files/Roberts Space Industries/StarCitizen";

/// Directory under the game directory that marks the live release.
pub const LIVE_DIR: &'static str = "LIVE";

/// The game's data archive, which the launcher looks for.
pub const DATA_ARCHIVE: &'static str = "Data.p4k";

/// The partial data archive placed beside it.
pub const DATA_ARCHIVE_PART: &'static str = "Data.p4k.part";

/// Where installers are published, up to the version.
pub const INSTALLER_URL_HEAD: &'static str =
    "https://install.robertsspaceindustries.com/rel/2/RSI%20Launcher-Setup-";

/// Name of a saved installer, up to the version.
pub const INSTALLER_FILE_HEAD: &'static str = "RSI-Launcher-setup-";

/// The extension of installers.
pub const EXE_SUFFIX: &'static str = ".exe";

/// `base` joined with `rel`: an absolute `rel` replaces `base`; otherwise
/// a separator is put between them unless `base` is empty or already ends
/// with one.
pub open spec fn join_path(base: Seq<char>, rel: Seq<char>) -> Seq<char> {
    if rel.len() > 0 && rel[0] == '/' {
        rel
    } else if base.len() > 0 && base.last() != '/' {
        base + seq!['/'] + rel
    } else {
        base + rel
    }
}

/// `base` joined with `rel` (see `join_path`).
pub fn join(base: &str, rel: &str) -> (p: String)
    ensures
        p@ == join_path(base@, rel@),
{
    let b = chars_of(base);
    let r = chars_of(rel);
    if r.len() > 0 && r[0] == '/' {
        owned(rel)
    } else if b.len() > 0 && b[b.len() - 1] != '/' {
        let with_sep = concat(base, "/");
        let p = concat(with_sep.as_str(), rel);
        proof {
            reveal_strlit("/");
        }
        assert(p@ =~= base@ + seq!['/'] + rel@);
        p
    } else {
        concat(base, rel)
    }
}

/// Path of the launcher executable inside the Wine prefix `prefix_path`.
pub fn launcher_exe_path(prefix_path: &str) -> (p: String)
    ensures
        p@ == join_path(prefix_path@, LAUNCHER_EXE_REL@),
{
    join(prefix_path, LAUNCHER_EXE_REL)
}

/// Path of the game directory inside the Wine prefix `prefix_path`.
pub fn game_path(prefix_path: &str) -> (p: String)
    ensures
        p@ == join_path(prefix_path@, GAME_DIR_REL@),
{
    join(prefix_path, GAME_DIR_REL)
}

/// The download address of the installer of launcher `version`.
pub fn installer_url(version: &str) -> (u: String)
    ensures
        u@ == INSTALLER_URL_HEAD@ + version@ + EXE_SUFFIX@,
{
    let head = concat(INSTALLER_URL_HEAD, version);
    concat(head.as_str(), EXE_SUFFIX)
}

/// The file name under which the installer of launcher `version` is saved.
pub fn installer_file_name(version: &str) -> (n: String)
    ensures
        n@ == INSTALLER_FILE_HEAD@ + version@ + EXE_SUFFIX@,
{
    let head = concat(INSTALLER_FILE_HEAD, version);
    concat(head.as_str(), EXE_SUFFIX)
}

/// Where the installer of launcher `version` is saved inside the prefix.
pub fn installer_path(prefix_path: &str, version: &str) -> (p: String)
    ensures
        p@ == join_path(prefix_path@, INSTALLER_FILE_HEAD@ + version@ + EXE_SUFFIX@),
{
    let name = installer_file_name(version);
    join(prefix_path, name.as_str())
}

/// The directory that marks the live release inside the prefix.
pub fn live_dir_path(prefix_path: &str) -> (p: String)
    ensures
        p@ == join_path(join_path(prefix_path@, GAME_DIR_REL@), LIVE_DIR@),
{
    let game = game_path(prefix_path);
    join(game.as_str(), LIVE_DIR)
}

/// The Wine prefix that a configured game path names: the configured path,
/// or, where none is configured, the value of `WINEPREFIX` (`wineprefix`,
/// empty where unset).
pub fn prefix_path_from_config(config_path: &str, wineprefix: &str) -> (p: String)
    ensures
        p@ == (if config_path@.len() == 0 { wineprefix@ } else { config_path@ }),
{
    if config_path.is_empty() {
        owned(wineprefix)
    } else {
        owned(config_path)
    }
}

} // verus!
