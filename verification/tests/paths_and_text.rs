use rsi_maintenance::paths::{
    game_path, installer_file_name, installer_path, installer_url, join, launcher_exe_path,
    live_dir_path, prefix_path_from_config,
};
use rsi_maintenance::text::{chars_of, lines_of, string_from, trim_bounds};

#[test]
fn join_inserts_one_separator() {
    assert_eq!(join("/home/u/wine", "drive_c"), "/home/u/wine/drive_c");
    assert_eq!(join("/home/u/wine/", "drive_c"), "/home/u/wine/drive_c");
    assert_eq!(join("", "drive_c"), "drive_c");
}

#[test]
fn join_with_absolute_part_replaces_base() {
    assert_eq!(join("/home/u/wine", "/etc/x"), "/etc/x");
}

#[test]
fn join_with_empty_part_adds_separator() {
    assert_eq!(join("/a", ""), "/a/");
}

#[test]
fn launcher_exe_path_inside_prefix() {
    assert_eq!(
        launcher_exe_path("/games/sc"),
        "/games/sc/drive_c/Program Files/Roberts Space Industries/RSI Launcher/RSI Launcher.exe"
    );
}

#[test]
fn game_path_inside_prefix() {
    assert_eq!(
        game_path("/games/sc/"),
        "/games/sc/drive_c/Program Files/Roberts Space Industries/StarCitizen"
    );
}

#[test]
fn live_dir_inside_game_path() {
    assert_eq!(
        live_dir_path("/p"),
        "/p/drive_c/Program Files/Roberts Space Industries/StarCitizen/LIVE"
    );
}

#[test]
fn installer_url_for_version() {
    assert_eq!(
        installer_url("2.3.1"),
        "https://install.robertsspaceindustries.com/rel/2/RSI%20Launcher-Setup-2.3.1.exe"
    );
}

#[test]
fn installer_file_name_and_path() {
    assert_eq!(installer_file_name("2.3.1"), "RSI-Launcher-setup-2.3.1.exe");
    assert_eq!(installer_path("/p", "2.3.1"), "/p/RSI-Launcher-setup-2.3.1.exe");
}

#[test]
fn prefix_prefers_configured_path() {
    assert_eq!(prefix_path_from_config("/cfg", "/env"), "/cfg");
    assert_eq!(prefix_path_from_config("", "/env"), "/env");
    assert_eq!(prefix_path_from_config("", ""), "");
}

#[test]
fn trim_bounds_skip_unicode_white_space() {
    let c = chars_of("\u{3000} a b\t\n");
    let (a, b) = trim_bounds(&c);
    assert_eq!(string_from(&c[a..b]), "a b");
    let e = chars_of("   ");
    let (a, b) = trim_bounds(&e);
    assert_eq!(a, b);
}

#[test]
fn lines_split_like_str_lines() {
    let cases = ["a\nb", "a\r\nb\n", "", "\n\n", "x\r", "one\n\ntwo\r\n"];
    for case in cases {
        let c = chars_of(case);
        let got: Vec<String> = lines_of(&c).iter().map(|l| string_from(l)).collect();
        let want: Vec<String> = case.lines().map(|l| l.to_string()).collect();
        assert_eq!(got, want, "lines of {:?}", case);
    }
}
