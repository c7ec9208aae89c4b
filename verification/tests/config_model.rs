use rsi_maintenance::config::{
    apply_config_to_environment, default_config, default_environment, is_forwarded_variable,
    load_environment_from_current_process, text_before, AppConfig, ConfigFile, EnvMap,
};
use rsi_maintenance::config_editor::{Entry, State};

fn s(x: &str) -> String {
    x.to_string()
}

fn pairs(m: &EnvMap) -> Vec<(String, String)> {
    m.entries().clone()
}

#[test]
fn text_order_is_code_point_order() {
    assert!(text_before("A", "B"));
    assert!(text_before("Z", "_"));
    assert!(text_before("MANGOHUD", "MANGOHUD_CONFIG"));
    assert!(!text_before("b", "a"));
    assert!(!text_before("a", "a"));
    assert!(text_before("", "a"));
    assert!(!text_before("", ""));
    assert!(text_before("é", "漢"));
}

#[test]
fn insert_keeps_keys_in_order_and_later_value_wins() {
    let mut m = EnvMap::new();
    m.insert(s("b"), s("1"));
    m.insert(s("a"), s("2"));
    m.insert(s("c"), s("3"));
    m.insert(s("b"), s("4"));
    assert_eq!(pairs(&m), vec![(s("a"), s("2")), (s("b"), s("4")), (s("c"), s("3"))]);
    assert_eq!(m.len(), 3);
}

#[test]
fn from_pairs_matches_btreemap_from() {
    let list = vec![(s("x"), s("1")), (s("a"), s("2")), (s("x"), s("3"))];
    let m = EnvMap::from_pairs(list.clone());
    let b: std::collections::BTreeMap<String, String> = std::collections::BTreeMap::from([
        (s("x"), s("1")),
        (s("a"), s("2")),
        (s("x"), s("3")),
    ]);
    let want: Vec<(String, String)> = b.into_iter().collect();
    assert_eq!(pairs(&m), want);
}

#[test]
fn default_environment_in_key_order() {
    let m = default_environment();
    let keys: Vec<String> = pairs(&m).into_iter().map(|p| p.0).collect();
    assert_eq!(
        keys,
        vec![
            "MANGOHUD",
            "MANGOHUD_CONFIG",
            "MESA_SHADER_CACHE_MAX_SIZE",
            "PROTON_ENABLE_WAYLAND",
            "PROTON_LOG",
            "STEAM_LINUX_RUNTIME_LOG",
            "STEAM_LINUX_RUNTIME_VERBOSE",
            "__GL_SHADER_DISK_CACHE",
            "__GL_SHADER_DISK_CACHE_SIZE",
            "__GL_SHADER_DISK_CACHE_SKIP_CLEANUP",
        ]
    );
    let values: Vec<String> = pairs(&m).into_iter().map(|p| p.1).collect();
    assert_eq!(
        values,
        vec!["0", "blacklist=rsi-maintenance", "10G", "0", "0", "0", "0", "1", "10737418240", "1"]
    );
}

#[test]
fn default_config_for_game_path() {
    let c = default_config(s("/games/sc"));
    assert_eq!(c.settings.game_path, "/games/sc");
    assert_eq!(c.environment.len(), 10);
}

#[test]
fn applying_config_sets_values_then_prefix() {
    let env = EnvMap::from_pairs(vec![(s("B"), s("")), (s("A"), s("1")), (s("C"), s("x"))]);
    let cfg = AppConfig { game_path: s("/p") };
    assert_eq!(
        apply_config_to_environment(&cfg, &env),
        vec![(s("A"), s("1")), (s("C"), s("x")), (s("WINEPREFIX"), s("/p"))]
    );
    let none = AppConfig { game_path: String::new() };
    assert_eq!(apply_config_to_environment(&none, &env), vec![(s("A"), s("1")), (s("C"), s("x"))]);
}

#[test]
fn forwarded_variables() {
    assert!(is_forwarded_variable("RSI_X"));
    assert!(is_forwarded_variable("WINEPREFIX"));
    assert!(is_forwarded_variable("PROTON_LOG"));
    assert!(!is_forwarded_variable("RSI"));
    assert!(!is_forwarded_variable("HOME"));
    let vars = vec![(s("HOME"), s("/h")), (s("WINEDEBUG"), s("-all")), (s("RSI_A"), s("1"))];
    assert_eq!(
        load_environment_from_current_process(&vars),
        vec![(s("WINEDEBUG"), s("-all")), (s("RSI_A"), s("1"))]
    );
}

fn config(game: &str, env: Vec<(String, String)>) -> ConfigFile {
    ConfigFile { settings: AppConfig { game_path: s(game) }, environment: EnvMap::from_pairs(env) }
}

#[test]
fn editor_rows_follow_key_order() {
    let st = State::new(config("/g", vec![(s("b"), s("2")), (s("a"), s("1"))]));
    let rows: Vec<(String, String)> =
        st.entries.iter().map(|e| (e.key.clone(), e.value.clone())).collect();
    assert_eq!(rows, vec![(s("a"), s("1")), (s("b"), s("2"))]);
    assert_eq!(st.original_config.settings.game_path, "/g");
}

#[test]
fn editor_save_without_edits_round_trips() {
    let st = State::new(config("/g", vec![(s("A"), s("1")), (s("B"), s(""))]));
    let saved = st.save();
    assert_eq!(saved.settings.game_path, "/g");
    assert_eq!(pairs(&saved.environment), vec![(s("A"), s("1")), (s("B"), s(""))]);
}

#[test]
fn editor_save_trims_keys_drops_empty_and_keeps_last() {
    let mut st = State::new(config("/g", vec![]));
    st.entries.push(Entry { key: s("  Z "), value: s("1") });
    st.entries.push(Entry { key: s("   "), value: s("dropped") });
    st.entries.push(Entry { key: s("Z"), value: s("2") });
    st.entries.push(Entry { key: s("A"), value: s("3") });
    let saved = st.save();
    assert_eq!(pairs(&saved.environment), vec![(s("A"), s("3")), (s("Z"), s("2"))]);
}

#[test]
fn editor_row_edits() {
    let mut st = State::new(config("", vec![(s("A"), s("1"))]));
    st.add_entry();
    assert_eq!(st.entries.len(), 2);
    assert_eq!(st.entries[1].key, "");
    st.edit_key(1, s("B"));
    st.edit_value(1, s("2"));
    st.edit_value(7, s("ignored"));
    assert_eq!(st.entries[1].key, "B");
    assert_eq!(st.entries[1].value, "2");
    st.remove_entry(0);
    assert_eq!(st.entries.len(), 1);
    assert_eq!(st.entries[0].key, "B");
}
