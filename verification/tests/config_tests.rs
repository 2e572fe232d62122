use sekiro_launcher::config::{Config, GameDirectoriesConfig, GamePrefixConfig, ProtonConfig, ToolsConfig};

#[test]
fn game_directories_add_auto_selects_first() {
    let mut gdc = GameDirectoriesConfig::default();
    assert!(gdc.selected.is_none());
    gdc.add("game1".into(), "/games/1".into());
    assert_eq!(gdc.selected.as_deref(), Some("game1"));
}

#[test]
fn game_directories_remove_reselects() {
    let mut gdc = GameDirectoriesConfig::default();
    gdc.add("a".into(), "/a".into());
    gdc.add("b".into(), "/b".into());
    gdc.selected = Some("a".into());
    gdc.remove("a");
    assert_eq!(gdc.selected.as_deref(), Some("b"));
}

#[test]
fn game_directories_rename_updates_selection() {
    let mut gdc = GameDirectoriesConfig::default();
    gdc.add("old".into(), "/path".into());
    gdc.rename("old", "new");
    assert_eq!(gdc.selected.as_deref(), Some("new"));
    assert_eq!(gdc.directories[0].name, "new");
}

#[test]
fn game_directories_is_empty() {
    let gdc = GameDirectoriesConfig::default();
    assert!(gdc.is_empty());
    let mut gdc = GameDirectoriesConfig::default();
    gdc.add("x".into(), "/x".into());
    assert!(!gdc.is_empty());
}

#[test]
fn game_directories_add_keeps_existing_selection() {
    let mut gdc = GameDirectoriesConfig::default();
    gdc.add("first".into(), "/1".into());
    gdc.add("second".into(), "/2".into());
    assert_eq!(gdc.selected.as_deref(), Some("first"));
    assert_eq!(gdc.directories.len(), 2);
    assert_eq!(gdc.directories[1].path, "/2");
}

#[test]
fn game_directories_add_then_remove_restores() {
    let mut gdc = GameDirectoriesConfig::default();
    gdc.add("main".into(), "/games/main".into());
    let before = gdc.clone();
    gdc.add("modded".into(), "/games/modded".into());
    gdc.remove("modded");
    assert_eq!(gdc, before);
}

#[test]
fn game_directories_remove_last_clears_selection() {
    let mut gdc = GameDirectoriesConfig::default();
    gdc.add("only".into(), "/only".into());
    gdc.remove("only");
    assert!(gdc.is_empty());
    assert_eq!(gdc.selected, None);
}

#[test]
fn game_directories_remove_unselected_keeps_selection() {
    let mut gdc = GameDirectoriesConfig::default();
    gdc.add("a".into(), "/a".into());
    gdc.add("b".into(), "/b".into());
    gdc.remove("b");
    assert_eq!(gdc.selected.as_deref(), Some("a"));
    assert_eq!(gdc.directories.len(), 1);
}

#[test]
fn game_directories_rename_unknown_changes_nothing() {
    let mut gdc = GameDirectoriesConfig::default();
    gdc.add("a".into(), "/a".into());
    let before = gdc.clone();
    gdc.rename("zzz", "yyy");
    assert_eq!(gdc, before);
}

#[test]
fn game_directories_selected_index_finds_first() {
    let mut gdc = GameDirectoriesConfig::default();
    gdc.add("a".into(), "/a".into());
    gdc.add("b".into(), "/b".into());
    gdc.selected = Some("b".into());
    assert_eq!(gdc.selected_index(), Some(1));
    gdc.selected = Some("c".into());
    assert_eq!(gdc.selected_index(), None);
}

#[test]
fn load_returns_default_when_no_file() {
    let config = Config::load(None, None);
    assert_eq!(config, Config::default());
}

#[test]
fn load_merges_partial_toml() {
    let config = Config::load(Some("[proton]\npath = \"/custom/proton\"\n".to_string()), None);
    assert_eq!(config.proton.path, Some("/custom/proton".into()));
    assert_eq!(config.tools, ToolsConfig::default());
}

#[test]
fn load_round_trip() {
    let saved = Config {
        proton: ProtonConfig { path: Some("/test/proton".into()) },
        game_prefix: GamePrefixConfig { path: Some("/test/prefix".into()) },
        tools: ToolsConfig { selected: vec!["livesplit".into()], visible: vec![] },
        ..Config::default()
    };
    let mut proton = toml::Table::new();
    proton.insert("path".into(), toml::Value::String("/test/proton".into()));
    let mut prefix = toml::Table::new();
    prefix.insert("path".into(), toml::Value::String("/test/prefix".into()));
    let mut tools = toml::Table::new();
    tools.insert("selected".into(), toml::Value::Array(vec![toml::Value::String("livesplit".into())]));
    tools.insert("visible".into(), toml::Value::Array(vec![]));
    let mut root = toml::Table::new();
    root.insert("proton".into(), toml::Value::Table(proton));
    root.insert("game_prefix".into(), toml::Value::Table(prefix));
    root.insert("tools".into(), toml::Value::Table(tools));
    let text = toml::to_string_pretty(&root).unwrap();
    let loaded = Config::load(Some(text), None);
    assert_eq!(saved, loaded);
}

#[test]
fn load_prefers_strict_parse() {
    let parsed = Config { proton: ProtonConfig { path: Some("/strict".into()) }, ..Config::default() };
    let config = Config::load(Some("[proton]\npath = \"/loose\"\n".to_string()), Some(parsed.clone()));
    assert_eq!(config, parsed);
}

#[test]
fn merge_partial_reads_tool_lists_and_skips_other_kinds() {
    let text = "[tools]\nselected = [\"livesplit\", 3, \"practice-tool\"]\nvisible = \"not a list\"\n[game_prefix]\npath = 7\n";
    let config = Config::merge_partial(text);
    assert_eq!(config.tools.selected, vec!["livesplit".to_string(), "practice-tool".to_string()]);
    assert!(config.tools.visible.is_empty());
    assert_eq!(config.game_prefix.path, None);
    assert_eq!(config.proton.path, None);
}

#[test]
fn merge_partial_of_unparsable_text_is_default() {
    let config = Config::merge_partial("this is [not toml");
    assert_eq!(config, Config::default());
}

#[test]
fn config_default_path_is_below_home() {
    assert_eq!(Config::default_path("/home/u"), "/home/u/.config/sekiro-launcher/config.toml");
}

#[test]
fn config_save_targets_default_file() {
    let (dir, file) = Config::default().save("/home/u");
    assert_eq!(dir.as_deref(), Some("/home/u/.config/sekiro-launcher"));
    assert_eq!(file, "/home/u/.config/sekiro-launcher/config.toml");
}

#[test]
fn game_prefix_default_path_is_steam_compatdata() {
    assert_eq!(
        GamePrefixConfig::default_path("/home/u"),
        "/home/u/.local/share/Steam/steamapps/compatdata/814380/pfx/"
    );
}

#[test]
fn game_prefix_resolved_path_migrates_drive_c() {
    let cfg = GamePrefixConfig { path: Some("/games/pfx/drive_c".into()) };
    assert_eq!(cfg.resolved_path("/home/u", Some("/games/pfx/drive_c".into())), "/games/pfx");
    let cfg = GamePrefixConfig { path: Some("/games/pfx/Drive_C".into()) };
    assert_eq!(cfg.resolved_path("/home/u", Some("/games/pfx/Drive_C".into())), "/games/pfx");
    let cfg = GamePrefixConfig { path: Some("/games/pfx".into()) };
    assert_eq!(cfg.resolved_path("/home/u", Some("/games/pfx".into())), "/games/pfx");
}

#[test]
fn game_prefix_resolved_path_falls_back_to_default() {
    let cfg = GamePrefixConfig { path: Some("/missing".into()) };
    assert_eq!(
        cfg.resolved_path("/home/u", None),
        "/home/u/.local/share/Steam/steamapps/compatdata/814380/pfx/"
    );
    let cfg = GamePrefixConfig { path: None };
    assert_eq!(
        cfg.resolved_path("/home/u", Some("/ignored".into())),
        "/home/u/.local/share/Steam/steamapps/compatdata/814380/pfx/"
    );
}

fn expanded(p: &str) -> Option<String> {
    ProtonConfig { path: Some(p.to_string()) }.expanded_path()
}

#[test]
fn expand_leaves_plain_paths() {
    assert_eq!(expanded("/plain/path"), Some("/plain/path".to_string()));
    assert_eq!(expanded("relative/dir"), Some("relative/dir".to_string()));
    assert_eq!(ProtonConfig { path: None }.expanded_path(), None);
}

#[test]
fn expand_fails_on_unset_variable() {
    assert_eq!(expanded("$SEKIRO_LAUNCHER_SURELY_UNSET_VARIABLE/x"), None);
    let prefix = GamePrefixConfig { path: Some("${SEKIRO_LAUNCHER_SURELY_UNSET_VARIABLE}".into()) };
    assert_eq!(prefix.expanded_path(), None);
}

#[test]
fn expand_replaces_home() {
    let e = expanded("~/games").unwrap();
    assert!(e.ends_with("/games"));
    assert!(!e.starts_with('~') || e == "~/games");
}


#[test]
fn proton_is_configured_needs_a_directory() {
    let cfg = ProtonConfig { path: Some("/opt/proton".into()) };
    assert!(cfg.is_configured(true));
    assert!(!cfg.is_configured(false));
    let cfg = ProtonConfig { path: None };
    assert!(!cfg.is_configured(true));
}

#[test]
fn game_directories_rename_back_restores() {
    let mut gdc = GameDirectoriesConfig::default();
    gdc.add("a".into(), "/a".into());
    gdc.add("b".into(), "/b".into());
    let before = gdc.clone();
    gdc.rename("a", "z");
    assert_eq!(gdc.directories[0].name, "z");
    assert_eq!(gdc.selected.as_deref(), Some("z"));
    gdc.rename("z", "a");
    assert_eq!(gdc, before);
}

#[test]
fn game_directories_selection_never_dangles() {
    let mut gdc = GameDirectoriesConfig::default();
    gdc.add("a".into(), "/a".into());
    gdc.add("b".into(), "/b".into());
    gdc.add("c".into(), "/c".into());
    gdc.remove("b");
    assert_eq!(gdc.selected.as_deref(), Some("a"));
    gdc.rename("c", "d");
    assert_eq!(gdc.selected.as_deref(), Some("a"));
    gdc.rename("a", "z");
    assert_eq!(gdc.selected.as_deref(), Some("z"));
    assert!(gdc.directories.iter().any(|d| Some(d.name.as_str()) == gdc.selected.as_deref()));
    gdc.remove("z");
    assert_eq!(gdc.selected.as_deref(), Some("d"));
    gdc.remove("d");
    assert_eq!(gdc.selected, None);
    assert!(gdc.is_empty());
}
