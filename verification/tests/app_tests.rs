use sekiro_launcher::app::{AppAction, AppEvent, AppState, DirTarget, LaunchMode};
use sekiro_launcher::config::{Config, ProtonConfig};
use sekiro_launcher::manifest::{Manifest, ToolEntry};
use sekiro_launcher::screen::{Screen, ToolArea};
use sekiro_launcher::tools::ToolSetupResult;
use sekiro_launcher::ui::ToolStatus;

const PFX: &str = "/home/u/.local/share/Steam/steamapps/compatdata/814380/pfx/";

fn fresh() -> AppState {
    AppState::boot("/home/u".to_string(), None)
}

fn tool(name: &str, slug: &str) -> ToolEntry {
    ToolEntry { name: name.into(), slug: slug.into(), github_repo: format!("x/{slug}"), description: String::new() }
}

#[test]
fn app_boot_state_is_empty() {
    let s = fresh();
    assert!(s.manifest.is_none());
    assert_eq!(s.config, Config::default());
    assert!(s.log_messages.is_empty());
    assert!(!s.proton_setup_active && !s.setup_active && !s.game_launched && !s.window_opened);
}

#[test]
fn app_log_push_appends_and_shows() {
    let mut s = fresh();
    let act = s.update(AppEvent::LogPush("hello".into()));
    assert!(matches!(act, AppAction::Nothing));
    assert_eq!(s.log_messages, vec!["hello".to_string()]);
    assert!(s.log_visible);
    s.update(AppEvent::LogDismiss);
    assert!(!s.log_visible);
    s.update(AppEvent::LogToggle);
    assert!(s.log_visible);
    s.update(AppEvent::LogPush("again".into()));
    assert_eq!(s.log_messages, vec!["hello".to_string(), "again".to_string()]);
}

#[test]
fn app_config_without_proton_opens_setup_screen() {
    let mut s = AppState::boot("/home/u".into(), Some("/env/proton".into()));
    let act = s.update(AppEvent::ConfigLoaded(Ok(Config::default())));
    assert!(s.proton_setup_active);
    match act {
        AppAction::ResolvePaths { proton_candidate, prefix_candidate } => {
            assert_eq!(proton_candidate.as_deref(), Some("/env/proton"));
            assert_eq!(prefix_candidate, None);
        }
        other => panic!("unexpected action {other:?}"),
    }
    s.update(AppEvent::PathsResolved { proton: None, prefix_dir: None });
    assert_eq!(s.game_prefix_path.as_deref(), Some(PFX));
    assert_eq!(s.proton_path, None);
}

#[test]
fn app_config_with_proton_resolves_paths() {
    let mut s = fresh();
    let mut config = Config::default();
    config.proton.path = Some("/opt/GE-Proton10-26".into());
    config.game_prefix.path = Some("/games/pfx/drive_c".into());
    let act = s.update(AppEvent::ConfigLoaded(Ok(config)));
    assert!(!s.proton_setup_active);
    match act {
        AppAction::ResolvePaths { proton_candidate, prefix_candidate } => {
            assert_eq!(proton_candidate.as_deref(), Some("/opt/GE-Proton10-26"));
            assert_eq!(prefix_candidate.as_deref(), Some("/games/pfx/drive_c"));
        }
        other => panic!("unexpected action {other:?}"),
    }
    s.update(AppEvent::PathsResolved {
        proton: Some("/opt/GE-Proton10-26".into()),
        prefix_dir: Some("/games/pfx/drive_c".into()),
    });
    assert_eq!(s.proton_path.as_deref(), Some("/opt/GE-Proton10-26"));
    assert_eq!(s.game_prefix_path.as_deref(), Some("/games/pfx"));
}

#[test]
fn app_config_then_paths_keeps_manifest_and_log() {
    let mut s = fresh();
    s.update(AppEvent::ManifestLoaded(Ok(Manifest { tools: vec![tool("A", "a")] })));
    s.update(AppEvent::LogPush("line".into()));
    let mut config = Config::default();
    config.proton.path = Some("/p".into());
    config.game_prefix.path = Some("/nowhere".into());
    s.update(AppEvent::ConfigLoaded(Ok(config.clone())));
    s.update(AppEvent::PathsResolved { proton: Some("/p".into()), prefix_dir: None });
    assert_eq!(s.config, config);
    assert_eq!(s.proton_path.as_deref(), Some("/p"));
    assert_eq!(s.game_prefix_path.as_deref(), Some(PFX));
    assert!(!s.proton_setup_active);
    let m = s.manifest.as_ref().expect("manifest kept");
    assert_eq!(m.tools.len(), 1);
    assert_eq!(m.tools[0].slug, "a");
    assert_eq!(s.log_messages, vec!["line".to_string()]);
}

#[test]
fn app_config_load_failure_changes_nothing() {
    let mut s = fresh();
    let act = s.update(AppEvent::ConfigLoaded(Err("broken".into())));
    assert!(matches!(act, AppAction::Nothing));
    assert!(!s.proton_setup_active);
    assert!(s.log_messages.is_empty());
}

#[test]
fn app_manifest_failure_is_logged() {
    let mut s = fresh();
    s.update(AppEvent::ManifestLoaded(Err("offline".into())));
    assert_eq!(s.log_messages, vec!["Failed to load manifest: offline".to_string()]);
    assert!(s.log_visible);
    s.update(AppEvent::ManifestLoaded(Ok(Manifest::builtin())));
    assert_eq!(s.manifest.as_ref().map(|m| m.tools.len()), Some(5));
}

#[test]
fn app_toggle_tool_twice_restores_selection() {
    let mut s = fresh();
    s.config.tools.selected = vec!["livesplit".into()];
    let act = s.update(AppEvent::ToggleTool("practice-tool".into()));
    assert!(matches!(act, AppAction::SaveConfig));
    assert_eq!(s.config.tools.selected, vec!["livesplit".to_string(), "practice-tool".to_string()]);
    s.update(AppEvent::ToggleTool("practice-tool".into()));
    assert_eq!(s.config.tools.selected, vec!["livesplit".to_string()]);
}

#[test]
fn app_toggle_removes_every_copy() {
    let mut s = fresh();
    s.config.tools.selected = vec!["a".into(), "b".into(), "a".into()];
    s.update(AppEvent::ToggleTool("a".into()));
    assert_eq!(s.config.tools.selected, vec!["b".to_string()]);
}

#[test]
fn app_setup_asks_to_probe_the_prefix() {
    let mut s = fresh();
    s.update(AppEvent::ManifestLoaded(Ok(Manifest::builtin())));
    match s.update(AppEvent::Setup) {
        AppAction::ProbeSetup { prefix, tools } => {
            assert_eq!(prefix, PFX);
            assert_eq!(tools.len(), 5);
        }
        other => panic!("unexpected action {other:?}"),
    }
}

#[test]
fn app_setup_with_missing_prefix_is_refused() {
    let mut s = fresh();
    let act = s.update(AppEvent::SetupProbed { prefix: PFX.into(), prefix_exists: false, candidates: vec![] });
    assert!(matches!(act, AppAction::Nothing));
    assert_eq!(s.log_messages, vec!["Game prefix does not exist. Please configure it first.".to_string()]);
    assert!(!s.setup_active);
}

#[test]
fn app_setup_without_candidates_reports_none_selected() {
    let mut s = fresh();
    s.config.tools.selected = vec!["livesplit".into()];
    let candidates = vec![(tool("LiveSplit", "livesplit"), true), (tool("Practice Tool", "practice-tool"), false)];
    let act = s.update(AppEvent::SetupProbed { prefix: "/p".into(), prefix_exists: true, candidates });
    assert!(matches!(act, AppAction::Nothing));
    assert_eq!(s.log_messages, vec!["No tools selected for setup.".to_string()]);
}

#[test]
fn app_setup_runs_selected_uninstalled_tools() {
    let mut s = fresh();
    s.config.tools.selected = vec!["livesplit".into(), "practice-tool".into()];
    s.setup_cancelled = true;
    let candidates = vec![
        (tool("LiveSplit", "livesplit"), false),
        (tool("Save Organizer", "save-organizer"), false),
        (tool("Practice Tool", "practice-tool"), true),
    ];
    match s.update(AppEvent::SetupProbed { prefix: "/p".into(), prefix_exists: true, candidates }) {
        AppAction::RunSetup { tools, prefix } => {
            assert_eq!(prefix, "/p");
            assert_eq!(tools.len(), 1);
            assert_eq!(tools[0].slug, "livesplit");
        }
        other => panic!("unexpected action {other:?}"),
    }
    assert!(s.setup_active);
    assert!(!s.setup_cancelled);
    assert_eq!(s.log_messages, vec!["Setting up 1 tool(s)...".to_string()]);
}

#[test]
fn app_setup_done_reports_each_result() {
    let mut s = fresh();
    s.setup_active = true;
    let results = vec![
        ToolSetupResult { slug: "livesplit".into(), name: "LiveSplit".into(), success: true, error: None },
        ToolSetupResult {
            slug: "practice-tool".into(),
            name: "Practice Tool".into(),
            success: false,
            error: Some("HTTP 404".into()),
        },
        ToolSetupResult { slug: "x".into(), name: "X".into(), success: false, error: None },
    ];
    s.update(AppEvent::SetupDone(results));
    assert!(!s.setup_active);
    assert_eq!(s.setup_progress.len(), 3);
    assert_eq!(
        s.log_messages,
        vec![
            "✓ LiveSplit".to_string(),
            "✗ Practice Tool: HTTP 404".to_string(),
            "✗ X: unknown".to_string(),
            "Setup complete: 1/3 succeeded.".to_string(),
        ]
    );
    assert!(s.log_visible);
}

#[test]
fn app_cancel_setup_blocks_directory_choosers() {
    let mut s = fresh();
    s.update(AppEvent::CancelSetup);
    assert!(s.setup_cancelled);
    assert_eq!(s.log_messages, vec!["Setup cancelled.".to_string()]);
    assert!(!s.log_visible);
    match s.update(AppEvent::ProtonPathSelect) {
        AppAction::Report(m) => assert_eq!(m, "Cancelled"),
        other => panic!("unexpected action {other:?}"),
    }
}

#[test]
fn app_directory_choosers_have_titles() {
    let mut s = fresh();
    match s.update(AppEvent::ProtonPathSelect) {
        AppAction::ChooseDirectory { title, target } => {
            assert_eq!(title, "Select Proton Installation");
            assert_eq!(target, DirTarget::Proton);
        }
        other => panic!("unexpected action {other:?}"),
    }
    match s.update(AppEvent::GamePrefixSelect) {
        AppAction::ChooseDirectory { title, target } => {
            assert_eq!(title, "Select Sekiro Game Prefix");
            assert_eq!(target, DirTarget::GamePrefix);
        }
        other => panic!("unexpected action {other:?}"),
    }
}

#[test]
fn app_launch_without_manifest_reports_error() {
    let mut s = fresh();
    match s.update(AppEvent::Launch) {
        AppAction::Report(m) => assert_eq!(m, "Launch error: Missing manifest or game prefix configuration"),
        other => panic!("unexpected action {other:?}"),
    }
    assert!(s.game_launched);
    match s.update(AppEvent::TrayLaunchAll) {
        AppAction::Report(m) => assert_eq!(m, "Tray launch all error: Missing manifest or game prefix"),
        other => panic!("unexpected action {other:?}"),
    }
}

#[test]
fn app_launch_takes_selected_tools() {
    let mut s = fresh();
    s.update(AppEvent::ManifestLoaded(Ok(Manifest::builtin())));
    s.game_prefix_path = Some("/pfx".into());
    s.config.proton.path = Some("/proton".into());
    s.config.tools.selected = vec!["sekirotool".into(), "livesplit".into()];
    match s.update(AppEvent::LaunchBypass) {
        AppAction::Launch { mode, tools, prefix, proton_path } => {
            assert_eq!(mode, LaunchMode::Bypass);
            let slugs: Vec<&str> = tools.iter().map(|t| t.slug.as_str()).collect();
            assert_eq!(slugs, vec!["livesplit", "sekirotool"]);
            assert_eq!(prefix, "/pfx");
            assert_eq!(proton_path.as_deref(), Some("/proton"));
        }
        other => panic!("unexpected action {other:?}"),
    }
    match s.update(AppEvent::TrayLaunchGame) {
        AppAction::LaunchGame { prefix, proton_path } => {
            assert_eq!(prefix.as_deref(), Some("/pfx"));
            assert_eq!(proton_path.as_deref(), Some("/proton"));
        }
        other => panic!("unexpected action {other:?}"),
    }
}

#[test]
fn app_window_requests_follow_the_window() {
    let mut s = fresh();
    assert!(matches!(s.update(AppEvent::CloseRequested), AppAction::Nothing));
    assert!(matches!(s.update(AppEvent::TrayShowRequested), AppAction::Nothing));
    assert!(matches!(s.update(AppEvent::TrayQuitRequested), AppAction::Exit));
    s.update(AppEvent::WindowOpened);
    assert!(matches!(s.update(AppEvent::CloseRequested), AppAction::HideWindow));
    assert!(matches!(s.update(AppEvent::TrayShowRequested), AppAction::ShowWindow));
    assert!(matches!(s.update(AppEvent::TrayQuitRequested), AppAction::CloseWindow));
}

#[test]
fn app_proton_download_success_saves_path() {
    let mut s = fresh();
    s.update(AppEvent::ProtonDownload);
    assert!(s.proton_setup_active);
    assert_eq!(s.proton_setup_progress, Some(("Starting download...".to_string(), 0)));
    let act = s.update(AppEvent::ProtonDownloadDone {
        result: Ok("/c/GE-Proton10-26".into()),
        proton_exists: true,
        protontricks_exists: false,
    });
    assert!(matches!(act, AppAction::SaveConfig));
    assert!(!s.proton_setup_active);
    assert_eq!(s.proton_setup_progress, None);
    assert_eq!(s.proton_path.as_deref(), Some("/c/GE-Proton10-26"));
    assert_eq!(s.config.proton, ProtonConfig { path: Some("/c/GE-Proton10-26".into()) });
    assert_eq!(s.log_messages, vec!["Proton has been set up successfully!".to_string()]);
}

#[test]
fn app_proton_download_failures_are_logged() {
    let mut s = fresh();
    let act = s.update(AppEvent::ProtonDownloadDone {
        result: Ok("/c/x".into()),
        proton_exists: false,
        protontricks_exists: false,
    });
    assert!(matches!(act, AppAction::Nothing));
    assert_eq!(s.proton_path, None);
    s.update(AppEvent::ProtonDownloadDone { result: Err("boom".into()), proton_exists: false, protontricks_exists: false });
    assert_eq!(
        s.log_messages,
        vec![
            "Proton download succeeded but verification failed: Invalid Proton installation at \"/c/x\": missing proton binary"
                .to_string(),
            "Proton download failed: boom".to_string(),
        ]
    );
}

#[test]
fn app_proton_path_chosen_checks_installation() {
    let mut s = fresh();
    s.proton_setup_active = true;
    s.update(AppEvent::ProtonPathChosen { path: "/bad".into(), proton_exists: false, protontricks_exists: false });
    assert!(s.proton_setup_active);
    assert_eq!(
        s.log_messages,
        vec!["Invalid Proton installation: Invalid Proton installation at \"/bad\": missing proton binary".to_string()]
    );
    let act = s.update(AppEvent::ProtonPathChosen { path: "/good".into(), proton_exists: false, protontricks_exists: true });
    assert!(matches!(act, AppAction::SaveConfig));
    assert!(!s.proton_setup_active);
    assert_eq!(s.proton_path.as_deref(), Some("/good"));
    assert_eq!(s.log_messages.last().map(|m| m.as_str()), Some("Proton path set successfully!"));
}

#[test]
fn app_proton_path_selected_is_saved() {
    let mut s = fresh();
    let act = s.update(AppEvent::ProtonPathSelected("/sel".into()));
    assert!(matches!(act, AppAction::SaveConfig));
    assert_eq!(s.proton_path.as_deref(), Some("/sel"));
    assert_eq!(s.config.proton.path.as_deref(), Some("/sel"));
}

#[test]
fn app_game_prefix_chosen_needs_directory() {
    let mut s = fresh();
    s.update(AppEvent::GamePrefixChosen { path: "/file".into(), is_dir: false });
    assert_eq!(s.log_messages, vec!["Selected path is not a directory.".to_string()]);
    let act = s.update(AppEvent::GamePrefixChosen { path: "/pfx".into(), is_dir: true });
    assert!(matches!(act, AppAction::SaveConfig));
    assert_eq!(s.game_prefix_path.as_deref(), Some("/pfx"));
    assert_eq!(s.config.game_prefix.path.as_deref(), Some("/pfx"));
    assert_eq!(s.log_messages.last().map(|m| m.as_str()), Some("Game prefix set successfully!"));
}

#[test]
fn app_directory_openers_use_the_prefix_and_home() {
    let mut s = fresh();
    match s.update(AppEvent::ToolsDirectory) {
        AppAction::OpenToolsDirectory { tools_dir } => assert_eq!(tools_dir, format!("{PFX}drive_c/tools")),
        other => panic!("unexpected action {other:?}"),
    }
    match s.update(AppEvent::ProtonBrowse) {
        AppAction::OpenProtonDirectory { dir } => assert_eq!(dir, "/home/u/.steam/steam/compatibilitytools.d"),
        other => panic!("unexpected action {other:?}"),
    }
    s.update(AppEvent::ToolsDirectoryDone(Err("no xdg-open".into())));
    s.update(AppEvent::ProtonBrowseDone(Err("denied".into())));
    s.update(AppEvent::ProtonBrowseDone(Ok(())));
    assert_eq!(
        s.log_messages,
        vec!["Failed to open tools directory: no xdg-open".to_string(), "Failed to open file explorer: denied".to_string()]
    );
}

#[test]
fn app_view_shows_proton_setup_progress() {
    let mut s = fresh();
    s.proton_setup_active = true;
    match s.view(&vec![]) {
        Screen::ProtonSetup(p) => {
            assert_eq!(p.message, "Ready to install");
            assert!(!p.downloading);
            assert_eq!(p.bar_portion, 1);
        }
        other => panic!("unexpected screen {other:?}"),
    }
    s.update(AppEvent::ProtonDownloadProgress("Downloading GE-Proton...".into(), 505));
    match s.view(&vec![]) {
        Screen::ProtonSetup(p) => {
            assert_eq!(p.message, "Downloading GE-Proton...");
            assert!(p.downloading);
            assert_eq!(p.permille, 505);
            assert_eq!(p.bar_portion, 50);
        }
        other => panic!("unexpected screen {other:?}"),
    }
}

#[test]
fn app_view_main_screen() {
    let mut s = fresh();
    match s.view(&vec![]) {
        Screen::Main(m) => {
            assert!(matches!(m.tool_area, ToolArea::Loading));
            assert!(!m.relaunch);
            assert!(m.log.is_none());
            assert_eq!(m.prefix_text, PFX);
        }
        other => panic!("unexpected screen {other:?}"),
    }
    s.update(AppEvent::ManifestLoaded(Ok(Manifest::builtin())));
    s.config.tools.selected = vec!["practice-tool".into()];
    s.config.tools.visible = vec!["livesplit".into(), "practice-tool".into()];
    s.update(AppEvent::LogPush("note".into()));
    s.update(AppEvent::Launch);
    let statuses = vec![("livesplit".to_string(), ToolStatus::Installed)];
    match s.view(&statuses) {
        Screen::Main(m) => {
            assert!(m.relaunch);
            assert_eq!(m.log.as_ref().map(|l| l.len()), Some(1));
            match m.tool_area {
                ToolArea::Tools(tl) => {
                    assert_eq!(tl.footer, "1 selected");
                    assert_eq!(tl.cards.len(), 2);
                    assert_eq!(tl.cards[0].slug, "livesplit");
                    assert_eq!(tl.cards[0].status, ToolStatus::Installed);
                    assert!(!tl.cards[0].selected);
                    assert_eq!(tl.cards[1].slug, "practice-tool");
                    assert_eq!(tl.cards[1].status, ToolStatus::NotInstalled);
                    assert!(tl.cards[1].selected);
                    assert_eq!(tl.cards[1].mark(), "✓");
                }
                other => panic!("unexpected tool area {other:?}"),
            }
        }
        other => panic!("unexpected screen {other:?}"),
    }
}

#[test]
fn app_view_during_setup_shows_progress() {
    let mut s = fresh();
    s.setup_active = true;
    s.game_launched = true;
    s.setup_progress = vec![
        ToolSetupResult { slug: "a".into(), name: "A".into(), success: true, error: None },
        ToolSetupResult { slug: "b".into(), name: "B".into(), success: false, error: None },
        ToolSetupResult { slug: "c".into(), name: "C".into(), success: false, error: Some("e".into()) },
    ];
    match s.view(&vec![]) {
        Screen::Main(m) => {
            assert!(!m.relaunch);
            match m.tool_area {
                ToolArea::SetupProgress(lines) => {
                    assert_eq!(lines, vec!["✓ A".to_string(), "✗ B".to_string(), "✗ C: e".to_string()])
                }
                other => panic!("unexpected tool area {other:?}"),
            }
        }
        other => panic!("unexpected screen {other:?}"),
    }
}

#[test]
fn app_launched_stays_launched() {
    let mut s = fresh();
    s.update(AppEvent::TrayLaunchGame);
    assert!(s.game_launched);
    for ev in [AppEvent::LogToggle, AppEvent::CancelSetup, AppEvent::SetupDone(vec![]), AppEvent::ConfigLoaded(Ok(Config::default()))] {
        s.update(ev);
        assert!(s.game_launched);
    }
    s.proton_setup_active = false;
    match s.view(&vec![]) {
        Screen::Main(m) => assert!(m.relaunch),
        other => panic!("unexpected screen {other:?}"),
    }
}
