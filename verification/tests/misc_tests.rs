use sekiro_launcher::app::{AppEvent, LaunchMode};
use sekiro_launcher::config::{Config, ToolsConfig};
use sekiro_launcher::manifest::{Manifest, ToolEntry};
use sekiro_launcher::paths::{extension, file_name, file_stem, join, join_all, parent};
use sekiro_launcher::report::{
    download_progress, extract_error, http_error, launch_message, launch_report, tray_game_message, ExtractFailure,
    InstallStep,
};
use sekiro_launcher::selection::{count_selected, selected_tools, setup_report_lines, toggle_slug, tools_to_install};
use sekiro_launcher::setup::{needs_dotnet, SetupAction, SetupRun};
use sekiro_launcher::text::{decimal_string, parse_u32, split_chars, trim_str};
use sekiro_launcher::toast::{show_toast, ToastLevel};
use sekiro_launcher::tools::ToolSetupResult;
use sekiro_launcher::tray::{load_icon, menu, to_argb, to_event, tray_id, tray_title, MenuAction, MenuEntry, TrayMessage};
use sekiro_launcher::ui::{lookup_status, statuses_of, tool_list, ToolStatus};
use sekiro_launcher::wine::{listing_sortable, ProtonDirEntry, WineAnswer, WineQuery, WineSearch, WineStage};

fn tool(name: &str, slug: &str) -> ToolEntry {
    ToolEntry { name: name.into(), slug: slug.into(), github_repo: String::new(), description: String::new() }
}

#[test]
fn toast_level_derives_clone_copy_partial_eq() {
    let a = ToastLevel::Info;
    let b = a;
    assert_eq!(a, b);
    assert!(ToastLevel::Info != ToastLevel::Error);
}

#[test]
fn toast_lines_carry_the_level() {
    assert_eq!(show_toast("Saved", ToastLevel::Success), "[toast] OK: Saved");
    assert_eq!(show_toast("Hello", ToastLevel::Info), "[toast] INFO: Hello");
    assert_eq!(show_toast("Broke", ToastLevel::Error), "[toast] ERROR: Broke");
}

#[test]
fn tray_menu_and_events() {
    assert_eq!(tray_id(), "sekiro-launcher");
    assert_eq!(tray_title(), "Sekiro Launcher");
    let m = menu();
    assert_eq!(m.len(), 5);
    match &m[0] {
        MenuEntry::Item { label, action } => {
            assert_eq!(label, "Show Launcher");
            assert_eq!(*action, MenuAction::Send(TrayMessage::Show));
        }
        other => panic!("unexpected {other:?}"),
    }
    assert!(matches!(m[3], MenuEntry::Separator));
    match &m[4] {
        MenuEntry::Item { label, action } => {
            assert_eq!(label, "Quit");
            assert_eq!(*action, MenuAction::ExitProcess);
        }
        other => panic!("unexpected {other:?}"),
    }
    assert!(matches!(to_event(TrayMessage::LaunchAll), AppEvent::TrayLaunchAll));
    assert!(matches!(to_event(TrayMessage::Quit), AppEvent::TrayQuitRequested));
}

#[test]
fn tray_icon_pixels_become_argb() {
    assert_eq!(to_argb(vec![1, 2, 3, 4, 5, 6, 7, 8, 9]), vec![4, 1, 2, 3, 8, 5, 6, 7, 9]);
    assert!(load_icon(b"not an image").is_none());
    let img = image::RgbaImage::from_raw(2, 1, vec![10, 20, 30, 40, 50, 60, 70, 80]).unwrap();
    let mut png = std::io::Cursor::new(Vec::new());
    img.write_to(&mut png, image::ImageFormat::Png).unwrap();
    let icon = load_icon(png.get_ref()).unwrap();
    assert_eq!((icon.width, icon.height), (2, 1));
    assert_eq!(icon.data, vec![40, 10, 20, 30, 80, 50, 60, 70]);
}

#[test]
fn launch_reports() {
    let results = vec![("A.exe".to_string(), Ok(())), ("B.exe".to_string(), Err("no wine".to_string()))];
    assert_eq!(
        launch_report(&LaunchMode::Normal, &results),
        "Sekiro launched successfully\n✓ Tool 'A.exe' launched\n✗ Tool 'B.exe' failed: no wine"
    );
    assert_eq!(launch_report(&LaunchMode::Bypass, &vec![]), "Sekiro launched (bypass mode)");
    assert_eq!(launch_message(&LaunchMode::TrayAll, &Ok(vec![])), "Sekiro launched from tray");
    assert_eq!(
        launch_message(&LaunchMode::TrayAll, &Err("steam gone".into())),
        "Tray launch all error: Failed to launch Sekiro: steam gone"
    );
    assert_eq!(
        launch_message(&LaunchMode::Normal, &Err("x".into())),
        "Launch error: Failed to launch Sekiro: x"
    );
    assert_eq!(tray_game_message(&Ok(())), "Game launched from tray.");
    assert_eq!(tray_game_message(&Err("e".into())), "Tray launch error: Failed to launch Sekiro: e");
}

#[test]
fn proton_install_steps() {
    let mut step = InstallStep::first();
    let mut seen = Vec::new();
    while step != InstallStep::Done {
        seen.push(step.progress());
        step = step.next();
    }
    assert_eq!(seen.len(), 7);
    assert_eq!(seen[0], ("Preparing installation...".to_string(), 50));
    assert_eq!(seen[2], ("Downloading GE-Proton...".to_string(), 150));
    assert_eq!(seen[6], ("Extracting GE-Proton...".to_string(), 900));
    assert_eq!(InstallStep::Done.progress(), ("Installation complete!".to_string(), 1000));
    assert_eq!(InstallStep::VerifyChecksum.error("bad"), "Checksum verification failed: bad");
    assert_eq!(InstallStep::Prepare.error("ro"), "Failed to create temp directory: ro");
    assert_eq!(extract_error(&ExtractFailure::ReadEntry("eof".into())), "Failed to read archive entry: eof");
    assert_eq!(download_progress(50, 100), 400);
    assert_eq!(download_progress(100, 100), 650);
    assert_eq!(download_progress(7, 0), 150);
    assert_eq!(http_error("Download failed", 404), "Download failed: HTTP 404");
}

#[test]
fn selection_helpers() {
    let tools = vec![tool("A", "a"), tool("B", "b"), tool("C", "c")];
    let sel = vec!["c".to_string(), "a".to_string()];
    let picked: Vec<String> = selected_tools(&tools, &sel).into_iter().map(|t| t.slug).collect();
    assert_eq!(picked, vec!["a".to_string(), "c".to_string()]);
    assert_eq!(count_selected(&tools, &sel), 2);
    let cands = vec![(tool("A", "a"), true), (tool("B", "b"), false), (tool("C", "c"), false)];
    let pending: Vec<String> = tools_to_install(&cands, &sel).into_iter().map(|t| t.slug).collect();
    assert_eq!(pending, vec!["c".to_string()]);
    let mut s = vec!["x".to_string()];
    toggle_slug(&mut s, "y".to_string());
    toggle_slug(&mut s, "x".to_string());
    assert_eq!(s, vec!["y".to_string()]);
    let rs = vec![ToolSetupResult { slug: "a".into(), name: "A".into(), success: true, error: None }];
    assert_eq!(setup_report_lines(&rs), vec!["✓ A".to_string(), "Setup complete: 1/1 succeeded.".to_string()]);
    assert_eq!(setup_report_lines(&vec![]), vec!["Setup complete: 0/0 succeeded.".to_string()]);
}

#[test]
fn tool_list_shows_every_tool_without_visible_list() {
    let m = Manifest::builtin();
    let config = Config { tools: ToolsConfig { selected: vec!["livesplit".into()], visible: vec![] }, ..Config::default() };
    let statuses = vec![("sekirotool".to_string(), ToolStatus::Broken), ("sekirotool".to_string(), ToolStatus::Installed)];
    let tl = tool_list(&m.tools, &config, 1, &statuses);
    assert_eq!(tl.cards.len(), 5);
    assert_eq!(tl.footer, "1 selected");
    assert!(tl.cards[0].selected);
    assert_eq!(tl.cards[0].mark(), "✓");
    assert_eq!(tl.cards[1].mark(), "");
    assert_eq!(tl.cards[4].status, ToolStatus::Broken);
    assert_eq!(lookup_status(&statuses, "none"), ToolStatus::NotInstalled);
    assert_eq!(ToolStatus::Installed.label(), "Active");
    assert_eq!(ToolStatus::NotInstalled.label(), "Not installed");
    assert_eq!(ToolStatus::Installing.label(), "Installing");
}

#[test]
fn setup_run_retries_then_records() {
    let mut run = SetupRun::new(vec![tool("A", "a"), tool("B", "b")], true);
    assert!(matches!(run.next(false), SetupAction::Poll));
    assert!(matches!(run.next(false), SetupAction::Poll));
    assert!(matches!(run.next(false), SetupAction::Attempt { index: 0, delay_secs: 0 }));
    run.record(Err("e1".into()));
    assert!(matches!(run.next(false), SetupAction::Attempt { index: 0, delay_secs: 1 }));
    run.record(Err("e2".into()));
    assert!(matches!(run.next(false), SetupAction::Attempt { index: 0, delay_secs: 2 }));
    run.record(Err("e3".into()));
    assert!(matches!(run.next(false), SetupAction::Poll));
    assert!(matches!(run.next(false), SetupAction::Attempt { index: 1, delay_secs: 0 }));
    run.record(Ok(()));
    assert!(matches!(run.next(false), SetupAction::Finished));
    assert!(run.is_finished());
    let rs = run.results_vec();
    assert_eq!(rs.len(), 2);
    assert_eq!(rs[0].error.as_deref(), Some("e3"));
    assert!(rs[1].success);
}

#[test]
fn setup_run_results_match_their_errors() {
    let mut run = SetupRun::new(vec![tool("A", "a"), tool("B", "b")], true);
    assert!(matches!(run.next(false), SetupAction::Poll));
    assert!(matches!(run.next(false), SetupAction::Poll));
    assert!(matches!(run.next(false), SetupAction::Attempt { index: 0, delay_secs: 0 }));
    run.record(Err("first".into()));
    assert!(matches!(run.next(false), SetupAction::Attempt { index: 0, delay_secs: 1 }));
    run.record(Ok(()));
    assert!(matches!(run.next(false), SetupAction::Poll));
    assert!(matches!(run.next(false), SetupAction::Attempt { index: 1, delay_secs: 0 }));
    run.record(Err("x".into()));
    run.next(false);
    run.record(Err("y".into()));
    run.next(false);
    run.record(Err("z".into()));
    assert!(matches!(run.next(false), SetupAction::Finished));
    let rs = run.results_vec();
    assert_eq!(rs.len(), 2);
    assert_eq!((rs[0].slug.as_str(), rs[0].name.as_str()), ("a", "A"));
    assert_eq!((rs[1].slug.as_str(), rs[1].name.as_str()), ("b", "B"));
    assert!(rs[0].success && rs[0].error.is_none());
    assert!(!rs[1].success && rs[1].error.as_deref() == Some("z"));
}

#[test]
fn setup_run_installs_dotnet_before_any_tool() {
    let mut run = SetupRun::new(vec![tool("A", "a")], false);
    assert!(matches!(run.next(false), SetupAction::InstallDotnet));
    run.record_dotnet(&Err("winetricks failed".into()));
    assert!(run.results_vec().is_empty());
    assert!(matches!(run.next(false), SetupAction::Poll));
    assert!(matches!(run.next(false), SetupAction::Attempt { index: 0, delay_secs: 0 }));
    run.record(Ok(()));
    assert!(matches!(run.next(false), SetupAction::Finished));
    let rs = run.results_vec();
    assert_eq!(rs.len(), 1);
    assert!(rs[0].success && rs[0].error.is_none());
    let mut run = SetupRun::new(vec![tool("A", "a")], false);
    assert!(matches!(run.next(true), SetupAction::Poll));
    assert!(matches!(run.next(true), SetupAction::Finished));
}

#[test]
fn setup_run_stops_when_cancelled() {
    let mut run = SetupRun::new(vec![tool("A", "a"), tool("B", "b"), tool("C", "c")], true);
    assert!(matches!(run.next(false), SetupAction::Poll));
    assert!(matches!(run.next(false), SetupAction::Poll));
    assert!(matches!(run.next(true), SetupAction::Poll));
    assert!(matches!(run.next(true), SetupAction::Finished));
    let rs = run.results_vec();
    assert_eq!(rs.len(), 2);
    assert!(rs.iter().all(|r| !r.success && r.error.as_deref() == Some("Cancelled")));
    assert!(needs_dotnet(false, false));
    assert!(!needs_dotnet(true, false));
    assert!(!needs_dotnet(false, true));
}

#[test]
fn wine_search_prefers_the_games_proton() {
    let mut s = WineSearch::new(Some("/c/GE-Proton10-26".into()), None);
    match s.step(WineAnswer::Start) {
        WineQuery::Exists(p) => assert_eq!(p, "/c/GE-Proton10-26/files/bin/wine"),
        other => panic!("unexpected {other:?}"),
    }
    match s.step(WineAnswer::Exists(true)) {
        WineQuery::Done(r) => assert_eq!(r.as_deref(), Some("/c/GE-Proton10-26/files/bin/wine")),
        other => panic!("unexpected {other:?}"),
    }
    assert_eq!(s.stage(), WineStage::Over);
}

fn entry(parent: &str, name: &str, has_wine: bool) -> ProtonDirEntry {
    ProtonDirEntry { parent: parent.into(), name: name.into(), has_wine }
}

#[test]
fn wine_search_confirms_the_newest_steam_proton() {
    let mut s = WineSearch::new(None, None);
    assert!(matches!(s.step(WineAnswer::Start), WineQuery::ReadEnv));
    assert!(matches!(s.step(WineAnswer::Env(None)), WineQuery::ReadHome));
    assert!(matches!(s.step(WineAnswer::Home(Some("/h".into()))), WineQuery::ListDirs(_)));
    assert!(matches!(s.step(WineAnswer::Dirs(None)), WineQuery::ListDirs(_)));
    for _ in 0..4 {
        assert!(matches!(s.step(WineAnswer::Dirs(Some(vec![]))), WineQuery::ListDirs(_) | WineQuery::SteamProton));
    }
    assert_eq!(s.stage(), WineStage::Steam);
    let common = "/h/.steam/steam/steamapps/common";
    let entries = vec![
        entry(common, "Proton-8.0", true),
        entry(common, "Proton-10.0", false),
        entry(common, "Proton-9.0", true),
        entry(common, "Sekiro", true),
    ];
    match s.step(WineAnswer::SteamProton(entries)) {
        WineQuery::Exists(p) => assert_eq!(p, "/h/.steam/steam/steamapps/common/Proton-9.0/files/bin/wine"),
        other => panic!("unexpected {other:?}"),
    }
    match s.step(WineAnswer::Exists(false)) {
        WineQuery::Exists(p) => assert_eq!(p, "/h/.steam/steam/steamapps/common/Proton-9.0/dist/bin/wine"),
        other => panic!("unexpected {other:?}"),
    }
    match s.step(WineAnswer::Exists(true)) {
        WineQuery::Done(r) => assert_eq!(r.as_deref(), Some("/h/.steam/steam/steamapps/common/Proton-9.0/dist/bin/wine")),
        other => panic!("unexpected {other:?}"),
    }
}

#[test]
fn wine_search_without_steam_proton_finds_nothing() {
    let mut s = WineSearch::new(None, None);
    s.step(WineAnswer::Start);
    s.step(WineAnswer::Env(None));
    s.step(WineAnswer::Home(Some("/h".into())));
    s.step(WineAnswer::Dirs(None));
    for _ in 0..4 {
        s.step(WineAnswer::Dirs(None));
    }
    assert_eq!(s.stage(), WineStage::Steam);
    match s.step(WineAnswer::SteamProton(vec![entry("/c", "Proton-9.0", false)])) {
        WineQuery::Done(r) => assert_eq!(r, None),
        other => panic!("unexpected {other:?}"),
    }
}

#[test]
fn wine_search_settles_on_a_confirmed_bin_wine() {
    let mut s = WineSearch::new(None, Some("/opt/GE-Proton9-4".into()));
    match s.step(WineAnswer::Start) {
        WineQuery::Expand(p) => assert_eq!(p, "/opt/GE-Proton9-4"),
        other => panic!("unexpected {other:?}"),
    }
    match s.step(WineAnswer::Expanded(Some("/opt/GE-Proton9-4".into()))) {
        WineQuery::Exists(p) => assert_eq!(p, "/opt/GE-Proton9-4/files/bin/wine"),
        other => panic!("unexpected {other:?}"),
    }
    match s.step(WineAnswer::Exists(true)) {
        WineQuery::Done(r) => {
            let w = r.expect("a wine binary");
            assert_eq!(file_name(&w), Some("wine".to_string()));
            assert_eq!(file_name(&parent(&w).unwrap()), Some("bin".to_string()));
        },
        other => panic!("unexpected {other:?}"),
    }
}

#[test]
fn wine_search_walks_the_fallbacks() {
    let mut s = WineSearch::new(None, None);
    assert!(matches!(s.step(WineAnswer::Start), WineQuery::ReadEnv));
    assert!(matches!(s.step(WineAnswer::Env(None)), WineQuery::ReadHome));
    match s.step(WineAnswer::Home(Some("/h".into()))) {
        WineQuery::ListDirs(d) => assert_eq!(d, "/h/.cache/protontricks/proton"),
        other => panic!("unexpected {other:?}"),
    }
    let listing = Some(vec!["GE-Proton9-1".to_string(), "GE-Proton10-2".to_string(), "other".to_string()]);
    assert!(listing_sortable(&listing));
    match s.step(WineAnswer::Dirs(listing)) {
        WineQuery::Exists(p) => assert_eq!(p, "/h/.cache/protontricks/proton/GE-Proton10-2/files/bin/wine"),
        other => panic!("unexpected {other:?}"),
    }
    match s.step(WineAnswer::Exists(false)) {
        WineQuery::ListDirs(d) => assert_eq!(d, "/h/.local/share/Steam/compatibilitytools.d"),
        other => panic!("unexpected {other:?}"),
    }
    assert!(!listing_sortable(&Some(vec!["GE-Proton9".to_string(), "GE-Proton8-1".to_string()])));
    assert!(listing_sortable(&None));
}

#[test]
fn paths_follow_pathbuf_rules() {
    assert_eq!(join("/a/", "b"), "/a/b");
    assert_eq!(join("/a", "/abs"), "/abs");
    assert_eq!(join_all("/p", &["drive_c", "tools"]), "/p/drive_c/tools");
    assert_eq!(file_name("/a/b.tar.gz"), Some("b.tar.gz".to_string()));
    assert_eq!(file_name("/"), None);
    assert_eq!(parent("/a/b"), Some("/a".to_string()));
    assert_eq!(parent("/"), None);
    assert_eq!(extension("/a/b.tar.gz"), Some("gz".to_string()));
    assert_eq!(file_stem("/a/b.tar.gz"), Some("b.tar".to_string()));
    assert_eq!(extension("/a/.hidden"), None);
}

#[test]
fn paths_skip_trailing_dot_components() {
    assert_eq!(file_name("foo/."), Some("foo".to_string()));
    assert_eq!(parent("foo/."), Some("".to_string()));
    assert_eq!(parent("a/./b"), Some("a".to_string()));
    assert_eq!(file_name("/x/drive_c/"), Some("drive_c".to_string()));
    assert_eq!(parent("/x/drive_c/."), Some("/x".to_string()));
    assert_eq!(file_name("."), None);
}

#[test]
fn text_helpers() {
    assert_eq!(trim_str("  a b \n"), "a b");
    assert_eq!(decimal_string(0), "0");
    assert_eq!(decimal_string(1234567), "1234567");
    assert_eq!(parse_u32(&"+42".chars().collect()), Some(42));
    assert_eq!(parse_u32(&"".chars().collect()), None);
    let parts: Vec<String> = split_chars(&"a--b".chars().collect(), '-').into_iter().map(|p| p.into_iter().collect()).collect();
    assert_eq!(parts, vec!["a".to_string(), "".to_string(), "b".to_string()]);
}

#[test]
fn statuses_follow_the_tools() {
    let tools = vec![tool("A", "a"), tool("B", "b"), tool("A again", "a")];
    let st = statuses_of(&tools, &vec![true, false, true]);
    assert_eq!(
        st,
        vec![
            ("a".to_string(), ToolStatus::Installed),
            ("b".to_string(), ToolStatus::NotInstalled),
            ("a".to_string(), ToolStatus::Installed)
        ]
    );
    assert_eq!(lookup_status(&st, "a"), ToolStatus::Installed);
    assert_eq!(lookup_status(&st, "b"), ToolStatus::NotInstalled);
    assert_eq!(lookup_status(&st, "zzz"), ToolStatus::NotInstalled);
}
