use sekiro_launcher::launch::{
    app_manifest_candidates, choose_game_exe, game_dir_candidates, pick_game_dir, cmdline_path, extract_proton_path, game_launchers, game_marker_files,
    game_wait_step, ge_version, install_names, is_ge_sortable, latest_ge_proton, latest_steam_proton, launch_tools,
    library_path_from_line, parse_manifest_install_dir, pgrep_found, pid_from, plan_bypass, push_unique,
    select_steam_library, steam_base_candidates, steam_client_path, steam_launch_error, steam_root_candidates,
    steam_version, tool_display_name, tool_launch_command, window_id_from, wine_binary_path, GameWait, GameWaitAction,
    GameWaitEvent, ToolLaunchAction,
};

#[test]
fn extract_proton_path_finds_ge_proton_script() {
    let cmdline = "/usr/bin/steam\0/home/u/.steam/compatibilitytools.d/GE-Proton10-26/proton\0waitforexitandrun\0sekiro.exe";
    assert_eq!(
        extract_proton_path(cmdline),
        Some("/home/u/.steam/compatibilitytools.d/GE-Proton10-26".to_string())
    );
    assert_eq!(extract_proton_path("/usr/bin/wine\0game.exe"), None);
    assert_eq!(extract_proton_path("/opt/Proton-9.0/proton\0x"), None);
}

#[test]
fn game_wait_follows_the_window_to_the_process() {
    let (s, a) = game_wait_step(GameWait::Idle, GameWaitEvent::Tick(3));
    assert_eq!(s, GameWait::Searching);
    assert!(matches!(a, GameWaitAction::Search));
    let (s, a) = game_wait_step(s, GameWaitEvent::SearchOutput(Some("  12345 \n678\n".into())));
    assert_eq!(s, GameWait::QueryingPid);
    match a {
        GameWaitAction::QueryPid(w) => assert_eq!(w, "12345"),
        other => panic!("unexpected {other:?}"),
    }
    let (s, a) = game_wait_step(s, GameWaitEvent::PidOutput(Some(" 4242\n".into())));
    assert_eq!(s, GameWait::ReadingCmdline(4242));
    match a {
        GameWaitAction::ReadCmdline(p) => assert_eq!(p, "/proc/4242/cmdline"),
        other => panic!("unexpected {other:?}"),
    }
    let (s, a) = game_wait_step(s, GameWaitEvent::Cmdline(Some("/x/GE-Proton9-1/proton\0run".into())));
    assert_eq!(s, GameWait::Idle);
    match a {
        GameWaitAction::Found(g) => {
            assert_eq!(g.pid, 4242);
            assert_eq!(g.proton_path.as_deref(), Some("/x/GE-Proton9-1"));
        }
        other => panic!("unexpected {other:?}"),
    }
}

#[test]
fn game_wait_times_out_and_sleeps() {
    let (_, a) = game_wait_step(GameWait::Idle, GameWaitEvent::Tick(30));
    assert!(matches!(a, GameWaitAction::TimedOut));
    let (s, a) = game_wait_step(GameWait::Searching, GameWaitEvent::SearchOutput(Some("\n".into())));
    assert_eq!(s, GameWait::Idle);
    assert!(matches!(a, GameWaitAction::Sleep));
    let (_, a) = game_wait_step(GameWait::QueryingPid, GameWaitEvent::PidOutput(Some("abc".into())));
    assert!(matches!(a, GameWaitAction::Sleep));
    let (_, a) = game_wait_step(GameWait::Searching, GameWaitEvent::SearchOutput(None));
    assert!(matches!(a, GameWaitAction::Sleep));
}

#[test]
fn window_and_pid_parsing() {
    assert_eq!(window_id_from("  99 \n100"), Some("99".to_string()));
    assert_eq!(window_id_from(""), None);
    assert_eq!(pid_from(" 17 \n"), Some(17));
    assert_eq!(pid_from("-3"), None);
    assert_eq!(pid_from("4294967296"), None);
    assert_eq!(cmdline_path(7), "/proc/7/cmdline");
}

#[test]
fn wine_binary_prefers_ge_layout() {
    assert_eq!(wine_binary_path("/p", true), "/p/files/bin/wine");
    assert_eq!(wine_binary_path("/p", false), "/p/dist/bin/wine");
}

#[test]
fn ge_versions_order_builds() {
    assert_eq!(ge_version("GE-Proton10-26"), Some((10, 26)));
    assert_eq!(ge_version("GE-Proton9-x"), Some((9, 0)));
    assert_eq!(ge_version("GE-Proton10"), None);
    assert_eq!(ge_version("Other"), Some((0, 0)));
    let names = vec!["GE-Proton9-20".to_string(), "GE-Proton10-3".to_string(), "GE-Proton10-26".to_string(), "GE-Proton10-4".to_string()];
    assert!(is_ge_sortable(&names));
    assert_eq!(latest_ge_proton(&names), Some(2));
    let equal = vec!["GE-Proton8-1".to_string(), "GE-Proton08-01".to_string()];
    assert_eq!(latest_ge_proton(&equal), Some(1));
    let bad = vec!["GE-Proton8-1".to_string(), "GE-Proton9".to_string()];
    assert!(!is_ge_sortable(&bad));
    assert!(is_ge_sortable(&vec!["GE-Proton9".to_string()]));
    assert_eq!(latest_ge_proton(&vec![]), None);
}

#[test]
fn steam_proton_versions() {
    assert_eq!(steam_version("Proton-9.0"), (9, 0));
    assert_eq!(steam_version("Proton-8"), (8, 0));
    assert_eq!(steam_version("Proton Experimental"), (0, 0));
    let names = vec!["Proton-8.0".to_string(), "Proton-9.0".to_string(), "Proton-7.5".to_string()];
    assert_eq!(latest_steam_proton(&names), Some(1));
}

#[test]
fn steam_locations_below_home() {
    assert_eq!(
        steam_root_candidates("/h"),
        vec!["/h/.local/share/Steam", "/h/.steam/steam", "/h/.steam/root", "/h/Steam"]
    );
    assert_eq!(
        steam_base_candidates("/h"),
        vec![
            "/h/.local/share/Steam",
            "/h/.steam/root",
            "/h/Steam",
            "/h/.var/app/com.valvesoftware.Steam/.steam/root"
        ]
    );
    assert_eq!(app_manifest_candidates("/h")[2], "/h/Steam/steamapps/appmanifest_814380.appmanifest");
}

#[test]
fn library_folders_lines() {
    assert_eq!(library_path_from_line("\t\"path\"\t\t\"/mnt/games/SteamLibrary\"\n"), Some("/mnt/games/SteamLibrary".to_string()));
    assert_eq!(library_path_from_line("\"label\"\t\t\"\""), None);
    assert_eq!(library_path_from_line("\"path\" \"/x\""), None);
    let mut roots = vec!["/a".to_string()];
    push_unique(&mut roots, "/a".to_string());
    push_unique(&mut roots, "/b".to_string());
    assert_eq!(roots, vec!["/a".to_string(), "/b".to_string()]);
}

#[test]
fn app_manifest_install_dir() {
    let content = "\"AppState\"\n{\n\t\"appid\"\t\t\"814380\"\n\t\"installdir\"\t\t\"Sekiro\"\n}\n";
    assert_eq!(parse_manifest_install_dir(content), Some("Sekiro".to_string()));
    assert_eq!(parse_manifest_install_dir("\"appid\" \"1\""), None);
    assert_eq!(
        install_names(Some("Sekiro".into())),
        vec!["Sekiro".to_string(), "Sekiro Sekiro Shadows Die Again".to_string()]
    );
    assert_eq!(
        install_names(Some("Custom".into())),
        vec!["Custom".to_string(), "Sekiro Sekiro Shadows Die Again".to_string(), "Sekiro".to_string()]
    );
    assert_eq!(install_names(None), vec!["Sekiro Sekiro Shadows Die Again".to_string(), "Sekiro".to_string()]);
    assert_eq!(
        game_marker_files("/g"),
        vec!["/g/check-steam_appid.txt", "/g/steam_appid.txt", "/g/sekiro.exe"]
    );
}

#[test]
fn steam_library_and_client_choice() {
    assert_eq!(select_steam_library(&vec![true, true], &vec![false, true]), Some(1));
    assert_eq!(select_steam_library(&vec![false, true], &vec![false, false]), Some(1));
    assert_eq!(select_steam_library(&vec![false, false], &vec![false, false]), None);
    assert_eq!(steam_client_path(Some("/h".into()), &vec![false, true, true, false]), "/h/.steam/steam");
    assert_eq!(steam_client_path(Some("/h".into()), &vec![false, false, false, false]), "/h/.local/share/Steam");
}

#[test]
fn game_executable_choice() {
    assert_eq!(game_launchers("/g"), ("/g/sekiro.sh".to_string(), "/g/sekiro.exe".to_string()));
    assert_eq!(choose_game_exe(Some("/g".into()), true, true), Ok("/g/sekiro.sh".to_string()));
    assert_eq!(choose_game_exe(Some("/g".into()), false, true), Ok("/g/sekiro.exe".to_string()));
    assert_eq!(
        choose_game_exe(Some("/g".into()), false, false),
        Err("Neither sekiro.sh nor sekiro.exe found in: /g".to_string())
    );
    assert_eq!(
        choose_game_exe(None, true, true),
        Err("Could not find Sekiro game directory. Make sure Sekiro is installed via Steam.".to_string())
    );
}

#[test]
fn bypass_command_runs_proton_directly() {
    let c = plan_bypass(
        "/g",
        "/g/sekiro.exe",
        Some("/c/GE-Proton10-26/files/bin/wine".into()),
        "/s/compatdata/814380/pfx",
        "/h/.local/share/Steam",
    )
    .unwrap();
    assert_eq!(c.program, "/c/GE-Proton10-26/proton");
    assert_eq!(c.args, vec!["run".to_string(), "/g/sekiro.exe".to_string()]);
    assert_eq!(c.current_dir.as_deref(), Some("/g"));
    assert_eq!(c.env[1], ("STEAM_COMPAT_DATA_PATH".to_string(), "/s/compatdata/814380".to_string()));
    assert_eq!(c.env[2].1, "/c/GE-Proton10-26");
    assert_eq!(c.env[4], ("SteamAppId".to_string(), "814380".to_string()));
    assert_eq!(
        plan_bypass("/g", "/g/x", None, "/p", "/s").err(),
        Some("Could not find GE-Proton wine binary".to_string())
    );
    assert_eq!(
        plan_bypass("/g", "/g/x", Some("wine".into()), "/p", "/s").err(),
        Some("Could not determine Proton directory".to_string())
    );
}

#[test]
fn tool_command_runs_wine_in_background() {
    let c = tool_launch_command(Some("/w/wine".into()), "/t/LiveSplit.exe", true, "/pfx").unwrap();
    assert_eq!(c.program, "sh");
    assert_eq!(c.args, vec!["-c".to_string(), "\"/w/wine\" \"/t/LiveSplit.exe\" &".to_string()]);
    assert_eq!(c.env, vec![("WINEPREFIX".to_string(), "/pfx".to_string())]);
    assert_eq!(
        tool_launch_command(Some("/w/wine".into()), "/t/x.exe", false, "/pfx").err(),
        Some("Tool binary not found: /t/x.exe".to_string())
    );
    assert_eq!(
        tool_launch_command(None, "/t/x.exe", true, "/pfx").err(),
        Some("Could not find GE-Proton wine binary".to_string())
    );
    assert_eq!(tool_display_name("/t/dir/LiveSplit.exe"), "LiveSplit.exe");
}

#[test]
fn process_checks_and_steam_errors() {
    assert!(pgrep_found("1234\n", true));
    assert!(!pgrep_found("  \n", true));
    assert!(!pgrep_found("1234", false));
    assert_eq!(steam_launch_error("boom"), "Failed to launch Sekiro via steam:// protocol: boom");
}

#[test]
fn tool_launches_skip_running_tools() {
    let (mut run, a) = launch_tools(vec!["/t/a/A.exe".to_string(), "/t/b/B.exe".to_string()]);
    match a {
        ToolLaunchAction::CheckRunning(n) => assert_eq!(n, "A.exe"),
        other => panic!("unexpected {other:?}"),
    }
    match run.on_running(true) {
        ToolLaunchAction::CheckRunning(n) => assert_eq!(n, "B.exe"),
        other => panic!("unexpected {other:?}"),
    }
    match run.on_running(false) {
        ToolLaunchAction::Launch(p) => assert_eq!(p, "/t/b/B.exe"),
        other => panic!("unexpected {other:?}"),
    }
    assert!(matches!(run.on_launched(Err("spawn failed".into())), ToolLaunchAction::Done));
    assert_eq!(
        run.into_results(),
        vec![("A.exe".to_string(), Ok(())), ("B.exe".to_string(), Err("spawn failed".to_string()))]
    );
    let (_, a) = launch_tools(vec![]);
    assert!(matches!(a, ToolLaunchAction::Done));
}

#[test]
fn game_dir_search_order() {
    let bases = vec!["/a".to_string(), "/b".to_string()];
    let names = vec!["Sekiro".to_string(), "Other".to_string()];
    let c = game_dir_candidates(&bases, &names);
    assert_eq!(
        c,
        vec!["/a/steamapps/common/Sekiro", "/a/steamapps/common/Other", "/b/steamapps/common/Sekiro", "/b/steamapps/common/Other"]
    );
    assert_eq!(pick_game_dir(&c, &vec![false, false, true, true]), Some("/b/steamapps/common/Sekiro".to_string()));
    assert_eq!(pick_game_dir(&c, &vec![false; 4]), None);
}
