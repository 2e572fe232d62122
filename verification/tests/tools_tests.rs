use sekiro_launcher::manifest::ToolEntry;
use sekiro_launcher::tools::{
    archive_kind, dotnet_marker_path, download_step, extraction_dir, find_executable, is_executable_candidate,
    is_in_components_dir, is_installed, is_skipped_dir, plan_extractions, release_api_url, setup_failure_message,
    temp_download_dir, tool_install_dir, tool_launch_path, winetricks_start_error, winetricks_verb_error,
    ArchiveKind, DotnetInstall, DotnetStep, DownloadOutcome, DownloadStep, ToolSetupFailure, ToolSetupResult,
};

fn livesplit() -> ToolEntry {
    ToolEntry {
        name: "LiveSplit".into(),
        slug: "livesplit".into(),
        github_repo: "LiveSplit/LiveSplit".into(),
        description: "timer".into(),
    }
}

fn strings(v: &[&str]) -> Vec<String> {
    v.iter().map(|s| s.to_string()).collect()
}

#[test]
fn tools_install_into_drive_c() {
    assert_eq!(tool_install_dir(&livesplit(), "/pfx"), "/pfx/drive_c/tools/livesplit");
    assert_eq!(temp_download_dir("/pfx/drive_c/tools/livesplit"), "/pfx/drive_c/tools/livesplit/temp_download");
}

#[test]
fn executable_choice_prefers_exe_outside_components() {
    let found = strings(&["components/helper.exe", "LiveSplit.jar", "LiveSplit.exe"]);
    assert_eq!(find_executable(&found), Some("LiveSplit.exe".to_string()));
    let found = strings(&["Components/only.exe", "run.bat"]);
    assert_eq!(find_executable(&found), Some("Components/only.exe".to_string()));
    let found = strings(&["tool.CMD", "tool.jar"]);
    assert_eq!(find_executable(&found), Some("tool.jar".to_string()));
    assert_eq!(find_executable(&strings(&["readme.txt"])), None);
}

#[test]
fn executable_choice_takes_the_best_rank() {
    let found = strings(&["b/run.cmd", "a/run.bat", "components/x.cmd"]);
    assert_eq!(find_executable(&found), Some("a/run.bat".to_string()));
    let found = strings(&["Components/helper.jar", "COMPONENTS/other.jar", "start.cmd"]);
    assert_eq!(find_executable(&found), Some("Components/helper.jar".to_string()));
    let found = strings(&["components/a.exe", "main/b.exe"]);
    assert_eq!(find_executable(&found), Some("main/b.exe".to_string()));
}

#[test]
fn executable_choice_is_empty_without_candidates() {
    assert_eq!(find_executable(&vec![]), None);
    assert_eq!(find_executable(&strings(&["readme.txt", "TOOL.EXE", "notes"])), None);
    assert_eq!(find_executable(&strings(&["readme.txt", "app.jar"])), Some("app.jar".to_string()));
}

#[test]
fn installed_needs_directory_and_executable() {
    let found = strings(&["bin/tool.exe"]);
    assert!(is_installed(true, &found));
    assert!(!is_installed(false, &found));
    assert!(!is_installed(true, &vec![]));
}

#[test]
fn launch_path_is_inside_install_dir() {
    let found = strings(&["sub/LiveSplit.exe"]);
    assert_eq!(
        tool_launch_path(&livesplit(), "/pfx", true, &found),
        Some("/pfx/drive_c/tools/livesplit/sub/LiveSplit.exe".to_string())
    );
    assert_eq!(tool_launch_path(&livesplit(), "/pfx", false, &found), None);
    assert_eq!(tool_launch_path(&livesplit(), "/pfx", true, &strings(&["a.txt"])), None);
}

#[test]
fn walk_filters() {
    assert!(is_executable_candidate("dir/Tool.EXE"));
    assert!(is_executable_candidate("a.bat"));
    assert!(!is_executable_candidate("a.dll"));
    assert!(!is_executable_candidate("exe"));
    assert!(is_skipped_dir("jre"));
    assert!(is_skipped_dir("__MACOSX"));
    assert!(!is_skipped_dir("JRE"));
    assert!(is_in_components_dir("a/COMPONENTS/b.exe"));
    assert!(!is_in_components_dir("componentsx/b.exe"));
}

#[test]
fn archives_and_where_they_unpack() {
    assert_eq!(archive_kind("tool.zip"), ArchiveKind::Zip);
    assert_eq!(archive_kind("tool.tar.gz"), ArchiveKind::TarGz);
    assert_eq!(archive_kind("tool.tgz"), ArchiveKind::TarGz);
    assert_eq!(archive_kind("tool.exe"), ArchiveKind::Plain);
    assert_eq!(extraction_dir("/t/tmp/LiveSplit_1.8.zip", "/t/tmp"), Some("/t/tmp/LiveSplit_1.8".to_string()));
    assert_eq!(extraction_dir("/t/tmp/tool.tar.gz", "/t/tmp"), Some("/t/tmp/extracted".to_string()));
    assert_eq!(extraction_dir("/t/tmp/tool.exe", "/t/tmp"), None);
    let plan = plan_extractions(&strings(&["/d/a.zip", "/d/b.exe", "/d/c.tgz"]), "/d");
    assert_eq!(
        plan,
        vec![("/d/a.zip".to_string(), "/d/a".to_string()), ("/d/c.tgz".to_string(), "/d/extracted".to_string())]
    );
}

#[test]
fn release_url_and_download_retries() {
    assert_eq!(release_api_url("LiveSplit/LiveSplit"), "https://api.github.com/repos/LiveSplit/LiveSplit/releases/latest");
    assert!(matches!(download_step(0, DownloadOutcome::Status("503".into()), "u"), DownloadStep::Retry { delay_secs: 3 }));
    assert!(matches!(download_step(1, DownloadOutcome::Status("503".into()), "u"), DownloadStep::Retry { delay_secs: 3 }));
    match download_step(2, DownloadOutcome::Status("503 Service Unavailable".into()), "https://x/y") {
        DownloadStep::Done(Err(e)) => assert_eq!(e, "Failed after 3 attempts: HTTP 503 Service Unavailable for https://x/y"),
        other => panic!("unexpected {other:?}"),
    }
    assert!(matches!(download_step(0, DownloadOutcome::Written, "u"), DownloadStep::Done(Ok(()))));
    match download_step(0, DownloadOutcome::Failed("Download failed: dns".into()), "u") {
        DownloadStep::Retry { delay_secs } => assert_eq!(delay_secs, 3),
        other => panic!("unexpected {other:?}"),
    }
    match download_step(2, DownloadOutcome::Failed("Download failed: dns".into()), "u") {
        DownloadStep::Done(Err(e)) => assert_eq!(e, "Failed after 3 attempts: Download failed: dns"),
        other => panic!("unexpected {other:?}"),
    }
}

#[test]
fn download_gives_up_after_three_failed_attempts() {
    let mut attempts = 0;
    let mut delays = Vec::new();
    let result = loop {
        attempts += 1;
        match download_step(attempts - 1, DownloadOutcome::Failed(format!("error {attempts}")), "https://x/y") {
            DownloadStep::Retry { delay_secs } => delays.push(delay_secs),
            DownloadStep::Done(r) => break r,
        }
    };
    assert_eq!(attempts, 3);
    assert_eq!(delays, vec![3, 3]);
    assert_eq!(result, Err("Failed after 3 attempts: error 3".to_string()));
}

#[test]
fn setup_results_and_failures() {
    let t = livesplit();
    let ok = ToolSetupResult::succeeded(&t);
    assert!(ok.success && ok.error.is_none() && ok.slug == "livesplit");
    let c = ToolSetupResult::cancelled(&t);
    assert_eq!(c.error.as_deref(), Some("Cancelled"));
    assert_eq!(
        setup_failure_message(&ToolSetupFailure::Status("404 Not Found".into())),
        "GitHub API returned HTTP 404 Not Found"
    );
    assert_eq!(setup_failure_message(&ToolSetupFailure::Copy("disk full".into())), "Failed to copy files: disk full");
    assert_eq!(
        setup_failure_message(&ToolSetupFailure::CreateDir("denied".into())),
        "Failed to create tools directory: denied"
    );
}

#[test]
fn dotnet_install_tries_three_verbs() {
    assert_eq!(dotnet_marker_path("/pfx"), "/pfx/.dotnet_desktop_installed");
    let (mut inst, step) = DotnetInstall::start("/pfx");
    assert!(matches!(step, DotnetStep::Try(ref v) if v == "dotnetdesktop9"));
    assert!(matches!(inst.on_result(Err("e1".into())), DotnetStep::Try(ref v) if v == "dotnetdesktop8"));
    assert!(matches!(inst.on_result(Err("e2".into())), DotnetStep::Try(ref v) if v == "dotnet48"));
    match inst.on_result(Err("e3".into())) {
        DotnetStep::Failed(m) => assert_eq!(
            m,
            "Failed to install .NET Desktop Runtime (tried dotnetdesktop9, dotnetdesktop8, dotnet48). Last error: e3\nYou can install it manually:\n  WINEPREFIX=/pfx winetricks -q dotnetdesktop9"
        ),
        other => panic!("unexpected {other:?}"),
    }
    let (mut inst, _) = DotnetInstall::start("/pfx");
    assert!(matches!(inst.on_result(Ok(())), DotnetStep::Installed));
    assert_eq!(winetricks_verb_error("dotnet48", "bad"), "winetricks dotnet48 failed: bad");
    assert_eq!(winetricks_start_error(false, "denied"), "Failed to run winetricks: denied");
    assert!(winetricks_start_error(true, "").starts_with("winetricks not found in PATH."));
}
