use sekiro_launcher::proton_setup::{
    checksum_name, choose_directory, choose_proton_directory, chosen_directory, extraction_missing_error,
    find_asset_url, first_word_of, hex_lower, open_proton_directory, open_tools_directory, proton_binaries,
    proton_compatibility_dir, quote_path, release_info_url, release_urls, tarball_name, tools_directory,
    verify_checksum, verify_proton_installation, zenity_args, zenity_reply, ProgramRun, DEFAULT_PROTON_TAG,
    DEFAULT_PROTON_VERSION,
};

const ABC_SHA512: &str = "ddaf35a193617abacc417349ae20413112e6fa4e89a97ea20a9eeee64b55d39a2192992a274fc1a836ba3c23a3feebbd454d4423643ce80e2a9ac94fa54ca49f";

#[test]
fn test_proton_compatibility_dir() {
    let dir = proton_compatibility_dir("/home/user");
    assert!(dir.contains(".steam/steam/compatibilitytools.d"));
    assert_eq!(dir, "/home/user/.steam/steam/compatibilitytools.d");
}

#[test]
fn proton_release_names() {
    assert_eq!(DEFAULT_PROTON_VERSION, "GE-Proton10-26");
    assert_eq!(DEFAULT_PROTON_TAG, "GE-Proton10-26");
    assert_eq!(
        release_info_url(),
        "https://api.github.com/repos/GloriousEggroll/proton-ge-custom/GE-Proton10-26/releases/tags/GE-Proton10-26"
    );
    assert_eq!(tarball_name(), "GE-Proton10-26.tar.gz");
    assert_eq!(checksum_name(), "GE-Proton10-26.sha512sum");
}

#[test]
fn release_assets_give_download_urls() {
    let assets = vec![
        (Some("GE-Proton10-26.sha512sum".to_string()), Some("https://d/sum".to_string())),
        (Some("GE-Proton10-26.tar.gz".to_string()), None),
        (Some("GE-Proton10-26.tar.gz".to_string()), Some("https://d/tar".to_string())),
    ];
    assert_eq!(find_asset_url(&assets, ".tar.gz"), Some("https://d/tar".to_string()));
    assert_eq!(
        release_urls(Some(assets)),
        Ok(("https://d/tar".to_string(), "https://d/sum".to_string()))
    );
    assert_eq!(release_urls(None), Err("No assets in release".to_string()));
    assert_eq!(release_urls(Some(vec![])), Err("No tar.gz asset found in release".to_string()));
    let only_tar = vec![(Some("x.tar.gz".to_string()), Some("u".to_string()))];
    assert_eq!(release_urls(Some(only_tar)), Err("No checksum file found in release".to_string()));
}

#[test]
fn sha512_hex_of_known_input() {
    assert_eq!(hex_lower(&vec![0x00, 0xab, 0x0f]), "00ab0f");
    assert_eq!(verify_checksum(b"abc", &format!("{ABC_SHA512}  GE-Proton10-26.tar.gz\n")), Ok(()));
}

#[test]
fn checksum_mismatch_and_bad_file() {
    let bad = "0".repeat(128);
    assert_eq!(
        verify_checksum(b"abc", &format!("  {bad} file\n")),
        Err(format!("Checksum mismatch!\nExpected: {bad}\nActual:   {ABC_SHA512}"))
    );
    assert_eq!(verify_checksum(b"abc", "   \n\t"), Err("Invalid checksum file format".to_string()));
    assert_eq!(first_word_of("\t a b"), Some("a".to_string()));
    assert_eq!(first_word_of(""), None);
}

#[test]
fn proton_installation_checks_binaries() {
    assert_eq!(verify_proton_installation("/p", true, false), Ok(()));
    assert_eq!(verify_proton_installation("/p", false, true), Ok(()));
    assert_eq!(
        verify_proton_installation("/p \"x\"", false, false),
        Err("Invalid Proton installation at \"/p \\\"x\\\"\": missing proton binary".to_string())
    );
    assert_eq!(proton_binaries("/p"), ("/p/proton".to_string(), "/p/protontricks".to_string()));
    assert_eq!(quote_path("a\\b\tc\n"), "\"a\\\\b\\tc\\n\"");
}

#[test]
fn directory_chooser_arguments() {
    let d = choose_proton_directory();
    assert_eq!(d.title, "Select Proton Installation");
    assert_eq!(zenity_args(&d, false), vec!["--file-selection", "--directory", "--title", "Select Proton Installation"]);
    let d = choose_directory("", Some("/start".into()));
    assert_eq!(zenity_args(&d, true), vec!["--file-selection", "--directory", "--filename", "/start"]);
    assert_eq!(zenity_args(&d, false), vec!["--file-selection", "--directory"]);
}

#[test]
fn directory_chooser_replies() {
    let exited = |success: bool, code: Option<i32>, stdout: &str, stderr: &str| ProgramRun::Exited {
        success,
        code,
        stdout: stdout.into(),
        stderr: stderr.into(),
    };
    assert_eq!(zenity_reply(exited(true, Some(0), " /games/pfx \n", "")), Ok("/games/pfx".to_string()));
    assert_eq!(zenity_reply(exited(false, Some(1), "", "")), Err("Cancelled".to_string()));
    assert_eq!(zenity_reply(exited(false, Some(5), "", "oops")), Err("zenity exited with error: oops".to_string()));
    assert_eq!(zenity_reply(exited(true, Some(0), " \n", "")), Err("No path selected".to_string()));
    assert_eq!(
        zenity_reply(ProgramRun::NotStarted { not_found: true, detail: String::new() }),
        Err("zenity not found. Please install zenity or choose the directory manually.".to_string())
    );
    assert_eq!(
        zenity_reply(ProgramRun::NotStarted { not_found: false, detail: "denied".into() }),
        Err("Failed to launch zenity: denied".to_string())
    );
    assert_eq!(chosen_directory("/d".into(), true), Ok("/d".to_string()));
    assert_eq!(chosen_directory("/f".into(), false), Err("Selected path is not a directory: \"/f\"".to_string()));
}

#[test]
fn file_explorer_outcomes() {
    assert_eq!(tools_directory("/pfx"), "/pfx/drive_c/tools");
    assert_eq!(
        open_tools_directory("/pfx/tools", false, None),
        Err("Tools directory does not exist yet: \"/pfx/tools\"".to_string())
    );
    let ok = ProgramRun::Exited { success: true, code: Some(0), stdout: String::new(), stderr: String::new() };
    assert_eq!(open_tools_directory("/pfx/tools", true, Some(ok)), Ok(()));
    let failed = ProgramRun::Exited { success: false, code: Some(4), stdout: String::new(), stderr: "no app".into() };
    assert_eq!(open_proton_directory(failed), Err("Failed to open file explorer: no app".to_string()));
    assert_eq!(
        open_proton_directory(ProgramRun::NotStarted { not_found: true, detail: String::new() }),
        Err("Failed to open file explorer: xdg-open not found. Please navigate to {}/.steam/steam/compatibilitytools.d/ manually"
            .to_string())
    );
    assert_eq!(
        extraction_missing_error("/c/GE-Proton10-26"),
        "Extraction failed: expected directory not found at \"/c/GE-Proton10-26\""
    );
}
