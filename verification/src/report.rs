//! What background work reports back: the outcome of a launch with its
//! tools, and the steps, progress and errors of the GE-Proton installation.
use vstd::prelude::*;
use crate::app::{LaunchMode, launch_error_text};
use crate::text::{join2, join3, decimal, decimal_string};

verus! {

/// The first line of a successful launch report.
pub open spec fn launch_header(mode: LaunchMode) -> Seq<char> {
    match mode {
        LaunchMode::Normal => "Sekiro launched successfully"@,
        LaunchMode::Bypass => "Sekiro launched (bypass mode)"@,
        LaunchMode::TrayAll => "Sekiro launched from tray"@,
    }
}

/// The report line of one tool's launch.
pub open spec fn tool_line(r: (String, Result<(), String>)) -> Seq<char> {
    match r.1 {
        Ok(_) => "✓ Tool '"@ + r.0@ + "' launched"@,
        Err(e) => "✗ Tool '"@ + r.0@ + "' failed: "@ + e@,
    }
}

/// The report of a launch in `mode` whose tools ended as `results`: the
/// header, then a line per tool, separated by line feeds.
pub open spec fn launch_report_text(mode: LaunchMode, results: Seq<(String, Result<(), String>)>) -> Seq<char>
    decreases results.len(),
{
    if results.len() == 0 {
        launch_header(mode)
    } else {
        launch_report_text(mode, results.drop_last()) + "\n"@ + tool_line(results.last())
    }
}

fn tool_line_of(r: &(String, Result<(), String>)) -> (res: String)
    ensures
        res@ == tool_line(*r),
{
    match &r.1 {
        Ok(()) => join3("✓ Tool '", r.0.as_str(), "' launched"),
        Err(e) => {
            let head = join3("✗ Tool '", r.0.as_str(), "' failed: ");
            head.concat(e.as_str())
        },
    }
}

/// The report of a launch in `mode` whose tools ended as `results`.
pub fn launch_report(mode: &LaunchMode, results: &Vec<(String, Result<(), String>)>) -> (res: String)
    ensures
        res@ == launch_report_text(*mode, results@),
{
    let mut out = match mode {
        LaunchMode::Normal => String::from_str("Sekiro launched successfully"),
        LaunchMode::Bypass => String::from_str("Sekiro launched (bypass mode)"),
        LaunchMode::TrayAll => String::from_str("Sekiro launched from tray"),
    };
    let mut i: usize = 0;
    while i < results.len()
        invariant
            i <= results@.len(),
            out@ == launch_report_text(*mode, results@.take(i as int)),
        decreases results.len() - i,
    {
        assert(results@.take(i + 1).drop_last() =~= results@.take(i as int));
        assert(results@.take(i + 1).last() == results@[i as int]);
        let line = tool_line_of(&results[i]);
        out = join3(out.as_str(), "\n", line.as_str());
        i = i + 1;
    }
    assert(results@.take(results@.len() as int) =~= results@);
    out
}

/// What a launch in `mode` posts to the log: the report when the game
/// started, the error otherwise.
pub fn launch_message(mode: &LaunchMode, outcome: &Result<Vec<(String, Result<(), String>)>, String>) -> (res: String)
    ensures
        match outcome {
            Ok(rs) => res@ == launch_report_text(*mode, rs@),
            Err(e) => res@ == launch_error_text(*mode, "Failed to launch Sekiro: "@ + e@),
        },
{
    match outcome {
        Ok(rs) => launch_report(mode, rs),
        Err(e) => {
            let head = match mode {
                LaunchMode::TrayAll => "Tray launch all error: ",
                _ => "Launch error: ",
            };
            join3(head, "Failed to launch Sekiro: ", e.as_str())
        },
    }
}

/// What starting the game alone from the tray posts to the log.
pub fn tray_game_message(outcome: &Result<(), String>) -> (res: String)
    ensures
        match outcome {
            Ok(_) => res@ == "Game launched from tray."@,
            Err(e) => res@ == "Tray launch error: Failed to launch Sekiro: "@ + e@,
        },
{
    match outcome {
        Ok(()) => String::from_str("Game launched from tray."),
        Err(e) => join2("Tray launch error: Failed to launch Sekiro: ", e.as_str()),
    }
}

/// The steps of the GE-Proton installation, in order.
#[derive(Debug, Clone, Copy, PartialEq, Eq, Structural)]
pub enum InstallStep {
    Prepare,
    FetchRelease,
    DownloadTarball,
    DownloadChecksum,
    VerifyChecksum,
    PrepareSteamDir,
    Extract,
    Done,
}

/// The message of `step` and its progress in thousandths.
pub open spec fn step_progress(step: InstallStep) -> (Seq<char>, u32) {
    match step {
        InstallStep::Prepare => ("Preparing installation..."@, 50),
        InstallStep::FetchRelease => ("Fetching release information..."@, 100),
        InstallStep::DownloadTarball => ("Downloading GE-Proton..."@, 150),
        InstallStep::DownloadChecksum => ("Downloading checksum..."@, 700),
        InstallStep::VerifyChecksum => ("Verifying download..."@, 750),
        InstallStep::PrepareSteamDir => ("Preparing Steam directory..."@, 850),
        InstallStep::Extract => ("Extracting GE-Proton..."@, 900),
        InstallStep::Done => ("Installation complete!"@, 1000),
    }
}

/// The step after `step`.
pub open spec fn step_after(step: InstallStep) -> InstallStep {
    match step {
        InstallStep::Prepare => InstallStep::FetchRelease,
        InstallStep::FetchRelease => InstallStep::DownloadTarball,
        InstallStep::DownloadTarball => InstallStep::DownloadChecksum,
        InstallStep::DownloadChecksum => InstallStep::VerifyChecksum,
        InstallStep::VerifyChecksum => InstallStep::PrepareSteamDir,
        InstallStep::PrepareSteamDir => InstallStep::Extract,
        InstallStep::Extract => InstallStep::Done,
        InstallStep::Done => InstallStep::Done,
    }
}

/// What the error `e` of `step` is reported as.
pub open spec fn step_error(step: InstallStep, e: Seq<char>) -> Seq<char> {
    match step {
        InstallStep::Prepare => "Failed to create temp directory: "@ + e,
        InstallStep::FetchRelease => "Failed to fetch release info: "@ + e,
        InstallStep::DownloadTarball => "Download failed: "@ + e,
        InstallStep::DownloadChecksum => "Checksum download failed: "@ + e,
        InstallStep::VerifyChecksum => "Checksum verification failed: "@ + e,
        InstallStep::PrepareSteamDir => "Failed to create compatibility tools directory: "@ + e,
        InstallStep::Extract => e,
        InstallStep::Done => e,
    }
}

impl InstallStep {
    /// The first step.
    pub fn first() -> (res: InstallStep)
        ensures
            res == InstallStep::Prepare,
    {
        InstallStep::Prepare
    }

    /// The step that follows.
    pub fn next(&self) -> (res: InstallStep)
        ensures
            res == step_after(*self),
    {
        match self {
            InstallStep::Prepare => InstallStep::FetchRelease,
            InstallStep::FetchRelease => InstallStep::DownloadTarball,
            InstallStep::DownloadTarball => InstallStep::DownloadChecksum,
            InstallStep::DownloadChecksum => InstallStep::VerifyChecksum,
            InstallStep::VerifyChecksum => InstallStep::PrepareSteamDir,
            InstallStep::PrepareSteamDir => InstallStep::Extract,
            InstallStep::Extract => InstallStep::Done,
            InstallStep::Done => InstallStep::Done,
        }
    }

    /// The message shown when the step begins, and its progress in thousandths.
    pub fn progress(&self) -> (res: (String, u32))
        ensures
            res.0@ == step_progress(*self).0,
            res.1 == step_progress(*self).1,
    {
        match self {
            InstallStep::Prepare => (String::from_str("Preparing installation..."), 50),
            InstallStep::FetchRelease => (String::from_str("Fetching release information..."), 100),
            InstallStep::DownloadTarball => (String::from_str("Downloading GE-Proton..."), 150),
            InstallStep::DownloadChecksum => (String::from_str("Downloading checksum..."), 700),
            InstallStep::VerifyChecksum => (String::from_str("Verifying download..."), 750),
            InstallStep::PrepareSteamDir => (String::from_str("Preparing Steam directory..."), 850),
            InstallStep::Extract => (String::from_str("Extracting GE-Proton..."), 900),
            InstallStep::Done => (String::from_str("Installation complete!"), 1000),
        }
    }

    /// The error the installation ends with when this step fails with `e`.
    pub fn error(&self, e: &str) -> (res: String)
        ensures
            res@ == step_error(*self, e@),
    {
        match self {
            InstallStep::Prepare => join2("Failed to create temp directory: ", e),
            InstallStep::FetchRelease => join2("Failed to fetch release info: ", e),
            InstallStep::DownloadTarball => join2("Download failed: ", e),
            InstallStep::DownloadChecksum => join2("Checksum download failed: ", e),
            InstallStep::VerifyChecksum => join2("Checksum verification failed: ", e),
            InstallStep::PrepareSteamDir => join2("Failed to create compatibility tools directory: ", e),
            InstallStep::Extract => String::from_str(e),
            InstallStep::Done => String::from_str(e),
        }
    }
}

/// How unpacking the tarball failed.
#[derive(Debug)]
pub enum ExtractFailure {
    OpenTarball(String),
    ReadArchive(String),
    ReadEntry(String),
    Unpack(String),
}

/// The error text of an unpacking failure.
pub fn extract_error(f: &ExtractFailure) -> (res: String)
    ensures
        res@ == match f {
            ExtractFailure::OpenTarball(e) => "Failed to open tarball: "@ + e@,
            ExtractFailure::ReadArchive(e) => "Failed to read archive: "@ + e@,
            ExtractFailure::ReadEntry(e) => "Failed to read archive entry: "@ + e@,
            ExtractFailure::Unpack(e) => "Failed to extract: "@ + e@,
        },
{
    match f {
        ExtractFailure::OpenTarball(e) => join2("Failed to open tarball: ", e.as_str()),
        ExtractFailure::ReadArchive(e) => join2("Failed to read archive: ", e.as_str()),
        ExtractFailure::ReadEntry(e) => join2("Failed to read archive entry: ", e.as_str()),
        ExtractFailure::Unpack(e) => join2("Failed to extract: ", e.as_str()),
    }
}

/// The tarball download's progress in thousandths: 150 and half of the
/// remaining range times the share downloaded; 150 when the size is unknown.
pub open spec fn tarball_progress(downloaded: u64, total: u64) -> int {
    if total > 0 {
        150 + (500 * downloaded) / (total as int)
    } else {
        150
    }
}

/// The tarball download's progress in thousandths.
pub fn download_progress(downloaded: u64, total: u64) -> (res: u128)
    ensures
        res == tarball_progress(downloaded, total),
{
    if total > 0 {
        let prod: u128 = 500u128 * (downloaded as u128);
        let share: u128 = prod / (total as u128);
        proof {
            vstd::arithmetic::div_mod::lemma_div_is_ordered_by_denominator(prod as int, 1, total as int);
        }
        150 + share
    } else {
        150
    }
}

/// The error of an unsuccessful HTTP answer with status `code`, after
/// `what` (such as "Download failed").
pub fn http_error(what: &str, code: u16) -> (res: String)
    ensures
        res@ == what@ + ": HTTP "@ + decimal(code as nat),
{
    let n = decimal_string(code as u64);
    join3(what, ": HTTP ", n.as_str())
}

} // verus!
