//! The launcher's application state and what each event does to it.
//!
//! The window, the tray and the background work live outside; they turn
//! what happens into an `AppEvent`, hand it to `AppState::update`, and carry
//! out the `AppAction` that comes back. Events that answer an action (the
//! resolved paths, the probed prefix, the chosen directory) carry the
//! outside facts the decision needs.
use vstd::prelude::*;
use crate::config::{
    Config, ProtonConfig, GamePrefixConfig, ToolsConfig, strings_view, expansion_of, migrate_prefix,
    default_prefix_path,
};
use crate::manifest::{Manifest, ToolEntry, copy_tools};
use crate::tools::ToolSetupResult;
use crate::paths::join_path;
use crate::proton_setup::{
    compatibility_dir_of, proton_compatibility_dir, verify_proton_installation, quoted, tools_directory,
};
use crate::selection::{
    toggled, toggle_slug, picked, selected_tools, to_install, tools_to_install, setup_report,
    setup_report_lines,
};
use crate::text::{join2, join3, decimal, decimal_string};

verus! {

/// Which directory a directory chooser picks.
#[derive(Debug, PartialEq, Eq)]
pub enum DirTarget {
    Proton,
    GamePrefix,
}

/// How the game is started with the selected tools.
#[derive(Debug, PartialEq, Eq)]
pub enum LaunchMode {
    /// The Launch button: through Steam.
    Normal,
    /// The Re-launch Game button: Proton directly, without Steam's wait.
    Bypass,
    /// The tray's Launch All: through Steam.
    TrayAll,
}

/// The whole state of the launcher window.
#[derive(Debug)]
pub struct AppState {
    /// The home directory.
    pub home: String,
    /// The value of `SEKIRO_PROTON_PATH`, when set.
    pub proton_env: Option<String>,
    pub manifest: Option<Manifest>,
    pub config: Config,
    pub proton_path: Option<String>,
    pub game_prefix_path: Option<String>,
    pub log_messages: Vec<String>,
    pub log_visible: bool,
    /// The Proton setup screen is shown.
    pub proton_setup_active: bool,
    /// The Proton download's current step and its progress in thousandths.
    pub proton_setup_progress: Option<(String, u32)>,
    pub setup_active: bool,
    pub setup_progress: Vec<ToolSetupResult>,
    /// A running tool setup is to stop; also read before a directory chooser opens.
    pub setup_cancelled: bool,
    pub game_launched: bool,
    /// The main window has opened, so it can be hidden, shown and closed.
    pub window_opened: bool,
}

/// What happened.
#[derive(Debug)]
pub enum AppEvent {
    ManifestLoaded(Result<Manifest, String>),
    ConfigLoaded(Result<Config, String>),
    /// The answer to `ResolvePaths`: the canonical Proton path, and the
    /// prefix candidate when it is a directory.
    PathsResolved { proton: Option<String>, prefix_dir: Option<String> },
    ProtonPathSelected(String),
    ProtonDownload,
    ProtonDownloadProgress(String, u32),
    /// The download ended; for a path, whether `proton` and `protontricks`
    /// exist in it.
    ProtonDownloadDone { result: Result<String, String>, proton_exists: bool, protontricks_exists: bool },
    ProtonBrowse,
    /// How opening the compatibility tools directory ended.
    ProtonBrowseDone(Result<(), String>),
    ProtonPathSelect,
    ProtonPathChosen { path: String, proton_exists: bool, protontricks_exists: bool },
    GamePrefixSelect,
    GamePrefixChosen { path: String, is_dir: bool },
    ToolsDirectory,
    /// How opening the tools directory ended.
    ToolsDirectoryDone(Result<(), String>),
    Setup,
    /// The answer to `ProbeSetup`: whether the prefix exists, and each tool
    /// with whether it is installed there.
    SetupProbed { prefix: String, prefix_exists: bool, candidates: Vec<(ToolEntry, bool)> },
    CancelSetup,
    Launch,
    LaunchBypass,
    ToggleTool(String),
    LogPush(String),
    LogToggle,
    LogDismiss,
    SetupDone(Vec<ToolSetupResult>),
    CloseRequested,
    TrayShowRequested,
    TrayLaunchGame,
    TrayLaunchAll,
    TrayQuitRequested,
    WindowOpened,
}

/// What the caller does after an event.
#[derive(Debug)]
#[allow(inconsistent_fields)]
pub enum AppAction {
    Nothing,
    /// Write the configuration file.
    SaveConfig,
    /// Canonicalise `proton_candidate`, check whether `prefix_candidate` is
    /// a directory, and answer with `PathsResolved`.
    ResolvePaths { proton_candidate: Option<String>, prefix_candidate: Option<String> },
    /// Download and install GE-Proton; answer with `ProtonDownloadDone`.
    DownloadProton,
    /// Create `dir` and open it in the file explorer; answer with `ProtonBrowseDone`.
    OpenProtonDirectory { dir: String },
    /// Ask for a directory; the choice comes back as `ProtonPathChosen` or
    /// `GamePrefixChosen`, a failure as `LogPush`.
    ChooseDirectory { title: String, target: DirTarget },
    /// Post `LogPush` with this text.
    Report(String),
    /// Open `tools_dir` in the file explorer; answer with `ToolsDirectoryDone`.
    OpenToolsDirectory { tools_dir: String },
    /// Check `prefix` and which of `tools` are installed; answer with `SetupProbed`.
    ProbeSetup { prefix: String, tools: Vec<ToolEntry> },
    /// Install `tools` into `prefix`; answer with `SetupDone`.
    RunSetup { tools: Vec<ToolEntry>, prefix: String },
    /// Start the game, then those of `tools` that are installed.
    Launch { mode: LaunchMode, tools: Vec<ToolEntry>, prefix: String, proton_path: Option<String> },
    /// Start the game alone: directly with a prefix, through Steam without one.
    LaunchGame { prefix: Option<String>, proton_path: Option<String> },
    HideWindow,
    ShowWindow,
    CloseWindow,
    Exit,
}

/// The log as texts.
pub open spec fn log_of(s: AppState) -> Seq<Seq<char>> {
    strings_view(s.log_messages@)
}

/// `post` adds `lines` to the log of `pre` and shows the log.
pub open spec fn logs(pre: AppState, post: AppState, lines: Seq<Seq<char>>) -> bool {
    &&& log_of(post) == log_of(pre) + lines
    &&& post.log_visible
}

/// `post` adds the line `line` to the log of `pre`, shows the log, and
/// changes nothing else.
pub open spec fn only_logs(pre: AppState, post: AppState, line: Seq<char>) -> bool {
    &&& logs(pre, post, seq![line])
    &&& post == AppState { log_messages: post.log_messages, log_visible: post.log_visible, ..pre }
}

/// The prefix that is used: the resolved one, or the default below home.
pub open spec fn effective_prefix(s: AppState) -> Seq<char> {
    match s.game_prefix_path {
        Some(p) => p@,
        None => default_prefix_path(s.home@),
    }
}

/// The prefix the configuration resolves to: the configured one when it is
/// a directory (`existing_dir`), the default below `home` otherwise.
pub open spec fn resolved_prefix(configured: Option<String>, existing_dir: Option<String>, home: Seq<char>) -> Seq<char> {
    match (configured, existing_dir) {
        (Some(_), Some(d)) => migrate_prefix(d@),
        _ => default_prefix_path(home),
    }
}

/// `candidate` is where the Proton path is looked for: the configured path
/// expanded, when it expands; otherwise the `SEKIRO_PROTON_PATH` value.
pub open spec fn proton_candidate_ok(configured: Option<String>, env: Option<String>, candidate: Option<String>) -> bool {
    match configured {
        None => candidate == env,
        Some(p) => (candidate is Some && expansion_of(p@, candidate)) || (expansion_of(p@, None) && candidate
            == env),
    }
}

/// `candidate` is the configured prefix path expanded.
pub open spec fn prefix_candidate_ok(configured: Option<String>, candidate: Option<String>) -> bool {
    match configured {
        None => candidate is None,
        Some(p) => expansion_of(p@, candidate),
    }
}

/// Why a directory is no Proton installation.
pub open spec fn invalid_proton(path: Seq<char>) -> Seq<char> {
    "Invalid Proton installation at "@ + quoted(path) + ": missing proton binary"@
}

/// `post` takes `path` as the Proton path, in the state and in the
/// configuration.
pub open spec fn proton_set(pre: AppState, post: AppState, path: String) -> bool {
    &&& post.proton_path == Some(path)
    &&& post.config == Config { proton: ProtonConfig { path: Some(path) }, ..pre.config }
}

/// The error text of a launch in `mode` that failed with `e`.
pub open spec fn launch_error_text(mode: LaunchMode, e: Seq<char>) -> Seq<char> {
    match mode {
        LaunchMode::TrayAll => "Tray launch all error: "@ + e,
        _ => "Launch error: "@ + e,
    }
}

/// Why a launch in `mode` cannot start.
pub open spec fn missing_setup_text(mode: LaunchMode) -> Seq<char> {
    match mode {
        LaunchMode::TrayAll => "Missing manifest or game prefix"@,
        _ => "Missing manifest or game prefix configuration"@,
    }
}

/// A launch in `mode` from `pre`: the game counts as launched, and with a
/// manifest and a prefix the selected tools go with it; without them the
/// launch reports the error.
pub open spec fn launches(pre: AppState, mode: LaunchMode, post: AppState, act: AppAction) -> bool {
    &&& post == AppState { game_launched: true, ..pre }
    &&& match (pre.manifest, pre.game_prefix_path) {
        (Some(m), Some(p)) => act matches AppAction::Launch { mode: md, tools, prefix, proton_path } && md
            == mode && tools@ == picked(m.tools@, strings_view(pre.config.tools.selected@)) && prefix == p
            && proton_path == pre.config.proton.path,
        _ => act matches AppAction::Report(m) && m@ == launch_error_text(mode, missing_setup_text(mode)),
    }
}

/// What the Proton download's end does.
pub open spec fn download_done(
    pre: AppState,
    result: Result<String, String>,
    proton_exists: bool,
    protontricks_exists: bool,
    post: AppState,
    act: AppAction,
) -> bool {
    &&& !post.proton_setup_active
    &&& post.proton_setup_progress is None
    &&& post.log_visible
    &&& match result {
        Ok(path) => if proton_exists || protontricks_exists {
            &&& proton_set(pre, post, path)
            &&& log_of(post) == log_of(pre).push("Proton has been set up successfully!"@)
            &&& act is SaveConfig
            &&& post == AppState {
                proton_setup_active: false,
                proton_setup_progress: None,
                proton_path: post.proton_path,
                config: post.config,
                log_messages: post.log_messages,
                log_visible: true,
                ..pre
            }
        } else {
            &&& log_of(post) == log_of(pre).push(
                "Proton download succeeded but verification failed: "@ + invalid_proton(path@),
            )
            &&& act is Nothing
            &&& post == AppState {
                proton_setup_active: false,
                proton_setup_progress: None,
                log_messages: post.log_messages,
                log_visible: true,
                ..pre
            }
        },
        Err(e) => {
            &&& log_of(post) == log_of(pre).push("Proton download failed: "@ + e@)
            &&& act is Nothing
            &&& post == AppState {
                proton_setup_active: false,
                proton_setup_progress: None,
                log_messages: post.log_messages,
                log_visible: true,
                ..pre
            }
        },
    }
}

/// What a chosen Proton directory does.
pub open spec fn proton_chosen(
    pre: AppState,
    path: String,
    proton_exists: bool,
    protontricks_exists: bool,
    post: AppState,
    act: AppAction,
) -> bool {
    if proton_exists || protontricks_exists {
        &&& proton_set(pre, post, path)
        &&& logs(pre, post, seq!["Proton path set successfully!"@])
        &&& act is SaveConfig
        &&& post == AppState {
            proton_setup_active: false,
            proton_path: post.proton_path,
            config: post.config,
            log_messages: post.log_messages,
            log_visible: true,
            ..pre
        }
    } else {
        &&& only_logs(pre, post, "Invalid Proton installation: "@ + invalid_proton(path@))
        &&& act is Nothing
    }
}

/// What the probe before a tool setup leads to.
pub open spec fn setup_probed(
    pre: AppState,
    prefix: String,
    prefix_exists: bool,
    candidates: Vec<(ToolEntry, bool)>,
    post: AppState,
    act: AppAction,
) -> bool {
    let chosen = to_install(candidates@, strings_view(pre.config.tools.selected@));
    if !prefix_exists {
        only_logs(pre, post, "Game prefix does not exist. Please configure it first."@) && act is Nothing
    } else if chosen.len() == 0 {
        only_logs(pre, post, "No tools selected for setup."@) && act is Nothing
    } else {
        &&& logs(pre, post, seq!["Setting up "@ + decimal(chosen.len()) + " tool(s)..."@])
        &&& post.setup_progress@.len() == 0
        &&& post == AppState {
            setup_active: true,
            setup_progress: post.setup_progress,
            setup_cancelled: false,
            log_messages: post.log_messages,
            log_visible: true,
            ..pre
        }
        &&& act matches AppAction::RunSetup { tools, prefix: p } && tools@ == chosen && p == prefix
    }
}

/// The window action for `wanted` when the window is known, `fallback`
/// otherwise; the state stays as it is.
pub open spec fn window_request(pre: AppState, post: AppState, act: AppAction, wanted: AppAction, fallback: AppAction) -> bool {
    &&& post == pre
    &&& act == if pre.window_opened { wanted } else { fallback }
}

/// What `ev` does to `pre`: `post` is the new state and `act` what the
/// caller does next.
pub open spec fn transition(pre: AppState, ev: AppEvent, post: AppState, act: AppAction) -> bool {
    match ev {
        AppEvent::ManifestLoaded(Ok(m)) => post == AppState { manifest: Some(m), ..pre } && act is Nothing,
        AppEvent::ManifestLoaded(Err(e)) => only_logs(pre, post, "Failed to load manifest: "@ + e@) && act is Nothing,
        AppEvent::ConfigLoaded(Ok(c)) => {
            &&& post == AppState {
                config: c,
                proton_setup_active: pre.proton_setup_active || c.proton.path is None,
                ..pre
            }
            &&& act matches AppAction::ResolvePaths { proton_candidate, prefix_candidate }
                && proton_candidate_ok(c.proton.path, pre.proton_env, proton_candidate)
                && prefix_candidate_ok(c.game_prefix.path, prefix_candidate)
        },
        AppEvent::ConfigLoaded(Err(_)) => post == pre && act is Nothing,
        AppEvent::PathsResolved { proton, prefix_dir } => {
            &&& post.game_prefix_path matches Some(g) && g@ == resolved_prefix(
                pre.config.game_prefix.path,
                prefix_dir,
                pre.home@,
            )
            &&& post == AppState { proton_path: proton, game_prefix_path: post.game_prefix_path, ..pre }
            &&& act is Nothing
        },
        AppEvent::ProtonPathSelected(path) => {
            &&& proton_set(pre, post, path)
            &&& post == AppState { proton_path: post.proton_path, config: post.config, ..pre }
            &&& act is SaveConfig
        },
        AppEvent::ProtonDownload => {
            &&& post.proton_setup_progress matches Some(p) && p.0@ == "Starting download..."@ && p.1 == 0
            &&& post == AppState {
                proton_setup_active: true,
                proton_setup_progress: post.proton_setup_progress,
                ..pre
            }
            &&& act is DownloadProton
        },
        AppEvent::ProtonDownloadProgress(m, p) => post == AppState {
            proton_setup_progress: Some((m, p)),
            ..pre
        } && act is Nothing,
        AppEvent::ProtonDownloadDone { result, proton_exists, protontricks_exists } => download_done(
            pre,
            result,
            proton_exists,
            protontricks_exists,
            post,
            act,
        ),
        AppEvent::ProtonBrowse => {
            &&& post == pre
            &&& act matches AppAction::OpenProtonDirectory { dir } && dir@ == compatibility_dir_of(pre.home@)
        },
        AppEvent::ProtonBrowseDone(r) => act is Nothing && match r {
            Ok(_) => post == pre,
            Err(e) => only_logs(pre, post, "Failed to open file explorer: "@ + e@),
        },
        AppEvent::ProtonPathSelect => post == pre && if pre.setup_cancelled {
            act matches AppAction::Report(m) && m@ == "Cancelled"@
        } else {
            act matches AppAction::ChooseDirectory { title, target } && title@ == "Select Proton Installation"@
                && target == DirTarget::Proton
        },
        AppEvent::ProtonPathChosen { path, proton_exists, protontricks_exists } => proton_chosen(
            pre,
            path,
            proton_exists,
            protontricks_exists,
            post,
            act,
        ),
        AppEvent::GamePrefixSelect => post == pre && if pre.setup_cancelled {
            act matches AppAction::Report(m) && m@ == "Cancelled"@
        } else {
            act matches AppAction::ChooseDirectory { title, target } && title@ == "Select Sekiro Game Prefix"@
                && target == DirTarget::GamePrefix
        },
        AppEvent::GamePrefixChosen { path, is_dir } => if is_dir {
            &&& post.game_prefix_path == Some(path)
            &&& post.config == Config { game_prefix: GamePrefixConfig { path: Some(path) }, ..pre.config }
            &&& logs(pre, post, seq!["Game prefix set successfully!"@])
            &&& post == AppState {
                game_prefix_path: post.game_prefix_path,
                config: post.config,
                log_messages: post.log_messages,
                log_visible: true,
                ..pre
            }
            &&& act is SaveConfig
        } else {
            only_logs(pre, post, "Selected path is not a directory."@) && act is Nothing
        },
        AppEvent::ToolsDirectory => {
            &&& post == pre
            &&& act matches AppAction::OpenToolsDirectory { tools_dir } && tools_dir@ == join_path(
                join_path(effective_prefix(pre), "drive_c"@),
                "tools"@,
            )
        },
        AppEvent::ToolsDirectoryDone(r) => act is Nothing && match r {
            Ok(_) => post == pre,
            Err(e) => only_logs(pre, post, "Failed to open tools directory: "@ + e@),
        },
        AppEvent::Setup => {
            &&& post == pre
            &&& act matches AppAction::ProbeSetup { prefix, tools } && prefix@ == effective_prefix(pre)
                && tools@ == match pre.manifest {
                Some(m) => m.tools@,
                None => Seq::empty(),
            }
        },
        AppEvent::SetupProbed { prefix, prefix_exists, candidates } => setup_probed(
            pre,
            prefix,
            prefix_exists,
            candidates,
            post,
            act,
        ),
        AppEvent::CancelSetup => {
            &&& log_of(post) == log_of(pre).push("Setup cancelled."@)
            &&& post == AppState { setup_cancelled: true, log_messages: post.log_messages, ..pre }
            &&& act is Nothing
        },
        AppEvent::Launch => launches(pre, LaunchMode::Normal, post, act),
        AppEvent::LaunchBypass => launches(pre, LaunchMode::Bypass, post, act),
        AppEvent::TrayLaunchAll => launches(pre, LaunchMode::TrayAll, post, act),
        AppEvent::TrayLaunchGame => {
            &&& post == AppState { game_launched: true, ..pre }
            &&& act == AppAction::LaunchGame {
                prefix: pre.game_prefix_path,
                proton_path: pre.config.proton.path,
            }
        },
        AppEvent::ToggleTool(slug) => {
            &&& strings_view(post.config.tools.selected@) == toggled(
                strings_view(pre.config.tools.selected@),
                slug@,
            )
            &&& post.config == Config {
                tools: ToolsConfig { selected: post.config.tools.selected, ..pre.config.tools },
                ..pre.config
            }
            &&& post == AppState { config: post.config, ..pre }
            &&& act is SaveConfig
        },
        AppEvent::LogPush(m) => {
            &&& post.log_messages@ == pre.log_messages@.push(m)
            &&& post == AppState { log_messages: post.log_messages, log_visible: true, ..pre }
            &&& act is Nothing
        },
        AppEvent::LogToggle => post == AppState { log_visible: !pre.log_visible, ..pre } && act is Nothing,
        AppEvent::LogDismiss => post == AppState { log_visible: false, ..pre } && act is Nothing,
        AppEvent::SetupDone(results) => {
            &&& logs(pre, post, setup_report(results@))
            &&& post == AppState {
                setup_active: false,
                setup_progress: results,
                log_messages: post.log_messages,
                log_visible: true,
                ..pre
            }
            &&& act is Nothing
        },
        AppEvent::CloseRequested => window_request(pre, post, act, AppAction::HideWindow, AppAction::Nothing),
        AppEvent::TrayShowRequested => window_request(pre, post, act, AppAction::ShowWindow, AppAction::Nothing),
        AppEvent::TrayQuitRequested => window_request(pre, post, act, AppAction::CloseWindow, AppAction::Exit),
        AppEvent::WindowOpened => post == AppState { window_opened: true, ..pre } && act is Nothing,
    }
}

impl AppState {
    /// The state the launcher starts in, before the configuration and the
    /// manifest have loaded.
    pub fn boot(home: String, proton_env: Option<String>) -> (res: AppState)
        ensures
            res.home == home,
            res.proton_env == proton_env,
            res.manifest is None,
            res.config.is_default(),
            res.proton_path is None,
            res.game_prefix_path is None,
            res.log_messages@.len() == 0,
            !res.log_visible,
            !res.proton_setup_active,
            res.proton_setup_progress is None,
            !res.setup_active,
            res.setup_progress@.len() == 0,
            !res.setup_cancelled,
            !res.game_launched,
            !res.window_opened,
    {
        AppState {
            home,
            proton_env,
            manifest: None,
            config: Config::default(),
            proton_path: None,
            game_prefix_path: None,
            log_messages: Vec::new(),
            log_visible: false,
            proton_setup_active: false,
            proton_setup_progress: None,
            setup_active: false,
            setup_progress: Vec::new(),
            setup_cancelled: false,
            game_launched: false,
            window_opened: false,
        }
    }

    /// Adds `line` to the log and shows it.
    fn log(&mut self, line: String)
        ensures
            final(self).log_messages@ == old(self).log_messages@.push(line),
            log_of(*final(self)) == log_of(*old(self)).push(line@),
            log_of(*final(self)) == log_of(*old(self)) + seq![line@],
            *final(self) == (AppState {
                log_messages: final(self).log_messages,
                log_visible: true,
                ..*old(self)
            }),
    {
        let ghost before = self.log_messages@;
        self.log_messages.push(line);
        assert(strings_view(self.log_messages@) =~= strings_view(before).push(line@));
        assert(strings_view(before).push(line@) =~= strings_view(before) + seq![line@]);
        self.log_visible = true;
    }

    /// The prefix in use.
    fn prefix_in_use(&self) -> (res: String)
        ensures
            res@ == effective_prefix(*self),
    {
        match &self.game_prefix_path {
            Some(p) => p.clone(),
            None => GamePrefixConfig::default_path(self.home.as_str()),
        }
    }

    fn on_config_loaded(&mut self, c: Config) -> (act: AppAction)
        ensures
            transition(*old(self), AppEvent::ConfigLoaded(Ok(c)), *final(self), act),
    {
        let expanded = c.proton.expanded_path();
        let proton_candidate = match expanded {
            Some(p) => Some(p),
            None => match &self.proton_env {
                Some(e) => Some(e.clone()),
                None => None,
            },
        };
        let prefix_candidate = c.game_prefix.expanded_path();
        let show_setup = c.proton.path.is_none();
        self.config = c;
        if show_setup {
            self.proton_setup_active = true;
        }
        AppAction::ResolvePaths { proton_candidate, prefix_candidate }
    }

    fn on_download_done(&mut self, result: Result<String, String>, proton_exists: bool, protontricks_exists: bool) -> (act: AppAction)
        ensures
            download_done(*old(self), result, proton_exists, protontricks_exists, *final(self), act),
    {
        self.proton_setup_active = false;
        self.proton_setup_progress = None;
        match result {
            Ok(path) => {
                match verify_proton_installation(path.as_str(), proton_exists, protontricks_exists) {
                    Err(e) => {
                        self.log(join2("Proton download succeeded but verification failed: ", e.as_str()));
                        AppAction::Nothing
                    },
                    Ok(()) => {
                        self.proton_path = Some(path.clone());
                        self.config.proton.path = Some(path);
                        self.log(String::from_str("Proton has been set up successfully!"));
                        AppAction::SaveConfig
                    },
                }
            },
            Err(e) => {
                self.log(join2("Proton download failed: ", e.as_str()));
                AppAction::Nothing
            },
        }
    }

    fn on_proton_chosen(&mut self, path: String, proton_exists: bool, protontricks_exists: bool) -> (act: AppAction)
        ensures
            proton_chosen(*old(self), path, proton_exists, protontricks_exists, *final(self), act),
    {
        match verify_proton_installation(path.as_str(), proton_exists, protontricks_exists) {
            Ok(()) => {
                self.proton_setup_active = false;
                self.proton_path = Some(path.clone());
                self.config.proton.path = Some(path);
                self.log(String::from_str("Proton path set successfully!"));
                AppAction::SaveConfig
            },
            Err(e) => {
                self.log(join2("Invalid Proton installation: ", e.as_str()));
                AppAction::Nothing
            },
        }
    }

    fn on_setup_probed(&mut self, prefix: String, prefix_exists: bool, candidates: Vec<(ToolEntry, bool)>) -> (act: AppAction)
        ensures
            setup_probed(*old(self), prefix, prefix_exists, candidates, *final(self), act),
    {
        if !prefix_exists {
            self.log(String::from_str("Game prefix does not exist. Please configure it first."));
            return AppAction::Nothing;
        }
        let chosen = tools_to_install(&candidates, &self.config.tools.selected);
        if chosen.len() == 0 {
            self.log(String::from_str("No tools selected for setup."));
            return AppAction::Nothing;
        }
        self.setup_active = true;
        self.setup_progress = Vec::new();
        self.setup_cancelled = false;
        let n = decimal_string(chosen.len() as u64);
        self.log(join3("Setting up ", n.as_str(), " tool(s)..."));
        AppAction::RunSetup { tools: chosen, prefix }
    }

    fn on_launch(&mut self, mode: LaunchMode) -> (act: AppAction)
        ensures
            launches(*old(self), mode, *final(self), act),
    {
        self.game_launched = true;
        match (&self.manifest, &self.game_prefix_path) {
            (Some(m), Some(p)) => {
                let tools = selected_tools(&m.tools, &self.config.tools.selected);
                AppAction::Launch {
                    mode,
                    tools,
                    prefix: p.clone(),
                    proton_path: self.config.proton.path.clone(),
                }
            },
            _ => {
                let (head, missing) = match mode {
                    LaunchMode::TrayAll => ("Tray launch all error: ", "Missing manifest or game prefix"),
                    _ => ("Launch error: ", "Missing manifest or game prefix configuration"),
                };
                AppAction::Report(join2(head, missing))
            },
        }
    }

    fn on_setup_done(&mut self, results: Vec<ToolSetupResult>)
        ensures
            transition(*old(self), AppEvent::SetupDone(results), *final(self), AppAction::Nothing),
    {
        let lines = setup_report_lines(&results);
        self.setup_active = false;
        self.setup_progress = results;
        let ghost before = self.log_messages@;
        let ghost mid = *self;
        let mut i: usize = 0;
        while i < lines.len()
            invariant
                i <= lines@.len(),
                *self == (AppState { log_messages: self.log_messages, ..mid }),
                strings_view(self.log_messages@) == strings_view(before) + strings_view(lines@.take(i as int)),
            decreases lines.len() - i,
        {
            let ghost prev = self.log_messages@;
            self.log_messages.push(lines[i].clone());
            assert(strings_view(lines@.take(i + 1)) =~= strings_view(lines@.take(i as int)).push(lines@[i as int]@));
            assert(strings_view(self.log_messages@) =~= strings_view(prev).push(lines@[i as int]@));
            i = i + 1;
        }
        assert(lines@.take(lines@.len() as int) =~= lines@);
        self.log_visible = true;
    }

    /// Handles `event` and says what the caller does next.
    pub fn update(&mut self, event: AppEvent) -> (act: AppAction)
        ensures
            transition(*old(self), event, *final(self), act),
    {
        match event {
            AppEvent::ManifestLoaded(Ok(m)) => {
                self.manifest = Some(m);
                AppAction::Nothing
            },
            AppEvent::ManifestLoaded(Err(e)) => {
                self.log(join2("Failed to load manifest: ", e.as_str()));
                AppAction::Nothing
            },
            AppEvent::ConfigLoaded(Ok(c)) => self.on_config_loaded(c),
            AppEvent::ConfigLoaded(Err(_)) => AppAction::Nothing,
            AppEvent::PathsResolved { proton, prefix_dir } => {
                self.proton_path = proton;
                let g = self.config.game_prefix.resolved_path(self.home.as_str(), prefix_dir);
                self.game_prefix_path = Some(g);
                AppAction::Nothing
            },
            AppEvent::ProtonPathSelected(path) => {
                self.proton_path = Some(path.clone());
                self.config.proton.path = Some(path);
                AppAction::SaveConfig
            },
            AppEvent::ProtonDownload => {
                self.proton_setup_active = true;
                self.proton_setup_progress = Some((String::from_str("Starting download..."), 0));
                AppAction::DownloadProton
            },
            AppEvent::ProtonDownloadProgress(m, p) => {
                self.proton_setup_progress = Some((m, p));
                AppAction::Nothing
            },
            AppEvent::ProtonDownloadDone { result, proton_exists, protontricks_exists } => {
                self.on_download_done(result, proton_exists, protontricks_exists)
            },
            AppEvent::ProtonBrowse => AppAction::OpenProtonDirectory {
                dir: proton_compatibility_dir(self.home.as_str()),
            },
            AppEvent::ProtonBrowseDone(r) => {
                if let Err(e) = r {
                    self.log(join2("Failed to open file explorer: ", e.as_str()));
                }
                AppAction::Nothing
            },
            AppEvent::ProtonPathSelect => {
                if self.setup_cancelled {
                    AppAction::Report(String::from_str("Cancelled"))
                } else {
                    AppAction::ChooseDirectory {
                        title: String::from_str("Select Proton Installation"),
                        target: DirTarget::Proton,
                    }
                }
            },
            AppEvent::ProtonPathChosen { path, proton_exists, protontricks_exists } => {
                self.on_proton_chosen(path, proton_exists, protontricks_exists)
            },
            AppEvent::GamePrefixSelect => {
                if self.setup_cancelled {
                    AppAction::Report(String::from_str("Cancelled"))
                } else {
                    AppAction::ChooseDirectory {
                        title: String::from_str("Select Sekiro Game Prefix"),
                        target: DirTarget::GamePrefix,
                    }
                }
            },
            AppEvent::GamePrefixChosen { path, is_dir } => {
                if is_dir {
                    self.game_prefix_path = Some(path.clone());
                    self.config.game_prefix.path = Some(path);
                    self.log(String::from_str("Game prefix set successfully!"));
                    AppAction::SaveConfig
                } else {
                    self.log(String::from_str("Selected path is not a directory."));
                    AppAction::Nothing
                }
            },
            AppEvent::ToolsDirectory => {
                let prefix = self.prefix_in_use();
                AppAction::OpenToolsDirectory { tools_dir: tools_directory(prefix.as_str()) }
            },
            AppEvent::ToolsDirectoryDone(r) => {
                if let Err(e) = r {
                    self.log(join2("Failed to open tools directory: ", e.as_str()));
                }
                AppAction::Nothing
            },
            AppEvent::Setup => {
                let prefix = self.prefix_in_use();
                let tools = match &self.manifest {
                    Some(m) => copy_tools(&m.tools),
                    None => Vec::new(),
                };
                AppAction::ProbeSetup { prefix, tools }
            },
            AppEvent::SetupProbed { prefix, prefix_exists, candidates } => {
                self.on_setup_probed(prefix, prefix_exists, candidates)
            },
            AppEvent::CancelSetup => {
                self.setup_cancelled = true;
                let ghost before = self.log_messages@;
                self.log_messages.push(String::from_str("Setup cancelled."));
                assert(strings_view(self.log_messages@) =~= strings_view(before).push("Setup cancelled."@));
                AppAction::Nothing
            },
            AppEvent::Launch => self.on_launch(LaunchMode::Normal),
            AppEvent::LaunchBypass => self.on_launch(LaunchMode::Bypass),
            AppEvent::TrayLaunchAll => self.on_launch(LaunchMode::TrayAll),
            AppEvent::TrayLaunchGame => {
                self.game_launched = true;
                AppAction::LaunchGame {
                    prefix: self.game_prefix_path.clone(),
                    proton_path: self.config.proton.path.clone(),
                }
            },
            AppEvent::ToggleTool(slug) => {
                toggle_slug(&mut self.config.tools.selected, slug);
                AppAction::SaveConfig
            },
            AppEvent::LogPush(m) => {
                self.log_messages.push(m);
                self.log_visible = true;
                AppAction::Nothing
            },
            AppEvent::LogToggle => {
                self.log_visible = !self.log_visible;
                AppAction::Nothing
            },
            AppEvent::LogDismiss => {
                self.log_visible = false;
                AppAction::Nothing
            },
            AppEvent::SetupDone(results) => {
                self.on_setup_done(results);
                AppAction::Nothing
            },
            AppEvent::CloseRequested => {
                if self.window_opened {
                    AppAction::HideWindow
                } else {
                    AppAction::Nothing
                }
            },
            AppEvent::TrayShowRequested => {
                if self.window_opened {
                    AppAction::ShowWindow
                } else {
                    AppAction::Nothing
                }
            },
            AppEvent::TrayQuitRequested => {
                if self.window_opened {
                    AppAction::CloseWindow
                } else {
                    AppAction::Exit
                }
            },
            AppEvent::WindowOpened => {
                self.window_opened = true;
                AppAction::Nothing
            },
        }
    }
}


/// The log only grows: whatever an event does, the lines already in the
/// log stay, in order, at its start.
pub proof fn lemma_log_only_grows(pre: AppState, ev: AppEvent, post: AppState, act: AppAction)
    requires
        transition(pre, ev, post, act),
    ensures
        log_of(pre).is_prefix_of(log_of(post)),
{
    let a = log_of(pre);
    let b = log_of(post);
    if pre.log_messages == post.log_messages {
        assert(b.subrange(0, a.len() as int) =~= a);
    } else {
        match ev {
            AppEvent::LogPush(m) => {
                assert(b =~= a.push(m@));
            },
            _ => {},
        }
        assert(b.subrange(0, a.len() as int) =~= a);
    }
}

/// Every change of the configuration that an event makes (apart from
/// loading it) is written back: the event asks for `SaveConfig`.
pub proof fn lemma_config_changes_are_saved(pre: AppState, ev: AppEvent, post: AppState, act: AppAction)
    requires
        transition(pre, ev, post, act),
        !(ev is ConfigLoaded),
        post.config != pre.config,
    ensures
        act is SaveConfig,
{
}

/// Once the game has been launched it counts as launched for good, so the
/// main screen keeps offering Re-launch Game outside a setup.
pub proof fn lemma_launched_stays_launched(pre: AppState, ev: AppEvent, post: AppState, act: AppAction)
    requires
        transition(pre, ev, post, act),
        pre.game_launched,
    ensures
        post.game_launched,
{
}

/// Toggling a tool flips whether it is selected, and a selection without
/// duplicates keeps none.
pub proof fn lemma_toggle_tool(pre: AppState, slug: String, post: AppState, act: AppAction)
    requires
        transition(pre, AppEvent::ToggleTool(slug), post, act),
    ensures
        strings_view(post.config.tools.selected@).contains(slug@) == !strings_view(
            pre.config.tools.selected@,
        ).contains(slug@),
        crate::selection::no_duplicates(strings_view(pre.config.tools.selected@))
            ==> crate::selection::no_duplicates(strings_view(post.config.tools.selected@)),
{
    crate::selection::lemma_toggled_flips(strings_view(pre.config.tools.selected@), slug@);
    if crate::selection::no_duplicates(strings_view(pre.config.tools.selected@)) {
        crate::selection::lemma_toggled_no_duplicates(strings_view(pre.config.tools.selected@), slug@);
    }
}

/// Toggling a tool that is not selected twice gives the selection back,
/// with the rest of the configuration and of the state unchanged.
pub proof fn lemma_toggle_tool_twice(
    s0: AppState,
    slug: String,
    s1: AppState,
    a1: AppAction,
    s2: AppState,
    a2: AppAction,
)
    requires
        transition(s0, AppEvent::ToggleTool(slug), s1, a1),
        transition(s1, AppEvent::ToggleTool(slug), s2, a2),
        !strings_view(s0.config.tools.selected@).contains(slug@),
    ensures
        strings_view(s2.config.tools.selected@) == strings_view(s0.config.tools.selected@),
        s2.config == (Config { tools: ToolsConfig { selected: s2.config.tools.selected, ..s0.config.tools }, ..s0.config }),
        s2 == (AppState { config: s2.config, ..s0 }),
{
    crate::selection::lemma_toggle_twice(strings_view(s0.config.tools.selected@), slug@);
}


/// The Proton setup screen opens only when a configuration without a Proton
/// path loads, or when a download starts.
pub proof fn lemma_setup_screen_opens(pre: AppState, ev: AppEvent, post: AppState, act: AppAction)
    requires
        transition(pre, ev, post, act),
        !pre.proton_setup_active,
        post.proton_setup_active,
    ensures
        ev is ProtonDownload || (ev matches AppEvent::ConfigLoaded(Ok(c)) && c.proton.path is None),
{
}

/// A tool setup starts only together with the action that runs it, and it
/// starts with the cancellation flag cleared and no results shown.
pub proof fn lemma_setup_starts_with_a_run(pre: AppState, ev: AppEvent, post: AppState, act: AppAction)
    requires
        transition(pre, ev, post, act),
    ensures
        (!pre.setup_active && post.setup_active) ==> act is RunSetup,
        act is RunSetup ==> post.setup_active && !post.setup_cancelled && post.setup_progress@.len() == 0,
{
}

/// Loading a configuration and then resolving its paths: the state holds
/// the loaded configuration, the prefix it resolves to, and the Proton path
/// found; the setup screen is shown when it was, or when the configuration
/// has no Proton path; the manifest and the log are untouched.
pub proof fn lemma_config_then_paths(
    s0: AppState,
    c: Config,
    s1: AppState,
    a1: AppAction,
    proton: Option<String>,
    prefix_dir: Option<String>,
    s2: AppState,
    a2: AppAction,
)
    requires
        transition(s0, AppEvent::ConfigLoaded(Ok(c)), s1, a1),
        transition(s1, AppEvent::PathsResolved { proton, prefix_dir }, s2, a2),
    ensures
        a1 is ResolvePaths,
        a2 is Nothing,
        s2.config == c,
        s2.proton_path == proton,
        s2.game_prefix_path matches Some(g) && g@ == resolved_prefix(c.game_prefix.path, prefix_dir, s0.home@),
        s2.proton_setup_active == (s0.proton_setup_active || c.proton.path is None),
        s2.manifest == s0.manifest,
        s2.log_messages == s0.log_messages,
        s2 == (AppState {
            config: c,
            proton_path: proton,
            game_prefix_path: s2.game_prefix_path,
            proton_setup_active: s2.proton_setup_active,
            ..s0
        }),
{
}

} // verus!
