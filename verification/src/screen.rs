//! What the window shows for a state: the Proton setup screen, or the main
//! screen with the tool list (or the setup progress), the footer buttons,
//! the prefix in use and the log.
use vstd::prelude::*;
use crate::app::{AppState, effective_prefix};
use crate::config::{GamePrefixConfig, strings_view, copy_strings};
use crate::selection::{picked, count_selected};
use crate::tools::ToolSetupResult;
use crate::ui::{ToolListView, ToolStatus, tool_list, cards_of, footer_of};
use crate::text::{join2, join3};

verus! {

/// The Proton setup screen.
#[derive(Debug)]
pub struct ProtonSetupView {
    /// The current step of the download, or "Ready to install".
    pub message: String,
    /// The download's progress in thousandths.
    pub permille: u32,
    /// A download is under way: the progress bar is shown.
    pub downloading: bool,
    /// The filled share of the progress bar, in hundredths (at least 1).
    pub bar_portion: u16,
}

/// What stands where the tool list goes.
#[derive(Debug)]
pub enum ToolArea {
    /// A setup runs: its result lines, with a Cancel button.
    SetupProgress(Vec<String>),
    /// The tool list.
    Tools(ToolListView),
    /// The manifest has not loaded yet.
    Loading,
}

/// The main screen.
#[derive(Debug)]
pub struct MainView {
    pub tool_area: ToolArea,
    /// The third footer button is Re-launch Game rather than Launch.
    pub relaunch: bool,
    /// The log panel's lines, when it is shown.
    pub log: Option<Vec<String>>,
    /// The game prefix shown in the configuration section.
    pub prefix_text: String,
}

/// What the window shows.
#[derive(Debug)]
pub enum Screen {
    ProtonSetup(ProtonSetupView),
    Main(MainView),
}

/// The line of a setup result while the setup runs.
pub open spec fn progress_line(r: ToolSetupResult) -> Seq<char> {
    if r.success {
        "✓ "@ + r.name@
    } else {
        match r.error {
            Some(e) => "✗ "@ + r.name@ + ": "@ + e@,
            None => "✗ "@ + r.name@,
        }
    }
}

/// The filled share of the progress bar for `permille`: the whole
/// percentage, at least 1 and at most what a `u16` holds.
pub open spec fn bar_portion_of(permille: u32) -> u16 {
    let pct = permille / 10;
    if pct < 1 {
        1
    } else if pct > 65535 {
        65535
    } else {
        pct as u16
    }
}

/// The Proton setup screen for the download progress `progress`.
pub open spec fn proton_setup_view_ok(progress: Option<(String, u32)>, v: ProtonSetupView) -> bool {
    let (m, p) = match progress {
        Some(q) => (q.0@, q.1),
        None => ("Ready to install"@, 0u32),
    };
    &&& v.message@ == m
    &&& v.permille == p
    &&& v.downloading == (progress is Some && p > 0)
    &&& v.bar_portion == bar_portion_of(p)
}

/// The line of `r` while the setup runs.
pub fn progress_line_of(r: &ToolSetupResult) -> (res: String)
    ensures
        res@ == progress_line(*r),
{
    if r.success {
        join2("✓ ", r.name.as_str())
    } else {
        match &r.error {
            Some(e) => {
                let head = join3("✗ ", r.name.as_str(), ": ");
                head.concat(e.as_str())
            },
            None => join2("✗ ", r.name.as_str()),
        }
    }
}

fn progress_lines(rs: &Vec<ToolSetupResult>) -> (res: Vec<String>)
    ensures
        strings_view(res@) == rs@.map_values(|r: ToolSetupResult| progress_line(r)),
{
    let mut out: Vec<String> = Vec::new();
    let mut i: usize = 0;
    while i < rs.len()
        invariant
            i <= rs@.len(),
            strings_view(out@) == rs@.take(i as int).map_values(|r: ToolSetupResult| progress_line(r)),
        decreases rs.len() - i,
    {
        let line = progress_line_of(&rs[i]);
        let ghost before = out@;
        out.push(line);
        assert(rs@.take(i + 1) =~= rs@.take(i as int).push(rs@[i as int]));
        assert(strings_view(out@) =~= strings_view(before).push(line@));
        assert(rs@.take(i + 1).map_values(|r: ToolSetupResult| progress_line(r)) =~= rs@.take(
            i as int,
        ).map_values(|r: ToolSetupResult| progress_line(r)).push(progress_line(rs@[i as int])));
        i = i + 1;
    }
    assert(rs@.take(rs@.len() as int) =~= rs@);
    out
}

fn proton_setup_view(progress: &Option<(String, u32)>) -> (res: ProtonSetupView)
    ensures
        proton_setup_view_ok(*progress, res),
{
    let (message, permille) = match progress {
        Some(q) => (q.0.clone(), q.1),
        None => (String::from_str("Ready to install"), 0u32),
    };
    let pct = permille / 10;
    let bar_portion: u16 = if pct < 1 {
        1
    } else if pct > 65535 {
        65535
    } else {
        pct as u16
    };
    ProtonSetupView { message, permille, downloading: progress.is_some() && permille > 0, bar_portion }
}

/// The main screen of `s` for the tool statuses `statuses`.
pub open spec fn main_view_ok(s: AppState, statuses: Seq<(String, ToolStatus)>, v: MainView) -> bool {
    &&& v.relaunch == (!s.setup_active && s.game_launched)
    &&& v.prefix_text@ == effective_prefix(s)
    &&& if s.log_visible {
        v.log matches Some(l) && l@ == s.log_messages@
    } else {
        v.log is None
    }
    &&& if s.setup_active {
        v.tool_area matches ToolArea::SetupProgress(lines) && strings_view(lines@)
            == s.setup_progress@.map_values(|r: ToolSetupResult| progress_line(r))
    } else {
        match s.manifest {
            Some(m) => v.tool_area matches ToolArea::Tools(tl) && tl.cards@ == cards_of(
                m.tools@,
                strings_view(s.config.tools.visible@),
                strings_view(s.config.tools.selected@),
                statuses,
            ) && tl.footer@ == footer_of(picked(m.tools@, strings_view(s.config.tools.selected@)).len()),
            None => v.tool_area is Loading,
        }
    }
}

impl AppState {
    /// What the window shows; `statuses` gives each tool's status tag.
    pub fn view(&self, statuses: &Vec<(String, ToolStatus)>) -> (res: Screen)
        ensures
            self.proton_setup_active ==> (res matches Screen::ProtonSetup(p) && proton_setup_view_ok(
                self.proton_setup_progress,
                p,
            )),
            !self.proton_setup_active ==> (res matches Screen::Main(m) && main_view_ok(*self, statuses@, m)),
    {
        if self.proton_setup_active {
            return Screen::ProtonSetup(proton_setup_view(&self.proton_setup_progress));
        }
        let tool_area = if self.setup_active {
            ToolArea::SetupProgress(progress_lines(&self.setup_progress))
        } else {
            match &self.manifest {
                Some(m) => {
                    let n = count_selected(&m.tools, &self.config.tools.selected);
                    ToolArea::Tools(tool_list(&m.tools, &self.config, n, statuses))
                },
                None => ToolArea::Loading,
            }
        };
        let log = if self.log_visible {
            Some(copy_strings(&self.log_messages))
        } else {
            None
        };
        let prefix_text = match &self.game_prefix_path {
            Some(p) => p.clone(),
            None => GamePrefixConfig::default_path(self.home.as_str()),
        };
        Screen::Main(
            MainView { tool_area, relaunch: !self.setup_active && self.game_launched, log, prefix_text },
        )
    }
}

} // verus!
