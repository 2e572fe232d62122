//! The search for the wine binary that starts the tools: the Proton build
//! the game runs under, then the configured Proton path, the
//! `SEKIRO_PROTON_PATH` variable, the newest protontricks GE-Proton, the
//! newest GE-Proton in each Steam compatibility tools directory, and last
//! the newest standard Steam Proton. The caller answers each query about
//! the file system and the environment.
use vstd::prelude::*;
use crate::config::{opt_view, strings_view};
use crate::launch::{
    ge_wine_of, dist_wine_of, ge_wine, dist_wine, is_latest_ge, ge_sortable, latest_ge_proton,
    starts_with_text, is_ge_proton_name, steam_base_candidates_of, steam_base_candidates,
    is_latest_steam, latest_steam_proton, is_steam_proton_name,
};
use crate::paths::{join_path, join, file_name_of, parent_of, strip_slashes, lemma_join_name};
use crate::text::join2;

verus! {

/// Where the search stands.
#[derive(Debug, Clone, Copy, PartialEq, Eq)]
pub enum WineStage {
    Begin,
    CheckGame,
    ExpandConfig,
    CheckConfig,
    ReadEnv,
    CheckEnv,
    ReadHome,
    ListTricks,
    CheckTricks,
    /// Listing the compatibility tools of Steam location `k`.
    ListCompat(usize),
    /// Checking for the GE layout in the newest build of location `k`.
    CheckCompatGe(usize),
    /// Checking the wine binary of the newest build of location `k`.
    CheckCompatWine(usize),
    /// Listing the standard Proton builds of the Steam libraries.
    Steam,
    /// Checking for the GE layout in the newest standard Proton build.
    CheckSteamGe,
    /// Checking for the standard layout in the newest standard Proton build.
    CheckSteamWine,
    Over,
}

/// A question for the caller, or the result.
#[derive(Debug)]
pub enum WineQuery {
    /// Does this path exist?
    Exists(String),
    /// Expand `~` and variables in the configured Proton path, as
    /// `ProtonConfig::expanded_path` does.
    Expand(String),
    /// The value of `SEKIRO_PROTON_PATH`.
    ReadEnv,
    /// The value of `HOME`.
    ReadHome,
    /// The names of the subdirectories of this directory, `None` when it
    /// cannot be read.
    ListDirs(String),
    /// The directories in `steamapps/common` of every Steam library, each
    /// with whether it holds a wine binary in either Proton layout.
    SteamProton,
    /// The search is over with this wine binary, or none.
    Done(Option<String>),
}

/// The caller's answer to the last query.
pub enum WineAnswer {
    Start,
    Exists(bool),
    Expanded(Option<String>),
    Env(Option<String>),
    Home(Option<String>),
    Dirs(Option<Vec<String>>),
    SteamProton(Vec<ProtonDirEntry>),
}

/// The model of a `WineQuery`.
pub enum WineQueryModel {
    Exists(Seq<char>),
    Expand(Seq<char>),
    ReadEnv,
    ReadHome,
    ListDirs(Seq<char>),
    SteamProton,
    Done(Option<Seq<char>>),
}

/// The model of a `WineAnswer`.
pub enum WineAnswerModel {
    Start,
    Exists(bool),
    Expanded(Option<Seq<char>>),
    Env(Option<Seq<char>>),
    Home(Option<Seq<char>>),
    Dirs(Option<Seq<Seq<char>>>),
    SteamProton(Seq<(Seq<char>, Seq<char>, bool)>),
}

impl View for WineQuery {
    type V = WineQueryModel;

    open spec fn view(&self) -> WineQueryModel {
        match self {
            WineQuery::Exists(p) => WineQueryModel::Exists(p@),
            WineQuery::Expand(p) => WineQueryModel::Expand(p@),
            WineQuery::ReadEnv => WineQueryModel::ReadEnv,
            WineQuery::ReadHome => WineQueryModel::ReadHome,
            WineQuery::ListDirs(p) => WineQueryModel::ListDirs(p@),
            WineQuery::SteamProton => WineQueryModel::SteamProton,
            WineQuery::Done(r) => WineQueryModel::Done(opt_view(*r)),
        }
    }
}

impl View for WineAnswer {
    type V = WineAnswerModel;

    open spec fn view(&self) -> WineAnswerModel {
        match self {
            WineAnswer::Start => WineAnswerModel::Start,
            WineAnswer::Exists(b) => WineAnswerModel::Exists(*b),
            WineAnswer::Expanded(p) => WineAnswerModel::Expanded(opt_view(*p)),
            WineAnswer::Env(p) => WineAnswerModel::Env(opt_view(*p)),
            WineAnswer::Home(p) => WineAnswerModel::Home(opt_view(*p)),
            WineAnswer::Dirs(d) => WineAnswerModel::Dirs(
                match d {
                    Some(v) => Some(strings_view(v@)),
                    None => None,
                },
            ),
            WineAnswer::SteamProton(es) => WineAnswerModel::SteamProton(entries_view(es@)),
        }
    }
}

/// A directory in `steamapps/common` of a Steam library: the directory it
/// lies in, its name, and whether it holds a wine binary in either Proton
/// layout (`files/bin/wine` or `dist/bin/wine`).
#[derive(Debug)]
pub struct ProtonDirEntry {
    pub parent: String,
    pub name: String,
    pub has_wine: bool,
}

/// The entries as (parent, name, has wine) texts.
pub open spec fn entries_view(es: Seq<ProtonDirEntry>) -> Seq<(Seq<char>, Seq<char>, bool)> {
    es.map_values(|e: ProtonDirEntry| (e.parent@, e.name@, e.has_wine))
}

/// The standard Proton builds among `es` that hold a wine binary, as
/// (parent, name), in order.
pub open spec fn steam_candidates(es: Seq<(Seq<char>, Seq<char>, bool)>) -> Seq<(Seq<char>, Seq<char>)>
    decreases es.len(),
{
    if es.len() == 0 {
        Seq::empty()
    } else if starts_with_text(es.last().1, "Proton-"@) && es.last().2 {
        steam_candidates(es.drop_last()).push((es.last().0, es.last().1))
    } else {
        steam_candidates(es.drop_last())
    }
}

/// The directory of the newest of the standard Proton builds `cs` (the
/// first of equal versions).
pub open spec fn newest_steam(cs: Seq<(Seq<char>, Seq<char>)>) -> Option<Seq<char>> {
    let names = cs.map_values(|c: (Seq<char>, Seq<char>)| c.1);
    if cs.len() == 0 {
        None
    } else {
        let i = choose|i: int| is_latest_steam(names, i);
        Some(join_path(cs[i].0, cs[i].1))
    }
}

/// The model of a search in progress.
pub struct WineModel {
    pub stage: WineStage,
    pub game_proton: Option<Seq<char>>,
    pub config_path: Option<Seq<char>>,
    pub home: Seq<char>,
    pub candidate: Seq<char>,
    pub dir: Seq<char>,
}

/// A search for the wine binary.
pub struct WineSearch {
    stage: WineStage,
    game_proton: Option<String>,
    config_path: Option<String>,
    home: String,
    candidate: String,
    dir: String,
}

impl View for WineSearch {
    type V = WineModel;

    closed spec fn view(&self) -> WineModel {
        WineModel {
            stage: self.stage,
            game_proton: opt_view(self.game_proton),
            config_path: opt_view(self.config_path),
            home: self.home@,
            candidate: self.candidate@,
            dir: self.dir@,
        }
    }
}

/// The GE-Proton builds among the directory names `ds`, in order.
pub open spec fn ge_only(ds: Seq<Seq<char>>) -> Seq<Seq<char>>
    decreases ds.len(),
{
    if ds.len() == 0 {
        ds
    } else if starts_with_text(ds.last(), "GE-Proton"@) {
        ge_only(ds.drop_last()).push(ds.last())
    } else {
        ge_only(ds.drop_last())
    }
}

/// The newest GE-Proton build among the listing `d` (a missing listing
/// counts as empty).
pub open spec fn newest_ge(d: Option<Seq<Seq<char>>>) -> Option<Seq<char>> {
    let names = match d {
        Some(v) => ge_only(v),
        None => Seq::<Seq<char>>::empty(),
    };
    if names.len() == 0 {
        None
    } else {
        Some(names[choose|i: int| is_latest_ge(names, i)])
    }
}

/// The location index of a stage is one of the four Steam locations.
pub open spec fn stage_ok(stage: WineStage) -> bool {
    match stage {
        WineStage::ListCompat(k) | WineStage::CheckCompatGe(k) | WineStage::CheckCompatWine(k) => k < 4,
        _ => true,
    }
}

/// The answer can be given to a search in stage `stage`.
pub open spec fn answer_fits(stage: WineStage, a: WineAnswerModel) -> bool {
    match stage {
        WineStage::Begin => a is Start,
        WineStage::CheckGame | WineStage::CheckConfig | WineStage::CheckEnv | WineStage::CheckTricks
        | WineStage::CheckCompatGe(_) | WineStage::CheckCompatWine(_) | WineStage::CheckSteamGe
        | WineStage::CheckSteamWine => a is Exists,
        WineStage::ExpandConfig => a is Expanded,
        WineStage::ReadEnv => a is Env,
        WineStage::ReadHome => a is Home,
        WineStage::ListTricks | WineStage::ListCompat(_) => a matches WineAnswerModel::Dirs(d)
            && ge_sortable(
            match d {
                Some(v) => ge_only(v),
                None => Seq::<Seq<char>>::empty(),
            },
        ),
        WineStage::Steam => a is SteamProton,
        WineStage::Over => false,
    }
}

/// The directory listed for the compatibility tools of location `k`.
pub open spec fn compat_dir_of(home: Seq<char>, k: int) -> Seq<char> {
    steam_base_candidates_of(home)[k] + "/compatibilitytools.d"@
}

/// The step that moves to the compatibility tools of location `k`, or to
/// the standard Steam Proton after the last one.
pub open spec fn to_compat(m: WineModel, k: int) -> (WineModel, WineQueryModel) {
    if k < 4 {
        (
            WineModel { stage: WineStage::ListCompat(k as usize), dir: compat_dir_of(m.home, k), ..m },
            WineQueryModel::ListDirs(compat_dir_of(m.home, k)),
        )
    } else {
        (WineModel { stage: WineStage::Steam, ..m }, WineQueryModel::SteamProton)
    }
}

/// The step after the game's Proton: the configured path when there is one,
/// else the environment variable.
pub open spec fn after_game(m: WineModel) -> (WineModel, WineQueryModel) {
    match m.config_path {
        Some(c) => (WineModel { stage: WineStage::ExpandConfig, ..m }, WineQueryModel::Expand(c)),
        None => (WineModel { stage: WineStage::ReadEnv, ..m }, WineQueryModel::ReadEnv),
    }
}

/// The search is over with `r`.
pub open spec fn finish(m: WineModel, r: Option<Seq<char>>) -> (WineModel, WineQueryModel) {
    (WineModel { stage: WineStage::Over, ..m }, WineQueryModel::Done(r))
}

/// Checks whether `cand` exists, in `stage`.
pub open spec fn check(m: WineModel, stage: WineStage, cand: Seq<char>) -> (WineModel, WineQueryModel) {
    (WineModel { stage: stage, candidate: cand, ..m }, WineQueryModel::Exists(cand))
}

/// One step of the search, as a table from stage and answer to the next
/// stage and query.
pub open spec fn wine_next(m: WineModel, a: WineAnswerModel) -> (WineModel, WineQueryModel) {
    match (m.stage, a) {
        (WineStage::Begin, _) => match m.game_proton {
            Some(g) => check(m, WineStage::CheckGame, ge_wine_of(g)),
            None => after_game(m),
        },
        (WineStage::CheckGame, WineAnswerModel::Exists(b)) => if b {
            finish(m, Some(m.candidate))
        } else {
            after_game(m)
        },
        (WineStage::ExpandConfig, WineAnswerModel::Expanded(e)) => match e {
            None => finish(m, None),
            Some(x) => check(m, WineStage::CheckConfig, ge_wine_of(x)),
        },
        (WineStage::CheckConfig, WineAnswerModel::Exists(b)) => if b {
            finish(m, Some(m.candidate))
        } else {
            (WineModel { stage: WineStage::ReadEnv, ..m }, WineQueryModel::ReadEnv)
        },
        (WineStage::ReadEnv, WineAnswerModel::Env(v)) => match v {
            Some(x) => check(m, WineStage::CheckEnv, ge_wine_of(x)),
            None => (WineModel { stage: WineStage::ReadHome, ..m }, WineQueryModel::ReadHome),
        },
        (WineStage::CheckEnv, WineAnswerModel::Exists(b)) => if b {
            finish(m, Some(m.candidate))
        } else {
            (WineModel { stage: WineStage::ReadHome, ..m }, WineQueryModel::ReadHome)
        },
        (WineStage::ReadHome, WineAnswerModel::Home(h)) => match h {
            None => finish(m, None),
            Some(x) => (
                WineModel { stage: WineStage::ListTricks, home: x, dir: x + "/.cache/protontricks/proton"@, ..m },
                WineQueryModel::ListDirs(x + "/.cache/protontricks/proton"@),
            ),
        },
        (WineStage::ListTricks, WineAnswerModel::Dirs(d)) => match newest_ge(d) {
            Some(n) => check(m, WineStage::CheckTricks, ge_wine_of(join_path(m.dir, n))),
            None => to_compat(m, 0),
        },
        (WineStage::CheckTricks, WineAnswerModel::Exists(b)) => if b {
            finish(m, Some(m.candidate))
        } else {
            to_compat(m, 0)
        },
        (WineStage::ListCompat(k), WineAnswerModel::Dirs(d)) => match newest_ge(d) {
            Some(n) => {
                let latest = join_path(m.dir, n);
                (
                    WineModel { stage: WineStage::CheckCompatGe(k), dir: latest, candidate: ge_wine_of(latest), ..m },
                    WineQueryModel::Exists(ge_wine_of(latest)),
                )
            },
            None => to_compat(m, k + 1),
        },
        (WineStage::CheckCompatGe(k), WineAnswerModel::Exists(b)) => {
            let cand = if b {
                ge_wine_of(m.dir)
            } else {
                dist_wine_of(m.dir)
            };
            check(m, WineStage::CheckCompatWine(k), cand)
        },
        (WineStage::CheckCompatWine(k), WineAnswerModel::Exists(b)) => if b {
            finish(m, Some(m.candidate))
        } else {
            to_compat(m, k + 1)
        },
        (WineStage::Steam, WineAnswerModel::SteamProton(es)) => match newest_steam(steam_candidates(es)) {
            Some(d) => check(WineModel { dir: d, ..m }, WineStage::CheckSteamGe, ge_wine_of(d)),
            None => finish(m, None),
        },
        (WineStage::CheckSteamGe, WineAnswerModel::Exists(b)) => if b {
            finish(m, Some(m.candidate))
        } else {
            check(m, WineStage::CheckSteamWine, dist_wine_of(m.dir))
        },
        (WineStage::CheckSteamWine, WineAnswerModel::Exists(b)) => if b {
            finish(m, Some(m.candidate))
        } else {
            finish(m, None)
        },
        _ => finish(m, None),
    }
}

/// A path whose final component is `wine`, in a directory named `bin`.
pub open spec fn is_wine_binary_path(w: Seq<char>) -> bool {
    &&& file_name_of(w) == Some("wine"@)
    &&& parent_of(w) matches Some(d) && file_name_of(d) == Some("bin"@)
}

proof fn lemma_bin_wine(x: Seq<char>)
    ensures
        is_wine_binary_path(join_path(join_path(x, "bin"@), "wine"@)),
{
    reveal_strlit("bin");
    reveal_strlit("wine");
    let b = join_path(x, "bin"@);
    assert forall|i: int| 0 <= i < "bin"@.len() implies "bin"@[i] != '/' by {}
    assert forall|i: int| 0 <= i < "wine"@.len() implies "wine"@[i] != '/' by {}
    lemma_join_name(x, "bin"@);
    lemma_join_name(b, "wine"@);
    assert(b.last() == 'n');
    assert(strip_slashes(b) == b);
}

/// Both Proton layouts put the wine binary at `bin/wine`.
pub proof fn lemma_wine_layouts(dir: Seq<char>)
    ensures
        is_wine_binary_path(ge_wine_of(dir)),
        is_wine_binary_path(dist_wine_of(dir)),
{
    lemma_bin_wine(join_path(dir, "files"@));
    lemma_bin_wine(join_path(dir, "dist"@));
}

/// In every checking stage the candidate is a `bin/wine` path.
pub open spec fn candidate_ok(m: WineModel) -> bool {
    match m.stage {
        WineStage::CheckGame | WineStage::CheckConfig | WineStage::CheckEnv | WineStage::CheckTricks
        | WineStage::CheckCompatGe(_) | WineStage::CheckCompatWine(_) | WineStage::CheckSteamGe
        | WineStage::CheckSteamWine => is_wine_binary_path(m.candidate),
        _ => true,
    }
}

/// Every path the search asks about is its candidate and a `bin/wine`
/// path, and a wine binary it settles on is the candidate whose existence
/// the caller has just confirmed.
pub proof fn lemma_found_wine_was_confirmed(m: WineModel, a: WineAnswerModel)
    requires
        stage_ok(m.stage),
        answer_fits(m.stage, a),
        candidate_ok(m),
    ensures
        candidate_ok(wine_next(m, a).0),
        wine_next(m, a).1 matches WineQueryModel::Exists(p) ==> wine_next(m, a).0.candidate == p,
        wine_next(m, a).1 matches WineQueryModel::Done(Some(w)) ==> a == WineAnswerModel::Exists(true) && w
            == m.candidate && is_wine_binary_path(w),
{
    lemma_wine_layouts(m.dir);
    match m.game_proton {
        Some(g) => lemma_wine_layouts(g),
        None => {},
    }
    match (m.stage, a) {
        (WineStage::ExpandConfig, WineAnswerModel::Expanded(Some(x))) => lemma_wine_layouts(x),
        (WineStage::ReadEnv, WineAnswerModel::Env(Some(x))) => lemma_wine_layouts(x),
        (WineStage::ListTricks, WineAnswerModel::Dirs(d)) => match newest_ge(d) {
            Some(n) => lemma_wine_layouts(join_path(m.dir, n)),
            None => {},
        },
        (WineStage::ListCompat(_), WineAnswerModel::Dirs(d)) => match newest_ge(d) {
            Some(n) => lemma_wine_layouts(join_path(m.dir, n)),
            None => {},
        },
        (WineStage::Steam, WineAnswerModel::SteamProton(es)) => match newest_steam(steam_candidates(es)) {
            Some(d) => lemma_wine_layouts(d),
            None => {},
        },
        _ => {},
    }
}

/// In a Steam compatibility tools directory, the newest GE-Proton build is
/// taken with the layout it has: its `files/bin/wine` is asked about first;
/// when that exists it is asked about again and, confirmed, ends the search;
/// only when it does not exist is `dist/bin/wine` of the same build tried.
pub proof fn lemma_compat_build_layout(m: WineModel, k: usize, d: Option<Seq<Seq<char>>>, n: Seq<char>)
    requires
        m.stage == WineStage::ListCompat(k),
        newest_ge(d) == Some(n),
    ensures
        ({
            let build = join_path(m.dir, n);
            let (m1, q1) = wine_next(m, WineAnswerModel::Dirs(d));
            let (m2, q2) = wine_next(m1, WineAnswerModel::Exists(true));
            let (m3, q3) = wine_next(m1, WineAnswerModel::Exists(false));
            &&& q1 == WineQueryModel::Exists(ge_wine_of(build))
            &&& q2 == WineQueryModel::Exists(ge_wine_of(build))
            &&& wine_next(m2, WineAnswerModel::Exists(true)).1 == WineQueryModel::Done(Some(ge_wine_of(build)))
            &&& q3 == WineQueryModel::Exists(dist_wine_of(build))
            &&& wine_next(m3, WineAnswerModel::Exists(true)).1 == WineQueryModel::Done(Some(dist_wine_of(build)))
        }),
{
}

/// The same for the newest standard Steam Proton build: its
/// `files/bin/wine`, when it exists, ends the search; otherwise its
/// `dist/bin/wine` is tried.
pub proof fn lemma_steam_build_layout(m: WineModel, es: Seq<(Seq<char>, Seq<char>, bool)>, build: Seq<char>)
    requires
        m.stage == WineStage::Steam,
        newest_steam(steam_candidates(es)) == Some(build),
    ensures
        ({
            let (m1, q1) = wine_next(m, WineAnswerModel::SteamProton(es));
            let (m3, q3) = wine_next(m1, WineAnswerModel::Exists(false));
            &&& q1 == WineQueryModel::Exists(ge_wine_of(build))
            &&& wine_next(m1, WineAnswerModel::Exists(true)).1 == WineQueryModel::Done(Some(ge_wine_of(build)))
            &&& q3 == WineQueryModel::Exists(dist_wine_of(build))
            &&& wine_next(m3, WineAnswerModel::Exists(true)).1 == WineQueryModel::Done(Some(dist_wine_of(build)))
        }),
{
}

/// The Proton build the game runs under is tried first: its GE-layout wine
/// binary is the first path asked about, and when it exists the search
/// ends with it.
pub proof fn lemma_game_proton_first(m: WineModel, g: Seq<char>)
    requires
        m.stage == WineStage::Begin,
        m.game_proton == Some(g),
    ensures
        wine_next(m, WineAnswerModel::Start).1 == WineQueryModel::Exists(ge_wine_of(g)),
        wine_next(wine_next(m, WineAnswerModel::Start).0, WineAnswerModel::Exists(true)).1
            == WineQueryModel::Done(Some(ge_wine_of(g))),
{
}

/// The names of `dirs` that are GE-Proton builds, in order.
fn ge_names(dirs: &Vec<String>) -> (res: Vec<String>)
    ensures
        strings_view(res@) == ge_only(strings_view(dirs@)),
{
    let mut out: Vec<String> = Vec::new();
    let ghost all = strings_view(dirs@);
    let mut i: usize = 0;
    while i < dirs.len()
        invariant
            i <= dirs@.len(),
            all == strings_view(dirs@),
            strings_view(out@) == ge_only(all.take(i as int)),
        decreases dirs.len() - i,
    {
        assert(all.take(i + 1).drop_last() =~= all.take(i as int));
        assert(all.take(i + 1).last() == dirs@[i as int]@);
        if is_ge_proton_name(dirs[i].as_str()) {
            let ghost before = out@;
            out.push(dirs[i].clone());
            assert(strings_view(out@) =~= strings_view(before).push(dirs@[i as int]@));
        }
        i = i + 1;
    }
    assert(all.take(dirs@.len() as int) =~= all);
    out
}

/// Whether the GE-Proton builds of the listing `d` can be ordered by
/// version, which a `Dirs` answer needs.
pub fn listing_sortable(d: &Option<Vec<String>>) -> (b: bool)
    ensures
        b == ge_sortable(
            match d {
                Some(v) => ge_only(strings_view(v@)),
                None => Seq::<Seq<char>>::empty(),
            },
        ),
{
    match d {
        None => true,
        Some(v) => {
            let names = ge_names(v);
            crate::launch::is_ge_sortable(&names)
        },
    }
}

/// The newest GE-Proton build in the listing `d`.
fn newest_ge_name(d: Option<Vec<String>>) -> (res: Option<String>)
    requires
        ge_sortable(match d {
            Some(v) => ge_only(strings_view(v@)),
            None => Seq::<Seq<char>>::empty(),
        }),
    ensures
        opt_view(res) == newest_ge(match d {
            Some(v) => Some(strings_view(v@)),
            None => None,
        }),
{
    match d {
        None => None,
        Some(v) => {
            let names = ge_names(&v);
            match latest_ge_proton(&names) {
                None => None,
                Some(i) => {
                    let ghost ns = strings_view(names@);
                    proof {
                        let c = choose|c: int| is_latest_ge(ns, c);
                        assert(c == i as int) by {
                            if c < i as int {
                                assert(crate::launch::version_lt(crate::launch::ge_key(ns[i as int]), crate::launch::ge_key(ns[c])));
                            } else if c > i as int {
                                assert(crate::launch::version_lt(crate::launch::ge_key(ns[c]), crate::launch::ge_key(ns[i as int])));
                            }
                        }
                    }
                    assert(ns[i as int] == names@[i as int]@);
                    Some(names[i].clone())
                },
            }
        },
    }
}

/// The directory of the newest standard Proton build among `es` that
/// holds a wine binary.
fn newest_steam_dir(es: &Vec<ProtonDirEntry>) -> (res: Option<String>)
    ensures
        opt_view(res) == newest_steam(steam_candidates(entries_view(es@))),
{
    let ghost all = entries_view(es@);
    let mut parents: Vec<String> = Vec::new();
    let mut names: Vec<String> = Vec::new();
    let mut i: usize = 0;
    while i < es.len()
        invariant
            i <= es@.len(),
            all == entries_view(es@),
            parents@.len() == names@.len(),
            parents@.len() == steam_candidates(all.take(i as int)).len(),
            forall|k: int|
                0 <= k < parents@.len() ==> (parents@[k]@, names@[k]@) == #[trigger] steam_candidates(
                    all.take(i as int),
                )[k],
        decreases es.len() - i,
    {
        assert(all.take(i + 1).drop_last() =~= all.take(i as int));
        assert(all.take(i + 1).last() == all[i as int]);
        if is_steam_proton_name(es[i].name.as_str()) && es[i].has_wine {
            parents.push(es[i].parent.clone());
            names.push(es[i].name.clone());
        }
        i = i + 1;
    }
    assert(all.take(es@.len() as int) =~= all);
    let ghost cs = steam_candidates(all);
    let ghost ns = cs.map_values(|c: (Seq<char>, Seq<char>)| c.1);
    assert(strings_view(names@) =~= ns);
    match latest_steam_proton(&names) {
        None => None,
        Some(j) => {
            proof {
                let c = choose|c: int| is_latest_steam(ns, c);
                assert(c == j as int) by {
                    if c < j as int {
                        assert(crate::launch::version_lt(
                            crate::launch::steam_version_of(ns[j as int]),
                            crate::launch::steam_version_of(ns[c]),
                        ));
                    } else if c > j as int {
                        assert(crate::launch::version_lt(
                            crate::launch::steam_version_of(ns[c]),
                            crate::launch::steam_version_of(ns[j as int]),
                        ));
                    }
                }
                assert(cs[j as int] == (parents@[j as int]@, names@[j as int]@));
            }
            Some(join(parents[j].as_str(), names[j].as_str()))
        },
    }
}

impl WineSearch {
    /// A search that tries `game_proton` (the Proton directory of the
    /// running game) and then `config_path` (the configured Proton path);
    /// answer `Start` first.
    pub fn new(game_proton: Option<String>, config_path: Option<String>) -> (res: Self)
        ensures
            stage_ok(res@.stage),
            res@.stage == WineStage::Begin,
            res@.game_proton == opt_view(game_proton),
            res@.config_path == opt_view(config_path),
    {
        WineSearch {
            stage: WineStage::Begin,
            game_proton,
            config_path,
            home: String::new(),
            candidate: String::new(),
            dir: String::new(),
        }
    }

    fn after_game(&mut self) -> (res: WineQuery)
        ensures
            stage_ok(final(self)@.stage),
            (final(self)@, res@) == after_game(old(self)@),
    {
        match &self.config_path {
            Some(c) => {
                let q = WineQuery::Expand(c.clone());
                self.stage = WineStage::ExpandConfig;
                q
            },
            None => {
                self.stage = WineStage::ReadEnv;
                WineQuery::ReadEnv
            },
        }
    }

    fn to_compat(&mut self, k: usize) -> (res: WineQuery)
        requires
            k <= 4,
        ensures
            stage_ok(final(self)@.stage),
            (final(self)@, res@) == to_compat(old(self)@, k as int),
    {
        if k < 4 {
            let bases = steam_base_candidates(self.home.as_str());
            assert(bases@.len() == strings_view(bases@).len());
            assert(strings_view(bases@)[k as int] == bases@[k as int]@);
            let dir = join2(bases[k].as_str(), "/compatibilitytools.d");
            self.dir = dir.clone();
            self.stage = WineStage::ListCompat(k);
            WineQuery::ListDirs(dir)
        } else {
            self.stage = WineStage::Steam;
            WineQuery::SteamProton
        }
    }

    fn finish(&mut self, r: Option<String>) -> (res: WineQuery)
        ensures
            stage_ok(final(self)@.stage),
            (final(self)@, res@) == finish(old(self)@, opt_view(r)),
    {
        self.stage = WineStage::Over;
        WineQuery::Done(r)
    }

    fn check(&mut self, stage: WineStage, cand: String) -> (res: WineQuery)
        ensures
            final(self)@.stage == stage,
            (final(self)@, res@) == check(old(self)@, stage, cand@),
    {
        self.stage = stage;
        self.candidate = cand.clone();
        WineQuery::Exists(cand)
    }

    /// Where the search stands.
    pub fn stage(&self) -> (res: WineStage)
        ensures
            res == self@.stage,
    {
        self.stage
    }

    /// Takes the answer to the last query and asks the next one.
    pub fn step(&mut self, answer: WineAnswer) -> (res: WineQuery)
        requires
            stage_ok(old(self)@.stage),
            answer_fits(old(self)@.stage, answer@),
        ensures
            stage_ok(final(self)@.stage),
            (final(self)@, res@) == wine_next(old(self)@, answer@),
    {
        match (self.stage, answer) {
            (WineStage::Begin, _) => match &self.game_proton {
                Some(g) => {
                    let c = ge_wine(g.as_str());
                    self.check(WineStage::CheckGame, c)
                },
                None => self.after_game(),
            },
            (WineStage::CheckGame, WineAnswer::Exists(b)) => {
                if b {
                    let c = self.candidate.clone();
                    self.finish(Some(c))
                } else {
                    self.after_game()
                }
            },
            (WineStage::ExpandConfig, WineAnswer::Expanded(e)) => match e {
                None => self.finish(None),
                Some(x) => {
                    let c = ge_wine(x.as_str());
                    self.check(WineStage::CheckConfig, c)
                },
            },
            (WineStage::CheckConfig, WineAnswer::Exists(b)) => {
                if b {
                    let c = self.candidate.clone();
                    self.finish(Some(c))
                } else {
                    self.stage = WineStage::ReadEnv;
                    WineQuery::ReadEnv
                }
            },
            (WineStage::ReadEnv, WineAnswer::Env(v)) => match v {
                Some(x) => {
                    let c = ge_wine(x.as_str());
                    self.check(WineStage::CheckEnv, c)
                },
                None => {
                    self.stage = WineStage::ReadHome;
                    WineQuery::ReadHome
                },
            },
            (WineStage::CheckEnv, WineAnswer::Exists(b)) => {
                if b {
                    let c = self.candidate.clone();
                    self.finish(Some(c))
                } else {
                    self.stage = WineStage::ReadHome;
                    WineQuery::ReadHome
                }
            },
            (WineStage::ReadHome, WineAnswer::Home(h)) => match h {
                None => self.finish(None),
                Some(x) => {
                    let dir = join2(x.as_str(), "/.cache/protontricks/proton");
                    self.home = x;
                    self.dir = dir.clone();
                    self.stage = WineStage::ListTricks;
                    WineQuery::ListDirs(dir)
                },
            },
            (WineStage::ListTricks, WineAnswer::Dirs(d)) => match newest_ge_name(d) {
                Some(n) => {
                    let latest = join(self.dir.as_str(), n.as_str());
                    let c = ge_wine(latest.as_str());
                    self.check(WineStage::CheckTricks, c)
                },
                None => self.to_compat(0),
            },
            (WineStage::CheckTricks, WineAnswer::Exists(b)) => {
                if b {
                    let c = self.candidate.clone();
                    self.finish(Some(c))
                } else {
                    self.to_compat(0)
                }
            },
            (WineStage::ListCompat(k), WineAnswer::Dirs(d)) => match newest_ge_name(d) {
                Some(n) => {
                    let latest = join(self.dir.as_str(), n.as_str());
                    let c = ge_wine(latest.as_str());
                    self.dir = latest;
                    self.candidate = c.clone();
                    self.stage = WineStage::CheckCompatGe(k);
                    WineQuery::Exists(c)
                },
                None => self.to_compat(k + 1),
            },
            (WineStage::CheckCompatGe(k), WineAnswer::Exists(b)) => {
                let c = if b {
                    ge_wine(self.dir.as_str())
                } else {
                    dist_wine(self.dir.as_str())
                };
                self.check(WineStage::CheckCompatWine(k), c)
            },
            (WineStage::CheckCompatWine(k), WineAnswer::Exists(b)) => {
                if b {
                    let c = self.candidate.clone();
                    self.finish(Some(c))
                } else {
                    self.to_compat(k + 1)
                }
            },
            (WineStage::Steam, WineAnswer::SteamProton(es)) => match newest_steam_dir(&es) {
                Some(d) => {
                    let c = ge_wine(d.as_str());
                    self.dir = d;
                    self.check(WineStage::CheckSteamGe, c)
                },
                None => self.finish(None),
            },
            (WineStage::CheckSteamGe, WineAnswer::Exists(b)) => {
                if b {
                    let c = self.candidate.clone();
                    self.finish(Some(c))
                } else {
                    let c = dist_wine(self.dir.as_str());
                    self.check(WineStage::CheckSteamWine, c)
                }
            },
            (WineStage::CheckSteamWine, WineAnswer::Exists(b)) => {
                if b {
                    let c = self.candidate.clone();
                    self.finish(Some(c))
                } else {
                    self.finish(None)
                }
            },
            _ => self.finish(None),
        }
    }
}

} // verus!
